use passepartui::actions::{Action, NavigationAction, PasswordAction};
use passepartui::app::{App, MainState};
use passepartui::components::password_store::PasswordInfo;
use passepartui::components::password_details::FieldKind;
use passepartui::components::{Component, Dashboard, PasswordDetails};
use passepartui::request::{Operation, Request};

fn pair() -> Vec<PasswordInfo> {
    ["alpha", "beta"].iter().map(|id| PasswordInfo::new(id.to_string(), None)).collect()
}

fn file(pass_id: &str, contents: &str) -> Action {
    Action::DisplaySecrets { pass_id: pass_id.to_string(), file_contents: contents.to_string() }
}

fn code(pass_id: &str, otp: &str) -> Action {
    Action::DisplayOneTimePassword { pass_id: pass_id.to_string(), otp: otp.to_string() }
}

fn text(value: &str) -> Option<String> {
    Some(value.to_string())
}

#[test]
fn a_decrypted_file_fills_the_details_and_asks_for_the_one_time_password() {
    let mut app = App::new(false, pair());
    app.dispatch_action(Action::Navigation(NavigationAction::Secrets));
    let requests = app.dispatch_action(file("alpha", "p@ss\nuser\notpauth://totp/...\n"));
    let details = app.dashboard().password_details();
    assert_eq!(details.password(), &text("p@ss"));
    assert_eq!(details.login(), &text("user"));
    assert_eq!(details.one_time_password(), &text("******"));
    assert_eq!(details.line_count(), Some(3));
    assert!(details.show_secrets());
    assert_eq!(requests.len(), 1);
    match &requests[0] {
        Request::Run { operation, pass_id, file_name, blocking, .. } => {
            assert_eq!(*operation, Operation::FetchOtp);
            assert_eq!(pass_id, "alpha");
            assert_eq!(file_name, "alpha.gpg");
            assert!(!*blocking);
        }
        _ => panic!("no operation was requested"),
    }
    assert_eq!(app.dashboard().status_bar().text(), "⧗ Fetching one-time password...");
    assert_eq!(app.dashboard().file_popup().pass_id(), &text("alpha"));
    assert_eq!(app.dashboard().file_popup().content(), &text("p@ss\nuser\notpauth://totp/...\n"));
}

#[test]
fn the_follow_up_of_a_file_with_parameters_is_fetch_otp() {
    let mut dashboard = Dashboard::new(false, pair());
    let outcome = dashboard.update(file("alpha", "p\nl\nnote\notpauth://totp/x"));
    assert_eq!(outcome.follow_up, Some(Action::Password(PasswordAction::FetchOtp)));
    assert!(outcome.request.is_none());
    assert_eq!(dashboard.password_details().line_count(), Some(4));
}

#[test]
fn a_file_for_another_entry_changes_no_secret() {
    let mut dashboard = Dashboard::new(false, pair());
    dashboard.update(Action::Navigation(NavigationAction::Secrets));
    dashboard.update(file("alpha", "first\nlogin"));
    dashboard.update(Action::SetStatus("busy".to_string()));
    let outcome = dashboard.update(file("beta", "other\nname\notpauth://totp/y"));
    assert_eq!(outcome.follow_up, None);
    assert!(outcome.request.is_none());
    let details = dashboard.password_details();
    assert_eq!(details.pass_id(), &text("alpha"));
    assert_eq!(details.password(), &text("first"));
    assert_eq!(details.login(), &text("login"));
    assert_eq!(details.one_time_password(), &None);
    assert_eq!(details.line_count(), Some(2));
    assert_eq!(dashboard.file_popup().pass_id(), &text("alpha"));
    assert_eq!(dashboard.file_popup().content(), &text("first\nlogin"));
    assert_eq!(dashboard.status_bar().text(), "Ready");
}

#[test]
fn a_one_time_password_for_another_entry_is_not_shown() {
    let mut dashboard = Dashboard::new(false, pair());
    dashboard.update(code("beta", "123456"));
    assert_eq!(dashboard.password_details().one_time_password(), &None);
    dashboard.update(code("alpha", "654321"));
    assert_eq!(dashboard.password_details().one_time_password(), &text("654321"));
    dashboard.update(code("beta", "000000"));
    assert_eq!(dashboard.password_details().one_time_password(), &text("654321"));
}

#[test]
fn a_result_for_an_entry_that_was_selected_before_is_dropped() {
    let mut dashboard = Dashboard::new(false, pair());
    dashboard.update(Action::Navigation(NavigationAction::Secrets));
    let asked = dashboard.update(Action::Password(PasswordAction::Fetch));
    assert!(asked.request.is_some());
    dashboard.update(Action::Navigation(NavigationAction::Down));
    dashboard.update(file("alpha", "late\nanswer"));
    let details = dashboard.password_details();
    assert_eq!(details.pass_id(), &text("beta"));
    assert_eq!(details.password(), &None);
    assert_eq!(details.login(), &None);
    assert_eq!(dashboard.file_popup().content(), &None);
}

#[test]
fn a_file_without_parameters_asks_for_nothing() {
    let mut app = App::new(false, pair());
    let requests = app.dispatch_action(file("alpha", "secret\nme@example.org\nurl: otpauth://x"));
    assert!(requests.is_empty());
    let details = app.dashboard().password_details();
    assert_eq!(details.password(), &text("secret"));
    assert_eq!(details.login(), &text("me@example.org"));
    assert_eq!(details.one_time_password(), &None);
    assert_eq!(details.line_count(), Some(3));
}

#[test]
fn parameters_on_any_line_count() {
    let mut dashboard = Dashboard::new(false, pair());
    let outcome = dashboard.update(file("alpha", "pw\notpauth://totp/x?secret=JBSWY3DP"));
    assert_eq!(outcome.follow_up, Some(Action::Password(PasswordAction::FetchOtp)));
    assert_eq!(dashboard.password_details().password(), &text("pw"));
    assert_eq!(dashboard.password_details().login(), &text("otpauth://totp/x?secret=JBSWY3DP"));
    assert_eq!(dashboard.password_details().one_time_password(), &text("******"));
    assert_eq!(dashboard.password_details().line_count(), Some(2));
    let mut dashboard = Dashboard::new(false, pair());
    let outcome = dashboard.update(file("alpha", "otpauth://totp/a"));
    assert_eq!(outcome.follow_up, Some(Action::Password(PasswordAction::FetchOtp)));
    assert_eq!(dashboard.password_details().password(), &text("otpauth://totp/a"));
    assert_eq!(dashboard.password_details().login(), &None);
    assert_eq!(dashboard.password_details().one_time_password(), &text("******"));
}

#[test]
fn read_lines_finds_parameters_on_the_first_two_lines() {
    let lines = |texts: &[&str]| -> Vec<String> { texts.iter().map(|l| l.to_string()).collect() };
    assert!(PasswordDetails::new().read_lines(&lines(&["otpauth://a"])));
    assert!(PasswordDetails::new().read_lines(&lines(&["pw", "otpauth://a"])));
    assert!(PasswordDetails::new().read_lines(&lines(&["pw", "name", "otpauth://a"])));
    assert!(!PasswordDetails::new().read_lines(&lines(&["pw", "name", " otpauth://a"])));
    assert!(!PasswordDetails::new().read_lines(&lines(&["pw", "otpauth:/"])));
    assert!(!PasswordDetails::new().read_lines(&lines(&[])));
}

#[test]
fn short_and_empty_files() {
    let mut dashboard = Dashboard::new(false, pair());
    dashboard.update(file("alpha", ""));
    assert_eq!(dashboard.password_details().password(), &None);
    assert_eq!(dashboard.password_details().login(), &None);
    assert_eq!(dashboard.password_details().line_count(), Some(0));
    assert_eq!(dashboard.file_popup().content(), &text(""));
    dashboard.update(file("alpha", "only"));
    assert_eq!(dashboard.password_details().password(), &text("only"));
    assert_eq!(dashboard.password_details().login(), &None);
    assert_eq!(dashboard.password_details().line_count(), Some(1));
}

#[test]
fn lines_end_at_line_feeds_with_or_without_carriage_returns() {
    let mut dashboard = Dashboard::new(false, pair());
    let outcome = dashboard.update(file("alpha", "pw\r\nname\r\n\r\notpauth://totp/z\r\n"));
    assert_eq!(dashboard.password_details().password(), &text("pw"));
    assert_eq!(dashboard.password_details().login(), &text("name"));
    assert_eq!(dashboard.password_details().line_count(), Some(4));
    assert_eq!(outcome.follow_up, Some(Action::Password(PasswordAction::FetchOtp)));
}

#[test]
fn read_lines_takes_the_lines_as_they_are_given() {
    let mut details = PasswordDetails::new();
    let lines: Vec<String> =
        ["one", "two", "x otpauth://", "otpauth://"].iter().map(|line| line.to_string()).collect();
    assert!(details.read_lines(&lines));
    assert_eq!(details.password(), &text("one"));
    assert_eq!(details.login(), &text("two"));
    assert_eq!(details.line_count(), Some(4));
    assert_eq!(details.one_time_password(), &text("******"));
    let mut details = PasswordDetails::new();
    let lines: Vec<String> = ["one", "two", "Otpauth://"].iter().map(|l| l.to_string()).collect();
    assert!(!details.read_lines(&lines));
    assert_eq!(details.one_time_password(), &None);
}

#[test]
fn leaving_the_secrets_forgets_them_but_keeps_the_entry() {
    let mut app = App::new(false, pair());
    app.dispatch_action(Action::Navigation(NavigationAction::Secrets));
    app.dispatch_action(file("alpha", "pw\nname\notpauth://totp/z"));
    app.dispatch_action(code("alpha", "123456"));
    assert_eq!(app.dashboard().password_details().one_time_password(), &text("123456"));
    app.dispatch_action(Action::Navigation(NavigationAction::Back));
    assert_eq!(app.dashboard().app_state().main, MainState::Preview);
    let details = app.dashboard().password_details();
    assert_eq!(details.pass_id(), &text("alpha"));
    assert!(!details.show_secrets());
    assert_eq!(details.password(), &None);
    assert_eq!(details.login(), &None);
    assert_eq!(details.one_time_password(), &None);
    assert_eq!(details.line_count(), Some(3));
    assert_eq!(app.dashboard().file_popup().content(), &None);
    app.dispatch_action(Action::Navigation(NavigationAction::Down));
    assert_eq!(app.dashboard().password_details().line_count(), None);
}

#[test]
fn selecting_the_same_entry_again_keeps_what_is_shown() {
    let mut dashboard = Dashboard::new(false, pair());
    dashboard.update(file("alpha", "pw\nname"));
    dashboard.update(Action::SetStatus("note".to_string()));
    dashboard.update(Action::Navigation(NavigationAction::Select(0)));
    assert_eq!(dashboard.password_details().password(), &text("pw"));
    assert_eq!(dashboard.status_bar().text(), "note");
    dashboard.update(Action::Navigation(NavigationAction::Select(1)));
    assert_eq!(dashboard.password_details().password(), &None);
    assert_eq!(dashboard.password_details().pass_id(), &text("beta"));
    assert_eq!(dashboard.status_bar().text(), "Ready");
    assert_eq!(dashboard.file_popup().content(), &None);
}

#[test]
fn status_actions_set_and_reset_the_status_line() {
    let mut dashboard = Dashboard::new(false, pair());
    assert_eq!(dashboard.status_bar().text(), "Ready");
    dashboard.update(Action::SetStatus("working".to_string()));
    assert_eq!(dashboard.status_bar().text(), "working");
    dashboard.update(Action::ResetStatus);
    assert_eq!(dashboard.status_bar().text(), "Ready");
    dashboard.update(Action::SetStatus("working".to_string()));
    dashboard.update(Action::NoOp);
    dashboard.update(Action::Redraw);
    assert_eq!(dashboard.status_bar().text(), "working");
}

#[test]
fn fields_are_on_show_once_their_value_is_known_and_secrets_may_be_shown() {
    let mut dashboard = Dashboard::new(false, pair());
    let every = [
        FieldKind::PassId,
        FieldKind::Lines,
        FieldKind::Password,
        FieldKind::Otp,
        FieldKind::Login,
    ];
    let shown = |dashboard: &Dashboard| -> Vec<bool> {
        every.iter().map(|kind| dashboard.password_details().shows(*kind)).collect()
    };
    assert_eq!(shown(&dashboard), vec![true, false, true, false, false]);
    assert_eq!(dashboard.password_details().slots(), 1);
    dashboard.update(file("alpha", "pw\nname\notpauth://totp/z"));
    assert_eq!(shown(&dashboard), vec![true, false, true, false, false]);
    assert_eq!(dashboard.password_details().slots(), 3);
    assert_eq!(dashboard.password_details().text(FieldKind::Password), None);
    dashboard.update(Action::Navigation(NavigationAction::Secrets));
    assert_eq!(shown(&dashboard), vec![true, true, true, true, true]);
    let details = dashboard.password_details();
    assert_eq!(details.text(FieldKind::PassId), Some(&"alpha".to_string()));
    assert_eq!(details.text(FieldKind::Password), Some(&"pw".to_string()));
    assert_eq!(details.text(FieldKind::Login), Some(&"name".to_string()));
    assert_eq!(details.text(FieldKind::Otp), Some(&"******".to_string()));
    assert_eq!(details.text(FieldKind::Lines), None);
    let empty = Dashboard::new(false, Vec::new());
    assert_eq!(shown(&empty), vec![false, false, false, false, false]);
    assert_eq!(empty.password_details().slots(), 1);
}

#[test]
fn a_file_with_one_line_makes_room_for_the_password_alone() {
    let mut dashboard = Dashboard::new(false, pair());
    dashboard.update(Action::Navigation(NavigationAction::Secrets));
    dashboard.update(file("alpha", "pw"));
    assert_eq!(dashboard.password_details().slots(), 1);
    assert!(dashboard.password_details().shows(FieldKind::Lines));
    assert!(!dashboard.password_details().shows(FieldKind::Login));
    assert!(!dashboard.password_details().shows(FieldKind::Otp));
}

fn lines_of(contents: &str) -> (Option<String>, Option<String>, Option<usize>) {
    let mut dashboard = Dashboard::new(false, pair());
    dashboard.update(file("alpha", contents));
    let details = dashboard.password_details();
    (details.password().clone(), details.login().clone(), details.line_count())
}

#[test]
fn a_line_ending_at_the_end_starts_no_further_line() {
    assert_eq!(lines_of(""), (None, None, Some(0)));
    assert_eq!(lines_of("\n"), (text(""), None, Some(1)));
    assert_eq!(lines_of("a"), (text("a"), None, Some(1)));
    assert_eq!(lines_of("a\n"), (text("a"), None, Some(1)));
    assert_eq!(lines_of("a\nb"), (text("a"), text("b"), Some(2)));
    assert_eq!(lines_of("a\nb\n"), (text("a"), text("b"), Some(2)));
    assert_eq!(lines_of("a\n\n"), (text("a"), text(""), Some(2)));
    assert_eq!(lines_of("\n\nc"), (text(""), text(""), Some(3)));
}

#[test]
fn a_carriage_return_goes_with_the_line_feed_behind_it_alone() {
    assert_eq!(lines_of("a\r\nb\r\n"), (text("a"), text("b"), Some(2)));
    assert_eq!(lines_of("\r\n"), (text(""), None, Some(1)));
    assert_eq!(lines_of("a\r"), (text("a\r"), None, Some(1)));
    assert_eq!(lines_of("a\rb\n"), (text("a\rb"), None, Some(1)));
    assert_eq!(lines_of("a\r\r\n"), (text("a\r"), None, Some(1)));
    assert_eq!(lines_of("a\n\rb"), (text("a"), text("\rb"), Some(2)));
    assert_eq!(lines_of("a\n\r"), (text("a"), text("\r"), Some(2)));
}

#[test]
fn update_pass_details_takes_in_the_file_of_the_selected_entry() {
    let mut dashboard = Dashboard::new(false, vec![PasswordInfo::new("alpha".to_string(), None)]);
    let action = dashboard
        .update_pass_details("alpha".to_string(), "pw\notpauth://totp/x?secret=JBSWY3DP".to_string());
    assert_eq!(action, Some(Action::Password(PasswordAction::FetchOtp)));
    assert_eq!(dashboard.password_details().password(), &text("pw"));
    assert_eq!(dashboard.password_details().one_time_password(), &text("******"));
    assert_eq!(dashboard.file_popup().pass_id(), &text("alpha"));
    let action = dashboard.update_pass_details("beta".to_string(), "other".to_string());
    assert_eq!(action, None);
    assert_eq!(dashboard.password_details().password(), &text("pw"));
    assert_eq!(dashboard.file_popup().content(), &text("pw\notpauth://totp/x?secret=JBSWY3DP"));
}
