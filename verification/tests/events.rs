use passepartui::actions::Action;
use passepartui::app::App;
use passepartui::event::{copy_id_report, OperationError, PasswordEvent};
use passepartui::events::ChannelEvent;
use passepartui::request::Operation;

fn shell() -> App {
    App::new(false, Vec::new())
}

fn status(message: &str) -> Option<Action> {
    Some(Action::SetStatus(message.to_string()))
}

#[test]
fn a_status_event_sets_or_resets_the_status() {
    let app = shell();
    assert_eq!(app.handle_channel_event(PasswordEvent::Status(Ok(None))), Some(Action::ResetStatus));
    assert_eq!(
        app.handle_channel_event(PasswordEvent::Status(Ok(Some("done".to_string())))),
        status("done")
    );
}

#[test]
fn a_failure_is_shown_with_its_kind() {
    let app = shell();
    let failed = |error| app.handle_channel_event(PasswordEvent::Status(Err(error)));
    assert_eq!(
        failed(OperationError::Pass("\"no login found\"".to_string())),
        status("✗ (pass) \"no login found\"")
    );
    assert_eq!(
        failed(OperationError::Clipboard("ClipboardNotSupported".to_string())),
        status("✗ Clipboard error: ClipboardNotSupported")
    );
    assert_eq!(
        failed(OperationError::Other("Io(NotFound)".to_string())),
        status("✗ Io(NotFound)")
    );
    assert_eq!(failed(OperationError::Other(String::new())), status("✗ "));
}

#[test]
fn fetched_secrets_become_display_actions() {
    let app = shell();
    assert_eq!(
        app.handle_channel_event(PasswordEvent::PasswordFile {
            pass_id: "alpha".to_string(),
            file_contents: "pw\nname".to_string(),
        }),
        Some(Action::DisplaySecrets {
            pass_id: "alpha".to_string(),
            file_contents: "pw\nname".to_string(),
        })
    );
    assert_eq!(
        app.handle_channel_event(PasswordEvent::OneTimePassword {
            pass_id: "alpha".to_string(),
            otp: "123456".to_string(),
        }),
        Some(Action::DisplayOneTimePassword {
            pass_id: "alpha".to_string(),
            otp: "123456".to_string(),
        })
    );
}

#[test]
fn a_finished_copy_reports_its_status() {
    let cases = [
        (Operation::CopyPassword, "Password copied to clipboard, clears after 45 seconds"),
        (Operation::CopyLogin, "Login copied to clipboard, clears after 45 seconds"),
        (Operation::CopyOtp, "One-time password copied to clipboard, clears after 45 seconds"),
    ];
    for (operation, message) in cases {
        match operation.report("alpha".to_string(), Ok("ignored".to_string())) {
            PasswordEvent::Status(Ok(Some(text))) => assert_eq!(text, message),
            other => panic!("unexpected event {other:?}"),
        }
    }
}

#[test]
fn a_finished_fetch_reports_what_it_fetched() {
    match Operation::Fetch.report("alpha".to_string(), Ok("pw\nname".to_string())) {
        PasswordEvent::PasswordFile { pass_id, file_contents } => {
            assert_eq!(pass_id, "alpha");
            assert_eq!(file_contents, "pw\nname");
        }
        other => panic!("unexpected event {other:?}"),
    }
    match Operation::FetchOtp.report("alpha".to_string(), Ok("123456".to_string())) {
        PasswordEvent::OneTimePassword { pass_id, otp } => {
            assert_eq!(pass_id, "alpha");
            assert_eq!(otp, "123456");
        }
        other => panic!("unexpected event {other:?}"),
    }
}

#[test]
fn a_failed_operation_reports_the_failure() {
    for operation in [
        Operation::CopyPassword,
        Operation::CopyLogin,
        Operation::CopyOtp,
        Operation::Fetch,
        Operation::FetchOtp,
    ] {
        let error = OperationError::Pass("\"no password found\"".to_string());
        match operation.report("alpha".to_string(), Err(error.clone())) {
            PasswordEvent::Status(Err(reported)) => assert_eq!(reported, error),
            other => panic!("unexpected event {other:?}"),
        }
    }
}

#[test]
fn a_reported_result_travels_through_the_shell_to_the_details() {
    let entries = vec![passepartui::components::password_store::PasswordInfo::new(
        "alpha".to_string(),
        Some(1_700_000_000),
    )];
    let mut app = App::new(false, entries);
    let event = Operation::Fetch.report("alpha".to_string(), Ok("pw\nname".to_string()));
    let action = app.handle_channel_event(event).expect("an action");
    app.dispatch_action(action);
    assert_eq!(app.dashboard().password_details().password(), &Some("pw".to_string()));
    let event = Operation::CopyLogin.report("alpha".to_string(), Ok(String::new()));
    let action = app.handle_channel_event(event).expect("an action");
    app.dispatch_action(action);
    assert_eq!(
        app.dashboard().status_bar().text(),
        "Login copied to clipboard, clears after 45 seconds"
    );
}

#[test]
fn copying_an_identifier_reports_success_and_clipboard_failures() {
    assert_eq!(copy_id_report(Ok(())), status("Password file ID copied to clipboard"));
    assert_eq!(
        copy_id_report(Err(OperationError::Clipboard("ContentNotAvailable".to_string()))),
        status("✗ Clipboard error: ContentNotAvailable")
    );
    assert_eq!(copy_id_report(Err(OperationError::Pass("x".to_string()))), None);
    assert_eq!(copy_id_report(Err(OperationError::Other("x".to_string()))), None);
}

#[test]
fn channel_events_compare_by_what_they_hold() {
    let event = ChannelEvent::PasswordInfo {
        pass_id: "alpha".to_string(),
        file_contents: "pw".to_string(),
    };
    assert_eq!(event.clone(), event);
    assert_ne!(event, ChannelEvent::ResetStatus);
    assert_ne!(ChannelEvent::Status("a".to_string()), ChannelEvent::Status("b".to_string()));
    assert_eq!(
        ChannelEvent::OneTimePassword {
            pass_id: "alpha".to_string(),
            one_time_password: "123456".to_string(),
        },
        ChannelEvent::OneTimePassword {
            pass_id: "alpha".to_string(),
            one_time_password: "123456".to_string(),
        }
    );
}
