use passepartui::actions::{Action, NavigationAction, PasswordAction, SearchAction};
use passepartui::app::state::InputMode;
use passepartui::app::{App, MainState, OverlayState, SearchState, State};
use passepartui::components::password_store::PasswordInfo;
use passepartui::dedup::Completion;
use passepartui::input::Key;

fn store(ids: &[&str]) -> Vec<PasswordInfo> {
    ids.iter().map(|id| PasswordInfo::new(id.to_string(), None)).collect()
}

fn app_in(actions: &[NavigationAction]) -> App {
    let mut app = App::new(false, store(&["alpha", "beta", "gamma"]));
    for action in actions {
        app.dispatch_action(Action::Navigation(*action));
    }
    app
}

fn nav(action: NavigationAction) -> Option<Action> {
    Some(Action::Navigation(action))
}

#[test]
fn starts_in_preview_without_search_or_popup() {
    let app = App::new(false, store(&["alpha", "beta", "gamma"]));
    assert_eq!(
        app.dashboard().app_state(),
        State {
            main: MainState::Preview,
            search: SearchState::Inactive,
            overlay: OverlayState::Inactive
        }
    );
    assert_eq!(State::default(), app.dashboard().app_state());
    assert_eq!(MainState::default(), MainState::Preview);
    assert_eq!(SearchState::default(), SearchState::Inactive);
    assert_eq!(OverlayState::default(), OverlayState::Inactive);
    assert!(!app.is_running());
}

#[test]
fn input_mode_follows_the_precedence_of_the_axes() {
    let state = |main, search, overlay| State { main, search, overlay };
    assert_eq!(
        state(MainState::Table, SearchState::Active, OverlayState::Help).input_mode(),
        InputMode::HelpOverlay
    );
    assert_eq!(
        state(MainState::Secrets, SearchState::Active, OverlayState::File).input_mode(),
        InputMode::FileOverlay
    );
    assert_eq!(
        state(MainState::Table, SearchState::Active, OverlayState::Inactive).input_mode(),
        InputMode::SearchEditing
    );
    assert_eq!(
        state(MainState::Table, SearchState::Suspended, OverlayState::Inactive).input_mode(),
        InputMode::Table
    );
    assert_eq!(
        state(MainState::Preview, SearchState::Inactive, OverlayState::Inactive).input_mode(),
        InputMode::Details
    );
    assert_eq!(
        state(MainState::Secrets, SearchState::Suspended, OverlayState::Inactive).input_mode(),
        InputMode::Details
    );
}

#[test]
fn keys_beside_the_details() {
    let app = App::new(false, store(&["alpha"]));
    assert_eq!(app.handle_key_event(Key::Char('j')), nav(NavigationAction::Down));
    assert_eq!(app.handle_key_event(Key::Down), nav(NavigationAction::Down));
    assert_eq!(app.handle_key_event(Key::Char('k')), nav(NavigationAction::Up));
    assert_eq!(app.handle_key_event(Key::Up), nav(NavigationAction::Up));
    assert_eq!(app.handle_key_event(Key::PageDown), nav(NavigationAction::PageDown));
    assert_eq!(app.handle_key_event(Key::Char('f')), nav(NavigationAction::PageDown));
    assert_eq!(app.handle_key_event(Key::PageUp), nav(NavigationAction::PageUp));
    assert_eq!(app.handle_key_event(Key::Char('b')), nav(NavigationAction::PageUp));
    assert_eq!(app.handle_key_event(Key::Char('g')), nav(NavigationAction::Top));
    assert_eq!(app.handle_key_event(Key::Home), nav(NavigationAction::Top));
    assert_eq!(app.handle_key_event(Key::Char('G')), nav(NavigationAction::Bottom));
    assert_eq!(app.handle_key_event(Key::End), nav(NavigationAction::Bottom));
    assert_eq!(app.handle_key_event(Key::Char('h')), nav(NavigationAction::Back));
    assert_eq!(app.handle_key_event(Key::Left), nav(NavigationAction::Back));
    assert_eq!(app.handle_key_event(Key::Char('l')), nav(NavigationAction::Secrets));
    assert_eq!(app.handle_key_event(Key::Right), nav(NavigationAction::Secrets));
    assert_eq!(app.handle_key_event(Key::Enter), nav(NavigationAction::Secrets));
    assert_eq!(app.handle_key_event(Key::Char('/')), nav(NavigationAction::Search));
    assert_eq!(app.handle_key_event(Key::F(1)), nav(NavigationAction::Help));
    assert_eq!(app.handle_key_event(Key::Char('i')), nav(NavigationAction::File));
    assert_eq!(app.handle_key_event(Key::Esc), nav(NavigationAction::Leave));
    assert_eq!(app.handle_key_event(Key::Char('q')), nav(NavigationAction::Quit));
    assert_eq!(app.handle_key_event(Key::Char('Q')), nav(NavigationAction::Quit));
    assert_eq!(
        app.handle_key_event(Key::Char('y')),
        Some(Action::Password(PasswordAction::CopyPassword))
    );
    assert_eq!(
        app.handle_key_event(Key::Char('r')),
        Some(Action::Password(PasswordAction::FetchOtp))
    );
    assert_eq!(
        app.handle_key_event(Key::Char('x')),
        Some(Action::Password(PasswordAction::CopyOtp))
    );
    assert_eq!(
        app.handle_key_event(Key::Char('c')),
        Some(Action::Password(PasswordAction::CopyPassId))
    );
    assert_eq!(
        app.handle_key_event(Key::Char('v')),
        Some(Action::Password(PasswordAction::CopyLogin))
    );
    assert_eq!(app.handle_key_event(Key::Char('z')), None);
    assert_eq!(app.handle_key_event(Key::F(2)), None);
    assert_eq!(app.handle_key_event(Key::Tab), None);
    assert_eq!(app.handle_key_event(Key::Backspace), None);
}

#[test]
fn keys_in_the_table() {
    let app = app_in(&[NavigationAction::Back]);
    assert_eq!(app.dashboard().app_state().main, MainState::Table);
    assert_eq!(app.handle_key_event(Key::Enter), nav(NavigationAction::Preview));
    assert_eq!(app.handle_key_event(Key::Char('l')), nav(NavigationAction::Preview));
    assert_eq!(app.handle_key_event(Key::Right), nav(NavigationAction::Preview));
    assert_eq!(app.handle_key_event(Key::Char('j')), nav(NavigationAction::Down));
    assert_eq!(app.handle_key_event(Key::Char('G')), nav(NavigationAction::Bottom));
    assert_eq!(app.handle_key_event(Key::Char('i')), nav(NavigationAction::File));
    assert_eq!(app.handle_key_event(Key::Char('q')), nav(NavigationAction::Quit));
    assert_eq!(
        app.handle_key_event(Key::Char('y')),
        Some(Action::Password(PasswordAction::CopyPassword))
    );
    assert_eq!(app.handle_key_event(Key::Char('h')), None);
    assert_eq!(app.handle_key_event(Key::Left), None);
    assert_eq!(app.handle_key_event(Key::Char('r')), None);
}

#[test]
fn keys_while_the_query_is_edited() {
    let app = app_in(&[NavigationAction::Search]);
    assert_eq!(app.dashboard().app_state().search, SearchState::Active);
    assert_eq!(app.handle_key_event(Key::Esc), nav(NavigationAction::Leave));
    assert_eq!(app.handle_key_event(Key::Enter), nav(NavigationAction::Leave));
    assert_eq!(app.handle_key_event(Key::Down), nav(NavigationAction::Down));
    assert_eq!(app.handle_key_event(Key::Up), nav(NavigationAction::Up));
    assert_eq!(app.handle_key_event(Key::PageDown), nav(NavigationAction::PageDown));
    assert_eq!(app.handle_key_event(Key::PageUp), nav(NavigationAction::PageUp));
    assert_eq!(app.handle_key_event(Key::F(1)), nav(NavigationAction::Help));
    let edit = |action| Some(Action::Search(action));
    assert_eq!(app.handle_key_event(Key::Char('j')), edit(SearchAction::Insert('j')));
    assert_eq!(app.handle_key_event(Key::Char('q')), edit(SearchAction::Insert('q')));
    assert_eq!(app.handle_key_event(Key::Char('/')), edit(SearchAction::Insert('/')));
    assert_eq!(app.handle_key_event(Key::Backspace), edit(SearchAction::RemoveLeft));
    assert_eq!(app.handle_key_event(Key::Delete), edit(SearchAction::RemoveRight));
    assert_eq!(app.handle_key_event(Key::Left), edit(SearchAction::MoveLeft));
    assert_eq!(app.handle_key_event(Key::Right), edit(SearchAction::MoveRight));
    assert_eq!(app.handle_key_event(Key::Home), edit(SearchAction::MoveToStart));
    assert_eq!(app.handle_key_event(Key::End), edit(SearchAction::MoveToEnd));
    assert_eq!(app.handle_key_event(Key::Tab), None);
    assert_eq!(app.handle_key_event(Key::F(5)), None);
}

#[test]
fn help_popup_takes_only_the_keys_that_close_it() {
    let app = app_in(&[NavigationAction::Search, NavigationAction::Help]);
    assert_eq!(app.dashboard().app_state().overlay, OverlayState::Help);
    assert_eq!(app.handle_key_event(Key::Esc), nav(NavigationAction::Back));
    assert_eq!(app.handle_key_event(Key::F(1)), nav(NavigationAction::Back));
    assert_eq!(app.handle_key_event(Key::Char('j')), None);
    assert_eq!(app.handle_key_event(Key::Char('q')), None);
    assert_eq!(app.handle_key_event(Key::Enter), None);
    assert_eq!(app.handle_key_event(Key::Down), None);
}

#[test]
fn file_popup_takes_only_the_keys_that_close_it() {
    let app = app_in(&[NavigationAction::Search, NavigationAction::File]);
    assert_eq!(app.dashboard().app_state().overlay, OverlayState::File);
    assert_eq!(app.handle_key_event(Key::Esc), nav(NavigationAction::Back));
    assert_eq!(app.handle_key_event(Key::Char('i')), nav(NavigationAction::Back));
    assert_eq!(app.handle_key_event(Key::F(1)), None);
    assert_eq!(app.handle_key_event(Key::Char('j')), None);
    assert_eq!(app.handle_key_event(Key::Char('q')), None);
    assert_eq!(app.handle_key_event(Key::Char('I')), None);
    assert_eq!(app.handle_key_event(Key::Enter), None);
    assert_eq!(app.handle_key_event(Key::Down), None);
}

#[test]
fn back_walks_from_secrets_to_preview_to_table() {
    let mut app = app_in(&[NavigationAction::Secrets]);
    assert_eq!(app.dashboard().app_state().main, MainState::Secrets);
    assert!(app.dashboard().password_details().show_secrets());
    app.dispatch_action(Action::Navigation(NavigationAction::Back));
    assert_eq!(app.dashboard().app_state().main, MainState::Preview);
    assert!(!app.dashboard().password_details().show_secrets());
    app.dispatch_action(Action::Navigation(NavigationAction::Back));
    assert_eq!(app.dashboard().app_state().main, MainState::Table);
    app.dispatch_action(Action::Navigation(NavigationAction::Back));
    assert_eq!(app.dashboard().app_state().main, MainState::Table);
}

#[test]
fn back_closes_a_popup_and_keeps_the_view() {
    let mut app = app_in(&[NavigationAction::Secrets, NavigationAction::Help]);
    app.dispatch_action(Action::Navigation(NavigationAction::Back));
    assert_eq!(
        app.dashboard().app_state(),
        State {
            main: MainState::Secrets,
            search: SearchState::Inactive,
            overlay: OverlayState::Inactive
        }
    );
    let mut app = app_in(&[NavigationAction::File]);
    assert_eq!(app.dashboard().app_state().overlay, OverlayState::File);
    app.dispatch_action(Action::Navigation(NavigationAction::Back));
    assert_eq!(app.dashboard().app_state().overlay, OverlayState::Inactive);
    assert_eq!(app.dashboard().app_state().main, MainState::Preview);
}

#[test]
fn back_leaves_the_secrets_while_the_query_is_edited() {
    let mut app = app_in(&[NavigationAction::Secrets, NavigationAction::Search]);
    assert_eq!(app.dashboard().app_state().search, SearchState::Active);
    app.dispatch_action(Action::Navigation(NavigationAction::Back));
    assert_eq!(app.dashboard().app_state().main, MainState::Preview);
    assert_eq!(app.dashboard().app_state().search, SearchState::Active);
}

#[test]
fn preview_from_table_and_secrets_from_preview() {
    let mut app = app_in(&[NavigationAction::Back]);
    let enter = app.handle_key_event(Key::Enter).unwrap();
    app.dispatch_action(enter);
    assert_eq!(app.dashboard().app_state().main, MainState::Preview);
    let enter = app.handle_key_event(Key::Enter).unwrap();
    app.dispatch_action(enter);
    assert_eq!(app.dashboard().app_state().main, MainState::Secrets);
}

#[test]
fn quit_stops_the_main_loop_and_redraw_is_taken_once() {
    let mut app = App::new(false, store(&["alpha"]));
    app.start();
    assert!(app.is_running());
    app.dispatch_action(Action::Redraw);
    assert!(app.is_running());
    assert!(app.take_redraw());
    assert!(!app.take_redraw());
    app.dispatch_action(Action::Navigation(NavigationAction::Quit));
    assert!(!app.is_running());
}

#[test]
fn moving_in_the_secrets_view_falls_back_to_the_preview() {
    let mut app = app_in(&[NavigationAction::Secrets]);
    app.dispatch_action(Action::Navigation(NavigationAction::Down));
    assert_eq!(app.dashboard().app_state().main, MainState::Preview);
    assert_eq!(app.dashboard().password_table().selected(), Some(1));
    assert!(!app.dashboard().password_details().show_secrets());
}

#[test]
fn same_inputs_give_the_same_state_and_follow_up() {
    let run = || {
        let mut app = App::new(false, store(&["alpha", "beta", "gamma"]));
        let mut trace = Vec::new();
        for action in [
            Action::Navigation(NavigationAction::Down),
            Action::Navigation(NavigationAction::Search),
            Action::Search(SearchAction::Insert('a')),
            Action::Navigation(NavigationAction::Leave),
            Action::Navigation(NavigationAction::Help),
            Action::Navigation(NavigationAction::Back),
            Action::SetStatus("hello".to_string()),
        ] {
            let requests = app.dispatch_action(action);
            trace.push((
                app.dashboard().app_state(),
                app.dashboard().password_table().selected(),
                app.dashboard().password_subset().clone(),
                app.dashboard().status_bar().text().clone(),
                requests.len(),
            ));
        }
        trace
    };
    assert_eq!(run(), run());
}

#[test]
fn the_shell_applies_one_action_with_the_signal_it_is_given() {
    let mut app = App::new(false, store(&["alpha", "beta"]));
    let outcome = app.apply(Action::Navigation(NavigationAction::Secrets), Completion::Pending);
    assert_eq!(outcome.follow_up, Some(Action::Password(PasswordAction::Fetch)));
    assert!(outcome.request.is_none());
    let first = app.apply(Action::Password(PasswordAction::Fetch), Completion::Pending);
    assert!(first.request.is_some());
    let second = app.apply(Action::Password(PasswordAction::Fetch), Completion::Pending);
    assert!(second.request.is_none());
    assert_eq!(second.follow_up, None);
    let third = app.apply(Action::Password(PasswordAction::Fetch), Completion::Done);
    assert!(third.request.is_some());
    app.start();
    app.apply(Action::Redraw, Completion::Pending);
    assert!(app.take_redraw());
    app.apply(Action::Navigation(NavigationAction::Quit), Completion::Done);
    assert!(!app.is_running());
}
