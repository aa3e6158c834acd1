use passepartui::actions::{Action, NavigationAction, SearchAction};
use passepartui::app::{App, SearchState};
use passepartui::components::password_store::PasswordInfo;
use passepartui::components::{Component, Dashboard};

fn infos(ids: &[&str]) -> Vec<PasswordInfo> {
    ids.iter().map(|id| PasswordInfo::new(id.to_string(), None)).collect()
}

fn greek() -> Dashboard {
    Dashboard::new(false, infos(&["alpha", "beta", "gamma"]))
}

fn selected_id(dashboard: &Dashboard) -> Option<String> {
    dashboard.get_selected_info().map(|info| info.pass_id())
}

fn shown(dashboard: &Dashboard) -> Vec<String> {
    dashboard
        .password_subset()
        .iter()
        .map(|&index| dashboard.passwords()[index].pass_id())
        .collect()
}

fn type_query(dashboard: &mut Dashboard, query: &str) {
    dashboard.update(Action::Navigation(NavigationAction::Search));
    for character in query.chars() {
        dashboard.update(Action::Search(SearchAction::Insert(character)));
    }
}

#[test]
fn two_downs_reach_gamma_and_page_up_clamps_to_the_top() {
    let mut app = App::new(false, infos(&["alpha", "beta", "gamma"]));
    assert_eq!(app.dashboard().password_table().selected(), Some(0));
    app.dispatch_action(Action::Navigation(NavigationAction::Down));
    app.dispatch_action(Action::Navigation(NavigationAction::Down));
    assert_eq!(app.dashboard().password_table().selected(), Some(2));
    assert_eq!(selected_id(app.dashboard()), Some("gamma".to_string()));
    app.dispatch_action(Action::Navigation(NavigationAction::PageUp));
    assert_eq!(app.dashboard().password_table().selected(), Some(0));
    assert_eq!(selected_id(app.dashboard()), Some("alpha".to_string()));
}

#[test]
fn previous_with_step_ten_clamps_to_the_top() {
    let mut dashboard = greek();
    dashboard.next(2);
    assert_eq!(dashboard.password_table().selected(), Some(2));
    dashboard.previous(10);
    assert_eq!(dashboard.password_table().selected(), Some(0));
}

#[test]
fn query_ph_shows_alpha_alone_and_selects_it() {
    let mut dashboard = greek();
    dashboard.next(2);
    type_query(&mut dashboard, "ph");
    assert_eq!(shown(&dashboard), vec!["alpha".to_string()]);
    assert_eq!(dashboard.password_subset(), &vec![0]);
    assert_eq!(dashboard.password_table().selected(), Some(0));
    assert_eq!(selected_id(&dashboard), Some("alpha".to_string()));
    assert_eq!(dashboard.password_table().length(), 1);
    assert_eq!(dashboard.password_table().highlight_pattern(), &Some("ph".to_string()));
}

#[test]
fn next_and_previous_stay_in_the_list_for_any_step() {
    for step in [0usize, 1, 2, 3, 10, 1000, usize::MAX] {
        for start in 0usize..3 {
            let mut dashboard = greek();
            dashboard.next(start);
            dashboard.next(step);
            let expected = start.saturating_add(step).min(2);
            assert_eq!(dashboard.password_table().selected(), Some(expected));
            let mut dashboard = greek();
            dashboard.next(start);
            dashboard.previous(step);
            assert_eq!(dashboard.password_table().selected(), Some(start.saturating_sub(step)));
        }
    }
}

#[test]
fn top_and_bottom_select_the_ends() {
    let mut dashboard = greek();
    dashboard.bottom_row();
    assert_eq!(dashboard.password_table().selected(), Some(2));
    assert_eq!(selected_id(&dashboard), Some("gamma".to_string()));
    dashboard.top_row();
    assert_eq!(dashboard.password_table().selected(), Some(0));
    dashboard.update(Action::Navigation(NavigationAction::Bottom));
    assert_eq!(dashboard.password_table().selected(), Some(2));
    dashboard.update(Action::Navigation(NavigationAction::Top));
    assert_eq!(dashboard.password_table().selected(), Some(0));
}

#[test]
fn select_clamps_to_the_last_row() {
    let mut dashboard = greek();
    dashboard.update(Action::Navigation(NavigationAction::Select(1)));
    assert_eq!(dashboard.password_table().selected(), Some(1));
    dashboard.update(Action::Navigation(NavigationAction::Select(99)));
    assert_eq!(dashboard.password_table().selected(), Some(2));
    dashboard.update(Action::Navigation(NavigationAction::Select(usize::MAX)));
    assert_eq!(dashboard.password_table().selected(), Some(2));
}

#[test]
fn moves_on_an_empty_list_select_row_zero_and_no_entry() {
    let mut dashboard = Dashboard::new(false, Vec::new());
    assert_eq!(dashboard.get_selected_info().map(|info| info.pass_id()), None);
    assert_eq!(dashboard.password_details().pass_id(), &None);
    for action in [
        NavigationAction::Down,
        NavigationAction::Up,
        NavigationAction::PageDown,
        NavigationAction::PageUp,
        NavigationAction::Top,
        NavigationAction::Bottom,
        NavigationAction::Select(5),
    ] {
        dashboard.update(Action::Navigation(action));
        assert_eq!(dashboard.password_table().selected(), Some(0));
        assert_eq!(selected_id(&dashboard), None);
    }
}

#[test]
fn moves_on_a_list_filtered_to_nothing() {
    let mut dashboard = greek();
    type_query(&mut dashboard, "zzz");
    assert!(dashboard.password_subset().is_empty());
    assert_eq!(selected_id(&dashboard), None);
    assert_eq!(dashboard.password_details().pass_id(), &None);
    dashboard.next(1);
    assert_eq!(dashboard.password_table().selected(), Some(0));
    dashboard.bottom_row();
    assert_eq!(dashboard.password_table().selected(), Some(0));
}

#[test]
fn lifting_a_filter_that_shows_nothing_selects_the_first_entry() {
    let mut dashboard = greek();
    type_query(&mut dashboard, "zzz");
    dashboard.update(Action::Navigation(NavigationAction::Leave));
    dashboard.update(Action::Navigation(NavigationAction::Leave));
    assert_eq!(dashboard.password_subset(), &vec![0, 1, 2]);
    assert_eq!(dashboard.password_table().selected(), Some(0));
    assert_eq!(selected_id(&dashboard), Some("alpha".to_string()));
}

#[test]
fn the_filter_ignores_case_on_both_sides() {
    let mut dashboard = Dashboard::new(false, infos(&["Mail/Work", "WEB/shop", "web/Forum", "ssh"]));
    type_query(&mut dashboard, "WeB");
    assert_eq!(shown(&dashboard), vec!["WEB/shop".to_string(), "web/Forum".to_string()]);
    assert_eq!(dashboard.password_subset(), &vec![1, 2]);
    let mut dashboard = Dashboard::new(false, infos(&["Mail/Work", "WEB/shop", "web/Forum", "ssh"]));
    type_query(&mut dashboard, "WORK");
    assert_eq!(shown(&dashboard), vec!["Mail/Work".to_string()]);
}

#[test]
fn the_filter_lowercases_beyond_ascii() {
    let mut dashboard = Dashboard::new(false, infos(&["BÜCHER", "bücher/ÄRZTE", "plain"]));
    type_query(&mut dashboard, "ü");
    assert_eq!(dashboard.password_subset(), &vec![0, 1]);
    let mut dashboard = Dashboard::new(false, infos(&["BÜCHER", "bücher/ÄRZTE", "plain"]));
    type_query(&mut dashboard, "Ärzte");
    assert_eq!(dashboard.password_subset(), &vec![1]);
}

#[test]
fn the_filter_matches_in_the_middle_and_keeps_the_order() {
    let mut dashboard = Dashboard::new(false, infos(&["xa", "b", "ax", "bab", "a"]));
    type_query(&mut dashboard, "a");
    assert_eq!(dashboard.password_subset(), &vec![0, 2, 3, 4]);
    dashboard.update(Action::Search(SearchAction::Insert('b')));
    assert_eq!(dashboard.password_subset(), &vec![3]);
    dashboard.update(Action::Search(SearchAction::RemoveLeft));
    assert_eq!(dashboard.password_subset(), &vec![0, 2, 3, 4]);
}

#[test]
fn an_empty_query_shows_the_whole_list_in_order() {
    let mut dashboard = greek();
    assert_eq!(dashboard.password_subset(), &vec![0, 1, 2]);
    type_query(&mut dashboard, "b");
    assert_eq!(dashboard.password_subset(), &vec![1]);
    dashboard.update(Action::Search(SearchAction::RemoveLeft));
    assert_eq!(dashboard.password_subset(), &vec![0, 1, 2]);
    assert_eq!(shown(&dashboard), vec!["alpha".to_string(), "beta".to_string(), "gamma".to_string()]);
    assert_eq!(dashboard.password_table().selected(), Some(0));
}

#[test]
fn every_edit_that_changes_the_text_filters_again() {
    let mut dashboard = greek();
    type_query(&mut dashboard, "ga");
    assert_eq!(dashboard.password_subset(), &vec![2]);
    dashboard.update(Action::Search(SearchAction::MoveToStart));
    assert_eq!(dashboard.password_subset(), &vec![2]);
    dashboard.update(Action::Search(SearchAction::RemoveRight));
    assert_eq!(dashboard.search_field().get_content(), "a");
    assert_eq!(dashboard.password_subset(), &vec![0, 1, 2]);
    dashboard.update(Action::Search(SearchAction::RemoveLeft));
    assert_eq!(dashboard.search_field().get_content(), "a");
    dashboard.update(Action::Search(SearchAction::Insert('t')));
    assert_eq!(dashboard.search_field().get_content(), "ta");
    assert_eq!(dashboard.password_subset(), &vec![1]);
}

#[test]
fn leave_suspends_a_search_with_a_query_and_a_second_leave_clears_it() {
    let mut dashboard = greek();
    type_query(&mut dashboard, "be");
    assert_eq!(dashboard.app_state().search, SearchState::Active);
    dashboard.update(Action::Navigation(NavigationAction::Leave));
    assert_eq!(dashboard.app_state().search, SearchState::Suspended);
    assert_eq!(dashboard.search_field().get_content(), "be");
    assert!(dashboard.search_field().is_suspended());
    assert_eq!(dashboard.password_subset(), &vec![1]);
    dashboard.update(Action::Navigation(NavigationAction::Leave));
    assert_eq!(dashboard.app_state().search, SearchState::Inactive);
    assert_eq!(dashboard.search_field().get_content(), "");
    assert!(!dashboard.search_field().is_suspended());
    assert_eq!(dashboard.password_subset(), &vec![0, 1, 2]);
    assert_eq!(dashboard.password_table().highlight_pattern(), &None);
}

#[test]
fn leave_closes_a_search_with_an_empty_query_at_once() {
    let mut dashboard = greek();
    dashboard.update(Action::Navigation(NavigationAction::Search));
    dashboard.update(Action::Navigation(NavigationAction::Leave));
    assert_eq!(dashboard.app_state().search, SearchState::Inactive);
    assert_eq!(dashboard.password_subset(), &vec![0, 1, 2]);
}

#[test]
fn leave_does_nothing_under_a_popup_or_without_a_search() {
    let mut dashboard = greek();
    dashboard.update(Action::Navigation(NavigationAction::Leave));
    assert_eq!(dashboard.app_state().search, SearchState::Inactive);
    type_query(&mut dashboard, "be");
    dashboard.update(Action::Navigation(NavigationAction::Help));
    dashboard.update(Action::Navigation(NavigationAction::Leave));
    assert_eq!(dashboard.app_state().search, SearchState::Active);
    assert_eq!(dashboard.search_field().get_content(), "be");
}

#[test]
fn lifting_the_filter_keeps_the_selected_entry() {
    let mut dashboard = greek();
    type_query(&mut dashboard, "a");
    assert_eq!(dashboard.password_subset(), &vec![0, 1, 2]);
    let mut dashboard = Dashboard::new(false, infos(&["one", "two", "three", "four"]));
    type_query(&mut dashboard, "t");
    assert_eq!(dashboard.password_subset(), &vec![1, 2]);
    dashboard.next(1);
    assert_eq!(selected_id(&dashboard), Some("three".to_string()));
    dashboard.update(Action::Navigation(NavigationAction::Leave));
    dashboard.update(Action::Navigation(NavigationAction::Leave));
    assert_eq!(dashboard.password_subset(), &vec![0, 1, 2, 3]);
    assert_eq!(dashboard.password_table().selected(), Some(2));
    assert_eq!(selected_id(&dashboard), Some("three".to_string()));
}

#[test]
fn search_resumes_a_suspended_search_with_its_query() {
    let mut dashboard = greek();
    type_query(&mut dashboard, "be");
    dashboard.update(Action::Navigation(NavigationAction::Leave));
    dashboard.update(Action::Navigation(NavigationAction::Search));
    assert_eq!(dashboard.app_state().search, SearchState::Active);
    assert!(!dashboard.search_field().is_suspended());
    assert_eq!(dashboard.search_field().get_content(), "be");
}

#[test]
fn the_details_pane_follows_the_selection() {
    let mut dashboard = greek();
    assert_eq!(dashboard.password_details().pass_id(), &Some("alpha".to_string()));
    dashboard.next(1);
    assert_eq!(dashboard.password_details().pass_id(), &Some("beta".to_string()));
    type_query(&mut dashboard, "gam");
    assert_eq!(dashboard.password_details().pass_id(), &Some("gamma".to_string()));
}

#[test]
fn filter_passwords_shows_the_matching_entries_and_selects_the_first() {
    let mut dashboard = Dashboard::new(false, infos(&["xa", "b", "Ax", "bAb", "a"]));
    dashboard.next(3);
    dashboard.filter_passwords();
    assert_eq!(dashboard.password_subset(), &vec![0, 1, 2, 3, 4]);
    assert_eq!(dashboard.password_table().selected(), Some(0));
    type_query(&mut dashboard, "A");
    dashboard.next(2);
    dashboard.filter_passwords();
    assert_eq!(dashboard.password_subset(), &vec![0, 2, 3, 4]);
    assert_eq!(dashboard.password_table().selected(), Some(0));
    assert_eq!(dashboard.search_field().get_content(), "A");
    assert_eq!(dashboard.passwords().len(), 5);
    assert_eq!(dashboard.password_table().highlight_pattern(), &Some("A".to_string()));
}
