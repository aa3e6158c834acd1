use passepartui::components::password_store::PasswordInfo;
use passepartui::components::Dashboard;

#[test]
fn an_entry_holds_its_identifier_and_its_time() {
    let info = PasswordInfo::new("mail/work".to_string(), Some(120));
    assert_eq!(info.pass_id(), "mail/work");
    assert_eq!(info.pass_id, "mail/work");
    assert_eq!(info.modified, Some(120));
    assert_eq!(info.clone().pass_id(), "mail/work");
}

#[test]
fn minutes_are_seconds_by_sixty_towards_zero() {
    let minutes = |seconds| PasswordInfo::new(String::new(), Some(seconds)).modified_minutes();
    assert_eq!(minutes(0), Some(0));
    assert_eq!(minutes(59), Some(0));
    assert_eq!(minutes(60), Some(1));
    assert_eq!(minutes(1_700_000_000), Some(28_333_333));
    assert_eq!(minutes(i32::MAX as u64), Some(35_791_394));
    assert_eq!(PasswordInfo::new(String::new(), None).modified_minutes(), None);
}

#[test]
fn minutes_wrap_with_a_32_bit_clock() {
    let minutes = |seconds| PasswordInfo::new(String::new(), Some(seconds)).modified_minutes();
    assert_eq!(minutes(1 << 31), Some(-35_791_394));
    assert_eq!(minutes((1 << 32) - 1), Some(0));
    assert_eq!(minutes((1 << 32) - 61), Some(-1));
    assert_eq!(minutes(1 << 32), Some(0));
    assert_eq!(minutes((1 << 32) + 120), Some(2));
    assert_eq!(minutes(u64::MAX), Some(0));
}

#[test]
fn a_dashboard_keeps_the_entries_in_the_order_given() {
    let entries: Vec<PasswordInfo> = ["zulu", "alpha", "mike"]
        .iter()
        .enumerate()
        .map(|(i, id)| PasswordInfo::new(id.to_string(), Some(i as u64)))
        .collect();
    let dashboard = Dashboard::new(true, entries);
    let ids: Vec<String> = dashboard.passwords().iter().map(|info| info.pass_id()).collect();
    assert_eq!(ids, vec!["zulu", "alpha", "mike"]);
    assert_eq!(dashboard.password_subset(), &vec![0, 1, 2]);
    assert_eq!(dashboard.get_selected_info().map(|info| info.pass_id()), Some("zulu".to_string()));
    assert_eq!(dashboard.password_table().length(), 3);
    assert!(dashboard.tty_pinentry());
}

#[test]
fn the_time_of_modification_is_written_out_in_english() {
    let written = |seconds| PasswordInfo::new(String::new(), seconds).last_modified();
    assert_eq!(written(None), "Unknown");
    assert_eq!(written(Some(0)), "Jan 1, 1970, 12:00\u{202f}AM");
    assert_eq!(written(Some(59)), "Jan 1, 1970, 12:00\u{202f}AM");
    assert_eq!(written(Some(60)), "Jan 1, 1970, 12:01\u{202f}AM");
    assert_eq!(written(Some(1_700_000_000)), "Nov 14, 2023, 10:13\u{202f}PM");
    assert_eq!(written(Some(1 << 31)), "Dec 13, 1901, 8:46\u{202f}PM");
    assert_ne!(written(Some(86_400)), written(Some(0)));
}
