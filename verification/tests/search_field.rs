use passepartui::components::SearchField;

fn typed(text: &str) -> SearchField {
    let mut field = SearchField::new();
    for character in text.chars() {
        field.insert(character);
    }
    field
}

#[test]
fn a_new_search_field_is_empty() {
    let field = SearchField::new();
    assert!(field.is_empty());
    assert_eq!(field.get_content(), "");
    assert_eq!(field.cursor_position(), 0);
    assert!(!field.is_suspended());
}

#[test]
fn characters_go_in_at_the_cursor() {
    let mut field = typed("abc");
    assert_eq!(field.get_content(), "abc");
    assert_eq!(field.cursor_position(), 3);
    field.move_left();
    field.insert('x');
    assert_eq!(field.get_content(), "abxc");
    assert_eq!(field.cursor_position(), 3);
    field.move_to_start();
    field.insert('ß');
    assert_eq!(field.get_content(), "ßabxc");
    assert_eq!(field.cursor_position(), 1);
    assert!(!field.is_empty());
}

#[test]
fn remove_left_takes_the_character_before_the_cursor() {
    let mut field = typed("abc");
    assert!(field.remove_left());
    assert_eq!(field.get_content(), "ab");
    assert_eq!(field.cursor_position(), 2);
    field.move_left();
    assert!(field.remove_left());
    assert_eq!(field.get_content(), "b");
    assert_eq!(field.cursor_position(), 0);
    assert!(!field.remove_left());
    assert_eq!(field.get_content(), "b");
    assert_eq!(field.cursor_position(), 0);
}

#[test]
fn remove_right_takes_the_character_under_the_cursor() {
    let mut field = typed("abc");
    assert!(!field.remove_right());
    field.move_to_start();
    assert!(field.remove_right());
    assert_eq!(field.get_content(), "bc");
    assert_eq!(field.cursor_position(), 0);
    field.move_right();
    assert!(field.remove_right());
    assert_eq!(field.get_content(), "b");
    assert_eq!(field.cursor_position(), 1);
    assert!(!field.remove_right());
}

#[test]
fn the_cursor_stays_within_the_text() {
    let mut field = typed("ab");
    field.move_right();
    assert_eq!(field.cursor_position(), 2);
    field.move_left();
    field.move_left();
    field.move_left();
    assert_eq!(field.cursor_position(), 0);
    field.move_right();
    assert_eq!(field.cursor_position(), 1);
    field.move_to_end();
    assert_eq!(field.cursor_position(), 2);
    field.move_to_start();
    assert_eq!(field.cursor_position(), 0);
    let mut empty = SearchField::new();
    empty.move_left();
    empty.move_right();
    empty.move_to_end();
    assert_eq!(empty.cursor_position(), 0);
}

#[test]
fn reset_empties_the_field_and_resumes_it() {
    let mut field = typed("abc");
    field.suspend();
    assert!(field.is_suspended());
    assert_eq!(field.get_content(), "abc");
    field.reset();
    assert!(field.is_empty());
    assert_eq!(field.cursor_position(), 0);
    assert!(!field.is_suspended());
    field.suspend();
    field.resume();
    assert!(!field.is_suspended());
}
