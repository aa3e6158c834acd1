use passepartui::components::password_table::{mark, Piece};

fn piece(text: &str, marked: bool) -> Piece {
    Piece { text: text.to_string(), marked }
}

#[test]
fn an_empty_query_marks_nothing() {
    assert_eq!(mark("mail/work", ""), vec![piece("mail/work", false)]);
    assert_eq!(mark("", ""), vec![piece("", false)]);
}

#[test]
fn a_query_that_does_not_occur_marks_nothing() {
    assert_eq!(mark("mail/work", "bank"), vec![piece("mail/work", false)]);
    assert_eq!(mark("", "a"), vec![piece("", false)]);
    assert_eq!(mark("ab", "abc"), vec![piece("ab", false)]);
}

#[test]
fn every_place_of_the_query_is_marked() {
    assert_eq!(
        mark("banana", "an"),
        vec![piece("b", false), piece("an", true), piece("an", true), piece("a", false)]
    );
    assert_eq!(mark("alpha", "ph"), vec![piece("al", false), piece("ph", true), piece("a", false)]);
    assert_eq!(mark("alpha", "al"), vec![piece("al", true), piece("pha", false)]);
    assert_eq!(mark("alpha", "ha"), vec![piece("alp", false), piece("ha", true)]);
    assert_eq!(mark("alpha", "alpha"), vec![piece("alpha", true)]);
    assert_eq!(mark("aaa", "aa"), vec![piece("aa", true), piece("a", false)]);
}

#[test]
fn marks_keep_the_letters_as_they_are_written() {
    assert_eq!(
        mark("Mail/WORK/work", "Work"),
        vec![piece("Mail/", false), piece("WORK", true), piece("/", false), piece("work", true)]
    );
    assert_eq!(mark("ÄRZTE", "ärz"), vec![piece("ÄRZ", true), piece("TE", false)]);
    assert_eq!(
        mark("bücher/BÜCHER", "Ü"),
        vec![piece("b", false), piece("ü", true), piece("cher/B", false), piece("Ü", true), piece("CHER", false)]
    );
}

#[test]
fn marks_that_would_split_a_character_are_dropped() {
    // The lowercase form of the dotted capital I takes three bytes where the letter takes two.
    assert_eq!(mark("İa", "a"), vec![piece("İa", false)]);
    assert_eq!(mark("xİ", "x"), vec![piece("x", true), piece("İ", false)]);
    assert_eq!(mark("İé", "é"), vec![piece("İé", false)]);
    assert_eq!(mark("aİ", "İ"), vec![piece("a", false), piece("İ", true)]);
}
