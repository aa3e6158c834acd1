//! Text operations of the standard library that the logic relies on, each
//! behind a contract over sequences of characters.
use vstd::prelude::*;

verus! {

/// The lowercase form of a text, as `str::to_lowercase` computes it.
pub uninterp spec fn lowercase(text: Seq<char>) -> Seq<char>;

/// The position of the first line feed in a text; the length of the text
/// where it has none.
pub open spec fn first_line_feed(text: Seq<char>) -> int
    decreases text.len(),
{
    if text.len() == 0 || text[0] == '\n' {
        0
    } else {
        1 + first_line_feed(text.drop_first())
    }
}

/// The lines of a text. A line ends at a line feed, or at a carriage return
/// followed by a line feed; neither belongs to the line. The last line needs
/// no line ending, and a line ending at the end of the text starts no
/// further line. A carriage return that no line feed follows stays in its
/// line.
pub open spec fn text_lines(text: Seq<char>) -> Seq<Seq<char>>
    decreases text.len(),
{
    let end = first_line_feed(text);
    if text.len() == 0 {
        Seq::empty()
    } else if 0 <= end < text.len() {
        let before = text.take(end);
        let line = if before.len() > 0 && before.last() == '\r' {
            before.drop_last()
        } else {
            before
        };
        seq![line] + text_lines(text.skip(end + 1))
    } else {
        seq![text]
    }
}

/// The byte offsets at which the matches of a pattern in a text start, as
/// `str::match_indices` yields them.
pub uninterp spec fn match_starts(haystack: Seq<char>, needle: Seq<char>) -> Seq<usize>;

/// The number of bytes that a text takes in memory.
pub open spec fn byte_length(text: Seq<char>) -> usize {
    vstd::utf8::encode_utf8(text).len() as usize
}

/// The part of a text between two byte offsets, where both lie on the
/// boundaries of characters within the text and the first is not behind the
/// second.
pub open spec fn between(text: Seq<char>, from: int, to: int) -> Option<Seq<char>> {
    let bytes = vstd::utf8::encode_utf8(text);
    if 0 <= from <= to <= bytes.len() && vstd::utf8::is_char_boundary(bytes, from)
        && vstd::utf8::is_char_boundary(bytes, to) {
        Some(vstd::utf8::decode_utf8(bytes.subrange(from, to)))
    } else {
        None
    }
}

/// `needle` occurs in `haystack` as a contiguous run of characters.
pub open spec fn is_substring(needle: Seq<char>, haystack: Seq<char>) -> bool {
    exists|i: int|
        0 <= i <= haystack.len() - needle.len() && needle.is_prefix_of(#[trigger] haystack.skip(i))
}

/// The character sequences of a list of strings.
pub open spec fn views(texts: Seq<String>) -> Seq<Seq<char>> {
    Seq::new(texts.len(), |i: int| texts[i]@)
}

/// Lowercases a text with `str::to_lowercase`.
///
/// Trusted: the result is a function of the characters alone, named
/// [`lowercase`], and the empty text stays empty.
#[verifier::external_body]
pub(crate) fn to_lowercase(text: &str) -> (lower: String)
    ensures
        lower@ == lowercase(text@),
        text@.len() == 0 ==> lower@.len() == 0,
{
    text.to_lowercase()
}

/// Searches for a substring with `str::contains`.
///
/// Trusted: the answer is true exactly when the pattern matches a
/// sub-slice of the text.
#[verifier::external_body]
pub(crate) fn contains(haystack: &str, needle: &str) -> (found: bool)
    ensures
        found == is_substring(needle@, haystack@),
{
    haystack.contains(needle)
}

/// Tests a prefix with `str::starts_with`.
///
/// Trusted: the answer is true exactly when the pattern matches a prefix
/// of the text.
#[verifier::external_body]
pub(crate) fn starts_with(text: &str, prefix: &str) -> (found: bool)
    ensures
        found == prefix@.is_prefix_of(text@),
{
    text.starts_with(prefix)
}

/// Splits a text with `str::lines` and copies each line out.
///
/// Trusted: the lines are those that [`text_lines`] spells out: the text is
/// split at line feeds, a carriage return right before a line feed goes with
/// it, and a line ending at the end of the text starts no further line.
#[verifier::external_body]
pub(crate) fn lines(text: &str) -> (found: Vec<String>)
    ensures
        views(found@) == text_lines(text@),
{
    text.lines().map(String::from).collect()
}

/// Finds the matches of a pattern with `str::match_indices` and keeps
/// where each starts.
///
/// Trusted: the offsets are a function of the characters of the text and of
/// the pattern alone, named [`match_starts`].
#[verifier::external_body]
pub(crate) fn match_offsets(haystack: &str, needle: &str) -> (starts: Vec<usize>)
    ensures
        starts@ == match_starts(haystack@, needle@),
{
    haystack.match_indices(needle).map(|(index, _)| index).collect()
}

/// Cuts a part out of a text with `str::get` on a range of byte offsets.
///
/// Trusted: there is a part exactly when the offsets are in order, within
/// the text and on the boundaries of characters, and the part is what the
/// bytes between them spell.
#[verifier::external_body]
pub(crate) fn slice(text: &str, from: usize, to: usize) -> (part: Option<String>)
    ensures
        match part {
            Some(part) => between(text@, from as int, to as int) == Some(part@),
            None => between(text@, from as int, to as int) is None,
        },
{
    match text.get(from..to) {
        Some(part) => Some(part.to_string()),
        None => None,
    }
}

/// Builds a string from characters with `String::from_iter`.
///
/// Trusted: the string holds the characters given, in order.
#[verifier::external_body]
pub(crate) fn collect(characters: &Vec<char>) -> (text: String)
    ensures
        text@ == characters@,
{
    String::from_iter(characters)
}

/// Compares two texts character by character.
pub fn strings_equal(left: &str, right: &str) -> (equal: bool)
    ensures
        equal == (left@ == right@),
{
    let left = left.to_owned();
    let right = right.to_owned();
    left == right
}

/// The empty text occurs in every text.
pub proof fn lemma_empty_is_substring(haystack: Seq<char>)
    ensures
        is_substring(Seq::<char>::empty(), haystack),
{
    assert(haystack.skip(0) =~= haystack);
    assert(Seq::<char>::empty().is_prefix_of(haystack.skip(0)));
}

} // verus!
