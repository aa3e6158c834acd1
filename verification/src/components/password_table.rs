//! The list of entries: which row is selected, how far the list is
//! scrolled, and where clicks on rows and on the scrollbar land.
use vstd::prelude::*;

use crate::actions::{Action, NavigationAction};
use crate::components::password_details::details_field::text_of;
use crate::input::{MouseButton, MouseEvent, MouseEventKind, Rect};
use crate::text::{
    between, byte_length, lowercase, match_offsets, match_starts, slice, to_lowercase,
};

verus! {

#[derive(Debug)]
pub struct PasswordTable {
    length: usize,
    selected: Option<usize>,
    offset: usize,
    highlight_pattern: Option<String>,
    area: Option<Rect>,
    mouse_content_area: Option<Rect>,
    mouse_track_area: Option<Rect>,
}

/// What a [`PasswordTable`] holds.
pub struct TableView {
    /// The number of rows.
    pub length: usize,
    /// The selected row.
    pub selected: Option<usize>,
    /// The first row on screen.
    pub offset: usize,
    /// The query whose matches are marked in the rows.
    pub highlight_pattern: Option<Seq<char>>,
    pub area: Option<Rect>,
    /// Where the rows take clicks.
    pub mouse_content_area: Option<Rect>,
    /// Where the scrollbar takes clicks.
    pub mouse_track_area: Option<Rect>,
}

impl View for PasswordTable {
    type V = TableView;

    closed spec fn view(&self) -> TableView {
        TableView {
            length: self.length,
            selected: self.selected,
            offset: self.offset,
            highlight_pattern: text_of(self.highlight_pattern),
            area: self.area,
            mouse_content_area: self.mouse_content_area,
            mouse_track_area: self.mouse_track_area,
        }
    }
}

/// A run of characters of an identifier, marked where the query matches.
#[derive(Debug, Clone, PartialEq, Eq)]
pub struct Piece {
    pub text: String,
    pub marked: bool,
}

/// What a [`Piece`] holds.
pub struct PieceView {
    pub text: Seq<char>,
    pub marked: bool,
}

impl View for Piece {
    type V = PieceView;

    open spec fn view(&self) -> PieceView {
        PieceView { text: self.text@, marked: self.marked }
    }
}

/// What a list of pieces holds.
pub open spec fn piece_views(pieces: Seq<Piece>) -> Seq<PieceView> {
    Seq::new(pieces.len(), |i: int| pieces[i]@)
}

/// An identifier without marks.
pub open spec fn unmarked(id: Seq<char>) -> Seq<PieceView> {
    seq![PieceView { text: id, marked: false }]
}

/// An optional part of a text as a list of at most one piece; nothing where
/// the part is missing.
pub open spec fn piece_of(part: Option<Seq<char>>, marked: bool) -> Option<Seq<PieceView>> {
    match part {
        Some(text) => Some(seq![PieceView { text, marked }]),
        None => None,
    }
}

/// The pieces of an identifier from the byte offset `from` on, where the
/// matches from the one numbered `next` on start at `starts` and are `width`
/// bytes wide: before each match what lies between, unmarked, then the
/// match, marked, and behind the last match the rest. Nothing where a
/// piece would not begin and end on the boundaries of characters within
/// the identifier.
pub open spec fn pieces_from(
    id: Seq<char>,
    starts: Seq<usize>,
    width: usize,
    from: usize,
    next: int,
) -> Option<Seq<PieceView>>
    decreases starts.len() - next,
{
    if next < 0 || next >= starts.len() {
        if from < byte_length(id) {
            piece_of(between(id, from as int, byte_length(id) as int), false)
        } else {
            Some(Seq::empty())
        }
    } else if starts[next] + width > usize::MAX {
        None
    } else {
        let start = starts[next];
        let stop = (start + width) as usize;
        let gap = if start > from {
            piece_of(between(id, from as int, start as int), false)
        } else {
            Some(Seq::empty())
        };
        let hit = piece_of(between(id, start as int, stop as int), true);
        let rest = pieces_from(id, starts, width, stop, next + 1);
        if gap is Some && hit is Some && rest is Some {
            Some(gap->0 + hit->0 + rest->0)
        } else {
            None
        }
    }
}

/// An identifier cut into pieces, with the places marked where the query
/// occurs in it, whatever the case of the letters. The places are found in
/// the lowercase forms of both and taken over, byte for byte, to the
/// identifier as it is written, each as wide as the query as it is written.
/// An identifier in which the query does not occur, or in which the places
/// do not fall on the boundaries of characters, has no marks; nor has any
/// identifier under an empty query.
pub open spec fn marks(id: Seq<char>, pattern: Seq<char>) -> Seq<PieceView> {
    let starts = match_starts(lowercase(id), lowercase(pattern));
    if pattern.len() == 0 || starts.len() == 0 {
        unmarked(id)
    } else {
        match pieces_from(id, starts, byte_length(pattern), 0, 0) {
            Some(pieces) => pieces,
            None => unmarked(id),
        }
    }
}

/// A list with the identifier as its only piece, unmarked.
fn plain(id: &str) -> (pieces: Vec<Piece>)
    ensures
        piece_views(pieces@) == unmarked(id@),
{
    let mut pieces: Vec<Piece> = Vec::new();
    pieces.push(Piece { text: id.to_owned(), marked: false });
    assert(piece_views(pieces@) =~= unmarked(id@));
    pieces
}

/// Cuts an identifier into pieces and marks where the query occurs in it:
/// see [`marks`].
pub fn mark(id: &str, pattern: &str) -> (pieces: Vec<Piece>)
    ensures
        piece_views(pieces@) == marks(id@, pattern@),
{
    if pattern.is_empty() {
        return plain(id);
    }
    let lowered = to_lowercase(id);
    let needle = to_lowercase(pattern);
    let starts = match_offsets(lowered.as_str(), needle.as_str());
    if starts.len() == 0 {
        return plain(id);
    }
    let width: usize = pattern.len();
    let end: usize = id.len();
    let ghost whole = pieces_from(id@, starts@, width, 0, 0);
    let mut pieces: Vec<Piece> = Vec::new();
    let mut last: usize = 0;
    let mut k: usize = 0;
    assert(piece_views(pieces@) =~= Seq::empty());
    while k < starts.len()
        invariant
            k <= starts.len(),
            width == byte_length(pattern@),
            whole == pieces_from(id@, starts@, width, 0, 0),
            marks(id@, pattern@) == match whole {
                Some(all) => all,
                None => unmarked(id@),
            },
            whole == match pieces_from(id@, starts@, width, last, k as int) {
                Some(rest) => Some(piece_views(pieces@) + rest),
                None => None,
            },
        decreases starts.len() - k,
    {
        let ghost done = piece_views(pieces@);
        let start = starts[k];
        if start > last {
            match slice(id, last, start) {
                Some(text) => {
                    pieces.push(Piece { text, marked: false });
                },
                None => {
                    return plain(id);
                },
            }
        }
        let stop = match start.checked_add(width) {
            Some(stop) => stop,
            None => {
                return plain(id);
            },
        };
        match slice(id, start, stop) {
            Some(text) => {
                pieces.push(Piece { text, marked: true });
            },
            None => {
                return plain(id);
            },
        }
        proof {
            let gap = if start > last {
                piece_of(between(id@, last as int, start as int), false)
            } else {
                Some(Seq::empty())
            };
            let hit = piece_of(between(id@, start as int, stop as int), true);
            assert(piece_views(pieces@) =~= done + gap->0 + hit->0);
            let rest = pieces_from(id@, starts@, width, stop, k as int + 1);
            if rest is Some {
                assert(done + (gap->0 + hit->0 + rest->0) =~= (done + gap->0 + hit->0) + rest->0);
            }
        }
        last = stop;
        k = k + 1;
    }
    let ghost done = piece_views(pieces@);
    if last < end {
        match slice(id, last, end) {
            Some(text) => {
                pieces.push(Piece { text, marked: false });
                assert(piece_views(pieces@) =~= done + seq![PieceView { text: text@, marked: false }]);
            },
            None => {
                return plain(id);
            },
        }
    } else {
        assert(done + Seq::<PieceView>::empty() =~= done);
    }
    pieces
}

/// The rows of a table drawn in `area`: all but the header line and the
/// eight columns at the right.
pub open spec fn content_area(area: Rect) -> Rect {
    Rect {
        x: area.x,
        y: (area.y + 1) as u16,
        width: if area.width >= 8 { (area.width - 8) as u16 } else { 0 },
        height: if area.height >= 1 { (area.height - 1) as u16 } else { 0 },
    }
}

/// The scrollbar zone of a table drawn in `area`: eight columns that start
/// where the rows end, counted from the left edge of the screen.
pub open spec fn track_area(area: Rect) -> Rect {
    Rect { x: content_area(area).width, width: 8, ..content_area(area) }
}

/// The sum of a screen offset and a line, held at the largest index.
pub open spec fn row_at(offset: usize, line: int) -> usize {
    if offset + line > usize::MAX {
        usize::MAX
    } else {
        (offset + line) as usize
    }
}

impl TableView {
    /// A table of `length` rows, scrolled to the top, with nothing selected
    /// and nothing marked.
    pub open spec fn fresh(length: usize) -> TableView {
        TableView {
            length,
            selected: None,
            offset: 0,
            highlight_pattern: None,
            area: None,
            mouse_content_area: None,
            mouse_track_area: None,
        }
    }

    /// New rows: the selection and the scroll offset start over.
    pub open spec fn with_rows(self, length: usize) -> TableView {
        TableView { length, selected: None, offset: 0, ..self }
    }

    pub open spec fn place(self, area: Rect) -> TableView {
        TableView {
            area: Some(area),
            mouse_content_area: Some(content_area(area)),
            mouse_track_area: Some(track_area(area)),
            ..self
        }
    }

    /// The event falls on the rows.
    pub open spec fn on_rows(self, event: MouseEvent) -> bool {
        crate::input::hits(self.mouse_content_area, event)
    }

    /// The event falls on the scrollbar and not on the rows.
    pub open spec fn on_track(self, event: MouseEvent) -> bool {
        !self.on_rows(event) && crate::input::hits(self.mouse_track_area, event)
    }

    /// The event drags or presses the scrollbar.
    pub open spec fn scrolls(self, event: MouseEvent) -> bool {
        self.on_track(event) && (event.kind == MouseEventKind::Down(MouseButton::Left) || event.kind
            == MouseEventKind::Drag(MouseButton::Left))
    }

    /// What a pointer event means to the table. A left press on a row
    /// selects it and fetches its secrets; the wheel moves the selection; a
    /// press or drag on the scrollbar selects `track_row`, the row that the
    /// position on the bar stands for.
    pub open spec fn on_mouse(self, event: MouseEvent, track_row: usize) -> Option<Action> {
        if self.on_rows(event) {
            match event.kind {
                MouseEventKind::Down(MouseButton::Left) => Some(
                    Action::Navigation(
                        NavigationAction::SelectAndFetch(
                            row_at(self.offset, event.row - self.mouse_content_area->0.y),
                        ),
                    ),
                ),
                MouseEventKind::ScrollDown => Some(Action::Navigation(NavigationAction::Down)),
                MouseEventKind::ScrollUp => Some(Action::Navigation(NavigationAction::Up)),
                _ => None,
            }
        } else if self.scrolls(event) {
            Some(Action::Navigation(NavigationAction::Select(track_row)))
        } else {
            None
        }
    }

    /// For an event that drags or presses the scrollbar: the line of the
    /// bar it is on, and the number of the last line of the bar.
    pub open spec fn track_position(self, event: MouseEvent) -> Option<(u16, u16)> {
        if self.scrolls(event) {
            Some(
                (
                    (event.row - self.mouse_track_area->0.y) as u16,
                    (self.mouse_track_area->0.height - 1) as u16,
                ),
            )
        } else {
            None
        }
    }
}

impl PasswordTable {
    /// A table of `length` rows.
    pub fn new(length: usize) -> (table: Self)
        ensures
            table@ == TableView::fresh(length),
    {
        PasswordTable {
            length,
            selected: None,
            offset: 0,
            highlight_pattern: None,
            area: None,
            mouse_content_area: None,
            mouse_track_area: None,
        }
    }

    /// Replaces the rows: the selection and the scroll offset start over.
    pub fn update_passwords(&mut self, length: usize)
        ensures
            final(self)@ == old(self)@.with_rows(length),
    {
        self.length = length;
        self.selected = None;
        self.offset = 0;
    }

    /// Sets the query whose matches are marked in the rows.
    pub fn set_highlight_pattern(&mut self, pattern: Option<String>)
        ensures
            final(self)@ == (TableView { highlight_pattern: text_of(pattern), ..old(self)@ }),
    {
        self.highlight_pattern = pattern;
    }

    pub fn highlight_pattern(&self) -> (pattern: &Option<String>)
        ensures
            text_of(*pattern) == self@.highlight_pattern,
    {
        &self.highlight_pattern
    }

    pub fn select(&mut self, index: usize)
        ensures
            final(self)@ == (TableView { selected: Some(index), ..old(self)@ }),
    {
        self.selected = Some(index);
    }

    pub fn selected(&self) -> (selected: Option<usize>)
        ensures
            selected == self@.selected,
    {
        self.selected
    }

    /// The number of rows.
    pub fn length(&self) -> (length: usize)
        ensures
            length == self@.length,
    {
        self.length
    }

    /// The first row on screen.
    pub fn offset(&self) -> (offset: usize)
        ensures
            offset == self@.offset,
    {
        self.offset
    }

    /// Records the first row on screen after the table was drawn.
    pub fn scroll_to(&mut self, offset: usize)
        ensures
            final(self)@ == (TableView { offset, ..old(self)@ }),
    {
        self.offset = offset;
    }

    /// Records where the table was drawn, and with it where its rows and
    /// its scrollbar take clicks.
    pub fn place(&mut self, area: Rect)
        requires
            area.y < u16::MAX,
        ensures
            final(self)@ == old(self)@.place(area),
    {
        let rows = Rect {
            x: area.x,
            y: area.y + 1,
            width: area.width.saturating_sub(8),
            height: area.height.saturating_sub(1),
        };
        let track = Rect { x: area.width.saturating_sub(8), y: rows.y, width: 8, height: rows.height };
        self.area = Some(area);
        self.mouse_content_area = Some(rows);
        self.mouse_track_area = Some(track);
    }

    /// Where a press or drag on the scrollbar is: see
    /// [`TableView::track_position`].
    pub fn track_position(&self, event: MouseEvent) -> (position: Option<(u16, u16)>)
        ensures
            position == self@.track_position(event),
    {
        if let Some(area) = self.mouse_content_area {
            if area.contains(event.column, event.row) {
                return None;
            }
        }
        if let Some(area) = self.mouse_track_area {
            if area.contains(event.column, event.row) {
                return match event.kind {
                    MouseEventKind::Down(MouseButton::Left)
                    | MouseEventKind::Drag(MouseButton::Left) => {
                        Some((event.row - area.y, area.height - 1))
                    },
                    _ => None,
                };
            }
        }
        None
    }

    /// Reads a pointer event: see [`TableView::on_mouse`].
    pub fn handle_mouse_event(&self, event: MouseEvent, track_row: usize) -> (action: Option<Action>)
        ensures
            action == self@.on_mouse(event, track_row),
    {
        if let Some(area) = self.mouse_content_area {
            if area.contains(event.column, event.row) {
                return match event.kind {
                    MouseEventKind::Down(MouseButton::Left) => {
                        let line: u16 = event.row - area.y;
                        let i: usize = self.offset.saturating_add(line as usize);
                        Some(Action::Navigation(NavigationAction::SelectAndFetch(i)))
                    },
                    MouseEventKind::ScrollDown => Some(Action::Navigation(NavigationAction::Down)),
                    MouseEventKind::ScrollUp => Some(Action::Navigation(NavigationAction::Up)),
                    _ => None,
                };
            }
        }
        if let Some(area) = self.mouse_track_area {
            if area.contains(event.column, event.row) {
                return match event.kind {
                    MouseEventKind::Down(MouseButton::Left)
                    | MouseEventKind::Drag(MouseButton::Left) => {
                        Some(Action::Navigation(NavigationAction::Select(track_row)))
                    },
                    _ => None,
                };
            }
        }
        None
    }

    pub fn get_area(&self) -> (area: Option<Rect>)
        ensures
            area == self@.area,
    {
        self.area
    }
}

} // verus!
