//! Plain values for what the terminal reports: keys, pointer events and the
//! rectangles that nodes were last drawn in.
use vstd::prelude::*;

verus! {

/// A key press, by the key alone.
#[derive(Debug, Clone, Copy, PartialEq, Eq, Structural)]
pub enum Key {
    Backspace,
    Enter,
    Left,
    Right,
    Up,
    Down,
    Home,
    End,
    PageUp,
    PageDown,
    Tab,
    BackTab,
    Delete,
    Insert,
    F(u8),
    Char(char),
    Null,
    Esc,
    CapsLock,
    ScrollLock,
    NumLock,
    PrintScreen,
    Pause,
    Menu,
    KeypadBegin,
    Media,
    Modifier,
}

/// A pointer button.
#[derive(Debug, Clone, Copy, PartialEq, Eq, Structural)]
pub enum MouseButton {
    Left,
    Right,
    Middle,
}

/// What the pointer did.
#[derive(Debug, Clone, Copy, PartialEq, Eq, Structural)]
pub enum MouseEventKind {
    Down(MouseButton),
    Up(MouseButton),
    Drag(MouseButton),
    Moved,
    ScrollDown,
    ScrollUp,
    ScrollLeft,
    ScrollRight,
}

/// A pointer event at a terminal cell.
#[derive(Debug, Clone, Copy, PartialEq, Eq, Structural)]
pub struct MouseEvent {
    pub kind: MouseEventKind,
    pub column: u16,
    pub row: u16,
}

/// A rectangle of terminal cells.
#[derive(Debug, Clone, Copy, PartialEq, Eq, Structural)]
pub struct Rect {
    pub x: u16,
    pub y: u16,
    pub width: u16,
    pub height: u16,
}

impl MouseEventKind {
    /// The left button went down.
    pub open spec fn spec_is_left_down(self) -> bool {
        self == MouseEventKind::Down(MouseButton::Left)
    }

    /// Tells whether the left button went down.
    #[verifier::when_used_as_spec(spec_is_left_down)]
    pub fn is_left_down(self) -> (b: bool)
        ensures
            b == self.spec_is_left_down(),
    {
        match self {
            MouseEventKind::Down(MouseButton::Left) => true,
            _ => false,
        }
    }
}

impl Rect {
    /// The first column right of the rectangle, held at the largest column.
    pub open spec fn right(self) -> int {
        if self.x + self.width > u16::MAX {
            u16::MAX as int
        } else {
            self.x + self.width
        }
    }

    /// The first row below the rectangle, held at the largest row.
    pub open spec fn bottom(self) -> int {
        if self.y + self.height > u16::MAX {
            u16::MAX as int
        } else {
            self.y + self.height
        }
    }

    /// The cell lies inside the rectangle.
    pub open spec fn spec_contains(self, column: u16, row: u16) -> bool {
        &&& self.x <= column < self.right()
        &&& self.y <= row < self.bottom()
    }

    /// Tests a cell against the rectangle with `ratatui::layout::Rect::contains`.
    ///
    /// Trusted: the rectangle with these four fields contains the position
    /// exactly when the column lies in `x <= column < right` and the row in
    /// `y <= row < bottom`, where `right` and `bottom` are the saturating sums
    /// of origin and extent.
    #[verifier::external_body]
    #[verifier::when_used_as_spec(spec_contains)]
    pub(crate) fn contains(self, column: u16, row: u16) -> (inside: bool)
        ensures
            inside == self.spec_contains(column, row),
    {
        ratatui::layout::Rect { x: self.x, y: self.y, width: self.width, height: self.height }
            .contains(ratatui::layout::Position { x: column, y: row })
    }
}

/// The event falls on the rectangle, if there is one.
pub open spec fn spec_hits(area: Option<Rect>, event: MouseEvent) -> bool {
    match area {
        Some(rect) => rect.spec_contains(event.column, event.row),
        None => false,
    }
}

/// Tests a pointer event against the rectangle a node was last drawn in.
#[verifier::when_used_as_spec(spec_hits)]
pub fn hits(area: Option<Rect>, event: MouseEvent) -> (inside: bool)
    ensures
        inside == spec_hits(area, event),
{
    match area {
        Some(rect) => rect.contains(event.column, event.row),
        None => false,
    }
}

} // verus!
