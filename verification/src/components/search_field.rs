//! The search box: a line of characters with a cursor.
use vstd::prelude::*;

use crate::actions::{Action, NavigationAction};
use crate::components::MouseSupport;
use crate::input::{hits, MouseEvent, Rect};
use crate::text;

verus! {

/// The query being typed, the cursor in it, and whether editing is paused.
#[derive(Debug, Clone)]
pub struct SearchField {
    area: Option<Rect>,
    characters: Vec<char>,
    cursor_position: usize,
    suspended: bool,
}

/// What a [`SearchField`] holds.
pub struct SearchView {
    pub area: Option<Rect>,
    pub characters: Seq<char>,
    pub cursor: int,
    pub suspended: bool,
}

impl View for SearchField {
    type V = SearchView;

    closed spec fn view(&self) -> SearchView {
        SearchView {
            area: self.area,
            characters: self.characters@,
            cursor: self.cursor_position as int,
            suspended: self.suspended,
        }
    }
}

impl SearchView {
    /// The empty, unpaused field that was never drawn.
    pub open spec fn cleared() -> SearchView {
        SearchView { area: None, characters: Seq::empty(), cursor: 0, suspended: false }
    }

    /// The cursor stands in the text or right behind it.
    pub open spec fn wf(self) -> bool {
        0 <= self.cursor <= self.characters.len()
    }

    pub open spec fn insert(self, character: char) -> SearchView {
        SearchView {
            characters: self.characters.insert(self.cursor, character),
            cursor: self.cursor + 1,
            ..self
        }
    }

    /// Whether there is a character left of the cursor to remove.
    pub open spec fn can_remove_left(self) -> bool {
        self.cursor > 0
    }

    pub open spec fn remove_left(self) -> SearchView {
        if self.can_remove_left() {
            SearchView {
                characters: self.characters.remove(self.cursor - 1),
                cursor: self.cursor - 1,
                ..self
            }
        } else {
            self
        }
    }

    /// Whether there is a character under the cursor to remove.
    pub open spec fn can_remove_right(self) -> bool {
        self.cursor < self.characters.len()
    }

    pub open spec fn remove_right(self) -> SearchView {
        if self.can_remove_right() {
            SearchView { characters: self.characters.remove(self.cursor), ..self }
        } else {
            self
        }
    }

    pub open spec fn move_left(self) -> SearchView {
        SearchView { cursor: if self.cursor > 0 { self.cursor - 1 } else { 0 }, ..self }
    }

    pub open spec fn move_right(self) -> SearchView {
        SearchView {
            cursor: if self.cursor < self.characters.len() {
                self.cursor + 1
            } else {
                self.characters.len() as int
            },
            ..self
        }
    }

    pub open spec fn move_to_start(self) -> SearchView {
        SearchView { cursor: 0, ..self }
    }

    pub open spec fn move_to_end(self) -> SearchView {
        SearchView { cursor: self.characters.len() as int, ..self }
    }

    /// Empties the field and resumes editing; the area stays.
    pub open spec fn reset(self) -> SearchView {
        SearchView { characters: Seq::empty(), cursor: 0, suspended: false, ..self }
    }

    pub open spec fn suspend(self) -> SearchView {
        SearchView { suspended: true, ..self }
    }

    pub open spec fn resume(self) -> SearchView {
        SearchView { suspended: false, ..self }
    }

    pub open spec fn place(self, area: Rect) -> SearchView {
        SearchView { area: Some(area), ..self }
    }

    /// What a pointer event means to the field: a press on it opens the
    /// search, a press elsewhere leaves it unless editing is paused.
    pub open spec fn on_mouse(self, event: MouseEvent) -> Option<Action> {
        if !event.kind.is_left_down() {
            None
        } else if hits(self.area, event) {
            Some(Action::Navigation(NavigationAction::Search))
        } else if !self.suspended {
            Some(Action::Navigation(NavigationAction::Leave))
        } else {
            None
        }
    }
}

impl SearchField {
    /// The invariant of the field: see [`SearchView::wf`].
    pub open spec fn wf(&self) -> bool {
        self@.wf()
    }

    pub fn new() -> (field: Self)
        ensures
            field.wf(),
            field@ == SearchView::cleared(),
    {
        SearchField { area: None, characters: Vec::new(), cursor_position: 0, suspended: false }
    }

    /// Inserts a character at the cursor and moves the cursor behind it.
    pub fn insert(&mut self, character: char)
        requires
            old(self).wf(),
        ensures
            final(self).wf(),
            final(self)@ == old(self)@.insert(character),
    {
        self.characters.insert(self.cursor_position, character);
        let length: usize = self.characters.len();
        assert(self.cursor_position < length);
        self.cursor_position = self.cursor_position + 1;
    }

    /// Removes the character left of the cursor. Tells whether there was one.
    pub fn remove_left(&mut self) -> (removed: bool)
        requires
            old(self).wf(),
        ensures
            final(self).wf(),
            removed == old(self)@.can_remove_left(),
            final(self)@ == old(self)@.remove_left(),
    {
        if self.cursor_position > 0 {
            let _ = self.characters.remove(self.cursor_position - 1);
            self.cursor_position = self.cursor_position - 1;
            return true;
        }
        false
    }

    /// Removes the character under the cursor. Tells whether there was one.
    pub fn remove_right(&mut self) -> (removed: bool)
        requires
            old(self).wf(),
        ensures
            final(self).wf(),
            removed == old(self)@.can_remove_right(),
            final(self)@ == old(self)@.remove_right(),
    {
        if self.cursor_position < self.characters.len() {
            let _ = self.characters.remove(self.cursor_position);
            return true;
        }
        false
    }

    pub fn move_left(&mut self)
        requires
            old(self).wf(),
        ensures
            final(self).wf(),
            final(self)@ == old(self)@.move_left(),
    {
        if self.cursor_position > 0 {
            self.cursor_position = self.cursor_position - 1;
        }
    }

    pub fn move_right(&mut self)
        requires
            old(self).wf(),
        ensures
            final(self).wf(),
            final(self)@ == old(self)@.move_right(),
    {
        if self.cursor_position < self.characters.len() {
            self.cursor_position = self.cursor_position + 1;
        } else {
            self.cursor_position = self.characters.len();
        }
    }

    pub fn move_to_start(&mut self)
        requires
            old(self).wf(),
        ensures
            final(self).wf(),
            final(self)@ == old(self)@.move_to_start(),
    {
        self.cursor_position = 0;
    }

    pub fn move_to_end(&mut self)
        requires
            old(self).wf(),
        ensures
            final(self).wf(),
            final(self)@ == old(self)@.move_to_end(),
    {
        self.cursor_position = self.characters.len();
    }

    /// Empties the field and resumes editing.
    pub fn reset(&mut self)
        ensures
            final(self).wf(),
            final(self)@ == old(self)@.reset(),
    {
        self.characters = Vec::new();
        self.cursor_position = 0;
        self.suspended = false;
    }

    /// Pauses editing; the query stays.
    pub fn suspend(&mut self)
        ensures
            final(self)@ == old(self)@.suspend(),
    {
        self.suspended = true;
    }

    pub fn resume(&mut self)
        ensures
            final(self)@ == old(self)@.resume(),
    {
        self.suspended = false;
    }

    pub fn is_empty(&self) -> (empty: bool)
        ensures
            empty == (self@.characters.len() == 0),
    {
        self.characters.len() == 0
    }

    /// The query as a string.
    pub fn get_content(&self) -> (content: String)
        ensures
            content@ == self@.characters,
    {
        text::collect(&self.characters)
    }

    /// The position of the cursor in the query.
    pub fn cursor_position(&self) -> (cursor: usize)
        ensures
            cursor == self@.cursor,
    {
        self.cursor_position
    }

    pub fn is_suspended(&self) -> (suspended: bool)
        ensures
            suspended == self@.suspended,
    {
        self.suspended
    }

    /// Records the rectangle the field was drawn in.
    pub fn place(&mut self, area: Rect)
        ensures
            final(self)@ == old(self)@.place(area),
    {
        self.area = Some(area);
    }

    fn in_focus(&self, event: MouseEvent) -> (action: Option<Action>)
        ensures
            action == if event.kind.is_left_down() {
                Some(Action::Navigation(NavigationAction::Search))
            } else {
                None
            },
    {
        if event.kind.is_left_down() {
            Some(Action::Navigation(NavigationAction::Search))
        } else {
            None
        }
    }

    fn out_of_focus(&self, event: MouseEvent) -> (action: Option<Action>)
        ensures
            action == if event.kind.is_left_down() && !self@.suspended {
                Some(Action::Navigation(NavigationAction::Leave))
            } else {
                None
            },
    {
        if event.kind.is_left_down() {
            if !self.suspended {
                return Some(Action::Navigation(NavigationAction::Leave));
            }
            None
        } else {
            None
        }
    }
}

impl MouseSupport for SearchField {
    fn handle_mouse_event(&mut self, event: MouseEvent) -> (action: Option<Action>)
        ensures
            *final(self) == *old(self),
            action == old(self)@.on_mouse(event),
    {
        if hits(self.area, event) {
            self.in_focus(event)
        } else {
            self.out_of_focus(event)
        }
    }

    fn get_area(&self) -> (area: Option<Rect>)
        ensures
            area == self@.area,
    {
        self.area
    }
}

} // verus!
