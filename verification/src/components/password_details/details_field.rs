//! One titled line of the details pane, with the buttons that act on it.
use vstd::prelude::*;

use crate::actions::Action;
use crate::components::button::{clickable, Button, ButtonView, State};
use crate::components::MouseSupport;
use crate::input::{hits, MouseEvent, Rect};
use crate::text::byte_length;
use vstd::string::StrSliceExecFns;

verus! {

#[derive(Debug)]
pub struct DetailsField {
    title: String,
    content: Option<String>,
    placeholder: String,
    buttons: Vec<Button>,
    area: Option<Rect>,
}

/// What a [`DetailsField`] holds.
pub struct FieldView {
    pub title: Seq<char>,
    pub content: Option<Seq<char>>,
    pub placeholder: Seq<char>,
    pub buttons: Seq<ButtonView>,
    pub area: Option<Rect>,
}

/// The character sequence of an optional string.
pub open spec fn text_of(text: Option<String>) -> Option<Seq<char>> {
    match text {
        Some(t) => Some(t@),
        None => None,
    }
}

/// The views of a row of buttons.
pub open spec fn button_views(buttons: Seq<Button>) -> Seq<ButtonView> {
    Seq::new(buttons.len(), |i: int| buttons[i]@)
}

/// The action of the last button, among the first `count`, that answers the
/// event.
pub open spec fn last_click(buttons: Seq<ButtonView>, event: MouseEvent, count: int) -> Option<
    Action,
>
    decreases count,
{
    if count <= 0 {
        None
    } else {
        match buttons[count - 1].on_mouse(event) {
            Some(action) => Some(action),
            None => last_click(buttons, event, count - 1),
        }
    }
}

/// Each button after it has seen the event.
pub open spec fn buttons_after(buttons: Seq<ButtonView>, event: MouseEvent) -> Seq<ButtonView> {
    Seq::new(buttons.len(), |i: int| buttons[i].after_mouse(event))
}

/// Each button with its look reset.
pub open spec fn buttons_reset(buttons: Seq<ButtonView>) -> Seq<ButtonView> {
    Seq::new(buttons.len(), |i: int| ButtonView { state: State::Normal, ..buttons[i] })
}

/// The columns that the first `count` buttons take at the right edge of a
/// field, each with one column of space behind it.
pub open spec fn columns_taken(buttons: Seq<ButtonView>, count: int) -> int
    decreases count,
{
    if count <= 0 {
        0
    } else {
        columns_taken(buttons, count - 1) + buttons[count - 1].dimensions.0 + 1
    }
}

/// Where the button at `index` goes in a field drawn in `area`: buttons are
/// set from the right edge leftwards, one row below the top of the field,
/// and none goes left of column zero.
pub open spec fn button_area(buttons: Seq<ButtonView>, index: int, area: Rect) -> Rect {
    let reach = columns_taken(buttons, index) + buttons[index].dimensions.0;
    Rect {
        x: if area.x + area.width >= reach {
            (area.x + area.width - reach) as u16
        } else {
            0
        },
        y: (area.y + 1) as u16,
        width: buttons[index].dimensions.0,
        height: buttons[index].dimensions.1,
    }
}

/// The buttons of a field drawn in `area`, each in its place.
pub open spec fn buttons_placed(buttons: Seq<ButtonView>, area: Rect) -> Seq<ButtonView> {
    Seq::new(
        buttons.len(),
        |i: int|
            ButtonView {
                inner_area: Some(clickable(buttons[i].mode, button_area(buttons, i, area))),
                ..buttons[i]
            },
    )
}

/// What a field shows in `room` columns: its content, or its placeholder
/// where it has none; a text of more bytes than there are columns is cut to
/// one character less than the columns and ends in an ellipsis.
pub open spec fn shown_text(text: Seq<char>, room: u16) -> Seq<char> {
    if byte_length(text) > room {
        let kept = if room >= 1 && room - 1 < text.len() {
            room - 1
        } else if room >= 1 {
            text.len() as int
        } else {
            0
        };
        text.take(kept).push('…')
    } else {
        text
    }
}

impl View for DetailsField {
    type V = FieldView;

    closed spec fn view(&self) -> FieldView {
        FieldView {
            title: self.title@,
            content: text_of(self.content),
            placeholder: self.placeholder@,
            buttons: button_views(self.buttons@),
            area: self.area,
        }
    }
}

impl FieldView {
    /// Whether the field can be drawn in `area` within the columns and rows
    /// that the terminal can address. A field of less than two rows has no
    /// room for buttons and can be drawn anywhere.
    pub open spec fn fits_in(self, area: Rect) -> bool {
        area.height >= 2 ==> {
            &&& area.x + area.width <= u16::MAX
            &&& area.y + 2 <= u16::MAX
            &&& columns_taken(self.buttons, self.buttons.len() as int) <= u16::MAX
        }
    }

    /// The field drawn in `area`: with two rows or more its buttons are put
    /// in place.
    pub open spec fn place(self, area: Rect) -> FieldView {
        FieldView {
            area: Some(area),
            buttons: if area.height >= 2 {
                buttons_placed(self.buttons, area)
            } else {
                self.buttons
            },
            ..self
        }
    }

    /// The columns left of the buttons of a field drawn in `area`.
    pub open spec fn room(self, area: Rect) -> int {
        let taken = if area.height >= 2 {
            columns_taken(self.buttons, self.buttons.len() as int)
        } else {
            0
        };
        if area.width >= taken {
            area.width - taken
        } else {
            0
        }
    }

    /// The text of the field: its content, or its placeholder.
    pub open spec fn text(self) -> Seq<char> {
        match self.content {
            Some(content) => content,
            None => self.placeholder,
        }
    }

    /// The field after a pointer event: inside its area every button sees
    /// the event, outside every button is reset.
    pub open spec fn after_mouse(self, event: MouseEvent) -> FieldView {
        if hits(self.area, event) {
            FieldView { buttons: buttons_after(self.buttons, event), ..self }
        } else {
            FieldView { buttons: buttons_reset(self.buttons), ..self }
        }
    }

    /// The action of a pointer event: inside the area of the field, that of
    /// the last button that answers.
    pub open spec fn on_mouse(self, event: MouseEvent) -> Option<Action> {
        if hits(self.area, event) {
            last_click(self.buttons, event, self.buttons.len() as int)
        } else {
            None
        }
    }
}

impl DetailsField {
    pub fn new(title: &str) -> (field: Self)
        ensures
            field@ == (FieldView {
                title: title@,
                content: None,
                placeholder: Seq::empty(),
                buttons: Seq::empty(),
                area: None,
            }),
    {
        let field = DetailsField {
            title: title.to_owned(),
            content: None,
            placeholder: String::new(),
            buttons: Vec::new(),
            area: None,
        };
        assert(button_views(field.buttons@) =~= Seq::empty());
        field
    }

    /// Adds a button behind those the field has.
    pub fn button(self, button: Button) -> (field: Self)
        ensures
            field@ == (FieldView { buttons: self@.buttons.push(button@), ..self@ }),
    {
        let mut field = self;
        field.buttons.push(button);
        assert(button_views(field.buttons@) =~= button_views(self.buttons@).push(button@));
        field
    }

    /// Sets what is shown while the field has no content.
    pub fn placeholder(self, placeholder: &str) -> (field: Self)
        ensures
            field@ == (FieldView { placeholder: placeholder@, ..self@ }),
    {
        let mut field = self;
        field.placeholder = placeholder.to_owned();
        field
    }

    pub fn set_content(&mut self, content: &str)
        ensures
            final(self)@ == (FieldView { content: Some(content@), ..old(self)@ }),
    {
        self.content = Some(content.to_owned());
    }

    pub fn reset_content(&mut self)
        ensures
            final(self)@ == (FieldView { content: None, ..old(self)@ }),
    {
        self.content = None;
    }

    /// Tells whether the field can be drawn in `area`: see
    /// [`FieldView::fits_in`].
    pub fn fits_in(&self, area: Rect) -> (fitting: bool)
        ensures
            fitting == self@.fits_in(area),
    {
        if area.height < 2 {
            return true;
        }
        if area.x > u16::MAX - area.width || area.y > u16::MAX - 2 {
            return false;
        }
        let ghost buttons = self@.buttons;
        let mut taken: u32 = 0;
        let mut i: usize = 0;
        while i < self.buttons.len()
            invariant
                i <= self.buttons.len(),
                buttons == button_views(self.buttons@),
                buttons == self@.buttons,
                area.height >= 2,
                area.x + area.width <= u16::MAX,
                area.y + 2 <= u16::MAX,
                taken == columns_taken(buttons, i as int),
                taken <= u16::MAX,
            decreases self.buttons.len() - i,
        {
            let (width, _) = self.buttons[i].dimensions_wanted();
            taken = taken + width as u32 + 1;
            i = i + 1;
            assert(taken == columns_taken(buttons, i as int)) by {
                assert(buttons[i - 1].dimensions.0 == width);
            }
            if taken > u16::MAX as u32 {
                proof {
                    lemma_columns_taken_rises(buttons, i as int, buttons.len() as int);
                }
                return false;
            }
        }
        true
    }

    /// The columns that the buttons take at the right edge of the field.
    pub fn columns(&self) -> (taken: u16)
        requires
            columns_taken(self@.buttons, self@.buttons.len() as int) <= u16::MAX,
        ensures
            taken == columns_taken(self@.buttons, self@.buttons.len() as int),
    {
        let ghost buttons = self@.buttons;
        let mut taken: u16 = 0;
        let mut i: usize = 0;
        while i < self.buttons.len()
            invariant
                i <= self.buttons.len(),
                buttons == button_views(self.buttons@),
                taken == columns_taken(buttons, i as int),
                columns_taken(buttons, buttons.len() as int) <= u16::MAX,
            decreases self.buttons.len() - i,
        {
            proof {
                lemma_columns_taken_rises(buttons, i as int + 1, buttons.len() as int);
            }
            let (width, _) = self.buttons[i].dimensions_wanted();
            taken = taken + width + 1;
            i = i + 1;
        }
        taken
    }

    /// Where each button goes in a field drawn in `area`: see
    /// [`button_area`].
    pub fn button_areas(&self, area: Rect) -> (areas: Vec<Rect>)
        requires
            self@.fits_in(area),
            area.height >= 2,
        ensures
            areas@.len() == self@.buttons.len(),
            forall|i: int|
                0 <= i < areas@.len() ==> areas@[i] == button_area(self@.buttons, i, area),
    {
        let ghost buttons = self@.buttons;
        let edge: u16 = area.x + area.width;
        let mut areas: Vec<Rect> = Vec::new();
        let mut right_offset: u16 = 0;
        let mut i: usize = 0;
        while i < self.buttons.len()
            invariant
                i <= self.buttons.len(),
                buttons == button_views(self.buttons@),
                area.y + 2 <= u16::MAX,
                edge == area.x + area.width,
                right_offset == columns_taken(buttons, i as int),
                columns_taken(buttons, buttons.len() as int) <= u16::MAX,
                areas@.len() == i,
                forall|j: int| 0 <= j < i ==> areas@[j] == button_area(buttons, j, area),
            decreases self.buttons.len() - i,
        {
            proof {
                lemma_columns_taken_rises(buttons, i as int + 1, buttons.len() as int);
            }
            let (width, height) = self.buttons[i].dimensions_wanted();
            right_offset = right_offset + width;
            areas.push(Rect { x: edge.saturating_sub(right_offset), y: area.y + 1, width, height });
            right_offset = right_offset + 1;
            i = i + 1;
        }
        areas
    }

    /// Records the rectangle the field was drawn in and, with two rows or
    /// more, puts its buttons in place. Returns the columns left of the
    /// buttons.
    pub fn place(&mut self, area: Rect) -> (room: u16)
        requires
            old(self)@.fits_in(area),
        ensures
            final(self)@ == old(self)@.place(area),
            room == old(self)@.room(area),
    {
        self.area = Some(area);
        if area.height < 2 {
            return area.width;
        }
        let ghost before = self@.buttons;
        let areas = self.button_areas(area);
        let taken = self.columns();
        let mut i: usize = 0;
        while i < self.buttons.len()
            invariant
                i <= self.buttons.len(),
                self.buttons.len() == old(self).buttons.len(),
                before == button_views(old(self).buttons@),
                self.title == old(self).title,
                self.content == old(self).content,
                self.placeholder == old(self).placeholder,
                self.area == Some(area),
                area.y + 2 <= u16::MAX,
                areas@.len() == self.buttons.len(),
                forall|j: int|
                    0 <= j < areas@.len() ==> areas@[j] == button_area(before, j, area),
                forall|j: int|
                    0 <= j < i ==> self.buttons[j]@ == (ButtonView {
                        inner_area: Some(clickable(before[j].mode, button_area(before, j, area))),
                        ..before[j]
                    }),
                forall|j: int| i <= j < self.buttons.len() ==> self.buttons[j] == old(self).buttons[j],
            decreases self.buttons.len() - i,
        {
            self.buttons[i].place(areas[i]);
            i = i + 1;
        }
        assert(button_views(self.buttons@) =~= buttons_placed(before, area));
        area.width.saturating_sub(taken)
    }

    /// What the field shows in `room` columns: see [`shown_text`].
    pub fn shown_text(&self, room: u16) -> (text: String)
        ensures
            text@ == shown_text(self@.text(), room),
    {
        let content = match &self.content {
            Some(content) => content.clone(),
            None => self.placeholder.clone(),
        };
        if content.as_str().len() > room as usize {
            let length = content.as_str().unicode_len();
            let wanted: usize = if room >= 1 {
                (room - 1) as usize
            } else {
                0
            };
            let kept = if wanted < length {
                wanted
            } else {
                length
            };
            let mut characters: Vec<char> = Vec::new();
            let mut i: usize = 0;
            while i < kept
                invariant
                    i <= kept <= content@.len(),
                    characters@ == content@.take(i as int),
                decreases kept - i,
            {
                characters.push(content.as_str().get_char(i));
                i = i + 1;
                assert(characters@ =~= content@.take(i as int));
            }
            characters.push('…');
            crate::text::collect(&characters)
        } else {
            content
        }
    }

    pub fn title(&self) -> (title: &String)
        ensures
            title@ == self@.title,
    {
        &self.title
    }

    pub fn content(&self) -> (content: &Option<String>)
        ensures
            text_of(*content) == self@.content,
    {
        &self.content
    }

    pub fn placeholder_text(&self) -> (placeholder: &String)
        ensures
            placeholder@ == self@.placeholder,
    {
        &self.placeholder
    }

    pub fn buttons(&self) -> (buttons: &Vec<Button>)
        ensures
            button_views(buttons@) == self@.buttons,
    {
        &self.buttons
    }

    fn in_focus(&mut self, event: MouseEvent) -> (action: Option<Action>)
        ensures
            final(self)@ == (FieldView {
                buttons: buttons_after(old(self)@.buttons, event),
                ..old(self)@
            }),
            action == last_click(old(self)@.buttons, event, old(self)@.buttons.len() as int),
    {
        let mut latest_action: Option<Action> = None;
        let mut i: usize = 0;
        while i < self.buttons.len()
            invariant
                i <= self.buttons.len(),
                self.buttons.len() == old(self).buttons.len(),
                self.title == old(self).title,
                self.content == old(self).content,
                self.placeholder == old(self).placeholder,
                self.area == old(self).area,
                forall|j: int| 0 <= j < i ==> self.buttons[j]@ == old(self).buttons[j]@.after_mouse(event),
                forall|j: int| i <= j < self.buttons.len() ==> self.buttons[j] == old(self).buttons[j],
                latest_action == last_click(button_views(old(self).buttons@), event, i as int),
            decreases self.buttons.len() - i,
        {
            let answer = self.buttons[i].handle_mouse_event(event);
            if let Some(action) = answer {
                latest_action = Some(action);
            }
            i = i + 1;
        }
        assert(button_views(self.buttons@) =~= buttons_after(button_views(old(self).buttons@), event));
        latest_action
    }

    fn out_of_focus(&mut self) -> (action: Option<Action>)
        ensures
            final(self)@ == (FieldView { buttons: buttons_reset(old(self)@.buttons), ..old(self)@ }),
            action is None,
    {
        let mut i: usize = 0;
        while i < self.buttons.len()
            invariant
                i <= self.buttons.len(),
                self.buttons.len() == old(self).buttons.len(),
                self.title == old(self).title,
                self.content == old(self).content,
                self.placeholder == old(self).placeholder,
                self.area == old(self).area,
                forall|j: int| 0 <= j < i ==> self.buttons[j]@ == (ButtonView {
                    state: State::Normal,
                    ..old(self).buttons[j]@
                }),
                forall|j: int| i <= j < self.buttons.len() ==> self.buttons[j] == old(self).buttons[j],
            decreases self.buttons.len() - i,
        {
            self.buttons[i].reset();
            i = i + 1;
        }
        assert(button_views(self.buttons@) =~= buttons_reset(button_views(old(self).buttons@)));
        None
    }
}

/// The columns taken grow with the number of buttons counted.
proof fn lemma_columns_taken_rises(buttons: Seq<ButtonView>, fewer: int, more: int)
    requires
        0 <= fewer <= more,
    ensures
        0 <= columns_taken(buttons, fewer) <= columns_taken(buttons, more),
    decreases more,
{
    if fewer < more {
        lemma_columns_taken_rises(buttons, fewer, more - 1);
    } else if fewer > 0 {
        lemma_columns_taken_rises(buttons, fewer - 1, fewer - 1);
        lemma_columns_taken_rises(buttons, 0, fewer - 1);
    }
}

impl MouseSupport for DetailsField {
    fn handle_mouse_event(&mut self, event: MouseEvent) -> (action: Option<Action>)
        ensures
            final(self)@ == old(self)@.after_mouse(event),
            action == old(self)@.on_mouse(event),
    {
        if hits(self.area, event) {
            self.in_focus(event)
        } else {
            self.out_of_focus()
        }
    }

    fn get_area(&self) -> (area: Option<Rect>)
        ensures
            area == self@.area,
    {
        self.area
    }
}

} // verus!
