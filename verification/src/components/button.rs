//! A clickable button: its labels, its look and what a click on it means.
use vstd::prelude::*;

use crate::actions::Action;
use crate::components::MouseSupport;
use crate::input::{hits, MouseButton, MouseEvent, MouseEventKind, Rect};

verus! {

/// How the pointer last met the button.
#[derive(Debug, Clone, Copy, PartialEq, Eq, Structural)]
pub enum State {
    Normal,
    Selected,
    Active,
}

/// Where the accents of the button are drawn.
#[derive(Debug, Clone, Copy, PartialEq, Eq, Structural)]
pub enum Mode {
    Horizontal,
    Vertical,
    Padded,
}

/// One of the three colours of a button's theme.
#[derive(Debug, Clone, Copy, PartialEq, Eq, Structural)]
pub enum Shade {
    Background,
    Highlight,
    Shadow,
}

#[derive(Debug)]
pub struct Button {
    label: String,
    keyboard_label: String,
    mode: Mode,
    state: State,
    pub dimensions: (u16, u16),
    inner_area: Option<Rect>,
    mouse_action: Option<Action>,
}

/// What a [`Button`] holds.
pub struct ButtonView {
    pub label: Seq<char>,
    pub keyboard_label: Seq<char>,
    pub mode: Mode,
    pub state: State,
    pub dimensions: (u16, u16),
    pub inner_area: Option<Rect>,
    pub mouse_action: Option<Action>,
}

impl Default for State {
    fn default() -> (state: Self)
        ensures
            state == State::Normal,
    {
        State::Normal
    }
}

impl Default for Mode {
    fn default() -> (mode: Self)
        ensures
            mode == Mode::Horizontal,
    {
        Mode::Horizontal
    }
}

impl View for Button {
    type V = ButtonView;

    closed spec fn view(&self) -> ButtonView {
        ButtonView {
            label: self.label@,
            keyboard_label: self.keyboard_label@,
            mode: self.mode,
            state: self.state,
            dimensions: self.dimensions,
            inner_area: self.inner_area,
            mouse_action: self.mouse_action,
        }
    }
}

/// A rectangle of more than one row has a row below its first one that the
/// terminal can address.
pub open spec fn spec_fits(area: Rect) -> bool {
    area.height > 1 ==> area.y < u16::MAX
}

/// Tells whether a button can be drawn in the rectangle.
#[verifier::when_used_as_spec(spec_fits)]
pub fn fits(area: Rect) -> (fitting: bool)
    ensures
        fitting == spec_fits(area),
{
    area.height <= 1 || area.y < u16::MAX
}

/// The part of a button's rectangle that takes clicks: a padded button of
/// more than one row gives up its first row, and of more than two rows also
/// its last.
pub open spec fn clickable(mode: Mode, area: Rect) -> Rect {
    if mode == Mode::Padded && area.height > 2 {
        Rect { y: (area.y + 1) as u16, height: (area.height - 2) as u16, ..area }
    } else if mode == Mode::Padded && area.height > 1 {
        Rect { y: (area.y + 1) as u16, height: (area.height - 1) as u16, ..area }
    } else {
        area
    }
}

impl ButtonView {
    /// How the pointer changes the look of the button.
    pub open spec fn state_after(self, event: MouseEvent) -> State {
        if !hits(self.inner_area, event) {
            State::Normal
        } else {
            match event.kind {
                MouseEventKind::Moved => State::Selected,
                MouseEventKind::Down(MouseButton::Left) => State::Active,
                MouseEventKind::Up(MouseButton::Left) => State::Selected,
                _ => self.state,
            }
        }
    }

    /// The button after a pointer event: only its look changes.
    pub open spec fn after_mouse(self, event: MouseEvent) -> ButtonView {
        ButtonView { state: self.state_after(event), ..self }
    }

    /// The action of a pointer event: that of the button, on a left press
    /// inside its clickable area.
    pub open spec fn on_mouse(self, event: MouseEvent) -> Option<Action> {
        if hits(self.inner_area, event) && event.kind.is_left_down() {
            self.mouse_action
        } else {
            None
        }
    }

    /// The colours for the face, the lower accent and the upper accent.
    pub open spec fn colors(self) -> (Shade, Shade, Shade) {
        match self.state {
            State::Normal => (Shade::Background, Shade::Shadow, Shade::Highlight),
            State::Selected => (Shade::Highlight, Shade::Shadow, Shade::Highlight),
            State::Active => (Shade::Background, Shade::Highlight, Shade::Shadow),
        }
    }
}

impl Button {
    /// A button with this label, ten cells by three, with horizontal accents
    /// and no action.
    pub fn new(label: &str) -> (button: Self)
        ensures
            button@ == (ButtonView {
                label: label@,
                keyboard_label: Seq::empty(),
                mode: Mode::Horizontal,
                state: State::Normal,
                dimensions: (10u16, 3u16),
                inner_area: None,
                mouse_action: None,
            }),
    {
        Button {
            label: label.to_owned(),
            keyboard_label: String::new(),
            mode: Mode::Horizontal,
            state: State::Normal,
            dimensions: (10, 3),
            inner_area: None,
            mouse_action: None,
        }
    }

    /// Sets the hint for the key that does what the button does; the label
    /// gets a space behind it.
    pub fn keyboard_label(self, keyboard_label: &str) -> (button: Self)
        ensures
            button@ == (ButtonView {
                label: self@.label + " "@,
                keyboard_label: keyboard_label@,
                ..self@
            }),
    {
        let mut button = self;
        button.label.append(" ");
        button.keyboard_label = keyboard_label.to_owned();
        button
    }

    pub fn dimensions(self, width: u16, height: u16) -> (button: Self)
        ensures
            button@ == (ButtonView { dimensions: (width, height), ..self@ }),
    {
        let mut button = self;
        button.dimensions = (width, height);
        button
    }

    pub fn horizontal_accents(self) -> (button: Self)
        ensures
            button@ == (ButtonView { mode: Mode::Horizontal, ..self@ }),
    {
        let mut button = self;
        button.mode = Mode::Horizontal;
        button
    }

    pub fn vertical_accents(self) -> (button: Self)
        ensures
            button@ == (ButtonView { mode: Mode::Vertical, ..self@ }),
    {
        let mut button = self;
        button.mode = Mode::Vertical;
        button
    }

    pub fn padded(self) -> (button: Self)
        ensures
            button@ == (ButtonView { mode: Mode::Padded, ..self@ }),
    {
        let mut button = self;
        button.mode = Mode::Padded;
        button
    }

    pub fn action_on_click(self, action: Action) -> (button: Self)
        ensures
            button@ == (ButtonView { mouse_action: Some(action), ..self@ }),
    {
        let mut button = self;
        button.mouse_action = Some(action);
        button
    }

    pub fn state(self, state: State) -> (button: Self)
        ensures
            button@ == (ButtonView { state, ..self@ }),
    {
        let mut button = self;
        button.state = state;
        button
    }

    /// Which colour of the theme goes where, by the look of the button.
    pub fn colors(&self) -> (shades: (Shade, Shade, Shade))
        ensures
            shades == self@.colors(),
    {
        match self.state {
            State::Normal => (Shade::Background, Shade::Shadow, Shade::Highlight),
            State::Selected => (Shade::Highlight, Shade::Shadow, Shade::Highlight),
            State::Active => (Shade::Background, Shade::Highlight, Shade::Shadow),
        }
    }

    /// The width and height the button asks for.
    pub fn dimensions_wanted(&self) -> (dimensions: (u16, u16))
        ensures
            dimensions == self@.dimensions,
    {
        self.dimensions
    }

    pub fn inner_area(&self) -> (area: Option<Rect>)
        ensures
            area == self@.inner_area,
    {
        self.inner_area
    }

    pub fn select(&mut self)
        ensures
            final(self)@ == (ButtonView { state: State::Selected, ..old(self)@ }),
    {
        self.state = State::Selected;
    }

    pub fn reset(&mut self)
        ensures
            final(self)@ == (ButtonView { state: State::Normal, ..old(self)@ }),
    {
        self.state = State::Normal;
    }

    pub fn activate(&mut self)
        ensures
            final(self)@ == (ButtonView { state: State::Active, ..old(self)@ }),
    {
        self.state = State::Active;
    }

    /// Records where the button was drawn and which part of it takes clicks.
    pub fn place(&mut self, area: Rect)
        requires
            fits(area),
        ensures
            final(self)@ == (ButtonView {
                inner_area: Some(clickable(old(self)@.mode, area)),
                ..old(self)@
            }),
    {
        let inner_area = match self.mode {
            Mode::Padded => {
                if area.height > 2 {
                    Rect { x: area.x, y: area.y + 1, width: area.width, height: area.height - 2 }
                } else if area.height > 1 {
                    Rect { x: area.x, y: area.y + 1, width: area.width, height: area.height - 1 }
                } else {
                    area
                }
            },
            _ => area,
        };
        self.inner_area = Some(inner_area);
    }

    pub fn label(&self) -> (label: &String)
        ensures
            label@ == self@.label,
    {
        &self.label
    }

    pub fn key_hint(&self) -> (hint: &String)
        ensures
            hint@ == self@.keyboard_label,
    {
        &self.keyboard_label
    }

    pub fn mode(&self) -> (mode: Mode)
        ensures
            mode == self@.mode,
    {
        self.mode
    }

    pub fn current_state(&self) -> (state: State)
        ensures
            state == self@.state,
    {
        self.state
    }

    fn in_focus(&mut self, event: MouseEvent) -> (action: Option<Action>)
        requires
            hits(old(self)@.inner_area, event),
        ensures
            final(self)@ == old(self)@.after_mouse(event),
            action == old(self)@.on_mouse(event),
    {
        match event.kind {
            MouseEventKind::Moved => {
                self.select();
                None
            },
            MouseEventKind::Down(MouseButton::Left) => {
                self.activate();
                self.click()
            },
            MouseEventKind::Up(MouseButton::Left) => {
                self.select();
                None
            },
            _ => None,
        }
    }

    fn out_of_focus(&mut self) -> (action: Option<Action>)
        ensures
            final(self)@ == (ButtonView { state: State::Normal, ..old(self)@ }),
            action is None,
    {
        self.reset();
        None
    }

    /// A copy of the action that a click stands for.
    fn click(&self) -> (action: Option<Action>)
        ensures
            action == self@.mouse_action,
    {
        match &self.mouse_action {
            Some(action) => Some(action.duplicate()),
            None => None,
        }
    }
}

impl MouseSupport for Button {
    fn handle_mouse_event(&mut self, event: MouseEvent) -> (action: Option<Action>)
        ensures
            final(self)@ == old(self)@.after_mouse(event),
            action == old(self)@.on_mouse(event),
    {
        if hits(self.inner_area, event) {
            self.in_focus(event)
        } else {
            self.out_of_focus()
        }
    }

    fn get_area(&self) -> (area: Option<Rect>)
        ensures
            area == self@.inner_area,
    {
        self.inner_area
    }
}

} // verus!
