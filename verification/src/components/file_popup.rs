//! The popup that shows the decrypted file as it is.
use vstd::prelude::*;

use crate::actions::{Action, NavigationAction};
use crate::components::button::{Button, ButtonView};
use crate::components::password_details::details_field::text_of;
use crate::components::MouseSupport;
use crate::input::{MouseEvent, Rect};

verus! {

#[derive(Debug)]
pub struct FilePopup {
    area: Option<Rect>,
    pass_id: Option<String>,
    content: Option<String>,
    close_button: Button,
}

/// What a [`FilePopup`] holds.
pub struct FilePopupView {
    pub area: Option<Rect>,
    pub pass_id: Option<Seq<char>>,
    pub content: Option<Seq<char>>,
    pub close_button: ButtonView,
}

impl View for FilePopup {
    type V = FilePopupView;

    closed spec fn view(&self) -> FilePopupView {
        FilePopupView {
            area: self.area,
            pass_id: text_of(self.pass_id),
            content: text_of(self.content),
            close_button: self.close_button@,
        }
    }
}

/// The button that closes a popup, before it is drawn.
pub open spec fn close_button() -> ButtonView {
    ButtonView {
        label: "Close"@ + " "@,
        keyboard_label: "(Esc)"@,
        mode: crate::components::button::Mode::Padded,
        state: crate::components::button::State::Normal,
        dimensions: (13u16, 3u16),
        inner_area: None,
        mouse_action: Some(Action::Navigation(NavigationAction::Back)),
    }
}

/// Builds the button that closes a popup.
pub fn make_close_button() -> (button: Button)
    ensures
        button@ == close_button(),
{
    Button::new("Close").keyboard_label("(Esc)").dimensions(13, 3).padded().action_on_click(
        Action::Navigation(NavigationAction::Back),
    )
}

/// What a pointer event means while a popup is open: the action of its
/// close button, and nothing for the nodes below otherwise.
pub open spec fn popup_on_mouse(close_button: ButtonView, event: MouseEvent) -> Option<Action> {
    match close_button.on_mouse(event) {
        Some(action) => Some(action),
        None => Some(Action::NoOp),
    }
}

impl FilePopupView {
    /// The popup before it is drawn or filled.
    pub open spec fn initial() -> FilePopupView {
        FilePopupView { area: None, pass_id: None, content: None, close_button: close_button() }
    }

    /// The popup drawn in `area`, with its button in `button_area`.
    pub open spec fn place(self, area: Rect, button_area: Rect) -> FilePopupView {
        FilePopupView {
            area: Some(area),
            close_button: ButtonView {
                inner_area: Some(
                    crate::components::button::clickable(self.close_button.mode, button_area),
                ),
                ..self.close_button
            },
            ..self
        }
    }

    pub open spec fn cleared(self) -> FilePopupView {
        FilePopupView { pass_id: None, content: None, ..self }
    }

    pub open spec fn after_mouse(self, event: MouseEvent) -> FilePopupView {
        FilePopupView { close_button: self.close_button.after_mouse(event), ..self }
    }
}

impl FilePopup {
    pub fn new() -> (popup: Self)
        ensures
            popup@ == FilePopupView::initial(),
    {
        FilePopup { area: None, pass_id: None, content: None, close_button: make_close_button() }
    }

    pub fn set_content(&mut self, pass_id: &str, content: &str)
        ensures
            final(self)@ == (FilePopupView {
                pass_id: Some(pass_id@),
                content: Some(content@),
                ..old(self)@
            }),
    {
        self.pass_id = Some(pass_id.to_owned());
        self.content = Some(content.to_owned());
    }

    pub fn reset_content(&mut self)
        ensures
            final(self)@ == old(self)@.cleared(),
    {
        self.pass_id = None;
        self.content = None;
    }

    /// Records where the popup and its button were drawn.
    pub fn place(&mut self, area: Rect, button_area: Rect)
        requires
            crate::components::button::fits(button_area),
        ensures
            final(self)@ == old(self)@.place(area, button_area),
    {
        self.area = Some(area);
        self.close_button.place(button_area);
    }

    /// The entry whose file is shown.
    pub fn pass_id(&self) -> (pass_id: &Option<String>)
        ensures
            text_of(*pass_id) == self@.pass_id,
    {
        &self.pass_id
    }

    /// The file shown.
    pub fn content(&self) -> (content: &Option<String>)
        ensures
            text_of(*content) == self@.content,
    {
        &self.content
    }

    pub fn close_button(&self) -> (button: &Button)
        ensures
            button@ == self@.close_button,
    {
        &self.close_button
    }
}

impl MouseSupport for FilePopup {
    fn handle_mouse_event(&mut self, event: MouseEvent) -> (action: Option<Action>)
        ensures
            final(self)@ == old(self)@.after_mouse(event),
            action == popup_on_mouse(old(self)@.close_button, event),
    {
        match self.close_button.handle_mouse_event(event) {
            Some(action) => Some(action),
            None => Some(Action::NoOp),
        }
    }

    fn get_area(&self) -> (area: Option<Rect>)
        ensures
            area == self@.area,
    {
        self.area
    }
}

} // verus!
