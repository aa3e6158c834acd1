//! The popup that lists the keys.
use vstd::prelude::*;

use crate::actions::Action;
use crate::components::button::{clickable, fits, Button, ButtonView};
use crate::components::file_popup::{close_button, make_close_button, popup_on_mouse};
use crate::components::MouseSupport;
use crate::input::{MouseEvent, Rect};

verus! {

#[derive(Debug)]
pub struct HelpPopup {
    area: Option<Rect>,
    close_button: Button,
}

/// What a [`HelpPopup`] holds.
pub struct HelpPopupView {
    pub area: Option<Rect>,
    pub close_button: ButtonView,
}

impl View for HelpPopup {
    type V = HelpPopupView;

    closed spec fn view(&self) -> HelpPopupView {
        HelpPopupView { area: self.area, close_button: self.close_button@ }
    }
}

impl HelpPopupView {
    /// The popup before it is drawn.
    pub open spec fn initial() -> HelpPopupView {
        HelpPopupView { area: None, close_button: close_button() }
    }

    /// The popup drawn in `area`, with its button in `button_area`.
    pub open spec fn place(self, area: Rect, button_area: Rect) -> HelpPopupView {
        HelpPopupView {
            area: Some(area),
            close_button: ButtonView {
                inner_area: Some(clickable(self.close_button.mode, button_area)),
                ..self.close_button
            },
        }
    }

    pub open spec fn after_mouse(self, event: MouseEvent) -> HelpPopupView {
        HelpPopupView { close_button: self.close_button.after_mouse(event), ..self }
    }
}

impl HelpPopup {
    pub fn new() -> (popup: Self)
        ensures
            popup@ == HelpPopupView::initial(),
    {
        HelpPopup { area: None, close_button: make_close_button() }
    }

    /// Records where the popup and its button were drawn.
    pub fn place(&mut self, area: Rect, button_area: Rect)
        requires
            fits(button_area),
        ensures
            final(self)@ == old(self)@.place(area, button_area),
    {
        self.area = Some(area);
        self.close_button.place(button_area);
    }

    pub fn close_button(&self) -> (button: &Button)
        ensures
            button@ == self@.close_button,
    {
        &self.close_button
    }
}

impl MouseSupport for HelpPopup {
    fn handle_mouse_event(&mut self, event: MouseEvent) -> (action: Option<Action>)
        ensures
            final(self)@ == old(self)@.after_mouse(event),
            action == popup_on_mouse(old(self)@.close_button, event),
    {
        match self.close_button.handle_mouse_event(event) {
            Some(action) => Some(action),
            None => Some(Action::NoOp),
        }
    }

    fn get_area(&self) -> (area: Option<Rect>)
        ensures
            area == self@.area,
    {
        self.area
    }
}

} // verus!
