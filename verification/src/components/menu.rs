//! The menu bar with its three buttons.
use vstd::prelude::*;

use crate::actions::{Action, NavigationAction};
use crate::components::button::{Button, ButtonView, Mode, State};
use crate::components::MouseSupport;
use crate::input::{MouseEvent, Rect};

verus! {

#[derive(Debug)]
pub struct Menu {
    area: Option<Rect>,
    search_button: Button,
    help_button: Button,
    quit_button: Button,
}

/// What a [`Menu`] holds.
pub struct MenuView {
    pub area: Option<Rect>,
    pub search_button: ButtonView,
    pub help_button: ButtonView,
    pub quit_button: ButtonView,
}

impl View for Menu {
    type V = MenuView;

    closed spec fn view(&self) -> MenuView {
        MenuView {
            area: self.area,
            search_button: self.search_button@,
            help_button: self.help_button@,
            quit_button: self.quit_button@,
        }
    }
}

/// A menu button before it is drawn.
pub open spec fn menu_button(label: Seq<char>, key: Seq<char>, action: NavigationAction) -> ButtonView {
    ButtonView {
        label: label + " "@,
        keyboard_label: key,
        mode: Mode::Vertical,
        state: State::Normal,
        dimensions: (10u16, 3u16),
        inner_area: None,
        mouse_action: Some(Action::Navigation(action)),
    }
}

/// Where the search button is drawn.
pub open spec fn search_button_area() -> Rect {
    Rect { x: 0, y: 0, width: 12, height: 1 }
}

/// Where the help button is drawn.
pub open spec fn help_button_area() -> Rect {
    Rect { x: 12, y: 0, width: 11, height: 1 }
}

/// Where the quit button is drawn.
pub open spec fn quit_button_area() -> Rect {
    Rect { x: 23, y: 0, width: 10, height: 1 }
}

impl MenuView {
    /// The menu before it is drawn.
    pub open spec fn initial() -> MenuView {
        MenuView {
            area: None,
            search_button: menu_button("Search"@, "(/)"@, NavigationAction::Search),
            help_button: menu_button("Help"@, "(F1)"@, NavigationAction::Help),
            quit_button: menu_button("Quit"@, "(q)"@, NavigationAction::Quit),
        }
    }

    pub open spec fn after_mouse(self, event: MouseEvent) -> MenuView {
        MenuView {
            search_button: self.search_button.after_mouse(event),
            help_button: self.help_button.after_mouse(event),
            quit_button: self.quit_button.after_mouse(event),
            ..self
        }
    }

    /// The action of a pointer event: that of the last button, in the order
    /// search, help, quit, that answers.
    pub open spec fn on_mouse(self, event: MouseEvent) -> Option<Action> {
        match self.quit_button.on_mouse(event) {
            Some(action) => Some(action),
            None => match self.help_button.on_mouse(event) {
                Some(action) => Some(action),
                None => self.search_button.on_mouse(event),
            },
        }
    }

    /// The menu drawn in `area`: its buttons stand at fixed places.
    pub open spec fn place(self, area: Rect) -> MenuView {
        MenuView {
            area: Some(area),
            search_button: ButtonView {
                inner_area: Some(search_button_area()),
                ..self.search_button
            },
            help_button: ButtonView { inner_area: Some(help_button_area()), ..self.help_button },
            quit_button: ButtonView { inner_area: Some(quit_button_area()), ..self.quit_button },
        }
    }
}

impl Menu {
    pub fn new() -> (menu: Self)
        ensures
            menu@ == MenuView::initial(),
    {
        let search_button = Button::new("Search").keyboard_label("(/)").vertical_accents()
            .action_on_click(Action::Navigation(NavigationAction::Search));
        let help_button = Button::new("Help").keyboard_label("(F1)").vertical_accents()
            .action_on_click(Action::Navigation(NavigationAction::Help));
        let quit_button = Button::new("Quit").keyboard_label("(q)").vertical_accents()
            .action_on_click(Action::Navigation(NavigationAction::Quit));
        Menu { area: None, help_button, search_button, quit_button }
    }

    /// Records where the menu was drawn; the buttons go to their places.
    pub fn place(&mut self, area: Rect)
        ensures
            final(self)@ == old(self)@.place(area),
    {
        self.area = Some(area);
        self.search_button.place(Rect { x: 0, y: 0, width: 12, height: 1 });
        self.help_button.place(Rect { x: 12, y: 0, width: 11, height: 1 });
        self.quit_button.place(Rect { x: 23, y: 0, width: 10, height: 1 });
    }

    pub fn search_button(&self) -> (button: &Button)
        ensures
            button@ == self@.search_button,
    {
        &self.search_button
    }

    pub fn help_button(&self) -> (button: &Button)
        ensures
            button@ == self@.help_button,
    {
        &self.help_button
    }

    pub fn quit_button(&self) -> (button: &Button)
        ensures
            button@ == self@.quit_button,
    {
        &self.quit_button
    }
}

impl MouseSupport for Menu {
    fn handle_mouse_event(&mut self, event: MouseEvent) -> (action: Option<Action>)
        ensures
            final(self)@ == old(self)@.after_mouse(event),
            action == old(self)@.on_mouse(event),
    {
        let mut action: Option<Action> = None;
        if let Some(latest_action) = self.search_button.handle_mouse_event(event) {
            action = Some(latest_action);
        }
        if let Some(latest_action) = self.help_button.handle_mouse_event(event) {
            action = Some(latest_action);
        }
        if let Some(latest_action) = self.quit_button.handle_mouse_event(event) {
            action = Some(latest_action);
        }
        action
    }

    fn get_area(&self) -> (area: Option<Rect>)
        ensures
            area == self@.area,
    {
        self.area
    }
}

} // verus!
