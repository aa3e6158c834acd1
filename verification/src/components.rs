//! The nodes of the presentation tree, each with the state that input acts on
//! and the rectangle it was last drawn in.
use vstd::prelude::*;

use crate::actions::Action;
use crate::input::{MouseEvent, Rect};
use crate::request::Outcome;

pub mod button;
pub mod dashboard;
pub mod file_popup;
pub mod help_popup;
pub mod menu;
pub mod password_details;
pub mod password_store;
pub mod password_table;
pub mod search_field;
pub mod status_bar;

pub use button::Button;
pub use dashboard::Dashboard;
pub use file_popup::FilePopup;
pub use help_popup::HelpPopup;
pub use menu::Menu;
pub use password_details::PasswordDetails;
pub use password_table::PasswordTable;
pub use search_field::SearchField;
pub use status_bar::StatusBar;

verus! {

/// A node that consumes actions and may answer with a follow-up action.
pub trait Component {
    /// What holds of the node between updates.
    spec fn inv(&self) -> bool;

    /// Applies an action. What comes back is the action to apply next, if
    /// any, and the request to carry out, if any.
    fn update(&mut self, action: Action) -> (outcome: Outcome)
        requires
            old(self).inv(),
        ensures
            final(self).inv(),
    ;
}

/// A node that reads pointer events against the area it was last drawn in.
pub trait MouseSupport {
    fn handle_mouse_event(&mut self, event: MouseEvent) -> Option<Action>;

    fn get_area(&self) -> Option<Rect>;
}

} // verus!
