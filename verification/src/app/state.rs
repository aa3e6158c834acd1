//! The three independent axes of the view state.
use vstd::prelude::*;

verus! {

/// Which base view is shown.
#[derive(Debug, Clone, Copy, PartialEq, Eq, Structural)]
pub enum MainState {
    Table,
    Preview,
    Secrets,
}

/// Whether the search box is closed, open but paused, or being edited.
#[derive(Debug, Clone, Copy, PartialEq, Eq, Structural)]
pub enum SearchState {
    Inactive,
    Suspended,
    Active,
}

/// Which modal popup, if any, covers the base view.
#[derive(Debug, Clone, Copy, PartialEq, Eq, Structural)]
pub enum OverlayState {
    Inactive,
    Help,
    File,
}

/// The composite view state.
#[derive(Debug, Clone, Copy, PartialEq, Eq, Structural)]
pub struct State {
    pub main: MainState,
    pub search: SearchState,
    pub overlay: OverlayState,
}

/// The axis that decides how a key press is read.
#[derive(Debug, Clone, Copy, PartialEq, Eq, Structural)]
pub enum InputMode {
    /// The help popup is open.
    HelpOverlay,
    /// The file popup is open.
    FileOverlay,
    /// The search box is being edited and no popup is open.
    SearchEditing,
    /// The table view, with no popup and no active search.
    Table,
    /// The preview or secrets view, with no popup and no active search.
    Details,
}

impl Default for MainState {
    fn default() -> (r: Self)
        ensures
            r == MainState::Preview,
    {
        MainState::Preview
    }
}

impl Default for SearchState {
    fn default() -> (r: Self)
        ensures
            r == SearchState::Inactive,
    {
        SearchState::Inactive
    }
}

impl Default for OverlayState {
    fn default() -> (r: Self)
        ensures
            r == OverlayState::Inactive,
    {
        OverlayState::Inactive
    }
}

impl Default for State {
    fn default() -> (r: Self)
        ensures
            r == State::initial(),
    {
        State {
            main: MainState::Preview,
            search: SearchState::Inactive,
            overlay: OverlayState::Inactive,
        }
    }
}

impl State {
    /// The state the viewer starts in: preview, no search, no popup.
    pub open spec fn initial() -> State {
        State {
            main: MainState::Preview,
            search: SearchState::Inactive,
            overlay: OverlayState::Inactive,
        }
    }

    /// The authoritative axis, by the precedence overlay, then active
    /// search, then main view.
    pub open spec fn spec_input_mode(self) -> InputMode {
        match self.overlay {
            OverlayState::Help => InputMode::HelpOverlay,
            OverlayState::File => InputMode::FileOverlay,
            OverlayState::Inactive => match self.search {
                SearchState::Active => InputMode::SearchEditing,
                _ => match self.main {
                    MainState::Table => InputMode::Table,
                    _ => InputMode::Details,
                },
            },
        }
    }

    /// Picks the axis that governs input in this state.
    #[verifier::when_used_as_spec(spec_input_mode)]
    pub fn input_mode(self) -> (mode: InputMode)
        ensures
            mode == self.spec_input_mode(),
    {
        match self.overlay {
            OverlayState::Help => InputMode::HelpOverlay,
            OverlayState::File => InputMode::FileOverlay,
            OverlayState::Inactive => match self.search {
                SearchState::Active => InputMode::SearchEditing,
                _ => match self.main {
                    MainState::Table => InputMode::Table,
                    _ => InputMode::Details,
                },
            },
        }
    }
}

} // verus!
