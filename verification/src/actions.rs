//! The commands that input and background results are read as.
use vstd::prelude::*;

verus! {

/// A command for the dispatch loop.
#[derive(Debug, Clone, PartialEq)]
pub enum Action {
    Navigation(NavigationAction),
    Password(PasswordAction),
    Search(SearchAction),
    SetStatus(String),
    ResetStatus,
    DisplaySecrets { pass_id: String, file_contents: String },
    DisplayOneTimePassword { pass_id: String, otp: String },
    NoOp,
    Redraw,
}

/// Movement between entries and between views.
#[derive(Debug, Clone, Copy, PartialEq, Eq, Structural)]
pub enum NavigationAction {
    Back,
    Next,
    Leave,
    Down,
    Up,
    PageDown,
    PageUp,
    Top,
    Bottom,
    Preview,
    Secrets,
    Search,
    Help,
    File,
    Select(usize),
    SelectAndFetch(usize),
    Quit,
}

/// Edits of the search query.
#[derive(Debug, Clone, Copy, PartialEq, Eq, Structural)]
pub enum SearchAction {
    Insert(char),
    RemoveLeft,
    RemoveRight,
    MoveLeft,
    MoveRight,
    MoveToStart,
    MoveToEnd,
}

/// Operations on the secret of the selected entry.
#[derive(Debug, Clone, Copy, PartialEq, Eq, Structural)]
pub enum PasswordAction {
    Fetch,
    FetchOtp,
    CopyPassId,
    CopyPassword,
    CopyLogin,
    CopyOtp,
}

/// What an [`Action`] says, with each text as a sequence of characters.
pub enum ActionView {
    Navigation(NavigationAction),
    Password(PasswordAction),
    Search(SearchAction),
    SetStatus(Seq<char>),
    ResetStatus,
    DisplaySecrets { pass_id: Seq<char>, file_contents: Seq<char> },
    DisplayOneTimePassword { pass_id: Seq<char>, otp: Seq<char> },
    NoOp,
    Redraw,
}

impl View for Action {
    type V = ActionView;

    open spec fn view(&self) -> ActionView {
        match *self {
            Action::Navigation(a) => ActionView::Navigation(a),
            Action::Password(a) => ActionView::Password(a),
            Action::Search(a) => ActionView::Search(a),
            Action::SetStatus(message) => ActionView::SetStatus(message@),
            Action::ResetStatus => ActionView::ResetStatus,
            Action::DisplaySecrets { pass_id, file_contents } => ActionView::DisplaySecrets {
                pass_id: pass_id@,
                file_contents: file_contents@,
            },
            Action::DisplayOneTimePassword { pass_id, otp } => ActionView::DisplayOneTimePassword {
                pass_id: pass_id@,
                otp: otp@,
            },
            Action::NoOp => ActionView::NoOp,
            Action::Redraw => ActionView::Redraw,
        }
    }
}

impl Action {
    /// A copy of the action.
    pub fn duplicate(&self) -> (copy: Action)
        ensures
            copy == *self,
    {
        match self {
            Action::Navigation(a) => Action::Navigation(*a),
            Action::Password(a) => Action::Password(*a),
            Action::Search(a) => Action::Search(*a),
            Action::SetStatus(message) => Action::SetStatus(message.clone()),
            Action::ResetStatus => Action::ResetStatus,
            Action::DisplaySecrets { pass_id, file_contents } => Action::DisplaySecrets {
                pass_id: pass_id.clone(),
                file_contents: file_contents.clone(),
            },
            Action::DisplayOneTimePassword { pass_id, otp } => Action::DisplayOneTimePassword {
                pass_id: pass_id.clone(),
                otp: otp.clone(),
            },
            Action::NoOp => Action::NoOp,
            Action::Redraw => Action::Redraw,
        }
    }
}

/// The view of an optional action.
pub open spec fn view_of(action: Option<Action>) -> Option<ActionView> {
    match action {
        Some(a) => Some(a@),
        None => None,
    }
}

} // verus!
