//! What the state machine asks of the world outside: operations on the
//! secret store that must not hold up input handling.
use vstd::prelude::*;

use futures::channel::oneshot::Sender;

use crate::actions::{view_of, Action, ActionView, PasswordAction};

verus! {

/// An operation that decrypts the file of an entry.
#[derive(Debug, Clone, Copy, PartialEq, Eq, Structural)]
pub enum Operation {
    /// Copy the password, the first line, to the clipboard.
    CopyPassword,
    /// Copy the login, the second line, to the clipboard.
    CopyLogin,
    /// Derive a one-time password and copy it to the clipboard.
    CopyOtp,
    /// Read the whole file.
    Fetch,
    /// Derive a one-time password.
    FetchOtp,
}

/// A request to the world outside.
pub enum Request {
    /// Copy the identifier of an entry to the clipboard, at once.
    CopyId { pass_id: String },
    /// Run an operation off the interactive path, or, where `blocking` is
    /// set, on it. Whoever runs it sends one value through
    /// `completion_beacon` when it is done.
    Run {
        operation: Operation,
        pass_id: String,
        file_name: String,
        blocking: bool,
        completion_beacon: Sender<u8>,
    },
}

/// What a [`Request`] asks for.
pub enum RequestView {
    CopyId { pass_id: Seq<char> },
    Run { operation: Operation, pass_id: Seq<char>, file_name: Seq<char>, blocking: bool },
}

impl View for Request {
    type V = RequestView;

    open spec fn view(&self) -> RequestView {
        match *self {
            Request::CopyId { pass_id } => RequestView::CopyId { pass_id: pass_id@ },
            Request::Run { operation, pass_id, file_name, blocking, completion_beacon } => {
                RequestView::Run { operation, pass_id: pass_id@, file_name: file_name@, blocking }
            },
        }
    }
}

/// What applying an action hands back: the action to apply next, and the
/// request to carry out.
pub struct Outcome {
    pub follow_up: Option<Action>,
    pub request: Option<Request>,
}

/// What an [`Outcome`] says.
pub struct OutcomeView {
    pub follow_up: Option<ActionView>,
    pub request: Option<RequestView>,
}

impl View for Outcome {
    type V = OutcomeView;

    open spec fn view(&self) -> OutcomeView {
        OutcomeView {
            follow_up: view_of(self.follow_up),
            request: match self.request {
                Some(request) => Some(request@),
                None => None,
            },
        }
    }
}

impl OutcomeView {
    /// Nothing to apply and nothing to carry out.
    pub open spec fn nothing() -> OutcomeView {
        OutcomeView { follow_up: None, request: None }
    }

    /// An action to apply next.
    pub open spec fn followed_by(action: ActionView) -> OutcomeView {
        OutcomeView { follow_up: Some(action), request: None }
    }
}

impl Operation {
    /// The class under which the guard tracks the operation. Each
    /// operation is a class of its own.
    pub open spec fn spec_class(self) -> Seq<char> {
        match self {
            Operation::CopyPassword => "copy_password"@,
            Operation::CopyLogin => "copy_login"@,
            Operation::CopyOtp => "copy_otp"@,
            Operation::Fetch => "decrypt_password_file"@,
            Operation::FetchOtp => "generate_otp"@,
        }
    }

    pub fn class(self) -> (class: &'static str)
        ensures
            class@ == self.spec_class(),
    {
        match self {
            Operation::CopyPassword => "copy_password",
            Operation::CopyLogin => "copy_login",
            Operation::CopyOtp => "copy_otp",
            Operation::Fetch => "decrypt_password_file",
            Operation::FetchOtp => "generate_otp",
        }
    }

    /// The status shown while the operation runs.
    pub open spec fn spec_progress(self) -> Seq<char> {
        match self {
            Operation::CopyPassword => "⧗ Copying password..."@,
            Operation::CopyLogin => "⧗ Copying login..."@,
            Operation::CopyOtp => "⧗ Copying one-time password..."@,
            Operation::Fetch => "⧗ Fetching password entry..."@,
            Operation::FetchOtp => "⧗ Fetching one-time password..."@,
        }
    }

    pub fn progress(self) -> (message: &'static str)
        ensures
            message@ == self.spec_progress(),
    {
        match self {
            Operation::CopyPassword => "⧗ Copying password...",
            Operation::CopyLogin => "⧗ Copying login...",
            Operation::CopyOtp => "⧗ Copying one-time password...",
            Operation::Fetch => "⧗ Fetching password entry...",
            Operation::FetchOtp => "⧗ Fetching one-time password...",
        }
    }
}

impl PasswordAction {
    /// The operation that the guard lets through or holds up for the
    /// action; none for copying the identifier, which needs no secret.
    pub open spec fn spec_operation(self) -> Option<Operation> {
        match self {
            PasswordAction::CopyPassId => None,
            PasswordAction::CopyPassword => Some(Operation::CopyPassword),
            PasswordAction::CopyLogin => Some(Operation::CopyLogin),
            PasswordAction::CopyOtp => Some(Operation::CopyOtp),
            PasswordAction::Fetch => Some(Operation::Fetch),
            PasswordAction::FetchOtp => Some(Operation::FetchOtp),
        }
    }

    #[verifier::when_used_as_spec(spec_operation)]
    pub fn operation(self) -> (operation: Option<Operation>)
        ensures
            operation == self.spec_operation(),
    {
        match self {
            PasswordAction::CopyPassId => None,
            PasswordAction::CopyPassword => Some(Operation::CopyPassword),
            PasswordAction::CopyLogin => Some(Operation::CopyLogin),
            PasswordAction::CopyOtp => Some(Operation::CopyOtp),
            PasswordAction::Fetch => Some(Operation::Fetch),
            PasswordAction::FetchOtp => Some(Operation::FetchOtp),
        }
    }
}

/// Different operations are of different classes.
pub proof fn lemma_classes_differ(one: Operation, other: Operation)
    requires
        one != other,
    ensures
        one.spec_class() != other.spec_class(),
{
    reveal_strlit("copy_password");
    reveal_strlit("copy_login");
    reveal_strlit("copy_otp");
    reveal_strlit("decrypt_password_file");
    reveal_strlit("generate_otp");
    assert(one.spec_class().len() != other.spec_class().len());
}

/// The file of an entry, relative to the root of the store.
pub open spec fn spec_file_name(pass_id: Seq<char>) -> Seq<char> {
    pass_id + ".gpg"@
}

pub fn file_name(pass_id: &String) -> (name: String)
    ensures
        name@ == spec_file_name(pass_id@),
{
    let mut name = pass_id.clone();
    name.append(".gpg");
    name
}

} // verus!
