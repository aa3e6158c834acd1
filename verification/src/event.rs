//! What background operations report back.
use vstd::prelude::*;

use crate::request::Operation;

verus! {

/// Why an operation on the secret store failed, with the failure spelled
/// out as text.
#[derive(Debug, Clone, PartialEq, Eq)]
pub enum OperationError {
    /// The store itself refused: a line that was asked for is not there.
    Pass(String),
    /// The clipboard could not be reached or written.
    Clipboard(String),
    /// Anything else: decryption, reading the file, deriving a code.
    Other(String),
}

/// A result of a background operation.
#[derive(Debug)]
pub enum PasswordEvent {
    /// A new text for the status line, none to reset it, or a failure.
    Status(Result<Option<String>, OperationError>),
    /// The decrypted file of an entry.
    PasswordFile { pass_id: String, file_contents: String },
    /// A one-time password for an entry.
    OneTimePassword { pass_id: String, otp: String },
}

/// What an [`OperationError`] says.
pub enum ErrorView {
    Pass(Seq<char>),
    Clipboard(Seq<char>),
    Other(Seq<char>),
}

/// What a [`PasswordEvent`] says.
pub enum EventView {
    Reset,
    Status(Seq<char>),
    Failure(ErrorView),
    PasswordFile { pass_id: Seq<char>, file_contents: Seq<char> },
    OneTimePassword { pass_id: Seq<char>, otp: Seq<char> },
}

impl View for OperationError {
    type V = ErrorView;

    open spec fn view(&self) -> ErrorView {
        match *self {
            OperationError::Pass(text) => ErrorView::Pass(text@),
            OperationError::Clipboard(text) => ErrorView::Clipboard(text@),
            OperationError::Other(text) => ErrorView::Other(text@),
        }
    }
}

impl View for PasswordEvent {
    type V = EventView;

    open spec fn view(&self) -> EventView {
        match *self {
            PasswordEvent::Status(Ok(None)) => EventView::Reset,
            PasswordEvent::Status(Ok(Some(message))) => EventView::Status(message@),
            PasswordEvent::Status(Err(error)) => EventView::Failure(error@),
            PasswordEvent::PasswordFile { pass_id, file_contents } => EventView::PasswordFile {
                pass_id: pass_id@,
                file_contents: file_contents@,
            },
            PasswordEvent::OneTimePassword { pass_id, otp } => EventView::OneTimePassword {
                pass_id: pass_id@,
                otp: otp@,
            },
        }
    }
}

impl Operation {
    /// The status shown when a copy has succeeded.
    pub open spec fn spec_done(self) -> Seq<char> {
        match self {
            Operation::CopyPassword => "Password copied to clipboard, clears after 45 seconds"@,
            Operation::CopyLogin => "Login copied to clipboard, clears after 45 seconds"@,
            _ => "One-time password copied to clipboard, clears after 45 seconds"@,
        }
    }

    /// What a finished operation reports: a copy reports a status text, a
    /// fetch what it fetched, tagged with the entry, and a failure itself.
    pub open spec fn spec_report(
        self,
        pass_id: Seq<char>,
        result: Result<Seq<char>, ErrorView>,
    ) -> EventView {
        match result {
            Err(error) => EventView::Failure(error),
            Ok(payload) => match self {
                Operation::Fetch => EventView::PasswordFile { pass_id, file_contents: payload },
                Operation::FetchOtp => EventView::OneTimePassword { pass_id, otp: payload },
                _ => EventView::Status(self.spec_done()),
            },
        }
    }

    /// Turns the result of an operation into the event that reports it.
    /// `result` holds what the operation produced, which is of no account
    /// for a copy, or why it failed.
    pub fn report(self, pass_id: String, result: Result<String, OperationError>) -> (event:
        PasswordEvent)
        ensures
            event@ == self.spec_report(
                pass_id@,
                match result {
                    Ok(payload) => Ok(payload@),
                    Err(error) => Err(error@),
                },
            ),
    {
        match result {
            Err(error) => PasswordEvent::Status(Err(error)),
            Ok(payload) => match self {
                Operation::Fetch => PasswordEvent::PasswordFile { pass_id, file_contents: payload },
                Operation::FetchOtp => PasswordEvent::OneTimePassword { pass_id, otp: payload },
                Operation::CopyPassword => PasswordEvent::Status(
                    Ok(Some("Password copied to clipboard, clears after 45 seconds".to_owned())),
                ),
                Operation::CopyLogin => PasswordEvent::Status(
                    Ok(Some("Login copied to clipboard, clears after 45 seconds".to_owned())),
                ),
                Operation::CopyOtp => PasswordEvent::Status(
                    Ok(
                        Some(
                            "One-time password copied to clipboard, clears after 45 seconds".to_owned(),
                        ),
                    ),
                ),
            },
        }
    }
}

/// What copying the identifier of an entry leads to: a status text on
/// success and where the clipboard failed, nothing on another failure.
pub open spec fn spec_copy_id_report(result: Result<(), ErrorView>) -> Option<Seq<char>> {
    match result {
        Ok(()) => Some("Password file ID copied to clipboard"@),
        Err(ErrorView::Clipboard(text)) => Some("✗ Clipboard error: "@ + text),
        Err(_) => None,
    }
}

/// Turns the result of copying an identifier into the action that reports
/// it.
pub fn copy_id_report(result: Result<(), OperationError>) -> (action: Option<crate::actions::Action>)
    ensures
        crate::actions::view_of(action) == match spec_copy_id_report(
            match result {
                Ok(()) => Ok(()),
                Err(error) => Err(error@),
            },
        ) {
            Some(message) => Some(crate::actions::ActionView::SetStatus(message)),
            None => None,
        },
{
    match result {
        Ok(()) => Some(
            crate::actions::Action::SetStatus("Password file ID copied to clipboard".to_owned()),
        ),
        Err(OperationError::Clipboard(text)) => {
            let mut message = "✗ Clipboard error: ".to_owned();
            message.append(text.as_str());
            Some(crate::actions::Action::SetStatus(message))
        },
        Err(_) => None,
    }
}

} // verus!
