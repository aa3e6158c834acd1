//! The guard that keeps a background operation from being started twice for
//! the same entry while the first is still running.
use vstd::prelude::*;

use futures::channel::oneshot::{Canceled, Receiver, Sender};

use crate::text::strings_equal;

verus! {

/// The sending half of a completion signal. The task that holds it sends
/// one value when it is done; dropping it unsent also ends the wait.
#[verifier::external_type_specification]
#[verifier::external_body]
#[verifier::reject_recursive_types(T)]
pub struct ExSender<T>(Sender<T>);

/// The receiving half of a completion signal.
#[verifier::external_type_specification]
#[verifier::external_body]
#[verifier::reject_recursive_types(T)]
pub struct ExReceiver<T>(Receiver<T>);

/// The error of a receiver whose sender is gone.
#[verifier::external_type_specification]
#[verifier::external_body]
pub struct ExCanceled(Canceled);

/// Makes a completion signal. Nothing is claimed of the two halves.
pub assume_specification<T>[ futures::channel::oneshot::channel::<T> ]() -> (halves: (
    Sender<T>,
    Receiver<T>,
));

/// Polls a completion signal without waiting. What comes back depends on
/// how far the task on the other side has got, so nothing is claimed of it.
pub assume_specification<T>[ Receiver::<T>::try_recv ](receiver: &mut Receiver<T>) -> (polled:
    Result<Option<T>, Canceled>);

/// What polling a completion signal can tell.
#[derive(Debug, Clone, Copy, PartialEq, Eq, Structural)]
pub enum Completion {
    /// The task has not signalled and still holds its half.
    Pending,
    /// The task has signalled that it is done.
    Done,
    /// The task let go of its half without a signal: it no longer runs.
    Dropped,
}

/// The most recent operation that was let through.
pub struct LastOperation {
    pass_id: String,
    class: String,
    completion_receiver: Option<Receiver<u8>>,
}

/// What a [`LastOperation`] tracks: the entry, the class of operation, and
/// whether a completion signal is being waited for.
pub struct DedupView {
    pub pass_id: Seq<char>,
    pub class: Seq<char>,
    pub armed: bool,
}

impl View for LastOperation {
    type V = DedupView;

    closed spec fn view(&self) -> DedupView {
        DedupView {
            pass_id: self.pass_id@,
            class: self.class@,
            armed: self.completion_receiver is Some,
        }
    }
}

impl DedupView {
    /// The guard that has let nothing through yet.
    pub open spec fn idle() -> DedupView {
        DedupView { pass_id: Seq::empty(), class: Seq::empty(), armed: false }
    }

    /// The guard right after it let an operation through.
    pub open spec fn tracking(pass_id: Seq<char>, class: Seq<char>) -> DedupView {
        DedupView { pass_id, class, armed: true }
    }

    /// The request is for the operation being tracked.
    pub open spec fn same_key(self, pass_id: Seq<char>, class: Seq<char>) -> bool {
        self.pass_id == pass_id && self.class == class
    }

    /// Whether the answer to a request depends on the completion signal.
    pub open spec fn must_poll(self, pass_id: Seq<char>, class: Seq<char>) -> bool {
        self.same_key(pass_id, class) && self.armed
    }

    /// Whether a request is let through, given what the completion signal
    /// of the tracked operation says. A request for another entry or
    /// another class always passes. A repeated request passes once the
    /// tracked operation is done or no longer runs.
    pub open spec fn permits(self, pass_id: Seq<char>, class: Seq<char>, signal: Completion) -> bool {
        if !self.same_key(pass_id, class) {
            true
        } else {
            self.armed && signal != Completion::Pending
        }
    }

    /// The guard after a request.
    pub open spec fn after(self, pass_id: Seq<char>, class: Seq<char>, signal: Completion) -> DedupView {
        if self.permits(pass_id, class, signal) {
            DedupView::tracking(pass_id, class)
        } else {
            self
        }
    }
}

/// Reads the outcome of a poll.
pub(crate) fn completion_of(polled: Result<Option<u8>, Canceled>) -> (signal: Completion)
    ensures
        signal == match polled {
            Ok(None) => Completion::Pending,
            Ok(Some(_)) => Completion::Done,
            Err(_) => Completion::Dropped,
        },
{
    match polled {
        Ok(None) => Completion::Pending,
        Ok(Some(_)) => Completion::Done,
        Err(_) => Completion::Dropped,
    }
}

impl Default for LastOperation {
    fn default() -> (guard: Self)
        ensures
            guard@ == DedupView::idle(),
    {
        LastOperation { pass_id: String::new(), class: String::new(), completion_receiver: None }
    }
}

impl LastOperation {
    /// Decides a request against the tracked operation, given what its
    /// completion signal says.
    pub fn decide(&self, pass_id: &str, class: &str, signal: Completion) -> (permitted: bool)
        ensures
            permitted == self@.permits(pass_id@, class@, signal),
    {
        let same_entry = strings_equal(pass_id, self.pass_id.as_str());
        let same_class = strings_equal(class, self.class.as_str());
        if !same_entry || !same_class {
            true
        } else {
            match self.completion_receiver {
                Some(_) => match signal {
                    Completion::Pending => false,
                    _ => true,
                },
                None => false,
            }
        }
    }

    /// Asks the completion signal of the tracked operation how far the
    /// operation has got, where the answer to a request depends on it. The
    /// guard tracks what it tracked. Where the request is for another entry
    /// or class, or no signal is waited for, nothing is asked and the
    /// answer is pending.
    pub fn poll(&mut self, pass_id: &str, class: &str) -> (signal: Completion)
        ensures
            final(self)@ == old(self)@,
            !old(self)@.must_poll(pass_id@, class@) ==> signal == Completion::Pending,
    {
        let same_entry = strings_equal(pass_id, self.pass_id.as_str());
        let same_class = strings_equal(class, self.class.as_str());
        if same_entry && same_class {
            match &mut self.completion_receiver {
                Some(receiver) => completion_of(receiver.try_recv()),
                None => Completion::Pending,
            }
        } else {
            Completion::Pending
        }
    }

    /// Answers a request, given what the completion signal of the tracked
    /// operation says. A request for another entry or another class is let
    /// through. A repeated request is refused while the signal is pending,
    /// and where no signal is waited for; it is let through once the
    /// operation is done or no longer runs. A request that is let through is
    /// tracked from now on, and the sending half of a fresh completion
    /// signal is handed out; a request that is refused leaves the guard as it
    /// is.
    pub fn settle(&mut self, pass_id: &str, class: &str, signal: Completion) -> (permit: Option<
        Sender<u8>,
    >)
        ensures
            (permit is Some) == old(self)@.permits(pass_id@, class@, signal),
            final(self)@ == old(self)@.after(pass_id@, class@, signal),
    {
        if self.decide(pass_id, class, signal) {
            self.update(pass_id, class)
        } else {
            None
        }
    }

    /// Asks whether a new operation may start. If so, the guard tracks it
    /// from now on and hands out the sending half of a fresh completion
    /// signal; if not, the guard stays as it is.
    ///
    /// The answer is that of [`LastOperation::settle`] for what the
    /// completion signal of the tracked operation says at this moment. It
    /// does not depend on the signal when the request is for another entry
    /// or class, or when no signal is waited for.
    pub fn allows(&mut self, pass_id: &str, class: &str) -> (permit: Option<Sender<u8>>)
        ensures
            exists|signal: Completion|
                {
                    &&& (permit is Some) == #[trigger] old(self)@.permits(pass_id@, class@, signal)
                    &&& final(self)@ == old(self)@.after(pass_id@, class@, signal)
                },
            !old(self)@.must_poll(pass_id@, class@) ==> {
                &&& (permit is Some) == !old(self)@.same_key(pass_id@, class@)
                &&& final(self)@ == old(self)@.after(pass_id@, class@, Completion::Pending)
            },
    {
        let signal = self.poll(pass_id, class);
        let permit = self.settle(pass_id, class, signal);
        assert((permit is Some) == old(self)@.permits(pass_id@, class@, signal));
        permit
    }

    /// Tracks the operation and returns the sending half of a fresh
    /// completion signal.
    fn update(&mut self, pass_id: &str, class: &str) -> (permit: Option<Sender<u8>>)
        ensures
            permit is Some,
            final(self)@ == DedupView::tracking(pass_id@, class@),
    {
        self.pass_id = pass_id.to_owned();
        self.class = class.to_owned();
        let (sender, receiver) = futures::channel::oneshot::channel::<u8>();
        self.completion_receiver = Some(receiver);
        Some(sender)
    }
}

/// A repeated request does not start a second operation while the first
/// runs, and starts one once the first is done: after a request was let
/// through, the same request is refused for as long as the completion
/// signal is pending, the guard staying as it is, and let through again as
/// soon as the signal says that the operation is done or no longer runs.
pub proof fn lemma_repeated_request(
    guard: DedupView,
    pass_id: Seq<char>,
    class: Seq<char>,
    first: Completion,
)
    requires
        guard.permits(pass_id, class, first),
    ensures
        guard.after(pass_id, class, first) == DedupView::tracking(pass_id, class),
        !guard.after(pass_id, class, first).permits(pass_id, class, Completion::Pending),
        guard.after(pass_id, class, first).after(pass_id, class, Completion::Pending)
            == guard.after(pass_id, class, first),
        guard.after(pass_id, class, first).permits(pass_id, class, Completion::Done),
        guard.after(pass_id, class, first).permits(pass_id, class, Completion::Dropped),
{
}

/// Requests for different entries, or for different classes of operation
/// on one entry, never hold each other up: a request that differs from the
/// tracked operation in the entry or in the class is let through whatever
/// the completion signal says.
pub proof fn lemma_other_key_passes(
    guard: DedupView,
    pass_id: Seq<char>,
    class: Seq<char>,
    signal: Completion,
)
    requires
        guard.pass_id != pass_id || guard.class != class,
    ensures
        guard.permits(pass_id, class, signal),
        guard.after(pass_id, class, signal) == DedupView::tracking(pass_id, class),
{
}

} // verus!
