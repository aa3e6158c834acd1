//! The application shell: it reads keys, pointer events and background
//! results as actions, and applies each action with what follows from it.
use vstd::prelude::*;

use crate::actions::{view_of, Action, ActionView, NavigationAction, PasswordAction, SearchAction};
use crate::components::dashboard::model::DashboardView;
use crate::components::password_store::password_info::PasswordInfo;
use crate::components::Dashboard;
use crate::event::{ErrorView, EventView, OperationError, PasswordEvent};
use crate::dedup::Completion;
use crate::input::{Key, MouseEvent};
use crate::request::{Outcome, Request, RequestView};

pub mod state;

pub use state::{InputMode, MainState, OverlayState, SearchState, State};

verus! {

pub struct App {
    running: bool,
    complete_redraw: bool,
    dashboard: Dashboard,
}

/// What an [`App`] holds.
pub struct AppView {
    /// Whether the main loop goes on.
    pub running: bool,
    /// Whether the screen must be cleared before it is drawn next.
    pub complete_redraw: bool,
    pub dashboard: DashboardView,
}

/// An application after an action and all that followed from it, with the
/// requests that were made on the way.
pub struct Dispatched {
    pub app: AppView,
    pub requests: Seq<RequestView>,
}

/// The keys that move the selection in the list.
pub open spec fn list_key(key: Key) -> Option<NavigationAction> {
    match key {
        Key::Char('j') | Key::Down => Some(NavigationAction::Down),
        Key::Char('k') | Key::Up => Some(NavigationAction::Up),
        Key::PageDown | Key::Char('f') => Some(NavigationAction::PageDown),
        Key::PageUp | Key::Char('b') => Some(NavigationAction::PageUp),
        Key::Char('g') | Key::Home => Some(NavigationAction::Top),
        Key::Char('G') | Key::End => Some(NavigationAction::Bottom),
        _ => None,
    }
}

/// The keys that mean the same in the table and beside the details.
pub open spec fn command_key(key: Key) -> Option<Action> {
    match key {
        Key::Char('y') => Some(Action::Password(PasswordAction::CopyPassword)),
        Key::Char('/') => Some(Action::Navigation(NavigationAction::Search)),
        Key::F(1) => Some(Action::Navigation(NavigationAction::Help)),
        Key::Char('i') => Some(Action::Navigation(NavigationAction::File)),
        Key::Char('x') => Some(Action::Password(PasswordAction::CopyOtp)),
        Key::Char('c') => Some(Action::Password(PasswordAction::CopyPassId)),
        Key::Char('v') => Some(Action::Password(PasswordAction::CopyLogin)),
        Key::Esc => Some(Action::Navigation(NavigationAction::Leave)),
        Key::Char('q') | Key::Char('Q') => Some(Action::Navigation(NavigationAction::Quit)),
        _ => None,
    }
}

/// The keys that go one view deeper.
pub open spec fn enter_key(key: Key) -> bool {
    key == Key::Char('l') || key == Key::Right || key == Key::Enter
}

/// A key in the table view: the list keys, the command keys, and enter for
/// the preview.
pub open spec fn table_key(key: Key) -> Option<Action> {
    if list_key(key) is Some {
        Some(Action::Navigation(list_key(key)->0))
    } else if enter_key(key) {
        Some(Action::Navigation(NavigationAction::Preview))
    } else {
        command_key(key)
    }
}

/// A key beside the details: as in the table, but enter shows the secrets,
/// and there are keys to go back and to refresh the one-time password.
pub open spec fn details_key(key: Key) -> Option<Action> {
    if list_key(key) is Some {
        Some(Action::Navigation(list_key(key)->0))
    } else if enter_key(key) {
        Some(Action::Navigation(NavigationAction::Secrets))
    } else if key == Key::Char('h') || key == Key::Left {
        Some(Action::Navigation(NavigationAction::Back))
    } else if key == Key::Char('r') {
        Some(Action::Password(PasswordAction::FetchOtp))
    } else {
        command_key(key)
    }
}

/// A key while the query is edited: characters go into the query, the
/// arrow keys move the selection and the cursor.
pub open spec fn search_key(key: Key) -> Option<Action> {
    match key {
        Key::Esc | Key::Enter => Some(Action::Navigation(NavigationAction::Leave)),
        Key::Down => Some(Action::Navigation(NavigationAction::Down)),
        Key::Up => Some(Action::Navigation(NavigationAction::Up)),
        Key::PageDown => Some(Action::Navigation(NavigationAction::PageDown)),
        Key::PageUp => Some(Action::Navigation(NavigationAction::PageUp)),
        Key::F(1) => Some(Action::Navigation(NavigationAction::Help)),
        Key::Char(character) => Some(Action::Search(SearchAction::Insert(character))),
        Key::Backspace => Some(Action::Search(SearchAction::RemoveLeft)),
        Key::Delete => Some(Action::Search(SearchAction::RemoveRight)),
        Key::Left => Some(Action::Search(SearchAction::MoveLeft)),
        Key::Right => Some(Action::Search(SearchAction::MoveRight)),
        Key::Home => Some(Action::Search(SearchAction::MoveToStart)),
        Key::End => Some(Action::Search(SearchAction::MoveToEnd)),
        _ => None,
    }
}

/// A key while the help popup is open: only the keys that close it.
pub open spec fn help_key(key: Key) -> Option<Action> {
    if key == Key::Esc || key == Key::F(1) {
        Some(Action::Navigation(NavigationAction::Back))
    } else {
        None
    }
}

/// A key while the file popup is open: only the keys that close it, which
/// are escape and the key that opened it.
pub open spec fn file_key(key: Key) -> Option<Action> {
    if key == Key::Esc || key == Key::Char('i') {
        Some(Action::Navigation(NavigationAction::Back))
    } else {
        None
    }
}

/// What a key means in a view state. The axis that decides is picked by
/// [`State::input_mode`].
pub open spec fn interpret(state: State, key: Key) -> Option<Action> {
    match state.input_mode() {
        InputMode::HelpOverlay => help_key(key),
        InputMode::FileOverlay => file_key(key),
        InputMode::SearchEditing => search_key(key),
        InputMode::Table => table_key(key),
        InputMode::Details => details_key(key),
    }
}

/// What a failed operation shows on the status line.
pub open spec fn failure_text(error: ErrorView) -> Seq<char> {
    match error {
        ErrorView::Pass(text) => "✗ (pass) "@ + text,
        ErrorView::Clipboard(text) => "✗ Clipboard error: "@ + text,
        ErrorView::Other(text) => "✗ "@ + text,
    }
}

/// The action that a background result stands for.
pub open spec fn event_action(event: EventView) -> ActionView {
    match event {
        EventView::Reset => ActionView::ResetStatus,
        EventView::Status(message) => ActionView::SetStatus(message),
        EventView::Failure(error) => ActionView::SetStatus(failure_text(error)),
        EventView::PasswordFile { pass_id, file_contents } => ActionView::DisplaySecrets {
            pass_id,
            file_contents,
        },
        EventView::OneTimePassword { pass_id, otp } => ActionView::DisplayOneTimePassword {
            pass_id,
            otp,
        },
    }
}

/// How many actions can at most follow from an action.
pub open spec fn rank(action: ActionView) -> nat {
    match action {
        ActionView::Navigation(navigation) => match navigation {
            NavigationAction::SelectAndFetch(_) | NavigationAction::Secrets | NavigationAction::File => 2,
            NavigationAction::Down
            | NavigationAction::Up
            | NavigationAction::PageDown
            | NavigationAction::PageUp
            | NavigationAction::Top
            | NavigationAction::Bottom
            | NavigationAction::Select(_)
            | NavigationAction::Back => 1,
            _ => 0,
        },
        ActionView::Password(_) => 1,
        ActionView::DisplaySecrets { .. } => 2,
        _ => 0,
    }
}

impl AppView {
    /// What the shell itself does with an action: quitting ends the main
    /// loop, a redraw has the screen cleared.
    pub open spec fn noted(self, action: ActionView) -> AppView {
        match action {
            ActionView::Navigation(NavigationAction::Quit) => AppView { running: false, ..self },
            ActionView::Redraw => AppView { complete_redraw: true, ..self },
            _ => self,
        }
    }

    /// Whether dispatching an action asks the completion signal of the
    /// tracked operation: whether the result of the action, or of an action
    /// that follows from it, depends on the signal.
    pub open spec fn asks_signal(self, action: ActionView) -> bool
        decreases rank(action),
    {
        self.dashboard.depends_on_signal(action) || {
            let step = self.dashboard.apply(action, Completion::Pending);
            let after = AppView { dashboard: step.dashboard, ..self.noted(action) };
            match step.outcome.follow_up {
                Some(next) if rank(next) < rank(action) => after.asks_signal(next),
                _ => false,
            }
        }
    }

    /// Applies an action and, in turn, each action that follows from it.
    /// `signal` is what the completion signal of the tracked operation says
    /// when it is asked.
    #[verifier::opaque]
    pub open spec fn dispatch(self, action: ActionView, signal: Completion) -> Dispatched
        decreases rank(action),
    {
        let step = self.dashboard.apply(action, signal);
        let after = AppView { dashboard: step.dashboard, ..self.noted(action) };
        let requests = match step.outcome.request {
            Some(request) => seq![request],
            None => Seq::empty(),
        };
        match step.outcome.follow_up {
            Some(next) if rank(next) < rank(action) => {
                let rest = after.dispatch(next, signal);
                Dispatched { app: rest.app, requests: requests + rest.requests }
            },
            _ => Dispatched { app: after, requests },
        }
    }
}

/// An open popup takes the keys before the search and the main view do:
/// under a popup a key closes it or means nothing. The help popup closes
/// on escape and on F1, the file popup on escape and on `i`.
pub proof fn lemma_popup_takes_keys(state: State, key: Key)
    requires
        state.overlay != OverlayState::Inactive,
    ensures
        interpret(state, key) is None || interpret(state, key) == Some(
            Action::Navigation(NavigationAction::Back),
        ),
        state.overlay == OverlayState::Help ==> (interpret(state, key) is Some <==> key == Key::Esc
            || key == Key::F(1)),
        state.overlay == OverlayState::File ==> (interpret(state, key) is Some <==> key == Key::Esc
            || key == Key::Char('i')),
{
}

/// While the query is edited, every character key goes into the query,
/// whatever the main view is.
pub proof fn lemma_search_takes_characters(state: State, character: char)
    requires
        state.overlay == OverlayState::Inactive,
        state.search == SearchState::Active,
    ensures
        interpret(state, Key::Char(character)) == Some(
            Action::Search(SearchAction::Insert(character)),
        ),
{
}

/// What follows from an operation on a secret is a status or a redraw.
pub proof fn lemma_operation_follow_up(
    v: DashboardView,
    action: PasswordAction,
    signal: Completion,
)
    ensures
        v.password(action, signal).outcome.follow_up matches Some(next) ==> rank(next) == 0,
{
}

/// What follows from a move is the preview or a fetch.
pub proof fn lemma_navigation_follow_up(v: DashboardView, action: NavigationAction)
    ensures
        v.navigate(action).outcome.follow_up matches Some(next) ==> rank(next) < rank(
            ActionView::Navigation(action),
        ),
{
}

/// What follows from a decrypted file is a one-time password being asked
/// for.
pub proof fn lemma_display_follow_up(v: DashboardView, pass_id: Seq<char>, contents: Seq<char>)
    ensures
        v.display_secrets(pass_id, contents).outcome.follow_up matches Some(next) ==> rank(next)
            == 1,
{
}

/// What follows from an action can itself lead to fewer actions.
pub proof fn lemma_follow_up_rank(v: DashboardView, action: ActionView, signal: Completion)
    ensures
        v.apply(action, signal).outcome.follow_up matches Some(next) ==> rank(next) < rank(action),
{
    reveal(DashboardView::apply);
    match action {
        ActionView::Password(operation) => lemma_operation_follow_up(v, operation, signal),
        ActionView::Navigation(navigation) => lemma_navigation_follow_up(v, navigation),
        ActionView::DisplaySecrets { pass_id, file_contents } => lemma_display_follow_up(
            v.with_status(crate::components::status_bar::ready()),
            pass_id,
            file_contents,
        ),
        _ => {},
    }
}

/// Where the result of an action does not depend on the completion signal,
/// every value of the signal gives the same result.
pub proof fn lemma_signal_independence(
    v: DashboardView,
    action: ActionView,
    one: Completion,
    other: Completion,
)
    requires
        !v.depends_on_signal(action),
    ensures
        v.apply(action, one) == v.apply(action, other),
{
    reveal(DashboardView::apply);
}

/// One turn of the dispatch loop: the action is applied, and what follows
/// from it, if anything, is dispatched in turn.
pub proof fn lemma_dispatch_step(app: AppView, action: ActionView, signal: Completion)
    ensures
        ({
            let step = app.dashboard.apply(action, signal);
            let after = AppView { dashboard: step.dashboard, ..app.noted(action) };
            let asked = match step.outcome.request {
                Some(request) => seq![request],
                None => Seq::empty(),
            };
            match step.outcome.follow_up {
                Some(next) => {
                    &&& rank(next) < rank(action)
                    &&& app.dispatch(action, signal) == (Dispatched {
                        app: after.dispatch(next, signal).app,
                        requests: asked + after.dispatch(next, signal).requests,
                    })
                },
                None => app.dispatch(action, signal) == (Dispatched { app: after, requests: asked }),
            }
        }),
{
    lemma_follow_up_rank(app.dashboard, action, signal);
    reveal(AppView::dispatch);
}

/// The turns taken so far lead where the whole dispatch leads: for every
/// value that the completion signal can still take, dispatching `first`
/// from `start` gives what dispatching `current` from `now` gives, with
/// `collected` in front of the requests. Once a turn has asked the signal,
/// `fixed` holds, `seen` is what it said, and nothing that follows asks
/// again.
#[verifier::opaque]
pub open spec fn on_track(
    start: AppView,
    first: ActionView,
    now: AppView,
    current: ActionView,
    collected: Seq<RequestView>,
    fixed: bool,
    seen: Completion,
) -> bool {
    &&& fixed ==> rank(current) == 0
    &&& start.asks_signal(first) == (fixed || now.asks_signal(current))
    &&& forall|signal: Completion|
        (fixed ==> signal == seen) ==> #[trigger] start.dispatch(first, signal) == (Dispatched {
            app: now.dispatch(current, signal).app,
            requests: collected + now.dispatch(current, signal).requests,
        })
}

/// Before the first turn the dispatch is on track.
pub proof fn lemma_on_track_at_start(start: AppView, first: ActionView)
    ensures
        on_track(start, first, start, first, Seq::empty(), false, Completion::Pending),
{
    reveal(on_track);
    assert forall|signal: Completion| #[trigger]
        start.dispatch(first, signal) == (Dispatched {
            app: start.dispatch(first, signal).app,
            requests: Seq::<RequestView>::empty() + start.dispatch(first, signal).requests,
        }) by {
        assert(Seq::<RequestView>::empty() + start.dispatch(first, signal).requests
            =~= start.dispatch(first, signal).requests);
    }
}

/// An action that nothing follows from does not ask the completion signal.
pub proof fn lemma_rank_zero_asks_nothing(v: DashboardView, action: ActionView)
    requires
        rank(action) == 0,
    ensures
        !v.depends_on_signal(action),
{
}

/// One turn keeps the dispatch on track, or ends it where the whole
/// dispatch ends.
pub proof fn lemma_turn(
    start: AppView,
    first: ActionView,
    before: AppView,
    applied: ActionView,
    collected: Seq<RequestView>,
    fixed: bool,
    seen: Completion,
    observed: Completion,
)
    requires
        on_track(start, first, before, applied, collected, fixed, seen),
    ensures
        ({
            let step = before.dashboard.apply(applied, observed);
            let after = AppView { dashboard: step.dashboard, ..before.noted(applied) };
            let asked = match step.outcome.request {
                Some(request) => seq![request],
                None => Seq::empty(),
            };
            let asks = before.dashboard.depends_on_signal(applied);
            let settled = if asks || !fixed {
                observed
            } else {
                seen
            };
            match step.outcome.follow_up {
                Some(next) => {
                    &&& rank(next) < rank(applied)
                    &&& on_track(start, first, after, next, collected + asked, fixed || asks, settled)
                },
                None => {
                    &&& start.dispatch(first, settled) == (Dispatched {
                        app: after,
                        requests: collected + asked,
                    })
                    &&& !start.asks_signal(first) ==> start.dispatch(first, Completion::Pending)
                        == (Dispatched { app: after, requests: collected + asked })
                },
            }
        }),
{
    reveal(on_track);
    let step = before.dashboard.apply(applied, observed);
    let after = AppView { dashboard: step.dashboard, ..before.noted(applied) };
    let asked = match step.outcome.request {
        Some(request) => seq![request],
        None => Seq::empty(),
    };
    let asks = before.dashboard.depends_on_signal(applied);
    let settled = if asks || !fixed {
        observed
    } else {
        seen
    };
    if fixed {
        lemma_rank_zero_asks_nothing(before.dashboard, applied);
    }
    lemma_dispatch_step(before, applied, observed);
    match step.outcome.follow_up {
        Some(next) => {
            assert forall|signal: Completion| (fixed || asks ==> signal == settled) implies (
            #[trigger] start.dispatch(first, signal)) == (Dispatched {
                app: after.dispatch(next, signal).app,
                requests: (collected + asked) + after.dispatch(next, signal).requests,
            }) by {
                lemma_dispatch_step(before, applied, signal);
                if !asks {
                    lemma_signal_independence(before.dashboard, applied, signal, observed);
                }
                assert((collected + asked) + after.dispatch(next, signal).requests =~= collected + (
                asked + after.dispatch(next, signal).requests));
            }
        },
        None => {
            lemma_dispatch_step(before, applied, settled);
            if !asks {
                lemma_signal_independence(before.dashboard, applied, settled, observed);
                lemma_signal_independence(before.dashboard, applied, Completion::Pending, observed);
                lemma_dispatch_step(before, applied, Completion::Pending);
            }
        },
    }
    if !asks {
        lemma_signal_independence(before.dashboard, applied, Completion::Pending, observed);
    }
}

/// Only an operation on a secret makes a request.
pub proof fn lemma_request_needs_operation(v: DashboardView, action: ActionView, signal: Completion)
    ensures
        v.apply(action, signal).outcome.request is Some ==> action is Password,
{
    reveal(DashboardView::apply);
}

/// An action of rank zero makes no request and nothing follows from it.
pub proof fn lemma_rank_zero_ends(v: DashboardView, action: ActionView, signal: Completion)
    requires
        rank(action) == 0,
    ensures
        v.apply(action, signal).outcome == crate::request::OutcomeView::nothing(),
{
    reveal(DashboardView::apply);
}

/// Dispatching an action makes at most one request.
pub proof fn lemma_at_most_one_request(app: AppView, action: ActionView, signal: Completion)
    ensures
        app.dispatch(action, signal).requests.len() <= 1,
    decreases rank(action),
{
    lemma_dispatch_step(app, action, signal);
    lemma_request_needs_operation(app.dashboard, action, signal);
    let step = app.dashboard.apply(action, signal);
    let after = AppView { dashboard: step.dashboard, ..app.noted(action) };
    if rank(action) == 0 {
        lemma_rank_zero_ends(app.dashboard, action, signal);
    } else if let Some(next) = step.outcome.follow_up {
        lemma_at_most_one_request(after, next, signal);
        if step.outcome.request is Some {
            assert(rank(next) == 0);
            lemma_rank_zero_ends(after.dashboard, next, signal);
            lemma_dispatch_step(after, next, signal);
        }
    }
}

/// What a list of requests asks for.
pub open spec fn request_views(requests: Seq<Request>) -> Seq<RequestView> {
    Seq::new(requests.len(), |i: int| requests[i]@)
}

impl View for App {
    type V = AppView;

    closed spec fn view(&self) -> AppView {
        AppView {
            running: self.running,
            complete_redraw: self.complete_redraw,
            dashboard: self.dashboard@,
        }
    }
}

impl App {
    /// The invariant of the shell: that of its dashboard.
    pub open spec fn wf(&self) -> bool {
        self@.dashboard.wf()
    }

    /// A shell over the entries given. The main loop is not running yet.
    pub fn new(tty_pinentry: bool, passwords: Vec<PasswordInfo>) -> (app: Self)
        ensures
            app.wf(),
            app@ == (AppView {
                running: false,
                complete_redraw: false,
                dashboard: DashboardView::initial(
                    tty_pinentry,
                    crate::components::password_store::password_info::ids_of(passwords@),
                ),
            }),
    {
        App { dashboard: Dashboard::new(tty_pinentry, passwords), running: false, complete_redraw: false }
    }

    /// Reads a key press in the present view state: see [`interpret`].
    pub fn handle_key_event(&self, key: Key) -> (action: Option<Action>)
        ensures
            action == interpret(self@.dashboard.state, key),
    {
        let state = self.dashboard.app_state();
        match state.overlay {
            OverlayState::Help => match key {
                Key::Esc | Key::F(1) => Some(Action::Navigation(NavigationAction::Back)),
                _ => None,
            },
            OverlayState::File => match key {
                Key::Esc | Key::Char('i') => Some(Action::Navigation(NavigationAction::Back)),
                _ => None,
            },
            OverlayState::Inactive => match state.search {
                SearchState::Active => match key {
                    Key::Esc | Key::Enter => Some(Action::Navigation(NavigationAction::Leave)),
                    Key::Down => Some(Action::Navigation(NavigationAction::Down)),
                    Key::Up => Some(Action::Navigation(NavigationAction::Up)),
                    Key::PageDown => Some(Action::Navigation(NavigationAction::PageDown)),
                    Key::PageUp => Some(Action::Navigation(NavigationAction::PageUp)),
                    Key::F(1) => Some(Action::Navigation(NavigationAction::Help)),
                    Key::Char(key) => Some(Action::Search(SearchAction::Insert(key))),
                    Key::Backspace => Some(Action::Search(SearchAction::RemoveLeft)),
                    Key::Delete => Some(Action::Search(SearchAction::RemoveRight)),
                    Key::Left => Some(Action::Search(SearchAction::MoveLeft)),
                    Key::Right => Some(Action::Search(SearchAction::MoveRight)),
                    Key::Home => Some(Action::Search(SearchAction::MoveToStart)),
                    Key::End => Some(Action::Search(SearchAction::MoveToEnd)),
                    _ => None,
                },
                SearchState::Inactive | SearchState::Suspended => match state.main {
                    MainState::Preview | MainState::Secrets => match key {
                        Key::Char('j') | Key::Down => Some(
                            Action::Navigation(NavigationAction::Down),
                        ),
                        Key::Char('k') | Key::Up => Some(Action::Navigation(NavigationAction::Up)),
                        Key::PageDown | Key::Char('f') => Some(
                            Action::Navigation(NavigationAction::PageDown),
                        ),
                        Key::PageUp | Key::Char('b') => Some(
                            Action::Navigation(NavigationAction::PageUp),
                        ),
                        Key::Char('g') | Key::Home => Some(
                            Action::Navigation(NavigationAction::Top),
                        ),
                        Key::Char('G') | Key::End => Some(
                            Action::Navigation(NavigationAction::Bottom),
                        ),
                        Key::Char('y') => Some(Action::Password(PasswordAction::CopyPassword)),
                        Key::Char('h') | Key::Left => Some(
                            Action::Navigation(NavigationAction::Back),
                        ),
                        Key::Char('l') | Key::Right | Key::Enter => Some(
                            Action::Navigation(NavigationAction::Secrets),
                        ),
                        Key::Char('/') => Some(Action::Navigation(NavigationAction::Search)),
                        Key::F(1) => Some(Action::Navigation(NavigationAction::Help)),
                        Key::Char('i') => Some(Action::Navigation(NavigationAction::File)),
                        Key::Char('r') => Some(Action::Password(PasswordAction::FetchOtp)),
                        Key::Char('x') => Some(Action::Password(PasswordAction::CopyOtp)),
                        Key::Char('c') => Some(Action::Password(PasswordAction::CopyPassId)),
                        Key::Char('v') => Some(Action::Password(PasswordAction::CopyLogin)),
                        Key::Esc => Some(Action::Navigation(NavigationAction::Leave)),
                        Key::Char('q') | Key::Char('Q') => Some(
                            Action::Navigation(NavigationAction::Quit),
                        ),
                        _ => None,
                    },
                    MainState::Table => match key {
                        Key::Char('j') | Key::Down => Some(
                            Action::Navigation(NavigationAction::Down),
                        ),
                        Key::Char('k') | Key::Up => Some(Action::Navigation(NavigationAction::Up)),
                        Key::PageDown | Key::Char('f') => Some(
                            Action::Navigation(NavigationAction::PageDown),
                        ),
                        Key::PageUp | Key::Char('b') => Some(
                            Action::Navigation(NavigationAction::PageUp),
                        ),
                        Key::Char('g') | Key::Home => Some(
                            Action::Navigation(NavigationAction::Top),
                        ),
                        Key::Char('G') | Key::End => Some(
                            Action::Navigation(NavigationAction::Bottom),
                        ),
                        Key::Char('y') => Some(Action::Password(PasswordAction::CopyPassword)),
                        Key::Char('l') | Key::Right | Key::Enter => Some(
                            Action::Navigation(NavigationAction::Preview),
                        ),
                        Key::Char('/') => Some(Action::Navigation(NavigationAction::Search)),
                        Key::F(1) => Some(Action::Navigation(NavigationAction::Help)),
                        Key::Char('i') => Some(Action::Navigation(NavigationAction::File)),
                        Key::Char('x') => Some(Action::Password(PasswordAction::CopyOtp)),
                        Key::Char('c') => Some(Action::Password(PasswordAction::CopyPassId)),
                        Key::Char('v') => Some(Action::Password(PasswordAction::CopyLogin)),
                        Key::Esc => Some(Action::Navigation(NavigationAction::Leave)),
                        Key::Char('q') | Key::Char('Q') => Some(
                            Action::Navigation(NavigationAction::Quit),
                        ),
                        _ => None,
                    },
                },
            },
        }
    }

    /// Reads a pointer event: see [`DashboardView::on_mouse`].
    pub fn handle_mouse_event(&mut self, event: MouseEvent, track_row: usize) -> (action: Option<
        Action,
    >)
        requires
            old(self).wf(),
        ensures
            final(self).wf(),
            final(self)@ == (AppView {
                dashboard: old(self)@.dashboard.after_mouse(event),
                ..old(self)@
            }),
            action == old(self)@.dashboard.on_mouse(event, track_row),
    {
        self.dashboard.handle_mouse_event(event, track_row)
    }

    /// Reads a background result as an action: see [`event_action`].
    pub fn handle_channel_event(&self, event: PasswordEvent) -> (action: Option<Action>)
        ensures
            view_of(action) == Some(event_action(event@)),
    {
        match event {
            PasswordEvent::Status(Ok(None)) => Some(Action::ResetStatus),
            PasswordEvent::Status(Ok(Some(message))) => Some(Action::SetStatus(message)),
            PasswordEvent::Status(Err(OperationError::Pass(text))) => {
                let mut message = "✗ (pass) ".to_owned();
                message.append(text.as_str());
                Some(Action::SetStatus(message))
            },
            PasswordEvent::Status(Err(OperationError::Clipboard(text))) => {
                let mut message = "✗ Clipboard error: ".to_owned();
                message.append(text.as_str());
                Some(Action::SetStatus(message))
            },
            PasswordEvent::Status(Err(OperationError::Other(text))) => {
                let mut message = "✗ ".to_owned();
                message.append(text.as_str());
                Some(Action::SetStatus(message))
            },
            PasswordEvent::PasswordFile { pass_id, file_contents } => Some(
                Action::DisplaySecrets { pass_id, file_contents },
            ),
            PasswordEvent::OneTimePassword { pass_id, otp } => Some(
                Action::DisplayOneTimePassword { pass_id, otp },
            ),
        }
    }

    /// Applies an action and, in turn, each action that follows from it,
    /// until none follows. Returns the requests that were made on the way,
    /// in order.
    ///
    /// Each action is applied by [`App::apply`] with what the completion
    /// signal of the tracked operation says when the action is reached, so
    /// the result is that of [`AppView::dispatch`] for what the signal said
    /// when it was asked; where no step asks the signal, the result is
    /// stated outright.
    pub fn dispatch_action(&mut self, action: Action) -> (requests: Vec<Request>)
        requires
            old(self).wf(),
        ensures
            final(self).wf(),
            exists|signal: Completion| #[trigger]
                old(self)@.dispatch(action@, signal) == (Dispatched {
                    app: final(self)@,
                    requests: request_views(requests@),
                }),
            !old(self)@.asks_signal(action@) ==> old(self)@.dispatch(action@, Completion::Pending)
                == (Dispatched { app: final(self)@, requests: request_views(requests@) }),
    {
        let ghost start = self@;
        let ghost first = action@;
        let ghost mut fixed = false;
        let ghost mut seen = Completion::Pending;
        let mut requests: Vec<Request> = Vec::new();
        let mut current_action = action;
        proof {
            assert(request_views(requests@) =~= Seq::empty());
            lemma_on_track_at_start(start, first);
        }
        loop
            invariant_except_break
                self.wf(),
                on_track(start, first, self@, current_action@, request_views(requests@), fixed, seen),
            ensures
                self.wf(),
                start.dispatch(first, seen) == (Dispatched {
                    app: self@,
                    requests: request_views(requests@),
                }),
                !start.asks_signal(first) ==> start.dispatch(first, Completion::Pending) == (
                Dispatched { app: self@, requests: request_views(requests@) }),
            decreases rank(current_action@),
        {
            let ghost before = self@;
            let ghost applied = current_action@;
            let ghost collected = request_views(requests@);
            let observed = self.dashboard.poll(&current_action);
            let outcome = self.apply(current_action, observed);
            let ghost asked = match outcome@.request {
                Some(request) => seq![request],
                None => Seq::empty(),
            };
            let Outcome { follow_up, request } = outcome;
            if let Some(request) = request {
                requests.push(request);
            }
            proof {
                assert(request_views(requests@) =~= collected + asked);
                lemma_turn(start, first, before, applied, collected, fixed, seen, observed);
                if before.dashboard.depends_on_signal(applied) || !fixed {
                    seen = observed;
                }
                fixed = fixed || before.dashboard.depends_on_signal(applied);
            }
            match follow_up {
                Some(next) => {
                    current_action = next;
                },
                None => {
                    break ;
                },
            }
        }
        requests
    }

    /// Applies one action, given what the completion signal of the tracked
    /// operation says: the shell takes note of it, see [`AppView::noted`],
    /// and the dashboard applies it, see [`DashboardView::apply`]. What comes
    /// back is the action to apply next, if any, and the request to carry
    /// out, if any.
    pub fn apply(&mut self, action: Action, signal: Completion) -> (outcome: Outcome)
        requires
            old(self).wf(),
        ensures
            final(self).wf(),
            final(self)@ == (AppView {
                dashboard: old(self)@.dashboard.apply(action@, signal).dashboard,
                ..old(self)@.noted(action@)
            }),
            outcome@ == old(self)@.dashboard.apply(action@, signal).outcome,
    {
        self.update(&action);
        self.dashboard.apply(action, signal)
    }

    /// Does what the shell itself does with an action.
    fn update(&mut self, action: &Action)
        ensures
            final(self)@ == old(self)@.noted(action@),
    {
        match action {
            Action::Navigation(NavigationAction::Quit) => self.quit(),
            Action::Redraw => self.request_redraw(),
            _ => {},
        }
    }

    fn request_redraw(&mut self)
        ensures
            final(self)@ == (AppView { complete_redraw: true, ..old(self)@ }),
    {
        self.complete_redraw = true;
    }

    fn quit(&mut self)
        ensures
            final(self)@ == (AppView { running: false, ..old(self)@ }),
    {
        self.running = false;
    }

    /// Starts the main loop.
    pub fn start(&mut self)
        ensures
            final(self)@ == (AppView { running: true, ..old(self)@ }),
    {
        self.running = true;
    }

    /// Whether the main loop goes on.
    pub fn is_running(&self) -> (running: bool)
        ensures
            running == self@.running,
    {
        self.running
    }

    /// Tells whether the screen must be cleared before it is drawn, and
    /// takes the demand as met.
    pub fn take_redraw(&mut self) -> (redraw: bool)
        ensures
            redraw == old(self)@.complete_redraw,
            final(self)@ == (AppView { complete_redraw: false, ..old(self)@ }),
    {
        let redraw = self.complete_redraw;
        self.complete_redraw = false;
        redraw
    }

    pub fn dashboard(&self) -> (dashboard: &Dashboard)
        ensures
            dashboard@ == self@.dashboard,
    {
        &self.dashboard
    }

    /// The dashboard, to record where its nodes were drawn. What is done to
    /// the dashboard is done to the shell.
    pub fn dashboard_mut(&mut self) -> (dashboard: &mut Dashboard)
        ensures
            dashboard@ == old(self)@.dashboard,
            final(self)@ == (AppView { dashboard: final(dashboard)@, ..old(self)@ }),
    {
        &mut self.dashboard
    }
}

} // verus!
