//! The dashboard as a mathematical value, and what each action does to it.
use vstd::prelude::*;

use crate::actions::{Action, ActionView, NavigationAction, PasswordAction, SearchAction};
use crate::app::state::{MainState, OverlayState, SearchState, State};
use crate::components::file_popup::{popup_on_mouse, FilePopupView};
use crate::components::help_popup::HelpPopupView;
use crate::components::menu::MenuView;
use crate::components::password_details::{has_otp, secrets_from_lines, DetailsView, Secrets};
use crate::components::password_table::TableView;
use crate::components::search_field::SearchView;
use crate::components::status_bar::ready;
use crate::dedup::{Completion, DedupView};
use crate::input::{MouseEvent, Rect};
use crate::request::{spec_file_name, Operation, OutcomeView, RequestView};
use crate::text::{is_substring, lowercase, text_lines};

verus! {

/// What a dashboard holds.
pub struct DashboardView {
    /// Whether secret operations must run on the interactive path.
    pub tty_pinentry: bool,
    /// The identifiers of all entries, in the order of the store.
    pub ids: Seq<Seq<char>>,
    pub area: Option<Rect>,
    /// The entries on show, as indices into `ids`.
    pub subset: Seq<usize>,
    pub menu: MenuView,
    pub table: TableView,
    pub details: DetailsView,
    pub search: SearchView,
    pub help: HelpPopupView,
    pub file: FilePopupView,
    /// The text of the status line.
    pub status: Seq<char>,
    pub state: State,
    pub render_details: bool,
    pub last_op: DedupView,
}

/// A dashboard after an action, with what the action hands back.
pub struct Step {
    pub dashboard: DashboardView,
    pub outcome: OutcomeView,
}

/// The identifier matches the query: the query is empty, or its lowercase
/// form occurs in the lowercase form of the identifier.
pub open spec fn matches_query(id: Seq<char>, query: Seq<char>) -> bool {
    query.len() == 0 || is_substring(lowercase(query), lowercase(id))
}

/// The indices below `bound` of the identifiers that match the query, in
/// rising order.
pub open spec fn filtered(ids: Seq<Seq<char>>, query: Seq<char>, bound: int) -> Seq<usize>
    decreases bound,
{
    if bound <= 0 {
        Seq::empty()
    } else if matches_query(ids[bound - 1], query) {
        filtered(ids, query, bound - 1).push((bound - 1) as usize)
    } else {
        filtered(ids, query, bound - 1)
    }
}

/// Each index of the list is larger than those before it.
pub open spec fn strictly_rising(indices: Seq<usize>) -> bool {
    forall|j: int, k: int| 0 <= j < k < indices.len() ==> indices[j] < indices[k]
}

/// The indices below `bound`, in rising order.
pub open spec fn all_indices(bound: int) -> Seq<usize> {
    Seq::new(
        if bound >= 0 {
            bound as nat
        } else {
            0
        },
        |i: int| i as usize,
    )
}

/// The position of the last row of a list of `length` rows; zero for an
/// empty list.
pub open spec fn last_row(length: int) -> int {
    if length > 0 {
        length - 1
    } else {
        0
    }
}

/// `index` held within the rows of a list of `length` rows.
pub open spec fn clamp(index: int, length: int) -> int {
    if index > last_row(length) {
        last_row(length)
    } else if index < 0 {
        0
    } else {
        index
    }
}

impl DashboardView {
    /// The dashboard over the entries with the identifiers `ids` before
    /// anything is selected: in the preview, with all entries on show.
    pub open spec fn unselected(tty_pinentry: bool, ids: Seq<Seq<char>>) -> DashboardView {
        DashboardView {
            tty_pinentry,
            ids,
            area: None,
            subset: all_indices(ids.len() as int),
            menu: MenuView::initial(),
            table: TableView::fresh(ids.len() as usize),
            details: DetailsView::initial(),
            search: SearchView::cleared(),
            help: HelpPopupView::initial(),
            file: FilePopupView::initial(),
            status: ready(),
            state: State::initial(),
            render_details: true,
            last_op: DedupView::idle(),
        }
    }

    /// The dashboard as it starts: the first entry is selected.
    pub open spec fn initial(tty_pinentry: bool, ids: Seq<Seq<char>>) -> DashboardView {
        DashboardView::unselected(tty_pinentry, ids).select(0)
    }

    /// The row that is selected, if the list has rows.
    pub open spec fn selected_row(self) -> Option<int> {
        match self.table.selected {
            Some(row) if 0 <= row < self.subset.len() => Some(row as int),
            _ => None,
        }
    }

    /// The entry that is selected, as an index into `ids`.
    pub open spec fn selected_entry(self) -> Option<int> {
        match self.selected_row() {
            Some(row) if self.subset[row] < self.ids.len() => Some(self.subset[row] as int),
            _ => None,
        }
    }

    /// The identifier of the selected entry.
    pub open spec fn selected_id(self) -> Option<Seq<char>> {
        match self.selected_entry() {
            Some(entry) => Some(self.ids[entry]),
            None => None,
        }
    }

    /// Every entry on show exists.
    pub open spec fn subset_in_range(self) -> bool {
        forall|k: int| 0 <= k < self.subset.len() ==> #[trigger] self.subset[k] < self.ids.len()
    }

    /// The entries on show are exactly those that match the query.
    pub open spec fn filter_ok(self) -> bool {
        self.subset == filtered(self.ids, self.search.characters, self.ids.len() as int)
    }

    /// A file on show in the popup belongs to the entry that the details
    /// pane is about.
    pub open spec fn file_ok(self) -> bool {
        self.file.pass_id is Some ==> self.file.pass_id == self.details.secrets.pass_id
    }

    /// A row is selected, it lies within the list, and the details pane is
    /// about the entry in that row.
    pub open spec fn selection_ok(self) -> bool {
        &&& self.table.selected matches Some(row) && row <= last_row(self.subset.len() as int)
        &&& self.details.secrets.pass_id == self.selected_id()
    }

    /// The invariant of the dashboard.
    pub open spec fn wf(self) -> bool {
        &&& self.ids.len() <= usize::MAX
        &&& self.search.wf()
        &&& self.subset_in_range()
        &&& self.table.length == self.subset.len()
        &&& self.filter_ok()
        &&& self.file_ok()
        &&& self.selection_ok()
    }

    /// Selects the row at `index`, held within the list. If that changes
    /// the entry the details pane is about, the pane, the file popup and
    /// the status line start over.
    pub open spec fn select(self, index: int) -> DashboardView {
        let row = clamp(index, self.subset.len() as int);
        let selected = DashboardView {
            table: TableView { selected: Some(row as usize), ..self.table },
            ..self
        };
        let id = selected.selected_id();
        if id is Some && self.details.secrets.pass_id == id {
            selected
        } else {
            DashboardView {
                status: ready(),
                file: self.file.cleared(),
                details: self.details.with_secrets(Secrets { pass_id: id, ..Secrets::none() }),
                ..selected
            }
        }
    }

    /// The row `step` rows below the selected one.
    pub open spec fn row_below(self, step: int) -> int {
        match self.table.selected {
            Some(row) => row + step,
            None => 0,
        }
    }

    /// The row `step` rows above the selected one.
    pub open spec fn row_above(self, step: int) -> int {
        match self.table.selected {
            Some(row) => row - step,
            None => 0,
        }
    }

    pub open spec fn next(self, step: int) -> DashboardView {
        self.select(self.row_below(step))
    }

    pub open spec fn previous(self, step: int) -> DashboardView {
        self.select(self.row_above(step))
    }

    pub open spec fn top_row(self) -> DashboardView {
        self.select(0)
    }

    pub open spec fn bottom_row(self) -> DashboardView {
        self.select(last_row(self.subset.len() as int))
    }

    /// Puts on show the entries that match the query, marks the query in
    /// the rows, and selects the first row.
    pub open spec fn filter(self) -> DashboardView {
        let subset = filtered(self.ids, self.search.characters, self.ids.len() as int);
        DashboardView {
            subset,
            table: TableView {
                highlight_pattern: Some(self.search.characters),
                ..self.table
            }.with_rows(subset.len() as usize),
            ..self
        }.select(0)
    }

    /// Puts all entries on show and selects the entry that was selected.
    pub open spec fn reset_filter(self) -> DashboardView {
        let entry = match self.selected_row() {
            Some(row) => self.subset[row] as int,
            None => 0,
        };
        DashboardView {
            subset: all_indices(self.ids.len() as int),
            table: TableView { highlight_pattern: None, ..self.table }.with_rows(
                self.ids.len() as usize,
            ),
            ..self
        }.select(entry)
    }

    pub open spec fn with_main(self, main: MainState) -> DashboardView {
        DashboardView { state: State { main, ..self.state }, ..self }
    }

    pub open spec fn with_search(self, search: SearchState) -> DashboardView {
        DashboardView { state: State { search, ..self.state }, ..self }
    }

    pub open spec fn with_overlay(self, overlay: OverlayState) -> DashboardView {
        DashboardView { state: State { overlay, ..self.state }, ..self }
    }

    pub open spec fn with_status(self, status: Seq<char>) -> DashboardView {
        DashboardView { status, ..self }
    }

    /// Lets the secrets be shown.
    pub open spec fn show_secrets(self) -> DashboardView {
        DashboardView {
            details: self.details.with_secrets(
                Secrets { show_secrets: true, ..self.details.secrets },
            ),
            ..self
        }
    }

    /// Hides and forgets the secrets and the file; the entry and the number
    /// of lines of its file stay.
    pub open spec fn hide_secrets(self) -> DashboardView {
        DashboardView {
            details: self.details.with_secrets(self.details.secrets.cleared()),
            file: self.file.cleared(),
            ..self
        }
    }

    /// What follows a move of the selection: the secrets view falls back to
    /// the preview.
    pub open spec fn after_move(self) -> OutcomeView {
        if self.state.main == MainState::Secrets {
            OutcomeView::followed_by(ActionView::Navigation(NavigationAction::Preview))
        } else {
            OutcomeView::nothing()
        }
    }

    /// A decrypted file arrives. If it belongs to the selected entry, the
    /// file popup and the details take it in; if it holds parameters for a
    /// one-time password, one is asked for next. If it belongs to another
    /// entry, nothing changes.
    pub open spec fn display_secrets(self, pass_id: Seq<char>, contents: Seq<char>) -> Step {
        if self.selected_id() == Some(pass_id) {
            let lines = text_lines(contents);
            Step {
                dashboard: DashboardView {
                    file: FilePopupView {
                        pass_id: Some(pass_id),
                        content: Some(contents),
                        ..self.file
                    },
                    details: self.details.with_secrets(
                        secrets_from_lines(self.details.secrets, lines),
                    ),
                    ..self
                },
                outcome: if has_otp(lines) {
                    OutcomeView::followed_by(ActionView::Password(PasswordAction::FetchOtp))
                } else {
                    OutcomeView::nothing()
                },
            }
        } else {
            Step { dashboard: self, outcome: OutcomeView::nothing() }
        }
    }

    /// A one-time password arrives. It is shown if it belongs to the
    /// selected entry.
    pub open spec fn display_otp(self, pass_id: Seq<char>, otp: Seq<char>) -> DashboardView {
        if self.selected_id() == Some(pass_id) {
            DashboardView {
                details: self.details.with_secrets(
                    Secrets { one_time_password: Some(otp), ..self.details.secrets },
                ),
                ..self
            }
        } else {
            self
        }
    }

    /// Whether the answer to a request for `operation` depends on the
    /// completion signal of the operation that the guard tracks.
    pub open spec fn must_poll(self, operation: Operation) -> bool {
        match self.selected_id() {
            Some(id) => self.last_op.must_poll(id, operation.spec_class()),
            None => false,
        }
    }

    /// A secret operation is asked for. Without a selected entry the status
    /// line says so. Otherwise the guard decides: if it lets the operation
    /// through, the operation is requested, and what follows is a redraw
    /// where it runs on the interactive path and a progress message where
    /// it does not.
    pub open spec fn operate(self, operation: Operation, signal: Completion) -> Step {
        match self.selected_id() {
            None => Step {
                dashboard: self,
                outcome: OutcomeView::followed_by(ActionView::SetStatus("No entry selected"@)),
            },
            Some(id) => {
                let class = operation.spec_class();
                if self.last_op.permits(id, class, signal) {
                    Step {
                        dashboard: DashboardView {
                            last_op: self.last_op.after(id, class, signal),
                            ..self
                        },
                        outcome: OutcomeView {
                            follow_up: Some(
                                if self.tty_pinentry {
                                    ActionView::Redraw
                                } else {
                                    ActionView::SetStatus(operation.spec_progress())
                                },
                            ),
                            request: Some(
                                RequestView::Run {
                                    operation,
                                    pass_id: id,
                                    file_name: spec_file_name(id),
                                    blocking: self.tty_pinentry,
                                },
                            ),
                        },
                    }
                } else {
                    Step { dashboard: self, outcome: OutcomeView::nothing() }
                }
            },
        }
    }

    /// The identifier of the selected entry is to be copied.
    pub open spec fn copy_id(self) -> Step {
        Step {
            dashboard: self,
            outcome: match self.selected_id() {
                Some(id) => OutcomeView {
                    follow_up: None,
                    request: Some(RequestView::CopyId { pass_id: id }),
                },
                None => OutcomeView::nothing(),
            },
        }
    }

    pub open spec fn password(self, action: PasswordAction, signal: Completion) -> Step {
        match action {
            PasswordAction::CopyPassId => self.copy_id(),
            PasswordAction::CopyPassword => self.operate(Operation::CopyPassword, signal),
            PasswordAction::CopyLogin => self.operate(Operation::CopyLogin, signal),
            PasswordAction::CopyOtp => self.operate(Operation::CopyOtp, signal),
            PasswordAction::Fetch => self.operate(Operation::Fetch, signal),
            PasswordAction::FetchOtp => self.operate(Operation::FetchOtp, signal),
        }
    }

    /// Leaving: an active search with an empty query closes, one with a
    /// query is paused; a paused search closes, and all entries are on show
    /// again. With a popup open, or no search, nothing happens.
    pub open spec fn leave(self) -> DashboardView {
        if self.state.overlay != OverlayState::Inactive {
            self
        } else {
            match self.state.search {
                SearchState::Active => if self.search.characters.len() == 0 {
                    self.with_search(SearchState::Inactive)
                } else {
                    DashboardView { search: self.search.suspend(), ..self }.with_search(
                        SearchState::Suspended,
                    )
                },
                SearchState::Suspended => DashboardView {
                    search: self.search.reset(),
                    ..self
                }.reset_filter().with_search(SearchState::Inactive),
                SearchState::Inactive => self,
            }
        }
    }

    /// Going back: a popup closes; without a popup the secrets view falls
    /// back to the preview, and the preview to the table.
    pub open spec fn back(self) -> Step {
        match self.state.overlay {
            OverlayState::Help | OverlayState::File => Step {
                dashboard: self.with_overlay(OverlayState::Inactive),
                outcome: OutcomeView::nothing(),
            },
            OverlayState::Inactive => match self.state.main {
                MainState::Secrets => Step {
                    dashboard: self,
                    outcome: OutcomeView::followed_by(ActionView::Navigation(NavigationAction::Preview)),
                },
                MainState::Preview => Step {
                    dashboard: self.with_main(MainState::Table),
                    outcome: OutcomeView::nothing(),
                },
                MainState::Table => Step { dashboard: self, outcome: OutcomeView::nothing() },
            },
        }
    }

    pub open spec fn navigate(self, action: NavigationAction) -> Step {
        match action {
            NavigationAction::Down => Step { dashboard: self.next(1), outcome: self.after_move() },
            NavigationAction::Up => Step { dashboard: self.previous(1), outcome: self.after_move() },
            NavigationAction::PageDown => Step {
                dashboard: self.next(10),
                outcome: self.after_move(),
            },
            NavigationAction::PageUp => Step {
                dashboard: self.previous(10),
                outcome: self.after_move(),
            },
            NavigationAction::Top => Step { dashboard: self.top_row(), outcome: self.after_move() },
            NavigationAction::Bottom => Step {
                dashboard: self.bottom_row(),
                outcome: self.after_move(),
            },
            NavigationAction::Select(index) => Step {
                dashboard: self.select(index as int),
                outcome: self.after_move(),
            },
            NavigationAction::SelectAndFetch(index) => Step {
                dashboard: self.with_main(MainState::Secrets).show_secrets().select(index as int),
                outcome: OutcomeView::followed_by(ActionView::Password(PasswordAction::Fetch)),
            },
            NavigationAction::Preview => Step {
                dashboard: self.hide_secrets().with_main(MainState::Preview),
                outcome: OutcomeView::nothing(),
            },
            NavigationAction::Secrets => Step {
                dashboard: self.with_main(MainState::Secrets).show_secrets(),
                outcome: OutcomeView::followed_by(ActionView::Password(PasswordAction::Fetch)),
            },
            NavigationAction::Search => Step {
                dashboard: DashboardView { search: self.search.resume(), ..self }.with_search(
                    SearchState::Active,
                ),
                outcome: OutcomeView::nothing(),
            },
            NavigationAction::Help => Step {
                dashboard: self.with_overlay(OverlayState::Help),
                outcome: OutcomeView::nothing(),
            },
            NavigationAction::File => Step {
                dashboard: self.with_overlay(OverlayState::File),
                outcome: OutcomeView::followed_by(ActionView::Password(PasswordAction::Fetch)),
            },
            NavigationAction::Leave => Step {
                dashboard: self.leave(),
                outcome: OutcomeView::nothing(),
            },
            NavigationAction::Back => self.back(),
            NavigationAction::Next | NavigationAction::Quit => Step {
                dashboard: self,
                outcome: OutcomeView::nothing(),
            },
        }
    }

    /// An edit of the query. The entries on show follow every edit that
    /// changes the text.
    pub open spec fn edit(self, action: SearchAction) -> DashboardView {
        match action {
            SearchAction::Insert(character) => DashboardView {
                search: self.search.insert(character),
                ..self
            }.filter(),
            SearchAction::RemoveLeft => if self.search.can_remove_left() {
                DashboardView { search: self.search.remove_left(), ..self }.filter()
            } else {
                self
            },
            SearchAction::RemoveRight => if self.search.can_remove_right() {
                DashboardView { search: self.search.remove_right(), ..self }.filter()
            } else {
                self
            },
            SearchAction::MoveLeft => DashboardView { search: self.search.move_left(), ..self },
            SearchAction::MoveRight => DashboardView { search: self.search.move_right(), ..self },
            SearchAction::MoveToStart => DashboardView {
                search: self.search.move_to_start(),
                ..self
            },
            SearchAction::MoveToEnd => DashboardView { search: self.search.move_to_end(), ..self },
        }
    }

    /// The dashboard after a pointer event: the buttons of the details
    /// pane, of the menu and of the popup that is open change their look.
    pub open spec fn after_mouse(self, event: MouseEvent) -> DashboardView {
        DashboardView {
            details: self.details.after_mouse(event),
            file: if self.state.overlay == OverlayState::File {
                self.file.after_mouse(event)
            } else {
                self.file
            },
            help: if self.state.overlay == OverlayState::Help {
                self.help.after_mouse(event)
            } else {
                self.help
            },
            menu: self.menu.after_mouse(event),
            ..self
        }
    }

    /// What a pointer event means below the popups and the menu: the
    /// details pane comes before the search box, and the search box, where
    /// it is open, before the table.
    pub open spec fn base_on_mouse(self, event: MouseEvent, track_row: usize) -> Option<Action> {
        match self.details.on_mouse(event) {
            Some(action) => Some(action),
            None => {
                let search = if self.state.search != SearchState::Inactive {
                    self.search.on_mouse(event)
                } else {
                    None
                };
                match search {
                    Some(action) => Some(action),
                    None => self.table.on_mouse(event, track_row),
                }
            },
        }
    }

    /// What a pointer event means. Nodes are asked from back to front and
    /// the last answer counts: the menu comes before an open popup, and an
    /// open popup, which always answers, before everything below it.
    /// `track_row` is the row that the position of the event on the
    /// scrollbar stands for.
    pub open spec fn on_mouse(self, event: MouseEvent, track_row: usize) -> Option<Action> {
        match self.menu.on_mouse(event) {
            Some(action) => Some(action),
            None => match self.state.overlay {
                OverlayState::File => popup_on_mouse(self.file.close_button, event),
                OverlayState::Help => popup_on_mouse(self.help.close_button, event),
                OverlayState::Inactive => self.base_on_mouse(event, track_row),
            },
        }
    }

    /// Whether the result of applying `action` depends on the completion
    /// signal of the operation that the guard tracks.
    pub open spec fn depends_on_signal(self, action: ActionView) -> bool {
        match action {
            ActionView::Password(PasswordAction::CopyPassword) => self.must_poll(
                Operation::CopyPassword,
            ),
            ActionView::Password(PasswordAction::CopyLogin) => self.must_poll(Operation::CopyLogin),
            ActionView::Password(PasswordAction::CopyOtp) => self.must_poll(Operation::CopyOtp),
            ActionView::Password(PasswordAction::Fetch) => self.must_poll(Operation::Fetch),
            ActionView::Password(PasswordAction::FetchOtp) => self.must_poll(Operation::FetchOtp),
            _ => false,
        }
    }

    /// The dashboard after `action`, with what the action hands back.
    /// `signal` is what the completion signal of the tracked operation says
    /// when the action is applied.
    #[verifier::opaque]
    pub open spec fn apply(self, action: ActionView, signal: Completion) -> Step {
        match action {
            ActionView::Password(action) => self.password(action, signal),
            ActionView::Navigation(action) => self.navigate(action),
            ActionView::Search(action) => Step {
                dashboard: self.edit(action),
                outcome: OutcomeView::nothing(),
            },
            ActionView::SetStatus(message) => Step {
                dashboard: self.with_status(message),
                outcome: OutcomeView::nothing(),
            },
            ActionView::ResetStatus => Step {
                dashboard: self.with_status(ready()),
                outcome: OutcomeView::nothing(),
            },
            ActionView::DisplaySecrets { pass_id, file_contents } => self.with_status(
                ready(),
            ).display_secrets(pass_id, file_contents),
            ActionView::DisplayOneTimePassword { pass_id, otp } => Step {
                dashboard: self.with_status(ready()).display_otp(pass_id, otp),
                outcome: OutcomeView::nothing(),
            },
            ActionView::NoOp | ActionView::Redraw => Step {
                dashboard: self,
                outcome: OutcomeView::nothing(),
            },
        }
    }
}

/// Asking twice for the same operation on the selected entry makes one
/// request while the first runs, and a second once it is done. Where a first
/// request was made, the same action is answered with nothing, and changes
/// nothing, for as long as the completion signal is pending; once the
/// signal says that the operation is done or no longer runs, the action
/// makes a request again.
pub proof fn lemma_one_request_while_running(
    v: DashboardView,
    operation: Operation,
    first: Completion,
)
    requires
        v.operate(operation, first).outcome.request is Some,
    ensures
        ({
            let running = v.operate(operation, first).dashboard;
            &&& running.operate(operation, Completion::Pending) == (Step {
                dashboard: running,
                outcome: OutcomeView::nothing(),
            })
            &&& running.operate(operation, Completion::Done).outcome.request is Some
            &&& running.operate(operation, Completion::Dropped).outcome.request is Some
        }),
{
    let running = v.operate(operation, first).dashboard;
    assert(running.selected_id() == v.selected_id());
}

/// Operations of different classes on one entry never hold each other up:
/// while an operation on the selected entry runs, any other operation on
/// that entry makes a request, whatever the completion signal says.
pub proof fn lemma_other_operation_passes(
    v: DashboardView,
    running: Operation,
    other: Operation,
    first: Completion,
    signal: Completion,
)
    requires
        v.operate(running, first).outcome.request is Some,
        other != running,
    ensures
        ({
            let busy = v.operate(running, first).dashboard;
            &&& busy.operate(other, signal).outcome.request is Some
            &&& !busy.must_poll(other)
        }),
{
    crate::request::lemma_classes_differ(running, other);
    let busy = v.operate(running, first).dashboard;
    assert(busy.selected_id() == v.selected_id());
}

/// A result for an entry that is not selected changes nothing that is
/// shown of the secrets: a decrypted file or a one-time password tagged
/// with another entry leaves the details pane and the file popup as they
/// are, and nothing follows from it.
pub proof fn lemma_stale_result_is_dropped(
    v: DashboardView,
    pass_id: Seq<char>,
    payload: Seq<char>,
    signal: Completion,
)
    requires
        v.selected_id() != Some(pass_id),
    ensures
        ({
            let file = v.apply(
                ActionView::DisplaySecrets { pass_id, file_contents: payload },
                signal,
            );
            let otp = v.apply(ActionView::DisplayOneTimePassword { pass_id, otp: payload }, signal);
            &&& file.dashboard == v.with_status(ready())
            &&& file.dashboard.details == v.details
            &&& file.dashboard.file == v.file
            &&& file.outcome == OutcomeView::nothing()
            &&& otp.dashboard == v.with_status(ready())
            &&& otp.dashboard.details == v.details
            &&& otp.dashboard.file == v.file
            &&& otp.outcome == OutcomeView::nothing()
        }),
{
    reveal(DashboardView::apply);
    assert(v.with_status(ready()).selected_id() == v.selected_id());
}

/// Moving the selection never leaves the list: with at least one row on
/// show, going down or up by any step, to the top or to the bottom selects
/// a row of the list.
pub proof fn lemma_selection_stays_in_list(v: DashboardView, step: int)
    requires
        v.subset.len() >= 1,
    ensures
        v.next(step).table.selected matches Some(row) && row < v.subset.len(),
        v.previous(step).table.selected matches Some(row) && row < v.subset.len(),
        v.top_row().table.selected matches Some(row) && row < v.subset.len(),
        v.bottom_row().table.selected matches Some(row) && row < v.subset.len(),
        v.next(step).subset == v.subset,
        v.previous(step).subset == v.subset,
        v.top_row().subset == v.subset,
        v.bottom_row().subset == v.subset,
{
}

/// The entries on show are exactly those whose identifier holds the query,
/// whatever the case of the letters: each entry on show matches, each
/// matching entry is on show, and the entries on show keep the order of the
/// store. With an empty query all entries are on show.
pub proof fn lemma_subset_is_exact(v: DashboardView)
    requires
        v.wf(),
    ensures
        forall|k: int|
            0 <= k < v.subset.len() ==> (#[trigger] v.subset[k]) < v.ids.len() && matches_query(
                v.ids[v.subset[k] as int],
                v.search.characters,
            ),
        forall|i: int|
            0 <= i < v.ids.len() && matches_query(#[trigger] v.ids[i], v.search.characters)
                ==> v.subset.contains(i as usize),
        forall|j: int, k: int| 0 <= j < k < v.subset.len() ==> v.subset[j] < v.subset[k],
        v.search.characters.len() == 0 ==> v.subset == all_indices(v.ids.len() as int),
{
    lemma_filtered(v.ids, v.search.characters, v.ids.len() as int);
    if v.search.characters.len() == 0 {
        lemma_filtered_empty_query(v.ids, v.search.characters, v.ids.len() as int);
    }
}

/// Applying an action is a function of the action, the dashboard and what
/// the completion signal says: equal inputs give the same dashboard, the
/// same follow-up action and the same request.
pub proof fn lemma_apply_is_deterministic(
    v: DashboardView,
    w: DashboardView,
    action: ActionView,
    again: ActionView,
    signal: Completion,
    other: Completion,
)
    requires
        v == w,
        action == again,
        signal == other || !v.depends_on_signal(action),
    ensures
        v.apply(action, signal) == w.apply(again, other),
{
    reveal(DashboardView::apply);
}

/// What the filter keeps: indices of matching identifiers, each once, in
/// rising order, and none left out.
pub proof fn lemma_filtered(ids: Seq<Seq<char>>, query: Seq<char>, bound: int)
    requires
        0 <= bound <= ids.len() <= usize::MAX,
    ensures
        filtered(ids, query, bound).len() <= bound,
        forall|k: int|
            0 <= k < filtered(ids, query, bound).len() ==> {
                &&& (#[trigger] filtered(ids, query, bound)[k]) < bound
                &&& matches_query(ids[filtered(ids, query, bound)[k] as int], query)
            },
        forall|j: int, k: int|
            0 <= j < k < filtered(ids, query, bound).len() ==> filtered(ids, query, bound)[j]
                < filtered(ids, query, bound)[k],
        forall|i: int|
            0 <= i < bound && matches_query(#[trigger] ids[i], query) ==> filtered(
                ids,
                query,
                bound,
            ).contains(i as usize),
    decreases bound,
{
    if bound > 0 {
        lemma_filtered(ids, query, bound - 1);
        let shorter = filtered(ids, query, bound - 1);
        let whole = filtered(ids, query, bound);
        if matches_query(ids[bound - 1], query) {
            assert(whole == shorter.push((bound - 1) as usize));
            assert(whole[whole.len() - 1] == (bound - 1) as usize);
            assert forall|i: int| 0 <= i < bound && matches_query(#[trigger] ids[i], query) implies whole.contains(
                i as usize,
            ) by {
                if i < bound - 1 {
                    let k = choose|k: int| 0 <= k < shorter.len() && shorter[k] == i as usize;
                    assert(whole[k] == i as usize);
                } else {
                    assert(whole[whole.len() - 1] == i as usize);
                }
            }
        } else {
            assert(whole == shorter);
        }
    }
}

/// With an empty query the filter keeps every index.
pub proof fn lemma_filtered_empty_query(ids: Seq<Seq<char>>, query: Seq<char>, bound: int)
    requires
        query.len() == 0,
        0 <= bound <= ids.len() <= usize::MAX,
    ensures
        filtered(ids, query, bound) == all_indices(bound),
    decreases bound,
{
    if bound > 0 {
        lemma_filtered_empty_query(ids, query, bound - 1);
        assert(all_indices(bound) =~= all_indices(bound - 1).push((bound - 1) as usize));
    } else {
        assert(all_indices(bound) =~= Seq::<usize>::empty());
    }
}

/// Selecting a row puts the selection within the list and the details pane
/// on the entry in that row, and leaves the list as it is.
pub proof fn lemma_select(v: DashboardView, index: int)
    requires
        v.subset_in_range(),
        v.file_ok(),
    ensures
        v.select(index).selection_ok(),
        v.select(index).file_ok(),
        v.select(index).table.selected == Some(clamp(index, v.subset.len() as int) as usize),
        v.select(index).subset == v.subset,
        v.select(index).ids == v.ids,
        v.select(index).search == v.search,
        v.select(index).state == v.state,
        v.select(index).last_op == v.last_op,
        v.select(index).table.length == v.table.length,
{
}

/// A dashboard that differs from a well-formed one in nothing that the
/// invariant speaks of is well-formed.
pub proof fn lemma_frame(v: DashboardView, w: DashboardView)
    requires
        v.wf(),
        w.ids == v.ids,
        w.subset == v.subset,
        w.table.selected == v.table.selected,
        w.table.length == v.table.length,
        w.search.characters == v.search.characters,
        w.search.wf(),
        w.details.secrets.pass_id == v.details.secrets.pass_id,
        w.file_ok(),
    ensures
        w.wf(),
{
    assert(w.selected_id() == v.selected_id());
}

/// Selecting a row keeps the invariant.
pub proof fn lemma_select_keeps_invariant(v: DashboardView, index: int)
    requires
        v.wf(),
    ensures
        v.select(index).wf(),
{
    lemma_select(v, index);
}

/// A change of view state keeps the invariant.
pub proof fn lemma_state_keeps_invariant(v: DashboardView, state: State)
    requires
        v.wf(),
    ensures
        (DashboardView { state, ..v }).wf(),
{
    lemma_frame(v, DashboardView { state, ..v });
}

/// Moves between entries keep the invariant.
pub proof fn lemma_move_keeps_invariant(v: DashboardView, action: NavigationAction)
    requires
        v.wf(),
        action is Down || action is Up || action is PageDown || action is PageUp || action is Top
            || action is Bottom || action is Select || action is SelectAndFetch,
    ensures
        v.navigate(action).dashboard.wf(),
{
    match action {
        NavigationAction::Down => lemma_select_keeps_invariant(v, v.row_below(1)),
        NavigationAction::Up => lemma_select_keeps_invariant(v, v.row_above(1)),
        NavigationAction::PageDown => lemma_select_keeps_invariant(v, v.row_below(10)),
        NavigationAction::PageUp => lemma_select_keeps_invariant(v, v.row_above(10)),
        NavigationAction::Top => lemma_select_keeps_invariant(v, 0),
        NavigationAction::Bottom => lemma_select_keeps_invariant(
            v,
            last_row(v.subset.len() as int),
        ),
        NavigationAction::Select(index) => lemma_select_keeps_invariant(v, index as int),
        NavigationAction::SelectAndFetch(index) => {
            let shown = v.with_main(MainState::Secrets).show_secrets();
            lemma_frame(v, shown);
            lemma_select_keeps_invariant(shown, index as int);
        },
        _ => {},
    }
}

/// Leaving the search keeps the invariant.
pub proof fn lemma_leave_keeps_invariant(v: DashboardView)
    requires
        v.wf(),
    ensures
        v.leave().wf(),
{
    if v.state.overlay == OverlayState::Inactive && v.state.search == SearchState::Suspended {
        let cleared = DashboardView { search: v.search.reset(), ..v };
        lemma_reset_filter(cleared);
        lemma_state_keeps_invariant(
            cleared.reset_filter(),
            State { search: SearchState::Inactive, ..cleared.reset_filter().state },
        );
    } else {
        lemma_frame(v, v.leave());
    }
}

/// Moves between entries and between views keep the invariant.
pub proof fn lemma_navigate_keeps_invariant(v: DashboardView, action: NavigationAction)
    requires
        v.wf(),
    ensures
        v.navigate(action).dashboard.wf(),
{
    if action is Down || action is Up || action is PageDown || action is PageUp || action is Top
        || action is Bottom || action is Select || action is SelectAndFetch {
        lemma_move_keeps_invariant(v, action);
    } else if action is Leave {
        lemma_leave_keeps_invariant(v);
    } else {
        lemma_frame(v, v.navigate(action).dashboard);
    }
}

/// Edits of the query keep the invariant.
pub proof fn lemma_edit_keeps_invariant(v: DashboardView, action: SearchAction)
    requires
        v.wf(),
    ensures
        v.edit(action).wf(),
{
    match action {
        SearchAction::Insert(character) => lemma_filter(
            DashboardView { search: v.search.insert(character), ..v },
        ),
        SearchAction::RemoveLeft => if v.search.can_remove_left() {
            lemma_filter(DashboardView { search: v.search.remove_left(), ..v })
        },
        SearchAction::RemoveRight => if v.search.can_remove_right() {
            lemma_filter(DashboardView { search: v.search.remove_right(), ..v })
        },
        _ => lemma_frame(v, v.edit(action)),
    }
}

/// Every action keeps the invariant of the dashboard.
pub proof fn lemma_apply_keeps_invariant(v: DashboardView, action: ActionView, signal: Completion)
    requires
        v.wf(),
    ensures
        v.apply(action, signal).dashboard.wf(),
{
    reveal(DashboardView::apply);
    match action {
        ActionView::Navigation(navigation) => lemma_navigate_keeps_invariant(v, navigation),
        ActionView::Search(edit) => lemma_edit_keeps_invariant(v, edit),
        ActionView::DisplaySecrets { pass_id, file_contents } => {
            lemma_frame(v, v.with_status(ready()));
            lemma_frame(
                v.with_status(ready()),
                v.with_status(ready()).display_secrets(pass_id, file_contents).dashboard,
            );
        },
        _ => lemma_frame(v, v.apply(action, signal).dashboard),
    }
}

/// Filtering establishes the invariant from its parts that do not speak of
/// the list on show.
pub proof fn lemma_filter(v: DashboardView)
    requires
        v.ids.len() <= usize::MAX,
        v.search.wf(),
        v.file_ok(),
    ensures
        v.filter().wf(),
        v.filter().subset == filtered(v.ids, v.search.characters, v.ids.len() as int),
        v.filter().state == v.state,
{
    let subset = filtered(v.ids, v.search.characters, v.ids.len() as int);
    lemma_filtered(v.ids, v.search.characters, v.ids.len() as int);
    let listed = DashboardView {
        subset,
        table: TableView { highlight_pattern: Some(v.search.characters), ..v.table }.with_rows(
            subset.len() as usize,
        ),
        ..v
    };
    lemma_select(listed, 0);
}

/// Lifting the filter, once the query is empty, establishes the invariant.
pub proof fn lemma_reset_filter(v: DashboardView)
    requires
        v.ids.len() <= usize::MAX,
        v.search.wf(),
        v.search.characters.len() == 0,
        v.file_ok(),
    ensures
        v.reset_filter().wf(),
        v.reset_filter().subset == all_indices(v.ids.len() as int),
        v.reset_filter().state == v.state,
{
    lemma_filtered_empty_query(v.ids, v.search.characters, v.ids.len() as int);
    let entry = match v.selected_row() {
        Some(row) => v.subset[row] as int,
        None => 0,
    };
    let listed = DashboardView {
        subset: all_indices(v.ids.len() as int),
        table: TableView { highlight_pattern: None, ..v.table }.with_rows(v.ids.len() as usize),
        ..v
    };
    lemma_select(listed, entry);
}

} // verus!
