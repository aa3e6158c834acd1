//! The dashboard: the entries, the nodes that show them, the view state and
//! the guard for secret operations.
use vstd::prelude::*;

use crate::actions::{Action, NavigationAction, PasswordAction, SearchAction};
use crate::app::state::{MainState, OverlayState, SearchState, State};
use crate::components::password_store::password_info::{ids_of, PasswordInfo};
use crate::components::{
    Component, FilePopup, HelpPopup, Menu, MouseSupport, PasswordDetails, PasswordTable,
    SearchField, StatusBar,
};
use crate::dedup::{Completion, LastOperation};
use crate::components::button::fits;
use crate::components::password_details::FieldKind;
use crate::input::{MouseEvent, Rect};
use crate::request::{file_name, Operation, Outcome, Request};
use crate::text;

pub mod model;

use model::{
    all_indices, filtered, lemma_apply_keeps_invariant, lemma_filtered, lemma_filtered_empty_query,
    lemma_select, matches_query, strictly_rising, DashboardView, Step,
};

verus! {

pub struct Dashboard {
    tty_pinentry: bool,
    passwords: Vec<PasswordInfo>,
    area: Option<Rect>,
    password_subset: Vec<usize>,
    menu: Menu,
    password_table: PasswordTable,
    password_details: PasswordDetails,
    search_field: SearchField,
    help_popup: HelpPopup,
    file_popup: FilePopup,
    status_bar: StatusBar,
    app_state: State,
    render_details: bool,
    last_op: LastOperation,
}

impl View for Dashboard {
    type V = DashboardView;

    closed spec fn view(&self) -> DashboardView {
        DashboardView {
            tty_pinentry: self.tty_pinentry,
            ids: ids_of(self.passwords@),
            area: self.area,
            subset: self.password_subset@,
            menu: self.menu@,
            table: self.password_table@,
            details: self.password_details@,
            search: self.search_field@,
            help: self.help_popup@,
            file: self.file_popup@,
            status: self.status_bar@,
            state: self.app_state,
            render_details: self.render_details,
            last_op: self.last_op@,
        }
    }
}

impl Dashboard {
    /// The invariant of the dashboard: see [`DashboardView::wf`].
    pub open spec fn wf(&self) -> bool {
        self@.wf()
    }

    /// The entries of the store.
    pub closed spec fn entries(&self) -> Seq<PasswordInfo> {
        self.passwords@
    }

    /// A dashboard over the entries given, in the preview, with all entries
    /// on show and the first one selected.
    pub fn new(tty_pinentry: bool, passwords: Vec<PasswordInfo>) -> (dashboard: Self)
        ensures
            dashboard.wf(),
            dashboard.entries() == passwords@,
            dashboard@ == DashboardView::initial(tty_pinentry, ids_of(passwords@)),
    {
        let length = passwords.len();
        let password_subset = index_range(length);
        let mut dashboard = Dashboard {
            tty_pinentry,
            area: None,
            password_table: PasswordTable::new(length),
            passwords,
            password_details: PasswordDetails::new(),
            password_subset,
            menu: Menu::new(),
            search_field: SearchField::new(),
            help_popup: HelpPopup::new(),
            file_popup: FilePopup::new(),
            status_bar: StatusBar::new(),
            app_state: State::default(),
            render_details: true,
            last_op: LastOperation::default(),
        };
        proof {
            lemma_filtered_empty_query(dashboard@.ids, dashboard@.search.characters, length as int);
            lemma_select(dashboard@, 0);
        }
        dashboard.select_entry(0);
        dashboard
    }

    /// Moves the selection `step` rows down, as far as the last row.
    pub fn next(&mut self, step: usize)
        requires
            old(self).wf(),
        ensures
            final(self).wf(),
            final(self)@ == old(self)@.next(step as int),
            final(self).entries() == old(self).entries(),
    {
        let length = self.password_subset.len();
        let last = if length > 0 {
            length - 1
        } else {
            0
        };
        let i = match self.password_table.selected() {
            Some(i) => if i >= last || step >= last - i {
                last
            } else {
                i + step
            },
            None => 0,
        };
        proof {
            model::lemma_select_keeps_invariant(self@, self@.row_below(step as int));
        }
        self.select_entry(i);
    }

    /// Moves the selection `step` rows up, as far as the first row.
    pub fn previous(&mut self, step: usize)
        requires
            old(self).wf(),
        ensures
            final(self).wf(),
            final(self)@ == old(self)@.previous(step as int),
            final(self).entries() == old(self).entries(),
    {
        let i = match self.password_table.selected() {
            Some(i) => i.saturating_sub(step),
            None => 0,
        };
        proof {
            model::lemma_select_keeps_invariant(self@, self@.row_above(step as int));
        }
        self.select_entry(i);
    }

    /// Selects the first row.
    pub fn top_row(&mut self)
        requires
            old(self).wf(),
        ensures
            final(self).wf(),
            final(self)@ == old(self)@.top_row(),
            final(self).entries() == old(self).entries(),
    {
        proof {
            model::lemma_select_keeps_invariant(self@, 0);
        }
        self.select_entry(0);
    }

    /// Selects the last row.
    pub fn bottom_row(&mut self)
        requires
            old(self).wf(),
        ensures
            final(self).wf(),
            final(self)@ == old(self)@.bottom_row(),
            final(self).entries() == old(self).entries(),
    {
        let length = self.password_subset.len();
        let i = if length > 0 {
            length - 1
        } else {
            0
        };
        proof {
            model::lemma_select_keeps_invariant(self@, model::last_row(length as int));
        }
        self.select_entry(i);
    }

    fn select_entry(&mut self, index: usize)
        requires
            old(self)@.subset_in_range(),
        ensures
            final(self)@ == old(self)@.select(index as int),
            final(self).entries() == old(self).entries(),
    {
        let length = self.password_subset.len();
        let last = if length > 0 {
            length - 1
        } else {
            0
        };
        let view_index = if index > last {
            last
        } else {
            index
        };
        self.password_table.select(view_index);
        let id: Option<String> = match self.get_selected_info() {
            Some(info) => Some(info.pass_id()),
            None => None,
        };
        match id {
            Some(pass_id) => {
                let same = match self.password_details.pass_id() {
                    Some(current) => *current == pass_id,
                    None => false,
                };
                if same {
                    return ;
                }
                self.status_bar.reset_status();
                self.file_popup.reset_content();
                self.password_details.reset();
                self.password_details.set_pass_id(pass_id);
            },
            None => {
                self.status_bar.reset_status();
                self.file_popup.reset_content();
                self.password_details.reset();
            },
        }
    }

    /// Puts on show the entries whose identifier holds the query, whatever
    /// the case of the letters, and selects the first of them: the entries
    /// on show are those that match and no others, in the order of the
    /// store. The entries and the query stay as they are.
    pub fn filter_passwords(&mut self)
        requires
            old(self).wf(),
        ensures
            final(self).wf(),
            final(self)@ == old(self)@.filter(),
            final(self).entries() == old(self).entries(),
            final(self)@.ids == old(self)@.ids,
            final(self)@.search == old(self)@.search,
            strictly_rising(final(self)@.subset),
            forall|i: int|
                0 <= i < old(self)@.ids.len() ==> (final(self)@.subset.contains(i as usize)
                    <==> matches_query(#[trigger] old(self)@.ids[i], old(self)@.search.characters)),
    {
        self.refilter();
        proof {
            let subset = self@.subset;
            let ids = old(self)@.ids;
            let query = old(self)@.search.characters;
            lemma_filtered(ids, query, ids.len() as int);
            assert forall|i: int| 0 <= i < ids.len() && subset.contains(i as usize) implies matches_query(
                #[trigger] ids[i],
                query,
            ) by {
                let k = choose|k: int| 0 <= k < subset.len() && subset[k] == i as usize;
                assert(matches_query(ids[subset[k] as int], query));
            }
        }
    }

    /// Puts on show the entries that match the query as it stands after an
    /// edit, and selects the first of them.
    fn refilter(&mut self)
        requires
            old(self)@.ids.len() <= usize::MAX,
            old(self)@.search.wf(),
            old(self)@.file_ok(),
        ensures
            final(self)@ == old(self)@.filter(),
            final(self).wf(),
            final(self).entries() == old(self).entries(),
    {
        let pattern = self.search_field.get_content();
        let needle = text::to_lowercase(pattern.as_str());
        let ghost ids = self@.ids;
        let mut subset: Vec<usize> = Vec::new();
        let mut i: usize = 0;
        while i < self.passwords.len()
            invariant
                i <= self.passwords.len(),
                ids == ids_of(self.passwords@),
                needle@ == text::lowercase(pattern@),
                pattern@.len() == 0 ==> needle@.len() == 0,
                subset@ == filtered(ids, pattern@, i as int),
            decreases self.passwords.len() - i,
        {
            let lowered = text::to_lowercase(self.passwords[i].pass_id.as_str());
            let found = text::contains(lowered.as_str(), needle.as_str());
            proof {
                if pattern@.len() == 0 {
                    assert(needle@ =~= Seq::<char>::empty());
                    text::lemma_empty_is_substring(lowered@);
                }
                assert(found == matches_query(ids[i as int], pattern@));
            }
            if found {
                subset.push(i);
            }
            i = i + 1;
        }
        proof {
            lemma_filtered(ids, pattern@, ids.len() as int);
            model::lemma_filter(self@);
        }
        self.password_subset = subset;
        self.password_table.set_highlight_pattern(Some(pattern));
        self.password_table.update_passwords(self.password_subset.len());
        self.select_entry(0);
    }

    /// Puts all entries on show again and selects the entry that was
    /// selected, or the first one where none was.
    fn reset_password_filter(&mut self)
        requires
            old(self)@.ids.len() <= usize::MAX,
            old(self)@.search.wf(),
            old(self)@.search.characters.len() == 0,
            old(self)@.file_ok(),
        ensures
            final(self)@ == old(self)@.reset_filter(),
            final(self).wf(),
            final(self).entries() == old(self).entries(),
    {
        let index = match self.password_table.selected() {
            Some(index) => if index < self.password_subset.len() {
                self.password_subset[index]
            } else {
                0
            },
            None => 0,
        };
        proof {
            model::lemma_reset_filter(self@);
        }
        let length = self.passwords.len();
        self.password_subset = index_range(length);
        self.password_table.set_highlight_pattern(None);
        self.password_table.update_passwords(length);
        self.select_entry(index);
    }

    /// Takes in a decrypted file if it belongs to the selected entry: the
    /// file popup holds the file, the first line is the password, the second
    /// the login, and a line that starts with `otpauth://` puts the
    /// placeholder for a one-time password in place and has one asked for
    /// next. A file for another entry changes nothing. See
    /// [`DashboardView::display_secrets`].
    pub fn update_pass_details(&mut self, pass_id: String, message: String) -> (action: Option<
        Action,
    >)
        requires
            old(self).wf(),
        ensures
            final(self).wf(),
            (Step {
                dashboard: final(self)@,
                outcome: crate::request::OutcomeView {
                    follow_up: crate::actions::view_of(action),
                    request: None,
                },
            }) == old(self)@.display_secrets(pass_id@, message@),
            final(self).entries() == old(self).entries(),
    {
        let action = self.take_in_file(pass_id, message);
        proof {
            model::lemma_frame(old(self)@, self@);
        }
        action
    }

    /// Takes in a decrypted file if it belongs to the selected entry.
    fn take_in_file(&mut self, pass_id: String, message: String) -> (action: Option<Action>)
        ensures
            (Step {
                dashboard: final(self)@,
                outcome: crate::request::OutcomeView {
                    follow_up: crate::actions::view_of(action),
                    request: None,
                },
            }) == old(self)@.display_secrets(pass_id@, message@),
            final(self).entries() == old(self).entries(),
    {
        let selected = match self.get_selected_info() {
            Some(info) => pass_id == info.pass_id,
            None => false,
        };
        if !selected {
            return None;
        }
        self.file_popup.set_content(pass_id.as_str(), message.as_str());
        let lines = text::lines(message.as_str());
        if self.password_details.read_lines(&lines) {
            Some(Action::Password(PasswordAction::FetchOtp))
        } else {
            None
        }
    }

    /// Takes in a one-time password if it belongs to the selected entry.
    fn update_one_time_password(&mut self, pass_id: String, otp: String)
        ensures
            final(self)@ == old(self)@.display_otp(pass_id@, otp@),
            final(self).entries() == old(self).entries(),
    {
        let selected = match self.get_selected_info() {
            Some(info) => pass_id == info.pass_id,
            None => false,
        };
        if selected {
            self.password_details.set_one_time_password(otp);
        }
    }

    fn show_pass_secrets(&mut self)
        ensures
            final(self)@ == old(self)@.show_secrets(),
            final(self).entries() == old(self).entries(),
    {
        self.password_details.show();
    }

    fn hide_secrets(&mut self)
        ensures
            final(self)@ == old(self)@.hide_secrets(),
            final(self).entries() == old(self).entries(),
    {
        self.password_details.clear_secrets();
        self.file_popup.reset_content();
    }

    /// Asks the guard for a secret operation on the selected entry, given
    /// what the completion signal of the tracked operation says.
    fn operate(&mut self, operation: Operation, signal: Completion) -> (outcome: Outcome)
        ensures
            old(self)@.operate(operation, signal) == (Step {
                dashboard: final(self)@,
                outcome: outcome@,
            }),
            final(self).entries() == old(self).entries(),
    {
        let pass_id = match self.get_selected_info() {
            Some(info) => info.pass_id(),
            None => {
                return Outcome {
                    follow_up: Some(Action::SetStatus("No entry selected".to_owned())),
                    request: None,
                };
            },
        };
        match self.last_op.settle(pass_id.as_str(), operation.class(), signal) {
            Some(completion_beacon) => {
                let follow_up = if self.tty_pinentry {
                    Action::Redraw
                } else {
                    Action::SetStatus(operation.progress().to_owned())
                };
                Outcome {
                    follow_up: Some(follow_up),
                    request: Some(
                        Request::Run {
                            operation,
                            file_name: file_name(&pass_id),
                            pass_id,
                            blocking: self.tty_pinentry,
                            completion_beacon,
                        },
                    ),
                }
            },
            None => Outcome { follow_up: None, request: None },
        }
    }

    /// The entry in the selected row, if the list has rows.
    pub fn get_selected_info(&self) -> (info: Option<&PasswordInfo>)
        ensures
            match info {
                Some(info) => self@.selected_entry() matches Some(entry) && *info
                    == self.entries()[entry],
                None => self@.selected_entry() is None,
            },
            match info {
                Some(info) => self@.selected_id() == Some(info.pass_id@),
                None => self@.selected_id() is None,
            },
    {
        match self.password_table.selected() {
            Some(index) => {
                if index < self.password_subset.len() {
                    let entry = self.password_subset[index];
                    if entry < self.passwords.len() {
                        Some(&self.passwords[entry])
                    } else {
                        None
                    }
                } else {
                    None
                }
            },
            None => None,
        }
    }
}

impl Dashboard {
    /// What follows a move of the selection.
    fn after_move(&self) -> (outcome: Outcome)
        ensures
            outcome@ == self@.after_move(),
    {
        match self.app_state.main {
            MainState::Secrets => Outcome {
                follow_up: Some(Action::Navigation(NavigationAction::Preview)),
                request: None,
            },
            _ => Outcome { follow_up: None, request: None },
        }
    }

    /// Leaves the search: see [`DashboardView::leave`].
    fn leave(&mut self)
        requires
            old(self).wf(),
        ensures
            final(self)@ == old(self)@.leave(),
            final(self).entries() == old(self).entries(),
    {
        match self.app_state.overlay {
            OverlayState::Inactive => match self.app_state.search {
                SearchState::Active => {
                    if self.search_field.is_empty() {
                        self.app_state.search = SearchState::Inactive;
                    } else {
                        self.search_field.suspend();
                        self.app_state.search = SearchState::Suspended;
                    }
                },
                SearchState::Suspended => {
                    self.search_field.reset();
                    self.reset_password_filter();
                    self.app_state.search = SearchState::Inactive;
                },
                SearchState::Inactive => {},
            },
            _ => {},
        }
    }

    /// Goes back: see [`DashboardView::back`].
    fn back(&mut self) -> (outcome: Outcome)
        ensures
            old(self)@.back() == (Step { dashboard: final(self)@, outcome: outcome@ }),
            final(self).entries() == old(self).entries(),
    {
        match self.app_state.overlay {
            OverlayState::Help | OverlayState::File => {
                self.app_state.overlay = OverlayState::Inactive;
                Outcome { follow_up: None, request: None }
            },
            OverlayState::Inactive => match self.app_state.main {
                MainState::Secrets => Outcome {
                    follow_up: Some(Action::Navigation(NavigationAction::Preview)),
                    request: None,
                },
                MainState::Preview => {
                    self.app_state.main = MainState::Table;
                    Outcome { follow_up: None, request: None }
                },
                MainState::Table => Outcome { follow_up: None, request: None },
            },
        }
    }

    /// Applies a move between entries or between views.
    fn navigate(&mut self, action: NavigationAction) -> (outcome: Outcome)
        requires
            old(self).wf(),
        ensures
            old(self)@.navigate(action) == (Step { dashboard: final(self)@, outcome: outcome@ }),
            final(self).entries() == old(self).entries(),
    {
        match action {
            NavigationAction::Down => {
                let outcome = self.after_move();
                self.next(1);
                outcome
            },
            NavigationAction::Up => {
                let outcome = self.after_move();
                self.previous(1);
                outcome
            },
            NavigationAction::PageDown => {
                let outcome = self.after_move();
                self.next(10);
                outcome
            },
            NavigationAction::PageUp => {
                let outcome = self.after_move();
                self.previous(10);
                outcome
            },
            NavigationAction::Top => {
                let outcome = self.after_move();
                self.top_row();
                outcome
            },
            NavigationAction::Bottom => {
                let outcome = self.after_move();
                self.bottom_row();
                outcome
            },
            NavigationAction::Select(i) => {
                let outcome = self.after_move();
                self.select_entry(i);
                outcome
            },
            NavigationAction::SelectAndFetch(i) => {
                self.app_state.main = MainState::Secrets;
                self.show_pass_secrets();
                self.select_entry(i);
                Outcome { follow_up: Some(Action::Password(PasswordAction::Fetch)), request: None }
            },
            NavigationAction::Preview => {
                self.hide_secrets();
                self.app_state.main = MainState::Preview;
                Outcome { follow_up: None, request: None }
            },
            NavigationAction::Secrets => {
                self.app_state.main = MainState::Secrets;
                self.show_pass_secrets();
                Outcome { follow_up: Some(Action::Password(PasswordAction::Fetch)), request: None }
            },
            NavigationAction::Search => {
                self.app_state.search = SearchState::Active;
                self.search_field.resume();
                Outcome { follow_up: None, request: None }
            },
            NavigationAction::Help => {
                self.app_state.overlay = OverlayState::Help;
                Outcome { follow_up: None, request: None }
            },
            NavigationAction::File => {
                self.app_state.overlay = OverlayState::File;
                Outcome { follow_up: Some(Action::Password(PasswordAction::Fetch)), request: None }
            },
            NavigationAction::Leave => {
                self.leave();
                Outcome { follow_up: None, request: None }
            },
            NavigationAction::Back => self.back(),
            NavigationAction::Next | NavigationAction::Quit => Outcome {
                follow_up: None,
                request: None,
            },
        }
    }

    /// Applies an edit of the query.
    fn edit(&mut self, action: SearchAction)
        requires
            old(self).wf(),
        ensures
            final(self)@ == old(self)@.edit(action),
            final(self).entries() == old(self).entries(),
    {
        match action {
            SearchAction::Insert(character) => {
                self.search_field.insert(character);
                self.refilter();
            },
            SearchAction::RemoveLeft => {
                if self.search_field.remove_left() {
                    self.refilter();
                }
            },
            SearchAction::RemoveRight => {
                if self.search_field.remove_right() {
                    self.refilter();
                }
            },
            SearchAction::MoveLeft => {
                self.search_field.move_left();
            },
            SearchAction::MoveRight => {
                self.search_field.move_right();
            },
            SearchAction::MoveToStart => {
                self.search_field.move_to_start();
            },
            SearchAction::MoveToEnd => {
                self.search_field.move_to_end();
            },
        }
    }

    /// Applies an operation on the secret of the selected entry, given what
    /// the completion signal of the tracked operation says.
    fn password(&mut self, action: PasswordAction, signal: Completion) -> (outcome: Outcome)
        ensures
            old(self)@.password(action, signal) == (Step {
                dashboard: final(self)@,
                outcome: outcome@,
            }),
            final(self).entries() == old(self).entries(),
    {
        match action.operation() {
            Some(operation) => self.operate(operation, signal),
            None => match self.get_selected_info() {
                Some(info) => Outcome {
                    follow_up: None,
                    request: Some(Request::CopyId { pass_id: info.pass_id() }),
                },
                None => Outcome { follow_up: None, request: None },
            },
        }
    }

    /// Asks the completion signal of the tracked operation how far that
    /// operation has got, where the result of applying `action` depends on
    /// it: that is, where the action asks for the operation that is tracked,
    /// on the entry that it is tracked for. The dashboard stays as it is.
    /// Where the result does not depend on the signal, nothing is asked and
    /// the answer is pending.
    pub fn poll(&mut self, action: &Action) -> (signal: Completion)
        ensures
            final(self)@ == old(self)@,
            final(self).entries() == old(self).entries(),
            !old(self)@.depends_on_signal(action@) ==> signal == Completion::Pending,
    {
        let operation = match action {
            Action::Password(action) => action.operation(),
            _ => None,
        };
        let pass_id = match self.get_selected_info() {
            Some(info) => Some(info.pass_id()),
            None => None,
        };
        match (operation, pass_id) {
            (Some(operation), Some(pass_id)) => self.last_op.poll(
                pass_id.as_str(),
                operation.class(),
            ),
            _ => Completion::Pending,
        }
    }

    /// Applies an action, given what the completion signal of the tracked
    /// operation says: see [`DashboardView::apply`]. What comes back is the
    /// action to apply next, if any, and the request to carry out, if any.
    pub fn apply(&mut self, action: Action, signal: Completion) -> (outcome: Outcome)
        requires
            old(self).wf(),
        ensures
            final(self).wf(),
            old(self)@.apply(action@, signal) == (Step {
                dashboard: final(self)@,
                outcome: outcome@,
            }),
            final(self).entries() == old(self).entries(),
    {
        let ghost before = self@;
        let ghost request = action@;
        let outcome = match action {
            Action::Password(action) => self.password(action, signal),
            Action::Navigation(action) => self.navigate(action),
            Action::Search(action) => {
                self.edit(action);
                Outcome { follow_up: None, request: None }
            },
            Action::SetStatus(message) => {
                self.status_bar.set_status(message);
                Outcome { follow_up: None, request: None }
            },
            Action::ResetStatus => {
                self.status_bar.reset_status();
                Outcome { follow_up: None, request: None }
            },
            Action::DisplaySecrets { pass_id, file_contents } => {
                self.status_bar.reset_status();
                let follow_up = self.take_in_file(pass_id, file_contents);
                Outcome { follow_up, request: None }
            },
            Action::DisplayOneTimePassword { pass_id, otp } => {
                self.status_bar.reset_status();
                self.update_one_time_password(pass_id, otp);
                Outcome { follow_up: None, request: None }
            },
            Action::NoOp | Action::Redraw => Outcome { follow_up: None, request: None },
        };
        proof {
            reveal(DashboardView::apply);
            assert(before.apply(request, signal) == (Step { dashboard: self@, outcome: outcome@ }));
            lemma_apply_keeps_invariant(before, request, signal);
        }
        outcome
    }
}

impl Dashboard {
    /// Reads a pointer event: see [`DashboardView::on_mouse`].
    pub fn handle_mouse_event(&mut self, event: MouseEvent, track_row: usize) -> (action: Option<
        Action,
    >)
        requires
            old(self).wf(),
        ensures
            final(self).wf(),
            final(self)@ == old(self)@.after_mouse(event),
            action == old(self)@.on_mouse(event, track_row),
            final(self).entries() == old(self).entries(),
    {
        let mut action: Option<Action> = None;
        if let Some(latest_action) = self.password_table.handle_mouse_event(event, track_row) {
            action = Some(latest_action);
        }
        match self.app_state.search {
            SearchState::Active | SearchState::Suspended => {
                if let Some(latest_action) = self.search_field.handle_mouse_event(event) {
                    action = Some(latest_action);
                }
            },
            SearchState::Inactive => {},
        }
        if let Some(latest_action) = self.password_details.handle_mouse_event(event) {
            action = Some(latest_action);
        }
        match self.app_state.overlay {
            OverlayState::File => {
                if let Some(latest_action) = self.file_popup.handle_mouse_event(event) {
                    action = Some(latest_action);
                }
            },
            OverlayState::Help => {
                if let Some(latest_action) = self.help_popup.handle_mouse_event(event) {
                    action = Some(latest_action);
                }
            },
            OverlayState::Inactive => {},
        }
        if let Some(latest_action) = self.menu.handle_mouse_event(event) {
            action = Some(latest_action);
        }
        proof {
            model::lemma_frame(old(self)@, self@);
        }
        action
    }

    pub fn get_area(&self) -> (area: Option<Rect>)
        ensures
            area == self@.area,
    {
        self.area
    }

    /// Records the rectangle the dashboard was drawn in.
    pub fn place(&mut self, area: Rect)
        requires
            old(self).wf(),
        ensures
            final(self).wf(),
            final(self)@ == (DashboardView { area: Some(area), ..old(self)@ }),
            final(self).entries() == old(self).entries(),
    {
        self.area = Some(area);
        proof {
            model::lemma_frame(old(self)@, self@);
        }
    }

    /// Records where the menu was drawn.
    pub fn place_menu(&mut self, area: Rect)
        requires
            old(self).wf(),
        ensures
            final(self).wf(),
            final(self)@ == (DashboardView { menu: old(self)@.menu.place(area), ..old(self)@ }),
            final(self).entries() == old(self).entries(),
    {
        self.menu.place(area);
        proof {
            model::lemma_frame(old(self)@, self@);
        }
    }

    /// Records where the table was drawn and which row came first on
    /// screen.
    pub fn place_table(&mut self, area: Rect, offset: usize)
        requires
            old(self).wf(),
            area.y < u16::MAX,
        ensures
            final(self).wf(),
            final(self)@ == (DashboardView {
                table: crate::components::password_table::TableView {
                    offset,
                    ..old(self)@.table.place(area)
                },
                ..old(self)@
            }),
            final(self).entries() == old(self).entries(),
    {
        self.password_table.place(area);
        self.password_table.scroll_to(offset);
        proof {
            model::lemma_frame(old(self)@, self@);
        }
    }

    /// Records where the details pane was drawn.
    pub fn place_details(&mut self, area: Rect)
        requires
            old(self).wf(),
        ensures
            final(self).wf(),
            final(self)@ == (DashboardView {
                details: crate::components::password_details::DetailsView {
                    area: Some(area),
                    ..old(self)@.details
                },
                ..old(self)@
            }),
            final(self).entries() == old(self).entries(),
    {
        self.password_details.place(area);
        proof {
            model::lemma_frame(old(self)@, self@);
        }
    }

    /// Records where a field of the details pane was drawn; with two rows
    /// or more the buttons of the field are put in place. Returns the
    /// columns left of the buttons.
    pub fn place_detail_field(&mut self, kind: FieldKind, area: Rect) -> (room: u16)
        requires
            old(self).wf(),
            old(self)@.details.field(kind).fits_in(area),
        ensures
            final(self).wf(),
            final(self)@ == (DashboardView {
                details: old(self)@.details.with_field(
                    kind,
                    old(self)@.details.field(kind).place(area),
                ),
                ..old(self)@
            }),
            room == old(self)@.details.field(kind).room(area),
            final(self).entries() == old(self).entries(),
    {
        let room = self.password_details.place_field(kind, area);
        proof {
            model::lemma_frame(old(self)@, self@);
        }
        room
    }

    /// Sets or clears what a field of the details pane shows.
    pub fn show_in_detail_field(&mut self, kind: FieldKind, content: Option<&str>)
        requires
            old(self).wf(),
        ensures
            final(self).wf(),
            final(self)@ == (DashboardView {
                details: old(self)@.details.with_content(
                    kind,
                    match content {
                        Some(text) => Some(text@),
                        None => None,
                    },
                ),
                ..old(self)@
            }),
            final(self).entries() == old(self).entries(),
    {
        self.password_details.show_in_field(kind, content);
        proof {
            model::lemma_frame(old(self)@, self@);
        }
    }

    /// Records where the search box was drawn.
    pub fn place_search(&mut self, area: Rect)
        requires
            old(self).wf(),
        ensures
            final(self).wf(),
            final(self)@ == (DashboardView { search: old(self)@.search.place(area), ..old(self)@ }),
            final(self).entries() == old(self).entries(),
    {
        self.search_field.place(area);
        proof {
            model::lemma_frame(old(self)@, self@);
        }
    }

    /// Records where the help popup and its button were drawn.
    pub fn place_help(&mut self, area: Rect, button_area: Rect)
        requires
            old(self).wf(),
            fits(button_area),
        ensures
            final(self).wf(),
            final(self)@ == (DashboardView {
                help: old(self)@.help.place(area, button_area),
                ..old(self)@
            }),
            final(self).entries() == old(self).entries(),
    {
        self.help_popup.place(area, button_area);
        proof {
            model::lemma_frame(old(self)@, self@);
        }
    }

    /// Records where the file popup and its button were drawn.
    pub fn place_file(&mut self, area: Rect, button_area: Rect)
        requires
            old(self).wf(),
            fits(button_area),
        ensures
            final(self).wf(),
            final(self)@ == (DashboardView {
                file: old(self)@.file.place(area, button_area),
                ..old(self)@
            }),
            final(self).entries() == old(self).entries(),
    {
        self.file_popup.place(area, button_area);
        proof {
            model::lemma_frame(old(self)@, self@);
        }
    }

    pub fn menu(&self) -> (menu: &Menu)
        ensures
            menu@ == self@.menu,
    {
        &self.menu
    }

    pub fn password_table(&self) -> (table: &PasswordTable)
        ensures
            table@ == self@.table,
    {
        &self.password_table
    }

    pub fn password_details(&self) -> (details: &PasswordDetails)
        ensures
            details@ == self@.details,
    {
        &self.password_details
    }

    pub fn search_field(&self) -> (field: &SearchField)
        ensures
            field@ == self@.search,
    {
        &self.search_field
    }

    pub fn help_popup(&self) -> (popup: &HelpPopup)
        ensures
            popup@ == self@.help,
    {
        &self.help_popup
    }

    pub fn file_popup(&self) -> (popup: &FilePopup)
        ensures
            popup@ == self@.file,
    {
        &self.file_popup
    }

    pub fn status_bar(&self) -> (bar: &StatusBar)
        ensures
            bar@ == self@.status,
    {
        &self.status_bar
    }

    /// The entries on show, as indices into the entries of the store.
    pub fn password_subset(&self) -> (subset: &Vec<usize>)
        ensures
            subset@ == self@.subset,
    {
        &self.password_subset
    }

    /// The entries of the store.
    pub fn passwords(&self) -> (passwords: &Vec<PasswordInfo>)
        ensures
            passwords@ == self.entries(),
    {
        &self.passwords
    }

    /// Whether secret operations run on the interactive path.
    pub fn tty_pinentry(&self) -> (blocking: bool)
        ensures
            blocking == self@.tty_pinentry,
    {
        self.tty_pinentry
    }

    /// Whether the details pane is drawn.
    pub fn render_details(&self) -> (render: bool)
        ensures
            render == self@.render_details,
    {
        self.render_details
    }

    /// The view state.
    pub fn app_state(&self) -> (state: State)
        ensures
            state == self@.state,
    {
        self.app_state
    }
}

impl Component for Dashboard {
    open spec fn inv(&self) -> bool {
        self.wf()
    }

    /// Applies an action: the completion signal of the tracked operation
    /// is asked where the result depends on it, see [`Dashboard::poll`], and
    /// the action is applied with what the signal says, see
    /// [`Dashboard::apply`]. Where the result does not depend on the signal,
    /// it is stated outright.
    fn update(&mut self, action: Action) -> (outcome: Outcome)
        ensures
            exists|signal: Completion| #[trigger]
                old(self)@.apply(action@, signal) == (Step {
                    dashboard: final(self)@,
                    outcome: outcome@,
                }),
            !old(self)@.depends_on_signal(action@) ==> old(self)@.apply(action@, Completion::Pending)
                == (Step { dashboard: final(self)@, outcome: outcome@ }),
            final(self).entries() == old(self).entries(),
    {
        let signal = self.poll(&action);
        let outcome = self.apply(action, signal);
        assert(old(self)@.apply(action@, signal) == (Step {
            dashboard: self@,
            outcome: outcome@,
        }));
        outcome
    }
}

/// Where the search box goes on a screen of the size of `area`: at most 35
/// columns wide, one column off the right edge, three rows high below the
/// third row, as far as the screen has room.
pub open spec fn spec_search_popup_area(area: Rect) -> Rect {
    let width = if area.width < 35 {
        area.width
    } else {
        35
    };
    Rect {
        x: if area.width >= width + 1 {
            (area.width - width - 1) as u16
        } else {
            0
        },
        y: if area.height < 3 {
            area.height
        } else {
            3
        },
        width,
        height: if area.height >= 6 {
            3
        } else if area.height >= 3 {
            (area.height - 3) as u16
        } else {
            0
        },
    }
}

/// Computes where the search box goes.
pub fn search_popup_area(area: Rect) -> (popup: Rect)
    ensures
        popup == spec_search_popup_area(area),
{
    let search_width: u16 = if area.width < 35 {
        area.width
    } else {
        35
    };
    let rest: u16 = area.height.saturating_sub(3);
    Rect {
        x: area.width.saturating_sub(search_width + 1),
        y: if area.height < 3 {
            area.height
        } else {
            3
        },
        width: search_width,
        height: if rest < 3 {
            rest
        } else {
            3
        },
    }
}

/// The indices below `length`, in rising order.
fn index_range(length: usize) -> (indices: Vec<usize>)
    ensures
        indices@ == all_indices(length as int),
{
    let mut indices: Vec<usize> = Vec::new();
    let mut i: usize = 0;
    while i < length
        invariant
            i <= length,
            indices@ == all_indices(i as int),
        decreases length - i,
    {
        indices.push(i);
        i = i + 1;
        assert(indices@ =~= all_indices(i as int));
    }
    assert(all_indices(0) =~= Seq::<usize>::empty());
    indices
}

} // verus!
