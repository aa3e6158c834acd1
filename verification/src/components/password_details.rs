//! The details pane: what is known of the selected entry, and the fields
//! that show it.
use vstd::prelude::*;

use crate::actions::{Action, NavigationAction, PasswordAction};
use crate::components::button::{Button, ButtonView, Mode, State};
use crate::components::MouseSupport;
use crate::input::{MouseEvent, Rect};
use crate::text::{starts_with, views};

pub mod details_field;

pub use details_field::DetailsField;
use details_field::{text_of, FieldView};

verus! {

#[derive(Debug)]
pub struct PasswordDetails {
    show_secrets: bool,
    pass_id: Option<String>,
    line_count: Option<usize>,
    password: Option<String>,
    one_time_password: Option<String>,
    login: Option<String>,
    pass_id_field: DetailsField,
    lines_field: DetailsField,
    password_field: DetailsField,
    otp_field: DetailsField,
    login_field: DetailsField,
    area: Option<Rect>,
}

/// One of the five fields of the pane.
#[derive(Debug, Clone, Copy, PartialEq, Eq, Structural)]
pub enum FieldKind {
    PassId,
    Lines,
    Password,
    Otp,
    Login,
}

/// What is known of the selected entry.
pub struct Secrets {
    pub show_secrets: bool,
    pub pass_id: Option<Seq<char>>,
    pub line_count: Option<usize>,
    pub password: Option<Seq<char>>,
    pub one_time_password: Option<Seq<char>>,
    pub login: Option<Seq<char>>,
}

/// What a [`PasswordDetails`] holds.
pub struct DetailsView {
    pub secrets: Secrets,
    pub pass_id_field: FieldView,
    pub lines_field: FieldView,
    pub password_field: FieldView,
    pub otp_field: FieldView,
    pub login_field: FieldView,
    pub area: Option<Rect>,
}

impl View for PasswordDetails {
    type V = DetailsView;

    closed spec fn view(&self) -> DetailsView {
        DetailsView {
            secrets: Secrets {
                show_secrets: self.show_secrets,
                pass_id: text_of(self.pass_id),
                line_count: self.line_count,
                password: text_of(self.password),
                one_time_password: text_of(self.one_time_password),
                login: text_of(self.login),
            },
            pass_id_field: self.pass_id_field@,
            lines_field: self.lines_field@,
            password_field: self.password_field@,
            otp_field: self.otp_field@,
            login_field: self.login_field@,
            area: self.area,
        }
    }
}

impl Secrets {
    /// Nothing known and nothing shown.
    pub open spec fn none() -> Secrets {
        Secrets {
            show_secrets: false,
            pass_id: None,
            line_count: None,
            password: None,
            one_time_password: None,
            login: None,
        }
    }

    /// Whether a field is on show: the entry and the password field with an
    /// entry, the others once their value is known and secrets may be
    /// shown.
    pub open spec fn shows(self, kind: FieldKind) -> bool {
        match kind {
            FieldKind::PassId => self.pass_id is Some,
            FieldKind::Lines => self.line_count is Some && self.show_secrets,
            FieldKind::Password => self.pass_id is Some,
            FieldKind::Otp => self.one_time_password is Some && self.show_secrets,
            FieldKind::Login => self.login is Some && self.show_secrets,
        }
    }

    /// The text that a field shows in place of its placeholder. The
    /// password is held back until secrets may be shown; the number of lines
    /// is no text.
    pub open spec fn text(self, kind: FieldKind) -> Option<Seq<char>> {
        match kind {
            FieldKind::PassId => self.pass_id,
            FieldKind::Lines => None,
            FieldKind::Password => if self.show_secrets {
                self.password
            } else {
                None
            },
            FieldKind::Otp => self.one_time_password,
            FieldKind::Login => self.login,
        }
    }

    /// The number of fields that the column of secrets makes room for: the
    /// password, and the one-time password and the login where they are
    /// known.
    pub open spec fn slots(self) -> int {
        1 + if self.one_time_password is Some {
            1int
        } else {
            0
        } + if self.login is Some {
            1int
        } else {
            0
        }
    }

    /// Secrets hidden and forgotten; the entry and the number of lines of
    /// its file stay.
    pub open spec fn cleared(self) -> Secrets {
        Secrets { pass_id: self.pass_id, line_count: self.line_count, ..Secrets::none() }
    }
}

/// The placeholder shown for a one-time password that is being derived.
pub open spec fn masked_otp() -> Seq<char> {
    Seq::new(6, |i: int| '*')
}

/// The prefix of a line that holds the parameters of a one-time password.
pub open spec fn otp_prefix() -> Seq<char> {
    "otpauth://"@
}

/// One of the lines, whichever, starts with the one-time password prefix.
pub open spec fn has_otp(lines: Seq<Seq<char>>) -> bool {
    exists|i: int| 0 <= i < lines.len() && otp_prefix().is_prefix_of(#[trigger] lines[i])
}

/// The details after the lines of a decrypted file were read: the first
/// line is the password, the second the login, and a line with one-time
/// password parameters puts the placeholder in place.
pub open spec fn secrets_from_lines(secrets: Secrets, lines: Seq<Seq<char>>) -> Secrets {
    Secrets {
        password: if lines.len() >= 1 {
            Some(lines[0])
        } else {
            secrets.password
        },
        login: if lines.len() >= 2 {
            Some(lines[1])
        } else {
            secrets.login
        },
        line_count: Some(lines.len() as usize),
        one_time_password: if has_otp(lines) {
            Some(masked_otp())
        } else {
            secrets.one_time_password
        },
        ..secrets
    }
}

impl DetailsView {
    /// The empty pane: nothing known, nothing drawn, each field with its
    /// title and its buttons.
    pub open spec fn initial() -> DetailsView {
        DetailsView {
            secrets: Secrets::none(),
            pass_id_field: pane_field(
                "Password file"@,
                Seq::empty(),
                seq![
                    pane_button(
                        "Copy"@,
                        "(c)"@,
                        10,
                        Action::Password(PasswordAction::CopyPassId),
                    ),
                ],
            ),
            lines_field: pane_field(
                "Number of lines"@,
                Seq::empty(),
                seq![
                    pane_button(
                        "Show file"@,
                        "(i)"@,
                        15,
                        Action::Navigation(NavigationAction::File),
                    ),
                ],
            ),
            password_field: pane_field(
                "Password"@,
                "********"@,
                seq![
                    pane_button(
                        "Copy"@,
                        "(y)"@,
                        10,
                        Action::Password(PasswordAction::CopyPassword),
                    ),
                ],
            ),
            otp_field: pane_field(
                "One-time password (OTP)"@,
                "******"@,
                seq![
                    pane_button("Copy"@, "(x)"@, 10, Action::Password(PasswordAction::CopyOtp)),
                    pane_button(
                        "Refresh"@,
                        "(r)"@,
                        13,
                        Action::Password(PasswordAction::FetchOtp),
                    ),
                ],
            ),
            login_field: pane_field(
                "Login"@,
                Seq::empty(),
                seq![
                    pane_button("Copy"@, "(v)"@, 10, Action::Password(PasswordAction::CopyLogin)),
                ],
            ),
            area: None,
        }
    }

    pub open spec fn field(self, kind: FieldKind) -> FieldView {
        match kind {
            FieldKind::PassId => self.pass_id_field,
            FieldKind::Lines => self.lines_field,
            FieldKind::Password => self.password_field,
            FieldKind::Otp => self.otp_field,
            FieldKind::Login => self.login_field,
        }
    }

    pub open spec fn with_field(self, kind: FieldKind, field: FieldView) -> DetailsView {
        match kind {
            FieldKind::PassId => DetailsView { pass_id_field: field, ..self },
            FieldKind::Lines => DetailsView { lines_field: field, ..self },
            FieldKind::Password => DetailsView { password_field: field, ..self },
            FieldKind::Otp => DetailsView { otp_field: field, ..self },
            FieldKind::Login => DetailsView { login_field: field, ..self },
        }
    }

    /// The pane with what one of its fields shows set or cleared.
    pub open spec fn with_content(
        self,
        kind: FieldKind,
        content: Option<Seq<char>>,
    ) -> DetailsView {
        self.with_field(kind, FieldView { content, ..self.field(kind) })
    }

    pub open spec fn with_secrets(self, secrets: Secrets) -> DetailsView {
        DetailsView { secrets, ..self }
    }

    pub open spec fn after_mouse(self, event: MouseEvent) -> DetailsView {
        DetailsView {
            pass_id_field: self.pass_id_field.after_mouse(event),
            lines_field: self.lines_field.after_mouse(event),
            password_field: self.password_field.after_mouse(event),
            otp_field: self.otp_field.after_mouse(event),
            login_field: self.login_field.after_mouse(event),
            ..self
        }
    }

    /// The action of a pointer event: that of the last field, in the order
    /// entry, lines, one-time password, password, login, that answers.
    pub open spec fn on_mouse(self, event: MouseEvent) -> Option<Action> {
        match self.login_field.on_mouse(event) {
            Some(action) => Some(action),
            None => match self.password_field.on_mouse(event) {
                Some(action) => Some(action),
                None => match self.otp_field.on_mouse(event) {
                    Some(action) => Some(action),
                    None => match self.lines_field.on_mouse(event) {
                        Some(action) => Some(action),
                        None => self.pass_id_field.on_mouse(event),
                    },
                },
            },
        }
    }
}

/// A button of the details pane before it is drawn: padded, three rows
/// high, with a key hint and an action.
pub open spec fn pane_button(
    label: Seq<char>,
    key: Seq<char>,
    width: u16,
    action: Action,
) -> ButtonView {
    ButtonView {
        label: label + " "@,
        keyboard_label: key,
        mode: Mode::Padded,
        state: State::Normal,
        dimensions: (width, 3u16),
        inner_area: None,
        mouse_action: Some(action),
    }
}

/// A field of the details pane before it is drawn or filled.
pub open spec fn pane_field(
    title: Seq<char>,
    placeholder: Seq<char>,
    buttons: Seq<ButtonView>,
) -> FieldView {
    FieldView { title, content: None, placeholder, buttons, area: None }
}

/// Builds a button of the details pane.
fn make_pane_button(label: &str, key: &str, width: u16, action: Action) -> (button: Button)
    ensures
        button@ == pane_button(label@, key@, width, action),
{
    Button::new(label).keyboard_label(key).dimensions(width, 3).padded().action_on_click(action)
}

impl PasswordDetails {
    /// An empty pane. Each field has its title and its buttons: copy on the
    /// entry, the password and the login, show-file on the line count, copy
    /// and refresh on the one-time password.
    pub fn new() -> (details: Self)
        ensures
            details@ == DetailsView::initial(),
    {
        let pass_id_field = DetailsField::new("Password file").button(
            make_pane_button("Copy", "(c)", 10, Action::Password(PasswordAction::CopyPassId)),
        );
        let lines_field = DetailsField::new("Number of lines").button(
            make_pane_button("Show file", "(i)", 15, Action::Navigation(NavigationAction::File)),
        );
        let password_field = DetailsField::new("Password").placeholder("********").button(
            make_pane_button("Copy", "(y)", 10, Action::Password(PasswordAction::CopyPassword)),
        );
        let otp_field = DetailsField::new("One-time password (OTP)").placeholder("******").button(
            make_pane_button("Copy", "(x)", 10, Action::Password(PasswordAction::CopyOtp)),
        ).button(make_pane_button("Refresh", "(r)", 13, Action::Password(PasswordAction::FetchOtp)));
        let login_field = DetailsField::new("Login").button(
            make_pane_button("Copy", "(v)", 10, Action::Password(PasswordAction::CopyLogin)),
        );
        proof {
            let initial = DetailsView::initial();
            assert(pass_id_field@.buttons =~= initial.pass_id_field.buttons);
            assert(lines_field@.buttons =~= initial.lines_field.buttons);
            assert(password_field@.buttons =~= initial.password_field.buttons);
            assert(otp_field@.buttons =~= initial.otp_field.buttons);
            assert(login_field@.buttons =~= initial.login_field.buttons);
        }
        PasswordDetails {
            show_secrets: false,
            pass_id: None,
            line_count: None,
            password: None,
            one_time_password: None,
            login: None,
            pass_id_field,
            lines_field,
            password_field,
            otp_field,
            login_field,
            area: None,
        }
    }

    /// Hides and forgets the password, the login and the one-time
    /// password; the entry and the number of lines of its file stay.
    pub fn clear_secrets(&mut self)
        ensures
            final(self)@ == old(self)@.with_secrets(old(self)@.secrets.cleared()),
    {
        self.show_secrets = false;
        self.password = None;
        self.one_time_password = None;
        self.login = None;
    }

    /// Forgets the entry and its secrets.
    pub fn reset(&mut self)
        ensures
            final(self)@ == old(self)@.with_secrets(Secrets::none()),
    {
        self.show_secrets = false;
        self.pass_id = None;
        self.line_count = None;
        self.password = None;
        self.one_time_password = None;
        self.login = None;
    }

    /// Takes in the lines of a decrypted file: the first is the password,
    /// the second the login, and any line that starts with `otpauth://`
    /// puts the placeholder for a one-time password in place. Tells whether
    /// there is such a line.
    pub fn read_lines(&mut self, lines: &Vec<String>) -> (found_otp: bool)
        ensures
            found_otp == has_otp(views(lines@)),
            final(self)@ == old(self)@.with_secrets(
                secrets_from_lines(old(self)@.secrets, views(lines@)),
            ),
    {
        let ghost texts = views(lines@);
        if lines.len() >= 1 {
            self.password = Some(lines[0].clone());
        }
        if lines.len() >= 2 {
            self.login = Some(lines[1].clone());
        }
        let mut found_otp = false;
        let mut i: usize = 0;
        while i < lines.len()
            invariant
                i <= lines.len(),
                texts == views(lines@),
                found_otp == exists|j: int|
                    0 <= j < i && otp_prefix().is_prefix_of(#[trigger] texts[j]),
            decreases lines.len() - i,
        {
            let found = starts_with(lines[i].as_str(), "otpauth://");
            assert(found == otp_prefix().is_prefix_of(texts[i as int]));
            if found {
                found_otp = true;
            }
            i = i + 1;
        }
        self.line_count = Some(lines.len());
        if found_otp {
            let mask = "******".to_owned();
            proof {
                reveal_strlit("******");
                assert(mask@ =~= masked_otp());
            }
            self.one_time_password = Some(mask);
        }
        found_otp
    }

    /// Lets the secrets be shown.
    pub fn show(&mut self)
        ensures
            final(self)@ == old(self)@.with_secrets(
                Secrets { show_secrets: true, ..old(self)@.secrets },
            ),
    {
        self.show_secrets = true;
    }

    /// Sets the entry the pane is about.
    pub fn set_pass_id(&mut self, pass_id: String)
        ensures
            final(self)@ == old(self)@.with_secrets(
                Secrets { pass_id: Some(pass_id@), ..old(self)@.secrets },
            ),
    {
        self.pass_id = Some(pass_id);
    }

    pub fn set_one_time_password(&mut self, one_time_password: String)
        ensures
            final(self)@ == old(self)@.with_secrets(
                Secrets { one_time_password: Some(one_time_password@), ..old(self)@.secrets },
            ),
    {
        self.one_time_password = Some(one_time_password);
    }

    /// Tells whether a field is on show: see [`Secrets::shows`].
    pub fn shows(&self, kind: FieldKind) -> (shown: bool)
        ensures
            shown == self@.secrets.shows(kind),
    {
        match kind {
            FieldKind::PassId => self.pass_id.is_some(),
            FieldKind::Lines => self.line_count.is_some() && self.show_secrets,
            FieldKind::Password => self.pass_id.is_some(),
            FieldKind::Otp => self.one_time_password.is_some() && self.show_secrets,
            FieldKind::Login => self.login.is_some() && self.show_secrets,
        }
    }

    /// The text that a field shows in place of its placeholder: see
    /// [`Secrets::text`].
    pub fn text(&self, kind: FieldKind) -> (text: Option<&String>)
        ensures
            match text {
                Some(text) => self@.secrets.text(kind) == Some(text@),
                None => self@.secrets.text(kind) is None,
            },
    {
        let value = match kind {
            FieldKind::PassId => &self.pass_id,
            FieldKind::Lines => {
                return None;
            },
            FieldKind::Password => {
                if !self.show_secrets {
                    return None;
                }
                &self.password
            },
            FieldKind::Otp => &self.one_time_password,
            FieldKind::Login => &self.login,
        };
        match value {
            Some(text) => Some(text),
            None => None,
        }
    }

    /// The number of fields that the column of secrets makes room for: see
    /// [`Secrets::slots`].
    pub fn slots(&self) -> (slots: usize)
        ensures
            slots == self@.secrets.slots(),
    {
        let mut slots: usize = 1;
        if self.one_time_password.is_some() {
            slots = slots + 1;
        }
        if self.login.is_some() {
            slots = slots + 1;
        }
        slots
    }

    pub fn show_secrets(&self) -> (show_secrets: bool)
        ensures
            show_secrets == self@.secrets.show_secrets,
    {
        self.show_secrets
    }

    pub fn pass_id(&self) -> (pass_id: &Option<String>)
        ensures
            text_of(*pass_id) == self@.secrets.pass_id,
    {
        &self.pass_id
    }

    pub fn line_count(&self) -> (line_count: Option<usize>)
        ensures
            line_count == self@.secrets.line_count,
    {
        self.line_count
    }

    pub fn password(&self) -> (password: &Option<String>)
        ensures
            text_of(*password) == self@.secrets.password,
    {
        &self.password
    }

    pub fn one_time_password(&self) -> (one_time_password: &Option<String>)
        ensures
            text_of(*one_time_password) == self@.secrets.one_time_password,
    {
        &self.one_time_password
    }

    pub fn login(&self) -> (login: &Option<String>)
        ensures
            text_of(*login) == self@.secrets.login,
    {
        &self.login
    }

    /// Records the rectangle the pane was drawn in.
    pub fn place(&mut self, area: Rect)
        ensures
            final(self)@ == (DetailsView { area: Some(area), ..old(self)@ }),
    {
        self.area = Some(area);
    }

    /// Records the rectangle one of the fields was drawn in; with two rows
    /// or more the buttons of the field are put in place. Returns the
    /// columns left of the buttons.
    pub fn place_field(&mut self, kind: FieldKind, area: Rect) -> (room: u16)
        requires
            old(self)@.field(kind).fits_in(area),
        ensures
            final(self)@ == old(self)@.with_field(kind, old(self)@.field(kind).place(area)),
            room == old(self)@.field(kind).room(area),
    {
        match kind {
            FieldKind::PassId => self.pass_id_field.place(area),
            FieldKind::Lines => self.lines_field.place(area),
            FieldKind::Password => self.password_field.place(area),
            FieldKind::Otp => self.otp_field.place(area),
            FieldKind::Login => self.login_field.place(area),
        }
    }

    /// Sets or clears what one of the fields shows.
    pub fn show_in_field(&mut self, kind: FieldKind, content: Option<&str>)
        ensures
            final(self)@ == old(self)@.with_content(
                kind,
                match content {
                    Some(text) => Some(text@),
                    None => None,
                },
            ),
    {
        match content {
            Some(text) => match kind {
                FieldKind::PassId => self.pass_id_field.set_content(text),
                FieldKind::Lines => self.lines_field.set_content(text),
                FieldKind::Password => self.password_field.set_content(text),
                FieldKind::Otp => self.otp_field.set_content(text),
                FieldKind::Login => self.login_field.set_content(text),
            },
            None => match kind {
                FieldKind::PassId => self.pass_id_field.reset_content(),
                FieldKind::Lines => self.lines_field.reset_content(),
                FieldKind::Password => self.password_field.reset_content(),
                FieldKind::Otp => self.otp_field.reset_content(),
                FieldKind::Login => self.login_field.reset_content(),
            },
        }
    }

    /// One of the fields.
    pub fn field(&self, kind: FieldKind) -> (field: &DetailsField)
        ensures
            field@ == self@.field(kind),
    {
        match kind {
            FieldKind::PassId => &self.pass_id_field,
            FieldKind::Lines => &self.lines_field,
            FieldKind::Password => &self.password_field,
            FieldKind::Otp => &self.otp_field,
            FieldKind::Login => &self.login_field,
        }
    }
}

impl MouseSupport for PasswordDetails {
    fn handle_mouse_event(&mut self, event: MouseEvent) -> (action: Option<Action>)
        ensures
            final(self)@ == old(self)@.after_mouse(event),
            action == old(self)@.on_mouse(event),
    {
        let mut action: Option<Action> = None;
        if let Some(latest_action) = self.pass_id_field.handle_mouse_event(event) {
            action = Some(latest_action);
        }
        if let Some(latest_action) = self.lines_field.handle_mouse_event(event) {
            action = Some(latest_action);
        }
        if let Some(latest_action) = self.otp_field.handle_mouse_event(event) {
            action = Some(latest_action);
        }
        if let Some(latest_action) = self.password_field.handle_mouse_event(event) {
            action = Some(latest_action);
        }
        if let Some(latest_action) = self.login_field.handle_mouse_event(event) {
            action = Some(latest_action);
        }
        action
    }

    fn get_area(&self) -> (area: Option<Rect>)
        ensures
            area == self@.area,
    {
        self.area
    }
}

} // verus!
