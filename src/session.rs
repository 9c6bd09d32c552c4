//! The session's screens, modals and keys, and the session itself.

use vstd::prelude::*;
use crate::state::AppState;
use crate::plan::Task;
use crate::actions::{field, field_is};

verus! {

/// The screens of the session.
#[derive(Clone, Copy, Debug, PartialEq, Eq, Structural)]
pub enum Screen {
    Welcome,
    Login,
    Menu,
    SettingsInfo,
    Help,
    Version,
    Dashboard,
}

/// A text field of a form. A secret one is masked when shown.
#[derive(Clone, Debug, PartialEq, Eq)]
pub struct InputField {
    pub label: &'static str,
    pub value: String,
    pub is_secret: bool,
}

/// What a form or a confirmation does when submitted.
#[derive(Clone, Copy, Debug, PartialEq, Eq, Structural)]
pub enum ModalAction {
    CreateProject,
    CreateProtocol,
    SpecAudit,
    ImportCodeMachine,
    TokenConfig,
    DeleteBranch,
}

/// The entries of the quick-action palette.
#[derive(Clone, Copy, Debug, PartialEq, Eq, Structural)]
pub enum QuickAction {
    RunNext,
    RetryLatest,
    RunQa,
    Approve,
    OpenPr,
    StartProtocol,
    PauseProtocol,
    ResumeProtocol,
    CancelProtocol,
    ImportCodeMachine,
    SpecAudit,
    Configure,
    Menu,
}

/// A dialog that owns the keyboard while it is open.
#[derive(Clone, Debug, PartialEq, Eq)]
pub enum Modal {
    Form { title: &'static str, fields: Vec<InputField>, focus: usize, action: ModalAction },
    Confirm { title: &'static str, message: String, action: ModalAction },
    Palette { items: Vec<QuickAction>, index: usize },
    Message(String),
}

/// The login screen's three fields: API base, token, project token.
#[derive(Clone, Debug, PartialEq, Eq)]
pub struct LoginForm {
    pub fields: Vec<InputField>,
    pub focus: usize,
}

/// A key as the terminal reports it.
#[derive(Clone, Copy, Debug, PartialEq, Eq, Structural)]
pub enum KeyCode {
    Char(char),
    Enter,
    Esc,
    Tab,
    BackTab,
    Backspace,
    Up,
    Down,
    Left,
    Right,
    Other,
}

/// A key press with the modifiers that the session reads.
#[derive(Clone, Copy, Debug, PartialEq, Eq, Structural)]
pub struct KeyPress {
    pub code: KeyCode,
    pub ctrl: bool,
    pub shift: bool,
}

/// The number of entries of the welcome menu and of the main menu.
pub const WELCOME_ITEMS: usize = 5;
pub const MENU_ITEMS: usize = 3;

/// The whole state of a session.
pub struct App {
    pub state: AppState,
    /// The address of the gateway that requests go to.
    pub api_base: String,
    pub auto_login: bool,
    pub modal: Option<Modal>,
    pub screen: Screen,
    pub login_form: LoginForm,
    pub menu_index: usize,
    pub welcome_index: usize,
    /// Pending work, first task first.
    pub plan: Vec<Task>,
    /// The task whose request was sent and whose answer has not come yet.
    pub awaiting: Option<Task>,
}

pub open spec fn modal_wf(m: Option<Modal>) -> bool {
    match m {
        Some(Modal::Form { fields, focus, .. }) => focus < fields@.len(),
        Some(Modal::Palette { items, index }) => index < items@.len(),
        _ => true,
    }
}

/// Everything but the cache, the pending work and the awaited task is alike.
pub open spec fn same_frame(a: App, b: App) -> bool {
    &&& a.api_base == b.api_base
    &&& a.auto_login == b.auto_login
    &&& a.modal == b.modal
    &&& a.screen == b.screen
    &&& a.login_form == b.login_form
    &&& a.menu_index == b.menu_index
    &&& a.welcome_index == b.welcome_index
}


impl App {
    /// A session on the welcome screen, with nothing fetched yet. `api_base` is
    /// the gateway's address, the login form's first value.
    pub fn new(api_base: String, auto_login: bool) -> (r: App)
        ensures
            r.wf(),
            !r.busy(),
            r.screen == Screen::Welcome,
            r.modal is None,
            r.auto_login == auto_login,
            r.api_base == api_base,
            r.welcome_index == 0 && r.menu_index == 0,
            r.login_form.focus == 0,
            field_is(r.login_form.fields@[0], "API base"@, api_base@, false),
            field_is(r.login_form.fields@[1], "API token (optional)"@, seq![], true),
            field_is(r.login_form.fields@[2], "Project token (optional)"@, seq![], true),
            r.state.is_initial(),
    {
        let fields = vec![
            field("API base", api_base.clone(), false),
            field("API token (optional)", String::new(), true),
            field("Project token (optional)", String::new(), true),
        ];
        App {
            state: AppState::new(),
            api_base,
            auto_login,
            modal: None,
            screen: Screen::Welcome,
            login_form: LoginForm { fields, focus: 0 },
            menu_index: 0,
            welcome_index: 0,
            plan: Vec::new(),
            awaiting: None,
        }
    }

    pub open spec fn wf(&self) -> bool {
        &&& self.state.wf()
        &&& modal_wf(self.modal)
        &&& self.login_form.fields@.len() == 3
        &&& self.login_form.focus < 3
        &&& self.welcome_index < WELCOME_ITEMS
        &&& self.menu_index < MENU_ITEMS
    }

    /// Whether work is pending: a request awaits its answer, or tasks wait.
    pub open spec fn busy(&self) -> bool {
        self.awaiting is Some || self.plan@.len() > 0
    }
}

/// How the palette shows an entry, with its shortcut key.
pub open spec fn quick_action_text(action: QuickAction) -> Seq<char> {
    match action {
        QuickAction::RunNext => "Run next (n)"@,
        QuickAction::RetryLatest => "Retry latest (t)"@,
        QuickAction::RunQa => "Run QA (y)"@,
        QuickAction::Approve => "Approve (a)"@,
        QuickAction::OpenPr => "Open PR (o)"@,
        QuickAction::StartProtocol => "Start protocol (s)"@,
        QuickAction::PauseProtocol => "Pause protocol (p)"@,
        QuickAction::ResumeProtocol => "Resume protocol (e)"@,
        QuickAction::CancelProtocol => "Cancel protocol (x)"@,
        QuickAction::ImportCodeMachine => "Import CodeMachine (i)"@,
        QuickAction::SpecAudit => "Spec audit (A)"@,
        QuickAction::Configure => "Configure API/token (c)"@,
        QuickAction::Menu => "Main menu (m)"@,
    }
}

pub fn format_quick_action(action: QuickAction) -> (r: String)
    ensures
        r@ == quick_action_text(action),
{
    let text: &str = match action {
        QuickAction::RunNext => "Run next (n)",
        QuickAction::RetryLatest => "Retry latest (t)",
        QuickAction::RunQa => "Run QA (y)",
        QuickAction::Approve => "Approve (a)",
        QuickAction::OpenPr => "Open PR (o)",
        QuickAction::StartProtocol => "Start protocol (s)",
        QuickAction::PauseProtocol => "Pause protocol (p)",
        QuickAction::ResumeProtocol => "Resume protocol (e)",
        QuickAction::CancelProtocol => "Cancel protocol (x)",
        QuickAction::ImportCodeMachine => "Import CodeMachine (i)",
        QuickAction::SpecAudit => "Spec audit (A)",
        QuickAction::Configure => "Configure API/token (c)",
        QuickAction::Menu => "Main menu (m)",
    };
    text.to_owned()
}

} // verus!
