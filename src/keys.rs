//! Keys on each screen: the dashboard's pages and selections, the welcome
//! screen, the login form, the main menu and the informational screens.

use vstd::prelude::*;
use crate::state::{AppState, Notice, Page, following_job_filter, following_step_filter, moved, next_job_filter, next_step_filter, page_after, page_before};
use crate::text::trim;
use crate::session::{App, InputField, KeyCode, KeyPress, LoginForm, MENU_ITEMS, ModalAction, QuickAction, Screen, WELCOME_ITEMS};
use crate::plan::{Followup, ProtocolVerb, Request, Success, Task, refresh_tasks};
use crate::forms::{field_text, optional, optional_text};
use crate::actions::{delete_confirm_opened, opened_form, palette_opened, queued_if, quick_call};
use crate::modal::{edit_field, modal_key_effect, typed, wrapped};

verus! {

/// The lists whose contents depend on the selection that moves on `page`:
/// they are fetched again after the move.
pub open spec fn cascade_tasks(page: Page) -> Seq<Task> {
    match page {
        Page::Dashboard | Page::Projects => seq![
            Task::LoadProtocols,
            Task::LoadSteps,
            Task::LoadEvents,
            Task::LoadBranches,
        ],
        Page::Protocols => seq![Task::LoadSteps, Task::LoadEvents],
        Page::Steps => seq![Task::LoadEvents],
        _ => seq![],
    }
}

/// The state after the selection of the list that `page` shows moved by
/// `delta`. On the queue page the branch selection moves, if there is one.
pub open spec fn moved_on_page(st: AppState, delta: int) -> AppState {
    match st.page {
        Page::Dashboard | Page::Projects => AppState {
            project_index: moved(st.project_index, st.projects@.len(), delta),
            ..st
        },
        Page::Protocols => AppState {
            protocol_index: moved(st.protocol_index, st.protocols@.len(), delta),
            ..st
        },
        Page::Steps => AppState { step_index: moved(st.step_index, st.steps@.len(), delta), ..st },
        Page::Events => AppState { event_index: moved(st.event_index, st.events@.len(), delta), ..st },
        Page::Queues => match st.branch_index {
            Some(_) => AppState {
                branch_index: moved(st.branch_index, st.branches@.len(), delta),
                ..st
            },
            None => st,
        },
        Page::Settings => st,
    }
}

/// `b` is `a` with `extra` queued after the pending tasks.
pub open spec fn extended(a: App, b: App, extra: Seq<Task>) -> bool {
    &&& b == (App { plan: b.plan, ..a })
    &&& b.plan@ == a.plan@ + extra
}

/// `b` is `a` after its selection moved by `delta` and the lists that
/// depend on it were queued for fetching.
pub open spec fn selection_moved(a: App, delta: int, b: App) -> bool {
    &&& b == (App { state: moved_on_page(a.state, delta), plan: b.plan, ..a })
    &&& b.plan@ == a.plan@ + cascade_tasks(a.state.page)
}

/// `b` is `a` after the step filter moved on; only the steps are fetched again.
pub open spec fn step_filter_cycled(a: App, b: App) -> bool {
    let f = following_step_filter(a.state.step_filter);
    &&& b == (App {
        state: AppState { step_filter: f, status: Notice::StepFilter { step_filter: f }, ..a.state },
        plan: b.plan,
        ..a
    })
    &&& b.plan@ == a.plan@.push(Task::LoadSteps)
}

/// `b` is `a` after the job filter moved on; only the queue is fetched again.
pub open spec fn job_filter_cycled(a: App, b: App) -> bool {
    let f = following_job_filter(a.state.job_status_filter);
    &&& b == (App {
        state: AppState {
            job_status_filter: f,
            status: Notice::JobFilter { job_filter: f },
            ..a.state
        },
        plan: b.plan,
        ..a
    })
    &&& b.plan@ == a.plan@ + seq![Task::LoadQueueStats, Task::LoadQueueJobs]
}

/// `b` is `a` on the dashboard, with a full refresh queued.
pub open spec fn entered_dashboard(a: App, page: Page, b: App) -> bool {
    &&& b == (App {
        screen: Screen::Dashboard,
        state: AppState { page, ..a.state },
        plan: b.plan,
        ..a
    })
    &&& b.plan@ == a.plan@ + refresh_tasks()
}

pub open spec fn page_of_digit(c: char) -> Option<Page> {
    if c == '1' { Some(Page::Dashboard) }
    else if c == '2' { Some(Page::Projects) }
    else if c == '3' { Some(Page::Protocols) }
    else if c == '4' { Some(Page::Steps) }
    else if c == '5' { Some(Page::Events) }
    else if c == '6' { Some(Page::Queues) }
    else if c == '7' { Some(Page::Settings) }
    else { None }
}

/// `b` is `a` showing `page`.
pub open spec fn on_page(a: App, page: Page, b: App) -> bool {
    b == (App { state: AppState { page, ..a.state }, ..a })
}

/// The keys that end the session from the dashboard.
pub open spec fn dashboard_quits(key: KeyPress) -> bool {
    (key.ctrl && key.code == KeyCode::Char('c')) || key.code == KeyCode::Char('q')
}

/// `b` is `a` after a key that does not quit went to the dashboard.
pub open spec fn dashboard_key(a: App, key: KeyPress, b: App) -> bool {
    match key.code {
        KeyCode::Char(c) => if c == 'r' && !key.shift {
            extended(a, b, if a.screen == Screen::Dashboard { refresh_tasks() } else { seq![] })
        } else if c == 'm' {
            b == (App { screen: Screen::Menu, menu_index: 0, ..a })
        } else if c == 'h' || c == '?' {
            b == (App { state: AppState { status: Notice::KeyHelp, ..a.state }, ..a })
        } else if c == 'g' {
            opened_form(a, ModalAction::CreateProject, b)
        } else if c == 'R' {
            opened_form(a, ModalAction::CreateProtocol, b)
        } else if c == 'c' {
            opened_form(a, ModalAction::TokenConfig, b)
        } else if c == 'i' {
            opened_form(a, ModalAction::ImportCodeMachine, b)
        } else if c == 'A' {
            opened_form(a, ModalAction::SpecAudit, b)
        } else if c == 'w' {
            b == (App { screen: Screen::Welcome, welcome_index: 0, ..a })
        } else if c == 'b' {
            extended(a, b, seq![Task::LoadBranches])
        } else if c == 'd' {
            delete_confirm_opened(a, b)
        } else if c == 'J' {
            job_filter_cycled(a, b)
        } else if page_of_digit(c) is Some {
            on_page(a, page_of_digit(c)->0, b)
        } else if c == 'j' {
            selection_moved(a, 1, b)
        } else if c == 'k' {
            selection_moved(a, -1, b)
        } else if c == '[' {
            b == (App { state: AppState {
                branch_index: moved(a.state.branch_index, a.state.branches@.len(), -1),
                ..a.state
            }, ..a })
        } else if c == ']' {
            b == (App { state: AppState {
                branch_index: moved(a.state.branch_index, a.state.branches@.len(), 1),
                ..a.state
            }, ..a })
        } else if c == 'f' {
            step_filter_cycled(a, b)
        } else if c == 'n' {
            queued_if(a, b, quick_call(a.state, QuickAction::RunNext))
        } else if c == 't' {
            queued_if(a, b, quick_call(a.state, QuickAction::RetryLatest))
        } else if c == 'y' {
            queued_if(a, b, quick_call(a.state, QuickAction::RunQa))
        } else if c == 'a' {
            queued_if(a, b, quick_call(a.state, QuickAction::Approve))
        } else if c == 'o' {
            queued_if(a, b, quick_call(a.state, QuickAction::OpenPr))
        } else if c == 's' {
            queued_if(a, b, quick_call(a.state, QuickAction::StartProtocol))
        } else if c == 'p' {
            queued_if(a, b, quick_call(a.state, QuickAction::PauseProtocol))
        } else if c == 'e' {
            queued_if(a, b, quick_call(a.state, QuickAction::ResumeProtocol))
        } else if c == 'x' {
            queued_if(a, b, quick_call(a.state, QuickAction::CancelProtocol))
        } else {
            b == a
        },
        KeyCode::Enter => palette_opened(a, b),
        KeyCode::Tab | KeyCode::Right => on_page(a, page_after(a.state.page), b),
        KeyCode::BackTab | KeyCode::Left => on_page(a, page_before(a.state.page), b),
        KeyCode::Down => selection_moved(a, 1, b),
        KeyCode::Up => selection_moved(a, -1, b),
        _ => b == a,
    }
}

impl App {
    /// Moves the selection that the current page shows one place down.
    pub fn handle_down(&mut self)
        ensures
            *final(self) == (App { state: moved_on_page(old(self).state, 1), ..*old(self) }),
    {
        match self.state.page {
            Page::Dashboard | Page::Projects => self.state.select_project(1),
            Page::Protocols => self.state.select_protocol(1),
            Page::Steps => self.state.select_step(1),
            Page::Events => self.state.select_event(1),
            Page::Queues => {
                if self.state.branch_index.is_some() {
                    self.state.select_branch(1);
                }
            },
            Page::Settings => {},
        }
    }

    /// Moves the selection that the current page shows one place up.
    pub fn handle_up(&mut self)
        ensures
            *final(self) == (App { state: moved_on_page(old(self).state, -1), ..*old(self) }),
    {
        match self.state.page {
            Page::Dashboard | Page::Projects => self.state.select_project(-1),
            Page::Protocols => self.state.select_protocol(-1),
            Page::Steps => self.state.select_step(-1),
            Page::Events => self.state.select_event(-1),
            Page::Queues => {
                if self.state.branch_index.is_some() {
                    self.state.select_branch(-1);
                }
            },
            Page::Settings => {},
        }
    }

    /// Queues the fetches of the lists below the selection of the current page.
    pub fn refresh_selection(&mut self)
        ensures
            extended(*old(self), *final(self), cascade_tasks(old(self).state.page)),
    {
        match self.state.page {
            Page::Dashboard | Page::Projects => {
                self.plan.push(Task::LoadProtocols);
                self.plan.push(Task::LoadSteps);
                self.plan.push(Task::LoadEvents);
                self.plan.push(Task::LoadBranches);
            },
            Page::Protocols => {
                self.plan.push(Task::LoadSteps);
                self.plan.push(Task::LoadEvents);
            },
            Page::Steps => {
                self.plan.push(Task::LoadEvents);
            },
            _ => {},
        }
        proof {
            assert(final(self).plan@ =~= old(self).plan@ + cascade_tasks(old(self).state.page));
        }
    }

    pub(crate) fn move_and_cascade(&mut self, down: bool)
        ensures
            selection_moved(*old(self), if down { 1 } else { -1 }, *final(self)),
    {
        if down {
            self.handle_down();
        } else {
            self.handle_up();
        }
        self.refresh_selection();
    }

    /// Moves the step filter on and fetches the steps again.
    pub fn cycle_step_filter(&mut self)
        ensures
            step_filter_cycled(*old(self), *final(self)),
    {
        let next = next_step_filter(self.state.step_filter);
        self.state.step_filter = next;
        self.state.status = Notice::StepFilter { step_filter: next };
        self.plan.push(Task::LoadSteps);
    }

    /// Moves the job filter on and fetches the queue again.
    pub fn cycle_job_filter(&mut self)
        ensures
            job_filter_cycled(*old(self), *final(self)),
    {
        let next = next_job_filter(self.state.job_status_filter);
        self.state.job_status_filter = next;
        self.state.status = Notice::JobFilter { job_filter: next };
        self.plan.push(Task::LoadQueueStats);
        self.plan.push(Task::LoadQueueJobs);
        proof {
            assert(final(self).plan@ =~= old(self).plan@ + seq![Task::LoadQueueStats, Task::LoadQueueJobs]);
        }
    }

    /// A key on the dashboard; returns whether it ends the session.
    pub fn handle_key(&mut self, key: KeyPress) -> (quit: bool)
        requires
            old(self).wf(),
        ensures
            final(self).wf(),
            quit == dashboard_quits(key),
            quit ==> *final(self) == *old(self),
            !quit ==> dashboard_key(*old(self), key, *final(self)),
    {
        if key.ctrl && key.code == KeyCode::Char('c') {
            return true;
        }
        match key.code {
            KeyCode::Char('q') => return true,
            KeyCode::Char('r') if !key.shift => self.refresh_all(),
            KeyCode::Char('m') => {
                self.screen = Screen::Menu;
                self.menu_index = 0;
            },
            KeyCode::Char('h') | KeyCode::Char('?') => self.state.status = Notice::KeyHelp,
            KeyCode::Char('g') => self.open_project_modal(),
            KeyCode::Char('R') => self.open_protocol_modal(),
            KeyCode::Char('c') => self.open_token_modal(),
            KeyCode::Char('i') => self.open_cm_modal(),
            KeyCode::Char('A') => self.open_spec_audit_modal(),
            KeyCode::Char('w') => {
                self.screen = Screen::Welcome;
                self.welcome_index = 0;
            },
            KeyCode::Enter => self.open_action_palette(),
            KeyCode::Char('b') => {
                self.plan.push(Task::LoadBranches);
                proof {
                    assert(final(self).plan@ =~= old(self).plan@ + seq![Task::LoadBranches]);
                }
            },
            KeyCode::Char('d') => self.open_delete_branch_modal(),
            KeyCode::Char('J') => self.cycle_job_filter(),
            KeyCode::Tab | KeyCode::Right => self.state.page = self.state.page.next(),
            KeyCode::BackTab | KeyCode::Left => self.state.page = self.state.page.prev(),
            KeyCode::Char('1') => self.state.page = Page::Dashboard,
            KeyCode::Char('2') => self.state.page = Page::Projects,
            KeyCode::Char('3') => self.state.page = Page::Protocols,
            KeyCode::Char('4') => self.state.page = Page::Steps,
            KeyCode::Char('5') => self.state.page = Page::Events,
            KeyCode::Char('6') => self.state.page = Page::Queues,
            KeyCode::Char('7') => self.state.page = Page::Settings,
            KeyCode::Down | KeyCode::Char('j') => self.move_and_cascade(true),
            KeyCode::Up | KeyCode::Char('k') => self.move_and_cascade(false),
            KeyCode::Char('[') => self.state.select_branch(-1),
            KeyCode::Char(']') => self.state.select_branch(1),
            KeyCode::Char('f') => self.cycle_step_filter(),
            KeyCode::Char('n') => self.run_next(),
            KeyCode::Char('t') => self.retry_latest(),
            KeyCode::Char('y') => self.run_qa_latest(),
            KeyCode::Char('a') => self.approve_latest(),
            KeyCode::Char('o') => self.open_pr(),
            KeyCode::Char('s') => self.protocol_action(ProtocolVerb::Start),
            KeyCode::Char('p') => self.protocol_action(ProtocolVerb::Pause),
            KeyCode::Char('e') => self.protocol_action(ProtocolVerb::Resume),
            KeyCode::Char('x') => self.protocol_action(ProtocolVerb::Cancel),
            _ => {},
        }
        false
    }
}

/// The welcome entry that a digit key picks.
pub open spec fn welcome_digit(c: char) -> Option<usize> {
    if c == '1' { Some(0usize) }
    else if c == '2' { Some(1usize) }
    else if c == '3' { Some(2usize) }
    else if c == '4' { Some(3usize) }
    else if c == '5' { Some(4usize) }
    else { None }
}

/// The keys that end the session from the welcome screen.
pub open spec fn welcome_quits(a: App, key: KeyPress) -> bool {
    key.code == KeyCode::Esc || key.code == KeyCode::Char('q')
        || (key.code == KeyCode::Enter && a.welcome_index == 4)
}

/// `b` is `a` after a key went to the welcome screen.
pub open spec fn welcome_key(a: App, key: KeyPress, b: App) -> bool {
    let code = key.code;
    if code == KeyCode::Up || code == KeyCode::Char('k') || code == KeyCode::BackTab {
        b == (App { welcome_index: wrapped(a.welcome_index, WELCOME_ITEMS as nat, false), ..a })
    } else if code == KeyCode::Down || code == KeyCode::Char('j') || code == KeyCode::Tab {
        b == (App { welcome_index: wrapped(a.welcome_index, WELCOME_ITEMS as nat, true), ..a })
    } else if code is Char && welcome_digit(code->Char_0) is Some {
        b == (App { welcome_index: welcome_digit(code->Char_0)->0, ..a })
    } else if code == KeyCode::Enter {
        if a.welcome_index == 0 {
            if a.auto_login {
                entered_dashboard(a, a.state.page, b)
            } else {
                b == (App { screen: Screen::Login, ..a })
            }
        } else if a.welcome_index == 1 {
            b == (App { screen: Screen::SettingsInfo, ..a })
        } else if a.welcome_index == 2 {
            b == (App { screen: Screen::Help, ..a })
        } else if a.welcome_index == 3 {
            b == (App { screen: Screen::Version, ..a })
        } else {
            b == a
        }
    } else {
        b == a
    }
}

/// The call that binds the gateway anew from three trimmed values.
pub open spec fn connect_call(fields: Seq<InputField>, t: Task) -> bool {
    match t {
        Task::Call {
            request: Some(Request::Connect { api_base, token, project_token }),
            success: Success::Say(Notice::Connected { api_base: shown }),
            then: Followup::Nothing,
        } => api_base@ == field_text(fields, 0) && shown@ == field_text(fields, 0)
            && optional_text(token, field_text(fields, 1))
            && optional_text(project_token, field_text(fields, 2)),
        _ => false,
    }
}

/// `b` is `a` after a key went to the login screen (Esc ends the session).
pub open spec fn login_key(a: App, key: KeyPress, b: App) -> bool {
    let code = key.code;
    let form = a.login_form;
    if code == KeyCode::Tab {
        b == (App { login_form: LoginForm { focus: wrapped(form.focus, 3, true), ..form }, ..a })
    } else if code == KeyCode::BackTab {
        b == (App { login_form: LoginForm { focus: wrapped(form.focus, 3, false), ..form }, ..a })
    } else if code == KeyCode::Enter {
        if field_text(form.fields@, 0).len() == 0 {
            b == (App { state: AppState { status: Notice::ApiBaseRequired, ..a.state }, ..a })
        } else {
            &&& b == (App {
                screen: Screen::Menu,
                menu_index: 0,
                api_base: b.api_base,
                plan: b.plan,
                ..a
            })
            &&& b.api_base@ == field_text(form.fields@, 0)
            &&& b.plan@.len() == a.plan@.len() + 1
            &&& b.plan@.drop_last() == a.plan@
            &&& connect_call(form.fields@, b.plan@.last())
        }
    } else if code == KeyCode::Backspace || code is Char {
        &&& b == (App { login_form: b.login_form, ..a })
        &&& b.login_form.focus == form.focus
        &&& typed(form.fields@, form.focus as int,
            match code { KeyCode::Char(ch) => Some(ch), _ => None }, b.login_form.fields@)
    } else {
        b == a
    }
}

/// The keys that end the session from the main menu.
pub open spec fn menu_quits(a: App, key: KeyPress) -> bool {
    key.code == KeyCode::Char('3') || key.code == KeyCode::Char('q')
        || (key.code == KeyCode::Enter && a.menu_index == 2)
}

/// `b` is `a` after a key went to the main menu.
pub open spec fn menu_key(a: App, key: KeyPress, b: App) -> bool {
    let code = key.code;
    if code == KeyCode::Up || code == KeyCode::BackTab || code == KeyCode::Char('k') {
        b == (App { menu_index: wrapped(a.menu_index, MENU_ITEMS as nat, false), ..a })
    } else if code == KeyCode::Down || code == KeyCode::Tab || code == KeyCode::Char('j') {
        b == (App { menu_index: wrapped(a.menu_index, MENU_ITEMS as nat, true), ..a })
    } else if code == KeyCode::Char('1') || (code == KeyCode::Enter && a.menu_index == 0) {
        entered_dashboard(App { menu_index: 0, ..a }, a.state.page, b)
    } else if code == KeyCode::Char('2') || (code == KeyCode::Enter && a.menu_index == 1) {
        opened_form(App { menu_index: 1, ..a }, ModalAction::TokenConfig, b)
    } else if code == KeyCode::Esc {
        b == (App { screen: Screen::Login, ..a })
    } else {
        b == a
    }
}

/// `b` is `a` after a key went to one of the informational screens.
pub open spec fn info_key(a: App, key: KeyPress, b: App) -> bool {
    let code = key.code;
    let to_welcome = code == KeyCode::Esc || code == KeyCode::Char('q') || code == KeyCode::Char('w');
    if to_welcome {
        b == (App { screen: Screen::Welcome, ..a })
    } else if code == KeyCode::Char('m') {
        b == (App { screen: Screen::Menu, menu_index: 0, ..a })
    } else if a.screen == Screen::SettingsInfo && code == KeyCode::Char('c') {
        opened_form(a, ModalAction::TokenConfig, b)
    } else if a.screen == Screen::SettingsInfo && code == KeyCode::Enter {
        entered_dashboard(a, Page::Settings, b)
    } else if a.screen == Screen::Help && code == KeyCode::Enter {
        entered_dashboard(a, a.state.page, b)
    } else {
        b == a
    }
}

impl App {
    pub(crate) fn enter_dashboard(&mut self)
        ensures
            entered_dashboard(*old(self), old(self).state.page, *final(self)),
    {
        self.screen = Screen::Dashboard;
        self.refresh_all();
    }

    /// A key on the welcome screen; returns whether it ends the session.
    pub fn handle_welcome_key(&mut self, key: KeyPress) -> (quit: bool)
        requires
            old(self).wf(),
        ensures
            final(self).wf(),
            quit == welcome_quits(*old(self), key),
            quit ==> *final(self) == *old(self),
            !quit ==> welcome_key(*old(self), key, *final(self)),
    {
        match key.code {
            KeyCode::Up | KeyCode::Char('k') | KeyCode::BackTab => {
                if self.welcome_index == 0 {
                    self.welcome_index = WELCOME_ITEMS - 1;
                } else {
                    self.welcome_index = self.welcome_index - 1;
                }
            },
            KeyCode::Down | KeyCode::Char('j') | KeyCode::Tab => {
                self.welcome_index = if self.welcome_index + 1 < WELCOME_ITEMS {
                    self.welcome_index + 1
                } else {
                    0
                };
            },
            KeyCode::Char('1') => self.welcome_index = 0,
            KeyCode::Char('2') => self.welcome_index = 1,
            KeyCode::Char('3') => self.welcome_index = 2,
            KeyCode::Char('4') => self.welcome_index = 3,
            KeyCode::Char('5') => self.welcome_index = 4,
            KeyCode::Enter => {
                if self.welcome_index == 0 {
                    if self.auto_login {
                        self.enter_dashboard();
                    } else {
                        self.screen = Screen::Login;
                    }
                } else if self.welcome_index == 1 {
                    self.screen = Screen::SettingsInfo;
                } else if self.welcome_index == 2 {
                    self.screen = Screen::Help;
                } else if self.welcome_index == 3 {
                    self.screen = Screen::Version;
                } else {
                    return true;
                }
            },
            KeyCode::Esc | KeyCode::Char('q') => return true,
            _ => {},
        }
        false
    }

    pub(crate) fn edit_login(&mut self, c: Option<char>)
        ensures
            *final(self) == (App { login_form: final(self).login_form, ..*old(self) }),
            final(self).login_form.focus == old(self).login_form.focus,
            typed(old(self).login_form.fields@, old(self).login_form.focus as int, c,
                final(self).login_form.fields@),
    {
        let focus = self.login_form.focus;
        edit_field(&mut self.login_form.fields, focus, c);
    }

    /// A key on the login screen; returns whether it ends the session (Esc).
    pub fn handle_login_key(&mut self, key: KeyPress) -> (quit: bool)
        requires
            old(self).wf(),
        ensures
            final(self).wf(),
            quit == (key.code == KeyCode::Esc),
            quit ==> *final(self) == *old(self),
            !quit ==> login_key(*old(self), key, *final(self)),
    {
        match key.code {
            KeyCode::Tab => {
                self.login_form.focus = if self.login_form.focus + 1 < 3 {
                    self.login_form.focus + 1
                } else {
                    0
                };
            },
            KeyCode::BackTab => {
                if self.login_form.focus == 0 {
                    self.login_form.focus = 2;
                } else {
                    self.login_form.focus = self.login_form.focus - 1;
                }
            },
            KeyCode::Enter => {
                let base = trim(self.login_form.fields[0].value.as_str());
                if base.as_str().unicode_len() == 0 {
                    self.state.status = Notice::ApiBaseRequired;
                    return false;
                }
                let token = optional(trim(self.login_form.fields[1].value.as_str()));
                let project_token = optional(trim(self.login_form.fields[2].value.as_str()));
                let shown = base.clone();
                self.api_base = base.clone();
                self.queue(Task::Call {
                    request: Some(Request::Connect { api_base: base, token, project_token }),
                    success: Success::Say(Notice::Connected { api_base: shown }),
                    then: Followup::Nothing,
                });
                self.screen = Screen::Menu;
                self.menu_index = 0;
            },
            KeyCode::Esc => return true,
            KeyCode::Backspace => self.edit_login(None),
            KeyCode::Char(c) => self.edit_login(Some(c)),
            _ => {},
        }
        false
    }

    /// A key on the main menu; returns whether it ends the session.
    pub fn handle_menu_key(&mut self, key: KeyPress) -> (quit: bool)
        requires
            old(self).wf(),
        ensures
            final(self).wf(),
            quit == menu_quits(*old(self), key),
            quit ==> *final(self) == *old(self),
            !quit ==> menu_key(*old(self), key, *final(self)),
    {
        match key.code {
            KeyCode::Up | KeyCode::BackTab | KeyCode::Char('k') => {
                if self.menu_index == 0 {
                    self.menu_index = MENU_ITEMS - 1;
                } else {
                    self.menu_index = self.menu_index - 1;
                }
            },
            KeyCode::Down | KeyCode::Tab | KeyCode::Char('j') => {
                self.menu_index = if self.menu_index + 1 < MENU_ITEMS {
                    self.menu_index + 1
                } else {
                    0
                };
            },
            KeyCode::Char('1') => {
                self.menu_index = 0;
                self.enter_dashboard();
            },
            KeyCode::Char('2') => {
                self.menu_index = 1;
                self.open_token_modal();
            },
            KeyCode::Char('3') | KeyCode::Char('q') => return true,
            KeyCode::Enter => {
                if self.menu_index == 0 {
                    self.enter_dashboard();
                } else if self.menu_index == 1 {
                    self.open_token_modal();
                } else {
                    return true;
                }
            },
            KeyCode::Esc => self.screen = Screen::Login,
            _ => {},
        }
        false
    }

    /// A key on the settings, help or version screen. These never end the session.
    pub fn handle_info_key(&mut self, key: KeyPress)
        requires
            old(self).wf(),
        ensures
            final(self).wf(),
            info_key(*old(self), key, *final(self)),
    {
        match key.code {
            KeyCode::Esc | KeyCode::Char('q') | KeyCode::Char('w') => self.screen = Screen::Welcome,
            KeyCode::Char('m') => {
                self.screen = Screen::Menu;
                self.menu_index = 0;
            },
            KeyCode::Char('c') => {
                if self.screen == Screen::SettingsInfo {
                    self.open_token_modal();
                }
            },
            KeyCode::Enter => {
                if self.screen == Screen::SettingsInfo {
                    self.state.page = Page::Settings;
                    self.enter_dashboard();
                } else if self.screen == Screen::Help {
                    self.enter_dashboard();
                }
            },
            _ => {},
        }
    }

    /// Routes a key: to the open modal if there is one, else to the current
    /// screen. Returns whether the session ends.
    pub fn handle_event(&mut self, key: KeyPress) -> (quit: bool)
        requires
            old(self).wf(),
        ensures
            final(self).wf(),
            old(self).modal is Some ==> !quit && modal_key_effect(*old(self), key, *final(self)),
            old(self).modal is None ==> match old(self).screen {
                Screen::Welcome => quit == welcome_quits(*old(self), key) && (quit ==> *final(self)
                    == *old(self)) && (!quit ==> welcome_key(*old(self), key, *final(self))),
                Screen::Login => quit == (key.code == KeyCode::Esc) && (quit ==> *final(self)
                    == *old(self)) && (!quit ==> login_key(*old(self), key, *final(self))),
                Screen::Menu => quit == menu_quits(*old(self), key) && (quit ==> *final(self)
                    == *old(self)) && (!quit ==> menu_key(*old(self), key, *final(self))),
                Screen::Dashboard => quit == dashboard_quits(key) && (quit ==> *final(self)
                    == *old(self)) && (!quit ==> dashboard_key(*old(self), key, *final(self))),
                _ => !quit && info_key(*old(self), key, *final(self)),
            },
    {
        if self.handle_modal_key(key) {
            return false;
        }
        match self.screen {
            Screen::Welcome => self.handle_welcome_key(key),
            Screen::Login => self.handle_login_key(key),
            Screen::Menu => self.handle_menu_key(key),
            Screen::Dashboard => self.handle_key(key),
            _ => {
                self.handle_info_key(key);
                false
            },
        }
    }
}

} // verus!
