//! Actions on the selected protocol or step, and the dialogs that open on
//! the dashboard.

use vstd::prelude::*;
use crate::state::{AppState, Notice, project_id_at, protocol_id_at};
use crate::text::{decimal, decimal_text};
use crate::session::{App, InputField, Modal, ModalAction, QuickAction, same_frame};
use crate::plan::{Followup, ProtocolVerb, Request, Success, Task};

verus! {

/// An action on the service whose success is told by a fixed notice and
/// followed by a full refresh.
pub open spec fn action_call(request: Request, notice: Notice) -> Task {
    Task::Call { request: Some(request), success: Success::Say(notice), then: Followup::RefreshAll }
}

/// `b` is `a` with `t` queued, or unchanged when there is no `t`.
pub open spec fn queued_if(a: App, b: App, t: Option<Task>) -> bool {
    &&& b.state == a.state
    &&& b.awaiting == a.awaiting
    &&& same_frame(a, b)
    &&& match t {
        Some(t) => b.plan@ == a.plan@.push(t),
        None => b.plan == a.plan,
    }
}

pub open spec fn verb_notice(v: ProtocolVerb) -> Notice {
    match v {
        ProtocolVerb::Start => Notice::PlanningEnqueued,
        ProtocolVerb::Pause => Notice::ProtocolPaused,
        ProtocolVerb::Resume => Notice::ProtocolResumed,
        ProtocolVerb::Cancel => Notice::ProtocolCancelled,
    }
}

/// The id of the newest step, which the step actions act on.
pub open spec fn latest_step_id(st: AppState) -> Option<i64> {
    if st.steps@.len() > 0 {
        Some(st.steps@.last().id)
    } else {
        None
    }
}

/// The call that a quick action on the service queues, if it has what it acts on.
pub open spec fn quick_call(st: AppState, q: QuickAction) -> Option<Task> {
    let protocol = protocol_id_at(st.protocols@, st.protocol_index);
    match q {
        QuickAction::RunNext => match protocol {
            Some(id) => Some(action_call(Request::RunNextStep { protocol_id: id }, Notice::RunNextEnqueued)),
            None => None,
        },
        QuickAction::RetryLatest => match protocol {
            Some(id) => Some(action_call(Request::RetryLatest { protocol_id: id }, Notice::RetryEnqueued)),
            None => None,
        },
        QuickAction::OpenPr => match protocol {
            Some(id) => Some(action_call(Request::OpenPr { protocol_id: id }, Notice::OpenPrEnqueued)),
            None => None,
        },
        QuickAction::RunQa => match latest_step_id(st) {
            Some(id) => Some(action_call(Request::RunQa { step_id: id }, Notice::QaEnqueued)),
            None => None,
        },
        QuickAction::Approve => match latest_step_id(st) {
            Some(id) => Some(action_call(Request::Approve { step_id: id }, Notice::Approved)),
            None => None,
        },
        QuickAction::StartProtocol => verb_call(protocol, ProtocolVerb::Start),
        QuickAction::PauseProtocol => verb_call(protocol, ProtocolVerb::Pause),
        QuickAction::ResumeProtocol => verb_call(protocol, ProtocolVerb::Resume),
        QuickAction::CancelProtocol => verb_call(protocol, ProtocolVerb::Cancel),
        _ => None,
    }
}

pub open spec fn verb_call(protocol: Option<i64>, v: ProtocolVerb) -> Option<Task> {
    match protocol {
        Some(id) => Some(action_call(Request::ProtocolAction { protocol_id: id, verb: v }, verb_notice(v))),
        None => None,
    }
}

/// A field with this label, value and masking.
pub open spec fn field_is(f: InputField, label: Seq<char>, value: Seq<char>, secret: bool) -> bool {
    f.label@ == label && f.value@ == value && f.is_secret == secret
}

/// The decimal text of an optional id, empty when there is none.
pub open spec fn id_text(id: Option<i64>) -> Seq<char> {
    match id {
        Some(i) => decimal(i as int),
        None => seq![],
    }
}

/// The fields with which each form opens, in `a`.
pub open spec fn fresh_fields(a: App, action: ModalAction, fields: Seq<InputField>) -> bool {
    match action {
        ModalAction::CreateProject => fields.len() == 3
            && field_is(fields[0], "Name"@, seq![], false)
            && field_is(fields[1], "Git URL"@, seq![], false)
            && field_is(fields[2], "Base branch"@, "main"@, false),
        ModalAction::CreateProtocol => fields.len() == 3
            && field_is(fields[0], "Protocol name"@, seq![], false)
            && field_is(fields[1], "Base branch"@, "main"@, false)
            && field_is(fields[2], "Description (optional)"@, seq![], false),
        ModalAction::TokenConfig => fields.len() == 3
            && field_is(fields[0], "API base"@, a.api_base@, false)
            && field_is(fields[1], "API token (optional)"@, seq![], true)
            && field_is(fields[2], "Project token (optional)"@, seq![], true),
        ModalAction::SpecAudit => fields.len() == 4
            && field_is(fields[0], "Project ID (optional)"@,
                id_text(project_id_at(a.state.projects@, a.state.project_index)), false)
            && field_is(fields[1], "Protocol ID (optional)"@,
                id_text(protocol_id_at(a.state.protocols@, a.state.protocol_index)), false)
            && field_is(fields[2], "Backfill? (y/N)"@, "y"@, false)
            && field_is(fields[3], "Interval seconds (optional)"@, seq![], false),
        ModalAction::ImportCodeMachine => fields.len() == 5
            && field_is(fields[0], "Protocol name"@, seq![], false)
            && field_is(fields[1], "Workspace path"@, seq![], false)
            && field_is(fields[2], "Base branch"@, "main"@, false)
            && field_is(fields[3], "Description (optional)"@, seq![], false)
            && field_is(fields[4], "Enqueue? (y/N)"@, "y"@, false),
        ModalAction::DeleteBranch => false,
    }
}

pub open spec fn form_title(action: ModalAction) -> Seq<char> {
    match action {
        ModalAction::CreateProject => "Create project"@,
        ModalAction::CreateProtocol => "Create protocol"@,
        ModalAction::TokenConfig => "Configure API/token"@,
        ModalAction::SpecAudit => "Spec audit"@,
        ModalAction::ImportCodeMachine => "Import CodeMachine"@,
        ModalAction::DeleteBranch => "Delete branch"@,
    }
}

/// `b` is `a` with the form of `action` open, its focus on the first field.
pub open spec fn opened_form(a: App, action: ModalAction, b: App) -> bool {
    &&& b == (App { modal: b.modal, ..a })
    &&& match b.modal {
        Some(Modal::Form { title, fields, focus, action: act }) => title@ == form_title(action)
            && focus == 0 && act == action && fresh_fields(a, action, fields@),
        _ => false,
    }
}

/// The entries of the quick-action palette, in their order.
pub open spec fn palette_items() -> Seq<QuickAction> {
    seq![
        QuickAction::RunNext,
        QuickAction::RetryLatest,
        QuickAction::RunQa,
        QuickAction::Approve,
        QuickAction::OpenPr,
        QuickAction::StartProtocol,
        QuickAction::PauseProtocol,
        QuickAction::ResumeProtocol,
        QuickAction::CancelProtocol,
        QuickAction::ImportCodeMachine,
        QuickAction::SpecAudit,
        QuickAction::Configure,
        QuickAction::Menu,
    ]
}

/// The message of the confirmation that deletes a branch.
pub open spec fn delete_branch_question(branch: Seq<char>) -> Seq<char> {
    "Delete remote branch '"@ + branch + "'?"@
}

/// `b` is `a` with the quick-action palette open on its first entry.
pub open spec fn palette_opened(a: App, b: App) -> bool {
    &&& b == (App { modal: b.modal, ..a })
    &&& match b.modal {
        Some(Modal::Palette { items, index }) => items@ == palette_items() && index == 0,
        _ => false,
    }
}

/// `b` is `a` with the confirmation that deletes the selected branch open;
/// without a selected branch, `b` is `a`.
pub open spec fn delete_confirm_opened(a: App, b: App) -> bool {
    &&& b == (App { modal: b.modal, ..a })
    &&& match a.state.branch_index {
        Some(i) if i < a.state.branches@.len() => match b.modal {
            Some(Modal::Confirm { title, message, action }) => title@ == "Delete branch"@
                && message@ == delete_branch_question(a.state.branches@[i as int]@)
                && action == ModalAction::DeleteBranch,
            _ => false,
        },
        _ => b.modal == a.modal,
    }
}

pub(crate) fn field(label: &'static str, value: String, is_secret: bool) -> (r: InputField)
    ensures
        r.label == label && r.value == value && r.is_secret == is_secret,
{
    InputField { label, value, is_secret }
}

fn id_field_text(id: Option<i64>) -> (r: String)
    ensures
        r@ == id_text(id),
{
    match id {
        Some(i) => decimal_text(i),
        None => String::new(),
    }
}

impl App {
    pub(crate) fn queue_if(&mut self, t: Option<Task>)
        ensures
            queued_if(*old(self), *final(self), t),
    {
        match t {
            Some(t) => self.queue(t),
            None => {},
        }
    }

    /// Asks the service to run the next step of the selected protocol.
    pub fn run_next(&mut self)
        ensures
            queued_if(*old(self), *final(self), quick_call(old(self).state, QuickAction::RunNext)),
    {
        let call = match self.state.selected_protocol_id() {
            Some(id) => Some(Task::Call {
                request: Some(Request::RunNextStep { protocol_id: id }),
                success: Success::Say(Notice::RunNextEnqueued),
                then: Followup::RefreshAll,
            }),
            None => None,
        };
        self.queue_if(call);
    }

    /// Asks the service to retry the latest step of the selected protocol.
    pub fn retry_latest(&mut self)
        ensures
            queued_if(*old(self), *final(self), quick_call(old(self).state, QuickAction::RetryLatest)),
    {
        let call = match self.state.selected_protocol_id() {
            Some(id) => Some(Task::Call {
                request: Some(Request::RetryLatest { protocol_id: id }),
                success: Success::Say(Notice::RetryEnqueued),
                then: Followup::RefreshAll,
            }),
            None => None,
        };
        self.queue_if(call);
    }

    /// Asks the service to open a pull request for the selected protocol.
    pub fn open_pr(&mut self)
        ensures
            queued_if(*old(self), *final(self), quick_call(old(self).state, QuickAction::OpenPr)),
    {
        let call = match self.state.selected_protocol_id() {
            Some(id) => Some(Task::Call {
                request: Some(Request::OpenPr { protocol_id: id }),
                success: Success::Say(Notice::OpenPrEnqueued),
                then: Followup::RefreshAll,
            }),
            None => None,
        };
        self.queue_if(call);
    }

    /// Asks the service to run QA on the newest step.
    pub fn run_qa_latest(&mut self)
        ensures
            queued_if(*old(self), *final(self), quick_call(old(self).state, QuickAction::RunQa)),
    {
        let n = self.state.steps.len();
        let call = if n > 0 {
            Some(Task::Call {
                request: Some(Request::RunQa { step_id: self.state.steps[n - 1].id }),
                success: Success::Say(Notice::QaEnqueued),
                then: Followup::RefreshAll,
            })
        } else {
            None
        };
        self.queue_if(call);
    }

    /// Asks the service to approve the newest step.
    pub fn approve_latest(&mut self)
        ensures
            queued_if(*old(self), *final(self), quick_call(old(self).state, QuickAction::Approve)),
    {
        let n = self.state.steps.len();
        let call = if n > 0 {
            Some(Task::Call {
                request: Some(Request::Approve { step_id: self.state.steps[n - 1].id }),
                success: Success::Say(Notice::Approved),
                then: Followup::RefreshAll,
            })
        } else {
            None
        };
        self.queue_if(call);
    }

    /// Asks the service to start, pause, resume or cancel the selected protocol.
    pub fn protocol_action(&mut self, verb: ProtocolVerb)
        ensures
            queued_if(
                *old(self),
                *final(self),
                verb_call(protocol_id_at(old(self).state.protocols@, old(self).state.protocol_index), verb),
            ),
    {
        let notice = match verb {
            ProtocolVerb::Start => Notice::PlanningEnqueued,
            ProtocolVerb::Pause => Notice::ProtocolPaused,
            ProtocolVerb::Resume => Notice::ProtocolResumed,
            ProtocolVerb::Cancel => Notice::ProtocolCancelled,
        };
        let call = match self.state.selected_protocol_id() {
            Some(id) => Some(Task::Call {
                request: Some(Request::ProtocolAction { protocol_id: id, verb }),
                success: Success::Say(notice),
                then: Followup::RefreshAll,
            }),
            None => None,
        };
        self.queue_if(call);
    }

    pub fn open_project_modal(&mut self)
        ensures
            opened_form(*old(self), ModalAction::CreateProject, *final(self)),
    {
        let fields = vec![
            field("Name", String::new(), false),
            field("Git URL", String::new(), false),
            field("Base branch", "main".to_owned(), false),
        ];
        self.modal = Some(Modal::Form {
            title: "Create project",
            fields,
            focus: 0,
            action: ModalAction::CreateProject,
        });
    }

    pub fn open_protocol_modal(&mut self)
        ensures
            opened_form(*old(self), ModalAction::CreateProtocol, *final(self)),
    {
        let fields = vec![
            field("Protocol name", String::new(), false),
            field("Base branch", "main".to_owned(), false),
            field("Description (optional)", String::new(), false),
        ];
        self.modal = Some(Modal::Form {
            title: "Create protocol",
            fields,
            focus: 0,
            action: ModalAction::CreateProtocol,
        });
    }

    pub fn open_token_modal(&mut self)
        ensures
            opened_form(*old(self), ModalAction::TokenConfig, *final(self)),
    {
        let fields = vec![
            field("API base", self.api_base.clone(), false),
            field("API token (optional)", String::new(), true),
            field("Project token (optional)", String::new(), true),
        ];
        self.modal = Some(Modal::Form {
            title: "Configure API/token",
            fields,
            focus: 0,
            action: ModalAction::TokenConfig,
        });
    }

    /// Opens the spec-audit form, its ids filled in from the selection.
    pub fn open_spec_audit_modal(&mut self)
        ensures
            opened_form(*old(self), ModalAction::SpecAudit, *final(self)),
    {
        let project_default = id_field_text(self.state.selected_project_id());
        let protocol_default = id_field_text(self.state.selected_protocol_id());
        let fields = vec![
            field("Project ID (optional)", project_default, false),
            field("Protocol ID (optional)", protocol_default, false),
            field("Backfill? (y/N)", "y".to_owned(), false),
            field("Interval seconds (optional)", String::new(), false),
        ];
        self.modal = Some(Modal::Form {
            title: "Spec audit",
            fields,
            focus: 0,
            action: ModalAction::SpecAudit,
        });
    }

    pub fn open_cm_modal(&mut self)
        ensures
            opened_form(*old(self), ModalAction::ImportCodeMachine, *final(self)),
    {
        let fields = vec![
            field("Protocol name", String::new(), false),
            field("Workspace path", String::new(), false),
            field("Base branch", "main".to_owned(), false),
            field("Description (optional)", String::new(), false),
            field("Enqueue? (y/N)", "y".to_owned(), false),
        ];
        self.modal = Some(Modal::Form {
            title: "Import CodeMachine",
            fields,
            focus: 0,
            action: ModalAction::ImportCodeMachine,
        });
    }

    pub fn open_action_palette(&mut self)
        ensures
            palette_opened(*old(self), *final(self)),
    {
        let items = vec![
            QuickAction::RunNext,
            QuickAction::RetryLatest,
            QuickAction::RunQa,
            QuickAction::Approve,
            QuickAction::OpenPr,
            QuickAction::StartProtocol,
            QuickAction::PauseProtocol,
            QuickAction::ResumeProtocol,
            QuickAction::CancelProtocol,
            QuickAction::ImportCodeMachine,
            QuickAction::SpecAudit,
            QuickAction::Configure,
            QuickAction::Menu,
        ];
        proof {
            assert(items@ =~= palette_items());
        }
        self.modal = Some(Modal::Palette { items, index: 0 });
    }

    /// Asks to confirm the deletion of the selected branch. Without a selected
    /// branch nothing opens.
    pub fn open_delete_branch_modal(&mut self)
        ensures
            delete_confirm_opened(*old(self), *final(self)),
    {
        if let Some(i) = self.state.branch_index {
            if i < self.state.branches.len() {
                let mut message = "Delete remote branch '".to_owned();
                message.append(self.state.branches[i].as_str());
                message.append("'?");
                self.modal = Some(Modal::Confirm {
                    title: "Delete branch",
                    message,
                    action: ModalAction::DeleteBranch,
                });
            }
        }
    }
}

} // verus!
