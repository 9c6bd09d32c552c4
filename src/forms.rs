//! What submitting a form does: the required values are checked, then the
//! bound action is queued.

use vstd::prelude::*;
use crate::error::{Failure, FormError};
use crate::state::{AppState, Notice, project_id_at};
use crate::text::{answer_is_yes, optional_number, read_number_field, says_yes, trim, trimmed, unreadable_number, number_field};
use crate::session::{App, InputField, ModalAction, same_frame};
use crate::plan::{Followup, Request, Success, Task};

verus! {

/// The base branch of a form: the given one, or "main" when left blank.
pub open spec fn branch_or_main(b: Seq<char>) -> Seq<char> {
    if b.len() == 0 {
        "main"@
    } else {
        b
    }
}

/// An optional text of a form: `None` when left blank.
pub open spec fn optional_text(o: Option<String>, t: Seq<char>) -> bool {
    if t.len() == 0 {
        o is None
    } else {
        o is Some && o->0@ == t
    }
}

/// The value of the `i`th field, trimmed.
pub open spec fn field_text(fields: Seq<InputField>, i: int) -> Seq<char> {
    trimmed(fields[i].value@)
}

/// The action that a form submission queues, from the form's values.
pub open spec fn submission_call(st: AppState, action: ModalAction, fields: Seq<InputField>, t: Task) -> bool {
    match action {
        ModalAction::CreateProject => match t {
            Task::Call {
                request: Some(Request::CreateProject { name, git_url, base_branch }),
                success: Success::ProjectCreated,
                then: Followup::RefreshAll,
            } => name@ == field_text(fields, 0) && git_url@ == field_text(fields, 1)
                && base_branch@ == branch_or_main(field_text(fields, 2)),
            _ => false,
        },
        ModalAction::CreateProtocol => match t {
            Task::Call {
                request: Some(Request::CreateProtocol { project_id, protocol_name, base_branch, description }),
                success: Success::ProtocolCreated,
                then: Followup::RefreshAll,
            } => Some(project_id) == project_id_at(st.projects@, st.project_index)
                && protocol_name@ == field_text(fields, 0)
                && base_branch@ == branch_or_main(field_text(fields, 1))
                && optional_text(description, field_text(fields, 2)),
            _ => false,
        },
        ModalAction::SpecAudit => t == Task::Call {
            request: Some(Request::SpecAudit {
                project_id: if fields.len() > 0 { optional_number(fields[0].value@) } else { None },
                protocol_id: if fields.len() > 1 { optional_number(fields[1].value@) } else { None },
                backfill: fields.len() > 2 && says_yes(fields[2].value@),
                interval_seconds: if fields.len() > 3 { optional_number(fields[3].value@) } else { None },
            }),
            success: Success::Say(Notice::SpecAuditEnqueued),
            then: Followup::RefreshAll,
        },
        ModalAction::ImportCodeMachine => match t {
            Task::Call {
                request: Some(Request::ImportCodeMachine {
                    project_id, protocol_name, workspace_path, base_branch, description, enqueue,
                }),
                success: Success::Say(Notice::ImportEnqueued),
                then: Followup::RefreshAll,
            } => Some(project_id) == project_id_at(st.projects@, st.project_index)
                && protocol_name@ == field_text(fields, 0)
                && workspace_path@ == field_text(fields, 1)
                && base_branch@ == branch_or_main(field_text(fields, 2))
                && optional_text(description, field_text(fields, 3))
                && enqueue == says_yes(fields[4].value@),
            _ => false,
        },
        ModalAction::TokenConfig => match t {
            Task::Call {
                request: Some(Request::Connect { api_base, token, project_token }),
                success: Success::Say(Notice::ApiBaseSet { api_base: shown }),
                then: Followup::Nothing,
            } => api_base@ == field_text(fields, 0) && shown@ == field_text(fields, 0)
                && optional_text(token, field_text(fields, 1))
                && optional_text(project_token, field_text(fields, 2)),
            _ => false,
        },
        ModalAction::DeleteBranch => match t {
            Task::Call {
                request: Some(Request::DeleteBranch { project_id, branch }),
                success: Success::Say(Notice::BranchDeleted { branch: shown }),
                then: Followup::RefreshAll,
            } => Some(project_id) == project_id_at(st.projects@, st.project_index)
                && st.branch_index is Some && st.branch_index->0 < st.branches@.len()
                && branch@ == st.branches@[st.branch_index->0 as int]@
                && shown@ == branch@,
            _ => false,
        },
    }
}

/// What a submission finds wrong before anything is sent, if anything; `None`
/// also when it goes through.
pub open spec fn submission_failure(st: AppState, action: ModalAction, fields: Seq<InputField>) -> Option<Failure> {
    match action {
        ModalAction::CreateProject => if fields.len() >= 3 && (field_text(fields, 0).len() == 0
            || field_text(fields, 1).len() == 0) {
            Some(Failure::Validation(FormError::ProjectNameOrGitUrl))
        } else {
            None
        },
        ModalAction::CreateProtocol => if project_id_at(st.projects@, st.project_index) is None {
            Some(Failure::NoProjectSelected)
        } else if fields.len() >= 3 && field_text(fields, 0).len() == 0 {
            Some(Failure::Validation(FormError::ProtocolName))
        } else {
            None
        },
        ModalAction::ImportCodeMachine => if project_id_at(st.projects@, st.project_index) is None {
            Some(Failure::NoProjectSelected)
        } else if fields.len() >= 5 && (field_text(fields, 0).len() == 0
            || field_text(fields, 1).len() == 0) {
            Some(Failure::Validation(FormError::ProtocolNameOrWorkspacePath))
        } else {
            None
        },
        ModalAction::SpecAudit => if spec_audit_unreadable(fields) {
            Some(Failure::Validation(FormError::UnreadableNumber))
        } else {
            None
        },
        _ => None,
    }
}

/// Whether one of the spec-audit form's number fields (project id, protocol id,
/// interval) holds text that is not an integer.
pub open spec fn spec_audit_unreadable(fields: Seq<InputField>) -> bool {
    (fields.len() > 0 && unreadable_number(fields[0].value@))
        || (fields.len() > 1 && unreadable_number(fields[1].value@))
        || (fields.len() > 3 && unreadable_number(fields[3].value@))
}

/// Whether a submission sends its action: its fields are all there, nothing
/// is wrong, and what it acts on exists.
pub open spec fn submission_sends(st: AppState, action: ModalAction, fields: Seq<InputField>) -> bool {
    submission_failure(st, action, fields) is None && match action {
        ModalAction::CreateProject => fields.len() >= 3,
        ModalAction::CreateProtocol => fields.len() >= 3,
        ModalAction::SpecAudit => true,
        ModalAction::ImportCodeMachine => fields.len() >= 5,
        ModalAction::TokenConfig => fields.len() >= 3 && field_text(fields, 0).len() > 0,
        ModalAction::DeleteBranch => match st.branch_index {
            Some(i) => i < st.branches@.len() && project_id_at(st.projects@, st.project_index) is Some,
            None => false,
        },
    }
}

/// `b` is `a` after the submission of a form (or a confirmation) with these
/// values: a failure found first is recorded and nothing is sent; else the
/// action is queued, and a new gateway address is taken at once.
pub open spec fn submitted(a: App, action: ModalAction, fields: Seq<InputField>, b: App) -> bool {
    &&& b.awaiting == a.awaiting
    &&& b.modal == a.modal
    &&& b.screen == a.screen
    &&& b.auto_login == a.auto_login
    &&& b.login_form == a.login_form
    &&& b.menu_index == a.menu_index
    &&& b.welcome_index == a.welcome_index
    &&& match submission_failure(a.state, action, fields) {
        Some(f) => {
            &&& b.state == (AppState { last_error: Some(f), ..a.state })
            &&& b.plan == a.plan
            &&& b.api_base == a.api_base
        },
        None => {
            &&& b.state == a.state
            &&& if submission_sends(a.state, action, fields) {
                &&& b.plan@.len() == a.plan@.len() + 1
                &&& b.plan@.drop_last() == a.plan@
                &&& submission_call(a.state, action, fields, b.plan@.last())
                &&& if action == ModalAction::TokenConfig {
                    b.api_base@ == field_text(fields, 0)
                } else {
                    b.api_base == a.api_base
                }
            } else {
                b.plan == a.plan && b.api_base == a.api_base
            }
        },
    }
}

/// Takes a present, trimmed text as `Some`, a blank one as `None`.
pub(crate) fn optional(t: String) -> (r: Option<String>)
    ensures
        optional_text(r, t@),
{
    if t.as_str().unicode_len() == 0 {
        None
    } else {
        Some(t)
    }
}

fn main_if_blank(t: String) -> (r: String)
    ensures
        r@ == branch_or_main(t@),
{
    if t.as_str().unicode_len() == 0 {
        "main".to_owned()
    } else {
        t
    }
}

fn number_at(fields: &Vec<InputField>, i: usize) -> (r: Option<Option<i64>>)
    ensures
        r == if i < fields@.len() { number_field(fields@[i as int].value@) } else { Some(None) },
{
    if i < fields.len() {
        read_number_field(fields[i].value.as_str())
    } else {
        Some(None)
    }
}

impl App {
    pub(crate) fn queue(&mut self, t: Task)
        ensures
            final(self).plan@ == old(self).plan@.push(t),
            final(self).plan@.drop_last() == old(self).plan@,
            final(self).state == old(self).state,
            final(self).awaiting == old(self).awaiting,
            same_frame(*old(self), *final(self)),
    {
        self.plan.push(t);
        proof {
            assert(final(self).plan@.drop_last() =~= old(self).plan@);
        }
    }

    pub(crate) fn fail(&mut self, f: Failure)
        ensures
            final(self).state == (AppState { last_error: Some(f), ..old(self).state }),
            final(self).plan == old(self).plan,
            final(self).awaiting == old(self).awaiting,
            same_frame(*old(self), *final(self)),
    {
        self.state.last_error = Some(f);
    }

    /// Submits a form (or a confirmation, with no values). Required values are
    /// checked first: when one is blank the failure is recorded and no request
    /// is queued.
    pub fn handle_form_submit(&mut self, action: ModalAction, fields: Vec<InputField>)
        ensures
            submitted(*old(self), action, fields@, *final(self)),
    {
        match action {
            ModalAction::CreateProject => {
                if fields.len() >= 3 {
                    let name = trim(fields[0].value.as_str());
                    let git = trim(fields[1].value.as_str());
                    let branch = trim(fields[2].value.as_str());
                    if name.as_str().unicode_len() == 0 || git.as_str().unicode_len() == 0 {
                        self.fail(Failure::Validation(FormError::ProjectNameOrGitUrl));
                        return;
                    }
                    let base_branch = main_if_blank(branch);
                    self.queue(Task::Call {
                        request: Some(Request::CreateProject { name, git_url: git, base_branch }),
                        success: Success::ProjectCreated,
                        then: Followup::RefreshAll,
                    });
                }
            },
            ModalAction::CreateProtocol => {
                match self.state.selected_project_id() {
                    Some(project_id) => {
                        if fields.len() >= 3 {
                            let name = trim(fields[0].value.as_str());
                            let branch = trim(fields[1].value.as_str());
                            let desc = trim(fields[2].value.as_str());
                            if name.as_str().unicode_len() == 0 {
                                self.fail(Failure::Validation(FormError::ProtocolName));
                                return;
                            }
                            let base_branch = main_if_blank(branch);
                            let description = optional(desc);
                            self.queue(Task::Call {
                                request: Some(Request::CreateProtocol {
                                    project_id,
                                    protocol_name: name,
                                    base_branch,
                                    description,
                                }),
                                success: Success::ProtocolCreated,
                                then: Followup::RefreshAll,
                            });
                        }
                    },
                    None => self.fail(Failure::NoProjectSelected),
                }
            },
            ModalAction::SpecAudit => {
                let project_id = number_at(&fields, 0);
                let protocol_id = number_at(&fields, 1);
                let interval_seconds = number_at(&fields, 3);
                match (project_id, protocol_id, interval_seconds) {
                    (Some(project_id), Some(protocol_id), Some(interval_seconds)) => {
                        let backfill = fields.len() > 2 && answer_is_yes(fields[2].value.as_str());
                        self.queue(Task::Call {
                            request: Some(Request::SpecAudit {
                                project_id,
                                protocol_id,
                                backfill,
                                interval_seconds,
                            }),
                            success: Success::Say(Notice::SpecAuditEnqueued),
                            then: Followup::RefreshAll,
                        });
                    },
                    _ => self.fail(Failure::Validation(FormError::UnreadableNumber)),
                }
            },
            ModalAction::ImportCodeMachine => {
                match self.state.selected_project_id() {
                    Some(project_id) => {
                        if fields.len() >= 5 {
                            let name = trim(fields[0].value.as_str());
                            let path = trim(fields[1].value.as_str());
                            let branch = trim(fields[2].value.as_str());
                            let desc = trim(fields[3].value.as_str());
                            let enqueue = answer_is_yes(fields[4].value.as_str());
                            if name.as_str().unicode_len() == 0 || path.as_str().unicode_len() == 0 {
                                self.fail(Failure::Validation(FormError::ProtocolNameOrWorkspacePath));
                                return;
                            }
                            let base_branch = main_if_blank(branch);
                            let description = optional(desc);
                            self.queue(Task::Call {
                                request: Some(Request::ImportCodeMachine {
                                    project_id,
                                    protocol_name: name,
                                    workspace_path: path,
                                    base_branch,
                                    description,
                                    enqueue,
                                }),
                                success: Success::Say(Notice::ImportEnqueued),
                                then: Followup::RefreshAll,
                            });
                        }
                    },
                    None => self.fail(Failure::NoProjectSelected),
                }
            },
            ModalAction::TokenConfig => {
                if fields.len() >= 3 {
                    let api_base = trim(fields[0].value.as_str());
                    if api_base.as_str().unicode_len() > 0 {
                        let token = optional(trim(fields[1].value.as_str()));
                        let project_token = optional(trim(fields[2].value.as_str()));
                        let shown = api_base.clone();
                        self.api_base = api_base.clone();
                        self.queue(Task::Call {
                            request: Some(Request::Connect { api_base, token, project_token }),
                            success: Success::Say(Notice::ApiBaseSet { api_base: shown }),
                            then: Followup::Nothing,
                        });
                    }
                }
            },
            ModalAction::DeleteBranch => {
                if let Some(i) = self.state.branch_index {
                    if i < self.state.branches.len() {
                        if let Some(project_id) = self.state.selected_project_id() {
                            let branch = self.state.branches[i].clone();
                            let shown = self.state.branches[i].clone();
                            self.queue(Task::Call {
                                request: Some(Request::DeleteBranch { project_id, branch }),
                                success: Success::Say(Notice::BranchDeleted { branch: shown }),
                                then: Followup::RefreshAll,
                            });
                        }
                    }
                }
            },
        }
    }
}

} // verus!
