//! The session's pending work. Tasks are taken one at a time: a task sends a
//! request to the caller and waits for its answer, or settles at once. A
//! failed fetch is recorded and the tasks after it still run.

use vstd::prelude::*;
use crate::error::{ApiError, Failure};
use crate::models::{BranchList, Event, Project, ProtocolRun, QueueJob, StepRun};
use crate::state::{AppState, JobStatus, Notice, filtered_steps, project_id_at, protocol_id_at, reselect_first, reselect_last};
use crate::session::{App, Screen, same_frame};

verus! {

/// How many of the newest events the dashboard shows.
pub const RECENT_EVENTS_LIMIT: u32 = 50;

/// The lifecycle actions that can be asked of a protocol run.
#[derive(Clone, Copy, Debug, PartialEq, Eq, Structural)]
pub enum ProtocolVerb {
    Start,
    Pause,
    Resume,
    Cancel,
}

pub open spec fn protocol_verb_text(v: ProtocolVerb) -> Seq<char> {
    match v {
        ProtocolVerb::Start => "start"@,
        ProtocolVerb::Pause => "pause"@,
        ProtocolVerb::Resume => "resume"@,
        ProtocolVerb::Cancel => "cancel"@,
    }
}

impl ProtocolVerb {
    /// The action's name in the service's paths.
    pub fn name(self) -> (r: &'static str)
        ensures
            r@ == protocol_verb_text(self),
    {
        match self {
            ProtocolVerb::Start => "start",
            ProtocolVerb::Pause => "pause",
            ProtocolVerb::Resume => "resume",
            ProtocolVerb::Cancel => "cancel",
        }
    }
}

/// Work that the session asks its caller to do: a remote operation, a new
/// gateway binding, or a reading of the clock.
#[derive(Clone, Debug, PartialEq, Eq)]
pub enum Request {
    Projects,
    Protocols { project_id: i64 },
    Steps { protocol_id: i64 },
    Events { protocol_id: i64 },
    RecentEvents { limit: u32 },
    QueueStats,
    QueueJobs { status: Option<JobStatus> },
    Branches { project_id: i64 },
    CreateProject { name: String, git_url: String, base_branch: String },
    CreateProtocol {
        project_id: i64,
        protocol_name: String,
        base_branch: String,
        description: Option<String>,
    },
    SpecAudit {
        project_id: Option<i64>,
        protocol_id: Option<i64>,
        backfill: bool,
        interval_seconds: Option<i64>,
    },
    ImportCodeMachine {
        project_id: i64,
        protocol_name: String,
        workspace_path: String,
        base_branch: String,
        description: Option<String>,
        enqueue: bool,
    },
    DeleteBranch { project_id: i64, branch: String },
    ProtocolAction { protocol_id: i64, verb: ProtocolVerb },
    OpenPr { protocol_id: i64 },
    RunNextStep { protocol_id: i64 },
    RetryLatest { protocol_id: i64 },
    RunQa { step_id: i64 },
    Approve { step_id: i64 },
    /// Replace the gateway binding by one to this address with these credentials.
    Connect { api_base: String, token: Option<String>, project_token: Option<String> },
    /// Note the time: a refresh sequence begins.
    StartClock,
    /// Tell the milliseconds since the last `StartClock`.
    ReadClock,
}

/// The caller's answer to a `Request`.
#[derive(Debug)]
pub enum Response {
    Projects(Result<Vec<Project>, ApiError>),
    Protocols(Result<Vec<ProtocolRun>, ApiError>),
    Steps(Result<Vec<StepRun>, ApiError>),
    Events(Result<Vec<Event>, ApiError>),
    RecentEvents(Result<Vec<Event>, ApiError>),
    /// The queue statistics as JSON text.
    QueueStats(Result<String, ApiError>),
    QueueJobs(Result<Vec<QueueJob>, ApiError>),
    Branches(Result<BranchList, ApiError>),
    /// A resource was created with this id.
    Created(Result<i64, ApiError>),
    /// An action, or a new gateway binding, is done.
    Done(Result<(), ApiError>),
    Elapsed { millis: u64 },
}

/// What the status line says after an action succeeds.
#[derive(Clone, Debug, PartialEq, Eq)]
pub enum Success {
    Say(Notice),
    ProjectCreated,
    ProtocolCreated,
}

/// What follows an action that succeeded.
#[derive(Clone, Copy, Debug, PartialEq, Eq, Structural)]
pub enum Followup {
    RefreshAll,
    Nothing,
}

/// One step of the session's pending work.
#[derive(Clone, Debug, PartialEq, Eq)]
pub enum Task {
    BeginRefresh,
    LoadProjects,
    LoadProtocols,
    LoadSteps,
    LoadEvents,
    LoadRecentEvents,
    LoadQueueStats,
    LoadQueueJobs,
    LoadBranches,
    EndRefresh,
    /// An action; its request is taken out when it is sent.
    Call { request: Option<Request>, success: Success, then: Followup },
}

/// The full refresh sequence, in its fixed order.
pub open spec fn refresh_tasks() -> Seq<Task> {
    seq![
        Task::BeginRefresh,
        Task::LoadProjects,
        Task::LoadProtocols,
        Task::LoadSteps,
        Task::LoadEvents,
        Task::LoadRecentEvents,
        Task::LoadQueueStats,
        Task::LoadQueueJobs,
        Task::LoadBranches,
        Task::EndRefresh,
    ]
}

/// The request that a task sends given the current state, or `None` when the
/// task settles without one (a list whose parent has no selection is emptied).
pub open spec fn request_of(st: AppState, t: Task) -> Option<Request> {
    match t {
        Task::BeginRefresh => Some(Request::StartClock),
        Task::LoadProjects => Some(Request::Projects),
        Task::LoadProtocols => match project_id_at(st.projects@, st.project_index) {
            Some(id) => Some(Request::Protocols { project_id: id }),
            None => None,
        },
        Task::LoadSteps => match protocol_id_at(st.protocols@, st.protocol_index) {
            Some(id) => Some(Request::Steps { protocol_id: id }),
            None => None,
        },
        Task::LoadEvents => match protocol_id_at(st.protocols@, st.protocol_index) {
            Some(id) => Some(Request::Events { protocol_id: id }),
            None => None,
        },
        Task::LoadRecentEvents => Some(Request::RecentEvents { limit: RECENT_EVENTS_LIMIT }),
        Task::LoadQueueStats => Some(Request::QueueStats),
        Task::LoadQueueJobs => Some(Request::QueueJobs { status: st.job_status_filter }),
        Task::LoadBranches => match project_id_at(st.projects@, st.project_index) {
            Some(id) => Some(Request::Branches { project_id: id }),
            None => None,
        },
        Task::EndRefresh => Some(Request::ReadClock),
        Task::Call { request, .. } => request,
    }
}

/// The task as it is remembered while its answer is awaited.
pub open spec fn sent(t: Task) -> Task {
    match t {
        Task::Call { success, then, .. } => Task::Call { request: None, success, then },
        _ => t,
    }
}

/// The state once a task's request is sent.
pub open spec fn issued(st: AppState, t: Task) -> AppState {
    match t {
        Task::BeginRefresh => AppState {
            refreshing: true,
            last_error: None,
            status: Notice::Refreshing,
            ..st
        },
        _ => st,
    }
}

/// `b` is `a` once a task that needs no request has emptied its list.
pub open spec fn settled_locally(a: AppState, t: Task, b: AppState) -> bool {
    match t {
        Task::LoadProtocols => b.protocols@.len() == 0 && b == (AppState {
            protocols: b.protocols,
            protocol_index: None,
            ..a
        }),
        Task::LoadSteps => b.steps@.len() == 0 && b == (AppState {
            steps: b.steps,
            step_index: None,
            ..a
        }),
        Task::LoadEvents => b.events@.len() == 0 && b == (AppState {
            events: b.events,
            event_index: None,
            ..a
        }),
        Task::LoadBranches => b.branches@.len() == 0 && b == (AppState {
            branches: b.branches,
            branch_index: None,
            ..a
        }),
        _ => b == a,
    }
}

/// The state with a failure recorded in the error slot.
pub open spec fn with_failure(st: AppState, e: ApiError) -> AppState {
    AppState { last_error: Some(Failure::Api(e)), ..st }
}

/// How an action's answer reads: done (with the id of what it created, if
/// anything), or failed.
pub open spec fn call_outcome(r: Response) -> Result<Option<i64>, ApiError> {
    match r {
        Response::Done(Ok(_)) => Ok(None),
        Response::Done(Err(e)) => Err(e),
        Response::Created(Ok(id)) => Ok(Some(id)),
        Response::Created(Err(e)) => Err(e),
        _ => Err(ApiError::Unexpected),
    }
}

/// The status line after a successful action, or `None` when a creation came
/// back without the new resource's id.
pub open spec fn success_notice(s: Success, created: Option<i64>) -> Option<Notice> {
    match s {
        Success::Say(n) => Some(n),
        Success::ProjectCreated => match created {
            Some(id) => Some(Notice::ProjectCreated { id }),
            None => None,
        },
        Success::ProtocolCreated => match created {
            Some(id) => Some(Notice::ProtocolCreated { id }),
            None => None,
        },
    }
}

/// The state after the answer `r` to the request of task `t`. A failure is
/// recorded in the error slot and changes nothing else; an answer of the wrong
/// kind counts as an unexpected response. A step list that arrives is
/// described by `steps_applied`.
pub open spec fn applied(st: AppState, t: Task, r: Response) -> AppState {
    match t {
        Task::LoadProjects => match r {
            Response::Projects(Ok(d)) => AppState {
                projects: d,
                project_index: reselect_first(st.project_index, d@.len()),
                ..st
            },
            Response::Projects(Err(e)) => with_failure(st, e),
            _ => with_failure(st, ApiError::Unexpected),
        },
        Task::LoadProtocols => match r {
            Response::Protocols(Ok(d)) => AppState {
                protocols: d,
                protocol_index: reselect_first(st.protocol_index, d@.len()),
                ..st
            },
            Response::Protocols(Err(e)) => with_failure(st, e),
            _ => with_failure(st, ApiError::Unexpected),
        },
        Task::LoadSteps => match r {
            Response::Steps(Ok(d)) => st,
            Response::Steps(Err(e)) => with_failure(st, e),
            _ => with_failure(st, ApiError::Unexpected),
        },
        Task::LoadEvents => match r {
            Response::Events(Ok(d)) => AppState {
                events: d,
                event_index: reselect_last(st.event_index, d@.len()),
                ..st
            },
            Response::Events(Err(e)) => with_failure(st, e),
            _ => with_failure(st, ApiError::Unexpected),
        },
        Task::LoadRecentEvents => match r {
            Response::RecentEvents(Ok(d)) => AppState {
                recent_events: d,
                recent_event_index: reselect_first(st.recent_event_index, d@.len()),
                ..st
            },
            Response::RecentEvents(Err(e)) => with_failure(st, e),
            _ => with_failure(st, ApiError::Unexpected),
        },
        Task::LoadQueueStats => match r {
            Response::QueueStats(Ok(s)) => AppState { queue_stats: s, ..st },
            Response::QueueStats(Err(e)) => with_failure(st, e),
            _ => with_failure(st, ApiError::Unexpected),
        },
        Task::LoadQueueJobs => match r {
            Response::QueueJobs(Ok(d)) => AppState { queue_jobs: d, ..st },
            Response::QueueJobs(Err(e)) => with_failure(st, e),
            _ => with_failure(st, ApiError::Unexpected),
        },
        Task::LoadBranches => match r {
            Response::Branches(Ok(l)) => AppState {
                branches: l.branches,
                branch_index: reselect_first(st.branch_index, l.branches@.len()),
                ..st
            },
            Response::Branches(Err(e)) => with_failure(st, e),
            _ => with_failure(st, ApiError::Unexpected),
        },
        Task::BeginRefresh => st,
        Task::EndRefresh => AppState {
            refreshing: false,
            status: Notice::Refreshed {
                millis: match r {
                    Response::Elapsed { millis } => millis,
                    _ => 0,
                },
            },
            ..st
        },
        Task::Call { success, .. } => match call_outcome(r) {
            Ok(created) => match success_notice(success, created) {
                Some(n) => AppState { status: n, ..st },
                None => with_failure(st, ApiError::Unexpected),
            },
            Err(e) => with_failure(st, e),
        },
    }
}

/// The step list that a successful answer to the step request leaves: the
/// steps that pass the filter, with the newest selected when the old selection
/// falls outside.
pub open spec fn steps_applied(a: AppState, r: Response, b: AppState) -> bool {
    match r {
        Response::Steps(Ok(d)) => {
            &&& b.steps@ == filtered_steps(d@, a.step_filter)
            &&& b == (AppState {
                steps: b.steps,
                step_index: reselect_last(a.step_index, filtered_steps(d@, a.step_filter).len()),
                ..a
            })
        },
        _ => b == applied(a, Task::LoadSteps, r),
    }
}

/// `b` is the state after the answer `r` to task `t`, from state `a`.
pub open spec fn answered(a: AppState, t: Task, r: Response, b: AppState) -> bool {
    match t {
        Task::LoadSteps => steps_applied(a, r, b),
        _ => b == applied(a, t, r),
    }
}

/// Whether the answer to task `t` tells of an action that succeeded.
pub open spec fn call_succeeded(t: Task, r: Response) -> bool {
    match t {
        Task::Call { success, .. } => match call_outcome(r) {
            Ok(created) => success_notice(success, created) is Some,
            Err(_) => false,
        },
        _ => false,
    }
}


/// The work that follows the answer `r` to task `t`: after a successful
/// action, the refresh that the action asks for.
pub open spec fn followup_tasks(screen: Screen, t: Task, r: Response) -> Seq<Task> {
    if call_succeeded(t, r) {
        match t {
            Task::Call { then, .. } => match then {
                Followup::RefreshAll => if screen == Screen::Dashboard {
                    refresh_tasks()
                } else {
                    seq![]
                },
                Followup::Nothing => seq![],
            },
            _ => seq![],
        }
    } else {
        seq![]
    }
}


impl App {
    pub fn has_pending_work(&self) -> (r: bool)
        ensures
            r == self.busy(),
    {
        self.awaiting.is_some() || self.plan.len() > 0
    }

    /// Queues the full refresh sequence; only the dashboard screen refreshes.
    pub fn refresh_all(&mut self)
        ensures
            final(self).state == old(self).state,
            final(self).awaiting == old(self).awaiting,
            same_frame(*old(self), *final(self)),
            final(self).plan@ == old(self).plan@ + if old(self).screen == Screen::Dashboard {
                refresh_tasks()
            } else {
                seq![]
            },
    {
        if self.screen != Screen::Dashboard {
            proof {
                assert(old(self).plan@ + seq![] =~= old(self).plan@);
            }
            return;
        }
        self.plan.push(Task::BeginRefresh);
        self.plan.push(Task::LoadProjects);
        self.plan.push(Task::LoadProtocols);
        self.plan.push(Task::LoadSteps);
        self.plan.push(Task::LoadEvents);
        self.plan.push(Task::LoadRecentEvents);
        self.plan.push(Task::LoadQueueStats);
        self.plan.push(Task::LoadQueueJobs);
        self.plan.push(Task::LoadBranches);
        self.plan.push(Task::EndRefresh);
        proof {
            assert(final(self).plan@ =~= old(self).plan@ + refresh_tasks());
        }
    }

    /// The timer's refresh. A tick that comes while work is pending is dropped,
    /// so that no second sequence starts while one runs and none pile up.
    pub fn refresh_scoped(&mut self)
        ensures
            old(self).busy() ==> *final(self) == *old(self),
            !old(self).busy() ==> {
                &&& final(self).state == old(self).state
                &&& final(self).awaiting is None
                &&& same_frame(*old(self), *final(self))
                &&& final(self).plan@ == if old(self).screen == Screen::Dashboard {
                    refresh_tasks()
                } else {
                    seq![]
                }
            },
    {
        if self.has_pending_work() {
            return;
        }
        proof {
            assert(old(self).plan@ =~= seq![]);
        }
        self.refresh_all();
        proof {
            assert(final(self).plan@ =~= (if old(self).screen == Screen::Dashboard {
                refresh_tasks()
            } else {
                seq![]
            }));
        }
    }

    /// Takes the next pending task. If it needs a request, the request is
    /// returned and the task awaits its answer; else it settles at once.
    pub fn advance(&mut self) -> (r: Option<Request>)
        requires
            old(self).wf(),
        ensures
            final(self).wf(),
            (old(self).awaiting is Some || old(self).plan@.len() == 0) ==> (r is None && *final(self)
                == *old(self)),
            (old(self).awaiting is None && old(self).plan@.len() > 0) ==> {
                let t = old(self).plan@[0];
                &&& final(self).plan@ == old(self).plan@.drop_first()
                &&& same_frame(*old(self), *final(self))
                &&& r == request_of(old(self).state, t)
                &&& match r {
                    Some(_) => final(self).awaiting == Some(sent(t))
                        && final(self).state == issued(old(self).state, t),
                    None => final(self).awaiting is None
                        && settled_locally(old(self).state, t, final(self).state),
                }
            },
    {
        if self.awaiting.is_some() || self.plan.len() == 0 {
            return None;
        }
        let t = self.plan.remove(0);
        match t {
            Task::BeginRefresh => {
                self.state.refreshing = true;
                self.state.last_error = None;
                self.state.status = Notice::Refreshing;
                self.awaiting = Some(Task::BeginRefresh);
                Some(Request::StartClock)
            },
            Task::LoadProjects => {
                self.awaiting = Some(Task::LoadProjects);
                Some(Request::Projects)
            },
            Task::LoadProtocols => match self.state.selected_project_id() {
                Some(id) => {
                    self.awaiting = Some(Task::LoadProtocols);
                    Some(Request::Protocols { project_id: id })
                },
                None => {
                    self.state.clear_protocols();
                    None
                },
            },
            Task::LoadSteps => match self.state.selected_protocol_id() {
                Some(id) => {
                    self.awaiting = Some(Task::LoadSteps);
                    Some(Request::Steps { protocol_id: id })
                },
                None => {
                    self.state.clear_steps();
                    None
                },
            },
            Task::LoadEvents => match self.state.selected_protocol_id() {
                Some(id) => {
                    self.awaiting = Some(Task::LoadEvents);
                    Some(Request::Events { protocol_id: id })
                },
                None => {
                    self.state.clear_events();
                    None
                },
            },
            Task::LoadRecentEvents => {
                self.awaiting = Some(Task::LoadRecentEvents);
                Some(Request::RecentEvents { limit: RECENT_EVENTS_LIMIT })
            },
            Task::LoadQueueStats => {
                self.awaiting = Some(Task::LoadQueueStats);
                Some(Request::QueueStats)
            },
            Task::LoadQueueJobs => {
                self.awaiting = Some(Task::LoadQueueJobs);
                Some(Request::QueueJobs { status: self.state.job_status_filter })
            },
            Task::LoadBranches => match self.state.selected_project_id() {
                Some(id) => {
                    self.awaiting = Some(Task::LoadBranches);
                    Some(Request::Branches { project_id: id })
                },
                None => {
                    self.state.clear_branches();
                    None
                },
            },
            Task::EndRefresh => {
                self.awaiting = Some(Task::EndRefresh);
                Some(Request::ReadClock)
            },
            Task::Call { request, success, then } => match request {
                Some(q) => {
                    self.awaiting = Some(Task::Call { request: None, success, then });
                    Some(q)
                },
                None => None,
            },
        }
    }

    pub(crate) fn record(&mut self, e: ApiError)
        ensures
            final(self).state == with_failure(old(self).state, e),
            final(self).plan == old(self).plan,
            final(self).awaiting == old(self).awaiting,
            same_frame(*old(self), *final(self)),
    {
        self.state.last_error = Some(Failure::Api(e));
    }

    /// Takes the answer to the awaited request. The cache takes what came; a
    /// failure is recorded in the error slot and the pending tasks still run;
    /// a successful action queues the refresh it asks for.
    pub fn complete(&mut self, r: Response)
        requires
            old(self).wf(),
        ensures
            final(self).wf(),
            old(self).awaiting is None ==> *final(self) == *old(self),
            old(self).awaiting is Some ==> {
                let t = old(self).awaiting->0;
                &&& final(self).awaiting is None
                &&& answered(old(self).state, t, r, final(self).state)
                &&& final(self).plan@ == old(self).plan@ + followup_tasks(old(self).screen, t, r)
                &&& same_frame(*old(self), *final(self))
            },
    {
        let pending = self.awaiting.take();
        let t = match pending {
            Some(t) => t,
            None => {
                return;
            },
        };
        proof {
            assert(old(self).plan@ + seq![] =~= old(self).plan@);
        }
        match t {
            Task::LoadProjects => match r {
                Response::Projects(Ok(d)) => self.state.set_projects(d),
                Response::Projects(Err(e)) => self.record(e),
                _ => self.record(ApiError::Unexpected),
            },
            Task::LoadProtocols => match r {
                Response::Protocols(Ok(d)) => self.state.set_protocols(d),
                Response::Protocols(Err(e)) => self.record(e),
                _ => self.record(ApiError::Unexpected),
            },
            Task::LoadSteps => match r {
                Response::Steps(Ok(d)) => self.state.set_steps(d),
                Response::Steps(Err(e)) => self.record(e),
                _ => self.record(ApiError::Unexpected),
            },
            Task::LoadEvents => match r {
                Response::Events(Ok(d)) => self.state.set_events(d),
                Response::Events(Err(e)) => self.record(e),
                _ => self.record(ApiError::Unexpected),
            },
            Task::LoadRecentEvents => match r {
                Response::RecentEvents(Ok(d)) => self.state.set_recent_events(d),
                Response::RecentEvents(Err(e)) => self.record(e),
                _ => self.record(ApiError::Unexpected),
            },
            Task::LoadQueueStats => match r {
                Response::QueueStats(Ok(s)) => self.state.queue_stats = s,
                Response::QueueStats(Err(e)) => self.record(e),
                _ => self.record(ApiError::Unexpected),
            },
            Task::LoadQueueJobs => match r {
                Response::QueueJobs(Ok(d)) => self.state.queue_jobs = d,
                Response::QueueJobs(Err(e)) => self.record(e),
                _ => self.record(ApiError::Unexpected),
            },
            Task::LoadBranches => match r {
                Response::Branches(Ok(l)) => self.state.set_branches(l),
                Response::Branches(Err(e)) => self.record(e),
                _ => self.record(ApiError::Unexpected),
            },
            Task::BeginRefresh => {},
            Task::EndRefresh => {
                let millis: u64 = match r {
                    Response::Elapsed { millis } => millis,
                    _ => 0,
                };
                self.state.refreshing = false;
                self.state.status = Notice::Refreshed { millis };
            },
            Task::Call { request, success, then } => {
                let outcome: Result<Option<i64>, ApiError> = match r {
                    Response::Done(Ok(_)) => Ok(None),
                    Response::Done(Err(e)) => Err(e),
                    Response::Created(Ok(id)) => Ok(Some(id)),
                    Response::Created(Err(e)) => Err(e),
                    _ => Err(ApiError::Unexpected),
                };
                match outcome {
                    Ok(created) => {
                        let notice: Option<Notice> = match success {
                            Success::Say(n) => Some(n),
                            Success::ProjectCreated => match created {
                                Some(id) => Some(Notice::ProjectCreated { id }),
                                None => None,
                            },
                            Success::ProtocolCreated => match created {
                                Some(id) => Some(Notice::ProtocolCreated { id }),
                                None => None,
                            },
                        };
                        match notice {
                            Some(n) => {
                                self.state.status = n;
                                match then {
                                    Followup::RefreshAll => self.refresh_all(),
                                    Followup::Nothing => {},
                                }
                            },
                            None => self.record(ApiError::Unexpected),
                        }
                    },
                    Err(e) => self.record(e),
                }
            },
        }
    }
}

} // verus!
