//! The resource cache: fetched lists, their selections and filters, the
//! status line and the error slot; and the rules by which selections move and
//! are kept when a list is fetched again.

use vstd::prelude::*;
use crate::error::Failure;
use crate::models::{BranchList, Event, Project, ProtocolRun, QueueJob, StepRun};

verus! {

/// The pages of the dashboard, in the order in which Tab walks them.
#[derive(Clone, Copy, Debug, PartialEq, Eq, Structural)]
pub enum Page {
    Dashboard,
    Projects,
    Protocols,
    Steps,
    Events,
    Queues,
    Settings,
}

/// Position of a page in the cyclic order.
pub open spec fn page_pos(p: Page) -> int {
    match p {
        Page::Dashboard => 0,
        Page::Projects => 1,
        Page::Protocols => 2,
        Page::Steps => 3,
        Page::Events => 4,
        Page::Queues => 5,
        Page::Settings => 6,
    }
}

/// The number of pages.
pub const PAGE_COUNT: usize = 7;

/// The page after `p`; the last wraps to the first.
pub open spec fn page_after(p: Page) -> Page {
    match p {
        Page::Dashboard => Page::Projects,
        Page::Projects => Page::Protocols,
        Page::Protocols => Page::Steps,
        Page::Steps => Page::Events,
        Page::Events => Page::Queues,
        Page::Queues => Page::Settings,
        Page::Settings => Page::Dashboard,
    }
}

/// The page before `p`; the first wraps to the last.
pub open spec fn page_before(p: Page) -> Page {
    match p {
        Page::Dashboard => Page::Settings,
        Page::Projects => Page::Dashboard,
        Page::Protocols => Page::Projects,
        Page::Steps => Page::Protocols,
        Page::Events => Page::Steps,
        Page::Queues => Page::Events,
        Page::Settings => Page::Queues,
    }
}

impl Page {
    /// The page after this one; the last wraps to the first.
    pub fn next(self) -> (r: Page)
        ensures
            r == page_after(self),
            page_pos(r) == (page_pos(self) + 1) % (PAGE_COUNT as int),
    {
        match self {
            Page::Dashboard => Page::Projects,
            Page::Projects => Page::Protocols,
            Page::Protocols => Page::Steps,
            Page::Steps => Page::Events,
            Page::Events => Page::Queues,
            Page::Queues => Page::Settings,
            Page::Settings => Page::Dashboard,
        }
    }

    /// The page before this one; the first wraps to the last.
    pub fn prev(self) -> (r: Page)
        ensures
            r == page_before(self),
            page_pos(r) == (page_pos(self) + PAGE_COUNT - 1) % (PAGE_COUNT as int),
    {
        match self {
            Page::Dashboard => Page::Settings,
            Page::Projects => Page::Dashboard,
            Page::Protocols => Page::Projects,
            Page::Steps => Page::Protocols,
            Page::Events => Page::Steps,
            Page::Queues => Page::Events,
            Page::Settings => Page::Queues,
        }
    }
}

/// The title under which a page is shown.
pub open spec fn page_title(p: Page) -> Seq<char> {
    match p {
        Page::Dashboard => "Dashboard"@,
        Page::Projects => "Projects"@,
        Page::Protocols => "Protocols"@,
        Page::Steps => "Steps"@,
        Page::Events => "Events"@,
        Page::Queues => "Queues"@,
        Page::Settings => "Settings"@,
    }
}

pub fn page_label(page: Page) -> (r: &'static str)
    ensures
        r@ == page_title(page),
{
    match page {
        Page::Dashboard => "Dashboard",
        Page::Projects => "Projects",
        Page::Protocols => "Protocols",
        Page::Steps => "Steps",
        Page::Events => "Events",
        Page::Queues => "Queues",
        Page::Settings => "Settings",
    }
}

/// The statuses by which the step list can be filtered.
#[derive(Clone, Copy, Debug, PartialEq, Eq, Structural)]
pub enum StepStatus {
    Pending,
    Running,
    NeedsQa,
    Failed,
}

pub open spec fn step_status_text(s: StepStatus) -> Seq<char> {
    match s {
        StepStatus::Pending => "pending"@,
        StepStatus::Running => "running"@,
        StepStatus::NeedsQa => "needs_qa"@,
        StepStatus::Failed => "failed"@,
    }
}

impl StepStatus {
    /// The status as the service writes it.
    pub fn name(self) -> (r: &'static str)
        ensures
            r@ == step_status_text(self),
    {
        match self {
            StepStatus::Pending => "pending",
            StepStatus::Running => "running",
            StepStatus::NeedsQa => "needs_qa",
            StepStatus::Failed => "failed",
        }
    }
}

/// The statuses by which the queue's job list can be filtered.
#[derive(Clone, Copy, Debug, PartialEq, Eq, Structural)]
pub enum JobStatus {
    Queued,
    Started,
    Failed,
    Finished,
}

pub open spec fn job_status_text(s: JobStatus) -> Seq<char> {
    match s {
        JobStatus::Queued => "queued"@,
        JobStatus::Started => "started"@,
        JobStatus::Failed => "failed"@,
        JobStatus::Finished => "finished"@,
    }
}

impl JobStatus {
    /// The status as the service writes it.
    pub fn name(self) -> (r: &'static str)
        ensures
            r@ == job_status_text(self),
    {
        match self {
            JobStatus::Queued => "queued",
            JobStatus::Started => "started",
            JobStatus::Failed => "failed",
            JobStatus::Finished => "finished",
        }
    }
}

/// Position of a step filter in its cycle: all, pending, running, needs_qa, failed.
pub open spec fn step_filter_pos(f: Option<StepStatus>) -> int {
    match f {
        None => 0,
        Some(StepStatus::Pending) => 1,
        Some(StepStatus::Running) => 2,
        Some(StepStatus::NeedsQa) => 3,
        Some(StepStatus::Failed) => 4,
    }
}

/// Position of a job filter in its cycle: all, queued, started, failed, finished.
pub open spec fn job_filter_pos(f: Option<JobStatus>) -> int {
    match f {
        None => 0,
        Some(JobStatus::Queued) => 1,
        Some(JobStatus::Started) => 2,
        Some(JobStatus::Failed) => 3,
        Some(JobStatus::Finished) => 4,
    }
}

/// The number of values that each filter cycles through.
pub const FILTER_CYCLE: usize = 5;

/// The step filter that follows `f` in its cycle.
pub open spec fn following_step_filter(f: Option<StepStatus>) -> Option<StepStatus> {
    match f {
        None => Some(StepStatus::Pending),
        Some(StepStatus::Pending) => Some(StepStatus::Running),
        Some(StepStatus::Running) => Some(StepStatus::NeedsQa),
        Some(StepStatus::NeedsQa) => Some(StepStatus::Failed),
        Some(StepStatus::Failed) => None,
    }
}

/// The job filter that follows `f` in its cycle.
pub open spec fn following_job_filter(f: Option<JobStatus>) -> Option<JobStatus> {
    match f {
        None => Some(JobStatus::Queued),
        Some(JobStatus::Queued) => Some(JobStatus::Started),
        Some(JobStatus::Started) => Some(JobStatus::Failed),
        Some(JobStatus::Failed) => Some(JobStatus::Finished),
        Some(JobStatus::Finished) => None,
    }
}

pub fn next_step_filter(f: Option<StepStatus>) -> (r: Option<StepStatus>)
    ensures
        r == following_step_filter(f),
        step_filter_pos(r) == (step_filter_pos(f) + 1) % (FILTER_CYCLE as int),
{
    match f {
        None => Some(StepStatus::Pending),
        Some(StepStatus::Pending) => Some(StepStatus::Running),
        Some(StepStatus::Running) => Some(StepStatus::NeedsQa),
        Some(StepStatus::NeedsQa) => Some(StepStatus::Failed),
        Some(StepStatus::Failed) => None,
    }
}

pub fn next_job_filter(f: Option<JobStatus>) -> (r: Option<JobStatus>)
    ensures
        r == following_job_filter(f),
        job_filter_pos(r) == (job_filter_pos(f) + 1) % (FILTER_CYCLE as int),
{
    match f {
        None => Some(JobStatus::Queued),
        Some(JobStatus::Queued) => Some(JobStatus::Started),
        Some(JobStatus::Started) => Some(JobStatus::Failed),
        Some(JobStatus::Failed) => Some(JobStatus::Finished),
        Some(JobStatus::Finished) => None,
    }
}

/// A selection over a list of `len` items: `None` exactly when the list is
/// empty, else an index inside it.
pub open spec fn selection_fits(sel: Option<usize>, len: nat) -> bool {
    match sel {
        None => len == 0,
        Some(i) => i < len,
    }
}

/// The selection after moving `delta` places from `current` (from the first
/// item when nothing is selected), kept inside the list.
pub open spec fn moved(current: Option<usize>, len: nat, delta: int) -> Option<usize> {
    if len == 0 {
        None
    } else {
        let base: int = match current {
            Some(i) => i as int,
            None => 0,
        };
        let t = base + delta;
        Some(
            if t < 0 {
                0usize
            } else if t > len - 1 {
                (len - 1) as usize
            } else {
                t as usize
            },
        )
    }
}

/// The selection over a freshly fetched list of `len` items when its most
/// relevant item is the first: a selection still inside is kept, else the
/// first item is selected.
pub open spec fn reselect_first(prev: Option<usize>, len: nat) -> Option<usize> {
    if len == 0 {
        None
    } else {
        match prev {
            Some(i) if i < len => Some(i),
            _ => Some(0usize),
        }
    }
}

/// As `reselect_first`, for lists whose most relevant item is the newest,
/// the last one.
pub open spec fn reselect_last(prev: Option<usize>, len: nat) -> Option<usize> {
    if len == 0 {
        None
    } else {
        match prev {
            Some(i) if i < len => Some(i),
            _ => Some((len - 1) as usize),
        }
    }
}

/// Moves a selection over a list of `len` items by `delta` places.
pub fn move_index(current: Option<usize>, len: usize, delta: i32) -> (r: Option<usize>)
    ensures
        r == moved(current, len as nat, delta as int),
        selection_fits(r, len as nat),
{
    if len == 0 {
        return None;
    }
    let base: usize = match current {
        Some(i) => i,
        None => 0,
    };
    let last: usize = len - 1;
    let target: usize = if delta < 0 {
        let back: usize = (0i64 - delta as i64) as usize;
        if base <= back {
            0
        } else if base - back > last {
            last
        } else {
            base - back
        }
    } else {
        let fwd: usize = delta as usize;
        if base >= last || last - base <= fwd {
            last
        } else {
            base + fwd
        }
    };
    Some(target)
}

fn reselected_first(prev: Option<usize>, len: usize) -> (r: Option<usize>)
    ensures
        r == reselect_first(prev, len as nat),
{
    if len == 0 {
        None
    } else {
        match prev {
            Some(i) if i < len => Some(i),
            _ => Some(0),
        }
    }
}

fn reselected_last(prev: Option<usize>, len: usize) -> (r: Option<usize>)
    ensures
        r == reselect_last(prev, len as nat),
{
    if len == 0 {
        None
    } else {
        match prev {
            Some(i) if i < len => Some(i),
            _ => Some(len - 1),
        }
    }
}

/// Whether a step passes the step filter.
pub open spec fn step_passes(s: StepRun, f: Option<StepStatus>) -> bool {
    match f {
        None => true,
        Some(st) => s.status@ == step_status_text(st),
    }
}

/// The steps of `data` that pass the filter, in their order.
pub open spec fn filtered_steps(data: Seq<StepRun>, f: Option<StepStatus>) -> Seq<StepRun> {
    data.filter(step_filter_pred(f))
}

pub open spec fn step_filter_pred(f: Option<StepStatus>) -> spec_fn(StepRun) -> bool {
    |s: StepRun| step_passes(s, f)
}

fn passes(s: &StepRun, f: Option<StepStatus>) -> (r: bool)
    ensures
        r == step_passes(*s, f),
{
    match f {
        None => true,
        Some(st) => {
            let wanted = st.name().to_owned();
            s.status == wanted
        },
    }
}

/// Keeps the steps that pass the filter, in their order.
pub fn filter_steps(data: Vec<StepRun>, f: Option<StepStatus>) -> (r: Vec<StepRun>)
    ensures
        r@ == filtered_steps(data@, f),
{
    let ghost orig = data@;
    let mut rest = data;
    let mut kept: Vec<StepRun> = Vec::new();
    let ghost mut done: int = 0;
    while rest.len() > 0
        invariant
            0 <= done <= orig.len(),
            rest@ == orig.subrange(done, orig.len() as int),
            kept@ == orig.subrange(0, done).filter(step_filter_pred(f)),
        decreases rest.len(),
    {
        let s = rest.remove(0);
        proof {
            assert(orig.subrange(0, done + 1) =~= orig.subrange(0, done).push(s));
            orig.subrange(0, done).lemma_filter_push(s, step_filter_pred(f));
            assert(step_filter_pred(f)(s) == step_passes(s, f));
            done = done + 1;
            assert(rest@ =~= orig.subrange(done, orig.len() as int));
        }
        if passes(&s, f) {
            kept.push(s);
        }
    }
    proof {
        assert(orig.subrange(0, orig.len() as int) =~= orig);
    }
    kept
}

/// What the status line says.
#[derive(Clone, Debug, PartialEq, Eq)]
pub enum Notice {
    Ready,
    KeyHelp,
    Refreshing,
    Refreshed { millis: u64 },
    ApiBaseRequired,
    Connected { api_base: String },
    ApiBaseSet { api_base: String },
    ProjectCreated { id: i64 },
    ProtocolCreated { id: i64 },
    SpecAuditEnqueued,
    ImportEnqueued,
    BranchDeleted { branch: String },
    RunNextEnqueued,
    RetryEnqueued,
    QaEnqueued,
    Approved,
    OpenPrEnqueued,
    PlanningEnqueued,
    ProtocolPaused,
    ProtocolResumed,
    ProtocolCancelled,
    JobFilter { job_filter: Option<JobStatus> },
    StepFilter { step_filter: Option<StepStatus> },
}

/// The cache of fetched resources, the selection in each list, the filters,
/// and the status line.
#[derive(Clone, Debug)]
pub struct AppState {
    pub page: Page,
    pub projects: Vec<Project>,
    pub project_index: Option<usize>,
    pub protocols: Vec<ProtocolRun>,
    pub protocol_index: Option<usize>,
    pub steps: Vec<StepRun>,
    pub step_index: Option<usize>,
    pub step_filter: Option<StepStatus>,
    pub events: Vec<Event>,
    pub event_index: Option<usize>,
    pub recent_events: Vec<Event>,
    pub recent_event_index: Option<usize>,
    /// The queue statistics, as JSON text.
    pub queue_stats: String,
    pub queue_jobs: Vec<QueueJob>,
    pub branches: Vec<String>,
    pub branch_index: Option<usize>,
    pub job_status_filter: Option<JobStatus>,
    pub status: Notice,
    pub last_error: Option<Failure>,
    pub refreshing: bool,
}

/// The id of the item that a selection points at, if any.
pub open spec fn project_id_at(items: Seq<Project>, sel: Option<usize>) -> Option<i64> {
    match sel {
        Some(i) if i < items.len() => Some(items[i as int].id),
        _ => None,
    }
}

pub open spec fn protocol_id_at(items: Seq<ProtocolRun>, sel: Option<usize>) -> Option<i64> {
    match sel {
        Some(i) if i < items.len() => Some(items[i as int].id),
        _ => None,
    }
}

pub open spec fn step_id_at(items: Seq<StepRun>, sel: Option<usize>) -> Option<i64> {
    match sel {
        Some(i) if i < items.len() => Some(items[i as int].id),
        _ => None,
    }
}

impl AppState {
    /// Every selection points inside its list, and an empty list has none.
    pub open spec fn wf(&self) -> bool {
        &&& selection_fits(self.project_index, self.projects.len() as nat)
        &&& selection_fits(self.protocol_index, self.protocols.len() as nat)
        &&& selection_fits(self.step_index, self.steps.len() as nat)
        &&& selection_fits(self.event_index, self.events.len() as nat)
        &&& selection_fits(self.recent_event_index, self.recent_events.len() as nat)
        &&& selection_fits(self.branch_index, self.branches.len() as nat)
    }

    /// The state of a new session: nothing fetched, nothing selected, no
    /// filter, the dashboard page, the status "Ready", no error, and queue
    /// statistics that are the JSON `null`.
    pub open spec fn is_initial(&self) -> bool {
        &&& self.page == Page::Dashboard
        &&& self.projects@.len() == 0 && self.protocols@.len() == 0 && self.steps@.len() == 0
        &&& self.events@.len() == 0 && self.recent_events@.len() == 0
        &&& self.queue_jobs@.len() == 0 && self.branches@.len() == 0
        &&& self.project_index is None && self.protocol_index is None && self.step_index is None
        &&& self.event_index is None && self.recent_event_index is None && self.branch_index is None
        &&& self.step_filter is None && self.job_status_filter is None
        &&& self.queue_stats@ == "null"@
        &&& self.status == Notice::Ready
        &&& self.last_error is None
        &&& !self.refreshing
    }

    /// A state with nothing fetched, on the dashboard page; the queue
    /// statistics are the JSON `null`.
    pub fn new() -> (r: AppState)
        ensures
            r.wf(),
            r.is_initial(),
    {
        AppState {
            page: Page::Dashboard,
            projects: Vec::new(),
            project_index: None,
            protocols: Vec::new(),
            protocol_index: None,
            steps: Vec::new(),
            step_index: None,
            step_filter: None,
            events: Vec::new(),
            event_index: None,
            recent_events: Vec::new(),
            recent_event_index: None,
            queue_stats: "null".to_owned(),
            queue_jobs: Vec::new(),
            branches: Vec::new(),
            branch_index: None,
            job_status_filter: None,
            status: Notice::Ready,
            last_error: None,
            refreshing: false,
        }
    }

    pub fn select_project(&mut self, delta: i32)
        ensures
            *final(self) == (AppState {
                project_index: moved(old(self).project_index, old(self).projects.len() as nat, delta as int),
                ..*old(self)
            }),
    {
        self.project_index = move_index(self.project_index, self.projects.len(), delta);
    }

    pub fn select_protocol(&mut self, delta: i32)
        ensures
            *final(self) == (AppState {
                protocol_index: moved(old(self).protocol_index, old(self).protocols.len() as nat, delta as int),
                ..*old(self)
            }),
    {
        self.protocol_index = move_index(self.protocol_index, self.protocols.len(), delta);
    }

    pub fn select_step(&mut self, delta: i32)
        ensures
            *final(self) == (AppState {
                step_index: moved(old(self).step_index, old(self).steps.len() as nat, delta as int),
                ..*old(self)
            }),
    {
        self.step_index = move_index(self.step_index, self.steps.len(), delta);
    }

    pub fn select_branch(&mut self, delta: i32)
        ensures
            *final(self) == (AppState {
                branch_index: moved(old(self).branch_index, old(self).branches.len() as nat, delta as int),
                ..*old(self)
            }),
    {
        self.branch_index = move_index(self.branch_index, self.branches.len(), delta);
    }

    pub fn select_event(&mut self, delta: i32)
        ensures
            *final(self) == (AppState {
                event_index: moved(old(self).event_index, old(self).events.len() as nat, delta as int),
                ..*old(self)
            }),
    {
        self.event_index = move_index(self.event_index, self.events.len(), delta);
    }

    pub fn selected_project_id(&self) -> (r: Option<i64>)
        ensures
            r == project_id_at(self.projects@, self.project_index),
    {
        match self.project_index {
            Some(i) if i < self.projects.len() => Some(self.projects[i].id),
            _ => None,
        }
    }

    pub fn selected_protocol_id(&self) -> (r: Option<i64>)
        ensures
            r == protocol_id_at(self.protocols@, self.protocol_index),
    {
        match self.protocol_index {
            Some(i) if i < self.protocols.len() => Some(self.protocols[i].id),
            _ => None,
        }
    }

    pub fn selected_step_id(&self) -> (r: Option<i64>)
        ensures
            r == step_id_at(self.steps@, self.step_index),
    {
        match self.step_index {
            Some(i) if i < self.steps.len() => Some(self.steps[i].id),
            _ => None,
        }
    }

    /// Takes a fetched project list; the selection is kept if still inside, else
    /// moves to the first project.
    pub fn set_projects(&mut self, data: Vec<Project>)
        ensures
            *final(self) == (AppState {
                projects: data,
                project_index: reselect_first(old(self).project_index, data@.len()),
                ..*old(self)
            }),
    {
        self.project_index = reselected_first(self.project_index, data.len());
        self.projects = data;
    }

    /// Takes a fetched protocol list; the selection is kept if still inside, else
    /// moves to the first protocol.
    pub fn set_protocols(&mut self, data: Vec<ProtocolRun>)
        ensures
            *final(self) == (AppState {
                protocols: data,
                protocol_index: reselect_first(old(self).protocol_index, data@.len()),
                ..*old(self)
            }),
    {
        self.protocol_index = reselected_first(self.protocol_index, data.len());
        self.protocols = data;
    }

    /// Takes a fetched step list, keeping the steps that pass the step filter;
    /// the selection is kept if still inside, else moves to the newest step.
    pub fn set_steps(&mut self, data: Vec<StepRun>)
        ensures
            final(self).steps@ == filtered_steps(data@, old(self).step_filter),
            *final(self) == (AppState {
                steps: final(self).steps,
                step_index: reselect_last(
                    old(self).step_index,
                    filtered_steps(data@, old(self).step_filter).len(),
                ),
                ..*old(self)
            }),
    {
        let kept = filter_steps(data, self.step_filter);
        self.step_index = reselected_last(self.step_index, kept.len());
        self.steps = kept;
    }

    /// Takes a fetched event list of the selected protocol; the selection is kept
    /// if still inside, else moves to the newest event.
    pub fn set_events(&mut self, data: Vec<Event>)
        ensures
            *final(self) == (AppState {
                events: data,
                event_index: reselect_last(old(self).event_index, data@.len()),
                ..*old(self)
            }),
    {
        self.event_index = reselected_last(self.event_index, data.len());
        self.events = data;
    }

    /// Takes the fetched list of recent events; the selection is kept if still
    /// inside, else moves to the first event.
    pub fn set_recent_events(&mut self, data: Vec<Event>)
        ensures
            *final(self) == (AppState {
                recent_events: data,
                recent_event_index: reselect_first(old(self).recent_event_index, data@.len()),
                ..*old(self)
            }),
    {
        self.recent_event_index = reselected_first(self.recent_event_index, data.len());
        self.recent_events = data;
    }

    /// Takes a fetched branch list; the selection is kept if still inside, else
    /// moves to the first branch.
    pub fn set_branches(&mut self, list: BranchList)
        ensures
            *final(self) == (AppState {
                branches: list.branches,
                branch_index: reselect_first(old(self).branch_index, list.branches@.len()),
                ..*old(self)
            }),
    {
        self.branch_index = reselected_first(self.branch_index, list.branches.len());
        self.branches = list.branches;
    }

    pub fn clear_protocols(&mut self)
        ensures
            final(self).protocols@.len() == 0,
            *final(self) == (AppState { protocols: final(self).protocols, protocol_index: None, ..*old(self) }),
    {
        self.protocols = Vec::new();
        self.protocol_index = None;
    }

    pub fn clear_steps(&mut self)
        ensures
            final(self).steps@.len() == 0,
            *final(self) == (AppState { steps: final(self).steps, step_index: None, ..*old(self) }),
    {
        self.steps = Vec::new();
        self.step_index = None;
    }

    pub fn clear_events(&mut self)
        ensures
            final(self).events@.len() == 0,
            *final(self) == (AppState { events: final(self).events, event_index: None, ..*old(self) }),
    {
        self.events = Vec::new();
        self.event_index = None;
    }

    pub fn clear_branches(&mut self)
        ensures
            final(self).branches@.len() == 0,
            *final(self) == (AppState { branches: final(self).branches, branch_index: None, ..*old(self) }),
    {
        self.branches = Vec::new();
        self.branch_index = None;
    }
}

} // verus!
