//! Properties of the session that hold for every input, proved from the
//! contracts of the functions they speak of.

use vstd::prelude::*;
use crate::plan::{Request, Response, Task, answered, followup_tasks, issued, refresh_tasks, request_of, sent, settled_locally, with_failure};
use crate::forms::{field_text, submitted};
use crate::actions::{action_call, delete_confirm_opened, quick_call};
use crate::keys::{cascade_tasks, selection_moved};
use crate::session::{App, InputField, ModalAction, QuickAction, Screen};
use crate::state::{project_id_at, AppState, JobStatus, Notice, Page, StepStatus, filtered_steps, following_job_filter, following_step_filter, moved, protocol_id_at, reselect_first, reselect_last, selection_fits};
use crate::text::unreadable_number;
use crate::error::{ApiError, Failure, FormError};
use crate::models::{Project, ProtocolRun, StepRun};

verus! {

/// A selection moved by any amount, or taken over to a freshly fetched list,
/// is `None` exactly when the list is empty, and else points inside it.
pub proof fn lemma_selection_fits(current: Option<usize>, len: nat, delta: int)
    ensures
        selection_fits(moved(current, len, delta), len),
        selection_fits(reselect_first(current, len), len),
        selection_fits(reselect_last(current, len), len),
{
}

/// A step list that arrives empty after filtering leaves no step selected; a
/// non-empty one whose old selection falls outside selects its last step.
pub proof fn lemma_steps_favor_newest(a: AppState, data: Seq<StepRun>, r: Response, b: AppState)
    requires
        r is Steps && r->Steps_0 is Ok && r->Steps_0->Ok_0@ == data,
        answered(a, Task::LoadSteps, r, b),
    ensures
        filtered_steps(data, a.step_filter).len() == 0 ==> b.step_index is None,
        ({
            let n = filtered_steps(data, a.step_filter).len();
            n > 0 && (a.step_index is None || a.step_index->0 >= n)
                ==> b.step_index == Some((n - 1) as usize)
        }),
{
}

/// A project or protocol list that arrives non-empty, while the old
/// selection falls outside it, selects its first item.
pub proof fn lemma_projects_protocols_favor_first(
    a: AppState,
    projects: Vec<Project>,
    protocols: Vec<ProtocolRun>,
)
    requires
        projects@.len() > 0,
        protocols@.len() > 0,
    ensures
        (a.project_index is None || a.project_index->0 >= projects@.len()) ==> answered(
            a,
            Task::LoadProjects,
            Response::Projects(Ok(projects)),
            AppState { projects, project_index: Some(0usize), ..a },
        ),
        (a.protocol_index is None || a.protocol_index->0 >= protocols@.len()) ==> answered(
            a,
            Task::LoadProtocols,
            Response::Protocols(Ok(protocols)),
            AppState { protocols, protocol_index: Some(0usize), ..a },
        ),
{
}

/// With project `p` selected, the protocol fetch asks for the protocols of `p`;
/// a non-empty answer, while the old selection falls outside it, selects its
/// first protocol.
pub proof fn lemma_protocols_fetch(st: AppState, p: i64, data: Vec<ProtocolRun>)
    requires
        project_id_at(st.projects@, st.project_index) == Some(p),
        data@.len() > 0,
        st.protocol_index is None || st.protocol_index->0 >= data@.len(),
    ensures
        request_of(st, Task::LoadProtocols) == Some(Request::Protocols { project_id: p }),
        sent(Task::LoadProtocols) == Task::LoadProtocols,
        answered(
            st,
            Task::LoadProtocols,
            Response::Protocols(Ok(data)),
            AppState { protocols: data, protocol_index: Some(0usize), ..st },
        ),
{
}

/// Whether a task leaves the queue's data alone, whatever its answer.
pub open spec fn keeps_queue(t: Task) -> bool {
    &&& forall|st: AppState, r: Response, st2: AppState| #[trigger] answered(st, t, r, st2)
        ==> st2.queue_stats == st.queue_stats && st2.queue_jobs == st.queue_jobs
    &&& forall|st: AppState, st2: AppState| #[trigger] settled_locally(st, t, st2)
        ==> st2.queue_stats == st.queue_stats && st2.queue_jobs == st.queue_jobs
    &&& forall|st: AppState| #[trigger] issued(st, t).queue_stats == st.queue_stats
        && issued(st, t).queue_jobs == st.queue_jobs
}

/// Moving the project selection queues fetches of exactly the protocols,
/// steps, events and branches, and none of them touches the queue's data.
pub proof fn lemma_project_cascade(a: App, delta: int, b: App)
    requires
        a.state.page == Page::Projects || a.state.page == Page::Dashboard,
        selection_moved(a, delta, b),
    ensures
        b.plan@ == a.plan@ + seq![Task::LoadProtocols, Task::LoadSteps, Task::LoadEvents, Task::LoadBranches],
        b.state.project_index == moved(a.state.project_index, a.state.projects@.len(), delta),
        b.state.queue_stats == a.state.queue_stats,
        b.state.queue_jobs == a.state.queue_jobs,
        forall|i: int| 0 <= i < cascade_tasks(a.state.page).len() ==> keeps_queue(
            #[trigger] cascade_tasks(a.state.page)[i],
        ),
{
    assert forall|i: int| 0 <= i < cascade_tasks(a.state.page).len() implies keeps_queue(
        #[trigger] cascade_tasks(a.state.page)[i],
    ) by {
        let t = cascade_tasks(a.state.page)[i];
        assert forall|st: AppState, r: Response, st2: AppState| #[trigger] answered(st, t, r, st2)
            implies st2.queue_stats == st.queue_stats && st2.queue_jobs == st.queue_jobs by {
        }
    }
}

/// Whether a task is one of the fetches of the refresh sequence.
pub open spec fn is_fetch(t: Task) -> bool {
    !(t is Call) && !(t is BeginRefresh) && !(t is EndRefresh)
}

/// A fetch that fails records its error in the error slot, changes nothing
/// else, and queues nothing: the tasks after it still run. So when the
/// protocols fail during a refresh, the later fetches of the sequence remain.
pub proof fn lemma_failure_isolated(st: AppState, screen: Screen, t: Task, r: Response, e: ApiError)
    requires
        is_fetch(t),
        r == match t {
            Task::LoadProjects => Response::Projects(Err(e)),
            Task::LoadProtocols => Response::Protocols(Err(e)),
            Task::LoadSteps => Response::Steps(Err(e)),
            Task::LoadEvents => Response::Events(Err(e)),
            Task::LoadRecentEvents => Response::RecentEvents(Err(e)),
            Task::LoadQueueStats => Response::QueueStats(Err(e)),
            Task::LoadQueueJobs => Response::QueueJobs(Err(e)),
            _ => Response::Branches(Err(e)),
        },
    ensures
        answered(st, t, r, with_failure(st, e)),
        with_failure(st, e).last_error == Some(Failure::Api(e)),
        forall|t2: Task| #[trigger] request_of(with_failure(st, e), t2) == request_of(st, t2),
        followup_tasks(screen, t, r) == Seq::<Task>::empty(),
        refresh_tasks().subrange(3, 10) == seq![
            Task::LoadSteps,
            Task::LoadEvents,
            Task::LoadRecentEvents,
            Task::LoadQueueStats,
            Task::LoadQueueJobs,
            Task::LoadBranches,
            Task::EndRefresh,
        ],
        refresh_tasks()[2] == Task::LoadProtocols,
{
    assert(followup_tasks(screen, t, r) =~= Seq::<Task>::empty());
    assert(refresh_tasks().subrange(3, 10) =~= seq![
        Task::LoadSteps,
        Task::LoadEvents,
        Task::LoadRecentEvents,
        Task::LoadQueueStats,
        Task::LoadQueueJobs,
        Task::LoadBranches,
        Task::EndRefresh,
    ]);
}

/// Whether `r` is a successful answer to the fetch `t`.
pub open spec fn fetch_succeeded(t: Task, r: Response) -> bool {
    match t {
        Task::LoadProjects => r is Projects && r->Projects_0 is Ok,
        Task::LoadProtocols => r is Protocols && r->Protocols_0 is Ok,
        Task::LoadSteps => r is Steps && r->Steps_0 is Ok,
        Task::LoadEvents => r is Events && r->Events_0 is Ok,
        Task::LoadRecentEvents => r is RecentEvents && r->RecentEvents_0 is Ok,
        Task::LoadQueueStats => r is QueueStats && r->QueueStats_0 is Ok,
        Task::LoadQueueJobs => r is QueueJobs && r->QueueJobs_0 is Ok,
        Task::LoadBranches => r is Branches && r->Branches_0 is Ok,
        _ => false,
    }
}

/// The fetches that succeed after a failure, and the end of the sequence,
/// leave the error slot as it was: the failure stays visible once the
/// refresh is over.
pub proof fn lemma_error_persists(st: AppState, t: Task, r: Response, st2: AppState)
    requires
        fetch_succeeded(t, r) || t is EndRefresh,
        answered(st, t, r, st2) || settled_locally(st, t, st2),
    ensures
        st2.last_error == st.last_error,
{
}

/// The step filter after `k` cycles from `f`.
pub open spec fn step_filter_after(f: Option<StepStatus>, k: nat) -> Option<StepStatus>
    decreases k,
{
    if k == 0 {
        f
    } else {
        following_step_filter(step_filter_after(f, (k - 1) as nat))
    }
}

/// The job filter after `k` cycles from `f`.
pub open spec fn job_filter_after(f: Option<JobStatus>, k: nat) -> Option<JobStatus>
    decreases k,
{
    if k == 0 {
        f
    } else {
        following_job_filter(job_filter_after(f, (k - 1) as nat))
    }
}

/// Five cycles of the step filter, and no fewer, bring it back to where it
/// was; from the unfiltered state the fifth cycle returns to it.
pub proof fn lemma_step_filter_cycle(f: Option<StepStatus>)
    ensures
        step_filter_after(f, 5) == f,
        forall|k: nat| 0 < k < 5 ==> #[trigger] step_filter_after(f, k) != f,
{
    reveal_with_fuel(step_filter_after, 6);
    assert forall|k: nat| 0 < k < 5 implies #[trigger] step_filter_after(f, k) != f by {
        reveal_with_fuel(step_filter_after, 6);
    }
}

/// The same of the job filter.
pub proof fn lemma_job_filter_cycle(f: Option<JobStatus>)
    ensures
        job_filter_after(f, 5) == f,
        forall|k: nat| 0 < k < 5 ==> #[trigger] job_filter_after(f, k) != f,
{
    reveal_with_fuel(job_filter_after, 6);
    assert forall|k: nat| 0 < k < 5 implies #[trigger] job_filter_after(f, k) != f by {
        reveal_with_fuel(job_filter_after, 6);
    }
}

/// A create-project form whose name is blank is refused: the failure is a
/// validation error, nothing is queued, and the project list stays as it was.
pub proof fn lemma_blank_project_name_rejected(a: App, fields: Seq<InputField>, b: App)
    requires
        fields.len() >= 3,
        field_text(fields, 0).len() == 0,
        submitted(a, ModalAction::CreateProject, fields, b),
    ensures
        b.state.last_error == Some(Failure::Validation(FormError::ProjectNameOrGitUrl)),
        b.plan == a.plan,
        b.state.projects == a.state.projects,
        b.state.project_index == a.state.project_index,
{
}

/// A spec-audit form whose interval field holds text that is not an integer is
/// refused: the failure is a validation error and nothing is queued.
pub proof fn lemma_unreadable_interval_rejected(a: App, fields: Seq<InputField>, b: App)
    requires
        fields.len() >= 4,
        unreadable_number(fields[3].value@),
        submitted(a, ModalAction::SpecAudit, fields, b),
    ensures
        b.state.last_error == Some(Failure::Validation(FormError::UnreadableNumber)),
        b.plan == a.plan,
{
}

/// Running the next step of the selected protocol sends one request for that
/// protocol; when it succeeds the status tells so and the full refresh
/// sequence is queued.
pub proof fn lemma_run_next_then_refresh(st: AppState, id: i64)
    requires
        protocol_id_at(st.protocols@, st.protocol_index) == Some(id),
    ensures
        ({
            let call = quick_call(st, QuickAction::RunNext)->0;
            &&& quick_call(st, QuickAction::RunNext) == Some(
                action_call(Request::RunNextStep { protocol_id: id }, Notice::RunNextEnqueued),
            )
            &&& request_of(st, call) == Some(Request::RunNextStep { protocol_id: id })
            &&& answered(
                st,
                sent(call),
                Response::Done(Ok(())),
                AppState { status: Notice::RunNextEnqueued, ..st },
            )
            &&& followup_tasks(Screen::Dashboard, sent(call), Response::Done(Ok(()))) == refresh_tasks()
        }),
{
}

/// Without a branch to delete the deletion shortcut changes nothing: a
/// confirmation only opens over a selected branch.
pub proof fn lemma_delete_needs_branch(a: App, b: App)
    requires
        a.wf(),
        a.state.branches@.len() == 0,
        delete_confirm_opened(a, b),
    ensures
        b == a,
{
}

} // verus!
