use tui_rs::models::StepRun;
use tui_rs::state::{
    filter_steps, move_index, next_job_filter, next_step_filter, page_label, AppState, JobStatus,
    Page, StepStatus,
};
use tui_rs::text::{answer_is_yes, read_optional_number};

fn step(id: i64, status: &str) -> StepRun {
    StepRun {
        id,
        protocol_run_id: 10,
        step_index: id as i32,
        step_name: format!("step-{id}"),
        step_type: None,
        status: status.to_string(),
        retries: 0,
        summary: None,
    }
}

fn fresh_state() -> AppState {
    AppState::new()
}

#[test]
fn move_index_on_empty_list_selects_nothing() {
    assert_eq!(move_index(None, 0, 1), None);
    assert_eq!(move_index(Some(3), 0, -1), None);
}

#[test]
fn move_index_starts_from_first_when_unselected() {
    assert_eq!(move_index(None, 3, 1), Some(1));
    assert_eq!(move_index(None, 3, 0), Some(0));
    assert_eq!(move_index(None, 3, -1), Some(0));
}

#[test]
fn move_index_clamps_at_both_ends() {
    assert_eq!(move_index(Some(2), 3, 1), Some(2));
    assert_eq!(move_index(Some(0), 3, -1), Some(0));
    assert_eq!(move_index(Some(1), 3, 5), Some(2));
    assert_eq!(move_index(Some(1), 3, i32::MIN), Some(0));
    assert_eq!(move_index(Some(1), 3, i32::MAX), Some(2));
    assert_eq!(move_index(Some(9), 3, -1), Some(2));
}

#[test]
fn move_index_moves_inside() {
    assert_eq!(move_index(Some(1), 5, 2), Some(3));
    assert_eq!(move_index(Some(4), 5, -3), Some(1));
}

#[test]
fn pages_cycle_both_ways() {
    let mut p = Page::Dashboard;
    let order = [
        Page::Projects,
        Page::Protocols,
        Page::Steps,
        Page::Events,
        Page::Queues,
        Page::Settings,
        Page::Dashboard,
    ];
    for expected in order {
        p = p.next();
        assert_eq!(p, expected);
    }
    assert_eq!(Page::Dashboard.prev(), Page::Settings);
    assert_eq!(Page::Projects.prev(), Page::Dashboard);
    for page in order {
        assert_eq!(page.next().prev(), page);
    }
}

#[test]
fn page_labels() {
    assert_eq!(page_label(Page::Dashboard), "Dashboard");
    assert_eq!(page_label(Page::Queues), "Queues");
    assert_eq!(page_label(Page::Settings), "Settings");
}

#[test]
fn step_filter_cycle_returns_after_five() {
    let mut f: Option<StepStatus> = None;
    let mut seen = Vec::new();
    for _ in 0..5 {
        f = next_step_filter(f);
        seen.push(f);
    }
    assert_eq!(f, None);
    assert_eq!(
        seen,
        vec![
            Some(StepStatus::Pending),
            Some(StepStatus::Running),
            Some(StepStatus::NeedsQa),
            Some(StepStatus::Failed),
            None
        ]
    );
    assert_eq!(StepStatus::NeedsQa.name(), "needs_qa");
}

#[test]
fn job_filter_cycle_returns_after_five() {
    let mut f: Option<JobStatus> = Some(JobStatus::Started);
    for k in 1..=5 {
        f = next_job_filter(f);
        if k < 5 {
            assert_ne!(f, Some(JobStatus::Started));
        }
    }
    assert_eq!(f, Some(JobStatus::Started));
    assert_eq!(JobStatus::Finished.name(), "finished");
}

#[test]
fn filter_keeps_matching_steps_in_order() {
    let data = vec![step(1, "pending"), step(2, "failed"), step(3, "pending"), step(4, "running")];
    let kept = filter_steps(data.clone(), Some(StepStatus::Pending));
    assert_eq!(kept.iter().map(|s| s.id).collect::<Vec<_>>(), vec![1, 3]);
    let all = filter_steps(data.clone(), None);
    assert_eq!(all, data);
    assert!(filter_steps(data, Some(StepStatus::NeedsQa)).is_empty());
}

#[test]
fn steps_replaced_empty_clears_selection() {
    let mut st = fresh_state();
    st.set_steps(vec![step(1, "pending"), step(2, "pending")]);
    assert_eq!(st.step_index, Some(1));
    st.step_filter = Some(StepStatus::Failed);
    st.set_steps(vec![step(1, "pending")]);
    assert!(st.steps.is_empty());
    assert_eq!(st.step_index, None);
}

#[test]
fn steps_replaced_out_of_range_selects_newest() {
    let mut st = fresh_state();
    st.set_steps(vec![step(1, "pending"), step(2, "pending"), step(3, "pending"), step(4, "failed")]);
    assert_eq!(st.step_index, Some(3));
    st.set_steps(vec![step(1, "pending"), step(2, "pending")]);
    assert_eq!(st.step_index, Some(1));
    st.select_step(-1);
    assert_eq!(st.step_index, Some(0));
    st.set_steps(vec![step(1, "pending"), step(2, "pending"), step(3, "x")]);
    assert_eq!(st.step_index, Some(0));
}

#[test]
fn selections_fit_after_moves_and_replacements() {
    let mut st = fresh_state();
    st.select_project(1);
    assert_eq!(st.project_index, None);
    st.set_branches(tui_rs::models::BranchList { branches: vec!["main".into(), "dev".into()] });
    assert_eq!(st.branch_index, Some(0));
    st.select_branch(7);
    assert_eq!(st.branch_index, Some(1));
    st.set_branches(tui_rs::models::BranchList { branches: vec![] });
    assert_eq!(st.branch_index, None);
    st.set_recent_events(vec![]);
    assert_eq!(st.recent_event_index, None);
    st.clear_steps();
    assert_eq!(st.step_index, None);
    assert_eq!(st.selected_step_id(), None);
}

#[test]
fn yes_answers_and_numbers() {
    assert!(answer_is_yes(" Yes "));
    assert!(answer_is_yes("y"));
    assert!(!answer_is_yes("no"));
    assert!(!answer_is_yes("   "));
    assert_eq!(read_optional_number(" 42 "), Some(42));
    assert_eq!(read_optional_number("-7"), Some(-7));
    assert_eq!(read_optional_number("x1"), None);
    assert_eq!(read_optional_number(""), None);
    assert_eq!(read_optional_number("   "), None);
    assert_eq!(read_optional_number("+5"), Some(5));
    assert_eq!(read_optional_number("-"), None);
    assert_eq!(read_optional_number("99999999999999999999"), None);
    assert_eq!(read_optional_number("-9223372036854775808"), Some(i64::MIN));
}
