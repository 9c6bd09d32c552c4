use tui_rs::error::{ApiError, Failure, FormError};
use tui_rs::models::{BranchList, Event, Project, ProtocolRun, StepRun};
use tui_rs::plan::{Followup, ProtocolVerb, Request, Response, Success, Task};
use tui_rs::session::{App, KeyCode, KeyPress, Modal, ModalAction, QuickAction, Screen};
use tui_rs::state::{Notice, Page, StepStatus};

fn key(code: KeyCode) -> KeyPress {
    KeyPress { code, ctrl: false, shift: false }
}

fn ch(c: char) -> KeyPress {
    key(KeyCode::Char(c))
}

fn project(id: i64, name: &str) -> Project {
    Project { id, name: name.to_string(), git_url: None, base_branch: None, updated_at: None }
}

fn protocol(id: i64, project_id: i64, name: &str, status: &str) -> ProtocolRun {
    ProtocolRun {
        id,
        project_id,
        protocol_name: name.to_string(),
        status: Some(status.to_string()),
        base_branch: None,
        description: None,
        updated_at: None,
    }
}

fn step(id: i64, status: &str) -> StepRun {
    StepRun {
        id,
        protocol_run_id: 10,
        step_index: id as i32,
        step_name: format!("step-{id}"),
        step_type: None,
        status: status.to_string(),
        retries: 0,
        summary: None,
    }
}

fn event(id: i64) -> Event {
    Event {
        id,
        protocol_run_id: 10,
        step_run_id: None,
        event_type: "note".into(),
        message: format!("event {id}"),
        created_at: "2024-01-01T00:00:00Z".into(),
        metadata: None,
        protocol_name: None,
        project_id: None,
        project_name: None,
    }
}

/// A scripted service: answers each request from its lists and logs it.
#[derive(Default)]
struct Service {
    projects: Vec<Project>,
    protocols: Vec<ProtocolRun>,
    steps: Vec<StepRun>,
    events: Vec<Event>,
    branches: Vec<String>,
    fail_protocols: bool,
    fail_actions: bool,
    log: Vec<Request>,
}

impl Service {
    fn answer(&mut self, req: &Request) -> Response {
        self.log.push(req.clone());
        match req {
            Request::Projects => Response::Projects(Ok(self.projects.clone())),
            Request::Protocols { project_id } => {
                if self.fail_protocols {
                    Response::Protocols(Err(ApiError::Http { status: 500, message: "boom".into() }))
                } else {
                    Response::Protocols(Ok(self
                        .protocols
                        .iter()
                        .filter(|p| p.project_id == *project_id)
                        .cloned()
                        .collect()))
                }
            }
            Request::Steps { .. } => Response::Steps(Ok(self.steps.clone())),
            Request::Events { .. } => Response::Events(Ok(self.events.clone())),
            Request::RecentEvents { .. } => Response::RecentEvents(Ok(self.events.clone())),
            Request::QueueStats => Response::QueueStats(Ok("{\"queued\":1}".into())),
            Request::QueueJobs { .. } => Response::QueueJobs(Ok(vec![])),
            Request::Branches { .. } => {
                Response::Branches(Ok(BranchList { branches: self.branches.clone() }))
            }
            Request::StartClock => Response::Done(Ok(())),
            Request::ReadClock => Response::Elapsed { millis: 12 },
            Request::CreateProject { .. } | Request::CreateProtocol { .. } => {
                if self.fail_actions {
                    Response::Created(Err(ApiError::Transport("refused".into())))
                } else {
                    Response::Created(Ok(77))
                }
            }
            _ => {
                if self.fail_actions {
                    Response::Done(Err(ApiError::Http { status: 409, message: "busy".into() }))
                } else {
                    Response::Done(Ok(()))
                }
            }
        }
    }
}

fn drain(app: &mut App, svc: &mut Service) {
    let mut rounds = 0;
    while app.has_pending_work() {
        rounds += 1;
        assert!(rounds < 1000);
        if let Some(req) = app.advance() {
            let resp = svc.answer(&req);
            app.complete(resp);
        }
    }
}

fn fetches_only(log: &[Request]) -> Vec<&'static str> {
    log.iter()
        .filter_map(|r| match r {
            Request::Projects => Some("projects"),
            Request::Protocols { .. } => Some("protocols"),
            Request::Steps { .. } => Some("steps"),
            Request::Events { .. } => Some("events"),
            Request::RecentEvents { .. } => Some("recent"),
            Request::QueueStats => Some("stats"),
            Request::QueueJobs { .. } => Some("jobs"),
            Request::Branches { .. } => Some("branches"),
            _ => None,
        })
        .collect()
}

/// A session on the dashboard after its first refresh.
fn dashboard(svc: &mut Service) -> App {
    let mut app = App::new("http://localhost:8011".to_string(), true);
    assert!(!app.handle_event(key(KeyCode::Enter)));
    assert_eq!(app.screen, Screen::Dashboard);
    drain(&mut app, svc);
    app
}

#[test]
fn first_refresh_runs_the_whole_sequence() {
    let mut svc = Service {
        projects: vec![project(1, "A")],
        protocols: vec![protocol(10, 1, "p", "pending")],
        steps: vec![step(5, "pending"), step(6, "running")],
        events: vec![event(1), event(2)],
        branches: vec!["main".into()],
        ..Default::default()
    };
    let app = dashboard(&mut svc);
    assert_eq!(
        fetches_only(&svc.log),
        vec!["projects", "protocols", "steps", "events", "recent", "stats", "jobs", "branches"]
    );
    assert_eq!(app.state.project_index, Some(0));
    assert_eq!(app.state.protocol_index, Some(0));
    assert_eq!(app.state.step_index, Some(1));
    assert_eq!(app.state.event_index, Some(1));
    assert_eq!(app.state.recent_event_index, Some(0));
    assert_eq!(app.state.branch_index, Some(0));
    assert_eq!(app.state.queue_stats, "{\"queued\":1}");
    assert_eq!(app.state.status, Notice::Refreshed { millis: 12 });
    assert!(!app.state.refreshing);
    assert_eq!(app.state.last_error, None);
}

#[test]
fn scenario_select_project_then_run_next() {
    let mut svc = Service {
        projects: vec![project(1, "A")],
        protocols: vec![protocol(10, 1, "p", "pending")],
        ..Default::default()
    };
    let mut app = dashboard(&mut svc);
    assert_eq!(app.state.selected_project_id(), Some(1));
    assert_eq!(app.state.protocol_index, Some(0));
    assert_eq!(app.state.selected_protocol_id(), Some(10));

    svc.log.clear();
    assert!(!app.handle_event(ch('n')));
    drain(&mut app, &mut svc);
    let actions: Vec<&Request> = svc
        .log
        .iter()
        .filter(|r| matches!(r, Request::RunNextStep { .. }))
        .collect();
    assert_eq!(actions, vec![&Request::RunNextStep { protocol_id: 10 }]);
    assert!(matches!(svc.log[0], Request::RunNextStep { protocol_id: 10 }));
    assert_eq!(
        fetches_only(&svc.log),
        vec!["projects", "protocols", "steps", "events", "recent", "stats", "jobs", "branches"]
    );
    assert_eq!(app.state.status, Notice::Refreshed { millis: 12 });
}

#[test]
fn run_next_success_sets_notice_and_queues_refresh() {
    let mut svc = Service {
        projects: vec![project(1, "A")],
        protocols: vec![protocol(10, 1, "p", "pending")],
        ..Default::default()
    };
    let mut app = dashboard(&mut svc);
    app.run_next();
    assert_eq!(app.plan.len(), 1);
    let req = app.advance();
    assert_eq!(req, Some(Request::RunNextStep { protocol_id: 10 }));
    app.complete(Response::Done(Ok(())));
    assert_eq!(app.state.status, Notice::RunNextEnqueued);
    assert_eq!(app.plan.len(), 10);
    assert_eq!(app.plan[0], Task::BeginRefresh);
    assert_eq!(app.plan[9], Task::EndRefresh);
}

#[test]
fn failed_action_records_error_and_changes_nothing() {
    let mut svc = Service {
        projects: vec![project(1, "A")],
        protocols: vec![protocol(10, 1, "p", "pending")],
        ..Default::default()
    };
    let mut app = dashboard(&mut svc);
    svc.fail_actions = true;
    let before = app.state.clone();
    app.protocol_action(ProtocolVerb::Pause);
    drain(&mut app, &mut svc);
    assert_eq!(svc.log.last(), Some(&Request::ProtocolAction { protocol_id: 10, verb: ProtocolVerb::Pause }));
    assert_eq!(
        app.state.last_error,
        Some(Failure::Api(ApiError::Http { status: 409, message: "busy".into() }))
    );
    assert_eq!(app.state.projects, before.projects);
    assert_eq!(app.state.status, before.status);
}

#[test]
fn actions_without_selection_do_nothing() {
    let mut svc = Service::default();
    let mut app = dashboard(&mut svc);
    for c in ['n', 't', 'y', 'a', 'o', 's', 'p', 'e', 'x'] {
        app.handle_event(ch(c));
    }
    assert!(!app.has_pending_work());
}

#[test]
fn project_move_cascades_without_touching_queue() {
    let mut svc = Service {
        projects: vec![project(1, "A"), project(2, "B")],
        protocols: vec![protocol(10, 1, "p", "pending"), protocol(20, 2, "q", "running")],
        steps: vec![step(5, "pending")],
        branches: vec!["main".into()],
        ..Default::default()
    };
    let mut app = dashboard(&mut svc);
    app.handle_event(ch('2'));
    assert_eq!(app.state.page, Page::Projects);
    let stats = app.state.queue_stats.clone();
    let jobs = app.state.queue_jobs.clone();
    svc.log.clear();
    app.handle_event(key(KeyCode::Down));
    assert_eq!(
        app.plan,
        vec![Task::LoadProtocols, Task::LoadSteps, Task::LoadEvents, Task::LoadBranches]
    );
    svc.protocols[0].id = 11;
    drain(&mut app, &mut svc);
    assert_eq!(fetches_only(&svc.log), vec!["protocols", "steps", "events", "branches"]);
    assert_eq!(svc.log[0], Request::Protocols { project_id: 2 });
    assert_eq!(app.state.selected_protocol_id(), Some(20));
    assert_eq!(app.state.queue_stats, stats);
    assert_eq!(app.state.queue_jobs, jobs);
}

#[test]
fn protocol_move_cascades_to_steps_and_events() {
    let mut svc = Service {
        projects: vec![project(1, "A")],
        protocols: vec![protocol(10, 1, "p", "pending"), protocol(11, 1, "q", "pending")],
        ..Default::default()
    };
    let mut app = dashboard(&mut svc);
    app.handle_event(key(KeyCode::Tab));
    app.handle_event(key(KeyCode::Tab));
    assert_eq!(app.state.page, Page::Protocols);
    svc.log.clear();
    app.handle_event(ch('j'));
    assert_eq!(app.plan, vec![Task::LoadSteps, Task::LoadEvents]);
    drain(&mut app, &mut svc);
    assert_eq!(svc.log, vec![Request::Steps { protocol_id: 11 }, Request::Events { protocol_id: 11 }]);
}

#[test]
fn protocols_failure_does_not_stop_later_fetches() {
    let mut svc = Service {
        projects: vec![project(1, "A")],
        protocols: vec![protocol(10, 1, "p", "pending")],
        steps: vec![step(5, "pending")],
        ..Default::default()
    };
    let mut app = dashboard(&mut svc);
    svc.fail_protocols = true;
    svc.log.clear();
    app.handle_event(ch('r'));
    drain(&mut app, &mut svc);
    assert_eq!(
        fetches_only(&svc.log),
        vec!["projects", "protocols", "steps", "events", "recent", "stats", "jobs", "branches"]
    );
    assert_eq!(
        app.state.last_error,
        Some(Failure::Api(ApiError::Http { status: 500, message: "boom".into() }))
    );
    assert_eq!(app.state.protocols.len(), 1);
    assert_eq!(app.state.steps.len(), 1);
}

#[test]
fn answer_of_wrong_kind_counts_as_unexpected() {
    let mut svc = Service { projects: vec![project(1, "A")], ..Default::default() };
    let mut app = dashboard(&mut svc);
    app.refresh_all();
    assert_eq!(app.advance(), Some(Request::StartClock));
    app.complete(Response::Done(Ok(())));
    assert_eq!(app.advance(), Some(Request::Projects));
    app.complete(Response::QueueJobs(Ok(vec![])));
    assert_eq!(app.state.last_error, Some(Failure::Api(ApiError::Unexpected)));
    assert_eq!(app.state.projects.len(), 1);
}

#[test]
fn transport_error_is_recorded() {
    let mut svc = Service { projects: vec![project(1, "A")], ..Default::default() };
    let mut app = dashboard(&mut svc);
    app.refresh_all();
    app.advance();
    app.complete(Response::Done(Ok(())));
    app.advance();
    app.complete(Response::Projects(Err(ApiError::Transport("reset".into()))));
    assert_eq!(app.state.last_error, Some(Failure::Api(ApiError::Transport("reset".into()))));
}

#[test]
fn step_filter_cycles_back_after_five_and_refetches_steps_only() {
    let mut svc = Service {
        projects: vec![project(1, "A")],
        protocols: vec![protocol(10, 1, "p", "pending")],
        steps: vec![step(1, "pending"), step(2, "failed"), step(3, "running")],
        ..Default::default()
    };
    let mut app = dashboard(&mut svc);
    for k in 1..=5 {
        svc.log.clear();
        app.handle_event(ch('f'));
        assert_eq!(app.plan, vec![Task::LoadSteps]);
        drain(&mut app, &mut svc);
        assert_eq!(svc.log, vec![Request::Steps { protocol_id: 10 }]);
        if k == 1 {
            assert_eq!(app.state.step_filter, Some(StepStatus::Pending));
            assert_eq!(app.state.steps.iter().map(|s| s.id).collect::<Vec<_>>(), vec![1]);
        }
        if k == 3 {
            assert_eq!(app.state.step_filter, Some(StepStatus::NeedsQa));
            assert!(app.state.steps.is_empty());
            assert_eq!(app.state.step_index, None);
        }
    }
    assert_eq!(app.state.step_filter, None);
    assert_eq!(app.state.status, Notice::StepFilter { step_filter: None });
    assert_eq!(app.state.steps.len(), 3);
    assert_eq!(app.state.step_index, Some(0));
}

#[test]
fn job_filter_refetches_queue_only() {
    let mut svc = Service::default();
    let mut app = dashboard(&mut svc);
    svc.log.clear();
    app.handle_event(ch('J'));
    drain(&mut app, &mut svc);
    assert_eq!(
        svc.log,
        vec![Request::QueueStats, Request::QueueJobs { status: Some(tui_rs::state::JobStatus::Queued) }]
    );
}

fn type_text(app: &mut App, text: &str) {
    for c in text.chars() {
        app.handle_event(ch(c));
    }
}

#[test]
fn blank_project_name_is_refused_without_a_call() {
    let mut svc = Service { projects: vec![project(1, "A")], ..Default::default() };
    let mut app = dashboard(&mut svc);
    let projects = app.state.projects.clone();
    app.handle_event(ch('g'));
    app.handle_event(key(KeyCode::Tab));
    type_text(&mut app, "git@host:repo.git");
    svc.log.clear();
    app.handle_event(key(KeyCode::Enter));
    assert!(app.modal.is_none());
    assert!(!app.has_pending_work());
    assert_eq!(
        app.state.last_error,
        Some(Failure::Validation(FormError::ProjectNameOrGitUrl))
    );
    assert_eq!(app.state.projects, projects);
    assert!(svc.log.is_empty());
}

#[test]
fn create_project_sends_trimmed_values() {
    let mut svc = Service::default();
    let mut app = dashboard(&mut svc);
    app.handle_event(ch('g'));
    type_text(&mut app, "  demo  ");
    app.handle_event(key(KeyCode::Tab));
    type_text(&mut app, "url");
    app.handle_event(key(KeyCode::Tab));
    for _ in 0..4 {
        app.handle_event(key(KeyCode::Backspace));
    }
    assert!(matches!(&app.modal, Some(Modal::Form { fields, .. }) if fields[2].value.is_empty()));
    app.handle_event(key(KeyCode::Enter));
    assert_eq!(
        app.plan[0],
        Task::Call {
            request: Some(Request::CreateProject {
                name: "demo".into(),
                git_url: "url".into(),
                base_branch: "main".into()
            }),
            success: Success::ProjectCreated,
            then: Followup::RefreshAll,
        }
    );
    drain(&mut app, &mut svc);
    assert_eq!(app.state.status, Notice::Refreshed { millis: 12 });
    assert!(svc.log.contains(&Request::Projects));
}

#[test]
fn created_project_sets_status_with_its_id() {
    let mut svc = Service::default();
    let mut app = dashboard(&mut svc);
    app.open_project_modal();
    type_text(&mut app, "n");
    app.handle_event(key(KeyCode::Tab));
    type_text(&mut app, "g");
    app.handle_event(key(KeyCode::Enter));
    assert_eq!(app.advance().map(|r| matches!(r, Request::CreateProject { .. })), Some(true));
    app.complete(Response::Created(Ok(77)));
    assert_eq!(app.state.status, Notice::ProjectCreated { id: 77 });
}

#[test]
fn create_protocol_needs_a_project_and_a_name() {
    let mut svc = Service::default();
    let mut app = dashboard(&mut svc);
    app.handle_event(ch('R'));
    app.handle_event(key(KeyCode::Enter));
    assert_eq!(app.state.last_error, Some(Failure::NoProjectSelected));

    let mut svc = Service { projects: vec![project(1, "A")], ..Default::default() };
    let mut app = dashboard(&mut svc);
    app.handle_event(ch('R'));
    app.handle_event(key(KeyCode::Enter));
    assert_eq!(app.state.last_error, Some(Failure::Validation(FormError::ProtocolName)));
    assert!(!app.has_pending_work());

    app.handle_event(ch('R'));
    type_text(&mut app, "plan");
    app.handle_event(key(KeyCode::BackTab));
    type_text(&mut app, " about it ");
    app.handle_event(key(KeyCode::Enter));
    assert_eq!(
        app.advance(),
        Some(Request::CreateProtocol {
            project_id: 1,
            protocol_name: "plan".into(),
            base_branch: "main".into(),
            description: Some("about it".into()),
        })
    );
    app.complete(Response::Created(Ok(5)));
    assert_eq!(app.state.status, Notice::ProtocolCreated { id: 5 });
    assert_eq!(app.state.protocol_index, None);
}

#[test]
fn import_needs_name_and_path() {
    let mut svc = Service { projects: vec![project(1, "A")], ..Default::default() };
    let mut app = dashboard(&mut svc);
    app.handle_event(ch('i'));
    type_text(&mut app, "name");
    app.handle_event(key(KeyCode::Enter));
    assert_eq!(
        app.state.last_error,
        Some(Failure::Validation(FormError::ProtocolNameOrWorkspacePath))
    );
    app.handle_event(ch('i'));
    type_text(&mut app, "name");
    app.handle_event(key(KeyCode::Tab));
    type_text(&mut app, "/ws");
    app.handle_event(key(KeyCode::BackTab));
    app.handle_event(key(KeyCode::BackTab));
    app.handle_event(key(KeyCode::Backspace));
    type_text(&mut app, "N");
    app.handle_event(key(KeyCode::Enter));
    assert_eq!(
        app.advance(),
        Some(Request::ImportCodeMachine {
            project_id: 1,
            protocol_name: "name".into(),
            workspace_path: "/ws".into(),
            base_branch: "main".into(),
            description: None,
            enqueue: false,
        })
    );
}

#[test]
fn spec_audit_form_prefills_ids_and_parses_fields() {
    let mut svc = Service {
        projects: vec![project(12, "A")],
        protocols: vec![protocol(-3, 12, "p", "pending")],
        ..Default::default()
    };
    let mut app = dashboard(&mut svc);
    app.handle_event(ch('A'));
    match &app.modal {
        Some(Modal::Form { fields, action, focus, .. }) => {
            assert_eq!(*action, ModalAction::SpecAudit);
            assert_eq!(*focus, 0);
            assert_eq!(fields[0].value, "12");
            assert_eq!(fields[1].value, "-3");
            assert_eq!(fields[2].value, "y");
        }
        other => panic!("unexpected modal {other:?}"),
    }
    app.handle_event(key(KeyCode::BackTab));
    type_text(&mut app, " 60");
    app.handle_event(key(KeyCode::Enter));
    assert_eq!(
        app.advance(),
        Some(Request::SpecAudit {
            project_id: Some(12),
            protocol_id: Some(-3),
            backfill: true,
            interval_seconds: Some(60),
        })
    );
}

#[test]
fn configure_gateway_takes_new_address() {
    let mut svc = Service::default();
    let mut app = dashboard(&mut svc);
    app.handle_event(ch('c'));
    for _ in 0.."http://localhost:8011".len() {
        app.handle_event(key(KeyCode::Backspace));
    }
    type_text(&mut app, "http://remote:9000");
    app.handle_event(key(KeyCode::Tab));
    type_text(&mut app, "SECRET-REDACTED");
    app.handle_event(key(KeyCode::Enter));
    assert_eq!(app.api_base, "http://remote:9000");
    assert_eq!(
        app.advance(),
        Some(Request::Connect {
            api_base: "http://remote:9000".into(),
            token: Some("SECRET-REDACTED".into()),
            project_token: None,
        })
    );
    app.complete(Response::Done(Ok(())));
    assert_eq!(app.state.status, Notice::ApiBaseSet { api_base: "http://remote:9000".into() });
    assert!(!app.has_pending_work());
}

#[test]
fn delete_branch_shortcut_needs_a_branch() {
    let mut svc = Service { projects: vec![project(1, "A")], ..Default::default() };
    let mut app = dashboard(&mut svc);
    assert!(app.state.branches.is_empty());
    app.handle_event(ch('d'));
    assert!(app.modal.is_none());
    assert!(!app.has_pending_work());
}

#[test]
fn delete_branch_confirm_then_refresh() {
    let mut svc = Service {
        projects: vec![project(1, "A")],
        branches: vec!["main".into(), "feature".into()],
        ..Default::default()
    };
    let mut app = dashboard(&mut svc);
    app.handle_event(ch(']'));
    app.handle_event(ch('d'));
    match &app.modal {
        Some(Modal::Confirm { message, action, .. }) => {
            assert_eq!(message, "Delete remote branch 'feature'?");
            assert_eq!(*action, ModalAction::DeleteBranch);
        }
        other => panic!("unexpected modal {other:?}"),
    }
    svc.log.clear();
    app.handle_event(key(KeyCode::Enter));
    drain(&mut app, &mut svc);
    assert_eq!(svc.log[0], Request::DeleteBranch { project_id: 1, branch: "feature".into() });
    assert!(fetches_only(&svc.log).contains(&"projects"));
}

#[test]
fn confirm_escape_does_nothing() {
    let mut svc = Service {
        projects: vec![project(1, "A")],
        branches: vec!["main".into()],
        ..Default::default()
    };
    let mut app = dashboard(&mut svc);
    app.handle_event(ch('d'));
    app.handle_event(ch('x'));
    assert!(matches!(app.modal, Some(Modal::Confirm { .. })));
    app.handle_event(key(KeyCode::Esc));
    assert!(app.modal.is_none());
    assert!(!app.has_pending_work());
}

#[test]
fn timer_tick_while_busy_is_coalesced() {
    let mut svc = Service { projects: vec![project(1, "A")], ..Default::default() };
    let mut app = dashboard(&mut svc);
    app.refresh_scoped();
    assert_eq!(app.plan.len(), 10);
    assert_eq!(app.advance(), Some(Request::StartClock));
    app.refresh_scoped();
    app.refresh_scoped();
    assert_eq!(app.plan.len(), 9);
    svc.log.clear();
    app.complete(Response::Done(Ok(())));
    drain(&mut app, &mut svc);
    assert_eq!(svc.log.iter().filter(|r| **r == Request::Projects).count(), 1);
    assert_eq!(svc.log.iter().filter(|r| **r == Request::ReadClock).count(), 1);
}

#[test]
fn timer_off_dashboard_does_nothing() {
    let mut app = App::new("http://localhost:8011".to_string(), true);
    app.refresh_scoped();
    assert!(!app.has_pending_work());
}

#[test]
fn modal_owns_the_keyboard() {
    let mut svc = Service::default();
    let mut app = dashboard(&mut svc);
    app.handle_event(key(KeyCode::Enter));
    assert!(matches!(&app.modal, Some(Modal::Palette { items, index: 0 }) if items.len() == 13));
    assert!(!app.handle_event(ch('q')));
    assert!(app.modal.is_some());
    app.handle_event(key(KeyCode::Up));
    assert!(matches!(&app.modal, Some(Modal::Palette { index: 12, .. })));
    app.handle_event(key(KeyCode::Down));
    app.handle_event(ch('j'));
    assert!(matches!(&app.modal, Some(Modal::Palette { index: 1, .. })));
    app.handle_event(key(KeyCode::Esc));
    assert!(app.modal.is_none());
    assert!(app.handle_event(ch('q')));
}

#[test]
fn palette_menu_entry_goes_to_menu() {
    let mut svc = Service::default();
    let mut app = dashboard(&mut svc);
    app.handle_event(key(KeyCode::Enter));
    app.handle_event(key(KeyCode::Up));
    app.handle_event(key(KeyCode::Enter));
    assert!(app.modal.is_none());
    assert_eq!(app.screen, Screen::Menu);
    app.run_quick_action(QuickAction::Configure);
    assert!(matches!(&app.modal, Some(Modal::Form { action: ModalAction::TokenConfig, .. })));
}

#[test]
fn message_modal_closes_on_enter() {
    let mut app = App::new("http://localhost:8011".to_string(), true);
    app.modal = Some(Modal::Message("hello".into()));
    assert!(!app.handle_event(ch('q')));
    assert!(app.modal.is_some());
    app.handle_event(key(KeyCode::Enter));
    assert!(app.modal.is_none());
}

#[test]
fn welcome_menu_wraps_and_quits() {
    let mut app = App::new("http://localhost:8011".to_string(), false);
    app.handle_event(key(KeyCode::Up));
    assert_eq!(app.welcome_index, 4);
    app.handle_event(key(KeyCode::Down));
    assert_eq!(app.welcome_index, 0);
    app.handle_event(ch('3'));
    assert_eq!(app.welcome_index, 2);
    app.handle_event(key(KeyCode::Enter));
    assert_eq!(app.screen, Screen::Help);
    app.handle_event(ch('w'));
    assert_eq!(app.screen, Screen::Welcome);
    app.handle_event(ch('5'));
    assert!(app.handle_event(key(KeyCode::Enter)));
    assert!(app.handle_event(ch('q')));
}

#[test]
fn welcome_start_without_auto_login_goes_to_login() {
    let mut app = App::new("http://localhost:8011".to_string(), false);
    app.handle_event(key(KeyCode::Enter));
    assert_eq!(app.screen, Screen::Login);
    assert_eq!(app.login_form.fields[0].value, "http://localhost:8011");
    for _ in 0.."http://localhost:8011".len() {
        app.handle_event(key(KeyCode::Backspace));
    }
    app.handle_event(key(KeyCode::Enter));
    assert_eq!(app.state.status, Notice::ApiBaseRequired);
    assert_eq!(app.screen, Screen::Login);
    type_text(&mut app, " http://h:1 ");
    app.handle_event(key(KeyCode::BackTab));
    assert_eq!(app.login_form.focus, 2);
    type_text(&mut app, "pt");
    app.handle_event(key(KeyCode::Enter));
    assert_eq!(app.screen, Screen::Menu);
    assert_eq!(app.api_base, "http://h:1");
    assert_eq!(
        app.advance(),
        Some(Request::Connect {
            api_base: "http://h:1".into(),
            token: None,
            project_token: Some("pt".into()),
        })
    );
    app.complete(Response::Done(Ok(())));
    assert_eq!(app.state.status, Notice::Connected { api_base: "http://h:1".into() });
    assert!(!app.handle_event(key(KeyCode::Esc)));
    assert_eq!(app.screen, Screen::Login);
    assert!(app.handle_event(key(KeyCode::Esc)));
}

#[test]
fn main_menu_moves_and_enters_dashboard() {
    let mut app = App::new("http://localhost:8011".to_string(), false);
    app.screen = Screen::Menu;
    app.handle_event(key(KeyCode::Up));
    assert_eq!(app.menu_index, 2);
    app.handle_event(ch('j'));
    assert_eq!(app.menu_index, 0);
    app.handle_event(key(KeyCode::Enter));
    assert_eq!(app.screen, Screen::Dashboard);
    assert_eq!(app.plan.len(), 10);
    let mut app = App::new("x".to_string(), false);
    app.screen = Screen::Menu;
    app.handle_event(ch('2'));
    assert_eq!(app.menu_index, 1);
    assert!(matches!(&app.modal, Some(Modal::Form { action: ModalAction::TokenConfig, .. })));
    let mut app = App::new("x".to_string(), false);
    app.screen = Screen::Menu;
    assert!(app.handle_event(ch('3')));
}

#[test]
fn settings_info_enter_opens_settings_page() {
    let mut app = App::new("x".to_string(), false);
    app.screen = Screen::SettingsInfo;
    app.handle_event(key(KeyCode::Enter));
    assert_eq!(app.screen, Screen::Dashboard);
    assert_eq!(app.state.page, Page::Settings);
    assert_eq!(app.plan.len(), 10);
    let mut app = App::new("x".to_string(), false);
    app.screen = Screen::Version;
    assert!(!app.handle_event(key(KeyCode::Enter)));
    assert_eq!(app.screen, Screen::Version);
    app.handle_event(ch('m'));
    assert_eq!(app.screen, Screen::Menu);
}

#[test]
fn dashboard_quit_keys() {
    let mut svc = Service::default();
    let mut app = dashboard(&mut svc);
    assert!(app.handle_event(KeyPress { code: KeyCode::Char('c'), ctrl: true, shift: false }));
    assert!(!app.handle_event(KeyPress { code: KeyCode::Char('r'), ctrl: false, shift: true }));
    assert!(!app.has_pending_work());
    app.handle_event(ch('h'));
    assert_eq!(app.state.status, Notice::KeyHelp);
    app.handle_event(key(KeyCode::Left));
    assert_eq!(app.state.page, Page::Settings);
    app.handle_event(ch('m'));
    assert_eq!(app.screen, Screen::Menu);
}

#[test]
fn quick_action_labels() {
    assert_eq!(tui_rs::session::format_quick_action(QuickAction::RunNext), "Run next (n)");
    assert_eq!(tui_rs::session::format_quick_action(QuickAction::Menu), "Main menu (m)");
    assert_eq!(
        tui_rs::session::format_quick_action(QuickAction::Configure),
        "Configure API/token (c)"
    );
}

#[test]
fn spec_audit_refuses_unreadable_number() {
    let mut svc = Service { projects: vec![project(12, "A")], ..Default::default() };
    let mut app = dashboard(&mut svc);
    app.handle_event(ch('A'));
    app.handle_event(key(KeyCode::BackTab));
    type_text(&mut app, "soon");
    app.handle_event(key(KeyCode::Enter));
    assert_eq!(app.state.last_error, Some(Failure::Validation(FormError::UnreadableNumber)));
    assert!(!app.has_pending_work());
}

#[test]
fn spec_audit_blank_ids_send_none() {
    let mut svc = Service::default();
    let mut app = dashboard(&mut svc);
    app.handle_event(ch('A'));
    app.handle_event(key(KeyCode::Tab));
    app.handle_event(key(KeyCode::Tab));
    app.handle_event(key(KeyCode::Backspace));
    type_text(&mut app, "N");
    app.handle_event(key(KeyCode::Enter));
    assert_eq!(
        app.advance(),
        Some(Request::SpecAudit {
            project_id: None,
            protocol_id: None,
            backfill: false,
            interval_seconds: None,
        })
    );
}

#[test]
fn protocol_selection_kept_after_creating_a_protocol() {
    let mut svc = Service {
        projects: vec![project(1, "A")],
        protocols: vec![protocol(10, 1, "p", "pending")],
        ..Default::default()
    };
    let mut app = dashboard(&mut svc);
    app.handle_event(ch('R'));
    type_text(&mut app, "next");
    app.handle_event(key(KeyCode::Enter));
    assert!(app.advance().is_some());
    app.complete(Response::Created(Ok(11)));
    assert_eq!(app.state.status, Notice::ProtocolCreated { id: 11 });
    assert_eq!(app.state.protocol_index, Some(0));
}

#[test]
fn new_session_starts_empty() {
    let app = App::new("http://localhost:8011".to_string(), true);
    assert_eq!(app.screen, Screen::Welcome);
    assert_eq!(app.state.page, Page::Dashboard);
    assert!(app.modal.is_none());
    assert_eq!(app.state.status, Notice::Ready);
    assert!(app.state.protocols.is_empty() && app.state.branches.is_empty());
    assert_eq!(app.state.step_filter, None);
    assert_eq!(app.state.job_status_filter, None);
    assert_eq!(app.state.queue_stats, "null");
}
