use supervisor::gate::GateState;
use supervisor::gate::PollOutcome;
use supervisor::gate::ReadinessGate;
use supervisor::gate::TickOutcome;
use supervisor::gate::DEFAULT_MAX_ATTEMPTS;
use supervisor::gate::POLL_INTERVAL_SECS;
use supervisor::launcher::backend_candidates;
use supervisor::launcher::backend_probe_url;
use supervisor::launcher::backend_venv_python;
use supervisor::launcher::frontend_candidates;
use supervisor::launcher::frontend_url;
use supervisor::registry::ProcessRegistry;
use supervisor::resolver::Resolver;
use supervisor::resolver::ServiceRole;
use supervisor::status::is_probe_success;
use supervisor::status::readiness_status;
use supervisor::status::status_message;
use supervisor::status::ReadinessStatus;

#[test]
fn status_is_pure_function_of_the_two_booleans() {
    assert_eq!(readiness_status(false, false), ReadinessStatus::BothPending);
    assert_eq!(readiness_status(true, false), ReadinessStatus::BackendOnly);
    assert_eq!(readiness_status(false, true), ReadinessStatus::FrontendOnly);
    assert_eq!(readiness_status(true, true), ReadinessStatus::BothReady);
    // Calling again with the same booleans gives the same status: there is no
    // hidden memory of earlier calls.
    assert_eq!(readiness_status(true, false), ReadinessStatus::BackendOnly);
}

#[test]
fn status_messages_match_the_pending_side() {
    assert_eq!(
        status_message(ReadinessStatus::BackendOnly),
        Some("Waiting for frontend...")
    );
    assert_eq!(
        status_message(ReadinessStatus::FrontendOnly),
        Some("Waiting for backend...")
    );
    assert_eq!(
        status_message(ReadinessStatus::BothPending),
        Some("Starting services...")
    );
    assert_eq!(status_message(ReadinessStatus::BothReady), None);
}

#[test]
fn probe_success_covers_success_and_redirection_classes() {
    assert!(is_probe_success(200));
    assert!(is_probe_success(204));
    assert!(is_probe_success(302));
    assert!(is_probe_success(399));
    assert!(!is_probe_success(199));
    assert!(!is_probe_success(400));
    assert!(!is_probe_success(404));
    assert!(!is_probe_success(500));
}

#[test]
fn gate_defaults_match_the_polling_cadence() {
    assert_eq!(DEFAULT_MAX_ATTEMPTS, 60);
    assert_eq!(POLL_INTERVAL_SECS, 1);
    let gate = ReadinessGate::new(DEFAULT_MAX_ATTEMPTS);
    assert_eq!(gate.state(), GateState::Polling { attempt: 0 });
    assert_eq!(gate.outcome(), None);
    assert_eq!(gate.max_attempts(), 60);
    assert!(!gate.is_terminal());
}

#[test]
fn gate_emits_exactly_max_attempts_statuses_then_failed() {
    let mut gate = ReadinessGate::new(3);
    let mut probes: u32 = 0;
    let mut status_emissions: u32 = 0;
    let mut failed_emissions: u32 = 0;
    while !gate.is_terminal() {
        // One probe pair per tick.
        probes += 1;
        match gate.tick(false, false) {
            TickOutcome::BecameReady => panic!("gate became ready with both probes false"),
            TickOutcome::StillPolling { status } => {
                assert_eq!(status, ReadinessStatus::BothPending);
                status_emissions += 1;
            }
            TickOutcome::BecameFailed { status } => {
                assert_eq!(status, ReadinessStatus::BothPending);
                status_emissions += 1;
                failed_emissions += 1;
            }
        }
    }
    assert_eq!(gate.outcome(), Some(PollOutcome::TimedOut));
    assert_eq!(status_emissions, 3);
    assert_eq!(failed_emissions, 1);
    assert_eq!(gate.state(), GateState::Failed);
    // The loop has ended: the probe counter stays where it is, no tick runs
    // after the terminal state.
    assert!(gate.is_terminal());
    assert_eq!(probes, 3);
}

#[test]
fn gate_ready_on_first_tick_emits_ready_once_and_stops() {
    let mut gate = ReadinessGate::new(60);
    let mut ticks: u32 = 0;
    let mut ready_emissions: u32 = 0;
    while !gate.is_terminal() {
        ticks += 1;
        match gate.tick(true, true) {
            TickOutcome::BecameReady => ready_emissions += 1,
            _ => panic!("gate did not become ready with both probes true"),
        }
    }
    assert_eq!(ticks, 1);
    assert_eq!(ready_emissions, 1);
    assert_eq!(gate.state(), GateState::Ready);
    assert_eq!(gate.outcome(), Some(PollOutcome::Ready));
}

#[test]
fn gate_with_zero_budget_starts_failed() {
    let gate = ReadinessGate::new(0);
    assert!(gate.is_terminal());
    assert_eq!(gate.state(), GateState::Failed);
}

#[test]
fn gate_statuses_follow_each_ticks_probes() {
    let mut gate = ReadinessGate::new(10);
    match gate.tick(true, false) {
        TickOutcome::StillPolling { status } => assert_eq!(status, ReadinessStatus::BackendOnly),
        _ => panic!("unexpected outcome"),
    }
    match gate.tick(false, true) {
        TickOutcome::StillPolling { status } => assert_eq!(status, ReadinessStatus::FrontendOnly),
        _ => panic!("unexpected outcome"),
    }
    match gate.tick(true, true) {
        TickOutcome::BecameReady => {}
        _ => panic!("unexpected outcome"),
    }
    assert_eq!(gate.state(), GateState::Ready);
}

#[test]
fn resolver_returns_the_third_candidate_after_two_failures() {
    // Spawn outcomes scripted as fail, fail, succeed (handle 42).
    let outcomes: Vec<Result<u64, &str>> = vec![
        Err("no such file"),
        Err("permission denied"),
        Ok(42),
    ];
    let mut resolver = Resolver::new(ServiceRole::Backend, backend_candidates(false));
    let mut handle: Option<u64> = None;
    let mut tried: usize = 0;
    while let Some(candidate) = resolver.current() {
        assert_eq!(candidate.cwd, "../backend");
        match outcomes[tried] {
            Ok(h) => {
                handle = Some(h);
                break;
            }
            Err(e) => {
                tried += 1;
                resolver.record_failure(e.to_string());
            }
        }
    }
    assert_eq!(handle, Some(42));
    assert_eq!(tried, 2);
    assert_eq!(resolver.attempted().len(), 2);
    assert_eq!(resolver.attempted()[0], "python3");
    assert_eq!(resolver.attempted()[1], "python");
}

#[test]
fn resolver_lists_every_program_when_all_fail() {
    let mut resolver = Resolver::new(ServiceRole::Backend, backend_candidates(false));
    while let Some(_) = resolver.current() {
        resolver.record_failure("not found".to_string());
    }
    assert!(resolver.is_exhausted());
    let error = resolver.into_error();
    assert_eq!(error.role, ServiceRole::Backend);
    assert_eq!(error.attempted, vec!["python3", "python", "py"]);
    assert_eq!(error.last_error.as_deref(), Some("not found"));
    assert_eq!(
        error.summary(),
        "Could not start Python backend - Python not found"
    );
}

#[test]
fn frontend_resolution_failure_summary_names_the_tooling() {
    let mut resolver = Resolver::new(ServiceRole::Frontend, frontend_candidates());
    while let Some(_) = resolver.current() {
        resolver.record_failure("not found".to_string());
    }
    let error = resolver.into_error();
    assert_eq!(error.role, ServiceRole::Frontend);
    assert_eq!(error.attempted, vec!["npm", "yarn", "pnpm", "bun"]);
    assert_eq!(
        error.summary(),
        "Could not start React frontend - node package manager not found"
    );
}

#[test]
fn resolver_with_no_candidates_is_exhausted_at_once() {
    let resolver = Resolver::new(ServiceRole::Backend, Vec::new());
    assert!(resolver.is_exhausted());
    let error = resolver.into_error();
    assert!(error.attempted.is_empty());
    assert!(error.last_error.is_none());
}

#[test]
fn shutdown_with_no_handles_is_a_no_op_and_twice_drains_nothing() {
    let mut registry: ProcessRegistry<u64> = ProcessRegistry::new();
    let drained = registry.shutdown_all();
    assert_eq!(drained, (None, None));
    registry.register_backend(7);
    registry.register_frontend(8);
    let first = registry.shutdown_all();
    assert_eq!(first, (Some(7), Some(8)));
    // A second shutdown finds nothing: no handle is terminated twice.
    let second = registry.shutdown_all();
    assert_eq!(second, (None, None));
    assert!(!registry.has_backend());
    assert!(!registry.has_frontend());
}

#[test]
fn registering_both_roles_in_either_order_loses_neither() {
    let mut registry: ProcessRegistry<u64> = ProcessRegistry::new();
    assert_eq!(registry.register_backend(1), None);
    assert_eq!(registry.register_frontend(2), None);
    assert!(registry.has_backend() && registry.has_frontend());

    let mut reversed: ProcessRegistry<u64> = ProcessRegistry::new();
    assert_eq!(reversed.register_frontend(2), None);
    assert_eq!(reversed.register_backend(1), None);
    assert!(reversed.has_backend() && reversed.has_frontend());
}

#[test]
fn registering_over_a_live_handle_hands_the_old_one_back() {
    let mut registry: ProcessRegistry<u64> = ProcessRegistry::new();
    assert_eq!(registry.register_backend(1), None);
    assert_eq!(registry.register_backend(3), Some(1));
    assert_eq!(registry.shutdown_all(), (Some(3), None));
}

#[test]
fn backend_candidates_prefer_the_venv_interpreter_when_present() {
    let with_venv = backend_candidates(true);
    let programs: Vec<&str> = with_venv.iter().map(|c| c.program.as_str()).collect();
    assert_eq!(
        programs,
        vec!["../backend/venv/bin/python", "python3", "python", "py"]
    );
    let without_venv = backend_candidates(false);
    let programs: Vec<&str> = without_venv.iter().map(|c| c.program.as_str()).collect();
    assert_eq!(programs, vec!["python3", "python", "py"]);
    for candidate in with_venv.iter().chain(without_venv.iter()) {
        assert_eq!(
            candidate.args,
            vec![
                "-m",
                "uvicorn",
                "app.main_complete:app",
                "--host",
                "127.0.0.1",
                "--port",
                "8000"
            ]
        );
        assert_eq!(candidate.cwd, "../backend");
        assert!(candidate.env.is_empty());
    }
    assert_eq!(backend_venv_python(), "../backend/venv/bin/python");
}

#[test]
fn frontend_candidates_are_the_package_manager_invocations_in_order() {
    let candidates = frontend_candidates();
    let commands: Vec<(&str, Vec<&str>)> = candidates
        .iter()
        .map(|c| (c.program.as_str(), c.args.iter().map(|a| a.as_str()).collect()))
        .collect();
    assert_eq!(
        commands,
        vec![
            ("npm", vec!["run", "start"]),
            ("yarn", vec!["start"]),
            ("pnpm", vec!["start"]),
            ("bun", vec!["run", "start"]),
        ]
    );
    for candidate in candidates.iter() {
        assert_eq!(candidate.cwd, "../frontend");
        assert_eq!(candidate.env.len(), 1);
        assert_eq!(candidate.env[0].0, "BROWSER");
        assert_eq!(candidate.env[0].1, "none");
    }
}

#[test]
fn probe_urls_point_at_the_two_services() {
    assert_eq!(backend_probe_url(), "http://127.0.0.1:8000/docs");
    assert_eq!(frontend_url(), "http://127.0.0.1:3000");
}
