use sidecar_supervisor::error::{SpawnError, TerminateError};
use sidecar_supervisor::launch::{launch_spec, ResolvedResources};
use sidecar_supervisor::pump::{drain, level, ExitStatus, LogLevel, OutputEvent, OutputPump};
use sidecar_supervisor::router::{Action, LifecycleEvent, LifecycleRouter, Phase, ShutdownTrigger};
use sidecar_supervisor::slot::RuntimeSlot;

fn started_router() -> LifecycleRouter<u32> {
    let mut r: LifecycleRouter<u32> = LifecycleRouter::new();
    assert!(matches!(r.handle(LifecycleEvent::Ready), Action::Spawn));
    assert!(matches!(r.handle(LifecycleEvent::Spawned(7)), Action::Nothing));
    r
}

fn kill_count(actions: &[Action<u32>]) -> usize {
    actions.iter().filter(|a| matches!(a, Action::Kill(_))).count()
}

#[test]
fn full_session_logs_ready_then_kills_once() {
    let mut r = started_router();
    assert!(r.has_worker());
    assert_eq!(r.phase(), Phase::Running);

    let mut pump = OutputPump::new();
    let rec = pump.accept(OutputEvent::StandardOutputLine(b"ready".to_vec())).unwrap();
    assert_eq!(rec.level, LogLevel::Info);
    match rec.event {
        OutputEvent::StandardOutputLine(b) => assert_eq!(b, b"ready".to_vec()),
        _ => panic!("wrong event"),
    }

    match r.handle(LifecycleEvent::Shutdown(ShutdownTrigger::ExitRequested)) {
        Action::Kill(h) => assert_eq!(h, 7),
        _ => panic!("expected a kill"),
    }
    assert!(!r.has_worker());
    assert_eq!(r.phase(), Phase::ShuttingDown);
    assert!(matches!(r.handle(LifecycleEvent::KillCompleted(Ok(()))), Action::Exit));
    assert_eq!(r.phase(), Phase::Stopped);
    assert!(matches!(r.handle(LifecycleEvent::Shutdown(ShutdownTrigger::Exit)), Action::Exit));
    assert!(!r.has_worker());
    assert_eq!(r.phase(), Phase::Stopped);
}

#[test]
fn two_exit_requests_kill_once() {
    let mut r = started_router();
    let a1 = r.handle(LifecycleEvent::Shutdown(ShutdownTrigger::ExitRequested));
    let a2 = r.handle(LifecycleEvent::Shutdown(ShutdownTrigger::ExitRequested));
    assert!(matches!(a1, Action::Kill(7)));
    assert!(matches!(a2, Action::Nothing));
    assert_eq!(kill_count(&[a1, a2]), 1);
}

#[test]
fn every_order_of_signals_kills_once() {
    let all = [ShutdownTrigger::ExitRequested, ShutdownTrigger::QuitClicked, ShutdownTrigger::Exit];
    let orders = [[0, 1, 2], [0, 2, 1], [1, 0, 2], [1, 2, 0], [2, 0, 1], [2, 1, 0]];
    for order in orders.iter() {
        let mut r = started_router();
        let mut actions = Vec::new();
        for &i in order.iter() {
            actions.push(r.handle(LifecycleEvent::Shutdown(all[i])));
        }
        assert_eq!(kill_count(&actions), 1);
        assert!(!r.has_worker());
    }
}

#[test]
fn signal_before_any_start_exits_without_kill() {
    let mut r: LifecycleRouter<u32> = LifecycleRouter::new();
    assert!(matches!(r.handle(LifecycleEvent::Shutdown(ShutdownTrigger::QuitClicked)), Action::Exit));
    assert_eq!(r.phase(), Phase::Stopped);
    assert!(matches!(r.handle(LifecycleEvent::Ready), Action::Nothing));
}

#[test]
fn second_ready_does_not_spawn_again() {
    let mut r = started_router();
    assert!(matches!(r.handle(LifecycleEvent::Ready), Action::Nothing));
    assert!(r.has_worker());
}

#[test]
fn failed_resolution_leaves_slot_empty() {
    let mut r: LifecycleRouter<u32> = LifecycleRouter::new();
    assert!(matches!(r.handle(LifecycleEvent::Ready), Action::Spawn));
    let a = r.handle(LifecycleEvent::SpawnFailed(SpawnError::ResolutionFailed));
    assert!(matches!(a, Action::Nothing));
    assert!(!r.has_worker());
    assert_eq!(r.phase(), Phase::Running);
    assert!(matches!(r.handle(LifecycleEvent::Shutdown(ShutdownTrigger::ExitRequested)), Action::Exit));
    assert_eq!(r.phase(), Phase::Stopped);
}

#[test]
fn exec_failure_leaves_slot_empty() {
    let mut r: LifecycleRouter<u32> = LifecycleRouter::new();
    r.handle(LifecycleEvent::Ready);
    let a = r.handle(LifecycleEvent::SpawnFailed(SpawnError::ExecFailed("denied".to_string())));
    assert!(matches!(a, Action::Nothing));
    assert!(!r.has_worker());
}

#[test]
fn signal_while_starting_kills_the_late_handle() {
    let mut r: LifecycleRouter<u32> = LifecycleRouter::new();
    r.handle(LifecycleEvent::Ready);
    assert!(matches!(r.handle(LifecycleEvent::Shutdown(ShutdownTrigger::ExitRequested)), Action::Nothing));
    assert_eq!(r.phase(), Phase::ShuttingDown);
    assert!(matches!(r.handle(LifecycleEvent::Spawned(9)), Action::Kill(9)));
    assert!(!r.has_worker());
    assert!(matches!(r.handle(LifecycleEvent::Shutdown(ShutdownTrigger::Exit)), Action::Nothing));
    let done = r.handle(LifecycleEvent::KillCompleted(Err(TerminateError::KillFailed("gone".to_string()))));
    assert!(matches!(done, Action::Exit));
    assert_eq!(r.phase(), Phase::Stopped);
}

#[test]
fn signal_while_starting_then_failed_spawn_exits() {
    let mut r: LifecycleRouter<u32> = LifecycleRouter::new();
    r.handle(LifecycleEvent::Ready);
    r.handle(LifecycleEvent::Shutdown(ShutdownTrigger::QuitClicked));
    let a = r.handle(LifecycleEvent::SpawnFailed(SpawnError::ResolutionFailed));
    assert!(matches!(a, Action::Exit));
    assert_eq!(r.phase(), Phase::Stopped);
}

#[test]
fn unasked_handle_is_killed_not_kept() {
    let mut r = started_router();
    assert!(matches!(r.handle(LifecycleEvent::Spawned(8)), Action::Kill(8)));
    match r.handle(LifecycleEvent::Shutdown(ShutdownTrigger::Exit)) {
        Action::Kill(h) => assert_eq!(h, 7),
        _ => panic!("expected a kill"),
    }
}

#[test]
fn slot_store_take_peek() {
    let mut s: RuntimeSlot<String> = RuntimeSlot::new();
    assert!(!s.peek());
    s.store("w".to_string());
    assert!(s.peek());
    assert_eq!(s.take(), Some("w".to_string()));
    assert!(!s.peek());
    assert_eq!(s.take(), None);
}

#[test]
fn levels_by_event() {
    assert_eq!(level(&OutputEvent::StandardOutputLine(vec![1])), LogLevel::Info);
    assert_eq!(level(&OutputEvent::StandardErrorLine(vec![1])), LogLevel::Error);
    let st = ExitStatus { code: Some(1), signal: None };
    assert_eq!(level(&OutputEvent::Terminated(st)), LogLevel::Error);
    assert_eq!(level(&OutputEvent::Other("x".to_string())), LogLevel::Trace);
}

#[test]
fn pump_ends_at_termination() {
    let mut p = OutputPump::new();
    assert!(!p.is_finished());
    let st = ExitStatus { code: Some(0), signal: None };
    let rec = p.accept(OutputEvent::Terminated(st)).unwrap();
    assert_eq!(rec.level, LogLevel::Error);
    assert!(p.is_finished());
    assert!(p.accept(OutputEvent::StandardOutputLine(b"late".to_vec())).is_none());
}

fn lines(records: &[sidecar_supervisor::pump::LogRecord], stdout: bool) -> Vec<Vec<u8>> {
    let mut out = Vec::new();
    for r in records {
        match (&r.event, stdout) {
            (OutputEvent::StandardOutputLine(b), true) => out.push(b.clone()),
            (OutputEvent::StandardErrorLine(b), false) => out.push(b.clone()),
            _ => {}
        }
    }
    out
}

#[test]
fn drain_keeps_every_line_in_order() {
    let events = vec![
        OutputEvent::StandardOutputLine(b"a".to_vec()),
        OutputEvent::StandardErrorLine(b"x".to_vec()),
        OutputEvent::StandardOutputLine(b"b".to_vec()),
        OutputEvent::Other("ping".to_string()),
        OutputEvent::StandardErrorLine(b"y".to_vec()),
        OutputEvent::StandardOutputLine(b"c".to_vec()),
    ];
    let recs = drain(events);
    assert_eq!(recs.len(), 6);
    assert_eq!(lines(&recs, true), vec![b"a".to_vec(), b"b".to_vec(), b"c".to_vec()]);
    assert_eq!(lines(&recs, false), vec![b"x".to_vec(), b"y".to_vec()]);
    assert_eq!(recs[3].level, LogLevel::Trace);
}

#[test]
fn drain_stops_after_termination() {
    let st = ExitStatus { code: None, signal: Some(9) };
    let events = vec![
        OutputEvent::StandardOutputLine(b"a".to_vec()),
        OutputEvent::Terminated(st),
        OutputEvent::StandardOutputLine(b"b".to_vec()),
    ];
    let recs = drain(events);
    assert_eq!(recs.len(), 2);
    assert_eq!(lines(&recs, true), vec![b"a".to_vec()]);
    assert!(matches!(recs[1].event, OutputEvent::Terminated(s) if s.signal == Some(9)));
}

#[test]
fn drain_of_nothing_is_nothing() {
    assert!(drain(Vec::new()).is_empty());
}

#[test]
fn launch_command_surface() {
    let spec = launch_spec(ResolvedResources {
        base_dir: "/res/functions".to_string(),
        main_service: "/res/functions/main".to_string(),
        event_worker: "/res/functions/event".to_string(),
    });
    assert_eq!(spec.program, "edge-runtime");
    assert_eq!(
        spec.args,
        vec![
            "start",
            "--main-service",
            "/res/functions/main",
            "--event-worker",
            "/res/functions/event",
            "-p",
            "24321",
        ]
    );
    assert_eq!(spec.envs, vec![("SERVICE_BASE_DIR".to_string(), "/res/functions".to_string())]);
}
