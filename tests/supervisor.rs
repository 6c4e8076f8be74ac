use sidecar_supervisor::config::{EMBEDDED_GRACE_SECS, READY_INTERVAL_SECS, READY_MAX_ATTEMPTS, STARTUP_DELAY_SECS};
use sidecar_supervisor::embedded::{EmbeddedAction, EmbeddedEvent, EmbeddedLaunch, EmbeddedStage};
use sidecar_supervisor::launch::{
    external_launch_result, liveness_result, select_external, spawn_plan, LaunchError, LivenessCheck,
};
use sidecar_supervisor::locator::{CandidateKind, CandidateList, CandidatePath};
use sidecar_supervisor::probe::{check_health, status_is_success, ProbeResponse};
use sidecar_supervisor::startup::{StartupAction, StartupEvent, StartupPhase, StartupSequence};
use sidecar_supervisor::waiter::{ReadinessWaiter, WaitAction, WaitEvent, WaitPhase};

fn list(paths: &[&str]) -> CandidateList {
    CandidateList {
        entries: paths
            .iter()
            .map(|p| CandidatePath { path: p.to_string(), kind: CandidateKind::NativeBinary })
            .collect(),
    }
}

#[test]
fn probe_success_statuses_are_reachable() {
    assert!(check_health(&ProbeResponse::Status(200)));
    assert!(check_health(&ProbeResponse::Status(204)));
    assert!(check_health(&ProbeResponse::Status(299)));
}

#[test]
fn probe_other_statuses_are_unreachable() {
    assert!(!check_health(&ProbeResponse::Status(199)));
    assert!(!check_health(&ProbeResponse::Status(300)));
    assert!(!check_health(&ProbeResponse::Status(404)));
    assert!(!check_health(&ProbeResponse::Status(500)));
    assert!(!status_is_success(100));
}

#[test]
fn probe_failures_read_as_unreachable() {
    assert!(!check_health(&ProbeResponse::TimedOut));
    assert!(!check_health(&ProbeResponse::ConnectionFailed));
}

#[test]
fn standard_candidates_in_priority_order() {
    let l = CandidateList::standard();
    let paths: Vec<&str> = l.entries.iter().map(|c| c.path.as_str()).collect();
    assert_eq!(
        paths,
        vec!["../server/main.py", "./server/main.py", "../server/dist/main.exe", "./server/dist/main.exe", "server.exe"]
    );
    assert_eq!(l.entries[0].kind, CandidateKind::Script);
    assert_eq!(l.entries[1].kind, CandidateKind::Script);
    assert_eq!(l.entries[2].kind, CandidateKind::NativeBinary);
    assert_eq!(l.entries[4].kind, CandidateKind::NativeBinary);
}

#[test]
fn locate_returns_first_present_not_later() {
    let l = list(&["A", "B", "C"]);
    assert_eq!(l.locate(&vec![false, true, true]), Some(1));
    assert_eq!(l.locate(&vec![true, true, true]), Some(0));
    assert_eq!(l.locate(&vec![false, false, true]), Some(2));
    assert_eq!(l.locate(&vec![false, false, false]), None);
}

#[test]
fn select_external_reports_missing() {
    let l = CandidateList::standard();
    let r = select_external(&l, &vec![false; 5]);
    assert!(matches!(r, Err(LaunchError::ExternalMissing)));
    assert_eq!(r.err().unwrap().message(), "Could not find or start server executable");
}

#[test]
fn concurrent_external_starts_each_spawn() {
    let l = CandidateList::standard();
    let present = vec![false, false, false, true, true];
    let first = select_external(&l, &present);
    let second = select_external(&l, &present);
    assert!(matches!(first, Ok(3)));
    assert!(matches!(second, Ok(3)));
}

#[test]
fn spawn_plan_for_script() {
    let c = CandidatePath { path: "../server/main.py".to_string(), kind: CandidateKind::Script };
    let p = spawn_plan(&c);
    assert_eq!(p.program, "python");
    assert_eq!(p.args, vec!["../server/main.py".to_string()]);
    assert_eq!(p.working_dir, Some("../server".to_string()));
}

#[test]
fn spawn_plan_for_binary() {
    let c = CandidatePath { path: "server.exe".to_string(), kind: CandidateKind::NativeBinary };
    let p = spawn_plan(&c);
    assert_eq!(p.program, "server.exe");
    assert!(p.args.is_empty());
    assert_eq!(p.working_dir, None);
}

#[test]
fn external_result_names_path() {
    let c = CandidatePath { path: "./server/main.py".to_string(), kind: CandidateKind::Script };
    let r = external_launch_result(&c, Ok(()));
    assert_eq!(r.ok().unwrap(), "Server started from ./server/main.py");
}

#[test]
fn external_result_carries_spawn_error() {
    let c = CandidatePath { path: "server.exe".to_string(), kind: CandidateKind::NativeBinary };
    let r = external_launch_result(&c, Err("permission denied".to_string()));
    let e = r.err().unwrap();
    assert!(matches!(e, LaunchError::ExternalSpawnFailed { .. }));
    assert_eq!(e.message(), "Failed to start server from server.exe: permission denied");
}

#[test]
fn launch_error_messages() {
    assert_eq!(
        LaunchError::ResourceDirUnavailable("no dir".to_string()).message(),
        "Failed to get resource directory: no dir"
    );
    assert_eq!(LaunchError::EmbeddedMissing.message(), "Server executable not found in resources");
    assert_eq!(LaunchError::EmbeddedSpawnFailed("denied".to_string()).message(), "Failed to start server: denied");
    assert_eq!(
        LaunchError::ExitedEarly("exit status: 1".to_string()).message(),
        "Server process exited early with status: exit status: 1"
    );
    assert_eq!(
        LaunchError::StatusCheckFailed("wait failed".to_string()).message(),
        "Error checking server process: wait failed"
    );
}

#[test]
fn liveness_outcomes() {
    assert!(liveness_result(LivenessCheck::Running).is_ok());
    assert!(matches!(
        liveness_result(LivenessCheck::ExitedWithStatus("exit status: 1".to_string())),
        Err(LaunchError::ExitedEarly(s)) if s == "exit status: 1"
    ));
    assert!(matches!(
        liveness_result(LivenessCheck::CheckError("io".to_string())),
        Err(LaunchError::StatusCheckFailed(s)) if s == "io"
    ));
}

fn embedded_until_spawn(m: &mut EmbeddedLaunch) {
    assert!(matches!(m.on_event(EmbeddedEvent::Begin), EmbeddedAction::ResolveResourceDir));
    assert!(matches!(m.on_event(EmbeddedEvent::ResourceDirResolved), EmbeddedAction::CheckPresence));
    assert!(matches!(m.on_event(EmbeddedEvent::Presence(true)), EmbeddedAction::Spawn));
}

#[test]
fn embedded_launch_confirms_running_process() {
    let mut m = EmbeddedLaunch::new();
    embedded_until_spawn(&mut m);
    assert!(matches!(m.on_event(EmbeddedEvent::Spawned), EmbeddedAction::Sleep { secs } if secs == EMBEDDED_GRACE_SECS));
    assert_eq!(EMBEDDED_GRACE_SECS, 3);
    assert!(matches!(m.on_event(EmbeddedEvent::GraceElapsed), EmbeddedAction::PollExit));
    assert!(matches!(m.on_event(EmbeddedEvent::ExitPolled(LivenessCheck::Running)), EmbeddedAction::Finish(Ok(()))));
    assert_eq!(m.stage, EmbeddedStage::Finished);
}

#[test]
fn embedded_launch_early_exit_fails() {
    let mut m = EmbeddedLaunch::new();
    embedded_until_spawn(&mut m);
    m.on_event(EmbeddedEvent::Spawned);
    m.on_event(EmbeddedEvent::GraceElapsed);
    let a = m.on_event(EmbeddedEvent::ExitPolled(LivenessCheck::ExitedWithStatus("exit status: 1".to_string())));
    assert!(matches!(a, EmbeddedAction::Finish(Err(LaunchError::ExitedEarly(_)))));
}

#[test]
fn embedded_launch_missing_binary() {
    let mut m = EmbeddedLaunch::new();
    m.on_event(EmbeddedEvent::Begin);
    m.on_event(EmbeddedEvent::ResourceDirResolved);
    let a = m.on_event(EmbeddedEvent::Presence(false));
    assert!(matches!(a, EmbeddedAction::Finish(Err(LaunchError::EmbeddedMissing))));
}

#[test]
fn embedded_launch_resource_dir_failure() {
    let mut m = EmbeddedLaunch::new();
    m.on_event(EmbeddedEvent::Begin);
    let a = m.on_event(EmbeddedEvent::ResourceDirFailed("unknown".to_string()));
    assert!(matches!(a, EmbeddedAction::Finish(Err(LaunchError::ResourceDirUnavailable(_)))));
}

#[test]
fn embedded_launch_spawn_failure() {
    let mut m = EmbeddedLaunch::new();
    embedded_until_spawn(&mut m);
    let a = m.on_event(EmbeddedEvent::SpawnFailed("denied".to_string()));
    assert!(matches!(a, EmbeddedAction::Finish(Err(LaunchError::EmbeddedSpawnFailed(_)))));
}

#[test]
fn embedded_launch_ignores_out_of_order_events() {
    let mut m = EmbeddedLaunch::new();
    assert!(matches!(m.on_event(EmbeddedEvent::Spawned), EmbeddedAction::Ignore));
    assert_eq!(m.stage, EmbeddedStage::Idle);
}

/// Drives a waiter against a backend whose probes answer as `up` says,
/// counting the probes made and the pauses taken.
fn drive(mut w: ReadinessWaiter, up: impl Fn(u32) -> bool) -> (WaitAction, u32, u32) {
    let mut probes: u32 = 0;
    let mut sleeps: u32 = 0;
    let mut action = w.on_event(WaitEvent::Begin);
    loop {
        match action {
            WaitAction::Probe => {
                probes += 1;
                action = w.on_event(WaitEvent::Probed(up(probes)));
            }
            WaitAction::Sleep { secs } => {
                assert_eq!(secs, READY_INTERVAL_SECS);
                sleeps += 1;
                action = w.on_event(WaitEvent::Slept);
            }
            done => return (done, probes, sleeps),
        }
    }
}

#[test]
fn waiter_ready_on_fifth_probe() {
    let (a, probes, sleeps) = drive(ReadinessWaiter::new(), |n| n >= 5);
    assert_eq!(a, WaitAction::Ready { attempts: 5 });
    assert_eq!(probes, 5);
    assert_eq!(sleeps, 4);
}

#[test]
fn waiter_ready_on_first_probe() {
    let (a, probes, sleeps) = drive(ReadinessWaiter::new(), |_| true);
    assert_eq!(a, WaitAction::Ready { attempts: 1 });
    assert_eq!((probes, sleeps), (1, 0));
}

#[test]
fn waiter_times_out_after_thirty_probes() {
    assert_eq!(READY_MAX_ATTEMPTS, 30);
    let (a, probes, sleeps) = drive(ReadinessWaiter::new(), |_| false);
    assert_eq!(a, WaitAction::TimedOut { attempts: 30 });
    assert_eq!(probes, 30);
    assert_eq!(sleeps, 30);
}

#[test]
fn waiter_with_no_attempts_times_out_at_once() {
    let (a, probes, _) = drive(ReadinessWaiter::with_max_attempts(0), |_| true);
    assert_eq!(a, WaitAction::TimedOut { attempts: 0 });
    assert_eq!(probes, 0);
}

#[test]
fn finished_waiter_ignores_events() {
    let mut w = ReadinessWaiter::with_max_attempts(1);
    w.on_event(WaitEvent::Begin);
    assert_eq!(w.on_event(WaitEvent::Probed(true)), WaitAction::Ready { attempts: 1 });
    assert_eq!(w.phase, WaitPhase::Finished);
    assert_eq!(w.on_event(WaitEvent::Probed(true)), WaitAction::Ignore);
    assert_eq!(w.on_event(WaitEvent::Slept), WaitAction::Ignore);
    assert_eq!(w.attempts, 1);
}

fn startup_to_probe(s: &mut StartupSequence) {
    assert_eq!(s.on_event(StartupEvent::Begin), StartupAction::Sleep { secs: STARTUP_DELAY_SECS });
    assert_eq!(STARTUP_DELAY_SECS, 2);
    assert_eq!(s.on_event(StartupEvent::DelayElapsed), StartupAction::Probe);
}

#[test]
fn startup_skips_launch_when_backend_up() {
    let mut s = StartupSequence::new();
    startup_to_probe(&mut s);
    assert_eq!(s.on_event(StartupEvent::ProbeDone(true)), StartupAction::Finish);
    assert_eq!(s.phase, StartupPhase::AlreadyRunning);
    assert_eq!(s.on_event(StartupEvent::ProbeDone(false)), StartupAction::Ignore);
    assert_eq!(s.on_event(StartupEvent::EmbeddedDone(false)), StartupAction::Ignore);
}

#[test]
fn startup_launches_embedded_when_down() {
    let mut s = StartupSequence::new();
    startup_to_probe(&mut s);
    assert_eq!(s.on_event(StartupEvent::ProbeDone(false)), StartupAction::LaunchEmbedded);
    assert_eq!(s.on_event(StartupEvent::EmbeddedDone(true)), StartupAction::Finish);
    assert_eq!(s.phase, StartupPhase::Launched);
}

#[test]
fn startup_falls_back_once_after_embedded_failure() {
    let mut s = StartupSequence::new();
    startup_to_probe(&mut s);
    s.on_event(StartupEvent::ProbeDone(false));
    assert_eq!(s.on_event(StartupEvent::EmbeddedDone(false)), StartupAction::LaunchExternal);
    assert_eq!(s.on_event(StartupEvent::EmbeddedDone(false)), StartupAction::Ignore);
    assert_eq!(s.on_event(StartupEvent::FallbackDone(true)), StartupAction::Finish);
    assert_eq!(s.phase, StartupPhase::FallbackLaunched);
    assert_eq!(s.on_event(StartupEvent::FallbackDone(false)), StartupAction::Ignore);
}

#[test]
fn startup_fails_when_both_strategies_fail() {
    let mut s = StartupSequence::new();
    startup_to_probe(&mut s);
    s.on_event(StartupEvent::ProbeDone(false));
    s.on_event(StartupEvent::EmbeddedDone(false));
    assert_eq!(s.on_event(StartupEvent::FallbackDone(false)), StartupAction::Finish);
    assert_eq!(s.phase, StartupPhase::Failed);
}
