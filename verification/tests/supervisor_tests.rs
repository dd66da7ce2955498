use fs_proxy::sim::SimProc;
use fs_proxy::sim::SimWorld;
use fs_proxy::sim::sim_perform;
use fs_proxy::sim::sim_run_kill;
use fs_proxy::sim::sim_run_restart;
use fs_proxy::sim::sim_run_start;
use fs_proxy::sim::sim_run_start_begin;
use fs_proxy::sim::sim_run_status;
use fs_proxy::sim::sim_run_stop;
use fs_proxy::supervisor::Action;
use fs_proxy::supervisor::Event;
use fs_proxy::supervisor::KillOutcome;
use fs_proxy::supervisor::RestartOutcome;
use fs_proxy::supervisor::StartOutcome;
use fs_proxy::supervisor::StartSt;
use fs_proxy::supervisor::StatusReport;
use fs_proxy::supervisor::StopOutcome;
use fs_proxy::supervisor::StopSt;
use fs_proxy::supervisor::restart_init;
use fs_proxy::supervisor::restart_step;
use fs_proxy::supervisor::start_step;
use fs_proxy::supervisor::stop_init;
use fs_proxy::supervisor::stop_step;

fn world(procs: Vec<SimProc>, registry: Option<u64>, next_pid: u64) -> SimWorld {
    SimWorld {
        procs,
        registry,
        next_pid,
        bind_ok: true,
        spawn_stubborn: false,
        alive_checks: 0,
        graceful_sends: 0,
        forced_sends: 0,
        launches: 0,
        spawns: 0,
        describes: 0,
    }
}

fn live(pid: u64) -> SimProc {
    SimProc { pid, stubborn: false, alive: true }
}

fn stubborn(pid: u64) -> SimProc {
    SimProc { pid, stubborn: true, alive: true }
}

fn exited(pid: u64) -> SimProc {
    SimProc { pid, stubborn: false, alive: false }
}

#[test]
fn is_alive_false_for_exited_process() {
    // a process that was deliberately run to completion is not alive
    let mut w = world(vec![exited(41), live(42)], None, 100);
    let ev = sim_perform(&mut w, Action::CheckAlive { pid: 41 });
    assert!(matches!(ev, Event::Alive { alive: false }));
    let ev = sim_perform(&mut w, Action::CheckAlive { pid: 42 });
    assert!(matches!(ev, Event::Alive { alive: true }));
    // an identifier never assigned at all is not alive either
    let ev = sim_perform(&mut w, Action::CheckAlive { pid: 9999 });
    assert!(matches!(ev, Event::Alive { alive: false }));
}

#[test]
fn start_fresh_records_live_identifier() {
    let mut w = world(vec![], None, 100);
    let st = sim_run_start_begin(&mut w);
    assert!(matches!(st, StartSt::Serve { pid: 100 }));
    // the registry entry exists and its value is alive right away
    assert_eq!(w.registry, Some(100));
    assert_eq!(sim_run_status(&mut w), StatusReport::Running { pid: 100 });
    assert_eq!(w.launches, 1);
}

#[test]
fn start_over_stale_record_proceeds() {
    let mut w = world(vec![exited(50)], Some(50), 100);
    let st = sim_run_start_begin(&mut w);
    assert!(matches!(st, StartSt::Serve { pid: 100 }));
    assert_eq!(w.registry, Some(100));
}

#[test]
fn start_refuses_when_instance_lives() {
    let mut w = world(vec![live(50)], Some(50), 100);
    let r = sim_run_start(&mut w);
    assert_eq!(r, StartOutcome::AlreadyRunning { pid: 50 });
    // no spawn was performed and the record is untouched
    assert_eq!(w.launches, 0);
    assert_eq!(w.spawns, 0);
    assert_eq!(w.registry, Some(50));
}

#[test]
fn start_bind_failure_rolls_back_record() {
    let mut w = world(vec![], None, 100);
    w.bind_ok = false;
    let r = sim_run_start(&mut w);
    assert_eq!(r, StartOutcome::BindFailed { pid: 100 });
    // no orphaned record for a workload that never truly started
    assert_eq!(w.registry, None);
}

#[test]
fn start_completion_clears_record() {
    let mut w = world(vec![], None, 100);
    let r = sim_run_start(&mut w);
    assert_eq!(r, StartOutcome::Completed { pid: 100 });
    assert_eq!(w.registry, None);
}

#[test]
fn stop_without_record_is_idempotent() {
    let mut w = world(vec![live(50)], None, 100);
    let r = sim_run_stop(&mut w, 30);
    assert_eq!(r, StopOutcome::NotRunning);
    // no adapter calls at all
    assert_eq!(w.alive_checks, 0);
    assert_eq!(w.graceful_sends, 0);
    assert_eq!(w.forced_sends, 0);
    assert_eq!(w.describes, 0);
    let r = sim_run_stop(&mut w, 30);
    assert_eq!(r, StopOutcome::NotRunning);
}

#[test]
fn stop_clears_stale_record() {
    let mut w = world(vec![exited(50)], Some(50), 100);
    let r = sim_run_stop(&mut w, 30);
    assert_eq!(r, StopOutcome::ClearedStale);
    assert_eq!(w.registry, None);
    assert_eq!(w.graceful_sends, 0);
    assert_eq!(w.forced_sends, 0);
}

#[test]
fn stop_graceful_suffices_for_cooperative_workload() {
    let mut w = world(vec![live(50)], Some(50), 100);
    let r = sim_run_stop(&mut w, 30);
    assert_eq!(r, StopOutcome::Stopped { pid: 50 });
    assert_eq!(w.registry, None);
    assert_eq!(w.graceful_sends, 1);
    assert_eq!(w.forced_sends, 0);
}

#[test]
fn stop_escalates_once_after_full_budget() {
    let mut w = world(vec![stubborn(50)], Some(50), 100);
    let r = sim_run_stop(&mut w, 30);
    assert_eq!(r, StopOutcome::ForceStopped { pid: 50 });
    // exactly one forced call, and the registry is cleared afterwards
    assert_eq!(w.forced_sends, 1);
    assert_eq!(w.graceful_sends, 1);
    assert_eq!(w.registry, None);
    assert_eq!(sim_run_status(&mut w), StatusReport::NotRunning);
}

#[test]
fn stop_machine_reports_adapter_failure() {
    // an undeliverable graceful request ends the operation as a failure
    let st = stop_init(30);
    let st = stop_step(st, Event::Registry { recorded: Some(50) });
    let st = stop_step(st, Event::Alive { alive: true });
    let st = stop_step(st, Event::TermAck { delivered: false });
    assert!(matches!(
        st,
        StopSt::Done { outcome: StopOutcome::AdapterFailure { pid: 50 } }
    ));
}

#[test]
fn restart_records_fresh_identifier() {
    let mut w = world(vec![live(50)], Some(50), 100);
    let r = sim_run_restart(&mut w, 30);
    assert_eq!(r, RestartOutcome::Restarted { pid: 100 });
    // the identifier recorded after the restart differs from the old one
    assert_eq!(w.registry, Some(100));
    assert_eq!(sim_run_status(&mut w), StatusReport::Running { pid: 100 });
}

#[test]
fn restart_machine_follows_stop_protocol() {
    // drive the restart machine by hand through a stale-record scenario
    let st = restart_init(5);
    let st = restart_step(st, Event::Registry { recorded: Some(50) });
    let st = restart_step(st, Event::Alive { alive: false });
    let st = restart_step(st, Event::Cleared);
    let st = restart_step(st, Event::Slept);
    let st = restart_step(st, Event::Spawned { pid: Some(77) });
    assert!(matches!(
        st,
        fs_proxy::supervisor::RestartSt::Done {
            outcome: RestartOutcome::Restarted { pid: 77 }
        }
    ));
}

#[test]
fn status_reports_not_running_without_record() {
    let mut w = world(vec![], None, 100);
    assert_eq!(sim_run_status(&mut w), StatusReport::NotRunning);
}

#[test]
fn status_clears_stale_record() {
    let mut w = world(vec![exited(50)], Some(50), 100);
    assert_eq!(sim_run_status(&mut w), StatusReport::NotRunning);
    assert_eq!(w.registry, None);
    assert_eq!(w.graceful_sends, 0);
    assert_eq!(w.forced_sends, 0);
}

#[test]
fn corrupt_registry_degrades_to_not_running() {
    // a registry file holding "not-a-number" loads as no recorded instance,
    // and status then reports NotRunning without an error
    let recorded = fs_proxy::pidfile::load_recorded(&Some(b"not-a-number".to_vec()));
    assert_eq!(recorded, None);
    let mut w = world(vec![live(50)], recorded, 100);
    assert_eq!(sim_run_status(&mut w), StatusReport::NotRunning);
}

#[test]
fn kill_ignores_registry_mismatch() {
    let mut w = world(vec![live(50), live(77)], Some(50), 100);
    let r = sim_run_kill(&mut w, 77);
    assert_eq!(r, KillOutcome::Killed { pid: 77 });
    // one forced call, no graceful phase, and the mismatched record stays
    assert_eq!(w.forced_sends, 1);
    assert_eq!(w.graceful_sends, 0);
    assert_eq!(w.registry, Some(50));
}

#[test]
fn kill_clears_matching_record() {
    let mut w = world(vec![live(50)], Some(50), 100);
    let r = sim_run_kill(&mut w, 50);
    assert_eq!(r, KillOutcome::Killed { pid: 50 });
    assert_eq!(w.registry, None);
}

#[test]
fn kill_requires_no_record_at_all() {
    let mut w = world(vec![live(77)], None, 100);
    let r = sim_run_kill(&mut w, 77);
    assert_eq!(r, KillOutcome::Killed { pid: 77 });
    assert_eq!(w.forced_sends, 1);
}

#[test]
fn kill_undeliverable_is_adapter_failure() {
    let mut w = world(vec![exited(77)], None, 100);
    let r = sim_run_kill(&mut w, 77);
    assert_eq!(r, KillOutcome::AdapterFailure { pid: 77 });
}

#[test]
fn start_machine_save_failure_aborts() {
    let st = StartSt::Load;
    let st = start_step(st, Event::Registry { recorded: None });
    let st = start_step(st, Event::Launched { pid: Some(100) });
    let st = start_step(st, Event::Saved { ok: false });
    assert!(matches!(
        st,
        StartSt::Done { outcome: StartOutcome::SaveFailed { pid: 100 } }
    ));
}

#[test]
fn start_machine_launch_failure_aborts() {
    let st = StartSt::Load;
    let st = start_step(st, Event::Registry { recorded: None });
    let st = start_step(st, Event::Launched { pid: None });
    assert!(matches!(
        st,
        StartSt::Done { outcome: StartOutcome::LaunchFailed }
    ));
}

#[test]
fn default_timing_configuration() {
    assert_eq!(fs_proxy::DEFAULT_STOP_POLL_BUDGET, 30);
    assert_eq!(fs_proxy::DEFAULT_STOP_POLL_INTERVAL_MS, 100);
    assert_eq!(fs_proxy::DEFAULT_RESTART_SETTLE_MS, 1000);
}

#[test]
fn restart_machine_reports_stop_failure() {
    let st = restart_init(5);
    let st = restart_step(st, Event::Registry { recorded: Some(50) });
    let st = restart_step(st, Event::Alive { alive: true });
    let st = restart_step(st, Event::TermAck { delivered: false });
    assert!(matches!(
        st,
        fs_proxy::supervisor::RestartSt::Done {
            outcome: RestartOutcome::StopFailed { pid: 50 }
        }
    ));
}

#[test]
fn restart_machine_reports_spawn_failure() {
    let st = restart_init(5);
    let st = restart_step(st, Event::Registry { recorded: None });
    let st = restart_step(st, Event::Slept);
    let st = restart_step(st, Event::Spawned { pid: None });
    assert!(matches!(
        st,
        fs_proxy::supervisor::RestartSt::Done {
            outcome: RestartOutcome::SpawnFailed
        }
    ));
}

#[test]
fn restart_without_record_spawns_fresh() {
    let mut w = world(vec![], None, 100);
    let r = sim_run_restart(&mut w, 30);
    assert_eq!(r, RestartOutcome::Restarted { pid: 100 });
    assert_eq!(w.registry, Some(100));
}

#[test]
fn restart_escalates_on_stubborn_workload() {
    let mut w = world(vec![stubborn(50)], Some(50), 100);
    let r = sim_run_restart(&mut w, 10);
    assert_eq!(r, RestartOutcome::Restarted { pid: 100 });
    assert_eq!(w.forced_sends, 1);
    assert_eq!(w.graceful_sends, 1);
    assert_eq!(w.registry, Some(100));
}
