//! A simulated operating-system world for the supervisor machines.
//!
//! [`SimWorld`] models exactly what the supervisor observes of its host: the
//! set of processes with their liveness, whether each would honor a graceful
//! stop, the registry record, and a source of fresh identifiers. Performing
//! an [`Action`] against the world yields the [`Event`] a real driver would
//! observe, so whole operations can be driven to completion — and their
//! guarantees proved for every world, not just tested on a few.

use vstd::prelude::*;

use crate::supervisor::Action;
use crate::supervisor::Event;
use crate::supervisor::KillOutcome;
use crate::supervisor::KillSt;
use crate::supervisor::RestartOutcome;
use crate::supervisor::ServeEnd;
use crate::supervisor::StartOutcome;
use crate::supervisor::StartSt;
use crate::supervisor::StatusReport;
use crate::supervisor::StatusSt;
use crate::supervisor::StopOutcome;
use crate::supervisor::StopSt;
use crate::supervisor::kill_init;
use crate::supervisor::kill_outcome_spec;
use crate::supervisor::kill_step;
use crate::supervisor::status_step;
use crate::supervisor::start_step;
use crate::supervisor::stop_init;
use crate::supervisor::stop_measure;
use crate::supervisor::stop_step;

verus! {

/// One simulated process: its identifier, whether it is currently alive,
/// and whether it ignores graceful termination.
#[derive(Clone, Copy, Debug, PartialEq, Eq, Structural)]
pub struct SimProc {
    pub pid: u64,
    pub stubborn: bool,
    pub alive: bool,
}

/// The supervisor's view of a simulated host.
pub struct SimWorld {
    /// Every process the world has seen, dead ones included.
    pub procs: Vec<SimProc>,
    /// The registry record, if a valid one exists.
    pub registry: Option<u64>,
    /// Source of fresh process identifiers: strictly above every identifier
    /// ever issued.
    pub next_pid: u64,
    /// Whether a launched workload succeeds in binding its listener.
    pub bind_ok: bool,
    /// Whether newly launched workloads ignore graceful termination.
    pub spawn_stubborn: bool,
    /// How many liveness probes were performed.
    pub alive_checks: u64,
    /// How many graceful termination requests were sent.
    pub graceful_sends: u64,
    /// How many forced termination requests were sent.
    pub forced_sends: u64,
    /// How many in-process workload launches were attempted.
    pub launches: u64,
    /// How many detached spawns were attempted.
    pub spawns: u64,
    /// How many diagnostic snapshots were requested.
    pub describes: u64,
}

/// No two entries share an identifier.
pub open spec fn distinct_pids(s: Seq<SimProc>) -> bool {
    forall|i: int, j: int|
        0 <= i < j < s.len() ==> #[trigger] s[i].pid != #[trigger] s[j].pid
}

/// Every identifier lies below the fresh-identifier source.
pub open spec fn bounded_pids(s: Seq<SimProc>, next: u64) -> bool {
    forall|i: int| 0 <= i < s.len() ==> (#[trigger] s[i].pid) < next
}

impl SimWorld {
    /// A well-formed world: identifiers are unique and the fresh source is
    /// really fresh.
    pub open spec fn wf(self) -> bool {
        distinct_pids(self.procs@) && bounded_pids(self.procs@, self.next_pid)
    }
}

/// The identifier is assigned to a live process.
pub open spec fn seq_alive(s: Seq<SimProc>, pid: u64) -> bool {
    exists|i: int| 0 <= i < s.len() && (#[trigger] s[i]).pid == pid && s[i].alive
}

/// The identifier is assigned to a live process that ignores graceful
/// termination.
pub open spec fn seq_stubborn(s: Seq<SimProc>, pid: u64) -> bool {
    exists|i: int|
        0 <= i < s.len() && (#[trigger] s[i]).pid == pid && s[i].alive && s[i].stubborn
}

/// The identifier is assigned to a live process of the world.
pub open spec fn sim_alive(w: SimWorld, pid: u64) -> bool {
    seq_alive(w.procs@, pid)
}

/// The identifier is assigned to a live process that ignores graceful
/// termination.
pub open spec fn sim_stubborn(w: SimWorld, pid: u64) -> bool {
    seq_stubborn(w.procs@, pid)
}

/// Law: the liveness probe answers false for every identifier not assigned
/// to a live process — a dead or unknown process is never reported alive.
pub proof fn lemma_dead_pid_not_alive(w: SimWorld, pid: u64)
    requires
        forall|i: int|
            0 <= i < w.procs@.len() ==> (#[trigger] w.procs@[i]).pid != pid || !w.procs@[i].alive,
    ensures
        !sim_alive(w, pid),
{
}

/// A counter bumped by one, held at the machine's limit.
pub open spec fn sat_inc(c: u64) -> u64 {
    if c < u64::MAX {
        (c + 1) as u64
    } else {
        c
    }
}

fn bump(c: u64) -> (r: u64)
    ensures
        r == sat_inc(c),
{
    if c < u64::MAX {
        c + 1
    } else {
        c
    }
}

/// What one termination request leaves of a process: a live target dies if
/// the request is forced or the target honors graceful stops; everything
/// else is untouched.
pub open spec fn proc_after_term(p: SimProc, pid: u64, forced: bool) -> SimProc {
    if p.pid == pid && p.alive && (forced || !p.stubborn) {
        SimProc { pid: p.pid, stubborn: p.stubborn, alive: false }
    } else {
        p
    }
}

/// Pointwise effect of one termination request on the process table.
pub open spec fn procs_terminated(pre: Seq<SimProc>, post: Seq<SimProc>, pid: u64, forced: bool) -> bool {
    &&& post.len() == pre.len()
    &&& forall|i: int| 0 <= i < pre.len() ==> post[i] == proc_after_term(#[trigger] pre[i], pid, forced)
}

/// The full observable effect of performing one action on the world: how
/// the world changes and which event the driver reports back.
pub open spec fn sim_effect(pre: SimWorld, post: SimWorld, a: Action, ev: Event) -> bool {
    match a {
        Action::LoadRegistry => post == pre && ev == (Event::Registry { recorded: pre.registry }),
        Action::CheckAlive { pid } => {
            &&& post == (SimWorld { alive_checks: sat_inc(pre.alive_checks), ..pre })
            &&& ev == (Event::Alive { alive: sim_alive(pre, pid) })
        },
        Action::TerminateGraceful { pid } => {
            &&& procs_terminated(pre.procs@, post.procs@, pid, false)
            &&& post == (SimWorld {
                procs: post.procs,
                graceful_sends: sat_inc(pre.graceful_sends),
                ..pre
            })
            &&& ev == (Event::TermAck { delivered: sim_alive(pre, pid) })
        },
        Action::TerminateForced { pid } => {
            &&& procs_terminated(pre.procs@, post.procs@, pid, true)
            &&& post == (SimWorld {
                procs: post.procs,
                forced_sends: sat_inc(pre.forced_sends),
                ..pre
            })
            &&& ev == (Event::TermAck { delivered: sim_alive(pre, pid) })
        },
        Action::Describe { .. } => {
            &&& post == (SimWorld { describes: sat_inc(pre.describes), ..pre })
            &&& ev == Event::Described
        },
        Action::LaunchWorkload => {
            if pre.next_pid < u64::MAX {
                &&& post.procs@ == pre.procs@.push(
                    SimProc { pid: pre.next_pid, stubborn: pre.spawn_stubborn, alive: true },
                )
                &&& post == (SimWorld {
                    procs: post.procs,
                    next_pid: (pre.next_pid + 1) as u64,
                    launches: sat_inc(pre.launches),
                    ..pre
                })
                &&& ev == (Event::Launched { pid: Option::Some(pre.next_pid) })
            } else {
                &&& post == (SimWorld { launches: sat_inc(pre.launches), ..pre })
                &&& ev == (Event::Launched { pid: Option::None })
            }
        },
        Action::SpawnDetached => {
            if pre.next_pid < u64::MAX {
                &&& post.procs@ == pre.procs@.push(
                    SimProc { pid: pre.next_pid, stubborn: pre.spawn_stubborn, alive: true },
                )
                &&& post == (SimWorld {
                    procs: post.procs,
                    next_pid: (pre.next_pid + 1) as u64,
                    registry: Option::Some(pre.next_pid),
                    spawns: sat_inc(pre.spawns),
                    ..pre
                })
                &&& ev == (Event::Spawned { pid: Option::Some(pre.next_pid) })
            } else {
                &&& post == (SimWorld { spawns: sat_inc(pre.spawns), ..pre })
                &&& ev == (Event::Spawned { pid: Option::None })
            }
        },
        Action::SaveRegistry { pid } => {
            &&& post == (SimWorld { registry: Option::Some(pid), ..pre })
            &&& ev == (Event::Saved { ok: true })
        },
        Action::ClearRegistry => {
            &&& post == (SimWorld { registry: Option::None, ..pre })
            &&& ev == Event::Cleared
        },
        Action::SleepPoll => post == pre && ev == Event::Slept,
        Action::SleepSettle => post == pre && ev == Event::Slept,
        Action::Serve { pid } => {
            &&& procs_terminated(pre.procs@, post.procs@, pid, true)
            &&& post == (SimWorld { procs: post.procs, ..pre })
            &&& ev == (Event::ServeEnded {
                end: if pre.bind_ok {
                    ServeEnd::Interrupted
                } else {
                    ServeEnd::BindFailed
                },
            })
        },
    }
}

fn probe_alive(procs: &Vec<SimProc>, pid: u64) -> (b: bool)
    ensures
        b == seq_alive(procs@, pid),
{
    let n = procs.len();
    let mut i: usize = 0;
    while i < n
        invariant
            0 <= i <= n,
            n == procs@.len(),
            forall|j: int| 0 <= j < i ==> !((#[trigger] procs@[j]).pid == pid && procs@[j].alive),
        decreases n - i,
    {
        let p = procs[i];
        if p.pid == pid && p.alive {
            assert(seq_alive(procs@, pid));
            return true;
        }
        i = i + 1;
    }
    false
}

fn mark_dead(procs: &mut Vec<SimProc>, pid: u64, forced: bool)
    ensures
        procs_terminated(old(procs)@, final(procs)@, pid, forced),
{
    let n = procs.len();
    let mut i: usize = 0;
    while i < n
        invariant
            0 <= i <= n,
            n == procs@.len(),
            procs@.len() == old(procs)@.len(),
            forall|j: int|
                0 <= j < i ==> procs@[j] == proc_after_term(#[trigger] old(procs)@[j], pid, forced),
            forall|j: int| i <= j < n ==> procs@[j] == old(procs)@[j],
        decreases n - i,
    {
        let p = procs[i];
        if p.pid == pid && p.alive && (forced || !p.stubborn) {
            procs[i] = SimProc { pid: p.pid, stubborn: p.stubborn, alive: false };
        }
        i = i + 1;
    }
}

proof fn lemma_term_preserves_wf(pre: SimWorld, post: SimWorld, pid: u64, forced: bool)
    requires
        pre.wf(),
        procs_terminated(pre.procs@, post.procs@, pid, forced),
        post.next_pid == pre.next_pid,
    ensures
        post.wf(),
{
    assert forall|i: int| 0 <= i < post.procs@.len() implies (#[trigger] post.procs@[i]).pid
        < post.next_pid by {
        assert(post.procs@[i] == proc_after_term(pre.procs@[i], pid, forced));
    }
    assert forall|i: int, j: int| 0 <= i < j < post.procs@.len() implies (#[trigger] post.procs@[i]).pid
        != (#[trigger] post.procs@[j]).pid by {
        assert(post.procs@[i] == proc_after_term(pre.procs@[i], pid, forced));
        assert(post.procs@[j] == proc_after_term(pre.procs@[j], pid, forced));
    }
}

/// A graceful request leaves a stubborn target's world untouched.
proof fn lemma_term_stubborn(pre: Seq<SimProc>, post: Seq<SimProc>, pid: u64)
    requires
        procs_terminated(pre, post, pid, false),
        seq_stubborn(pre, pid),
        distinct_pids(pre),
    ensures
        post =~= pre,
        seq_alive(post, pid),
        seq_stubborn(post, pid),
{
    let i = choose|i: int|
        0 <= i < pre.len() && (#[trigger] pre[i]).pid == pid && pre[i].alive && pre[i].stubborn;
    assert forall|j: int| 0 <= j < pre.len() implies post[j] == pre[j] by {
        assert(post[j] == proc_after_term(pre[j], pid, false));
        if pre[j].pid == pid {
            assert(j == i);
        }
    }
    assert(post[i] == pre[i]);
}

/// A graceful request kills a cooperative target.
proof fn lemma_term_cooperative(pre: Seq<SimProc>, post: Seq<SimProc>, pid: u64)
    requires
        procs_terminated(pre, post, pid, false),
        !seq_stubborn(pre, pid),
    ensures
        !seq_alive(post, pid),
{
    assert forall|j: int|
        0 <= j < post.len() && (#[trigger] post[j]).pid == pid implies !post[j].alive by {
        assert(post[j] == proc_after_term(pre[j], pid, false));
        if pre[j].pid == pid && pre[j].alive {
            assert(!pre[j].stubborn);
        }
    }
}

/// A forced request kills its target unconditionally.
proof fn lemma_term_forced(pre: Seq<SimProc>, post: Seq<SimProc>, pid: u64)
    requires
        procs_terminated(pre, post, pid, true),
    ensures
        !seq_alive(post, pid),
{
    assert forall|j: int|
        0 <= j < post.len() && (#[trigger] post[j]).pid == pid implies !post[j].alive by {
        assert(post[j] == proc_after_term(pre[j], pid, true));
    }
}

/// Performs one action against the simulated world, returning the event a
/// real driver would observe. The full effect is pinned by [`sim_effect`].
pub fn sim_perform(w: &mut SimWorld, a: Action) -> (ev: Event)
    requires
        old(w).wf(),
    ensures
        final(w).wf(),
        sim_effect(*old(w), *final(w), a, ev),
{
    match a {
        Action::LoadRegistry => Event::Registry { recorded: w.registry },
        Action::CheckAlive { pid } => {
            let alive = probe_alive(&w.procs, pid);
            w.alive_checks = bump(w.alive_checks);
            Event::Alive { alive }
        },
        Action::TerminateGraceful { pid } => {
            let delivered = probe_alive(&w.procs, pid);
            mark_dead(&mut w.procs, pid, false);
            w.graceful_sends = bump(w.graceful_sends);
            proof {
                lemma_term_preserves_wf(*old(w), *w, pid, false);
            }
            Event::TermAck { delivered }
        },
        Action::TerminateForced { pid } => {
            let delivered = probe_alive(&w.procs, pid);
            mark_dead(&mut w.procs, pid, true);
            w.forced_sends = bump(w.forced_sends);
            proof {
                lemma_term_preserves_wf(*old(w), *w, pid, true);
            }
            Event::TermAck { delivered }
        },
        Action::Describe { .. } => {
            w.describes = bump(w.describes);
            Event::Described
        },
        Action::LaunchWorkload => {
            w.launches = bump(w.launches);
            if w.next_pid < u64::MAX {
                let pid = w.next_pid;
                w.procs.push(SimProc { pid, stubborn: w.spawn_stubborn, alive: true });
                w.next_pid = w.next_pid + 1;
                Event::Launched { pid: Option::Some(pid) }
            } else {
                Event::Launched { pid: Option::None }
            }
        },
        Action::SpawnDetached => {
            w.spawns = bump(w.spawns);
            if w.next_pid < u64::MAX {
                let pid = w.next_pid;
                w.procs.push(SimProc { pid, stubborn: w.spawn_stubborn, alive: true });
                w.next_pid = w.next_pid + 1;
                w.registry = Option::Some(pid);
                Event::Spawned { pid: Option::Some(pid) }
            } else {
                Event::Spawned { pid: Option::None }
            }
        },
        Action::SaveRegistry { pid } => {
            w.registry = Option::Some(pid);
            Event::Saved { ok: true }
        },
        Action::ClearRegistry => {
            w.registry = Option::None;
            Event::Cleared
        },
        Action::SleepPoll => Event::Slept,
        Action::SleepSettle => Event::Slept,
        Action::Serve { pid } => {
            let bind_ok = w.bind_ok;
            mark_dead(&mut w.procs, pid, true);
            proof {
                lemma_term_preserves_wf(*old(w), *w, pid, true);
            }
            Event::ServeEnded {
                end: if bind_ok {
                    ServeEnd::Interrupted
                } else {
                    ServeEnd::BindFailed
                },
            }
        },
    }
}

// ---------------------------------------------------------------------------
// Driven operations
// ---------------------------------------------------------------------------

/// Drives a whole stop operation against the simulated world.
///
/// The contract is the stop policy's guarantee, for every well-formed world:
/// - a missing record succeeds with no effect at all (stop is idempotent);
/// - a stale record is cleared with no termination request sent;
/// - a live, cooperative instance gets exactly one graceful request and no
///   forced one, and its record is cleared;
/// - a live instance that ignores graceful termination for the whole poll
///   budget gets exactly one graceful and exactly one forced request, and
///   its record is cleared.
pub fn sim_run_stop(w: &mut SimWorld, budget: u64) -> (r: StopOutcome)
    requires
        old(w).wf(),
        1 <= budget,
    ensures
        final(w).wf(),
        old(w).registry is None ==> r == StopOutcome::NotRunning && *final(w) == *old(w),
        old(w).registry is Some && !sim_alive(*old(w), old(w).registry->0) ==> {
            &&& r == StopOutcome::ClearedStale
            &&& final(w).registry is None
            &&& final(w).procs == old(w).procs
            &&& final(w).graceful_sends == old(w).graceful_sends
            &&& final(w).forced_sends == old(w).forced_sends
        },
        old(w).registry is Some && sim_alive(*old(w), old(w).registry->0) && !sim_stubborn(
            *old(w),
            old(w).registry->0,
        ) ==> {
            &&& r == (StopOutcome::Stopped { pid: old(w).registry->0 })
            &&& final(w).registry is None
            &&& !sim_alive(*final(w), old(w).registry->0)
            &&& final(w).graceful_sends == sat_inc(old(w).graceful_sends)
            &&& final(w).forced_sends == old(w).forced_sends
        },
        old(w).registry is Some && sim_stubborn(*old(w), old(w).registry->0) ==> {
            &&& r == (StopOutcome::ForceStopped { pid: old(w).registry->0 })
            &&& final(w).registry is None
            &&& !sim_alive(*final(w), old(w).registry->0)
            &&& final(w).graceful_sends == sat_inc(old(w).graceful_sends)
            &&& final(w).forced_sends == sat_inc(old(w).forced_sends)
        },
        final(w).next_pid == old(w).next_pid,
        final(w).launches == old(w).launches,
        final(w).spawns == old(w).spawns,
        final(w).bind_ok == old(w).bind_ok,
        final(w).spawn_stubborn == old(w).spawn_stubborn,
{
    let st0 = stop_init(budget);
    let ev = sim_perform(w, Action::LoadRegistry);
    let st1 = stop_step(st0, ev);
    match st1 {
        StopSt::Done { outcome } => outcome,
        StopSt::Check { pid, .. } => {
            let ev = sim_perform(w, Action::CheckAlive { pid });
            let st2 = stop_step(st1, ev);
            match st2 {
                StopSt::ClearStale => {
                    let ev = sim_perform(w, Action::ClearRegistry);
                    let st3 = stop_step(st2, ev);
                    match st3 {
                        StopSt::Done { outcome } => outcome,
                        _ => {
                            proof {
                                assert(false);
                            }
                            StopOutcome::NotRunning
                        },
                    }
                },
                StopSt::Grace { .. } => {
                    let ghost w_pre_grace = *w;
                    let ev = sim_perform(w, Action::TerminateGraceful { pid });
                    let st3 = stop_step(st2, ev);
                    proof {
                        if sim_stubborn(w_pre_grace, pid) {
                            lemma_term_stubborn(w_pre_grace.procs@, w.procs@, pid);
                        } else {
                            lemma_term_cooperative(w_pre_grace.procs@, w.procs@, pid);
                        }
                    }
                    match st3 {
                        StopSt::Poll { .. } => {
                            let ghost wg = *w;
                            let mut st = st3;
                            loop
                                invariant_except_break
                                    st matches StopSt::Poll { pid: polled, left } && polled == pid && 1
                                        <= left,
                                invariant
                                    w.wf(),
                                    w.procs == wg.procs,
                                    w.registry == wg.registry,
                                    w.graceful_sends == wg.graceful_sends,
                                    w.forced_sends == wg.forced_sends,
                                    w.launches == wg.launches,
                                    w.spawns == wg.spawns,
                                    w.next_pid == wg.next_pid,
                                    w.bind_ok == wg.bind_ok,
                                    w.spawn_stubborn == wg.spawn_stubborn,
                                ensures
                                    w.wf(),
                                    w.procs == wg.procs,
                                    w.registry == wg.registry,
                                    w.graceful_sends == wg.graceful_sends,
                                    w.forced_sends == wg.forced_sends,
                                    w.launches == wg.launches,
                                    w.spawns == wg.spawns,
                                    w.next_pid == wg.next_pid,
                                    w.bind_ok == wg.bind_ok,
                                    w.spawn_stubborn == wg.spawn_stubborn,
                                    (st matches StopSt::ClearDead { pid: polled } && polled
                                        == pid && !sim_alive(*w, pid)) || (st
                                        matches StopSt::Force { pid: polled } && polled == pid
                                        && sim_alive(*w, pid)),
                                decreases stop_measure(st),
                            {
                                let ev = sim_perform(w, Action::CheckAlive { pid });
                                st = stop_step(st, ev);
                                match st {
                                    StopSt::ClearDead { .. } => break,
                                    StopSt::Force { .. } => break,
                                    StopSt::Pause { .. } => {
                                        let ev2 = sim_perform(w, Action::SleepPoll);
                                        st = stop_step(st, ev2);
                                    },
                                    _ => {
                                        proof {
                                            assert(false);
                                        }
                                    },
                                }
                            }
                            match st {
                                StopSt::ClearDead { .. } => {
                                    let ev = sim_perform(w, Action::ClearRegistry);
                                    let st4 = stop_step(st, ev);
                                    match st4 {
                                        StopSt::Done { outcome } => outcome,
                                        _ => {
                                            proof {
                                                assert(false);
                                            }
                                            StopOutcome::NotRunning
                                        },
                                    }
                                },
                                StopSt::Force { .. } => {
                                    let ghost w_pre_force = *w;
                                    let ev = sim_perform(w, Action::TerminateForced { pid });
                                    let st4 = stop_step(st, ev);
                                    proof {
                                        lemma_term_forced(w_pre_force.procs@, w.procs@, pid);
                                    }
                                    match st4 {
                                        StopSt::ClearForced { .. } => {
                                            let ev = sim_perform(w, Action::ClearRegistry);
                                            let st5 = stop_step(st4, ev);
                                            match st5 {
                                                StopSt::Done { outcome } => outcome,
                                                _ => {
                                                    proof {
                                                        assert(false);
                                                    }
                                                    StopOutcome::NotRunning
                                                },
                                            }
                                        },
                                        _ => {
                                            proof {
                                                assert(false);
                                            }
                                            StopOutcome::NotRunning
                                        },
                                    }
                                },
                                _ => {
                                    proof {
                                        assert(false);
                                    }
                                    StopOutcome::NotRunning
                                },
                            }
                        },
                        _ => {
                            proof {
                                assert(false);
                            }
                            StopOutcome::NotRunning
                        },
                    }
                },
                _ => {
                    proof {
                        assert(false);
                    }
                    StopOutcome::NotRunning
                },
            }
        },
        _ => {
            proof {
                assert(false);
            }
            StopOutcome::NotRunning
        },
    }
}


/// Drives a start operation up to the point where serving would begin.
///
/// A recorded live instance refuses the start with `AlreadyRunning` and
/// launches nothing. With no record, or a stale one, the workload is
/// launched and its fresh identifier recorded: the record is alive the
/// moment serving begins.
pub fn sim_run_start_begin(w: &mut SimWorld) -> (st: StartSt)
    requires
        old(w).wf(),
    ensures
        final(w).wf(),
        st is Serve || st is Done,
        old(w).registry is Some && sim_alive(*old(w), old(w).registry->0) ==> {
            &&& st == (StartSt::Done {
                outcome: StartOutcome::AlreadyRunning { pid: old(w).registry->0 },
            })
            &&& final(w).launches == old(w).launches
            &&& final(w).spawns == old(w).spawns
            &&& final(w).registry == old(w).registry
            &&& final(w).procs == old(w).procs
        },
        (old(w).registry is None || !sim_alive(*old(w), old(w).registry->0)) && old(w).next_pid
            < u64::MAX ==> {
            &&& st == (StartSt::Serve { pid: old(w).next_pid })
            &&& final(w).registry == Option::Some(old(w).next_pid)
            &&& sim_alive(*final(w), old(w).next_pid)
            &&& final(w).launches == sat_inc(old(w).launches)
            &&& final(w).spawns == old(w).spawns
        },
        final(w).bind_ok == old(w).bind_ok,
        final(w).graceful_sends == old(w).graceful_sends,
        final(w).forced_sends == old(w).forced_sends,
{
    let st0 = StartSt::Load;
    let ev = sim_perform(w, Action::LoadRegistry);
    let st1 = start_step(st0, ev);
    match st1 {
        StartSt::Launch => sim_start_launch(w, st1),
        StartSt::Check { pid } => {
            let ev = sim_perform(w, Action::CheckAlive { pid });
            let st2 = start_step(st1, ev);
            match st2 {
                StartSt::Describe { .. } => {
                    let ev = sim_perform(w, Action::Describe { pid });
                    start_step(st2, ev)
                },
                StartSt::Launch => sim_start_launch(w, st2),
                _ => {
                    proof {
                        assert(false);
                    }
                    st2
                },
            }
        },
        _ => {
            proof {
                assert(false);
            }
            st1
        },
    }
}

/// Launch-and-record tail of a start operation: launches the workload and
/// records its fresh identifier before serving begins.
fn sim_start_launch(w: &mut SimWorld, st0: StartSt) -> (st: StartSt)
    requires
        old(w).wf(),
        st0 == StartSt::Launch,
    ensures
        final(w).wf(),
        st is Serve || st is Done,
        old(w).next_pid < u64::MAX ==> {
            &&& st == (StartSt::Serve { pid: old(w).next_pid })
            &&& final(w).registry == Option::Some(old(w).next_pid)
            &&& sim_alive(*final(w), old(w).next_pid)
            &&& final(w).launches == sat_inc(old(w).launches)
        },
        final(w).spawns == old(w).spawns,
        final(w).bind_ok == old(w).bind_ok,
        final(w).graceful_sends == old(w).graceful_sends,
        final(w).forced_sends == old(w).forced_sends,
{
    let ev = sim_perform(w, Action::LaunchWorkload);
    let st1 = start_step(st0, ev);
    match st1 {
        StartSt::Save { pid } => {
            proof {
                if old(w).next_pid < u64::MAX {
                    assert(w.procs@[w.procs@.len() - 1].pid == pid);
                    assert(sim_alive(*w, pid));
                }
            }
            let ev = sim_perform(w, Action::SaveRegistry { pid });
            start_step(st1, ev)
        },
        StartSt::Done { .. } => st1,
        _ => {
            proof {
                assert(false);
            }
            st1
        },
    }
}

/// Drives the serving phase of a start operation to completion. The record
/// never outlives the serve: a failed listener bind rolls it back, and a
/// served workload's record is cleared on the way out.
pub fn sim_run_start_finish(w: &mut SimWorld, st0: StartSt) -> (r: StartOutcome)
    requires
        old(w).wf(),
        st0 is Serve,
    ensures
        final(w).wf(),
        final(w).registry is None,
        !sim_alive(*final(w), st0->Serve_pid),
        r == if old(w).bind_ok {
            StartOutcome::Completed { pid: st0->Serve_pid }
        } else {
            StartOutcome::BindFailed { pid: st0->Serve_pid }
        },
        final(w).launches == old(w).launches,
        final(w).spawns == old(w).spawns,
        final(w).graceful_sends == old(w).graceful_sends,
        final(w).forced_sends == old(w).forced_sends,
{
    match st0 {
        StartSt::Serve { pid } => {
            let ghost w_pre = *w;
            let ev = sim_perform(w, Action::Serve { pid });
            let st1 = start_step(st0, ev);
            proof {
                lemma_term_forced(w_pre.procs@, w.procs@, pid);
            }
            match st1 {
                StartSt::ClearExit { .. } => {
                    let ev = sim_perform(w, Action::ClearRegistry);
                    let st2 = start_step(st1, ev);
                    match st2 {
                        StartSt::Done { outcome } => outcome,
                        _ => {
                            proof {
                                assert(false);
                            }
                            StartOutcome::LaunchFailed
                        },
                    }
                },
                StartSt::ClearFailed { .. } => {
                    let ev = sim_perform(w, Action::ClearRegistry);
                    let st2 = start_step(st1, ev);
                    match st2 {
                        StartSt::Done { outcome } => outcome,
                        _ => {
                            proof {
                                assert(false);
                            }
                            StartOutcome::LaunchFailed
                        },
                    }
                },
                _ => {
                    proof {
                        assert(false);
                    }
                    StartOutcome::LaunchFailed
                },
            }
        },
        _ => {
            proof {
                assert(false);
            }
            StartOutcome::LaunchFailed
        },
    }
}

/// Drives a whole start operation: refusal on a live recorded instance;
/// otherwise launch, record, serve, and clear the record on the way out.
pub fn sim_run_start(w: &mut SimWorld) -> (r: StartOutcome)
    requires
        old(w).wf(),
    ensures
        final(w).wf(),
        old(w).registry is Some && sim_alive(*old(w), old(w).registry->0) ==> {
            &&& r == (StartOutcome::AlreadyRunning { pid: old(w).registry->0 })
            &&& final(w).launches == old(w).launches
            &&& final(w).registry == old(w).registry
        },
        (old(w).registry is None || !sim_alive(*old(w), old(w).registry->0)) && old(w).next_pid
            < u64::MAX ==> {
            &&& r == if old(w).bind_ok {
                StartOutcome::Completed { pid: old(w).next_pid }
            } else {
                StartOutcome::BindFailed { pid: old(w).next_pid }
            }
            &&& final(w).registry is None
            &&& !sim_alive(*final(w), old(w).next_pid)
        },
{
    let st = sim_run_start_begin(w);
    match st {
        StartSt::Done { outcome } => outcome,
        StartSt::Serve { .. } => sim_run_start_finish(w, st),
        _ => {
            proof {
                assert(false);
            }
            StartOutcome::LaunchFailed
        },
    }
}

/// Drives a status operation: reports `Running` exactly when a recorded
/// instance is alive; a missing or stale record reports `NotRunning`, the
/// stale record being cleared on the way. Status sends no termination and
/// spawns nothing.
pub fn sim_run_status(w: &mut SimWorld) -> (r: StatusReport)
    requires
        old(w).wf(),
    ensures
        final(w).wf(),
        old(w).registry is Some && sim_alive(*old(w), old(w).registry->0) ==> {
            &&& r == (StatusReport::Running { pid: old(w).registry->0 })
            &&& final(w).registry == old(w).registry
        },
        old(w).registry is None || !sim_alive(*old(w), old(w).registry->0) ==> r
            == StatusReport::NotRunning,
        final(w).procs == old(w).procs,
        final(w).graceful_sends == old(w).graceful_sends,
        final(w).forced_sends == old(w).forced_sends,
        final(w).launches == old(w).launches,
        final(w).spawns == old(w).spawns,
{
    let st0 = StatusSt::Load;
    let ev = sim_perform(w, Action::LoadRegistry);
    let st1 = status_step(st0, ev);
    match st1 {
        StatusSt::Done { report } => report,
        StatusSt::Check { pid } => {
            let ev = sim_perform(w, Action::CheckAlive { pid });
            let st2 = status_step(st1, ev);
            match st2 {
                StatusSt::ClearStale => {
                    let ev = sim_perform(w, Action::ClearRegistry);
                    let st3 = status_step(st2, ev);
                    match st3 {
                        StatusSt::Done { report } => report,
                        _ => {
                            proof {
                                assert(false);
                            }
                            StatusReport::NotRunning
                        },
                    }
                },
                StatusSt::Describe { .. } => {
                    let ev = sim_perform(w, Action::Describe { pid });
                    let st3 = status_step(st2, ev);
                    match st3 {
                        StatusSt::Done { report } => report,
                        _ => {
                            proof {
                                assert(false);
                            }
                            StatusReport::NotRunning
                        },
                    }
                },
                _ => {
                    proof {
                        assert(false);
                    }
                    StatusReport::NotRunning
                },
            }
        },
        _ => {
            proof {
                assert(false);
            }
            StatusReport::NotRunning
        },
    }
}

/// Drives a kill operation against an explicit identifier: exactly one
/// forced request and no graceful phase, whatever the registry holds — kill
/// never requires the record to match. The record is cleared exactly when
/// it equals the killed identifier.
pub fn sim_run_kill(w: &mut SimWorld, target: u64) -> (r: KillOutcome)
    requires
        old(w).wf(),
    ensures
        final(w).wf(),
        final(w).forced_sends == sat_inc(old(w).forced_sends),
        final(w).graceful_sends == old(w).graceful_sends,
        final(w).launches == old(w).launches,
        final(w).spawns == old(w).spawns,
        old(w).registry == Option::Some(target) ==> final(w).registry is None,
        old(w).registry != Option::Some(target) ==> final(w).registry == old(w).registry,
        !sim_alive(*final(w), target),
        r == kill_outcome_spec(target, sim_alive(*old(w), target)),
{
    let st0 = kill_init(target);
    let ghost w0 = *old(w);
    let ev = sim_perform(w, Action::TerminateForced { pid: target });
    let st1 = kill_step(st0, ev);
    proof {
        lemma_term_forced(w0.procs@, w.procs@, target);
    }
    let ev = sim_perform(w, Action::LoadRegistry);
    let st2 = kill_step(st1, ev);
    match st2 {
        KillSt::Done { outcome } => outcome,
        KillSt::Clear { .. } => {
            let ev = sim_perform(w, Action::ClearRegistry);
            let st3 = kill_step(st2, ev);
            match st3 {
                KillSt::Done { outcome } => outcome,
                _ => {
                    proof {
                        assert(false);
                    }
                    KillOutcome::AdapterFailure { pid: target }
                },
            }
        },
        _ => {
            proof {
                assert(false);
            }
            KillOutcome::AdapterFailure { pid: target }
        },
    }
}

/// Drives a whole restart operation, composed exactly as the restart
/// machine composes it: the full stop protocol, then — unless stop failed
/// at the adapter level — the settle pause and one detached spawn of a
/// fresh process that records itself.
///
/// The guarantee: restarting a live instance that terminates within the
/// graceful budget records a fresh identifier different from the one
/// recorded before the restart.
pub fn sim_run_restart(w: &mut SimWorld, budget: u64) -> (r: RestartOutcome)
    requires
        old(w).wf(),
        1 <= budget,
    ensures
        final(w).wf(),
        old(w).registry is None && old(w).next_pid < u64::MAX ==> {
            &&& r == (RestartOutcome::Restarted { pid: old(w).next_pid })
            &&& final(w).registry == Option::Some(old(w).next_pid)
            &&& sim_alive(*final(w), old(w).next_pid)
        },
        old(w).registry is Some && sim_alive(*old(w), old(w).registry->0) && !sim_stubborn(
            *old(w),
            old(w).registry->0,
        ) && old(w).next_pid < u64::MAX ==> {
            &&& r == (RestartOutcome::Restarted { pid: old(w).next_pid })
            &&& old(w).next_pid != old(w).registry->0
            &&& final(w).registry == Option::Some(old(w).next_pid)
            &&& sim_alive(*final(w), old(w).next_pid)
            &&& !sim_alive(*final(w), old(w).registry->0)
            &&& final(w).graceful_sends == sat_inc(old(w).graceful_sends)
            &&& final(w).forced_sends == old(w).forced_sends
        },
        old(w).registry is Some && sim_stubborn(*old(w), old(w).registry->0) && old(w).next_pid
            < u64::MAX ==> {
            &&& r == (RestartOutcome::Restarted { pid: old(w).next_pid })
            &&& old(w).next_pid != old(w).registry->0
            &&& final(w).registry == Option::Some(old(w).next_pid)
            &&& sim_alive(*final(w), old(w).next_pid)
            &&& !sim_alive(*final(w), old(w).registry->0)
            &&& final(w).graceful_sends == sat_inc(old(w).graceful_sends)
            &&& final(w).forced_sends == sat_inc(old(w).forced_sends)
        },
{
    let ghost w0 = *old(w);
    proof {
        if w0.registry is Some && sim_stubborn(w0, w0.registry->0) {
            let i = choose|i: int|
                0 <= i < w0.procs@.len() && (#[trigger] w0.procs@[i]).pid == w0.registry->0
                    && w0.procs@[i].alive && w0.procs@[i].stubborn;
            assert(sim_alive(w0, w0.registry->0));
        }
        if w0.registry is Some && sim_alive(w0, w0.registry->0) {
            let i = choose|i: int|
                0 <= i < w0.procs@.len() && (#[trigger] w0.procs@[i]).pid == w0.registry->0
                    && w0.procs@[i].alive;
            assert(w0.procs@[i].pid < w0.next_pid);
        }
    }
    let stop_outcome = sim_run_stop(w, budget);
    match stop_outcome {
        StopOutcome::AdapterFailure { pid } => RestartOutcome::StopFailed { pid },
        _ => {
            let _ev = sim_perform(w, Action::SleepSettle);
            let ghost w_pre_spawn = *w;
            let ev = sim_perform(w, Action::SpawnDetached);
            proof {
                if w_pre_spawn.next_pid < u64::MAX {
                    assert(w.procs@[w.procs@.len() - 1].pid == w_pre_spawn.next_pid);
                    assert(sim_alive(*w, w_pre_spawn.next_pid));
                    assert forall|q: u64|
                        q != w_pre_spawn.next_pid && !sim_alive(w_pre_spawn, q) implies !sim_alive(
                        *w,
                        q,
                    ) by {
                        assert(forall|j: int|
                            0 <= j < w_pre_spawn.procs@.len() ==> w.procs@[j]
                                == w_pre_spawn.procs@[j]);
                    }
                }
            }
            match ev {
                Event::Spawned { pid: Option::Some(p) } => RestartOutcome::Restarted { pid: p },
                Event::Spawned { pid: Option::None } => RestartOutcome::SpawnFailed,
                _ => {
                    proof {
                        assert(false);
                    }
                    RestartOutcome::SpawnFailed
                },
            }
        },
    }
}

} // verus!
