//! The supervisor's operations as event-driven state machines.
//!
//! Each operation (start, stop, restart, status, kill) is a machine that,
//! from its current state, requests one [`Action`] at a time. A driver
//! outside the library performs the action against the operating system and
//! feeds the observed [`Event`] back through the machine's step function.
//! The machines hold the whole transition policy: singleton enforcement,
//! graceful-then-forced termination with a bounded poll budget, stale-record
//! cleanup, and restart orchestration.

use vstd::prelude::*;

verus! {

/// One piece of outside work a machine asks its driver to perform.
///
/// Identifier-carrying requests name the process they address. The driver
/// answers each action with the matching [`Event`] variant.
#[derive(Clone, Copy, Debug)]
pub enum Action {
    /// Read the registry; answer with `Event::Registry`.
    LoadRegistry,
    /// Probe whether the process is alive; answer with `Event::Alive`.
    /// Inability to determine its state counts as "not alive".
    CheckAlive { pid: u64 },
    /// Send a graceful stop request the target may honor by draining its
    /// work; answer with `Event::TermAck`.
    TerminateGraceful { pid: u64 },
    /// Send an unconditional stop request the target cannot decline;
    /// answer with `Event::TermAck`.
    TerminateForced { pid: u64 },
    /// Fetch a diagnostic snapshot of the process for display; failures are
    /// informational only. Answer with `Event::Described`.
    Describe { pid: u64 },
    /// Launch the server workload in the current process and report its
    /// identifier; answer with `Event::Launched`.
    LaunchWorkload,
    /// Spawn a detached new process image of the supervisor with a start
    /// directive; answer with `Event::Spawned`.
    SpawnDetached,
    /// Overwrite the registry with the identifier; answer with `Event::Saved`.
    SaveRegistry { pid: u64 },
    /// Best-effort delete of the registry record; answer with `Event::Cleared`.
    ClearRegistry,
    /// Pause for one liveness-poll interval; answer with `Event::Slept`.
    SleepPoll,
    /// Pause for the post-stop settle interval; answer with `Event::Slept`.
    SleepSettle,
    /// Block serving until the workload ends or an interrupt arrives;
    /// answer with `Event::ServeEnded`.
    Serve { pid: u64 },
}

/// How a blocking serve phase came to an end.
#[derive(Clone, Copy, Debug, PartialEq, Eq, Structural)]
pub enum ServeEnd {
    /// The workload exited on its own.
    Completed,
    /// An external interrupt signal arrived.
    Interrupted,
    /// The workload failed to bind its listening resource and never served.
    BindFailed,
}

/// The driver's answer to one [`Action`].
#[derive(Clone, Copy, Debug)]
pub enum Event {
    /// The registry's recorded identifier, if a valid record exists.
    Registry { recorded: Option<u64> },
    /// Whether the probed process is alive.
    Alive { alive: bool },
    /// Whether a termination request was delivered to the target.
    TermAck { delivered: bool },
    /// The diagnostic snapshot was produced (or failed harmlessly).
    Described,
    /// The in-process workload launch: its identifier, or nothing on failure.
    Launched { pid: Option<u64> },
    /// The detached spawn: the new identifier, or nothing on failure.
    Spawned { pid: Option<u64> },
    /// Whether the registry write succeeded.
    Saved { ok: bool },
    /// The registry record was deleted (best effort).
    Cleared,
    /// The requested pause elapsed.
    Slept,
    /// How the serve phase ended.
    ServeEnded { end: ServeEnd },
}

// ---------------------------------------------------------------------------
// Stop
// ---------------------------------------------------------------------------

/// Outcome of a stop operation. "Nothing to stop" is a success state, not
/// an error; only an undeliverable termination request is a failure.
#[derive(Clone, Copy, Debug, PartialEq, Eq, Structural)]
pub enum StopOutcome {
    /// No registry record: already stopped.
    NotRunning,
    /// A record existed but the process was dead; the stale record was
    /// cleared.
    ClearedStale,
    /// The process honored graceful termination within the poll budget.
    Stopped { pid: u64 },
    /// The poll budget expired and forced termination was delivered.
    ForceStopped { pid: u64 },
    /// A termination request could not be delivered.
    AdapterFailure { pid: u64 },
}

/// State of the stop machine. `budget` is the total number of liveness
/// polls granted before escalation; `left` counts the polls still granted.
#[derive(Clone, Copy, Debug)]
pub enum StopSt {
    /// About to load the registry.
    Load { budget: u64 },
    /// A record exists; about to probe liveness.
    Check { pid: u64, budget: u64 },
    /// The process is alive; about to request graceful termination.
    Grace { pid: u64, budget: u64 },
    /// Graceful request delivered; about to poll liveness.
    Poll { pid: u64, left: u64 },
    /// Still alive; about to pause before the next poll.
    Pause { pid: u64, left: u64 },
    /// The poll budget expired; about to escalate to forced termination.
    Force { pid: u64 },
    /// The record was stale; about to clear it.
    ClearStale,
    /// Death confirmed during polling; about to clear the record.
    ClearDead { pid: u64 },
    /// Forced termination delivered; about to clear the record.
    ClearForced { pid: u64 },
    /// The operation is complete.
    Done { outcome: StopOutcome },
}

/// The stop machine's initial state, granted `budget` liveness polls.
pub open spec fn stop_init_spec(budget: u64) -> StopSt {
    StopSt::Load { budget }
}

/// Starts a stop operation with the given poll budget.
pub fn stop_init(budget: u64) -> (st: StopSt)
    requires
        1 <= budget,
    ensures
        st == stop_init_spec(budget),
        stop_wf(st),
{
    StopSt::Load { budget }
}

/// States whose poll counters are meaningful.
pub open spec fn stop_wf(st: StopSt) -> bool {
    match st {
        StopSt::Load { budget } => 1 <= budget,
        StopSt::Check { budget, .. } => 1 <= budget,
        StopSt::Grace { budget, .. } => 1 <= budget,
        StopSt::Poll { left, .. } => 1 <= left,
        StopSt::Pause { left, .. } => 1 <= left,
        _ => true,
    }
}

/// The action the stop machine requests in a state, if any.
pub open spec fn stop_action_spec(st: StopSt) -> Option<Action> {
    match st {
        StopSt::Load { .. } => Option::Some(Action::LoadRegistry),
        StopSt::Check { pid, .. } => Option::Some(Action::CheckAlive { pid }),
        StopSt::Grace { pid, .. } => Option::Some(Action::TerminateGraceful { pid }),
        StopSt::Poll { pid, .. } => Option::Some(Action::CheckAlive { pid }),
        StopSt::Pause { .. } => Option::Some(Action::SleepPoll),
        StopSt::Force { pid } => Option::Some(Action::TerminateForced { pid }),
        StopSt::ClearStale => Option::Some(Action::ClearRegistry),
        StopSt::ClearDead { .. } => Option::Some(Action::ClearRegistry),
        StopSt::ClearForced { .. } => Option::Some(Action::ClearRegistry),
        StopSt::Done { .. } => Option::None,
    }
}

/// The action the stop machine requests next.
pub fn stop_action(st: StopSt) -> (a: Option<Action>)
    ensures
        a == stop_action_spec(st),
{
    match st {
        StopSt::Load { .. } => Option::Some(Action::LoadRegistry),
        StopSt::Check { pid, .. } => Option::Some(Action::CheckAlive { pid }),
        StopSt::Grace { pid, .. } => Option::Some(Action::TerminateGraceful { pid }),
        StopSt::Poll { pid, .. } => Option::Some(Action::CheckAlive { pid }),
        StopSt::Pause { .. } => Option::Some(Action::SleepPoll),
        StopSt::Force { pid } => Option::Some(Action::TerminateForced { pid }),
        StopSt::ClearStale => Option::Some(Action::ClearRegistry),
        StopSt::ClearDead { .. } => Option::Some(Action::ClearRegistry),
        StopSt::ClearForced { .. } => Option::Some(Action::ClearRegistry),
        StopSt::Done { .. } => Option::None,
    }
}

/// The event kind the stop machine can take in a state.
pub open spec fn stop_expects(st: StopSt, ev: Event) -> bool {
    match st {
        StopSt::Load { .. } => ev is Registry,
        StopSt::Check { .. } => ev is Alive,
        StopSt::Grace { .. } => ev is TermAck,
        StopSt::Poll { .. } => ev is Alive,
        StopSt::Pause { .. } => ev is Slept,
        StopSt::Force { .. } => ev is TermAck,
        StopSt::ClearStale => ev is Cleared,
        StopSt::ClearDead { .. } => ev is Cleared,
        StopSt::ClearForced { .. } => ev is Cleared,
        StopSt::Done { .. } => false,
    }
}

/// The stop machine's transition policy.
///
/// Absence of a record succeeds trivially; a stale record is cleared and
/// counts as success; a live process gets one graceful request, then up to
/// `budget` liveness polls; only when the budget expires is exactly one
/// forced request issued, and the registry is cleared once death is
/// confirmed or the forced request delivered.
pub open spec fn stop_step_spec(st: StopSt, ev: Event) -> StopSt {
    match (st, ev) {
        (StopSt::Load { budget }, Event::Registry { recorded }) => match recorded {
            Option::None => StopSt::Done { outcome: StopOutcome::NotRunning },
            Option::Some(pid) => StopSt::Check { pid, budget },
        },
        (StopSt::Check { pid, budget }, Event::Alive { alive }) => if alive {
            StopSt::Grace { pid, budget }
        } else {
            StopSt::ClearStale
        },
        (StopSt::Grace { pid, budget }, Event::TermAck { delivered }) => if delivered {
            StopSt::Poll { pid, left: budget }
        } else {
            StopSt::Done { outcome: StopOutcome::AdapterFailure { pid } }
        },
        (StopSt::Poll { pid, left }, Event::Alive { alive }) => if !alive {
            StopSt::ClearDead { pid }
        } else if left <= 1 {
            StopSt::Force { pid }
        } else {
            StopSt::Pause { pid, left: (left - 1) as u64 }
        },
        (StopSt::Pause { pid, left }, Event::Slept) => StopSt::Poll { pid, left },
        (StopSt::Force { pid }, Event::TermAck { delivered }) => if delivered {
            StopSt::ClearForced { pid }
        } else {
            StopSt::Done { outcome: StopOutcome::AdapterFailure { pid } }
        },
        (StopSt::ClearStale, Event::Cleared) => StopSt::Done {
            outcome: StopOutcome::ClearedStale,
        },
        (StopSt::ClearDead { pid }, Event::Cleared) => StopSt::Done {
            outcome: StopOutcome::Stopped { pid },
        },
        (StopSt::ClearForced { pid }, Event::Cleared) => StopSt::Done {
            outcome: StopOutcome::ForceStopped { pid },
        },
        _ => st,
    }
}

/// Takes one stop-machine step on the driver's answer.
pub fn stop_step(st: StopSt, ev: Event) -> (r: StopSt)
    requires
        stop_expects(st, ev),
        stop_wf(st),
    ensures
        r == stop_step_spec(st, ev),
        stop_wf(r),
{
    match (st, ev) {
        (StopSt::Load { budget }, Event::Registry { recorded }) => match recorded {
            Option::None => StopSt::Done { outcome: StopOutcome::NotRunning },
            Option::Some(pid) => StopSt::Check { pid, budget },
        },
        (StopSt::Check { pid, budget }, Event::Alive { alive }) => if alive {
            StopSt::Grace { pid, budget }
        } else {
            StopSt::ClearStale
        },
        (StopSt::Grace { pid, budget }, Event::TermAck { delivered }) => if delivered {
            StopSt::Poll { pid, left: budget }
        } else {
            StopSt::Done { outcome: StopOutcome::AdapterFailure { pid } }
        },
        (StopSt::Poll { pid, left }, Event::Alive { alive }) => if !alive {
            StopSt::ClearDead { pid }
        } else if left <= 1 {
            StopSt::Force { pid }
        } else {
            StopSt::Pause { pid, left: left - 1 }
        },
        (StopSt::Pause { pid, left }, Event::Slept) => StopSt::Poll { pid, left },
        (StopSt::Force { pid }, Event::TermAck { delivered }) => if delivered {
            StopSt::ClearForced { pid }
        } else {
            StopSt::Done { outcome: StopOutcome::AdapterFailure { pid } }
        },
        (StopSt::ClearStale, Event::Cleared) => StopSt::Done {
            outcome: StopOutcome::ClearedStale,
        },
        (StopSt::ClearDead { pid }, Event::Cleared) => StopSt::Done {
            outcome: StopOutcome::Stopped { pid },
        },
        (StopSt::ClearForced { pid }, Event::Cleared) => StopSt::Done {
            outcome: StopOutcome::ForceStopped { pid },
        },
        (s, _) => s,
    }
}

/// Termination measure for driving the stop machine to completion.
pub open spec fn stop_measure(st: StopSt) -> nat {
    match st {
        StopSt::Load { budget } => 2 * (budget as nat) + 9,
        StopSt::Check { budget, .. } => 2 * (budget as nat) + 8,
        StopSt::Grace { budget, .. } => 2 * (budget as nat) + 7,
        StopSt::Poll { left, .. } => 2 * (left as nat) + 3,
        StopSt::Pause { left, .. } => 2 * (left as nat) + 4,
        StopSt::Force { .. } => 4,
        StopSt::ClearStale => 2,
        StopSt::ClearDead { .. } => 2,
        StopSt::ClearForced { .. } => 2,
        StopSt::Done { .. } => 0,
    }
}

/// Every accepted step strictly shrinks the stop measure: a driven stop
/// operation always completes.
pub proof fn lemma_stop_step_decreases(st: StopSt, ev: Event)
    requires
        stop_expects(st, ev),
        stop_wf(st),
    ensures
        stop_measure(stop_step_spec(st, ev)) < stop_measure(st),
{
}

// ---------------------------------------------------------------------------
// Start
// ---------------------------------------------------------------------------

/// Outcome of a start operation.
#[derive(Clone, Copy, Debug, PartialEq, Eq, Structural)]
pub enum StartOutcome {
    /// A live instance is already recorded; no workload was launched.
    AlreadyRunning { pid: u64 },
    /// The workload could not be launched; nothing was recorded.
    LaunchFailed,
    /// The workload launched but its identifier could not be recorded.
    SaveFailed { pid: u64 },
    /// The workload failed to bind its listening resource; the record was
    /// rolled back.
    BindFailed { pid: u64 },
    /// The workload served and ended (on its own or on interrupt); the
    /// record was cleared on the way out.
    Completed { pid: u64 },
}

/// State of the start machine.
#[derive(Clone, Copy, Debug)]
pub enum StartSt {
    /// About to load the registry.
    Load,
    /// A record exists; about to probe liveness.
    Check { pid: u64 },
    /// A live instance exists; about to fetch its diagnostics before
    /// refusing to start.
    Describe { pid: u64 },
    /// No live instance; about to launch the workload.
    Launch,
    /// Workload launched; about to record its identifier.
    Save { pid: u64 },
    /// Identifier recorded; about to block serving.
    Serve { pid: u64 },
    /// The workload never bound its listener; about to roll the record back.
    ClearFailed { pid: u64 },
    /// Serving ended; about to clear the record before exiting.
    ClearExit { pid: u64 },
    /// The operation is complete.
    Done { outcome: StartOutcome },
}

/// The action the start machine requests in a state, if any.
pub open spec fn start_action_spec(st: StartSt) -> Option<Action> {
    match st {
        StartSt::Load => Option::Some(Action::LoadRegistry),
        StartSt::Check { pid } => Option::Some(Action::CheckAlive { pid }),
        StartSt::Describe { pid } => Option::Some(Action::Describe { pid }),
        StartSt::Launch => Option::Some(Action::LaunchWorkload),
        StartSt::Save { pid } => Option::Some(Action::SaveRegistry { pid }),
        StartSt::Serve { pid } => Option::Some(Action::Serve { pid }),
        StartSt::ClearFailed { .. } => Option::Some(Action::ClearRegistry),
        StartSt::ClearExit { .. } => Option::Some(Action::ClearRegistry),
        StartSt::Done { .. } => Option::None,
    }
}

/// The action the start machine requests next.
pub fn start_action(st: StartSt) -> (a: Option<Action>)
    ensures
        a == start_action_spec(st),
{
    match st {
        StartSt::Load => Option::Some(Action::LoadRegistry),
        StartSt::Check { pid } => Option::Some(Action::CheckAlive { pid }),
        StartSt::Describe { pid } => Option::Some(Action::Describe { pid }),
        StartSt::Launch => Option::Some(Action::LaunchWorkload),
        StartSt::Save { pid } => Option::Some(Action::SaveRegistry { pid }),
        StartSt::Serve { pid } => Option::Some(Action::Serve { pid }),
        StartSt::ClearFailed { .. } => Option::Some(Action::ClearRegistry),
        StartSt::ClearExit { .. } => Option::Some(Action::ClearRegistry),
        StartSt::Done { .. } => Option::None,
    }
}

/// The event kind the start machine can take in a state.
pub open spec fn start_expects(st: StartSt, ev: Event) -> bool {
    match st {
        StartSt::Load => ev is Registry,
        StartSt::Check { .. } => ev is Alive,
        StartSt::Describe { .. } => ev is Described,
        StartSt::Launch => ev is Launched,
        StartSt::Save { .. } => ev is Saved,
        StartSt::Serve { .. } => ev is ServeEnded,
        StartSt::ClearFailed { .. } => ev is Cleared,
        StartSt::ClearExit { .. } => ev is Cleared,
        StartSt::Done { .. } => false,
    }
}

/// The start machine's transition policy.
///
/// A recorded live instance refuses the start (after surfacing its
/// diagnostics) and launches nothing. Otherwise the workload is launched,
/// its identifier recorded before serving begins, and the record is cleared
/// whenever serving ends — including a failed listener bind, so no record
/// outlives a workload that never truly started.
pub open spec fn start_step_spec(st: StartSt, ev: Event) -> StartSt {
    match (st, ev) {
        (StartSt::Load, Event::Registry { recorded }) => match recorded {
            Option::None => StartSt::Launch,
            Option::Some(pid) => StartSt::Check { pid },
        },
        (StartSt::Check { pid }, Event::Alive { alive }) => if alive {
            StartSt::Describe { pid }
        } else {
            StartSt::Launch
        },
        (StartSt::Describe { pid }, Event::Described) => StartSt::Done {
            outcome: StartOutcome::AlreadyRunning { pid },
        },
        (StartSt::Launch, Event::Launched { pid }) => match pid {
            Option::Some(p) => StartSt::Save { pid: p },
            Option::None => StartSt::Done { outcome: StartOutcome::LaunchFailed },
        },
        (StartSt::Save { pid }, Event::Saved { ok }) => if ok {
            StartSt::Serve { pid }
        } else {
            StartSt::Done { outcome: StartOutcome::SaveFailed { pid } }
        },
        (StartSt::Serve { pid }, Event::ServeEnded { end }) => match end {
            ServeEnd::BindFailed => StartSt::ClearFailed { pid },
            ServeEnd::Completed => StartSt::ClearExit { pid },
            ServeEnd::Interrupted => StartSt::ClearExit { pid },
        },
        (StartSt::ClearFailed { pid }, Event::Cleared) => StartSt::Done {
            outcome: StartOutcome::BindFailed { pid },
        },
        (StartSt::ClearExit { pid }, Event::Cleared) => StartSt::Done {
            outcome: StartOutcome::Completed { pid },
        },
        _ => st,
    }
}

/// Takes one start-machine step on the driver's answer.
pub fn start_step(st: StartSt, ev: Event) -> (r: StartSt)
    requires
        start_expects(st, ev),
    ensures
        r == start_step_spec(st, ev),
{
    match (st, ev) {
        (StartSt::Load, Event::Registry { recorded }) => match recorded {
            Option::None => StartSt::Launch,
            Option::Some(pid) => StartSt::Check { pid },
        },
        (StartSt::Check { pid }, Event::Alive { alive }) => if alive {
            StartSt::Describe { pid }
        } else {
            StartSt::Launch
        },
        (StartSt::Describe { pid }, Event::Described) => StartSt::Done {
            outcome: StartOutcome::AlreadyRunning { pid },
        },
        (StartSt::Launch, Event::Launched { pid }) => match pid {
            Option::Some(p) => StartSt::Save { pid: p },
            Option::None => StartSt::Done { outcome: StartOutcome::LaunchFailed },
        },
        (StartSt::Save { pid }, Event::Saved { ok }) => if ok {
            StartSt::Serve { pid }
        } else {
            StartSt::Done { outcome: StartOutcome::SaveFailed { pid } }
        },
        (StartSt::Serve { pid }, Event::ServeEnded { end }) => match end {
            ServeEnd::BindFailed => StartSt::ClearFailed { pid },
            ServeEnd::Completed => StartSt::ClearExit { pid },
            ServeEnd::Interrupted => StartSt::ClearExit { pid },
        },
        (StartSt::ClearFailed { pid }, Event::Cleared) => StartSt::Done {
            outcome: StartOutcome::BindFailed { pid },
        },
        (StartSt::ClearExit { pid }, Event::Cleared) => StartSt::Done {
            outcome: StartOutcome::Completed { pid },
        },
        (s, _) => s,
    }
}

/// Termination measure for driving the start machine to completion.
pub open spec fn start_measure(st: StartSt) -> nat {
    match st {
        StartSt::Load => 8,
        StartSt::Check { .. } => 7,
        StartSt::Describe { .. } => 2,
        StartSt::Launch => 6,
        StartSt::Save { .. } => 5,
        StartSt::Serve { .. } => 4,
        StartSt::ClearFailed { .. } => 2,
        StartSt::ClearExit { .. } => 2,
        StartSt::Done { .. } => 0,
    }
}

/// Every accepted step strictly shrinks the start measure.
pub proof fn lemma_start_step_decreases(st: StartSt, ev: Event)
    requires
        start_expects(st, ev),
    ensures
        start_measure(start_step_spec(st, ev)) < start_measure(st),
{
}

// ---------------------------------------------------------------------------
// Status
// ---------------------------------------------------------------------------

/// What a status operation reports. Reporting is informational and always
/// succeeds.
#[derive(Clone, Copy, Debug, PartialEq, Eq, Structural)]
pub enum StatusReport {
    /// No live recorded instance.
    NotRunning,
    /// The recorded instance is alive.
    Running { pid: u64 },
}

/// State of the status machine.
#[derive(Clone, Copy, Debug)]
pub enum StatusSt {
    /// About to load the registry.
    Load,
    /// A record exists; about to probe liveness.
    Check { pid: u64 },
    /// The record is stale; about to clear it before reporting.
    ClearStale,
    /// The instance is alive; about to fetch diagnostics for display.
    Describe { pid: u64 },
    /// The operation is complete.
    Done { report: StatusReport },
}

/// The action the status machine requests in a state, if any.
pub open spec fn status_action_spec(st: StatusSt) -> Option<Action> {
    match st {
        StatusSt::Load => Option::Some(Action::LoadRegistry),
        StatusSt::Check { pid } => Option::Some(Action::CheckAlive { pid }),
        StatusSt::ClearStale => Option::Some(Action::ClearRegistry),
        StatusSt::Describe { pid } => Option::Some(Action::Describe { pid }),
        StatusSt::Done { .. } => Option::None,
    }
}

/// The action the status machine requests next.
pub fn status_action(st: StatusSt) -> (a: Option<Action>)
    ensures
        a == status_action_spec(st),
{
    match st {
        StatusSt::Load => Option::Some(Action::LoadRegistry),
        StatusSt::Check { pid } => Option::Some(Action::CheckAlive { pid }),
        StatusSt::ClearStale => Option::Some(Action::ClearRegistry),
        StatusSt::Describe { pid } => Option::Some(Action::Describe { pid }),
        StatusSt::Done { .. } => Option::None,
    }
}

/// The event kind the status machine can take in a state.
pub open spec fn status_expects(st: StatusSt, ev: Event) -> bool {
    match st {
        StatusSt::Load => ev is Registry,
        StatusSt::Check { .. } => ev is Alive,
        StatusSt::ClearStale => ev is Cleared,
        StatusSt::Describe { .. } => ev is Described,
        StatusSt::Done { .. } => false,
    }
}

/// The status machine's transition policy: report `Running` exactly when a
/// recorded instance is alive, clearing a stale record on the way.
pub open spec fn status_step_spec(st: StatusSt, ev: Event) -> StatusSt {
    match (st, ev) {
        (StatusSt::Load, Event::Registry { recorded }) => match recorded {
            Option::None => StatusSt::Done { report: StatusReport::NotRunning },
            Option::Some(pid) => StatusSt::Check { pid },
        },
        (StatusSt::Check { pid }, Event::Alive { alive }) => if alive {
            StatusSt::Describe { pid }
        } else {
            StatusSt::ClearStale
        },
        (StatusSt::ClearStale, Event::Cleared) => StatusSt::Done {
            report: StatusReport::NotRunning,
        },
        (StatusSt::Describe { pid }, Event::Described) => StatusSt::Done {
            report: StatusReport::Running { pid },
        },
        _ => st,
    }
}

/// Takes one status-machine step on the driver's answer.
pub fn status_step(st: StatusSt, ev: Event) -> (r: StatusSt)
    requires
        status_expects(st, ev),
    ensures
        r == status_step_spec(st, ev),
{
    match (st, ev) {
        (StatusSt::Load, Event::Registry { recorded }) => match recorded {
            Option::None => StatusSt::Done { report: StatusReport::NotRunning },
            Option::Some(pid) => StatusSt::Check { pid },
        },
        (StatusSt::Check { pid }, Event::Alive { alive }) => if alive {
            StatusSt::Describe { pid }
        } else {
            StatusSt::ClearStale
        },
        (StatusSt::ClearStale, Event::Cleared) => StatusSt::Done {
            report: StatusReport::NotRunning,
        },
        (StatusSt::Describe { pid }, Event::Described) => StatusSt::Done {
            report: StatusReport::Running { pid },
        },
        (s, _) => s,
    }
}

/// Termination measure for driving the status machine to completion.
pub open spec fn status_measure(st: StatusSt) -> nat {
    match st {
        StatusSt::Load => 3,
        StatusSt::Check { .. } => 2,
        StatusSt::ClearStale => 1,
        StatusSt::Describe { .. } => 1,
        StatusSt::Done { .. } => 0,
    }
}

/// Every accepted step strictly shrinks the status measure.
pub proof fn lemma_status_step_decreases(st: StatusSt, ev: Event)
    requires
        status_expects(st, ev),
    ensures
        status_measure(status_step_spec(st, ev)) < status_measure(st),
{
}

// ---------------------------------------------------------------------------
// Kill
// ---------------------------------------------------------------------------

/// Outcome of a kill operation.
#[derive(Clone, Copy, Debug, PartialEq, Eq, Structural)]
pub enum KillOutcome {
    /// The forced termination request was delivered.
    Killed { pid: u64 },
    /// The forced termination request could not be delivered.
    AdapterFailure { pid: u64 },
}

/// State of the kill machine. Kill addresses an explicit identifier — it
/// never requires the registry to match — and only consults the registry
/// afterwards to clear a record equal to the killed identifier.
#[derive(Clone, Copy, Debug)]
pub enum KillSt {
    /// About to send forced termination, unconditionally and with no
    /// graceful phase.
    Force { target: u64 },
    /// About to load the registry to see whether it records the target.
    Load { target: u64, delivered: bool },
    /// The registry records the killed identifier; about to clear it.
    Clear { target: u64, delivered: bool },
    /// The operation is complete.
    Done { outcome: KillOutcome },
}

/// The kill machine's initial state for an explicit target identifier.
pub open spec fn kill_init_spec(target: u64) -> KillSt {
    KillSt::Force { target }
}

/// Starts a kill operation against an explicit identifier.
pub fn kill_init(target: u64) -> (st: KillSt)
    ensures
        st == kill_init_spec(target),
{
    KillSt::Force { target }
}

/// The kill outcome for a given delivery result.
pub open spec fn kill_outcome_spec(target: u64, delivered: bool) -> KillOutcome {
    if delivered {
        KillOutcome::Killed { pid: target }
    } else {
        KillOutcome::AdapterFailure { pid: target }
    }
}

/// The action the kill machine requests in a state, if any.
pub open spec fn kill_action_spec(st: KillSt) -> Option<Action> {
    match st {
        KillSt::Force { target } => Option::Some(Action::TerminateForced { pid: target }),
        KillSt::Load { .. } => Option::Some(Action::LoadRegistry),
        KillSt::Clear { .. } => Option::Some(Action::ClearRegistry),
        KillSt::Done { .. } => Option::None,
    }
}

/// The action the kill machine requests next.
pub fn kill_action(st: KillSt) -> (a: Option<Action>)
    ensures
        a == kill_action_spec(st),
{
    match st {
        KillSt::Force { target } => Option::Some(Action::TerminateForced { pid: target }),
        KillSt::Load { .. } => Option::Some(Action::LoadRegistry),
        KillSt::Clear { .. } => Option::Some(Action::ClearRegistry),
        KillSt::Done { .. } => Option::None,
    }
}

/// The event kind the kill machine can take in a state.
pub open spec fn kill_expects(st: KillSt, ev: Event) -> bool {
    match st {
        KillSt::Force { .. } => ev is TermAck,
        KillSt::Load { .. } => ev is Registry,
        KillSt::Clear { .. } => ev is Cleared,
        KillSt::Done { .. } => false,
    }
}

/// The kill machine's transition policy: force first, then clear the
/// registry only if it records exactly the killed identifier.
pub open spec fn kill_step_spec(st: KillSt, ev: Event) -> KillSt {
    match (st, ev) {
        (KillSt::Force { target }, Event::TermAck { delivered }) => KillSt::Load {
            target,
            delivered,
        },
        (KillSt::Load { target, delivered }, Event::Registry { recorded }) => if recorded
            == Option::Some(target) {
            KillSt::Clear { target, delivered }
        } else {
            KillSt::Done { outcome: kill_outcome_spec(target, delivered) }
        },
        (KillSt::Clear { target, delivered }, Event::Cleared) => KillSt::Done {
            outcome: kill_outcome_spec(target, delivered),
        },
        _ => st,
    }
}

/// Takes one kill-machine step on the driver's answer.
pub fn kill_step(st: KillSt, ev: Event) -> (r: KillSt)
    requires
        kill_expects(st, ev),
    ensures
        r == kill_step_spec(st, ev),
{
    match (st, ev) {
        (KillSt::Force { target }, Event::TermAck { delivered }) => KillSt::Load {
            target,
            delivered,
        },
        (KillSt::Load { target, delivered }, Event::Registry { recorded }) => {
            let matches_record = match recorded {
                Option::Some(r) => r == target,
                Option::None => false,
            };
            if matches_record {
                KillSt::Clear { target, delivered }
            } else if delivered {
                KillSt::Done { outcome: KillOutcome::Killed { pid: target } }
            } else {
                KillSt::Done { outcome: KillOutcome::AdapterFailure { pid: target } }
            }
        },
        (KillSt::Clear { target, delivered }, Event::Cleared) => if delivered {
            KillSt::Done { outcome: KillOutcome::Killed { pid: target } }
        } else {
            KillSt::Done { outcome: KillOutcome::AdapterFailure { pid: target } }
        },
        (s, _) => s,
    }
}

/// Termination measure for driving the kill machine to completion.
pub open spec fn kill_measure(st: KillSt) -> nat {
    match st {
        KillSt::Force { .. } => 3,
        KillSt::Load { .. } => 2,
        KillSt::Clear { .. } => 1,
        KillSt::Done { .. } => 0,
    }
}

/// Every accepted step strictly shrinks the kill measure.
pub proof fn lemma_kill_step_decreases(st: KillSt, ev: Event)
    requires
        kill_expects(st, ev),
    ensures
        kill_measure(kill_step_spec(st, ev)) < kill_measure(st),
{
}

// ---------------------------------------------------------------------------
// Restart
// ---------------------------------------------------------------------------

/// Outcome of a restart operation.
#[derive(Clone, Copy, Debug, PartialEq, Eq, Structural)]
pub enum RestartOutcome {
    /// The old instance was stopped (or none ran), a fresh process was
    /// spawned detached with a start directive, and the spawn succeeded.
    Restarted { pid: u64 },
    /// The stop phase failed at the adapter level.
    StopFailed { pid: u64 },
    /// The detached spawn failed.
    SpawnFailed,
}

/// State of the restart machine: the full stop protocol (escalation
/// included), a settle pause for the listening resource to be released,
/// then one detached spawn. Restart does not re-enter serving itself; the
/// spawned process performs its own start.
#[derive(Clone, Copy, Debug)]
pub enum RestartSt {
    /// Running the embedded stop machine.
    Stopping { st: StopSt },
    /// Stop finished; about to pause for the settle interval.
    Settle,
    /// Settled; about to spawn the fresh process.
    Spawn,
    /// The operation is complete.
    Done { outcome: RestartOutcome },
}

/// The restart machine's initial state, with the stop phase granted
/// `budget` liveness polls.
pub open spec fn restart_init_spec(budget: u64) -> RestartSt {
    RestartSt::Stopping { st: stop_init_spec(budget) }
}

/// Starts a restart operation with the given stop poll budget.
pub fn restart_init(budget: u64) -> (st: RestartSt)
    requires
        1 <= budget,
    ensures
        st == restart_init_spec(budget),
        restart_wf(st),
{
    RestartSt::Stopping { st: StopSt::Load { budget } }
}

/// The embedded stop machine is live and well-formed while stopping.
pub open spec fn restart_wf(st: RestartSt) -> bool {
    match st {
        RestartSt::Stopping { st: inner } => stop_wf(inner) && !(inner is Done),
        _ => true,
    }
}

/// The action the restart machine requests in a state, if any.
pub open spec fn restart_action_spec(st: RestartSt) -> Option<Action> {
    match st {
        RestartSt::Stopping { st: inner } => stop_action_spec(inner),
        RestartSt::Settle => Option::Some(Action::SleepSettle),
        RestartSt::Spawn => Option::Some(Action::SpawnDetached),
        RestartSt::Done { .. } => Option::None,
    }
}

/// The action the restart machine requests next.
pub fn restart_action(st: RestartSt) -> (a: Option<Action>)
    ensures
        a == restart_action_spec(st),
{
    match st {
        RestartSt::Stopping { st: inner } => stop_action(inner),
        RestartSt::Settle => Option::Some(Action::SleepSettle),
        RestartSt::Spawn => Option::Some(Action::SpawnDetached),
        RestartSt::Done { .. } => Option::None,
    }
}

/// The event kind the restart machine can take in a state.
pub open spec fn restart_expects(st: RestartSt, ev: Event) -> bool {
    match st {
        RestartSt::Stopping { st: inner } => stop_expects(inner, ev),
        RestartSt::Settle => ev is Slept,
        RestartSt::Spawn => ev is Spawned,
        RestartSt::Done { .. } => false,
    }
}

/// The restart machine's transition policy: delegate to the stop machine;
/// when it completes, proceed to settle and spawn on any stop success and
/// abort on an adapter failure.
pub open spec fn restart_step_spec(st: RestartSt, ev: Event) -> RestartSt {
    match (st, ev) {
        (RestartSt::Stopping { st: inner }, _) => {
            let next = stop_step_spec(inner, ev);
            match next {
                StopSt::Done { outcome } => match outcome {
                    StopOutcome::AdapterFailure { pid } => RestartSt::Done {
                        outcome: RestartOutcome::StopFailed { pid },
                    },
                    _ => RestartSt::Settle,
                },
                _ => RestartSt::Stopping { st: next },
            }
        },
        (RestartSt::Settle, Event::Slept) => RestartSt::Spawn,
        (RestartSt::Spawn, Event::Spawned { pid }) => match pid {
            Option::Some(p) => RestartSt::Done { outcome: RestartOutcome::Restarted { pid: p } },
            Option::None => RestartSt::Done { outcome: RestartOutcome::SpawnFailed },
        },
        _ => st,
    }
}

/// Takes one restart-machine step on the driver's answer.
pub fn restart_step(st: RestartSt, ev: Event) -> (r: RestartSt)
    requires
        restart_expects(st, ev),
        restart_wf(st),
    ensures
        r == restart_step_spec(st, ev),
        restart_wf(r),
{
    match (st, ev) {
        (RestartSt::Stopping { st: inner }, e) => {
            let next = stop_step(inner, e);
            match next {
                StopSt::Done { outcome } => match outcome {
                    StopOutcome::AdapterFailure { pid } => RestartSt::Done {
                        outcome: RestartOutcome::StopFailed { pid },
                    },
                    _ => RestartSt::Settle,
                },
                _ => RestartSt::Stopping { st: next },
            }
        },
        (RestartSt::Settle, Event::Slept) => RestartSt::Spawn,
        (RestartSt::Spawn, Event::Spawned { pid }) => match pid {
            Option::Some(p) => RestartSt::Done { outcome: RestartOutcome::Restarted { pid: p } },
            Option::None => RestartSt::Done { outcome: RestartOutcome::SpawnFailed },
        },
        (s, _) => s,
    }
}

/// Termination measure for driving the restart machine to completion.
pub open spec fn restart_measure(st: RestartSt) -> nat {
    match st {
        RestartSt::Stopping { st: inner } => stop_measure(inner) + 3,
        RestartSt::Settle => 2,
        RestartSt::Spawn => 1,
        RestartSt::Done { .. } => 0,
    }
}

/// Every accepted step strictly shrinks the restart measure.
pub proof fn lemma_restart_step_decreases(st: RestartSt, ev: Event)
    requires
        restart_expects(st, ev),
        restart_wf(st),
    ensures
        restart_measure(restart_step_spec(st, ev)) < restart_measure(st),
{
    match st {
        RestartSt::Stopping { st: inner } => {
            lemma_stop_step_decreases(inner, ev);
        },
        _ => {},
    }
}

} // verus!
