use vstd::prelude::*;

use crate::connection::{ApiInfo, ApiState, QueryError, query_result};
use crate::text::{decimal, u64_text};

verus! {

/// Milliseconds between two looks at the connection state.
pub const POLL_INTERVAL_MS: u64 = 1000;

/// Milliseconds a caller waits for the worker before giving up.
pub const STARTUP_BOUND_MS: u64 = 120000;

/// The slot holding the worker process, empty before the spawn and after a stop.
pub struct ApiProcess<C> {
    pub child: Option<C>,
}

/// Where the supervisor stands in the worker's life.
#[derive(Clone, Copy, PartialEq, Eq, Structural)]
pub enum Phase {
    NotStarted,
    Spawning,
    AwaitingHandshake,
    Ready,
    Failed,
    Stopped,
}

/// What happened to the supervisor.
#[derive(Clone, Copy, PartialEq, Eq, Structural)]
pub enum Signal {
    /// The application started.
    Startup,
    /// The worker process was launched.
    Spawned,
    /// The worker process could not be launched.
    SpawnFailed,
    /// The handshake published a descriptor.
    HandshakeSucceeded,
    /// The handshake ended without a descriptor.
    HandshakeFailed,
    /// A stop command, or the application's teardown.
    StopRequested,
}

/// The event the application is told of after a transition.
#[derive(Clone, Copy, PartialEq, Eq, Structural)]
pub enum Notice {
    Quiet,
    SidecarReady,
    SidecarError,
}

/// The supervisor's transitions. A stop is taken from every phase; a failed
/// handshake after a stop is the expected end of the stream and reported to
/// nobody; a signal that does not fit the phase changes nothing.
pub open spec fn transition(phase: Phase, signal: Signal) -> (Phase, Notice) {
    match (phase, signal) {
        (_, Signal::StopRequested) => (Phase::Stopped, Notice::Quiet),
        (Phase::NotStarted, Signal::Startup) => (Phase::Spawning, Notice::Quiet),
        (Phase::Spawning, Signal::Spawned) => (Phase::AwaitingHandshake, Notice::Quiet),
        (Phase::Spawning, Signal::SpawnFailed) => (Phase::Failed, Notice::SidecarError),
        (Phase::AwaitingHandshake, Signal::HandshakeSucceeded) => (Phase::Ready, Notice::SidecarReady),
        (Phase::AwaitingHandshake, Signal::HandshakeFailed) => (Phase::Failed, Notice::SidecarError),
        _ => (phase, Notice::Quiet),
    }
}

impl Phase {
    /// Whether the application stopped the worker, so that the end of its output
    /// is expected.
    pub fn stop_requested(&self) -> (r: bool)
        ensures
            r == (*self == Phase::Stopped),
    {
        match self {
            Phase::Stopped => true,
            _ => false,
        }
    }

    /// The phase after `signal`, and the event to tell the application of.
    pub fn advance(&self, signal: Signal) -> (r: (Phase, Notice))
        ensures
            r == transition(*self, signal),
    {
        match (self, signal) {
            (_, Signal::StopRequested) => (Phase::Stopped, Notice::Quiet),
            (Phase::NotStarted, Signal::Startup) => (Phase::Spawning, Notice::Quiet),
            (Phase::Spawning, Signal::Spawned) => (Phase::AwaitingHandshake, Notice::Quiet),
            (Phase::Spawning, Signal::SpawnFailed) => (Phase::Failed, Notice::SidecarError),
            (Phase::AwaitingHandshake, Signal::HandshakeSucceeded) => (
                Phase::Ready,
                Notice::SidecarReady,
            ),
            (Phase::AwaitingHandshake, Signal::HandshakeFailed) => (
                Phase::Failed,
                Notice::SidecarError,
            ),
            _ => (*self, Notice::Quiet),
        }
    }
}

/// Stopping is idempotent: a second stop leaves the supervisor stopped and
/// tells the application nothing.
pub proof fn lemma_stop_idempotent(phase: Phase)
    ensures
        transition(phase, Signal::StopRequested) == (Phase::Stopped, Notice::Quiet),
        transition(transition(phase, Signal::StopRequested).0, Signal::StopRequested)
            == transition(phase, Signal::StopRequested),
{
}

/// The worker executable's path under the bundled resources: the file name
/// carries the `.exe` suffix on Windows.
pub fn worker_resource_path(windows: bool) -> (r: String)
    ensures
        r@ == (if windows {
            "py_src/api.exe"@
        } else {
            "py_src/api"@
        }),
{
    if windows {
        String::from_str("py_src/api.exe")
    } else {
        String::from_str("py_src/api")
    }
}

/// Why a stop request did not end a process.
pub enum StopError {
    /// No process was running: a benign outcome.
    NothingToStop,
    /// The operating system refused to kill the process; the text says why.
    KillFailed(String),
}

/// What a stop request yields and leaves behind: a running process is taken out
/// of its slot for killing and the connection state is cleared; with no process
/// nothing changes.
pub open spec fn stop_effect<C>(process: ApiProcess<C>, state: ApiState) -> (
    Result<C, StopError>,
    ApiProcess<C>,
    ApiState,
) {
    match process.child {
        Some(child) => (Ok(child), ApiProcess { child: None }, ApiState { info: None }),
        None => (Err(StopError::NothingToStop), process, state),
    }
}

impl<C> ApiProcess<C> {
    /// An empty slot.
    pub fn new() -> (r: ApiProcess<C>)
        ensures
            r.child is None,
    {
        ApiProcess { child: None }
    }

    /// Stores a freshly spawned process.
    pub fn store(&mut self, child: C)
        ensures
            final(self).child == Some(child),
    {
        self.child = Some(child);
    }

    /// Whether a process is held.
    pub fn is_running(&self) -> (r: bool)
        ensures
            r == self.child is Some,
    {
        self.child.is_some()
    }
}

/// The stop transition: takes the running process out of its slot, for the
/// caller to kill, and clears the connection state. With no process it reports
/// `NothingToStop` and changes nothing.
pub fn stop_worker<C>(process: &mut ApiProcess<C>, state: &mut ApiState) -> (r: Result<
    C,
    StopError,
>)
    ensures
        (r, *final(process), *final(state)) == stop_effect(*old(process), *old(state)),
        old(process).child is None ==> r == Err::<C, StopError>(StopError::NothingToStop)
            && *final(state) == *old(state),
{
    match process.child.take() {
        Some(child) => {
            let _ = state.take_info();
            Ok(child)
        },
        None => Err(StopError::NothingToStop),
    }
}

/// Turns the result of killing a process into the result of the stop request.
pub fn kill_outcome(kill: Result<(), String>) -> (r: Result<(), StopError>)
    ensures
        match kill {
            Ok(()) => r == Ok::<(), StopError>(()),
            Err(e) => r == Err::<(), StopError>(StopError::KillFailed(e)),
        },
{
    match kill {
        Ok(()) => Ok(()),
        Err(e) => Err(StopError::KillFailed(e)),
    }
}

impl StopError {
    /// The text shown to the caller.
    pub fn message(&self) -> (r: String)
        ensures
            match self {
                StopError::NothingToStop => r@ == "No sidecar process was running."@,
                StopError::KillFailed(e) => r@ == "Failed to kill sidecar: "@ + e@,
            },
    {
        match self {
            StopError::NothingToStop => String::from_str("No sidecar process was running."),
            StopError::KillFailed(e) => String::from_str("Failed to kill sidecar: ").concat(
                e.as_str(),
            ),
        }
    }
}

/// What one look at the connection state decides during a bounded wait.
pub enum PollStep {
    /// The descriptor is there: hand it out.
    Found(ApiInfo),
    /// Not yet: sleep one interval and look again.
    Wait,
    /// The bound has run out.
    Failed(QueryError),
}

/// The decision at `elapsed_ms` into a wait bounded by `bound_ms`: the bound is
/// checked first, then the state.
pub open spec fn poll_decision(info: Option<ApiInfo>, elapsed_ms: u64, bound_ms: u64) -> PollStep {
    if elapsed_ms >= bound_ms {
        PollStep::Failed(QueryError::BackendStartupTimeout { elapsed_ms })
    } else {
        match info {
            Some(i) => PollStep::Found(i),
            None => PollStep::Wait,
        }
    }
}

/// One look at the connection state during a bounded wait.
pub fn poll_step(state: &ApiState, elapsed_ms: u64, bound_ms: u64) -> (r: PollStep)
    ensures
        r == poll_decision(state.info, elapsed_ms, bound_ms),
{
    if elapsed_ms >= bound_ms {
        PollStep::Failed(QueryError::BackendStartupTimeout { elapsed_ms })
    } else {
        match state.query_connection_info() {
            Ok(info) => PollStep::Found(info),
            Err(_) => PollStep::Wait,
        }
    }
}

/// Whether the state shows a descriptor at `t`, when it is published at the
/// instant and with the value that `published` gives (never when `None`).
pub open spec fn visible_at(published: Option<(u64, ApiInfo)>, t: u64) -> Option<ApiInfo> {
    match published {
        Some((at, info)) => if t >= at {
            Some(info)
        } else {
            None
        },
        None => None,
    }
}

/// The first decision other than `Wait` of a bounded wait that looks at the
/// state at the instants `times`.
pub open spec fn poll_run(times: Seq<u64>, published: Option<(u64, ApiInfo)>, bound_ms: u64) -> PollStep
    decreases times.len(),
{
    if times.len() == 0 {
        PollStep::Wait
    } else {
        match poll_decision(visible_at(published, times[0]), times[0], bound_ms) {
            PollStep::Wait => poll_run(times.drop_first(), published, bound_ms),
            d => d,
        }
    }
}

/// Instants of looking that start inside the bound, end at or past it, and lie
/// at most `interval_ms` apart.
pub open spec fn paced(times: Seq<u64>, bound_ms: u64, interval_ms: u64) -> bool {
    &&& times.len() > 0
    &&& times[0] < bound_ms
    &&& times.last() >= bound_ms
    &&& forall|i: int| 0 <= i < times.len() - 1 ==> #[trigger] times[i + 1] <= times[i] + interval_ms
}

/// A descriptor published more than one interval before the bound runs out is
/// handed out by the bounded wait, not a timeout.
pub proof fn lemma_wait_finds_published(
    times: Seq<u64>,
    at: u64,
    info: ApiInfo,
    bound_ms: u64,
    interval_ms: u64,
)
    requires
        paced(times, bound_ms, interval_ms),
        at + interval_ms < bound_ms,
    ensures
        poll_run(times, Some((at, info)), bound_ms) == PollStep::Found(info),
    decreases times.len(),
{
    if times[0] < at {
        assert(times.len() > 1);
        let tail = times.drop_first();
        assert(times[0int + 1] <= times[0] + interval_ms);
        assert(tail.last() == times.last());
        assert forall|i: int| 0 <= i < tail.len() - 1 implies #[trigger] tail[i + 1] <= tail[i]
            + interval_ms by {
            assert(tail[i + 1] == times[i + 2]);
            assert(times[(i + 1) + 1] <= times[i + 1] + interval_ms);
        }
        lemma_wait_finds_published(tail, at, info, bound_ms, interval_ms);
    }
}

/// When the worker never becomes ready, the bounded wait fails with a timeout
/// whose reported elapsed time lies within one interval past the bound.
pub proof fn lemma_wait_times_out(times: Seq<u64>, bound_ms: u64, interval_ms: u64)
    requires
        paced(times, bound_ms, interval_ms),
    ensures
        match poll_run(times, None, bound_ms) {
            PollStep::Failed(QueryError::BackendStartupTimeout { elapsed_ms }) => bound_ms
                <= elapsed_ms < bound_ms + interval_ms,
            _ => false,
        },
    decreases times.len(),
{
    assert(times.len() > 1);
    let tail = times.drop_first();
    assert(times[0int + 1] <= times[0] + interval_ms);
    if times[1] < bound_ms {
        assert(tail.last() == times.last());
        assert forall|i: int| 0 <= i < tail.len() - 1 implies #[trigger] tail[i + 1] <= tail[i]
            + interval_ms by {
            assert(tail[i + 1] == times[i + 2]);
            assert(times[(i + 1) + 1] <= times[i + 1] + interval_ms);
        }
        lemma_wait_times_out(tail, bound_ms, interval_ms);
    } else {
        assert(tail[0] == times[1]);
    }
}

/// After a stop that found a running process, a query of the connection state
/// reports that no descriptor is available.
pub proof fn lemma_query_after_stop<C>(process: ApiProcess<C>, state: ApiState)
    requires
        process.child is Some,
    ensures
        stop_effect(process, state).0 is Ok,
        query_result(stop_effect(process, state).2) == Err::<ApiInfo, QueryError>(
            QueryError::NotAvailable,
        ),
{
}

/// Two stops in a row: the first hands out the process if one was running, and
/// the second always reports `NothingToStop` and leaves the state alone.
pub proof fn lemma_second_stop_benign<C>(process: ApiProcess<C>, state: ApiState)
    ensures
        stop_effect(process, state).0 == match process.child {
            Some(child) => Ok::<C, StopError>(child),
            None => Err(StopError::NothingToStop),
        },
        stop_effect(stop_effect(process, state).1, stop_effect(process, state).2).0 == Err::<
            C,
            StopError,
        >(StopError::NothingToStop),
        stop_effect(stop_effect(process, state).1, stop_effect(process, state).2).2
            == stop_effect(process, state).2,
{
}

/// The seconds in `ms`, rounded to tenths, as text with one decimal.
pub open spec fn seconds_text(ms: u64) -> Seq<char> {
    let tenths = (ms as nat + 50) / 100;
    decimal(tenths / 10) + seq!['.'] + decimal(tenths % 10)
}

impl QueryError {
    /// The text shown to the caller.
    pub fn message(&self) -> (r: String)
        ensures
            match self {
                QueryError::NotAvailable => r@ == "Backend connection details are not available yet."@,
                QueryError::BackendStartupTimeout { elapsed_ms } => r@ == "Backend startup timeout ("@
                    + seconds_text(*elapsed_ms) + "s). Check console logs for Python errors."@,
            },
    {
        match self {
            QueryError::NotAvailable => String::from_str(
                "Backend connection details are not available yet.",
            ),
            QueryError::BackendStartupTimeout { elapsed_ms } => {
                let tenths: u64 = *elapsed_ms / 100 + if *elapsed_ms % 100 >= 50 {
                    1u64
                } else {
                    0u64
                };
                assert(tenths as nat == (*elapsed_ms as nat + 50) / 100);
                let whole = u64_text(tenths / 10);
                let frac = u64_text(tenths % 10);
                let dot = String::from_str(".");
                proof {
                    reveal_strlit(".");
                }
                let r = String::from_str("Backend startup timeout (").concat(whole.as_str()).concat(
                    dot.as_str(),
                ).concat(frac.as_str()).concat("s). Check console logs for Python errors.");
                assert(dot@ =~= seq!['.']);
                r
            },
        }
    }
}

} // verus!
