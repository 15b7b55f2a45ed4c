//! The heartbeat client's reconnect state machine and heartbeat
//! construction. The client keeps a long-lived connection to the
//! orchestrator: on a connect failure it waits a fixed backoff and retries,
//! unboundedly; while connected it sends the latest sampled metric on a
//! fixed cadence; on a send failure it drops the connection and immediately
//! attempts a fresh connect, with no backoff before that attempt. The
//! machine is pure (state and event in, state and wait out); the driver
//! performs the waits, connects and sends, and feeds the outcome back in.

use vstd::prelude::*;

use crate::sample::GpuStats;

verus! {

/// Fixed delay between a failed connect attempt and the next one, in
/// milliseconds.
pub const BACKOFF_MS: u64 = 5000;

/// Fixed cadence of heartbeats on a healthy connection, in milliseconds.
pub const HEARTBEAT_PERIOD_MS: u64 = 2000;

/// Metric reported before the first sample exists: the bit pattern of
/// 0.0f32, the zero-valued default.
pub const DEFAULT_TEMP_BITS: u32 = 0;

/// Where the client stands with respect to the orchestrator.
#[derive(PartialEq, Eq, Structural)]
pub enum ConnState {
    /// No connection; a backoff wait may be pending before the next attempt.
    Disconnected,
    /// About to attempt, or attempting, to establish a connection.
    Connecting,
    /// A connection is established and heartbeats are being sent.
    Connected,
}

/// What the driver observed while carrying out the state's work.
#[derive(PartialEq, Eq, Structural)]
pub enum ConnEvent {
    /// The pending wait has elapsed.
    BackoffElapsed,
    /// The connect attempt established a connection.
    ConnectSucceeded,
    /// The connect attempt failed: the orchestrator is unreachable.
    ConnectFailed,
    /// The heartbeat was sent and answered.
    SendSucceeded,
    /// The transport refused the send: the connection is dead.
    SendFailed,
}

/// One transition's outcome: the next state, and how long the driver must
/// wait before acting in it (attempting a connect in `Connecting`, sending a
/// heartbeat in `Connected`, waking up in `Disconnected`).
#[derive(PartialEq, Eq, Structural)]
pub struct StepOutcome {
    pub state: ConnState,
    pub wait_ms: u64,
}

/// The wait a state re-arms when an event that does not belong to it is
/// ignored: its own full period.
pub open spec fn rearm_ms(s: ConnState) -> u64 {
    match s {
        ConnState::Disconnected => BACKOFF_MS,
        ConnState::Connecting => 0,
        ConnState::Connected => HEARTBEAT_PERIOD_MS,
    }
}

/// The transition relation of the reconnect state machine. Total: for every
/// state and event there is a next state, so the client never terminates of
/// its own accord.
pub open spec fn spec_step(s: ConnState, e: ConnEvent) -> StepOutcome {
    match (s, e) {
        // the pending wait is over: attempt to connect right away
        (ConnState::Disconnected, ConnEvent::BackoffElapsed) => StepOutcome {
            state: ConnState::Connecting,
            wait_ms: 0,
        },
        // connected: send the first heartbeat immediately
        (ConnState::Connecting, ConnEvent::ConnectSucceeded) => StepOutcome {
            state: ConnState::Connected,
            wait_ms: 0,
        },
        // unreachable: back off for the fixed delay, then retry
        (ConnState::Connecting, ConnEvent::ConnectFailed) => StepOutcome {
            state: ConnState::Disconnected,
            wait_ms: BACKOFF_MS,
        },
        // healthy: next heartbeat after the fixed cadence
        (ConnState::Connected, ConnEvent::SendSucceeded) => StepOutcome {
            state: ConnState::Connected,
            wait_ms: HEARTBEAT_PERIOD_MS,
        },
        // dead connection: drop it and reconnect immediately, no backoff
        (ConnState::Connected, ConnEvent::SendFailed) => StepOutcome {
            state: ConnState::Disconnected,
            wait_ms: 0,
        },
        // an event that does not belong to the state is ignored
        _ => StepOutcome { state: s, wait_ms: rearm_ms(s) },
    }
}

/// Advance the machine by one observed event.
pub fn step(s: ConnState, e: ConnEvent) -> (r: StepOutcome)
    ensures
        r == spec_step(s, e),
{
    match (s, e) {
        (ConnState::Disconnected, ConnEvent::BackoffElapsed) => StepOutcome {
            state: ConnState::Connecting,
            wait_ms: 0,
        },
        (ConnState::Connecting, ConnEvent::ConnectSucceeded) => StepOutcome {
            state: ConnState::Connected,
            wait_ms: 0,
        },
        (ConnState::Connecting, ConnEvent::ConnectFailed) => StepOutcome {
            state: ConnState::Disconnected,
            wait_ms: BACKOFF_MS,
        },
        (ConnState::Connected, ConnEvent::SendSucceeded) => StepOutcome {
            state: ConnState::Connected,
            wait_ms: HEARTBEAT_PERIOD_MS,
        },
        (ConnState::Connected, ConnEvent::SendFailed) => StepOutcome {
            state: ConnState::Disconnected,
            wait_ms: 0,
        },
        (ConnState::Disconnected, _) => StepOutcome {
            state: ConnState::Disconnected,
            wait_ms: BACKOFF_MS,
        },
        (ConnState::Connecting, _) => StepOutcome { state: ConnState::Connecting, wait_ms: 0 },
        (ConnState::Connected, _) => StepOutcome {
            state: ConnState::Connected,
            wait_ms: HEARTBEAT_PERIOD_MS,
        },
    }
}

/// The state the client starts in, before any connection exists; it attempts
/// its first connect without any wait.
pub fn initial() -> (r: StepOutcome)
    ensures
        r.state is Connecting,
        r.wait_ms == 0,
{
    StepOutcome { state: ConnState::Connecting, wait_ms: 0 }
}

/// One heartbeat request: the node's identity and its latest metric.
pub struct HeartbeatRequest {
    /// Stable node identity, carried on every heartbeat.
    pub node_id: String,
    /// GPU temperature as the bit pattern of an `f32`.
    pub gpu_temp_bits: u32,
}

/// The metric a heartbeat carries for a given reading of the shared cell:
/// the latest sample's temperature, or the zero-valued default before any
/// sample was published.
pub open spec fn reported_bits(snapshot: Option<GpuStats>) -> u32 {
    match snapshot {
        Some(s) => s.temperature_bits,
        None => DEFAULT_TEMP_BITS,
    }
}

/// Build the heartbeat for the current reading of the shared cell.
pub fn make_heartbeat(node_id: &String, snapshot: Option<GpuStats>) -> (r: HeartbeatRequest)
    ensures
        r.node_id == *node_id,
        r.gpu_temp_bits == reported_bits(snapshot),
{
    let gpu_temp_bits = match &snapshot {
        Some(s) => s.temperature_bits,
        None => DEFAULT_TEMP_BITS,
    };
    HeartbeatRequest { node_id: node_id.clone(), gpu_temp_bits }
}

/// The event the driver observes at each state while the orchestrator is
/// unreachable: waits elapse, every connect attempt fails, and an
/// established connection (from before the outage) fails its next send.
pub open spec fn unreachable_event(s: ConnState) -> ConnEvent {
    match s {
        ConnState::Disconnected => ConnEvent::BackoffElapsed,
        ConnState::Connecting => ConnEvent::ConnectFailed,
        ConnState::Connected => ConnEvent::SendFailed,
    }
}

/// The state after `n` transitions from `s0` with the orchestrator
/// unreachable throughout.
pub open spec fn unreachable_state(s0: ConnState, n: nat) -> ConnState
    decreases n,
{
    if n == 0 {
        s0
    } else {
        let prev = unreachable_state(s0, (n - 1) as nat);
        spec_step(prev, unreachable_event(prev)).state
    }
}

/// Law (retry forever, paced by the backoff): however long the orchestrator
/// stays unreachable, the client never terminates and never busy-loops.
/// From any starting state it is never connected once a step has been taken;
/// whenever it is about to attempt a connect it attempts again two steps
/// later; and between those two attempts it waits exactly the fixed backoff
/// (the failed attempt re-arms the full backoff, and the wake-up that
/// follows adds no further wait).
pub proof fn lemma_unreachable_retries_forever(s0: ConnState, n: nat)
    ensures
        !(unreachable_state(s0, n + 1) is Connected),
        unreachable_state(s0, n) is Connecting ==> unreachable_state(s0, n + 2) is Connecting,
        unreachable_state(s0, n) is Connecting ==> spec_step(
            unreachable_state(s0, n),
            ConnEvent::ConnectFailed,
        ).wait_ms + spec_step(ConnState::Disconnected, ConnEvent::BackoffElapsed).wait_ms
            == BACKOFF_MS,
        unreachable_state(s0, n) is Disconnected ==> unreachable_state(s0, n + 1) is Connecting,
    decreases n,
{
    if n > 0 {
        lemma_unreachable_retries_forever(s0, (n - 1) as nat);
    }
}

/// Law (a send failure is followed at once by a fresh connect attempt): the
/// failed send drops the connection with no wait at all, and the wake-up
/// from that zero-length wait moves straight to a connect attempt, again
/// with no wait. The backoff is inserted only after a connect attempt itself
/// fails.
pub proof fn lemma_send_failure_reconnects_immediately()
    ensures
        spec_step(ConnState::Connected, ConnEvent::SendFailed).state is Disconnected,
        spec_step(ConnState::Connected, ConnEvent::SendFailed).wait_ms == 0,
        spec_step(ConnState::Disconnected, ConnEvent::BackoffElapsed).state is Connecting,
        spec_step(ConnState::Disconnected, ConnEvent::BackoffElapsed).wait_ms == 0,
{
}

} // verus!
