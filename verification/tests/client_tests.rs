use edge_telemetry::client::initial;
use edge_telemetry::client::make_heartbeat;
use edge_telemetry::client::step;
use edge_telemetry::client::ConnEvent;
use edge_telemetry::client::ConnState;
use edge_telemetry::client::BACKOFF_MS;
use edge_telemetry::client::HEARTBEAT_PERIOD_MS;
use edge_telemetry::registry::Registry;
use edge_telemetry::sample::GpuStats;

#[test]
fn starts_with_an_immediate_connect_attempt() {
    let start = initial();
    assert!(start.state == ConnState::Connecting);
    assert_eq!(start.wait_ms, 0);
}

#[test]
fn failed_connects_are_paced_by_the_backoff() {
    let mut outcome = initial();
    // the orchestrator stays unreachable: every attempt fails, and each
    // retry waits exactly the fixed backoff, never less
    for _ in 0..3 {
        assert!(outcome.state == ConnState::Connecting);
        outcome = step(outcome.state, ConnEvent::ConnectFailed);
        assert!(outcome.state == ConnState::Disconnected);
        assert_eq!(outcome.wait_ms, BACKOFF_MS);
        outcome = step(outcome.state, ConnEvent::BackoffElapsed);
        assert_eq!(outcome.wait_ms, 0);
    }
    assert!(outcome.state == ConnState::Connecting);
}

#[test]
fn healthy_connection_sends_on_the_fixed_cadence() {
    let connected = step(ConnState::Connecting, ConnEvent::ConnectSucceeded);
    assert!(connected.state == ConnState::Connected);
    // the first heartbeat goes out immediately on connecting
    assert_eq!(connected.wait_ms, 0);
    let next = step(connected.state, ConnEvent::SendSucceeded);
    assert!(next.state == ConnState::Connected);
    assert_eq!(next.wait_ms, HEARTBEAT_PERIOD_MS);
}

#[test]
fn send_failure_reconnects_without_backoff() {
    let dropped = step(ConnState::Connected, ConnEvent::SendFailed);
    assert!(dropped.state == ConnState::Disconnected);
    assert_eq!(dropped.wait_ms, 0);
    let retry = step(dropped.state, ConnEvent::BackoffElapsed);
    assert!(retry.state == ConnState::Connecting);
    assert_eq!(retry.wait_ms, 0);
}

#[test]
fn heartbeat_defaults_to_zero_before_any_sample() {
    let req = make_heartbeat(&String::from("Node-42"), None);
    assert_eq!(req.node_id, "Node-42");
    assert_eq!(f32::from_bits(req.gpu_temp_bits), 0.0);
}

#[test]
fn heartbeat_carries_the_latest_sampled_temperature() {
    let snapshot = Some(GpuStats {
        id: String::from("Node-42"),
        temperature_bits: 65.0f32.to_bits(),
        usage_bits: 0.5f32.to_bits(),
        vram_used: 2_000_000_000,
    });
    let req = make_heartbeat(&String::from("Node-42"), snapshot);
    assert_eq!(req.node_id, "Node-42");
    assert_eq!(f32::from_bits(req.gpu_temp_bits), 65.0);
}

#[test]
fn outage_then_recovery_yields_the_first_heartbeat() {
    // orchestrator down at client start: repeated failed-connect cycles,
    // each spaced by the fixed backoff
    let mut outcome = initial();
    for _ in 0..3 {
        outcome = step(outcome.state, ConnEvent::ConnectFailed);
        assert!(outcome.state == ConnState::Disconnected);
        assert_eq!(outcome.wait_ms, BACKOFF_MS);
        outcome = step(outcome.state, ConnEvent::BackoffElapsed);
        assert!(outcome.state == ConnState::Connecting);
    }
    // the orchestrator comes up: the next cycle connects
    outcome = step(outcome.state, ConnEvent::ConnectSucceeded);
    assert!(outcome.state == ConnState::Connected);
    // and the first heartbeat reaches the registry and is acknowledged
    let snapshot = Some(GpuStats {
        id: String::from("Node-42"),
        temperature_bits: 65.0f32.to_bits(),
        usage_bits: 0.5f32.to_bits(),
        vram_used: 2_000_000_000,
    });
    let req = make_heartbeat(&String::from("Node-42"), snapshot);
    let mut reg = Registry::new();
    let reply = reg.heartbeat(req.node_id, req.gpu_temp_bits);
    assert!(reply.acknowledged);
    let stored = reg.get_temp_bits(&String::from("Node-42")).unwrap();
    assert_eq!(f32::from_bits(stored), 65.0);
}
