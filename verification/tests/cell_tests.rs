use edge_telemetry::cell::LastValueCell;
use edge_telemetry::sample::GpuStats;

fn sample(temp: f32) -> GpuStats {
    GpuStats {
        id: String::from("Node-01"),
        temperature_bits: temp.to_bits(),
        usage_bits: 0.25f32.to_bits(),
        vram_used: 3_000_000_000,
    }
}

#[test]
fn starts_empty() {
    let cell = LastValueCell::empty();
    assert!(cell.snapshot().is_none());
}

#[test]
fn snapshot_returns_the_published_sample() {
    let mut cell = LastValueCell::empty();
    cell.publish(sample(42.5));
    let seen = cell.snapshot().unwrap();
    assert_eq!(seen.id, "Node-01");
    assert_eq!(f32::from_bits(seen.temperature_bits), 42.5);
    assert_eq!(f32::from_bits(seen.usage_bits), 0.25);
    assert_eq!(seen.vram_used, 3_000_000_000);
}

#[test]
fn publish_overwrites_the_previous_sample() {
    let mut cell = LastValueCell::empty();
    cell.publish(sample(42.5));
    cell.publish(sample(77.0));
    let seen = cell.snapshot().unwrap();
    assert_eq!(f32::from_bits(seen.temperature_bits), 77.0);
    // reading does not consume: the latest value stays readable
    let again = cell.snapshot().unwrap();
    assert_eq!(f32::from_bits(again.temperature_bits), 77.0);
}
