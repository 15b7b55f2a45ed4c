use edge_telemetry::registry::Registry;

#[test]
fn unknown_node_is_absent() {
    let reg = Registry::new();
    assert!(reg.get_temp_bits(&String::from("Node-01")).is_none());
}

#[test]
fn heartbeat_is_acknowledged_and_recorded() {
    let mut reg = Registry::new();
    let reply = reg.heartbeat(String::from("Node-42"), 65.0f32.to_bits());
    assert!(reply.acknowledged);
    let stored = reg.get_temp_bits(&String::from("Node-42")).unwrap();
    assert_eq!(f32::from_bits(stored), 65.0);
}

#[test]
fn second_heartbeat_wins() {
    let mut reg = Registry::new();
    reg.heartbeat(String::from("Node-42"), 60.0f32.to_bits());
    reg.heartbeat(String::from("Node-42"), 70.0f32.to_bits());
    let stored = reg.get_temp_bits(&String::from("Node-42")).unwrap();
    assert_eq!(f32::from_bits(stored), 70.0);
}

#[test]
fn last_write_wins_under_interleaving() {
    let mut reg = Registry::new();
    reg.heartbeat(String::from("Node-A"), 41.0f32.to_bits());
    reg.heartbeat(String::from("Node-B"), 50.0f32.to_bits());
    reg.heartbeat(String::from("Node-A"), 42.0f32.to_bits());
    reg.heartbeat(String::from("Node-C"), 60.0f32.to_bits());
    reg.heartbeat(String::from("Node-A"), 43.0f32.to_bits());
    let stored = reg.get_temp_bits(&String::from("Node-A")).unwrap();
    assert_eq!(f32::from_bits(stored), 43.0);
}

#[test]
fn distinct_nodes_do_not_disturb_each_other() {
    let mut reg = Registry::new();
    reg.heartbeat(String::from("Node-A"), 55.5f32.to_bits());
    reg.heartbeat(String::from("Node-B"), 66.5f32.to_bits());
    let a = reg.get_temp_bits(&String::from("Node-A")).unwrap();
    let b = reg.get_temp_bits(&String::from("Node-B")).unwrap();
    assert_eq!(f32::from_bits(a), 55.5);
    assert_eq!(f32::from_bits(b), 66.5);
}

#[test]
fn handles_share_one_store() {
    // the contracts deliberately state nothing about one handle seeing
    // another's writes; at runtime the handles share the one store
    let reg = Registry::new();
    let mut writer = reg.handle();
    writer.heartbeat(String::from("Node-42"), 72.25f32.to_bits());
    let seen = reg.get_temp_bits(&String::from("Node-42")).unwrap();
    assert_eq!(f32::from_bits(seen), 72.25);
}

#[test]
fn extreme_metric_is_stored_as_is() {
    let mut reg = Registry::new();
    reg.heartbeat(String::from("Node-42"), f32::NEG_INFINITY.to_bits());
    let stored = reg.get_temp_bits(&String::from("Node-42")).unwrap();
    assert_eq!(f32::from_bits(stored), f32::NEG_INFINITY);
}
