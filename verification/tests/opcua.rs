use asset_agent::frame_buffer::{parse_rfc3339_instant, window_positions, FrameBuffer, WindowError};
use asset_agent::input_client::{
    build_input_contract, live_read_plan, reading_as_i32, reading_as_u32, resolve_namespace_index,
    variable_node_id, IntegerReading, OpcUaInputConfig,
};
use asset_agent::output_server::{
    endpoint_authority, output_node_id, output_node_ids, output_node_specs, AgentOutputConfig,
    AgentOutputDataType,
};

#[test]
fn builds_stable_string_node_ids() {
    assert_eq!(
        variable_node_id("hp_pump_1", "suction_pressure"),
        "node:hp_pump_1.suction_pressure"
    );
}

#[test]
fn input_contract_contains_specs_and_temperature() {
    let contract = build_input_contract(
        &OpcUaInputConfig {
            endpoint: "opc.tcp://127.0.0.1:4840".to_string(),
            namespace_uri: "urn:twinedge:opcua-edge".to_string(),
        },
        "hp_pump_1",
    );
    assert_eq!(contract.operational_nodes.len(), 9);
    assert_eq!(contract.design_spec_nodes.len(), 15);
    assert_eq!(
        contract.temperature_node.node_id,
        "node:intake_basin.raw_temperature"
    );
}

#[test]
fn input_contract_blocks_command_nodes() {
    let contract = build_input_contract(
        &OpcUaInputConfig { endpoint: "e".to_string(), namespace_uri: "n".to_string() },
        "p",
    );
    assert_eq!(contract.command_nodes_blocked, vec!["node:p.command_start", "node:p.command_stop"]);
    assert_eq!(contract.operational_nodes[0].node_id, "node:p.flow_rate");
    assert_eq!(contract.design_spec_nodes[14].signal, "spec_stages");
    assert!(contract.operational_nodes.iter().all(|n| n.required));
    assert!(!contract.temperature_node.required);
    assert!(!contract.namespace.resolved);
}

#[test]
fn resolves_namespace_uri_by_position() {
    let namespaces = vec![
        "http://opcfoundation.org/UA/".to_string(),
        "urn:twinedge:opcua-edge".to_string(),
    ];
    let resolved = resolve_namespace_index(&namespaces, "urn:twinedge:opcua-edge");
    assert!(resolved.resolved);
    assert_eq!(resolved.namespace_index, Some(1));
}

#[test]
fn unresolved_namespace_has_no_index() {
    let namespaces = vec!["a".to_string(), "b".to_string(), "a".to_string()];
    let missing = resolve_namespace_index(&namespaces, "c");
    assert!(!missing.resolved);
    assert_eq!(missing.namespace_index, None);
    assert_eq!(resolve_namespace_index(&namespaces, "a").namespace_index, Some(0));
}

#[test]
fn live_read_plan_reads_intake_temperature() {
    let plan = live_read_plan("hp_pump_1");
    assert_eq!(plan.len(), 25);
    assert_eq!(plan[0].key, "flow_rate");
    assert_eq!(plan[9].key, "raw_temperature");
    assert_eq!(plan[9].node_id, "node:intake_basin.raw_temperature");
    assert_eq!(plan[24].node_id, "node:hp_pump_1.spec_stages");
}

#[test]
fn integer_readings_convert_within_range() {
    assert_eq!(reading_as_i32(IntegerReading::UInt32(3_000_000_000)), None);
    assert_eq!(reading_as_i32(IntegerReading::UInt32(7)), Some(7));
    assert_eq!(reading_as_i32(IntegerReading::Int16(-2)), Some(-2));
    assert_eq!(reading_as_u32(IntegerReading::Int16(-2)), None);
    assert_eq!(reading_as_u32(IntegerReading::Int32(12)), Some(12));
    assert_eq!(reading_as_u32(IntegerReading::Other), None);
}

#[test]
fn builds_stable_output_node_ids() {
    assert_eq!(
        output_node_id("hp_pump_1", "health.risk_level"),
        "agent:hp_pump_1.health.risk_level"
    );
    assert_eq!(output_node_specs().len(), 24);
}

#[test]
fn output_node_table_ends_with_sequence_and_flag() {
    let specs = output_node_specs();
    assert_eq!(specs[22].suffix, "output.sequence");
    assert_eq!(specs[22].data_type, AgentOutputDataType::UInt);
    assert_eq!(specs[23].data_type, AgentOutputDataType::Bool);
    let ids = output_node_ids("p");
    assert_eq!(ids.len(), 24);
    assert_eq!(ids[17], "agent:p.decision.recommended_action");
}

#[test]
fn output_config_defaults_and_endpoint_authority() {
    let config = AgentOutputConfig::default();
    assert_eq!(config.endpoint, "opc.tcp://127.0.0.1:4841");
    assert_eq!(config.namespace_uri, "urn:assetpilot:outputs");
    let custom = AgentOutputConfig::new("opc.tcp://h:1".to_string(), "urn:x".to_string());
    assert_eq!(custom.endpoint, "opc.tcp://h:1");
    assert_eq!(endpoint_authority("opc.tcp://127.0.0.1:4841/path").as_deref(), Some("127.0.0.1:4841"));
    assert_eq!(endpoint_authority("opc.tcp://host:1").as_deref(), Some("host:1"));
    assert_eq!(endpoint_authority("opc.tcp:///x"), None);
    assert_eq!(endpoint_authority("http://host:1"), None);
}

#[test]
fn frame_buffer_keeps_latest_frames() {
    let mut buffer = FrameBuffer::new(2);
    assert_eq!(buffer.latest(), None);
    buffer.push(1);
    buffer.push(2);
    buffer.push(3);
    assert_eq!(buffer.len(), 2);
    assert_eq!(buffer.latest(), Some(&3));
    assert_eq!(buffer.frames().iter().copied().collect::<Vec<_>>(), vec![2, 3]);
    let replayed = FrameBuffer::from_snapshots(3, vec![1, 2, 3, 4, 5]);
    assert_eq!(replayed.frames().iter().copied().collect::<Vec<_>>(), vec![3, 4, 5]);
}

#[test]
fn frame_buffer_with_zero_bound_keeps_everything() {
    let replayed = FrameBuffer::from_snapshots(0, vec![1, 2, 3]);
    assert_eq!(replayed.len(), 3);
    assert_eq!(replayed.latest(), Some(&3));
}

#[test]
fn output_node_ids_are_pairwise_distinct() {
    let ids = output_node_ids("hp_pump_1");
    let unique: std::collections::BTreeSet<&String> = ids.iter().collect();
    assert_eq!(unique.len(), ids.len());
    assert_eq!(ids.len(), 24);
}

fn timestamps(buffer: &FrameBuffer<(String, String)>) -> Vec<String> {
    buffer.frames().iter().map(|(_, ts)| ts.clone()).collect()
}

#[test]
fn selects_replay_window() {
    let snapshots: Vec<(String, String)> = [
        "2026-05-07T00:00:00Z",
        "2026-05-07T00:00:30Z",
        "2026-05-07T00:01:00Z",
        "2026-05-07T00:01:30Z",
    ]
    .iter()
    .map(|ts| ("hp_pump_1".to_string(), ts.to_string()))
    .collect();
    let buffer = FrameBuffer::from_snapshots(100, snapshots);
    let positions = window_positions("2026-05-07T00:01:00Z", &timestamps(&buffer), 10)
        .expect("window should select");
    assert_eq!(positions.len(), 1);
    let window: Vec<&(String, String)> = positions.iter().map(|p| &buffer.frames()[*p]).collect();
    assert_eq!(window[0].0, "hp_pump_1");
    assert_eq!(window[0].1, "2026-05-07T00:01:00Z");
}

#[test]
fn window_includes_both_ends_and_compares_instants() {
    let ts: Vec<String> = [
        "2026-05-07T00:00:49Z",
        "2026-05-07T00:00:50Z",
        "2026-05-07T02:00:55+02:00",
        "2026-05-07T00:01:00.000000001Z",
    ]
    .iter()
    .map(|s| s.to_string())
    .collect();
    assert_eq!(window_positions("2026-05-07T00:01:00Z", &ts, 10), Ok(vec![1, 2]));
    assert_eq!(window_positions("2026-05-07T00:01:00Z", &ts, -1), Ok(vec![]));
}

#[test]
fn window_reports_unparsable_timestamps() {
    let ts: Vec<String> = ["2026-05-07T00:00:59Z", "yesterday", "also bad"]
        .iter()
        .map(|s| s.to_string())
        .collect();
    assert_eq!(window_positions("2026-05-07T00:01:00Z", &ts, 10), Err(WindowError::Frame(1)));
    assert_eq!(window_positions("not a time", &ts, 10), Err(WindowError::AsOf));
    assert_eq!(
        window_positions("2026-05-07T00:01:00Z", &ts, i64::MAX),
        Err(WindowError::OutOfRange)
    );
    assert_eq!(parse_rfc3339_instant("1970-01-01T00:00:01.5Z"), Some((1, 500_000_000)));
    assert_eq!(parse_rfc3339_instant("1970-01-01T01:00:00+01:00"), Some((0, 0)));
    assert_eq!(parse_rfc3339_instant("1970-01-01"), None);
}
