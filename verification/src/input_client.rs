//! The OPC UA input contract: which nodes the agent reads for an asset, how
//! their string identifiers are formed, and how the server's namespace is found.
use crate::output_guard::{str_texts, texts};
use crate::text::{str_eq, to_string};
use vstd::prelude::*;

verus! {

/// Where the agent reads its inputs from.
#[derive(Debug, Clone)]
pub struct OpcUaInputConfig {
    pub endpoint: String,
    pub namespace_uri: String,
}

/// One signal bound to its node identifier.
#[derive(Debug, Clone)]
pub struct NodeBinding {
    pub signal: &'static str,
    pub node_id: String,
    pub required: bool,
}

/// The index of the configured namespace in the server's namespace array.
#[derive(Debug, Clone)]
pub struct NamespaceResolution {
    pub namespace_uri: String,
    pub namespace_index: Option<u16>,
    pub resolved: bool,
}

/// Everything the agent reads for one asset, and the command nodes it never writes.
#[derive(Debug, Clone)]
pub struct OpcInputContract {
    pub endpoint: String,
    pub namespace: NamespaceResolution,
    pub asset_id: String,
    pub operational_nodes: Vec<NodeBinding>,
    pub design_spec_nodes: Vec<NodeBinding>,
    pub temperature_node: NodeBinding,
    pub command_nodes_blocked: Vec<String>,
}

/// The settings of a live read.
#[derive(Debug, Clone)]
pub struct LiveOpcUaConfig {
    pub endpoint: String,
    pub namespace_uri: String,
    pub asset_id: String,
    pub window_seconds: u32,
}

/// One node of a live read: the key under which its value is filed, and its
/// string identifier inside the configured namespace.
#[derive(Debug, Clone)]
pub struct LiveReadItem {
    pub key: &'static str,
    pub node_id: String,
}

/// An integer value as read from a node; `Other` covers every other value type.
#[derive(Debug, Clone, Copy)]
pub enum IntegerReading {
    Int16(i16),
    Int32(i32),
    UInt16(u16),
    UInt32(u32),
    Other,
}

/// The operational signals, in reading order.
pub open spec fn operational_signal_names() -> Seq<Seq<char>> {
    seq![
        "flow_rate"@,
        "suction_pressure"@,
        "discharge_pressure"@,
        "motor_current"@,
        "motor_voltage"@,
        "vibration"@,
        "bearing_temperature"@,
        "speed_rpm"@,
        "status"@,
    ]
}

/// The design-spec signals, in reading order.
pub open spec fn design_spec_signal_names() -> Seq<Seq<char>> {
    seq![
        "spec_rated_flow"@,
        "spec_rated_head"@,
        "spec_rated_speed_rpm"@,
        "spec_npshr"@,
        "spec_efficiency"@,
        "spec_power_kw"@,
        "spec_specific_gravity"@,
        "spec_design_suction_pressure"@,
        "spec_max_discharge_pressure"@,
        "spec_min_flow"@,
        "spec_max_flow"@,
        "spec_min_speed_rpm"@,
        "spec_pump_weight"@,
        "spec_baseplate_weight"@,
        "spec_stages"@,
    ]
}

/// The string identifier of an asset's signal node.
pub open spec fn node_id_of(asset_id: Seq<char>, signal: Seq<char>) -> Seq<char> {
    "node:"@ + asset_id + "."@ + signal
}

/// `nodes` binds exactly `signals`, in order, as required nodes of `asset_id`.
pub open spec fn binds_signals(
    nodes: Seq<NodeBinding>,
    asset_id: Seq<char>,
    signals: Seq<Seq<char>>,
) -> bool {
    &&& nodes.len() == signals.len()
    &&& forall|i: int|
        0 <= i < nodes.len() ==> (#[trigger] nodes[i]).signal@ == signals[i] && nodes[i].node_id@
            == node_id_of(asset_id, signals[i]) && nodes[i].required
}

/// The first position of `x` in `items`, searching from `i`.
pub open spec fn index_from(items: Seq<Seq<char>>, x: Seq<char>, i: nat) -> Option<nat>
    decreases items.len() - i,
{
    if i >= items.len() {
        None
    } else if items[i as int] == x {
        Some(i)
    } else {
        index_from(items, x, i + 1)
    }
}

/// The keys of a live read, in reading order.
pub open spec fn live_read_keys() -> Seq<Seq<char>> {
    operational_signal_names() + seq!["raw_temperature"@] + design_spec_signal_names()
}

/// The node identifier read for each key of a live read.
pub open spec fn live_read_node_id(asset_id: Seq<char>, key: Seq<char>) -> Seq<char> {
    if key == "raw_temperature"@ {
        node_id_of("intake_basin"@, key)
    } else {
        node_id_of(asset_id, key)
    }
}

/// The operational signals, in reading order.
pub fn operational_signals() -> (out: Vec<&'static str>)
    ensures
        str_texts(out@) == operational_signal_names(),
{
    let out = vec![
        "flow_rate",
        "suction_pressure",
        "discharge_pressure",
        "motor_current",
        "motor_voltage",
        "vibration",
        "bearing_temperature",
        "speed_rpm",
        "status",
    ];
    proof {
        assert(str_texts(out@) =~= operational_signal_names());
    }
    out
}

/// The design-spec signals, in reading order.
pub fn design_spec_signals() -> (out: Vec<&'static str>)
    ensures
        str_texts(out@) == design_spec_signal_names(),
{
    let out = vec![
        "spec_rated_flow",
        "spec_rated_head",
        "spec_rated_speed_rpm",
        "spec_npshr",
        "spec_efficiency",
        "spec_power_kw",
        "spec_specific_gravity",
        "spec_design_suction_pressure",
        "spec_max_discharge_pressure",
        "spec_min_flow",
        "spec_max_flow",
        "spec_min_speed_rpm",
        "spec_pump_weight",
        "spec_baseplate_weight",
        "spec_stages",
    ];
    proof {
        assert(str_texts(out@) =~= design_spec_signal_names());
    }
    out
}

/// The string identifier of an asset's signal node: `node:<asset>.<signal>`.
pub fn variable_node_id(asset_id: &str, signal: &str) -> (out: String)
    ensures
        out@ == node_id_of(asset_id@, signal@),
{
    to_string("node:").concat(asset_id).concat(".").concat(signal)
}

/// Required bindings of `asset_id` for each of `signals`, in order.
fn bind_signals(asset_id: &str, signals: &Vec<&'static str>) -> (out: Vec<NodeBinding>)
    ensures
        binds_signals(out@, asset_id@, str_texts(signals@)),
{
    let mut out: Vec<NodeBinding> = Vec::new();
    let mut i: usize = 0;
    while i < signals.len()
        invariant
            i <= signals.len(),
            out@.len() == i,
            forall|k: int|
                0 <= k < i ==> (#[trigger] out@[k]).signal@ == signals@[k]@ && out@[k].node_id@
                    == node_id_of(asset_id@, signals@[k]@) && out@[k].required,
        decreases signals.len() - i,
    {
        let signal = signals[i];
        out.push(
            NodeBinding { signal, node_id: variable_node_id(asset_id, signal), required: true },
        );
        i = i + 1;
    }
    proof {
        assert forall|k: int| 0 <= k < out@.len() implies (#[trigger] out@[k]).signal@ == str_texts(
            signals@,
        )[k] && out@[k].node_id@ == node_id_of(asset_id@, str_texts(signals@)[k])
            && out@[k].required by {
            assert(str_texts(signals@)[k] == signals@[k]@);
        }
    }
    out
}

/// The input contract of an asset: its operational and design-spec nodes, the
/// intake temperature node, and the start and stop command nodes that are blocked.
pub fn build_input_contract(config: &OpcUaInputConfig, asset_id: &str) -> (c: OpcInputContract)
    ensures
        c.endpoint@ == config.endpoint@,
        c.namespace.namespace_uri@ == config.namespace_uri@,
        c.namespace.namespace_index is None,
        !c.namespace.resolved,
        c.asset_id@ == asset_id@,
        binds_signals(c.operational_nodes@, asset_id@, operational_signal_names()),
        binds_signals(c.design_spec_nodes@, asset_id@, design_spec_signal_names()),
        c.temperature_node.signal@ == "raw_temperature"@,
        c.temperature_node.node_id@ == "node:intake_basin.raw_temperature"@,
        !c.temperature_node.required,
        texts(c.command_nodes_blocked@) == seq![
            node_id_of(asset_id@, "command_start"@),
            node_id_of(asset_id@, "command_stop"@),
        ],
{
    let operational = operational_signals();
    let design = design_spec_signals();
    let blocked = vec![
        variable_node_id(asset_id, "command_start"),
        variable_node_id(asset_id, "command_stop"),
    ];
    proof {
        assert(texts(blocked@) =~= seq![
            node_id_of(asset_id@, "command_start"@),
            node_id_of(asset_id@, "command_stop"@),
        ]);
    }
    OpcInputContract {
        endpoint: config.endpoint.clone(),
        namespace: NamespaceResolution {
            namespace_uri: config.namespace_uri.clone(),
            namespace_index: None,
            resolved: false,
        },
        asset_id: to_string(asset_id),
        operational_nodes: bind_signals(asset_id, &operational),
        design_spec_nodes: bind_signals(asset_id, &design),
        temperature_node: NodeBinding {
            signal: "raw_temperature",
            node_id: to_string("node:intake_basin.raw_temperature"),
            required: false,
        },
        command_nodes_blocked: blocked,
    }
}

/// Finds the configured namespace in the server's namespace array. Its index
/// is the position of the first equal entry, taken as a `u16` (so positions
/// beyond `u16::MAX` wrap, as a cast does).
pub fn resolve_namespace_index(namespace_uris: &[String], namespace_uri: &str) -> (r:
    NamespaceResolution)
    ensures
        r.namespace_uri@ == namespace_uri@,
        match index_from(namespace_uris@.map_values(|u: String| u@), namespace_uri@, 0) {
            Some(i) => r.namespace_index == Some(i as u16),
            None => r.namespace_index is None,
        },
        r.resolved == (r.namespace_index is Some),
{
    let ghost uris = namespace_uris@.map_values(|u: String| u@);
    let mut i: usize = 0;
    while i < namespace_uris.len()
        invariant
            i <= namespace_uris.len(),
            uris == namespace_uris@.map_values(|u: String| u@),
            index_from(uris, namespace_uri@, 0) == index_from(uris, namespace_uri@, i as nat),
        decreases namespace_uris.len() - i,
    {
        if str_eq(namespace_uris[i].as_str(), namespace_uri) {
            proof {
                assert(uris[i as int] == namespace_uris@[i as int]@);
            }
            return NamespaceResolution {
                namespace_uri: to_string(namespace_uri),
                namespace_index: Some(i as u16),
                resolved: true,
            };
        }
        proof {
            assert(uris[i as int] == namespace_uris@[i as int]@);
        }
        i = i + 1;
    }
    NamespaceResolution {
        namespace_uri: to_string(namespace_uri),
        namespace_index: None,
        resolved: false,
    }
}

/// The nodes of a live read, in reading order: the operational signals, the
/// intake temperature, then the design specs.
pub fn live_read_plan(asset_id: &str) -> (plan: Vec<LiveReadItem>)
    ensures
        plan@.len() == live_read_keys().len(),
        forall|i: int|
            0 <= i < plan@.len() ==> (#[trigger] plan@[i]).key@ == live_read_keys()[i]
                && plan@[i].node_id@ == live_read_node_id(asset_id@, live_read_keys()[i]),
{
    let operational = operational_signals();
    let design = design_spec_signals();
    let mut plan: Vec<LiveReadItem> = Vec::new();
    let ghost keys = live_read_keys();
    let mut i: usize = 0;
    proof {
        assert(operational@.len() == 9 && design@.len() == 15) by {
            assert(str_texts(operational@).len() == operational@.len());
            assert(str_texts(design@).len() == design@.len());
        }
        reveal_strlit("raw_temperature");
    }
    while i < operational.len()
        invariant
            keys == live_read_keys(),
            operational@.len() == 9,
            str_texts(operational@) == operational_signal_names(),
            i <= 9,
            plan@.len() == i,
            forall|k: int|
                0 <= k < i ==> (#[trigger] plan@[k]).key@ == keys[k] && plan@[k].node_id@
                    == live_read_node_id(asset_id@, keys[k]),
        decreases 9 - i,
    {
        let key = operational[i];
        proof {
            assert(str_texts(operational@)[i as int] == key@);
            assert(keys[i as int] == key@);
            assert(key@ != "raw_temperature"@) by {
                reveal_strlit("flow_rate");
                reveal_strlit("suction_pressure");
                reveal_strlit("discharge_pressure");
                reveal_strlit("motor_current");
                reveal_strlit("motor_voltage");
                reveal_strlit("vibration");
                reveal_strlit("bearing_temperature");
                reveal_strlit("speed_rpm");
                reveal_strlit("status");
                reveal_strlit("raw_temperature");
                assert(key@.len() != 15 || key@[0] != 'r');
            }
        }
        plan.push(LiveReadItem { key, node_id: variable_node_id(asset_id, key) });
        i = i + 1;
    }
    plan.push(
        LiveReadItem {
            key: "raw_temperature",
            node_id: variable_node_id("intake_basin", "raw_temperature"),
        },
    );
    proof {
        assert(keys[9] == "raw_temperature"@);
    }
    let mut j: usize = 0;
    while j < design.len()
        invariant
            keys == live_read_keys(),
            design@.len() == 15,
            str_texts(design@) == design_spec_signal_names(),
            j <= 15,
            plan@.len() == 10 + j,
            forall|k: int|
                0 <= k < 10 + j ==> (#[trigger] plan@[k]).key@ == keys[k] && plan@[k].node_id@
                    == live_read_node_id(asset_id@, keys[k]),
        decreases 15 - j,
    {
        let key = design[j];
        proof {
            assert(str_texts(design@)[j as int] == key@);
            assert(keys[10 + j] == key@);
            assert(key@ != "raw_temperature"@) by {
                reveal_strlit("raw_temperature");
                reveal_strlit("spec_rated_flow");
                reveal_strlit("spec_rated_head");
                reveal_strlit("spec_rated_speed_rpm");
                reveal_strlit("spec_npshr");
                reveal_strlit("spec_efficiency");
                reveal_strlit("spec_power_kw");
                reveal_strlit("spec_specific_gravity");
                reveal_strlit("spec_design_suction_pressure");
                reveal_strlit("spec_max_discharge_pressure");
                reveal_strlit("spec_min_flow");
                reveal_strlit("spec_max_flow");
                reveal_strlit("spec_min_speed_rpm");
                reveal_strlit("spec_pump_weight");
                reveal_strlit("spec_baseplate_weight");
                reveal_strlit("spec_stages");
                assert(key@[0] == 's');
            }
        }
        plan.push(LiveReadItem { key, node_id: variable_node_id(asset_id, key) });
        j = j + 1;
    }
    plan
}

/// A reading as a status code: any 16-bit value, any `i32`, and `u32` values
/// that fit in an `i32`.
pub fn reading_as_i32(reading: IntegerReading) -> (r: Option<i32>)
    ensures
        match reading {
            IntegerReading::Int16(v) => r == Some(v as i32),
            IntegerReading::Int32(v) => r == Some(v),
            IntegerReading::UInt16(v) => r == Some(v as i32),
            IntegerReading::UInt32(v) => if v <= i32::MAX {
                r == Some(v as i32)
            } else {
                r is None
            },
            IntegerReading::Other => r is None,
        },
{
    match reading {
        IntegerReading::Int16(v) => Some(v as i32),
        IntegerReading::Int32(v) => Some(v),
        IntegerReading::UInt16(v) => Some(v as i32),
        IntegerReading::UInt32(v) => if v <= 2147483647u32 {
            Some(v as i32)
        } else {
            None
        },
        IntegerReading::Other => None,
    }
}

/// A reading as a count: non-negative signed values and any unsigned value.
pub fn reading_as_u32(reading: IntegerReading) -> (r: Option<u32>)
    ensures
        match reading {
            IntegerReading::Int16(v) => if v >= 0 {
                r == Some(v as u32)
            } else {
                r is None
            },
            IntegerReading::Int32(v) => if v >= 0 {
                r == Some(v as u32)
            } else {
                r is None
            },
            IntegerReading::UInt16(v) => r == Some(v as u32),
            IntegerReading::UInt32(v) => r == Some(v),
            IntegerReading::Other => r is None,
        },
{
    match reading {
        IntegerReading::Int16(v) => if v >= 0 {
            Some(v as u32)
        } else {
            None
        },
        IntegerReading::Int32(v) => if v >= 0 {
            Some(v as u32)
        } else {
            None
        },
        IntegerReading::UInt16(v) => Some(v as u32),
        IntegerReading::UInt32(v) => Some(v),
        IntegerReading::Other => None,
    }
}

} // verus!
