//! The agent's OPC UA output contract: where it publishes, which nodes it
//! publishes, and how their string identifiers are formed.
use crate::text::{
    before_first, before_first_chars, chars_of, occurs_at, occurs_at_pos, slice_chars,
    string_from_chars, to_string,
};
use vstd::prelude::*;

verus! {

/// Where the agent publishes its outputs.
#[derive(Debug, Clone)]
pub struct AgentOutputConfig {
    pub endpoint: String,
    pub namespace_uri: String,
}

/// The value type of an output node.
#[derive(Debug, Clone, Copy, PartialEq, Eq, Structural)]
pub enum AgentOutputDataType {
    Float,
    Text,
    UInt,
    Bool,
}

/// One published output: its signal name, the suffix of its node identifier,
/// and its value type.
#[derive(Debug, Clone, Copy)]
pub struct AgentOutputNodeSpec {
    pub signal: &'static str,
    pub suffix: &'static str,
    pub data_type: AgentOutputDataType,
}

/// The default output endpoint.
pub open spec fn default_endpoint() -> Seq<char> {
    "opc.tcp://127.0.0.1:4841"@
}

/// The default output namespace.
pub open spec fn default_namespace_uri() -> Seq<char> {
    "urn:assetpilot:outputs"@
}

/// The string identifier of an output node: `agent:<asset>.<suffix>`.
pub open spec fn output_node_id_of(asset_id: Seq<char>, suffix: Seq<char>) -> Seq<char> {
    "agent:"@ + asset_id + "."@ + suffix
}

/// The published outputs, in publication order: signal, suffix, value type.
pub open spec fn output_node_table() -> Seq<(Seq<char>, Seq<char>, AgentOutputDataType)> {
    seq![
        ("risk_level"@, "health.risk_level"@, AgentOutputDataType::Text),
        ("cavitation_evidence_score"@, "health.cavitation_evidence_score"@, AgentOutputDataType::Float),
        ("npsh_margin_m"@, "health.npsh_margin_m"@, AgentOutputDataType::Float),
        ("npsha_m"@, "health.npsha_m"@, AgentOutputDataType::Float),
        ("npshr_m"@, "health.npshr_m"@, AgentOutputDataType::Float),
        ("mean_damage"@, "belief.mean_damage"@, AgentOutputDataType::Float),
        ("damage_variance"@, "belief.damage_variance"@, AgentOutputDataType::Float),
        ("rul_hours"@, "prediction.rul_hours"@, AgentOutputDataType::Float),
        ("failure_probability_24h"@, "risk.failure_probability_24h"@, AgentOutputDataType::Float),
        ("failure_probability_7d"@, "risk.failure_probability_7d"@, AgentOutputDataType::Float),
        ("failure_probability_30d"@, "risk.failure_probability_30d"@, AgentOutputDataType::Float),
        ("cvar95"@, "risk.cvar95"@, AgentOutputDataType::Float),
        ("defer_cost"@, "counterfactual.defer_cost"@, AgentOutputDataType::Float),
        ("inspect_cost"@, "counterfactual.inspect_cost"@, AgentOutputDataType::Float),
        ("reduce_load_cost"@, "counterfactual.reduce_load_cost"@, AgentOutputDataType::Float),
        ("repair_cost"@, "counterfactual.repair_cost"@, AgentOutputDataType::Float),
        ("replace_cost"@, "counterfactual.replace_cost"@, AgentOutputDataType::Float),
        ("recommended_action"@, "decision.recommended_action"@, AgentOutputDataType::Text),
        ("action_confidence"@, "decision.action_confidence"@, AgentOutputDataType::Float),
        ("decision_reason"@, "decision.decision_reason"@, AgentOutputDataType::Text),
        ("policy_version"@, "model.policy_version"@, AgentOutputDataType::Text),
        ("residual_version"@, "model.residual_version"@, AgentOutputDataType::Text),
        ("publish_sequence"@, "output.sequence"@, AgentOutputDataType::UInt),
        ("output_initialized"@, "output.initialized"@, AgentOutputDataType::Bool),
    ]
}

/// The host and port part of an `opc.tcp://` endpoint: the text after the
/// scheme up to the first `/`, when that text is not empty.
pub open spec fn endpoint_authority_of(endpoint: Seq<char>) -> Option<Seq<char>> {
    let scheme = "opc.tcp://"@;
    if occurs_at(endpoint, scheme, 0) {
        let authority = before_first(endpoint.skip(scheme.len() as int), "/"@);
        if authority.len() > 0 {
            Some(authority)
        } else {
            None
        }
    } else {
        None
    }
}

impl AgentOutputConfig {
    /// An output configuration for the given endpoint and namespace.
    pub fn new(endpoint: String, namespace_uri: String) -> (c: Self)
        ensures
            c.endpoint == endpoint,
            c.namespace_uri == namespace_uri,
    {
        AgentOutputConfig { endpoint, namespace_uri }
    }
}

impl Default for AgentOutputConfig {
    /// The local default endpoint and the agent's output namespace.
    fn default() -> (c: Self)
        ensures
            c.endpoint@ == default_endpoint(),
            c.namespace_uri@ == default_namespace_uri(),
    {
        AgentOutputConfig {
            endpoint: to_string("opc.tcp://127.0.0.1:4841"),
            namespace_uri: to_string("urn:assetpilot:outputs"),
        }
    }
}

/// The string identifier of an output node: `agent:<asset>.<suffix>`.
pub fn output_node_id(asset_id: &str, suffix: &str) -> (out: String)
    ensures
        out@ == output_node_id_of(asset_id@, suffix@),
{
    to_string("agent:").concat(asset_id).concat(".").concat(suffix)
}

/// The published outputs, in publication order.
pub fn output_node_specs() -> (specs: Vec<AgentOutputNodeSpec>)
    ensures
        specs@.len() == output_node_table().len(),
        forall|i: int|
            0 <= i < specs@.len() ==> (#[trigger] specs@[i]).signal@ == output_node_table()[i].0
                && specs@[i].suffix@ == output_node_table()[i].1 && specs@[i].data_type
                == output_node_table()[i].2,
{
    let specs = vec![
        AgentOutputNodeSpec {
            signal: "risk_level",
            suffix: "health.risk_level",
            data_type: AgentOutputDataType::Text,
        },
        AgentOutputNodeSpec {
            signal: "cavitation_evidence_score",
            suffix: "health.cavitation_evidence_score",
            data_type: AgentOutputDataType::Float,
        },
        AgentOutputNodeSpec {
            signal: "npsh_margin_m",
            suffix: "health.npsh_margin_m",
            data_type: AgentOutputDataType::Float,
        },
        AgentOutputNodeSpec {
            signal: "npsha_m",
            suffix: "health.npsha_m",
            data_type: AgentOutputDataType::Float,
        },
        AgentOutputNodeSpec {
            signal: "npshr_m",
            suffix: "health.npshr_m",
            data_type: AgentOutputDataType::Float,
        },
        AgentOutputNodeSpec {
            signal: "mean_damage",
            suffix: "belief.mean_damage",
            data_type: AgentOutputDataType::Float,
        },
        AgentOutputNodeSpec {
            signal: "damage_variance",
            suffix: "belief.damage_variance",
            data_type: AgentOutputDataType::Float,
        },
        AgentOutputNodeSpec {
            signal: "rul_hours",
            suffix: "prediction.rul_hours",
            data_type: AgentOutputDataType::Float,
        },
        AgentOutputNodeSpec {
            signal: "failure_probability_24h",
            suffix: "risk.failure_probability_24h",
            data_type: AgentOutputDataType::Float,
        },
        AgentOutputNodeSpec {
            signal: "failure_probability_7d",
            suffix: "risk.failure_probability_7d",
            data_type: AgentOutputDataType::Float,
        },
        AgentOutputNodeSpec {
            signal: "failure_probability_30d",
            suffix: "risk.failure_probability_30d",
            data_type: AgentOutputDataType::Float,
        },
        AgentOutputNodeSpec {
            signal: "cvar95",
            suffix: "risk.cvar95",
            data_type: AgentOutputDataType::Float,
        },
        AgentOutputNodeSpec {
            signal: "defer_cost",
            suffix: "counterfactual.defer_cost",
            data_type: AgentOutputDataType::Float,
        },
        AgentOutputNodeSpec {
            signal: "inspect_cost",
            suffix: "counterfactual.inspect_cost",
            data_type: AgentOutputDataType::Float,
        },
        AgentOutputNodeSpec {
            signal: "reduce_load_cost",
            suffix: "counterfactual.reduce_load_cost",
            data_type: AgentOutputDataType::Float,
        },
        AgentOutputNodeSpec {
            signal: "repair_cost",
            suffix: "counterfactual.repair_cost",
            data_type: AgentOutputDataType::Float,
        },
        AgentOutputNodeSpec {
            signal: "replace_cost",
            suffix: "counterfactual.replace_cost",
            data_type: AgentOutputDataType::Float,
        },
        AgentOutputNodeSpec {
            signal: "recommended_action",
            suffix: "decision.recommended_action",
            data_type: AgentOutputDataType::Text,
        },
        AgentOutputNodeSpec {
            signal: "action_confidence",
            suffix: "decision.action_confidence",
            data_type: AgentOutputDataType::Float,
        },
        AgentOutputNodeSpec {
            signal: "decision_reason",
            suffix: "decision.decision_reason",
            data_type: AgentOutputDataType::Text,
        },
        AgentOutputNodeSpec {
            signal: "policy_version",
            suffix: "model.policy_version",
            data_type: AgentOutputDataType::Text,
        },
        AgentOutputNodeSpec {
            signal: "residual_version",
            suffix: "model.residual_version",
            data_type: AgentOutputDataType::Text,
        },
        AgentOutputNodeSpec {
            signal: "publish_sequence",
            suffix: "output.sequence",
            data_type: AgentOutputDataType::UInt,
        },
        AgentOutputNodeSpec {
            signal: "output_initialized",
            suffix: "output.initialized",
            data_type: AgentOutputDataType::Bool,
        },
    ];
    specs
}

/// The node identifiers of every published output of an asset, in publication order.
pub fn output_node_ids(asset_id: &str) -> (ids: Vec<String>)
    ensures
        ids@.len() == output_node_table().len(),
        forall|i: int|
            0 <= i < ids@.len() ==> (#[trigger] ids@[i])@ == output_node_id_of(
                asset_id@,
                output_node_table()[i].1,
            ),
{
    let specs = output_node_specs();
    let mut ids: Vec<String> = Vec::new();
    let mut i: usize = 0;
    while i < specs.len()
        invariant
            specs@.len() == output_node_table().len(),
            forall|k: int|
                0 <= k < specs@.len() ==> (#[trigger] specs@[k]).suffix@ == output_node_table()[k].1,
            i <= specs.len(),
            ids@.len() == i,
            forall|k: int|
                0 <= k < i ==> (#[trigger] ids@[k])@ == output_node_id_of(
                    asset_id@,
                    output_node_table()[k].1,
                ),
        decreases specs.len() - i,
    {
        ids.push(output_node_id(asset_id, specs[i].suffix));
        i = i + 1;
    }
    ids
}

/// The host and port part of an `opc.tcp://` endpoint, when there is one.
pub fn endpoint_authority(endpoint: &str) -> (r: Option<String>)
    ensures
        match endpoint_authority_of(endpoint@) {
            Some(a) => r matches Some(s) && s@ == a,
            None => r is None,
        },
{
    let e = chars_of(endpoint);
    let scheme = chars_of("opc.tcp://");
    let slash = chars_of("/");
    if !occurs_at_pos(&e, &scheme, 0) {
        return None;
    }
    let rest = slice_chars(&e, scheme.len(), e.len());
    proof {
        assert(rest@ =~= endpoint@.skip(scheme@.len() as int));
    }
    let authority = before_first_chars(&rest, &slash);
    if authority.len() > 0 {
        Some(string_from_chars(&authority))
    } else {
        None
    }
}

// ---------------------------------------------------------------------------
// Laws of the output contract
// ---------------------------------------------------------------------------

/// Every published output has a node of its own: the node identifiers of an
/// asset's outputs are pairwise distinct.
pub proof fn lemma_output_node_ids_distinct(asset_id: Seq<char>, i: int, j: int)
    requires
        0 <= i < output_node_table().len(),
        0 <= j < output_node_table().len(),
        i != j,
    ensures
        output_node_id_of(asset_id, output_node_table()[i].1) != output_node_id_of(
            asset_id,
            output_node_table()[j].1,
        ),
{
    let a = output_node_table()[i].1;
    let b = output_node_table()[j].1;
    lemma_suffix_keys();
    lemma_suffix_keys_distinct();
    assert(suffix_key(a) != suffix_key(b)) by {
        if i < j {
            assert(suffix_keys()[i] != suffix_keys()[j]);
        } else {
            assert(suffix_keys()[j] != suffix_keys()[i]);
        }
    }
    let prefix = "agent:"@ + asset_id + "."@;
    assert(output_node_id_of(asset_id, a) =~= prefix + a);
    assert(output_node_id_of(asset_id, b) =~= prefix + b);
    if prefix + a == prefix + b {
        assert((prefix + a).skip(prefix.len() as int) =~= a);
        assert((prefix + b).skip(prefix.len() as int) =~= b);
    }
}

/// What tells the output suffixes apart: the length and two characters near the end.
spec fn suffix_key(s: Seq<char>) -> (nat, char, char) {
    (s.len(), s[s.len() - 3], s[s.len() - 6])
}

/// The key of each output suffix, in publication order.
spec fn suffix_keys() -> Seq<(nat, char, char)> {
    seq![
        (17nat, 'v', '_'),
        (32nat, 'o', '_'),
        (20nat, 'n', 'r'),
        (14nat, 'a', 'p'),
        (14nat, 'r', 'p'),
        (18nat, 'a', 'd'),
        (22nat, 'n', 'r'),
        (20nat, 'u', '_'),
        (28nat, '2', 't'),
        (27nat, '_', 'i'),
        (28nat, '3', 't'),
        (11nat, 'r', 'c'),
        (25nat, 'o', 'r'),
        (27nat, 'o', 't'),
        (31nat, 'o', 'd'),
        (26nat, 'o', 'r'),
        (27nat, 'o', 'e'),
        (27nat, 'i', 'a'),
        (26nat, 'n', 'i'),
        (24nat, 's', 'r'),
        (20nat, 'i', 'e'),
        (22nat, 'i', 'e'),
        (15nat, 'n', 'q'),
        (18nat, 'z', 'a'),
    ]
}

proof fn lemma_suffix_keys()
    ensures
        forall|i: int|
            0 <= i < output_node_table().len() ==> suffix_key(#[trigger] output_node_table()[i].1)
                == suffix_keys()[i],
{
    let t = output_node_table();
    assert forall|i: int| 0 <= i < t.len() implies suffix_key(#[trigger] t[i].1) == suffix_keys()[i] by {
        reveal_strlit("health.risk_level");
        reveal_strlit("health.cavitation_evidence_score");
        reveal_strlit("health.npsh_margin_m");
        reveal_strlit("health.npsha_m");
        reveal_strlit("health.npshr_m");
        reveal_strlit("belief.mean_damage");
        reveal_strlit("belief.damage_variance");
        reveal_strlit("prediction.rul_hours");
        reveal_strlit("risk.failure_probability_24h");
        reveal_strlit("risk.failure_probability_7d");
        reveal_strlit("risk.failure_probability_30d");
        reveal_strlit("risk.cvar95");
        reveal_strlit("counterfactual.defer_cost");
        reveal_strlit("counterfactual.inspect_cost");
        reveal_strlit("counterfactual.reduce_load_cost");
        reveal_strlit("counterfactual.repair_cost");
        reveal_strlit("counterfactual.replace_cost");
        reveal_strlit("decision.recommended_action");
        reveal_strlit("decision.action_confidence");
        reveal_strlit("decision.decision_reason");
        reveal_strlit("model.policy_version");
        reveal_strlit("model.residual_version");
        reveal_strlit("output.sequence");
        reveal_strlit("output.initialized");
    }
}

proof fn lemma_suffix_keys_distinct()
    ensures
        forall|i: int, j: int| 0 <= i < j < suffix_keys().len() ==> suffix_keys()[i] != suffix_keys()[j],
{
}

} // verus!
