//! The safety policy: how comparison outcomes of the numeric model become a risk
//! level, a recommended action, a checklist length, and the limitation and
//! explanation texts that accompany them.
//!
//! The numeric model (NPSH, belief grid, forecast, counterfactual costs) works
//! in floating point outside this library; it hands over each comparison
//! against a configured threshold as a `bool`, and the ladders below decide.
use crate::checklist::{checklist_texts, recommended_checklist};
use crate::output_guard::{reason_if, texts};
use crate::schemas::{Explanation, RiskLevel};
use crate::text::{join, join_strings, str_eq, to_string};
use vstd::prelude::*;

verus! {

/// The outcome of each risk comparison for one snapshot.
#[derive(Debug, Clone, Copy)]
pub struct RiskEvidence {
    /// The snapshot's design specs disagree with the source-backed specs.
    pub has_validation_errors: bool,
    /// Some required reading is not a finite number.
    pub has_missing_inputs: bool,
    /// The cavitation evidence score reaches the high-risk score.
    pub score_at_or_above_high: bool,
    /// The NPSH margin lies below the high-risk margin.
    pub margin_below_high: bool,
    /// The cavitation evidence score reaches the medium-risk score.
    pub score_at_or_above_medium: bool,
    /// The NPSH margin lies below the medium-risk margin.
    pub margin_below_medium: bool,
}

/// The outcome of each action comparison for one analysis.
#[derive(Debug, Clone, Copy)]
pub struct ActionEvidence {
    pub risk_level: RiskLevel,
    /// The combined feature and belief confidence lies below the configured minimum.
    pub confidence_below_minimum: bool,
    /// The 7-day failure probability reaches the critical threshold.
    pub pf7d_at_or_above_critical: bool,
    /// The 7-day failure probability reaches the high threshold.
    pub pf7d_at_or_above_high: bool,
    /// The 7-day failure probability reaches the low threshold.
    pub pf7d_at_or_above_low: bool,
}

/// The recommended action and the reason for it.
#[derive(Debug, Clone)]
pub struct ActionDecision {
    pub recommended_action: String,
    pub decision_reason: String,
}

/// Whether each required reading is a finite number.
#[derive(Debug, Clone, Copy)]
pub struct InputReadings {
    pub flow_rate_m3h: bool,
    pub suction_pressure_bar: bool,
    pub discharge_pressure_bar: bool,
    pub motor_current_a: bool,
    pub vibration_rms_mms: bool,
    pub bearing_temperature_c: bool,
    pub liquid_temperature_c: bool,
    pub speed_rpm: bool,
}

/// The risk ladder: UNKNOWN when inputs or specs are unusable, then HIGH,
/// MEDIUM and LOW by score and NPSH margin.
pub open spec fn classify_risk(e: RiskEvidence) -> RiskLevel {
    if e.has_validation_errors || e.has_missing_inputs {
        RiskLevel::Unknown
    } else if e.score_at_or_above_high || e.margin_below_high {
        RiskLevel::High
    } else if e.score_at_or_above_medium || e.margin_below_medium {
        RiskLevel::Medium
    } else {
        RiskLevel::Low
    }
}

/// The action ladder.
pub open spec fn action_for(e: ActionEvidence) -> Seq<char> {
    if e.risk_level == RiskLevel::Unknown {
        "ask_for_missing_data"@
    } else if e.confidence_below_minimum {
        "ask_for_more_measurements"@
    } else if e.pf7d_at_or_above_critical {
        "replace"@
    } else if e.pf7d_at_or_above_high {
        "repair"@
    } else if e.pf7d_at_or_above_low || e.risk_level == RiskLevel::High {
        "recommend_cavitation_checklist"@
    } else if e.risk_level == RiskLevel::Medium {
        "explain_npsh_lesson_and_monitor"@
    } else {
        "explain_normal_operation"@
    }
}

/// The reason given with each rung of the action ladder.
pub open spec fn reason_for(e: ActionEvidence) -> Seq<char> {
    if e.risk_level == RiskLevel::Unknown {
        "risk is UNKNOWN because required inputs or source-backed specs are missing or invalid"@
    } else if e.confidence_below_minimum {
        "combined feature and belief confidence is below the configured minimum"@
    } else if e.pf7d_at_or_above_critical {
        "7-day failure probability meets or exceeds the critical threshold"@
    } else if e.pf7d_at_or_above_high {
        "7-day failure probability meets or exceeds the high threshold"@
    } else if e.pf7d_at_or_above_low || e.risk_level == RiskLevel::High {
        "failure probability or HIGH risk level warrants the cavitation checklist"@
    } else if e.risk_level == RiskLevel::Medium {
        "MEDIUM risk warrants monitoring and an NPSH explanation"@
    } else {
        "risk is LOW and failure probability is below configured action thresholds"@
    }
}

/// Actions that come with no checklist.
pub open spec fn is_checklist_free_action(action: Seq<char>) -> bool {
    action == "explain_normal_operation"@ || action == "ask_for_missing_data"@ || action
        == "ask_for_more_measurements"@
}

/// The number of checklist items recommended with an action.
pub open spec fn checklist_limit_for(action: Seq<char>) -> usize {
    if is_checklist_free_action(action) {
        0
    } else {
        3
    }
}

/// The names of the readings that are not finite numbers, in a fixed order.
pub open spec fn missing_input_names(r: InputReadings) -> Seq<Seq<char>> {
    reason_if(!r.flow_rate_m3h, "flow_rate_m3h"@) + reason_if(
        !r.suction_pressure_bar,
        "suction_pressure_bar"@,
    ) + reason_if(!r.discharge_pressure_bar, "discharge_pressure_bar"@) + reason_if(
        !r.motor_current_a,
        "motor_current_a"@,
    ) + reason_if(!r.vibration_rms_mms, "vibration_rms_mms"@) + reason_if(
        !r.bearing_temperature_c,
        "bearing_temperature_c"@,
    ) + reason_if(!r.liquid_temperature_c, "liquid_temperature_c"@) + reason_if(
        !r.speed_rpm,
        "speed_rpm"@,
    )
}

/// The liquid-temperature limitation for a snapshot.
pub open spec fn temperature_limitation_text(outside_plausible_range: bool, source: Seq<char>) -> Seq<
    char,
> {
    if outside_plausible_range {
        "Liquid temperature was outside the configured plausible range; validate pump inlet temperature."@
    } else if source != "live_intake_temperature"@ {
        "Liquid temperature uses the documented high-end fallback rather than a live pump-inlet measurement."@
    } else {
        "Liquid temperature uses live intake temperature as a proxy, not a certified HP pump inlet measurement."@
    }
}

/// The sentence that lists the limitations of an analysis.
pub open spec fn limitations_sentence(limitations: Seq<Seq<char>>) -> Seq<char> {
    if limitations.len() == 0 {
        "No configured limitations were reported."@
    } else {
        "Limitations: "@ + join(limitations, " "@)
    }
}

/// The explanation given when the risk is UNKNOWN.
pub open spec fn unknown_explanation(
    asset_id: Seq<char>,
    action: Seq<char>,
    lowest_cost_action: Seq<char>,
    limitations: Seq<Seq<char>>,
) -> Seq<char> {
    asset_id
        + " risk is UNKNOWN because required inputs or source-backed design specs are missing or invalid. Recommended action: "@
        + action + ". Lowest configured counterfactual action: "@ + lowest_cost_action
        + ". This is a maintenance recommendation for human review only; the agent does not write plant commands. "@
        + limitations_sentence(limitations)
}

/// Classifies the risk of a snapshot from the outcome of its comparisons.
pub fn risk_level(evidence: &RiskEvidence) -> (level: RiskLevel)
    ensures
        level == classify_risk(*evidence),
{
    if evidence.has_validation_errors || evidence.has_missing_inputs {
        RiskLevel::Unknown
    } else if evidence.score_at_or_above_high || evidence.margin_below_high {
        RiskLevel::High
    } else if evidence.score_at_or_above_medium || evidence.margin_below_medium {
        RiskLevel::Medium
    } else {
        RiskLevel::Low
    }
}

/// Chooses the recommended action and its reason.
pub fn decide_action(evidence: &ActionEvidence) -> (d: ActionDecision)
    ensures
        d.recommended_action@ == action_for(*evidence),
        d.decision_reason@ == reason_for(*evidence),
{
    let (action, reason) = if evidence.risk_level == RiskLevel::Unknown {
        (
            "ask_for_missing_data",
            "risk is UNKNOWN because required inputs or source-backed specs are missing or invalid",
        )
    } else if evidence.confidence_below_minimum {
        (
            "ask_for_more_measurements",
            "combined feature and belief confidence is below the configured minimum",
        )
    } else if evidence.pf7d_at_or_above_critical {
        ("replace", "7-day failure probability meets or exceeds the critical threshold")
    } else if evidence.pf7d_at_or_above_high {
        ("repair", "7-day failure probability meets or exceeds the high threshold")
    } else if evidence.pf7d_at_or_above_low || evidence.risk_level == RiskLevel::High {
        (
            "recommend_cavitation_checklist",
            "failure probability or HIGH risk level warrants the cavitation checklist",
        )
    } else if evidence.risk_level == RiskLevel::Medium {
        (
            "explain_npsh_lesson_and_monitor",
            "MEDIUM risk warrants monitoring and an NPSH explanation",
        )
    } else {
        (
            "explain_normal_operation",
            "risk is LOW and failure probability is below configured action thresholds",
        )
    };
    ActionDecision { recommended_action: to_string(action), decision_reason: to_string(reason) }
}

/// The number of checklist items recommended with an action: none for the
/// actions that explain normal operation or ask for data, three otherwise.
pub fn checklist_limit(recommended_action: &str) -> (limit: usize)
    ensures
        limit == checklist_limit_for(recommended_action@),
{
    if str_eq(recommended_action, "explain_normal_operation") || str_eq(
        recommended_action,
        "ask_for_missing_data",
    ) || str_eq(recommended_action, "ask_for_more_measurements") {
        0
    } else {
        3
    }
}

/// The checklist recommended with an action.
pub fn checklist_for_action(recommended_action: &str) -> (out: Vec<String>)
    ensures
        texts(out@) == checklist_texts().take(checklist_limit_for(recommended_action@) as int),
{
    recommended_checklist(checklist_limit(recommended_action))
}

/// Appends `name` when its reading is not finite.
fn push_missing(names: &mut Vec<String>, finite: bool, name: &str)
    ensures
        texts(final(names)@) == texts(old(names)@) + reason_if(!finite, name@),
{
    let ghost before = names@;
    if !finite {
        names.push(to_string(name));
    }
    proof {
        assert(texts(names@) =~= texts(before) + reason_if(!finite, name@));
    }
}

/// The names of the readings that are not finite numbers.
pub fn missing_inputs(readings: &InputReadings) -> (names: Vec<String>)
    ensures
        texts(names@) == missing_input_names(*readings),
{
    let mut names: Vec<String> = Vec::new();
    proof {
        assert(texts(names@) =~= Seq::empty());
    }
    push_missing(&mut names, readings.flow_rate_m3h, "flow_rate_m3h");
    push_missing(&mut names, readings.suction_pressure_bar, "suction_pressure_bar");
    push_missing(&mut names, readings.discharge_pressure_bar, "discharge_pressure_bar");
    push_missing(&mut names, readings.motor_current_a, "motor_current_a");
    push_missing(&mut names, readings.vibration_rms_mms, "vibration_rms_mms");
    push_missing(&mut names, readings.bearing_temperature_c, "bearing_temperature_c");
    push_missing(&mut names, readings.liquid_temperature_c, "liquid_temperature_c");
    push_missing(&mut names, readings.speed_rpm, "speed_rpm");
    proof {
        assert(texts(names@) =~= missing_input_names(*readings));
    }
    names
}

/// The liquid-temperature limitation: out of the plausible range, the
/// documented fallback temperature, or the live intake proxy.
pub fn temperature_limitation(outside_plausible_range: bool, source: &str) -> (text: String)
    ensures
        text@ == temperature_limitation_text(outside_plausible_range, source@),
{
    if outside_plausible_range {
        to_string(
            "Liquid temperature was outside the configured plausible range; validate pump inlet temperature.",
        )
    } else if !str_eq(source, "live_intake_temperature") {
        to_string(
            "Liquid temperature uses the documented high-end fallback rather than a live pump-inlet measurement.",
        )
    } else {
        to_string(
            "Liquid temperature uses live intake temperature as a proxy, not a certified HP pump inlet measurement.",
        )
    }
}

/// The limitation added when the risk is UNKNOWN.
pub fn unknown_risk_limitation() -> (text: &'static str)
    ensures
        text@
            == "Risk is UNKNOWN because required inputs or source-backed design specs are missing or invalid."@,
{
    "Risk is UNKNOWN because required inputs or source-backed design specs are missing or invalid."
}

/// The limitation added when the operating flow lies far from the design point.
pub fn curve_limitation() -> (text: &'static str)
    ensures
        text@
            == "NPSHr uses the source design point because no certified full pump curve is available for interpolation."@,
{
    "NPSHr uses the source design point because no certified full pump curve is available for interpolation."
}

/// The sentence that lists the limitations of an analysis.
pub fn limitations_text(limitations: &Vec<String>) -> (text: String)
    ensures
        text@ == limitations_sentence(texts(limitations@)),
{
    if limitations.len() == 0 {
        to_string("No configured limitations were reported.")
    } else {
        let joined = join_strings(limitations, " ");
        proof {
            assert(texts(limitations@) == limitations@.map_values(|v: String| v@));
        }
        to_string("Limitations: ").concat(joined.as_str())
    }
}

/// The explanation given when the risk is UNKNOWN.
pub fn unknown_explanation_text(
    asset_id: &str,
    recommended_action: &str,
    lowest_cost_action: &str,
    limitations: &Vec<String>,
) -> (text: String)
    ensures
        text@ == unknown_explanation(
            asset_id@,
            recommended_action@,
            lowest_cost_action@,
            texts(limitations@),
        ),
{
    let tail = limitations_text(limitations);
    to_string(asset_id).concat(
        " risk is UNKNOWN because required inputs or source-backed design specs are missing or invalid. Recommended action: ",
    ).concat(recommended_action).concat(". Lowest configured counterfactual action: ").concat(
        lowest_cost_action,
    ).concat(
        ". This is a maintenance recommendation for human review only; the agent does not write plant commands. ",
    ).concat(tail.as_str())
}

/// The explanation record for a deterministic template text.
pub fn template_explanation(text: String) -> (e: Explanation)
    ensures
        e.source@ == "template"@,
        e.text@ == text@,
        e.guard_passed,
        e.fallback_used,
        e.prompt_hash@ == Seq::<char>::empty(),
        e.guard_reasons@.len() == 0,
{
    Explanation {
        source: to_string("template"),
        text,
        guard_passed: true,
        fallback_used: true,
        prompt_hash: String::new(),
        guard_reasons: Vec::new(),
    }
}

/// The equations the analysis reports having used.
pub open spec fn equation_names() -> Seq<Seq<char>> {
    seq![
        "NPSH calculation"@,
        "Belief state update"@,
        "RUL threshold forecast"@,
        "Counterfactual cost model"@,
        "Safety policy"@,
    ]
}

/// The equations the analysis reports having used.
pub fn equations_used() -> (out: Vec<String>)
    ensures
        texts(out@) == equation_names(),
{
    let out = vec![
        to_string("NPSH calculation"),
        to_string("Belief state update"),
        to_string("RUL threshold forecast"),
        to_string("Counterfactual cost model"),
        to_string("Safety policy"),
    ];
    proof {
        assert(texts(out@) =~= equation_names());
    }
    out
}

// ---------------------------------------------------------------------------
// Laws of the policy
// ---------------------------------------------------------------------------

/// Unusable inputs or specs make the risk UNKNOWN, whatever the scores say.
pub proof fn lemma_unusable_inputs_are_unknown(e: RiskEvidence)
    requires
        e.has_validation_errors || e.has_missing_inputs,
    ensures
        classify_risk(e) == RiskLevel::Unknown,
{
}

/// With usable inputs, a margin below the high-risk margin is HIGH risk, whatever the score.
pub proof fn lemma_low_margin_is_high_risk(e: RiskEvidence)
    requires
        !e.has_validation_errors,
        !e.has_missing_inputs,
        e.margin_below_high,
    ensures
        classify_risk(e) == RiskLevel::High,
{
}

/// An UNKNOWN risk always asks for the missing data and comes with no checklist.
pub proof fn lemma_unknown_risk_asks_for_data(e: ActionEvidence)
    requires
        e.risk_level == RiskLevel::Unknown,
    ensures
        action_for(e) == "ask_for_missing_data"@,
        checklist_limit_for(action_for(e)) == 0,
        checklist_texts().take(checklist_limit_for(action_for(e)) as int).len() == 0,
{
}

/// Repair or replacement is recommended only for a known risk with enough
/// confidence and a 7-day failure probability at or above the high threshold.
pub proof fn lemma_invasive_actions_need_evidence(e: ActionEvidence)
    requires
        action_for(e) == "replace"@ || action_for(e) == "repair"@,
    ensures
        e.risk_level != RiskLevel::Unknown,
        !e.confidence_below_minimum,
        e.pf7d_at_or_above_critical || e.pf7d_at_or_above_high,
{
    lemma_action_words_distinct();
}

/// A confident HIGH risk is never answered by explaining normal operation: it
/// always comes with the first three checklist items.
pub proof fn lemma_high_risk_gets_checklist(e: ActionEvidence)
    requires
        e.risk_level == RiskLevel::High,
        !e.confidence_below_minimum,
    ensures
        checklist_limit_for(action_for(e)) == 3,
        checklist_texts().take(checklist_limit_for(action_for(e)) as int).len() == 3,
{
    lemma_action_words_distinct();
}

/// The risk ladder, rung by rung: unusable inputs or specs give UNKNOWN; with
/// usable ones, a score at or above the high-risk score or a margin below the
/// high-risk margin gives HIGH (each on its own, whatever the other says); then
/// the medium score or margin gives MEDIUM; otherwise the risk is LOW.
pub proof fn lemma_risk_ladder(e: RiskEvidence)
    ensures
        e.has_validation_errors ==> classify_risk(e) == RiskLevel::Unknown,
        e.has_missing_inputs ==> classify_risk(e) == RiskLevel::Unknown,
        !e.has_validation_errors && !e.has_missing_inputs && e.score_at_or_above_high
            ==> classify_risk(e) == RiskLevel::High,
        !e.has_validation_errors && !e.has_missing_inputs && e.margin_below_high ==> classify_risk(
            e,
        ) == RiskLevel::High,
        !e.has_validation_errors && !e.has_missing_inputs && !e.score_at_or_above_high
            && !e.margin_below_high && (e.score_at_or_above_medium || e.margin_below_medium)
            ==> classify_risk(e) == RiskLevel::Medium,
        !e.has_validation_errors && !e.has_missing_inputs && !e.score_at_or_above_high
            && !e.margin_below_high && !e.score_at_or_above_medium && !e.margin_below_medium
            ==> classify_risk(e) == RiskLevel::Low,
        classify_risk(e) == RiskLevel::Low ==> !e.score_at_or_above_medium && !e.margin_below_medium
            && !e.score_at_or_above_high && !e.margin_below_high,
{
}

/// The action ladder, rung by rung, with the action and the reason each rung gives.
///
/// In particular a known risk with enough confidence whose 7-day failure
/// probability reaches the low threshold, but not the high one, always gets
/// the cavitation checklist, whatever the risk level.
pub proof fn lemma_action_ladder(e: ActionEvidence)
    ensures
        e.risk_level == RiskLevel::Unknown ==> action_for(e) == "ask_for_missing_data"@
            && reason_for(e)
            == "risk is UNKNOWN because required inputs or source-backed specs are missing or invalid"@,
        e.risk_level != RiskLevel::Unknown && e.confidence_below_minimum ==> action_for(e)
            == "ask_for_more_measurements"@ && reason_for(e)
            == "combined feature and belief confidence is below the configured minimum"@,
        e.risk_level != RiskLevel::Unknown && !e.confidence_below_minimum
            && e.pf7d_at_or_above_critical ==> action_for(e) == "replace"@ && reason_for(e)
            == "7-day failure probability meets or exceeds the critical threshold"@,
        e.risk_level != RiskLevel::Unknown && !e.confidence_below_minimum
            && !e.pf7d_at_or_above_critical && e.pf7d_at_or_above_high ==> action_for(e)
            == "repair"@ && reason_for(e)
            == "7-day failure probability meets or exceeds the high threshold"@,
        e.risk_level != RiskLevel::Unknown && !e.confidence_below_minimum
            && !e.pf7d_at_or_above_critical && !e.pf7d_at_or_above_high && e.pf7d_at_or_above_low
            ==> action_for(e) == "recommend_cavitation_checklist"@ && reason_for(e)
            == "failure probability or HIGH risk level warrants the cavitation checklist"@,
        e.risk_level == RiskLevel::High && !e.confidence_below_minimum
            && !e.pf7d_at_or_above_critical && !e.pf7d_at_or_above_high ==> action_for(e)
            == "recommend_cavitation_checklist"@,
        e.risk_level == RiskLevel::Medium && !e.confidence_below_minimum
            && !e.pf7d_at_or_above_critical && !e.pf7d_at_or_above_high && !e.pf7d_at_or_above_low
            ==> action_for(e) == "explain_npsh_lesson_and_monitor"@ && reason_for(e)
            == "MEDIUM risk warrants monitoring and an NPSH explanation"@,
        e.risk_level == RiskLevel::Low && !e.confidence_below_minimum
            && !e.pf7d_at_or_above_critical && !e.pf7d_at_or_above_high && !e.pf7d_at_or_above_low
            ==> action_for(e) == "explain_normal_operation"@ && reason_for(e)
            == "risk is LOW and failure probability is below configured action thresholds"@,
{
}

/// No checklist comes with explaining normal operation or asking for data or
/// measurements; every other action comes with three items.
pub proof fn lemma_checklist_limits(action: Seq<char>)
    ensures
        checklist_limit_for("explain_normal_operation"@) == 0,
        checklist_limit_for("ask_for_missing_data"@) == 0,
        checklist_limit_for("ask_for_more_measurements"@) == 0,
        action != "explain_normal_operation"@ && action != "ask_for_missing_data"@ && action
            != "ask_for_more_measurements"@ ==> checklist_limit_for(action) == 3,
        checklist_limit_for("explain_npsh_lesson_and_monitor"@) == 3,
        checklist_limit_for("recommend_cavitation_checklist"@) == 3,
        checklist_limit_for("repair"@) == 3,
        checklist_limit_for("replace"@) == 3,
{
    lemma_action_words_distinct();
}

/// A confident MEDIUM or HIGH risk always comes with the first three checklist items.
pub proof fn lemma_confident_known_risk_gets_checklist(e: ActionEvidence)
    requires
        e.risk_level == RiskLevel::Medium || e.risk_level == RiskLevel::High,
        !e.confidence_below_minimum,
    ensures
        checklist_limit_for(action_for(e)) == 3,
        checklist_texts().take(checklist_limit_for(action_for(e)) as int).len() == 3,
{
    lemma_action_words_distinct();
}

/// A reading is reported missing exactly when it is not finite, for each of
/// the eight required readings.
pub proof fn lemma_missing_inputs_per_reading(r: InputReadings)
    ensures
        missing_input_names(r).contains("flow_rate_m3h"@) <==> !r.flow_rate_m3h,
        missing_input_names(r).contains("suction_pressure_bar"@) <==> !r.suction_pressure_bar,
        missing_input_names(r).contains("discharge_pressure_bar"@) <==> !r.discharge_pressure_bar,
        missing_input_names(r).contains("motor_current_a"@) <==> !r.motor_current_a,
        missing_input_names(r).contains("vibration_rms_mms"@) <==> !r.vibration_rms_mms,
        missing_input_names(r).contains("bearing_temperature_c"@) <==> !r.bearing_temperature_c,
        missing_input_names(r).contains("liquid_temperature_c"@) <==> !r.liquid_temperature_c,
        missing_input_names(r).contains("speed_rpm"@) <==> !r.speed_rpm,
        missing_input_names(r).len() == 0 <==> (r.flow_rate_m3h && r.suction_pressure_bar
            && r.discharge_pressure_bar && r.motor_current_a && r.vibration_rms_mms
            && r.bearing_temperature_c && r.liquid_temperature_c && r.speed_rpm),
{
    lemma_missing_names_shape(r);
    lemma_missing_index(r, 0);
    lemma_missing_index(r, 1);
    lemma_missing_index(r, 2);
    lemma_missing_index(r, 3);
    lemma_missing_index(r, 4);
    lemma_missing_index(r, 5);
    lemma_missing_index(r, 6);
    lemma_missing_index(r, 7);
    lemma_missing_empty(r);
}

proof fn lemma_missing_index(r: InputReadings, k: int)
    requires
        0 <= k < 8,
    ensures
        missing_from(input_names(), input_flags(r), 8).contains(input_names()[k])
            <==> !input_flags(r)[k],
{
    lemma_input_names_distinct();
    let names = input_names();
    let flags = input_flags(r);
    lemma_missing_from_contains(names, flags, 8, names[k]);
    if exists|j: int| 0 <= j < 8 && !flags[j] && names[j] == names[k] {
        let j = choose|j: int| 0 <= j < 8 && !flags[j] && names[j] == names[k];
        if j < k {
            assert(names[j] != names[k]);
        } else if k < j {
            assert(names[k] != names[j]);
        }
    }
}

proof fn lemma_missing_empty(r: InputReadings)
    ensures
        missing_from(input_names(), input_flags(r), 8).len() == 0 <==> (forall|k: int|
            0 <= k < 8 ==> #[trigger] input_flags(r)[k]),
{
    let m = missing_from(input_names(), input_flags(r), 8);
    if m.len() > 0 {
        assert(m.contains(m[0]));
        lemma_missing_from_contains(input_names(), input_flags(r), 8, m[0]);
    } else {
        assert forall|k: int| 0 <= k < 8 implies #[trigger] input_flags(r)[k] by {
            lemma_missing_from_contains(input_names(), input_flags(r), 8, input_names()[k]);
            if !input_flags(r)[k] {
                assert(m.contains(input_names()[k]));
            }
        }
    }
}

/// The required readings' names, in reporting order.
spec fn input_names() -> Seq<Seq<char>> {
    seq![
        "flow_rate_m3h"@,
        "suction_pressure_bar"@,
        "discharge_pressure_bar"@,
        "motor_current_a"@,
        "vibration_rms_mms"@,
        "bearing_temperature_c"@,
        "liquid_temperature_c"@,
        "speed_rpm"@,
    ]
}

/// Whether each required reading is finite, in reporting order.
spec fn input_flags(r: InputReadings) -> Seq<bool> {
    seq![
        r.flow_rate_m3h,
        r.suction_pressure_bar,
        r.discharge_pressure_bar,
        r.motor_current_a,
        r.vibration_rms_mms,
        r.bearing_temperature_c,
        r.liquid_temperature_c,
        r.speed_rpm,
    ]
}

proof fn lemma_missing_names_shape(r: InputReadings)
    ensures
        missing_input_names(r) == missing_from(input_names(), input_flags(r), 8),
{
    reveal_with_fuel(missing_from, 9);
    assert(missing_input_names(r) =~= missing_from(input_names(), input_flags(r), 8));
}

proof fn lemma_input_names_distinct()
    ensures
        forall|j: int, k: int| 0 <= j < k < 8 ==> input_names()[j] != input_names()[k],
{
    reveal_strlit("flow_rate_m3h");
    reveal_strlit("suction_pressure_bar");
    reveal_strlit("discharge_pressure_bar");
    reveal_strlit("motor_current_a");
    reveal_strlit("vibration_rms_mms");
    reveal_strlit("bearing_temperature_c");
    reveal_strlit("liquid_temperature_c");
    reveal_strlit("speed_rpm");
    assert forall|j: int, k: int| 0 <= j < k < 8 implies input_names()[j] != input_names()[k] by {
        let a = input_names()[j];
        let b = input_names()[k];
        assert(a.len() != b.len() || a[0] != b[0]);
    }
}

/// The names among the first `n` whose flag is off, in order.
spec fn missing_from(names: Seq<Seq<char>>, flags: Seq<bool>, n: nat) -> Seq<Seq<char>>
    decreases n,
{
    if n == 0 {
        Seq::empty()
    } else {
        missing_from(names, flags, (n - 1) as nat) + reason_if(!flags[n - 1], names[n - 1])
    }
}

proof fn lemma_missing_from_contains(names: Seq<Seq<char>>, flags: Seq<bool>, n: nat, x: Seq<char>)
    ensures
        missing_from(names, flags, n).contains(x) <==> exists|j: int|
            0 <= j < n && !flags[j] && names[j] == x,
    decreases n,
{
    if n > 0 {
        let a = missing_from(names, flags, (n - 1) as nat);
        let b = reason_if(!flags[n - 1], names[n - 1]);
        lemma_missing_from_contains(names, flags, (n - 1) as nat, x);
        if (a + b).contains(x) {
            let i = choose|i: int| 0 <= i < (a + b).len() && (a + b)[i] == x;
            if i < a.len() {
                assert(a[i] == x);
                assert(a.contains(x));
            } else {
                assert(b[i - a.len()] == x);
            }
        }
        if exists|j: int| 0 <= j < n && !flags[j] && names[j] == x {
            let j = choose|j: int| 0 <= j < n && !flags[j] && names[j] == x;
            if j < n - 1 {
                let i = choose|i: int| 0 <= i < a.len() && a[i] == x;
                assert((a + b)[i] == x);
            } else {
                assert((a + b)[a.len() as int] == x);
            }
        }
    }
}

/// The action words differ from one another.
proof fn lemma_action_words_distinct()
    ensures
        "replace"@.len() == 7,
        "repair"@.len() == 6,
        "ask_for_missing_data"@.len() == 20,
        "ask_for_more_measurements"@.len() == 25,
        "recommend_cavitation_checklist"@.len() == 30,
        "explain_npsh_lesson_and_monitor"@.len() == 31,
        "explain_normal_operation"@.len() == 24,
{
    reveal_strlit("replace");
    reveal_strlit("repair");
    reveal_strlit("ask_for_missing_data");
    reveal_strlit("ask_for_more_measurements");
    reveal_strlit("recommend_cavitation_checklist");
    reveal_strlit("explain_npsh_lesson_and_monitor");
    reveal_strlit("explain_normal_operation");
}

} // verus!
