use asset_agent::checklist::{
    checklist_item_order, checklist_item_text, default_checklist, default_checklist_items,
    recommended_checklist,
};
use asset_agent::config::{validate_source_bundle, SourceBundleFacts};
use asset_agent::learning::{
    calibration_event_id, calibration_event_types, calibration_review_reason, proposal_ready,
    threshold_status, validate_solved_item,
};
use asset_agent::llm_runs::{case_id_for_snapshot, llm_run_id, sanitize};
use asset_agent::policy::{
    checklist_for_action, checklist_limit, decide_action, equations_used, limitations_text,
    missing_inputs, risk_level, temperature_limitation, template_explanation,
    unknown_explanation_text, unknown_risk_limitation, ActionEvidence, InputReadings,
    RiskEvidence,
};
use asset_agent::replay::{select_as_of, SelectError, SnapshotStamp};
use asset_agent::schemas::RiskLevel;

fn usable_evidence() -> RiskEvidence {
    RiskEvidence {
        has_validation_errors: false,
        has_missing_inputs: false,
        score_at_or_above_high: false,
        margin_below_high: false,
        score_at_or_above_medium: false,
        margin_below_medium: false,
    }
}

fn action_evidence(level: RiskLevel) -> ActionEvidence {
    ActionEvidence {
        risk_level: level,
        confidence_below_minimum: false,
        pf7d_at_or_above_critical: false,
        pf7d_at_or_above_high: false,
        pf7d_at_or_above_low: false,
    }
}

fn stamps() -> Vec<SnapshotStamp> {
    vec![
        SnapshotStamp {
            timestamp: "2026-05-07T00:00:50Z".to_string(),
            as_of_timestamp: "2026-05-07T00:01:00Z".to_string(),
        },
        SnapshotStamp {
            timestamp: "2026-05-07T00:01:50Z".to_string(),
            as_of_timestamp: "2026-05-07T00:02:00Z".to_string(),
        },
    ]
}

#[test]
fn select_trace_last_is_deterministic() {
    let snapshots = stamps();
    let first = select_as_of(&snapshots, "trace:last").expect("snapshot exists");
    let second = select_as_of(&snapshots, "trace:last").expect("snapshot exists");
    assert_eq!(snapshots[first].as_of_timestamp, snapshots[second].as_of_timestamp);
    assert_eq!(first, 1);
}

#[test]
fn select_by_timestamp_or_as_of() {
    let snapshots = stamps();
    assert_eq!(select_as_of(&snapshots, "trace:first").unwrap(), 0);
    assert_eq!(select_as_of(&snapshots, "2026-05-07T00:02:00Z").unwrap(), 1);
    assert_eq!(select_as_of(&snapshots, "2026-05-07T00:00:50Z").unwrap(), 0);
    match select_as_of(&snapshots, "2030-01-01T00:00:00Z") {
        Err(SelectError::AsOfNotFound { selector }) => {
            assert_eq!(selector, "2030-01-01T00:00:00Z")
        }
        Ok(_) => panic!("selector should not match"),
    }
    assert!(select_as_of(&[], "trace:last").is_err());
}

#[test]
fn recommended_checklist_takes_prefix() {
    let three = recommended_checklist(3);
    assert_eq!(
        three,
        vec![
            "Check suction strainer for blockage.",
            "Check inlet valve position.",
            "Check suction pipe restriction or blockage.",
        ]
    );
    assert!(recommended_checklist(0).is_empty());
    assert_eq!(recommended_checklist(50).len(), 10);
    assert_eq!(default_checklist().len(), 10);
    assert_eq!(default_checklist_items()[5].item_id, "verify_npsha_gt_npshr");
}

#[test]
fn checklist_lookup_by_id() {
    assert_eq!(
        checklist_item_text("check_suction_strainer"),
        Some("Check suction strainer for blockage.")
    );
    assert_eq!(checklist_item_order("check_pump_speed_change"), 9);
    assert_eq!(checklist_item_text("not_an_item"), None);
    assert_eq!(checklist_item_order("not_an_item"), usize::MAX);
}

#[test]
fn risk_ladder_prefers_unknown_then_high() {
    let mut e = usable_evidence();
    assert_eq!(risk_level(&e), RiskLevel::Low);
    e.margin_below_medium = true;
    assert_eq!(risk_level(&e), RiskLevel::Medium);
    e.margin_below_high = true;
    assert_eq!(risk_level(&e), RiskLevel::High);
    e.has_missing_inputs = true;
    assert_eq!(risk_level(&e), RiskLevel::Unknown);
}

#[test]
fn bad_design_spec_fails_closed_unknown() {
    let mut e = usable_evidence();
    e.has_validation_errors = true;
    e.score_at_or_above_high = true;
    let level = risk_level(&e);
    assert_eq!(level, RiskLevel::Unknown);
    let decision = decide_action(&action_evidence(level));
    assert_eq!(decision.recommended_action, "ask_for_missing_data");
    assert!(checklist_for_action(&decision.recommended_action).is_empty());
}

#[test]
fn action_ladder_follows_failure_probability() {
    let mut e = action_evidence(RiskLevel::High);
    assert_eq!(decide_action(&e).recommended_action, "recommend_cavitation_checklist");
    e.pf7d_at_or_above_high = true;
    assert_eq!(decide_action(&e).recommended_action, "repair");
    e.pf7d_at_or_above_critical = true;
    let replace = decide_action(&e);
    assert_eq!(replace.recommended_action, "replace");
    assert_eq!(
        replace.decision_reason,
        "7-day failure probability meets or exceeds the critical threshold"
    );
    e.confidence_below_minimum = true;
    assert_eq!(decide_action(&e).recommended_action, "ask_for_more_measurements");
    assert_eq!(
        decide_action(&action_evidence(RiskLevel::Medium)).recommended_action,
        "explain_npsh_lesson_and_monitor"
    );
    assert_eq!(
        decide_action(&action_evidence(RiskLevel::Low)).recommended_action,
        "explain_normal_operation"
    );
}

#[test]
fn checklist_limit_by_action() {
    assert_eq!(checklist_limit("explain_normal_operation"), 0);
    assert_eq!(checklist_limit("ask_for_missing_data"), 0);
    assert_eq!(checklist_limit("ask_for_more_measurements"), 0);
    assert_eq!(checklist_limit("replace"), 3);
    assert_eq!(checklist_for_action("replace").len(), 3);
}

#[test]
fn missing_inputs_listed_in_order() {
    let readings = InputReadings {
        flow_rate_m3h: true,
        suction_pressure_bar: false,
        discharge_pressure_bar: true,
        motor_current_a: true,
        vibration_rms_mms: true,
        bearing_temperature_c: true,
        liquid_temperature_c: true,
        speed_rpm: false,
    };
    assert_eq!(missing_inputs(&readings), vec!["suction_pressure_bar", "speed_rpm"]);
}

#[test]
fn limitation_texts() {
    assert!(temperature_limitation(true, "live_intake_temperature").starts_with("Liquid temperature was outside"));
    assert!(temperature_limitation(false, "documented_fallback").contains("high-end fallback"));
    assert!(temperature_limitation(false, "live_intake_temperature").contains("as a proxy"));
    assert_eq!(limitations_text(&Vec::new()), "No configured limitations were reported.");
    assert_eq!(
        limitations_text(&vec!["A.".to_string(), "B.".to_string()]),
        "Limitations: A. B."
    );
}

#[test]
fn unknown_explanation_names_action_and_limitations() {
    let text = unknown_explanation_text(
        "hp_pump_1",
        "ask_for_missing_data",
        "defer",
        &vec![unknown_risk_limitation().to_string()],
    );
    assert!(text.starts_with("hp_pump_1 risk is UNKNOWN because"));
    assert!(text.contains("Recommended action: ask_for_missing_data."));
    assert!(text.contains("Lowest configured counterfactual action: defer."));
    assert!(text.ends_with("Limitations: Risk is UNKNOWN because required inputs or source-backed design specs are missing or invalid."));
    let explanation = template_explanation(text.clone());
    assert_eq!(explanation.source, "template");
    assert!(explanation.fallback_used && explanation.guard_passed);
    assert_eq!(equations_used().len(), 5);
}

#[test]
fn source_bundle_checks() {
    let good = SourceBundleFacts {
        asset_id: "hp_pump_1".to_string(),
        source_spec_asset_id: Some("hp_pump_1".to_string()),
        pump_curve_asset_id: Some("hp_pump_1".to_string()),
        curve_policy: Some("single_source_design_point_no_fabricated_interpolation".to_string()),
        demo_data_policy: Some("synthetic_demo_profile_not_for_operational_use".to_string()),
        npshr_is_expected: true,
        specific_gravity_is_expected: true,
    };
    assert!(validate_source_bundle(&good).is_empty());
    let bad = SourceBundleFacts {
        asset_id: "other".to_string(),
        pump_curve_asset_id: None,
        specific_gravity_is_expected: false,
        ..good
    };
    assert_eq!(
        validate_source_bundle(&bad),
        vec![
            "unexpected asset id other",
            "source spec asset_id does not match asset config",
            "pump curve asset_id does not match asset config",
            "expected specific gravity must be 1.03 for this demo asset",
        ]
    );
}

#[test]
fn solved_item_must_be_a_checklist_item() {
    assert_eq!(validate_solved_item(Some("check_suction_strainer")), None);
    assert_eq!(validate_solved_item(None), None);
    assert_eq!(
        validate_solved_item(Some("bogus")).as_deref(),
        Some("unknown checklist item_id bogus")
    );
}

#[test]
fn run_and_case_identifiers_are_sanitized() {
    assert_eq!(sanitize("Ab-9 x"), "ab_9_x");
    assert_eq!(
        llm_run_id(Some("case-1"), "sha256:0123456789abcdef0123", 2),
        "llm_case_1_0123456789abcdef_2"
    );
    assert_eq!(llm_run_id(None, "short", -3), "llm_no_case_short__3");
    assert_eq!(
        case_id_for_snapshot("hp_pump_1", "2026-05-07T00:01:00Z"),
        "hp_pump_1_2026_05_07t00_01_00z"
    );
}

#[test]
fn calibration_events_follow_reported_outcomes() {
    assert!(calibration_event_types(false, false).is_empty());
    assert_eq!(calibration_event_types(true, false), vec!["false_alarm"]);
    assert_eq!(calibration_event_types(false, true), vec!["missed_cavitation"]);
    assert_eq!(
        calibration_event_types(true, true),
        vec!["false_alarm", "missed_cavitation"]
    );
    assert_eq!(
        calibration_event_id("case_hp_pump_1_x", "false_alarm", 0),
        "case_hp_pump_1_x_false_alarm_1"
    );
    assert_eq!(
        calibration_event_id("c", "missed_cavitation", 9),
        "c_missed_cavitation_10"
    );
    assert_eq!(
        calibration_review_reason("false_alarm"),
        "false_alarm feedback requires confidence calibration review"
    );
}

#[test]
fn threshold_proposal_needs_enough_evidence() {
    assert!(!proposal_ready(2, 3));
    assert!(proposal_ready(3, 3));
    assert!(proposal_ready(4, 3));
    assert!(!proposal_ready(0, 0));
    assert!(proposal_ready(1, 0));
    assert_eq!(threshold_status(true, "requires_review"), "requires_review");
    assert_eq!(threshold_status(false, "requires_review"), "collecting_evidence");
}

#[test]
fn every_default_item_has_its_own_order() {
    let items = default_checklist_items();
    for (index, item) in items.iter().enumerate() {
        assert_eq!(checklist_item_order(item.item_id), index);
        assert_eq!(checklist_item_text(item.item_id), Some(item.item_text));
    }
}
