use asset_agent::explanation_service::{explain_from_raw_output, explanation_outcome, RunOutcome};
use asset_agent::fallback_templates::{template_text, unavailable_message};
use asset_agent::mistral_runner::{
    clean_stdout, default_runner_args, env_flag_enabled, expand_runner_arg, expand_runner_args,
    runner_args, runner_availability, split_whitespace_words,
};
use asset_agent::output_guard::{
    guard_human_limitations, guard_no_autonomous_control, guard_no_certainty, guard_output,
    is_small_integer_token, number_tokens_of,
};
use asset_agent::prompt_builder::{build_prompt, format_prompt_hash, hex_lower_string, sha256_hex, PromptInput};
use asset_agent::schemas::{risk_label, Explanation, RiskLevel};

fn template() -> String {
    "hp_pump_1 has HIGH suspected low-NPSH cavitation risk. Human inspection should verify sensor health.".to_string()
}

fn high_risk_prompt() -> PromptInput {
    PromptInput {
        asset_id: "hp_pump_1".to_string(),
        risk_level: RiskLevel::High,
        recommended_action: "replace".to_string(),
        lowest_cost_action: "defer".to_string(),
    }
}

#[test]
fn clean_stdout_removes_cli_stats() {
    let output = clean_stdout("Generated text.\n\nStats:\nDecode: 10 tokens");
    assert_eq!(output, "Generated text.");
}

#[test]
fn clean_stdout_removes_cli_log_preamble() {
    let output =
        clean_stdout("2026 INFO load\nModel loaded, running one-shot mode...\nGenerated text.");
    assert_eq!(output, "Generated text.");
}

#[test]
fn clean_stdout_keeps_text_after_last_preamble() {
    let output = clean_stdout(
        "Model loaded, running one-shot mode...\nfirst\nModel loaded, running one-shot mode...\n  second  \nStats:\nx\nStats:\ny",
    );
    assert_eq!(output, "second");
}

#[test]
fn clean_stdout_without_markers_only_trims() {
    assert_eq!(clean_stdout("\t plain text \n"), "plain text");
    assert_eq!(clean_stdout(""), "");
}

#[test]
fn guard_accepts_safe_explanation() {
    let output = "hp_pump_1 has HIGH suspected cavitation risk. Recommended action is replace, while the lowest-cost action is defer. Human inspection should verify sensor health and pump curve limitations before any maintenance action.";
    let guard = guard_output(output, &RiskLevel::High, None);
    assert!(guard.passed, "{:?}", guard.reasons);
    assert_eq!(guard.guarded_output.as_deref(), Some(output));
}

#[test]
fn guard_rejects_certainty_and_commands() {
    let output =
        "hp_pump_1 has HIGH confirmed cavitation and will fail. Automatically open the valve.";
    let guard = guard_output(output, &RiskLevel::High, None);
    assert!(!guard.passed);
    assert!(guard.reasons.contains(&"claims_certainty".to_string()));
    assert!(guard
        .reasons
        .contains(&"recommends_autonomous_plant_control".to_string()));
}

#[test]
fn guard_rejects_changed_risk_and_invented_values() {
    let output = "hp_pump_1 has LOW risk with suction pressure 9.9 bar. Human inspection should verify sensor limitations.";
    let tokens = number_tokens_of(output);
    assert_eq!(tokens, vec!["1", "9.9"]);
    assert!(is_small_integer_token(&tokens[0]));
    assert!(!is_small_integer_token(&tokens[1]));
    let guard = guard_output(
        output,
        &RiskLevel::High,
        Some("invents_numeric_value_9.900000".to_string()),
    );
    assert!(!guard.passed);
    assert!(guard
        .reasons
        .iter()
        .any(|reason| reason.starts_with("changes_risk_level")));
    assert!(guard
        .reasons
        .iter()
        .any(|reason| reason.starts_with("invents_numeric_value")));
}

#[test]
fn guard_reports_reasons_in_order() {
    let guard = guard_output("   ", &RiskLevel::Medium, None);
    assert!(!guard.passed);
    assert_eq!(guard.guarded_output, None);
    assert_eq!(
        guard.reasons,
        vec![
            "empty_output".to_string(),
            "omits_deterministic_risk_level".to_string(),
            "omits_human_inspection_limitations".to_string(),
        ]
    );
}

#[test]
fn guard_rejects_overlong_output() {
    let mut text = "HIGH risk. Human review of sensor limitations. ".to_string();
    while text.len() <= 2500 {
        text.push_str("padding ");
    }
    let guard = guard_output(&text, &RiskLevel::High, None);
    assert_eq!(guard.reasons, vec!["output_too_long".to_string()]);
}

#[test]
fn guard_lists_every_changed_risk_level() {
    let text = "low risk, risk level medium, risk is unknown; human must verify sensor";
    let guard = guard_output(text, &RiskLevel::High, None);
    assert_eq!(
        guard.reasons,
        vec![
            "omits_deterministic_risk_level".to_string(),
            "changes_risk_level_to_low".to_string(),
            "changes_risk_level_to_medium".to_string(),
            "changes_risk_level_to_unknown".to_string(),
        ]
    );
}

#[test]
fn guard_is_case_insensitive() {
    let guard = guard_output(
        "HIGH risk. GUARANTEED CAVITATION. Human inspection of sensor data.",
        &RiskLevel::High,
        None,
    );
    assert_eq!(guard.reasons, vec!["claims_certainty".to_string()]);
}

#[test]
fn guard_helpers_append_reasons() {
    let mut reasons = vec!["x".to_string()];
    guard_no_certainty("this will cavitate", &mut reasons);
    guard_no_autonomous_control("please stop the pump", &mut reasons);
    guard_human_limitations("a human will review", &mut reasons);
    assert_eq!(
        reasons,
        vec![
            "x".to_string(),
            "claims_certainty".to_string(),
            "recommends_autonomous_plant_control".to_string(),
            "omits_human_inspection_limitations".to_string(),
        ]
    );
    let mut clean: Vec<String> = Vec::new();
    guard_no_certainty("suspected cavitation", &mut clean);
    guard_no_autonomous_control("human review only", &mut clean);
    guard_human_limitations("human inspection should verify the pump curve", &mut clean);
    assert!(clean.is_empty());
}

#[test]
fn unavailable_runner_returns_template_fallback() {
    let availability = runner_availability(false, false, false);
    let trace = explanation_outcome(
        &availability,
        RunOutcome::NotRun,
        &RiskLevel::High,
        None,
        template(),
    );
    assert_eq!(trace.source, "template");
    assert!(!availability.available);
    assert!(trace.fallback_used);
    assert_eq!(trace.guarded_output, template());
    assert_eq!(trace.guard_reasons, vec!["disabled"]);
    assert!(!trace.llm_available);
}

#[test]
fn rejected_raw_output_returns_template_fallback() {
    let availability = runner_availability(true, true, true);
    let trace = explain_from_raw_output(
        &availability,
        "hp_pump_1 has LOW risk and confirmed cavitation. Automatically stop the pump.".to_string(),
        &RiskLevel::High,
        None,
        template(),
    );
    assert_eq!(trace.source, "template");
    assert!(trace.llm_available);
    assert!(trace.fallback_used);
    assert!(!trace.guard_passed);
    assert!(trace
        .guard_reasons
        .iter()
        .any(|reason| reason.starts_with("changes_risk_level")));
    assert_eq!(trace.guarded_output, template());
}

#[test]
fn accepted_raw_output_is_shown_trimmed() {
    let raw = "  hp_pump_1 has HIGH suspected cavitation risk; human inspection must verify sensor limitations.\n";
    let availability = runner_availability(true, true, true);
    let trace = explain_from_raw_output(&availability, raw.to_string(), &RiskLevel::High, None, template());
    assert!(trace.llm_available);
    assert_eq!(trace.source, "mistralrs");
    assert!(trace.guard_passed);
    assert!(!trace.fallback_used);
    assert_eq!(trace.raw_output.as_deref(), Some(raw));
    assert_eq!(trace.guarded_output, raw.trim());
    assert!(trace.guard_reasons.is_empty());
}

#[test]
fn failed_runner_records_the_error() {
    let availability = runner_availability(true, true, true);
    let trace = explanation_outcome(
        &availability,
        RunOutcome::Failed("mistral.rs runner timed out after 1 ms".to_string()),
        &RiskLevel::High,
        None,
        template(),
    );
    assert_eq!(trace.guarded_output, template());
    assert_eq!(
        trace.guard_reasons,
        vec!["runner_error:mistral.rs runner timed out after 1 ms".to_string()]
    );
}

#[test]
fn runner_availability_names_first_missing_condition() {
    assert_eq!(runner_availability(false, true, true).reason, "disabled");
    assert_eq!(runner_availability(true, false, true).reason, "model_path_missing");
    assert_eq!(runner_availability(true, true, false).reason, "binary_missing");
    let ok = runner_availability(true, true, true);
    assert!(ok.available);
    assert_eq!(ok.reason, "available");
}

#[test]
fn runner_args_fill_placeholders_in_order() {
    let expanded = expand_runner_arg("{model_dir}/{model_file}", "/m/model.gguf", "/m", "model.gguf", "hi");
    assert_eq!(expanded, "/m/model.gguf");
    let prompt_untouched = expand_runner_arg("{prompt}", "p", "d", "f", "say {model_path}");
    assert_eq!(prompt_untouched, "say {model_path}");
    let args = expand_runner_args(&default_runner_args(), "/m/x.gguf", "/m", "x.gguf", "go");
    assert_eq!(
        args,
        vec!["run", "-m", "/m", "--format", "gguf", "-f", "x.gguf", "--cpu", "-i", "go"]
    );
}

#[test]
fn runner_args_split_configured_line() {
    assert_eq!(split_whitespace_words("  run   -m\t{model_dir} \n"), vec!["run", "-m", "{model_dir}"]);
    assert!(split_whitespace_words("   ").is_empty());
    assert_eq!(runner_args(Some("a b")), vec!["a", "b"]);
    assert_eq!(runner_args(None).len(), 10);
}

#[test]
fn env_flag_accepts_documented_values() {
    for value in ["1", "true", "TRUE", "yes", "YES"] {
        assert!(env_flag_enabled(Some(value)));
    }
    for value in ["0", "True", "no", ""] {
        assert!(!env_flag_enabled(Some(value)));
    }
    assert!(!env_flag_enabled(None));
}

#[test]
fn prompt_hash_is_stable_sha256() {
    let first = build_prompt(&high_risk_prompt());
    let second = build_prompt(&high_risk_prompt());
    assert_eq!(first.prompt_hash, second.prompt_hash);
    assert!(first.prompt_hash.starts_with("sha256:"));
    assert!(first.prompt_text.contains("HIGH suspected"));
    assert!(first.prompt_text.contains("Human inspection"));
}

#[test]
fn prompt_hash_is_the_sha256_of_the_prompt_text() {
    let prompt = build_prompt(&high_risk_prompt());
    assert_eq!(
        prompt.prompt_text,
        "Output exactly: hp_pump_1 has HIGH suspected low-NPSH cavitation risk; replace is recommended; defer is lowest-cost; Human inspection must verify sensor and pump curve limitations; no autonomous plant commands."
    );
    assert_eq!(
        prompt.prompt_hash,
        "sha256:df5790c6bcf1d2e0c58e05f8b7c1c18c121922300967753a2b1f6cdab80d7276"
    );
    assert_eq!(
        sha256_hex(b"abc"),
        "ba7816bf8f01cfea414140de5dae2223b00361a396177a9cb410ff61f20015ad"
    );
}

#[test]
fn hex_encoding_is_lower_case_two_digits_per_byte() {
    assert_eq!(hex_lower_string(&[0x00, 0x0f, 0xa0, 0xff]), "000fa0ff");
    assert_eq!(format_prompt_hash(&[0xab]), "sha256:ab");
    assert_eq!(hex_lower_string(&[]), "");
}

#[test]
fn risk_labels_are_upper_case() {
    assert_eq!(risk_label(&RiskLevel::Low), "LOW");
    assert_eq!(risk_label(&RiskLevel::Medium), "MEDIUM");
    assert_eq!(risk_label(&RiskLevel::High), "HIGH");
    assert_eq!(risk_label(&RiskLevel::Unknown), "UNKNOWN");
}

#[test]
fn template_text_and_unavailable_message() {
    let explanation = Explanation {
        source: "template".to_string(),
        text: "text".to_string(),
        guard_passed: true,
        fallback_used: true,
        prompt_hash: String::new(),
        guard_reasons: Vec::new(),
    };
    assert_eq!(template_text(&explanation), "text");
    assert!(unavailable_message().starts_with("Template explanations are active"));
}

#[test]
fn number_tokens_are_maximal_runs_with_a_digit() {
    let tokens = number_tokens_of("pressure 9.9 bar, margin -1.25 m; 3 of 100. Stage - 7 at 12-3");
    assert_eq!(tokens, vec!["9.9", "-1.25", "3", "100.", "7", "12", "3"]);
    assert!(number_tokens_of("no numbers - here . at all").is_empty());
    assert_eq!(number_tokens_of("42"), vec!["42"]);
}

#[test]
fn small_integer_tokens_are_whole_numbers_up_to_100() {
    assert!(is_small_integer_token("0"));
    assert!(is_small_integer_token("7"));
    assert!(is_small_integer_token("100"));
    assert!(is_small_integer_token("007"));
    assert!(is_small_integer_token("-0"));
    assert!(!is_small_integer_token("101"));
    assert!(!is_small_integer_token("-1"));
    assert!(!is_small_integer_token("9.9"));
    assert!(!is_small_integer_token("5."));
    assert!(!is_small_integer_token("-"));
    assert!(!is_small_integer_token(""));
    assert!(!is_small_integer_token("99999999999999999999999"));
}

#[test]
fn cleaned_stdout_is_settled() {
    let raw = "log\nModel loaded, running one-shot mode...\n x \nModel loaded, running one-shot mode...\n  Text here. \nStats:\nDecode";
    let once = clean_stdout(raw);
    assert_eq!(once, "Text here.");
    assert_eq!(clean_stdout(&once), once);
    assert!(!once.contains("\nStats:"));
}

#[test]
fn prompt_hash_has_sixty_four_hex_digits() {
    let prompt = build_prompt(&high_risk_prompt());
    assert_eq!(prompt.prompt_hash.len(), 71);
    assert!(prompt.prompt_hash[7..]
        .chars()
        .all(|c| c.is_ascii_digit() || ('a'..='f').contains(&c)));
}
