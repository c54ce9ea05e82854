use asset_agent::api::{
    bind_refused, check_asset_scope, cors_origins, explain_source, resolve_snapshot_query,
    token_authorized, CorsOrigins, ExplainSource, SnapshotQuery,
};
use asset_agent::cli::{optional_flag, parse_command, required_flag, CliCommand};

fn args(items: &[&str]) -> Vec<String> {
    items.iter().map(|s| s.to_string()).collect()
}

#[test]
fn token_checks() {
    assert!(token_authorized(None, None, None));
    assert!(!token_authorized(None, None, Some("s3")));
    assert!(token_authorized(Some("Bearer s3"), None, Some("s3")));
    assert!(!token_authorized(Some("bearer s3"), None, Some("s3")));
    assert!(token_authorized(None, Some("s3"), Some("s3")));
    assert!(!token_authorized(Some("Bearer x"), Some("y"), Some("s3")));
}

#[test]
fn public_bind_needs_token_or_opt_in() {
    assert!(bind_refused(true, false, false));
    assert!(!bind_refused(true, true, false));
    assert!(!bind_refused(true, false, true));
    assert!(!bind_refused(false, false, false));
}

#[test]
fn cors_origin_parsing() {
    assert!(matches!(cors_origins(" * "), CorsOrigins::Any));
    match cors_origins("http://127.0.0.1:3000, http://localhost:3000,, ") {
        CorsOrigins::List(list) => {
            assert_eq!(list, vec!["http://127.0.0.1:3000", "http://localhost:3000"])
        }
        CorsOrigins::Any => panic!("expected a list"),
    }
}

#[test]
fn asset_scope_and_snapshot_query() {
    assert!(check_asset_scope("hp_pump_1", "hp_pump_1").is_ok());
    assert_eq!(
        check_asset_scope("p2", "hp_pump_1").unwrap_err(),
        "unsupported asset_id p2; this MVP is scoped to hp_pump_1"
    );
    let default_query = SnapshotQuery { asset_id: None, as_of: None };
    assert_eq!(resolve_snapshot_query(&default_query, "hp_pump_1").unwrap(), "trace:last");
    let named = SnapshotQuery {
        asset_id: Some("hp_pump_1".to_string()),
        as_of: Some("trace:first".to_string()),
    };
    assert_eq!(resolve_snapshot_query(&named, "hp_pump_1").unwrap(), "trace:first");
    let other = SnapshotQuery { asset_id: Some("x".to_string()), as_of: None };
    assert!(resolve_snapshot_query(&other, "hp_pump_1").is_err());
}

#[test]
fn flags_and_commands() {
    let a = args(&["--trace", "t.jsonl", "--as-of", "trace:first", "--output"]);
    assert_eq!(optional_flag(&a, "--trace").as_deref(), Some("t.jsonl"));
    assert_eq!(optional_flag(&a, "--output"), None);
    assert_eq!(required_flag(&a, "--as-of").unwrap(), "trace:first");
    assert_eq!(required_flag(&a, "--output").unwrap_err(), "missing required flag --output");
    assert_eq!(parse_command(&args(&["cli"])).unwrap(), CliCommand::ConfigCheck);
    assert_eq!(parse_command(&args(&["cli", "replay"])).unwrap(), CliCommand::Replay);
    assert_eq!(parse_command(&args(&["cli", "nope"])).unwrap_err(), "unknown command: nope");
}

#[test]
fn explain_request_needs_snapshot_or_case() {
    assert!(matches!(
        explain_source(true, Some("c1".to_string())),
        Ok(ExplainSource::Snapshot { case_id: Some(ref c) }) if c == "c1"
    ));
    assert!(matches!(
        explain_source(true, None),
        Ok(ExplainSource::Snapshot { case_id: None })
    ));
    assert!(matches!(
        explain_source(false, Some("c2".to_string())),
        Ok(ExplainSource::StoredCase { ref case_id }) if case_id == "c2"
    ));
    assert_eq!(
        explain_source(false, None).err().as_deref(),
        Some("request must include snapshot or case_id")
    );
}
