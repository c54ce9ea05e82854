//! Checks that the configured source bundle is the expected, source-backed one.
use crate::explanation_service::opt_text;
use crate::output_guard::{reason_if, texts};
use crate::text::{str_eq, to_string};
use vstd::prelude::*;

verus! {

/// What the source-bundle check reads from the loaded configuration.
#[derive(Debug, Clone)]
pub struct SourceBundleFacts {
    /// The asset identifier of the asset configuration.
    pub asset_id: String,
    /// The `asset_id` text of the source spec document, if it has one.
    pub source_spec_asset_id: Option<String>,
    /// The `asset_id` text of the pump curve document, if it has one.
    pub pump_curve_asset_id: Option<String>,
    /// The `curve_policy` text of the pump curve document, if it has one.
    pub curve_policy: Option<String>,
    /// The `demo_data_policy` text of the source spec document, if it has one.
    pub demo_data_policy: Option<String>,
    /// The expected NPSHr is exactly 19.0 m.
    pub npshr_is_expected: bool,
    /// The expected specific gravity is exactly 1.03.
    pub specific_gravity_is_expected: bool,
}

/// The issues found in a source bundle, in the order they are checked.
pub open spec fn source_bundle_issues(f: SourceBundleFacts) -> Seq<Seq<char>> {
    reason_if(f.asset_id@ != "hp_pump_1"@, "unexpected asset id "@ + f.asset_id@) + reason_if(
        opt_text(f.source_spec_asset_id) != Some(f.asset_id@),
        "source spec asset_id does not match asset config"@,
    ) + reason_if(
        opt_text(f.pump_curve_asset_id) != Some(f.asset_id@),
        "pump curve asset_id does not match asset config"@,
    ) + reason_if(
        opt_text(f.curve_policy) != Some(
            "single_source_design_point_no_fabricated_interpolation"@,
        ),
        "pump curve policy is not the expected single-source design-point policy"@,
    ) + reason_if(
        opt_text(f.demo_data_policy) != Some("synthetic_demo_profile_not_for_operational_use"@),
        "source spec policy must mark the public profile as synthetic demo data"@,
    ) + reason_if(!f.npshr_is_expected, "expected NPSHr must be 19.0 m for this demo asset"@)
        + reason_if(
        !f.specific_gravity_is_expected,
        "expected specific gravity must be 1.03 for this demo asset"@,
    )
}

/// Whether an optional text is present and equal to `expected`.
fn opt_eq(value: &Option<String>, expected: &str) -> (r: bool)
    ensures
        r == (opt_text(*value) == Some(expected@)),
{
    match value {
        Some(v) => str_eq(v.as_str(), expected),
        None => false,
    }
}

/// Appends `issue` when `cond` holds.
fn push_issue_if(issues: &mut Vec<String>, cond: bool, issue: String)
    ensures
        texts(final(issues)@) == texts(old(issues)@) + reason_if(cond, issue@),
{
    let ghost before = issues@;
    if cond {
        issues.push(issue);
    }
    proof {
        assert(texts(issues@) =~= texts(before) + reason_if(cond, issue@));
    }
}

/// The issues of a source bundle; an empty list means the bundle is the expected one.
pub fn validate_source_bundle(facts: &SourceBundleFacts) -> (issues: Vec<String>)
    ensures
        texts(issues@) == source_bundle_issues(*facts),
{
    let mut issues: Vec<String> = Vec::new();
    proof {
        assert(texts(issues@) =~= Seq::empty());
    }
    let asset = facts.asset_id.as_str();
    push_issue_if(
        &mut issues,
        !str_eq(asset, "hp_pump_1"),
        to_string("unexpected asset id ").concat(asset),
    );
    push_issue_if(
        &mut issues,
        !opt_eq(&facts.source_spec_asset_id, asset),
        to_string("source spec asset_id does not match asset config"),
    );
    push_issue_if(
        &mut issues,
        !opt_eq(&facts.pump_curve_asset_id, asset),
        to_string("pump curve asset_id does not match asset config"),
    );
    push_issue_if(
        &mut issues,
        !opt_eq(&facts.curve_policy, "single_source_design_point_no_fabricated_interpolation"),
        to_string("pump curve policy is not the expected single-source design-point policy"),
    );
    push_issue_if(
        &mut issues,
        !opt_eq(&facts.demo_data_policy, "synthetic_demo_profile_not_for_operational_use"),
        to_string("source spec policy must mark the public profile as synthetic demo data"),
    );
    push_issue_if(
        &mut issues,
        !facts.npshr_is_expected,
        to_string("expected NPSHr must be 19.0 m for this demo asset"),
    );
    push_issue_if(
        &mut issues,
        !facts.specific_gravity_is_expected,
        to_string("expected specific gravity must be 1.03 for this demo asset"),
    );
    proof {
        assert(texts(issues@) =~= source_bundle_issues(*facts));
    }
    issues
}

} // verus!
