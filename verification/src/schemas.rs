//! Data types shared by the analysis, explanation and API layers.
use vstd::prelude::*;

verus! {

/// The deterministic risk classification of one observation snapshot.
#[derive(Debug, Clone, Copy, PartialEq, Eq, Structural)]
pub enum RiskLevel {
    Low,
    Medium,
    High,
    Unknown,
}

/// Health report of the configured asset and its source bundle.
#[derive(Debug, Clone)]
pub struct HealthSummary {
    pub ok: bool,
    pub asset_id: String,
    pub source_bundle_issues: Vec<String>,
    pub runtime: String,
}

/// The explanation attached to an analysis: its source, its text, and whether
/// it passed the output guard or fell back to the deterministic template.
#[derive(Debug, Clone)]
pub struct Explanation {
    pub source: String,
    pub text: String,
    pub guard_passed: bool,
    pub fallback_used: bool,
    pub prompt_hash: String,
    pub guard_reasons: Vec<String>,
}

/// The upper-case label of a risk level.
pub open spec fn risk_word(level: RiskLevel) -> Seq<char> {
    match level {
        RiskLevel::Low => "LOW"@,
        RiskLevel::Medium => "MEDIUM"@,
        RiskLevel::High => "HIGH"@,
        RiskLevel::Unknown => "UNKNOWN"@,
    }
}

/// The lower-case label of a risk level.
pub open spec fn risk_word_lower(level: RiskLevel) -> Seq<char> {
    match level {
        RiskLevel::Low => "low"@,
        RiskLevel::Medium => "medium"@,
        RiskLevel::High => "high"@,
        RiskLevel::Unknown => "unknown"@,
    }
}

/// The upper-case label of a risk level, as written in prompts and explanations.
pub fn risk_label(risk_level: &RiskLevel) -> (label: &'static str)
    ensures
        label@ == risk_word(*risk_level),
{
    match risk_level {
        RiskLevel::Low => "LOW",
        RiskLevel::Medium => "MEDIUM",
        RiskLevel::High => "HIGH",
        RiskLevel::Unknown => "UNKNOWN",
    }
}

/// The lower-case label of a risk level.
pub fn risk_label_lower(risk_level: &RiskLevel) -> (label: &'static str)
    ensures
        label@ == risk_word_lower(*risk_level),
{
    match risk_level {
        RiskLevel::Low => "low",
        RiskLevel::Medium => "medium",
        RiskLevel::High => "high",
        RiskLevel::Unknown => "unknown",
    }
}

} // verus!
