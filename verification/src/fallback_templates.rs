//! The deterministic template text used whenever no guarded model output is shown.
use crate::schemas::Explanation;
use vstd::prelude::*;

verus! {

/// The deterministic template text of an analysis.
pub fn template_text(explanation: &Explanation) -> (text: String)
    ensures
        text@ == explanation.text@,
{
    explanation.text.clone()
}

/// The note shown when template explanations are in use.
pub fn unavailable_message() -> (m: &'static str)
    ensures
        m@ == "Template explanations are active; mistral.rs is optional and not required for deterministic decisions."@,
{
    "Template explanations are active; mistral.rs is optional and not required for deterministic decisions."
}

} // verus!
