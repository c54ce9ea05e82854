//! How an explanation is chosen: the runner's output is shown only when it
//! passes the output guard; in every other case the deterministic template
//! text is shown and the fallback is recorded.
use crate::mistral_runner::RunnerAvailability;
use crate::output_guard::{guard_output, guard_reasons, texts};
use crate::schemas::RiskLevel;
use crate::text::{to_string, trim};
use vstd::prelude::*;

verus! {

/// The explanation that is shown, and how it was arrived at.
#[derive(Debug, Clone)]
pub struct ExplanationOutcome {
    pub source: String,
    /// Whether the runner was available.
    pub llm_available: bool,
    pub raw_output: Option<String>,
    pub guarded_output: String,
    pub guard_passed: bool,
    pub fallback_used: bool,
    pub guard_reasons: Vec<String>,
}

/// What happened when the runner was asked for an explanation.
#[derive(Debug, Clone)]
pub enum RunOutcome {
    /// The runner was not started.
    NotRun,
    /// The runner finished and printed this text (already cleaned).
    Output(String),
    /// The runner failed; the message describes the failure.
    Failed(String),
}

/// The outcome shows the template text, records the given reasons and no raw output.
pub open spec fn is_template_fallback(
    o: ExplanationOutcome,
    template: Seq<char>,
    reasons: Seq<Seq<char>>,
) -> bool {
    &&& o.source@ == "template"@
    &&& o.raw_output is None
    &&& o.guarded_output@ == template
    &&& !o.guard_passed
    &&& o.fallback_used
    &&& texts(o.guard_reasons@) == reasons
}

/// The outcome for a raw output judged by the guard: the trimmed output when it
/// passed, the template text with the guard's reasons when it did not.
pub open spec fn judged_outcome(
    o: ExplanationOutcome,
    raw: Seq<char>,
    level: RiskLevel,
    numeric_reason: Option<Seq<char>>,
    template: Seq<char>,
) -> bool {
    let reasons = guard_reasons(raw, level, numeric_reason);
    &&& o.raw_output matches Some(r) && r@ == raw
    &&& if reasons.len() == 0 {
        &&& o.source@ == "mistralrs"@
        &&& o.guarded_output@ == trim(raw)
        &&& o.guard_passed
        &&& !o.fallback_used
        &&& o.guard_reasons@.len() == 0
    } else {
        &&& o.source@ == "template"@
        &&& o.guarded_output@ == template
        &&& !o.guard_passed
        &&& o.fallback_used
        &&& texts(o.guard_reasons@) == reasons
    }
}

/// The optional text as a text option.
pub open spec fn opt_text(s: Option<String>) -> Option<Seq<char>> {
    match s {
        Some(t) => Some(t@),
        None => None,
    }
}

/// The template explanation, recording `guard_reasons` as the reasons for the fallback.
pub fn fallback_outcome(
    availability: &RunnerAvailability,
    template: String,
    guard_reasons: Vec<String>,
) -> (o: ExplanationOutcome)
    ensures
        is_template_fallback(o, template@, texts(guard_reasons@)),
        o.llm_available == availability.available,
{
    ExplanationOutcome {
        source: to_string("template"),
        llm_available: availability.available,
        raw_output: None,
        guarded_output: template,
        guard_passed: false,
        fallback_used: true,
        guard_reasons,
    }
}

/// The reason recorded when the runner failed.
pub fn runner_error_reason(message: &str) -> (r: String)
    ensures
        r@ == "runner_error:"@ + message@,
{
    to_string("runner_error:").concat(message)
}

/// Judges a raw runner output and chooses what is shown: the trimmed output
/// when the guard passes it, otherwise the template text with the guard's
/// reasons. The raw output is kept for the record either way.
pub fn explain_from_raw_output(
    availability: &RunnerAvailability,
    raw_output: String,
    risk_level: &RiskLevel,
    numeric_reason: Option<String>,
    template: String,
) -> (o: ExplanationOutcome)
    ensures
        judged_outcome(o, raw_output@, *risk_level, opt_text(numeric_reason), template@),
        o.llm_available == availability.available,
{
    let ghost numeric = opt_text(numeric_reason);
    let guard = guard_output(raw_output.as_str(), risk_level, numeric_reason);
    if guard.passed {
        let shown = match guard.guarded_output {
            Some(g) => g,
            None => String::new(),
        };
        ExplanationOutcome {
            source: to_string("mistralrs"),
            llm_available: availability.available,
            raw_output: Some(raw_output),
            guarded_output: shown,
            guard_passed: true,
            fallback_used: false,
            guard_reasons: Vec::new(),
        }
    } else {
        ExplanationOutcome {
            source: to_string("template"),
            llm_available: availability.available,
            raw_output: Some(raw_output),
            guarded_output: template,
            guard_passed: false,
            fallback_used: true,
            guard_reasons: guard.reasons,
        }
    }
}

/// Chooses the explanation after the runner step. The runner's result counts
/// only when the runner was available: otherwise, or when it was not started,
/// the template text is shown with the availability reason. A failed run shows
/// the template text with the failure, and a printed output is judged by the guard.
pub fn explanation_outcome(
    availability: &RunnerAvailability,
    run: RunOutcome,
    risk_level: &RiskLevel,
    numeric_reason: Option<String>,
    template: String,
) -> (o: ExplanationOutcome)
    ensures
        (!availability.available || run is NotRun) ==> is_template_fallback(
            o,
            template@,
            seq![availability.reason@],
        ),
        availability.available ==> (run matches RunOutcome::Failed(m) ==> is_template_fallback(
            o,
            template@,
            seq!["runner_error:"@ + m@],
        )),
        availability.available ==> (run matches RunOutcome::Output(raw) ==> judged_outcome(
            o,
            raw@,
            *risk_level,
            opt_text(numeric_reason),
            template@,
        )),
        // Whatever happens, the shown text is the template text or guarded runner output.
        o.fallback_used ==> o.guarded_output@ == template@,
        !o.fallback_used ==> availability.available,
        !o.fallback_used ==> (run matches RunOutcome::Output(raw) && guard_reasons(
            raw@,
            *risk_level,
            opt_text(numeric_reason),
        ).len() == 0 && o.guarded_output@ == trim(raw@)),
        o.guard_passed == !o.fallback_used,
        o.llm_available == availability.available,
{
    if !availability.available {
        return unavailable_outcome(availability, template);
    }
    match run {
        RunOutcome::NotRun => unavailable_outcome(availability, template),
        RunOutcome::Failed(message) => {
            let reasons = vec![runner_error_reason(message.as_str())];
            proof {
                assert(texts(reasons@) =~= seq!["runner_error:"@ + message@]);
            }
            fallback_outcome(availability, template, reasons)
        },
        RunOutcome::Output(raw) => explain_from_raw_output(
            availability,
            raw,
            risk_level,
            numeric_reason,
            template,
        ),
    }
}

/// The template explanation that records why the runner was not used.
fn unavailable_outcome(availability: &RunnerAvailability, template: String) -> (o:
    ExplanationOutcome)
    ensures
        is_template_fallback(o, template@, seq![availability.reason@]),
        o.llm_available == availability.available,
{
    let reasons = vec![availability.reason.clone()];
    proof {
        assert(texts(reasons@) =~= seq![availability.reason@]);
    }
    fallback_outcome(availability, template, reasons)
}

/// A template fallback shows the template text under the source `template`,
/// keeps no raw output, and records that the guard did not pass and the
/// fallback was used; a judged output that passed is shown, trimmed, under the
/// source `mistralrs`, and one that did not is replaced by the template.
pub proof fn lemma_outcome_records(
    o: ExplanationOutcome,
    raw: Seq<char>,
    level: RiskLevel,
    numeric_reason: Option<Seq<char>>,
    template: Seq<char>,
    reasons: Seq<Seq<char>>,
)
    ensures
        is_template_fallback(o, template, reasons) ==> o.source@ == "template"@ && o.raw_output is None
            && o.guarded_output@ == template && !o.guard_passed && o.fallback_used,
        judged_outcome(o, raw, level, numeric_reason, template) && guard_reasons(
            raw,
            level,
            numeric_reason,
        ).len() == 0 ==> o.source@ == "mistralrs"@ && o.guarded_output@ == trim(raw)
            && o.guard_passed && !o.fallback_used,
        judged_outcome(o, raw, level, numeric_reason, template) && guard_reasons(
            raw,
            level,
            numeric_reason,
        ).len() > 0 ==> o.source@ == "template"@ && o.guarded_output@ == template
            && !o.guard_passed && o.fallback_used && texts(o.guard_reasons@) == guard_reasons(
            raw,
            level,
            numeric_reason,
        ),
        judged_outcome(o, raw, level, numeric_reason, template) ==> (o.raw_output matches Some(r)
            && r@ == raw),
{
}

} // verus!
