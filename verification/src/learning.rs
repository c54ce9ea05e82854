//! Operator feedback and what it changes: validation of a feedback entry, the
//! calibration events it records, and when a threshold proposal is made.
use crate::checklist::{checklist_item_text, checklist_position};
use crate::output_guard::str_texts;
use crate::text::{decimal, decimal_string, to_string};
use vstd::prelude::*;

verus! {

/// The error for feedback that names a checklist item that does not exist.
pub open spec fn solved_item_error_of(solved_item_id: Option<Seq<char>>) -> Option<Seq<char>> {
    match solved_item_id {
        Some(id) => if checklist_position(id) is None {
            Some("unknown checklist item_id "@ + id)
        } else {
            None
        },
        None => None,
    }
}

/// Rejects feedback whose solved item is not a checklist item; feedback that
/// names no item, or a known item, is accepted.
pub fn validate_solved_item(solved_item_id: Option<&str>) -> (error: Option<String>)
    ensures
        match solved_item_error_of(
            match solved_item_id {
                Some(s) => Some(s@),
                None => None,
            },
        ) {
            Some(e) => error matches Some(m) && m@ == e,
            None => error is None,
        },
{
    match solved_item_id {
        Some(item_id) => {
            if checklist_item_text(item_id).is_none() {
                Some(to_string("unknown checklist item_id ").concat(item_id))
            } else {
                None
            }
        },
        None => None,
    }
}

/// The calibration events one feedback entry records, in order.
pub open spec fn calibration_events_of(false_alarm: bool, missed_cavitation: bool) -> Seq<
    Seq<char>,
> {
    (if false_alarm {
        seq!["false_alarm"@]
    } else {
        Seq::empty()
    }) + (if missed_cavitation {
        seq!["missed_cavitation"@]
    } else {
        Seq::empty()
    })
}

/// The calibration events a feedback entry records: a false alarm, then a
/// missed cavitation, each when the operator reported it.
pub fn calibration_event_types(false_alarm: bool, missed_cavitation: bool) -> (r: Vec<
    &'static str,
>)
    ensures
        str_texts(r@) == calibration_events_of(false_alarm, missed_cavitation),
{
    let mut r: Vec<&'static str> = Vec::new();
    if false_alarm {
        r.push("false_alarm");
    }
    if missed_cavitation {
        r.push("missed_cavitation");
    }
    proof {
        assert(str_texts(r@) =~= calibration_events_of(false_alarm, missed_cavitation));
    }
    r
}

/// The identifier of a calibration event: the case, the event type and the
/// event's number among the case's events of that type, counted from 1.
pub open spec fn calibration_event_id_of(
    case_id: Seq<char>,
    event_type: Seq<char>,
    existing: nat,
) -> Seq<char> {
    case_id + "_"@ + event_type + "_"@ + decimal(existing + 1)
}

/// The identifier of the next calibration event of `event_type` for a case
/// that already has `existing` such events.
pub fn calibration_event_id(case_id: &str, event_type: &str, existing: u64) -> (id: String)
    requires
        existing < u64::MAX,
    ensures
        id@ == calibration_event_id_of(case_id@, event_type@, existing as nat),
{
    let number = decimal_string(existing + 1);
    to_string(case_id).concat("_").concat(event_type).concat("_").concat(number.as_str())
}

/// The reason recorded with a calibration event.
pub fn calibration_review_reason(event_type: &str) -> (reason: String)
    ensures
        reason@ == event_type@ + " feedback requires confidence calibration review"@,
{
    to_string(event_type).concat(" feedback requires confidence calibration review")
}

/// A threshold is proposed once enough confirmed cases support it, and never
/// without evidence.
pub open spec fn proposal_ready_of(evidence_count: nat, min_confirmed_cases: nat) -> bool {
    evidence_count >= min_confirmed_cases && evidence_count > 0
}

/// Whether the evidence supports a threshold proposal.
pub fn proposal_ready(evidence_count: usize, min_confirmed_cases: usize) -> (r: bool)
    ensures
        r == proposal_ready_of(evidence_count as nat, min_confirmed_cases as nat),
{
    evidence_count >= min_confirmed_cases && evidence_count > 0
}

/// The status of the threshold: the configured review status once a value is
/// proposed, else `collecting_evidence`.
pub fn threshold_status(proposed: bool, configured_status: &str) -> (status: String)
    ensures
        proposed ==> status@ == configured_status@,
        !proposed ==> status@ == "collecting_evidence"@,
{
    if proposed {
        to_string(configured_status)
    } else {
        to_string("collecting_evidence")
    }
}

/// No threshold is proposed without evidence or before the configured number
/// of confirmed cases; once that many support it, it is.
pub proof fn lemma_proposal_needs_evidence(evidence_count: nat, min_confirmed_cases: nat)
    ensures
        !proposal_ready_of(0, min_confirmed_cases),
        evidence_count < min_confirmed_cases ==> !proposal_ready_of(
            evidence_count,
            min_confirmed_cases,
        ),
        evidence_count >= min_confirmed_cases && evidence_count > 0 ==> proposal_ready_of(
            evidence_count,
            min_confirmed_cases,
        ),
{
}

/// A feedback entry records a `false_alarm` event when it reports a false
/// alarm and a `missed_cavitation` event when it reports a missed cavitation,
/// in that order, and nothing else.
pub proof fn lemma_calibration_events(false_alarm: bool, missed_cavitation: bool)
    ensures
        calibration_events_of(false_alarm, missed_cavitation).len() == (if false_alarm {
            1int
        } else {
            0
        }) + (if missed_cavitation {
            1int
        } else {
            0
        }),
        false_alarm ==> calibration_events_of(false_alarm, missed_cavitation)[0] == "false_alarm"@,
        missed_cavitation ==> calibration_events_of(false_alarm, missed_cavitation).last()
            == "missed_cavitation"@,
{
}

} // verus!
