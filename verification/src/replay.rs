//! Choosing one snapshot of a replay trace by an as-of selector.
use crate::text::{str_eq, to_string};
use vstd::prelude::*;

verus! {

/// The two timestamps of a snapshot that a selector can name.
#[derive(Debug, Clone)]
pub struct SnapshotStamp {
    pub timestamp: String,
    pub as_of_timestamp: String,
}

/// Why no snapshot was selected.
#[derive(Debug, Clone)]
pub enum SelectError {
    AsOfNotFound { selector: String },
}

/// The first snapshot at or after `i` whose as-of time or timestamp equals `selector`.
pub open spec fn stamp_index_from(stamps: Seq<SnapshotStamp>, selector: Seq<char>, i: nat) -> Option<
    nat,
>
    decreases stamps.len() - i,
{
    if i >= stamps.len() {
        None
    } else if stamps[i as int].as_of_timestamp@ == selector || stamps[i as int].timestamp@
        == selector {
        Some(i)
    } else {
        stamp_index_from(stamps, selector, i + 1)
    }
}

/// The position a selector picks: `trace:last` the last snapshot, `trace:first`
/// the first, anything else the first snapshot whose as-of time or timestamp equals it.
pub open spec fn selected_position(stamps: Seq<SnapshotStamp>, selector: Seq<char>) -> Option<nat> {
    if selector == "trace:last"@ {
        if stamps.len() > 0 {
            Some((stamps.len() - 1) as nat)
        } else {
            None
        }
    } else if selector == "trace:first"@ {
        if stamps.len() > 0 {
            Some(0)
        } else {
            None
        }
    } else {
        stamp_index_from(stamps, selector, 0)
    }
}

/// The position of the snapshot that `selector` picks.
pub fn select_as_of(stamps: &[SnapshotStamp], selector: &str) -> (r: Result<usize, SelectError>)
    ensures
        match selected_position(stamps@, selector@) {
            Some(i) => r == Ok::<usize, SelectError>(i as usize),
            None => r matches Err(SelectError::AsOfNotFound { selector: s }) && s@ == selector@,
        },
        r matches Ok(i) ==> i < stamps@.len(),
{
    if str_eq(selector, "trace:last") {
        if stamps.len() > 0 {
            return Ok(stamps.len() - 1);
        }
        return Err(SelectError::AsOfNotFound { selector: to_string(selector) });
    }
    if str_eq(selector, "trace:first") {
        if stamps.len() > 0 {
            return Ok(0);
        }
        return Err(SelectError::AsOfNotFound { selector: to_string(selector) });
    }
    let mut i: usize = 0;
    while i < stamps.len()
        invariant
            i <= stamps.len(),
            stamp_index_from(stamps@, selector@, 0) == stamp_index_from(stamps@, selector@, i as nat),
            selector@ != "trace:last"@,
            selector@ != "trace:first"@,
        decreases stamps.len() - i,
    {
        if str_eq(stamps[i].as_of_timestamp.as_str(), selector) || str_eq(
            stamps[i].timestamp.as_str(),
            selector,
        ) {
            return Ok(i);
        }
        i = i + 1;
    }
    Err(SelectError::AsOfNotFound { selector: to_string(selector) })
}

/// Selecting `trace:last` from a non-empty trace picks its last snapshot, and
/// `trace:first` its first.
pub proof fn lemma_trace_ends(stamps: Seq<SnapshotStamp>)
    requires
        stamps.len() > 0,
    ensures
        selected_position(stamps, "trace:last"@) == Some((stamps.len() - 1) as nat),
        selected_position(stamps, "trace:first"@) == Some(0nat),
{
    reveal_strlit("trace:last");
    reveal_strlit("trace:first");
    assert("trace:last"@.len() != "trace:first"@.len());
}

/// A snapshot chosen by a timestamp selector carries that selector as its
/// as-of time or its timestamp, and no earlier snapshot does.
pub proof fn lemma_selected_snapshot_matches(stamps: Seq<SnapshotStamp>, selector: Seq<char>)
    requires
        selector != "trace:last"@,
        selector != "trace:first"@,
    ensures
        selected_position(stamps, selector) matches Some(i) ==> i < stamps.len() && (
        stamps[i as int].as_of_timestamp@ == selector || stamps[i as int].timestamp@ == selector)
            && forall|j: int|
            0 <= j < i ==> stamps[j].as_of_timestamp@ != selector && stamps[j].timestamp@
                != selector,
{
    lemma_stamp_index_from(stamps, selector, 0);
}

proof fn lemma_stamp_index_from(stamps: Seq<SnapshotStamp>, selector: Seq<char>, start: nat)
    ensures
        stamp_index_from(stamps, selector, start) matches Some(i) ==> start <= i < stamps.len() && (
        stamps[i as int].as_of_timestamp@ == selector || stamps[i as int].timestamp@ == selector)
            && forall|j: int|
            start <= j < i ==> stamps[j].as_of_timestamp@ != selector && stamps[j].timestamp@
                != selector,
    decreases stamps.len() - start,
{
    if start < stamps.len() && !(stamps[start as int].as_of_timestamp@ == selector
        || stamps[start as int].timestamp@ == selector) {
        lemma_stamp_index_from(stamps, selector, start + 1);
    }
}

} // verus!
