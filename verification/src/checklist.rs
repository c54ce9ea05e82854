//! The default inspection checklist for suspected low-NPSH cavitation.
use crate::output_guard::{str_texts, texts};
use crate::text::{str_eq, to_string};
use vstd::prelude::*;

verus! {

/// One checklist item: a stable identifier and the text shown to the operator.
#[derive(Debug, Clone, Copy)]
pub struct ChecklistDefinition {
    pub item_id: &'static str,
    pub item_text: &'static str,
}

/// Number of items in the default checklist.
pub const CHECKLIST_LEN: usize = 10;

/// The identifiers of the default checklist, in recommendation order.
pub open spec fn checklist_ids() -> Seq<Seq<char>> {
    seq![
        "check_suction_strainer"@,
        "check_inlet_valve_position"@,
        "check_suction_pipe_restriction"@,
        "check_air_ingress"@,
        "check_liquid_temperature"@,
        "verify_npsha_gt_npshr"@,
        "check_flow_range"@,
        "check_upstream_filters"@,
        "check_suction_tank_level"@,
        "check_pump_speed_change"@,
    ]
}

/// The texts of the default checklist, in recommendation order.
pub open spec fn checklist_texts() -> Seq<Seq<char>> {
    seq![
        "Check suction strainer for blockage."@,
        "Check inlet valve position."@,
        "Check suction pipe restriction or blockage."@,
        "Check for air ingress on the suction side."@,
        "Check liquid temperature."@,
        "Verify NPSHA is greater than NPSHR from the pump curve."@,
        "Check whether the pump is operating too far from its intended flow range."@,
        "Check clogged filters upstream."@,
        "Check suction tank level."@,
        "Check whether pump speed changed."@,
    ]
}

/// The first position at or after `i` where `x` stands in `items`.
pub open spec fn position_from(items: Seq<Seq<char>>, x: Seq<char>, i: nat) -> Option<nat>
    decreases items.len() - i,
{
    if i >= items.len() {
        None
    } else if items[i as int] == x {
        Some(i)
    } else {
        position_from(items, x, i + 1)
    }
}

/// The position of a checklist identifier, if it is one.
pub open spec fn checklist_position(item_id: Seq<char>) -> Option<nat> {
    position_from(checklist_ids(), item_id, 0)
}

/// The order value of an identifier: its position, or `usize::MAX` for unknown identifiers.
pub open spec fn checklist_order(item_id: Seq<char>) -> usize {
    match checklist_position(item_id) {
        Some(i) => i as usize,
        None => usize::MAX,
    }
}

/// A position found by `position_from` lies inside the list and holds `x`.
pub proof fn lemma_position_from(items: Seq<Seq<char>>, x: Seq<char>, i: nat)
    ensures
        position_from(items, x, i) matches Some(k) ==> i <= k < items.len() && items[k as int]
            == x,
        position_from(items, x, i) is None ==> forall|j: int|
            i <= j < items.len() ==> items[j] != x,
    decreases items.len() - i,
{
    if i < items.len() && items[i as int] != x {
        lemma_position_from(items, x, i + 1);
    }
}

/// The default checklist items, in recommendation order.
pub fn default_checklist_items() -> (items: Vec<ChecklistDefinition>)
    ensures
        items@.len() == CHECKLIST_LEN,
        forall|i: int|
            0 <= i < CHECKLIST_LEN ==> (#[trigger] items@[i]).item_id@ == checklist_ids()[i]
                && items@[i].item_text@ == checklist_texts()[i],
{
    vec![
        ChecklistDefinition {
            item_id: "check_suction_strainer",
            item_text: "Check suction strainer for blockage.",
        },
        ChecklistDefinition {
            item_id: "check_inlet_valve_position",
            item_text: "Check inlet valve position.",
        },
        ChecklistDefinition {
            item_id: "check_suction_pipe_restriction",
            item_text: "Check suction pipe restriction or blockage.",
        },
        ChecklistDefinition {
            item_id: "check_air_ingress",
            item_text: "Check for air ingress on the suction side.",
        },
        ChecklistDefinition {
            item_id: "check_liquid_temperature",
            item_text: "Check liquid temperature.",
        },
        ChecklistDefinition {
            item_id: "verify_npsha_gt_npshr",
            item_text: "Verify NPSHA is greater than NPSHR from the pump curve.",
        },
        ChecklistDefinition {
            item_id: "check_flow_range",
            item_text: "Check whether the pump is operating too far from its intended flow range.",
        },
        ChecklistDefinition {
            item_id: "check_upstream_filters",
            item_text: "Check clogged filters upstream.",
        },
        ChecklistDefinition {
            item_id: "check_suction_tank_level",
            item_text: "Check suction tank level.",
        },
        ChecklistDefinition {
            item_id: "check_pump_speed_change",
            item_text: "Check whether pump speed changed.",
        },
    ]
}

/// The texts of the default checklist, in recommendation order.
pub fn default_checklist() -> (items: Vec<&'static str>)
    ensures
        str_texts(items@) == checklist_texts(),
{
    let defs = default_checklist_items();
    let mut items: Vec<&'static str> = Vec::new();
    let mut i: usize = 0;
    while i < defs.len()
        invariant
            defs@.len() == CHECKLIST_LEN,
            forall|k: int|
                0 <= k < CHECKLIST_LEN ==> (#[trigger] defs@[k]).item_id@ == checklist_ids()[k]
                    && defs@[k].item_text@ == checklist_texts()[k],
            i <= defs.len(),
            str_texts(items@) == checklist_texts().take(i as int),
        decreases defs.len() - i,
    {
        let ghost before = items@;
        items.push(defs[i].item_text);
        proof {
            assert(str_texts(items@) =~= str_texts(before).push(defs@[i as int].item_text@));
            assert(checklist_texts().take(i + 1) =~= checklist_texts().take(i as int).push(
                checklist_texts()[i as int],
            ));
        }
        i = i + 1;
    }
    proof {
        assert(checklist_texts().take(CHECKLIST_LEN as int) =~= checklist_texts());
    }
    items
}

/// The first `limit` checklist texts (all of them when `limit` exceeds the checklist).
pub fn recommended_checklist(limit: usize) -> (out: Vec<String>)
    ensures
        texts(out@) == checklist_texts().take(
            if limit < CHECKLIST_LEN {
                limit as int
            } else {
                CHECKLIST_LEN as int
            },
        ),
{
    let all = default_checklist();
    let n = if limit < all.len() {
        limit
    } else {
        all.len()
    };
    let mut out: Vec<String> = Vec::new();
    let mut i: usize = 0;
    proof {
        assert(all@.len() == str_texts(all@).len());
    }
    while i < n
        invariant
            n <= all.len(),
            all@.len() == CHECKLIST_LEN,
            str_texts(all@) == checklist_texts(),
            i <= n,
            texts(out@) == checklist_texts().take(i as int),
        decreases n - i,
    {
        let ghost before = out@;
        out.push(to_string(all[i]));
        proof {
            assert(str_texts(all@)[i as int] == all@[i as int]@);
            assert(texts(out@) =~= texts(before).push(all@[i as int]@));
            assert(checklist_texts().take(i + 1) =~= checklist_texts().take(i as int).push(
                checklist_texts()[i as int],
            ));
        }
        i = i + 1;
    }
    out
}

/// The position of `item_id` in the default checklist.
fn checklist_index(item_id: &str) -> (r: Option<usize>)
    ensures
        match r {
            Some(i) => checklist_position(item_id@) == Some(i as nat),
            None => checklist_position(item_id@) is None,
        },
{
    let defs = default_checklist_items();
    let mut i: usize = 0;
    while i < defs.len()
        invariant
            defs@.len() == CHECKLIST_LEN,
            forall|k: int|
                0 <= k < CHECKLIST_LEN ==> (#[trigger] defs@[k]).item_id@ == checklist_ids()[k]
                    && defs@[k].item_text@ == checklist_texts()[k],
            i <= defs.len(),
            checklist_position(item_id@) == position_from(checklist_ids(), item_id@, i as nat),
        decreases defs.len() - i,
    {
        if str_eq(defs[i].item_id, item_id) {
            return Some(i);
        }
        i = i + 1;
    }
    None
}

/// The text of the checklist item with the given identifier.
pub fn checklist_item_text(item_id: &str) -> (r: Option<&'static str>)
    ensures
        match checklist_position(item_id@) {
            Some(i) => r matches Some(t) && t@ == checklist_texts()[i as int],
            None => r is None,
        },
{
    match checklist_index(item_id) {
        Some(i) => {
            let defs = default_checklist_items();
            proof {
                lemma_position_from(checklist_ids(), item_id@, 0);
            }
            Some(defs[i].item_text)
        },
        None => None,
    }
}

/// The order of the checklist item with the given identifier: its position in
/// the default checklist, or `usize::MAX` when the identifier is unknown.
pub fn checklist_item_order(item_id: &str) -> (r: usize)
    ensures
        r == checklist_order(item_id@),
{
    match checklist_index(item_id) {
        Some(i) => i,
        None => usize::MAX,
    }
}

/// An identifier has a checklist text exactly when its order lies inside the
/// checklist, and then the text is the one at that order.
pub proof fn lemma_text_exists_iff_order_in_range(item_id: Seq<char>)
    ensures
        (checklist_position(item_id) is Some) <==> checklist_order(item_id) < CHECKLIST_LEN,
        checklist_position(item_id) matches Some(i) ==> checklist_ids()[checklist_order(
            item_id,
        ) as int] == item_id,
{
    lemma_position_from(checklist_ids(), item_id, 0);
}

/// Every default checklist item is found at its own position: the identifiers
/// are pairwise distinct, so each item has an order of its own.
pub proof fn lemma_checklist_item_orders(i: int)
    requires
        0 <= i < CHECKLIST_LEN,
    ensures
        checklist_position(checklist_ids()[i]) == Some(i as nat),
        checklist_order(checklist_ids()[i]) == i,
{
    lemma_id_keys();
    assert forall|j: int| 0 <= j < i implies checklist_ids()[j] != checklist_ids()[i] by {
        assert(id_keys()[j] != id_keys()[i]);
    }
    lemma_first_position(checklist_ids(), checklist_ids()[i], 0, i);
}

/// `position_from` finds the first position at or after `start` that holds `x`.
proof fn lemma_first_position(items: Seq<Seq<char>>, x: Seq<char>, start: nat, i: int)
    requires
        start <= i < items.len(),
        items[i] == x,
        forall|j: int| start <= j < i ==> items[j] != x,
    ensures
        position_from(items, x, start) == Some(i as nat),
    decreases i - start,
{
    if start < i {
        lemma_first_position(items, x, start + 1, i);
    }
}

/// What tells the checklist identifiers apart: the length and a character near the end.
spec fn id_key(s: Seq<char>) -> (nat, char) {
    (s.len(), s[s.len() - 3])
}

/// The key of each checklist identifier, in order.
spec fn id_keys() -> Seq<(nat, char)> {
    seq![
        (22nat, 'n'),
        (26nat, 'i'),
        (30nat, 'i'),
        (17nat, 'e'),
        (24nat, 'u'),
        (21nat, 's'),
        (16nat, 'n'),
        (22nat, 'e'),
        (24nat, 'v'),
        (23nat, 'n'),
    ]
}

proof fn lemma_id_keys()
    ensures
        forall|i: int| 0 <= i < CHECKLIST_LEN ==> id_key(#[trigger] checklist_ids()[i]) == id_keys()[i],
        forall|i: int, j: int| 0 <= i < j < CHECKLIST_LEN ==> id_keys()[i] != id_keys()[j],
{
    assert forall|i: int| 0 <= i < CHECKLIST_LEN implies id_key(#[trigger] checklist_ids()[i])
        == id_keys()[i] by {
        reveal_strlit("check_suction_strainer");
        reveal_strlit("check_inlet_valve_position");
        reveal_strlit("check_suction_pipe_restriction");
        reveal_strlit("check_air_ingress");
        reveal_strlit("check_liquid_temperature");
        reveal_strlit("verify_npsha_gt_npshr");
        reveal_strlit("check_flow_range");
        reveal_strlit("check_upstream_filters");
        reveal_strlit("check_suction_tank_level");
        reveal_strlit("check_pump_speed_change");
    }
}

} // verus!
