//! The output guard: rules that a language-model explanation must pass before it
//! may be shown in place of the deterministic template text.
//!
//! The guard never lets text through that changes the deterministic risk level,
//! claims certainty about cavitation, asks for autonomous plant control, or
//! omits the human-inspection caveat.
use crate::schemas::{risk_label_lower, risk_word_lower, RiskLevel};
use crate::text::{
    chars_of, contains, contains_str, decimal, digit_char, lowercase, lowercase_chars,
    string_from_chars, to_string, trim, trim_str,
};
use vstd::prelude::*;
use vstd::utf8::encode_utf8;

verus! {

/// The verdict of the guard on one raw output.
#[derive(Debug, Clone)]
pub struct GuardResult {
    pub passed: bool,
    pub guarded_output: Option<String>,
    pub reasons: Vec<String>,
}

/// Longest accepted output, in UTF-8 bytes.
pub const MAX_OUTPUT_BYTES: usize = 2500;

/// The texts of a list of strings.
pub open spec fn texts(v: Seq<String>) -> Seq<Seq<char>> {
    v.map_values(|s: String| s@)
}

/// The texts of a list of string slices.
pub open spec fn str_texts(v: Seq<&str>) -> Seq<Seq<char>> {
    v.map_values(|s: &str| s@)
}

/// A one-element list holding `reason` when `cond` holds, else the empty list.
pub open spec fn reason_if(cond: bool, reason: Seq<char>) -> Seq<Seq<char>> {
    if cond {
        seq![reason]
    } else {
        Seq::empty()
    }
}

/// Some phrase of `phrases` occurs in `s`.
pub open spec fn contains_any(s: Seq<char>, phrases: Seq<Seq<char>>) -> bool {
    exists|i: int| 0 <= i < phrases.len() && contains(s, phrases[i])
}

/// Phrases that claim certainty about cavitation or failure.
pub open spec fn certainty_phrases() -> Seq<Seq<char>> {
    seq![
        "guaranteed cavitation"@,
        "confirmed cavitation"@,
        "definite cavitation"@,
        "certain cavitation"@,
        "certainly cavitating"@,
        "will fail"@,
        "will cavitate"@,
    ]
}

/// Phrases that ask for autonomous plant control.
pub open spec fn control_phrases() -> Seq<Seq<char>> {
    seq![
        "autonomously"@,
        "automatically open"@,
        "automatically close"@,
        "open the valve"@,
        "close the valve"@,
        "start the pump"@,
        "stop the pump"@,
        "write to plc"@,
        "send command"@,
        "issue command"@,
    ]
}

/// The text names humans, an inspection step, and a limitation.
pub open spec fn mentions_human_review(lower: Seq<char>) -> bool {
    &&& contains(lower, "human"@)
    &&& contains(lower, "inspection"@) || contains(lower, "inspect"@) || contains(lower, "verify"@)
        || contains(lower, "review"@)
    &&& contains(lower, "limitation"@) || contains(lower, "sensor"@) || contains(lower, "pump curve"@)
}

/// The text states `level` as the risk in one of the recognised phrasings.
pub open spec fn claims_risk(lower: Seq<char>, level: RiskLevel) -> bool {
    let w = risk_word_lower(level);
    ||| contains(lower, w + " risk"@)
    ||| contains(lower, "risk level "@ + w)
    ||| contains(lower, "risk is "@ + w)
    ||| contains(lower, "risk: "@ + w)
}

/// The reason reported when the text claims `candidate` while the analysis says `actual`.
pub open spec fn changed_risk_reason(
    lower: Seq<char>,
    actual: RiskLevel,
    candidate: RiskLevel,
) -> Seq<Seq<char>> {
    reason_if(
        candidate != actual && claims_risk(lower, candidate),
        "changes_risk_level_to_"@ + risk_word_lower(candidate),
    )
}

/// Reasons about the risk level: it must be named, and no other level may be claimed.
pub open spec fn risk_reasons(lower: Seq<char>, actual: RiskLevel) -> Seq<Seq<char>> {
    reason_if(!contains(lower, risk_word_lower(actual)), "omits_deterministic_risk_level"@)
        + changed_risk_reason(lower, actual, RiskLevel::Low) + changed_risk_reason(
        lower,
        actual,
        RiskLevel::Medium,
    ) + changed_risk_reason(lower, actual, RiskLevel::High) + changed_risk_reason(
        lower,
        actual,
        RiskLevel::Unknown,
    )
}

/// The reason reported for a certainty claim.
pub open spec fn certainty_reasons(lower: Seq<char>) -> Seq<Seq<char>> {
    reason_if(contains_any(lower, certainty_phrases()), "claims_certainty"@)
}

/// The reason reported for a request of autonomous control.
pub open spec fn control_reasons(lower: Seq<char>) -> Seq<Seq<char>> {
    reason_if(contains_any(lower, control_phrases()), "recommends_autonomous_plant_control"@)
}

/// The reason reported when the human-inspection caveat is missing.
pub open spec fn human_reasons(lower: Seq<char>) -> Seq<Seq<char>> {
    reason_if(!mentions_human_review(lower), "omits_human_inspection_limitations"@)
}

/// Every textual reason to reject an already trimmed output, in the order they are reported.
pub open spec fn text_reasons(output: Seq<char>, actual: RiskLevel) -> Seq<Seq<char>> {
    let lower = lowercase(output);
    reason_if(output.len() == 0, "empty_output"@) + reason_if(
        encode_utf8(output).len() > MAX_OUTPUT_BYTES,
        "output_too_long"@,
    ) + risk_reasons(lower, actual) + certainty_reasons(lower) + control_reasons(lower)
        + human_reasons(lower)
}

/// Every reason to reject a raw output: the textual reasons for its trimmed
/// text, then the verdict of the numeric check on that text, if it found one.
pub open spec fn guard_reasons(
    raw: Seq<char>,
    actual: RiskLevel,
    numeric_reason: Option<Seq<char>>,
) -> Seq<Seq<char>> {
    text_reasons(trim(raw), actual) + match numeric_reason {
        Some(r) => seq![r],
        None => Seq::empty(),
    }
}

/// Appends one reason.
fn push_reason(reasons: &mut Vec<String>, reason: &str)
    ensures
        texts(final(reasons)@) == texts(old(reasons)@).push(reason@),
{
    let ghost before = reasons@;
    reasons.push(to_string(reason));
    proof {
        assert(texts(reasons@) =~= texts(before).push(reason@));
    }
}

/// Appends `reason` when `cond` holds.
fn push_reason_if(reasons: &mut Vec<String>, cond: bool, reason: &str)
    ensures
        texts(final(reasons)@) == texts(old(reasons)@) + reason_if(cond, reason@),
{
    if cond {
        push_reason(reasons, reason);
    } else {
        proof {
            assert(texts(reasons@) + reason_if(cond, reason@) =~= texts(reasons@));
        }
    }
}

/// The phrases that claim certainty.
pub fn certainty_phrase_list() -> (r: Vec<&'static str>)
    ensures
        str_texts(r@) == certainty_phrases(),
{
    let r = vec![
        "guaranteed cavitation",
        "confirmed cavitation",
        "definite cavitation",
        "certain cavitation",
        "certainly cavitating",
        "will fail",
        "will cavitate",
    ];
    proof {
        assert(str_texts(r@) =~= certainty_phrases());
    }
    r
}

/// The phrases that ask for autonomous control.
pub fn control_phrase_list() -> (r: Vec<&'static str>)
    ensures
        str_texts(r@) == control_phrases(),
{
    let r = vec![
        "autonomously",
        "automatically open",
        "automatically close",
        "open the valve",
        "close the valve",
        "start the pump",
        "stop the pump",
        "write to plc",
        "send command",
        "issue command",
    ];
    proof {
        assert(str_texts(r@) =~= control_phrases());
    }
    r
}

/// Whether some phrase of `phrases` occurs in `s`.
fn contains_any_phrase(s: &Vec<char>, phrases: &Vec<&str>) -> (r: bool)
    ensures
        r == contains_any(s@, str_texts(phrases@)),
{
    let mut i: usize = 0;
    while i < phrases.len()
        invariant
            i <= phrases.len(),
            forall|k: int| 0 <= k < i ==> !contains(s@, #[trigger] phrases@[k]@),
        decreases phrases.len() - i,
    {
        if contains_str(s, phrases[i]) {
            proof {
                assert(str_texts(phrases@)[i as int] == phrases@[i as int]@);
            }
            return true;
        }
        i = i + 1;
    }
    proof {
        assert forall|k: int| 0 <= k < str_texts(phrases@).len() implies !contains(
            s@,
            str_texts(phrases@)[k],
        ) by {
            assert(str_texts(phrases@)[k] == phrases@[k]@);
        }
    }
    false
}

/// Rejects claims of certain cavitation or failure.
pub fn guard_no_certainty(lower: &str, reasons: &mut Vec<String>)
    ensures
        texts(final(reasons)@) == texts(old(reasons)@) + certainty_reasons(lower@),
{
    let s = chars_of(lower);
    let phrases = certainty_phrase_list();
    let blocked = contains_any_phrase(&s, &phrases);
    push_reason_if(reasons, blocked, "claims_certainty");
}

/// Rejects requests for autonomous plant control.
pub fn guard_no_autonomous_control(lower: &str, reasons: &mut Vec<String>)
    ensures
        texts(final(reasons)@) == texts(old(reasons)@) + control_reasons(lower@),
{
    let s = chars_of(lower);
    let phrases = control_phrase_list();
    let blocked = contains_any_phrase(&s, &phrases);
    push_reason_if(reasons, blocked, "recommends_autonomous_plant_control");
}

/// Requires the human-inspection caveat and a named limitation.
pub fn guard_human_limitations(lower: &str, reasons: &mut Vec<String>)
    ensures
        texts(final(reasons)@) == texts(old(reasons)@) + human_reasons(lower@),
{
    let s = chars_of(lower);
    let has_human = contains_str(&s, "human");
    let has_inspection = contains_str(&s, "inspection") || contains_str(&s, "inspect")
        || contains_str(&s, "verify") || contains_str(&s, "review");
    let has_limitation = contains_str(&s, "limitation") || contains_str(&s, "sensor")
        || contains_str(&s, "pump curve");
    push_reason_if(
        reasons,
        !(has_human && has_inspection && has_limitation),
        "omits_human_inspection_limitations",
    );
}

/// Whether the text claims `level` as the risk.
fn claims_risk_level(lower: &Vec<char>, level: &RiskLevel) -> (r: bool)
    ensures
        r == claims_risk(lower@, *level),
{
    let w = risk_label_lower(level);
    let p1 = to_string(w).concat(" risk");
    let p2 = to_string("risk level ").concat(w);
    let p3 = to_string("risk is ").concat(w);
    let p4 = to_string("risk: ").concat(w);
    contains_str(lower, p1.as_str()) || contains_str(lower, p2.as_str()) || contains_str(
        lower,
        p3.as_str(),
    ) || contains_str(lower, p4.as_str())
}

/// Appends the reason for a claimed `candidate` level that differs from `actual`.
fn guard_changed_level(
    lower: &Vec<char>,
    actual: &RiskLevel,
    candidate: RiskLevel,
    reasons: &mut Vec<String>,
)
    ensures
        texts(final(reasons)@) == texts(old(reasons)@) + changed_risk_reason(
            lower@,
            *actual,
            candidate,
        ),
{
    if candidate != *actual && claims_risk_level(lower, &candidate) {
        let reason = to_string("changes_risk_level_to_").concat(risk_label_lower(&candidate));
        push_reason(reasons, reason.as_str());
    } else {
        proof {
            assert(texts(reasons@) + changed_risk_reason(lower@, *actual, candidate)
                =~= texts(reasons@));
        }
    }
}

/// Requires the deterministic risk level and rejects any other claimed level.
fn guard_risk_level(lower: &Vec<char>, actual: &RiskLevel, reasons: &mut Vec<String>)
    ensures
        texts(final(reasons)@) == texts(old(reasons)@) + risk_reasons(lower@, *actual),
{
    let ghost start = texts(reasons@);
    let named = contains_str(lower, risk_label_lower(actual));
    push_reason_if(reasons, !named, "omits_deterministic_risk_level");
    guard_changed_level(lower, actual, RiskLevel::Low, reasons);
    guard_changed_level(lower, actual, RiskLevel::Medium, reasons);
    guard_changed_level(lower, actual, RiskLevel::High, reasons);
    guard_changed_level(lower, actual, RiskLevel::Unknown, reasons);
    proof {
        assert(texts(reasons@) =~= start + risk_reasons(lower@, *actual));
    }
}

/// Judges a raw language-model output against the deterministic analysis.
///
/// `numeric_reason` is the verdict of the numeric check on the trimmed output
/// (a reason when it found a number that the analysis does not contain); it
/// is reported after every textual reason. The output passes exactly when no
/// reason is found, and only then is the trimmed text handed back.
pub fn guard_output(
    raw_output: &str,
    risk_level: &RiskLevel,
    numeric_reason: Option<String>,
) -> (r: GuardResult)
    ensures
        texts(r.reasons@) == guard_reasons(
            raw_output@,
            *risk_level,
            match numeric_reason {
                Some(s) => Some(s@),
                None => None,
            },
        ),
        r.passed == (r.reasons@.len() == 0),
        r.passed ==> (r.guarded_output matches Some(g) && g@ == trim(raw_output@)),
        !r.passed ==> r.guarded_output is None,
{
    let output = trim_str(raw_output);
    let lower_chars = lowercase_chars(&chars_of(output));
    let lower = string_from_chars(&lower_chars);
    let mut reasons: Vec<String> = Vec::new();
    let ghost start = texts(reasons@);
    proof {
        assert(start =~= Seq::empty());
    }
    push_reason_if(&mut reasons, output.is_empty(), "empty_output");
    let byte_len = output.as_bytes().len();
    push_reason_if(&mut reasons, byte_len > MAX_OUTPUT_BYTES, "output_too_long");
    guard_risk_level(&lower_chars, risk_level, &mut reasons);
    guard_no_certainty(lower.as_str(), &mut reasons);
    guard_no_autonomous_control(lower.as_str(), &mut reasons);
    guard_human_limitations(lower.as_str(), &mut reasons);
    proof {
        assert(lower@ == lowercase(output@));
        assert(output.is_empty() == (output@.len() == 0));
        assert(texts(reasons@) =~= text_reasons(output@, *risk_level));
    }
    match numeric_reason {
        Some(reason) => {
            push_reason(&mut reasons, reason.as_str());
        },
        None => {
            proof {
                assert(texts(reasons@) =~= texts(reasons@) + Seq::<Seq<char>>::empty());
            }
        },
    }
    if reasons.len() == 0 {
        GuardResult { passed: true, guarded_output: Some(to_string(output)), reasons }
    } else {
        GuardResult { passed: false, guarded_output: None, reasons }
    }
}

// ---------------------------------------------------------------------------
// Numbers quoted in an output
// ---------------------------------------------------------------------------

/// An ASCII decimal digit.
pub open spec fn is_digit(c: char) -> bool {
    '0' <= c && c <= '9'
}

/// A character that belongs to a number token, given the token read so far:
/// digits and points anywhere, a minus sign only as the first character.
pub open spec fn number_char(c: char, token: Seq<char>) -> bool {
    is_digit(c) || (c == '-' && token.len() == 0) || c == '.'
}

/// Some character of `t` is a digit.
pub open spec fn has_digit(t: Seq<char>) -> bool {
    exists|i: int| 0 <= i < t.len() && is_digit(t[i])
}

/// The token that ends here, kept when it holds a digit.
pub open spec fn finished_token(token: Seq<char>) -> Seq<Seq<char>> {
    if has_digit(token) {
        seq![token]
    } else {
        Seq::empty()
    }
}

/// The number tokens of `s`, given the token already read before it.
pub open spec fn scan_numbers(s: Seq<char>, token: Seq<char>) -> Seq<Seq<char>>
    decreases s.len(),
{
    if s.len() == 0 {
        finished_token(token)
    } else if number_char(s[0], token) {
        scan_numbers(s.skip(1), token.push(s[0]))
    } else {
        finished_token(token) + scan_numbers(s.skip(1), Seq::empty())
    }
}

/// The number tokens of a text, in order: maximal runs of digits, points and a
/// leading minus sign that hold at least one digit.
pub open spec fn number_tokens(s: Seq<char>) -> Seq<Seq<char>> {
    scan_numbers(s, Seq::empty())
}

/// The value of a run of decimal digits.
pub open spec fn digits_value(d: Seq<char>) -> nat
    decreases d.len(),
{
    if d.len() == 0 {
        0
    } else {
        digits_value(d.drop_last()) * 10 + ((d.last() as int) - 48) as nat
    }
}

/// The digits of a token, after its minus sign if it has one.
pub open spec fn magnitude_text(t: Seq<char>) -> Seq<char> {
    if t.len() > 0 && t[0] == '-' {
        t.skip(1)
    } else {
        t
    }
}

/// A token that is a whole number: an optional minus sign and at least one digit.
pub open spec fn is_integer_text(t: Seq<char>) -> bool {
    &&& magnitude_text(t).len() > 0
    &&& forall|i: int| 0 <= i < magnitude_text(t).len() ==> is_digit(#[trigger] magnitude_text(t)[i])
}

/// The value of a whole-number token.
pub open spec fn integer_value(t: Seq<char>) -> int {
    if t.len() > 0 && t[0] == '-' {
        -digits_value(magnitude_text(t))
    } else {
        digits_value(magnitude_text(t)) as int
    }
}

/// A whole number from 0 to 100: such numbers (percentages, counts) may
/// appear in an explanation without occurring in the analysis.
pub open spec fn small_integer_token(t: Seq<char>) -> bool {
    is_integer_text(t) && 0 <= integer_value(t) <= 100
}

/// Whether a token holds a digit.
fn token_has_digit(token: &Vec<char>) -> (r: bool)
    ensures
        r == has_digit(token@),
{
    let mut i: usize = 0;
    while i < token.len()
        invariant
            i <= token.len(),
            forall|k: int| 0 <= k < i ==> !is_digit(#[trigger] token@[k]),
        decreases token.len() - i,
    {
        if '0' <= token[i] && token[i] <= '9' {
            return true;
        }
        i = i + 1;
    }
    false
}

/// The number tokens of a text, in order.
pub fn number_tokens_of(input: &str) -> (tokens: Vec<String>)
    ensures
        texts(tokens@) == number_tokens(input@),
{
    let s = chars_of(input);
    let mut tokens: Vec<String> = Vec::new();
    let mut token: Vec<char> = Vec::new();
    let mut i: usize = 0;
    proof {
        assert(s@.skip(0) =~= s@);
        assert(texts(tokens@) =~= Seq::<Seq<char>>::empty());
    }
    while i < s.len()
        invariant
            i <= s.len(),
            s@ == input@,
            texts(tokens@) + scan_numbers(s@.skip(i as int), token@) == number_tokens(input@),
        decreases s.len() - i,
    {
        let c = s[i];
        let ghost rest = s@.skip(i as int);
        proof {
            assert(rest[0] == c);
            assert(rest.skip(1) =~= s@.skip(i + 1));
        }
        if ('0' <= c && c <= '9') || (c == '-' && token.len() == 0) || c == '.' {
            token.push(c);
        } else {
            let ghost before = texts(tokens@);
            let ghost old_token = token@;
            if token_has_digit(&token) {
                tokens.push(string_from_chars(&token));
                proof {
                    assert(texts(tokens@) =~= before + finished_token(old_token));
                }
            } else {
                proof {
                    assert(texts(tokens@) =~= before + finished_token(old_token));
                }
            }
            token = Vec::new();
            proof {
                assert(token@ =~= Seq::<char>::empty());
                assert(texts(tokens@) + scan_numbers(s@.skip(i + 1), token@) =~= before + (
                finished_token(old_token) + scan_numbers(rest.skip(1), Seq::empty())));
            }
        }
        i = i + 1;
    }
    proof {
        assert(s@.skip(i as int) =~= Seq::<char>::empty());
    }
    let ghost before = texts(tokens@);
    if token_has_digit(&token) {
        tokens.push(string_from_chars(&token));
    }
    proof {
        assert(texts(tokens@) =~= before + finished_token(token@));
    }
    tokens
}

/// Whether a token is a whole number from 0 to 100.
pub fn is_small_integer_token(token: &str) -> (r: bool)
    ensures
        r == small_integer_token(token@),
{
    let t = chars_of(token);
    let negative = t.len() > 0 && t[0] == '-';
    let start: usize = if negative {
        1
    } else {
        0
    };
    let ghost mag = magnitude_text(t@);
    proof {
        if negative {
            assert(mag =~= t@.skip(1));
        } else {
            assert(mag =~= t@);
        }
    }
    if start >= t.len() {
        return false;
    }
    // `acc` is the value of the digits read so far, or 101 once it exceeds 100.
    let mut acc: u32 = 0;
    let mut i: usize = start;
    proof {
        assert(mag.take(0) =~= Seq::<char>::empty());
    }
    while i < t.len()
        invariant
            start <= i <= t.len(),
            t@ == token@,
            mag == magnitude_text(t@),
            negative == (t@.len() > 0 && t@[0] == '-'),
            start == t.len() - mag.len(),
            mag == t@.skip(start as int),
            forall|k: int| 0 <= k < i - start ==> is_digit(#[trigger] mag[k]),
            acc == if digits_value(mag.take(i - start)) > 100 {
                101
            } else {
                digits_value(mag.take(i - start))
            },
        decreases t.len() - i,
    {
        let c = t[i];
        proof {
            assert(mag[i - start] == c);
        }
        if !('0' <= c && c <= '9') {
            proof {
                assert(!is_digit(magnitude_text(t@)[i - start]));
            }
            return false;
        }
        let d: u32 = (c as u32) - 48;
        proof {
            let k = i - start;
            assert(mag.take(k + 1).drop_last() =~= mag.take(k));
            assert(mag.take(k + 1).last() == c);
            assert(digits_value(mag.take(k + 1)) == digits_value(mag.take(k)) * 10 + d);
        }
        if acc > 100 {
            acc = 101;
        } else {
            let v = acc * 10 + d;
            acc = if v > 100 {
                101
            } else {
                v
            };
        }
        i = i + 1;
    }
    proof {
        assert(mag.take(mag.len() as int) =~= mag);
    }
    if negative {
        acc == 0
    } else {
        acc <= 100
    }
}

/// Every number token holds a digit, and a token without a point is a whole number.
pub proof fn lemma_number_token_shape(s: Seq<char>, i: int)
    requires
        0 <= i < number_tokens(s).len(),
    ensures
        has_digit(number_tokens(s)[i]),
        !number_tokens(s)[i].contains('.') ==> is_integer_text(number_tokens(s)[i]),
{
    lemma_scan_token_shape(s, Seq::empty(), i);
}

/// The characters a token may hold: digits, points, and a minus sign in front.
pub open spec fn token_shape(t: Seq<char>) -> bool {
    forall|k: int|
        0 <= k < t.len() ==> is_digit(#[trigger] t[k]) || t[k] == '.' || (k == 0 && t[k] == '-')
}

proof fn lemma_shape_integer(t: Seq<char>)
    requires
        token_shape(t),
        has_digit(t),
        !t.contains('.'),
    ensures
        is_integer_text(t),
{
    let m = magnitude_text(t);
    assert forall|k: int| 0 <= k < m.len() implies is_digit(#[trigger] m[k]) by {
        if t.len() > 0 && t[0] == '-' {
            assert(m[k] == t[k + 1]);
            if !is_digit(t[k + 1]) {
                assert(t[k + 1] == '.');
                assert(t.contains('.'));
            }
        } else {
            assert(m[k] == t[k]);
            if !is_digit(t[k]) {
                if t[k] == '.' {
                    assert(t.contains('.'));
                }
            }
        }
    }
    let j = choose|j: int| 0 <= j < t.len() && is_digit(t[j]);
    if t.len() > 0 && t[0] == '-' {
        assert(j != 0);
    }
}

proof fn lemma_scan_token_shape(s: Seq<char>, token: Seq<char>, i: int)
    requires
        token_shape(token),
        0 <= i < scan_numbers(s, token).len(),
    ensures
        has_digit(scan_numbers(s, token)[i]),
        token_shape(scan_numbers(s, token)[i]),
        !scan_numbers(s, token)[i].contains('.') ==> is_integer_text(scan_numbers(s, token)[i]),
    decreases s.len(),
{
    if s.len() == 0 {
        assert(scan_numbers(s, token)[i] == token);
        lemma_finished_integer(token);
    } else if number_char(s[0], token) {
        let next = token.push(s[0]);
        assert forall|k: int| 0 <= k < next.len() implies is_digit(#[trigger] next[k])
            || next[k] == '.' || (k == 0 && next[k] == '-') by {
            if k < token.len() {
                assert(next[k] == token[k]);
            }
        }
        lemma_scan_token_shape(s.skip(1), next, i);
    } else {
        let f = finished_token(token);
        if i < f.len() {
            assert(scan_numbers(s, token)[i] == token);
            lemma_finished_integer(token);
        } else {
            assert(scan_numbers(s, token)[i] == scan_numbers(s.skip(1), Seq::empty())[i - f.len()]);
            lemma_scan_token_shape(s.skip(1), Seq::empty(), i - f.len());
        }
    }
}

proof fn lemma_finished_integer(token: Seq<char>)
    requires
        token_shape(token),
        has_digit(token),
    ensures
        !token.contains('.') ==> is_integer_text(token),
{
    if !token.contains('.') {
        lemma_shape_integer(token);
    }
}

/// Every whole number from 0 to 100 written in decimal notation is a
/// small-integer token, so such numbers are always accepted in an explanation.
pub proof fn lemma_small_decimals_accepted(n: nat)
    requires
        n <= 100,
    ensures
        small_integer_token(decimal(n)),
{
    lemma_decimal_digits(n);
    assert(magnitude_text(decimal(n)) == decimal(n)) by {
        assert(is_digit(decimal(n)[0]));
    }
}

/// The decimal notation of `n` is a non-empty run of digits whose value is `n`.
proof fn lemma_decimal_digits(n: nat)
    ensures
        decimal(n).len() > 0,
        forall|i: int| 0 <= i < decimal(n).len() ==> is_digit(#[trigger] decimal(n)[i]),
        digits_value(decimal(n)) == n,
    decreases n,
{
    let d = if n < 10 {
        n
    } else {
        n % 10
    };
    assert(((48 + d) as u8) as int == 48 + d);
    assert((digit_char(d) as int) == 48 + d);
    if n < 10 {
        assert(decimal(n).drop_last() =~= Seq::<char>::empty());
        assert(decimal(n).last() == digit_char(d));
        assert(digits_value(decimal(n)) == digits_value(Seq::<char>::empty()) * 10 + d);
    } else {
        lemma_decimal_digits(n / 10);
        assert(decimal(n).drop_last() =~= decimal(n / 10));
        assert(decimal(n).last() == digit_char(d));
        assert(digits_value(decimal(n)) == digits_value(decimal(n / 10)) * 10 + d);
        assert(n == (n / 10) * 10 + n % 10);
    }
}

// ---------------------------------------------------------------------------
// Laws of the guard
// ---------------------------------------------------------------------------

/// An output that passes the guard is not empty, names the deterministic risk
/// level and claims no other, claims no certainty, asks for no autonomous
/// control, carries the human-inspection caveat, and passed the numeric check.
pub proof fn lemma_passed_output_is_safe(
    raw: Seq<char>,
    actual: RiskLevel,
    numeric_reason: Option<Seq<char>>,
)
    requires
        guard_reasons(raw, actual, numeric_reason).len() == 0,
    ensures
        trim(raw).len() > 0,
        contains(lowercase(trim(raw)), risk_word_lower(actual)),
        forall|other: RiskLevel| other != actual ==> !claims_risk(lowercase(trim(raw)), other),
        !contains_any(lowercase(trim(raw)), certainty_phrases()),
        !contains_any(lowercase(trim(raw)), control_phrases()),
        mentions_human_review(lowercase(trim(raw))),
        numeric_reason is None,
{
    let lower = lowercase(trim(raw));
    assert forall|other: RiskLevel| other != actual implies !claims_risk(lower, other) by {
        assert(changed_risk_reason(lower, actual, other).len() == 0);
    }
}

/// An output that contains a certainty phrase, in any ASCII letter case, is
/// rejected and the rejection names the certainty claim.
pub proof fn lemma_certainty_is_rejected(
    raw: Seq<char>,
    actual: RiskLevel,
    numeric_reason: Option<Seq<char>>,
    k: int,
)
    requires
        0 <= k < certainty_phrases().len(),
        contains(lowercase(trim(raw)), certainty_phrases()[k]),
    ensures
        guard_reasons(raw, actual, numeric_reason).len() > 0,
        guard_reasons(raw, actual, numeric_reason).contains("claims_certainty"@),
{
    let lower = lowercase(trim(raw));
    let reasons = guard_reasons(raw, actual, numeric_reason);
    let before = reason_if(trim(raw).len() == 0, "empty_output"@) + reason_if(
        encode_utf8(trim(raw)).len() > MAX_OUTPUT_BYTES,
        "output_too_long"@,
    ) + risk_reasons(lower, actual);
    assert(certainty_reasons(lower) =~= seq!["claims_certainty"@]);
    assert(reasons[before.len() as int] == "claims_certainty"@);
}

/// An output that asks for autonomous plant control, in any ASCII letter case,
/// is rejected and the rejection names the control request.
pub proof fn lemma_control_is_rejected(
    raw: Seq<char>,
    actual: RiskLevel,
    numeric_reason: Option<Seq<char>>,
    k: int,
)
    requires
        0 <= k < control_phrases().len(),
        contains(lowercase(trim(raw)), control_phrases()[k]),
    ensures
        guard_reasons(raw, actual, numeric_reason).len() > 0,
        guard_reasons(raw, actual, numeric_reason).contains(
            "recommends_autonomous_plant_control"@,
        ),
{
    let lower = lowercase(trim(raw));
    let reasons = guard_reasons(raw, actual, numeric_reason);
    let before = reason_if(trim(raw).len() == 0, "empty_output"@) + reason_if(
        encode_utf8(trim(raw)).len() > MAX_OUTPUT_BYTES,
        "output_too_long"@,
    ) + risk_reasons(lower, actual) + certainty_reasons(lower);
    assert(control_reasons(lower) =~= seq!["recommends_autonomous_plant_control"@]);
    assert(reasons[before.len() as int] == "recommends_autonomous_plant_control"@);
}

/// An output that claims a risk level other than the deterministic one is
/// rejected, and the rejection names the claimed level.
pub proof fn lemma_changed_risk_is_rejected(
    raw: Seq<char>,
    actual: RiskLevel,
    numeric_reason: Option<Seq<char>>,
    claimed: RiskLevel,
)
    requires
        claimed != actual,
        claims_risk(lowercase(trim(raw)), claimed),
    ensures
        guard_reasons(raw, actual, numeric_reason).len() > 0,
        guard_reasons(raw, actual, numeric_reason).contains(
            "changes_risk_level_to_"@ + risk_word_lower(claimed),
        ),
{
    let lower = lowercase(trim(raw));
    let reason = "changes_risk_level_to_"@ + risk_word_lower(claimed);
    let omit = reason_if(!contains(lower, risk_word_lower(actual)), "omits_deterministic_risk_level"@);
    let low = changed_risk_reason(lower, actual, RiskLevel::Low);
    let medium = changed_risk_reason(lower, actual, RiskLevel::Medium);
    let high = changed_risk_reason(lower, actual, RiskLevel::High);
    let unknown = changed_risk_reason(lower, actual, RiskLevel::Unknown);
    assert(changed_risk_reason(lower, actual, claimed) =~= seq![reason]);
    assert(changed_risk_reason(lower, actual, claimed)[0] == reason);
    match claimed {
        RiskLevel::Low => {
            lemma_contains_right(omit, low, reason);
            lemma_contains_left(omit + low, medium, reason);
            lemma_contains_left(omit + low + medium, high, reason);
            lemma_contains_left(omit + low + medium + high, unknown, reason);
        },
        RiskLevel::Medium => {
            lemma_contains_right(omit + low, medium, reason);
            lemma_contains_left(omit + low + medium, high, reason);
            lemma_contains_left(omit + low + medium + high, unknown, reason);
        },
        RiskLevel::High => {
            lemma_contains_right(omit + low + medium, high, reason);
            lemma_contains_left(omit + low + medium + high, unknown, reason);
        },
        RiskLevel::Unknown => {
            lemma_contains_right(omit + low + medium + high, unknown, reason);
        },
    }
    assert(risk_reasons(lower, actual).contains(reason));
    lemma_risk_reason_reported(raw, actual, numeric_reason, reason);
}

/// An output whose lower-cased, trimmed text asks for autonomous plant control
/// with any of the control phrases is rejected for it.
pub proof fn lemma_each_control_phrase_rejected(
    raw: Seq<char>,
    actual: RiskLevel,
    numeric_reason: Option<Seq<char>>,
)
    requires
        contains(lowercase(trim(raw)), "autonomously"@)
        || contains(lowercase(trim(raw)), "automatically open"@)
        || contains(lowercase(trim(raw)), "automatically close"@)
        || contains(lowercase(trim(raw)), "open the valve"@)
        || contains(lowercase(trim(raw)), "close the valve"@)
        || contains(lowercase(trim(raw)), "start the pump"@)
        || contains(lowercase(trim(raw)), "stop the pump"@)
        || contains(lowercase(trim(raw)), "write to plc"@)
        || contains(lowercase(trim(raw)), "send command"@)
        || contains(lowercase(trim(raw)), "issue command"@),
    ensures
        guard_reasons(raw, actual, numeric_reason).contains("recommends_autonomous_plant_control"@),
{
    let lower = lowercase(trim(raw));
    if contains(lower, "autonomously"@) {
        lemma_control_is_rejected(raw, actual, numeric_reason, 0);
    } else if contains(lower, "automatically open"@) {
        lemma_control_is_rejected(raw, actual, numeric_reason, 1);
    } else if contains(lower, "automatically close"@) {
        lemma_control_is_rejected(raw, actual, numeric_reason, 2);
    } else if contains(lower, "open the valve"@) {
        lemma_control_is_rejected(raw, actual, numeric_reason, 3);
    } else if contains(lower, "close the valve"@) {
        lemma_control_is_rejected(raw, actual, numeric_reason, 4);
    } else if contains(lower, "start the pump"@) {
        lemma_control_is_rejected(raw, actual, numeric_reason, 5);
    } else if contains(lower, "stop the pump"@) {
        lemma_control_is_rejected(raw, actual, numeric_reason, 6);
    } else if contains(lower, "write to plc"@) {
        lemma_control_is_rejected(raw, actual, numeric_reason, 7);
    } else if contains(lower, "send command"@) {
        lemma_control_is_rejected(raw, actual, numeric_reason, 8);
    } else if contains(lower, "issue command"@) {
        lemma_control_is_rejected(raw, actual, numeric_reason, 9);
    }
}

/// An output whose lower-cased, trimmed text claims certainty with any of the
/// certainty phrases is rejected for it.
pub proof fn lemma_each_certainty_phrase_rejected(
    raw: Seq<char>,
    actual: RiskLevel,
    numeric_reason: Option<Seq<char>>,
)
    requires
        contains(lowercase(trim(raw)), "guaranteed cavitation"@)
        || contains(lowercase(trim(raw)), "confirmed cavitation"@)
        || contains(lowercase(trim(raw)), "definite cavitation"@)
        || contains(lowercase(trim(raw)), "certain cavitation"@)
        || contains(lowercase(trim(raw)), "certainly cavitating"@)
        || contains(lowercase(trim(raw)), "will fail"@)
        || contains(lowercase(trim(raw)), "will cavitate"@),
    ensures
        guard_reasons(raw, actual, numeric_reason).contains("claims_certainty"@),
{
    let lower = lowercase(trim(raw));
    if contains(lower, "guaranteed cavitation"@) {
        lemma_certainty_is_rejected(raw, actual, numeric_reason, 0);
    } else if contains(lower, "confirmed cavitation"@) {
        lemma_certainty_is_rejected(raw, actual, numeric_reason, 1);
    } else if contains(lower, "definite cavitation"@) {
        lemma_certainty_is_rejected(raw, actual, numeric_reason, 2);
    } else if contains(lower, "certain cavitation"@) {
        lemma_certainty_is_rejected(raw, actual, numeric_reason, 3);
    } else if contains(lower, "certainly cavitating"@) {
        lemma_certainty_is_rejected(raw, actual, numeric_reason, 4);
    } else if contains(lower, "will fail"@) {
        lemma_certainty_is_rejected(raw, actual, numeric_reason, 5);
    } else if contains(lower, "will cavitate"@) {
        lemma_certainty_is_rejected(raw, actual, numeric_reason, 6);
    }
}

/// An output that claims a risk level other than the deterministic one, in
/// any of the phrasings `<level> risk`, `risk level <level>`, `risk is <level>`
/// or `risk: <level>`, is rejected, and the rejection names that level.
pub proof fn lemma_each_changed_risk_phrase_rejected(
    raw: Seq<char>,
    actual: RiskLevel,
    numeric_reason: Option<Seq<char>>,
)
    ensures
        actual != RiskLevel::Low && (contains(lowercase(trim(raw)), "low risk"@)
            || contains(lowercase(trim(raw)), "risk level low"@)
            || contains(lowercase(trim(raw)), "risk is low"@)
            || contains(lowercase(trim(raw)), "risk: low"@)) ==> guard_reasons(raw, actual, numeric_reason).contains(
            "changes_risk_level_to_low"@,
        ),
        actual != RiskLevel::Medium && (contains(lowercase(trim(raw)), "medium risk"@)
            || contains(lowercase(trim(raw)), "risk level medium"@)
            || contains(lowercase(trim(raw)), "risk is medium"@)
            || contains(lowercase(trim(raw)), "risk: medium"@)) ==> guard_reasons(raw, actual, numeric_reason).contains(
            "changes_risk_level_to_medium"@,
        ),
        actual != RiskLevel::High && (contains(lowercase(trim(raw)), "high risk"@)
            || contains(lowercase(trim(raw)), "risk level high"@)
            || contains(lowercase(trim(raw)), "risk is high"@)
            || contains(lowercase(trim(raw)), "risk: high"@)) ==> guard_reasons(raw, actual, numeric_reason).contains(
            "changes_risk_level_to_high"@,
        ),
        actual != RiskLevel::Unknown && (contains(lowercase(trim(raw)), "unknown risk"@)
            || contains(lowercase(trim(raw)), "risk level unknown"@)
            || contains(lowercase(trim(raw)), "risk is unknown"@)
            || contains(lowercase(trim(raw)), "risk: unknown"@)) ==> guard_reasons(raw, actual, numeric_reason).contains(
            "changes_risk_level_to_unknown"@,
        ),
{
    let lower = lowercase(trim(raw));
    lemma_claims_low(lower);
    if actual != RiskLevel::Low && claims_risk(lower, RiskLevel::Low) {
        lemma_changed_risk_is_rejected(raw, actual, numeric_reason, RiskLevel::Low);
    }
    lemma_claims_medium(lower);
    if actual != RiskLevel::Medium && claims_risk(lower, RiskLevel::Medium) {
        lemma_changed_risk_is_rejected(raw, actual, numeric_reason, RiskLevel::Medium);
    }
    lemma_claims_high(lower);
    if actual != RiskLevel::High && claims_risk(lower, RiskLevel::High) {
        lemma_changed_risk_is_rejected(raw, actual, numeric_reason, RiskLevel::High);
    }
    lemma_claims_unknown(lower);
    if actual != RiskLevel::Unknown && claims_risk(lower, RiskLevel::Unknown) {
        lemma_changed_risk_is_rejected(raw, actual, numeric_reason, RiskLevel::Unknown);
    }
}

/// What an output that passes the guard satisfies, spelled out: its trimmed
/// text is not empty and takes at most 2500 UTF-8 bytes; lower-cased, it names
/// the deterministic level and claims no other in any recognised phrasing, it
/// mentions a human, an inspection step (`inspection`, `inspect`, `verify` or
/// `review`) and a limitation (`limitation`, `sensor` or `pump curve`); and the
/// numeric check found nothing.
pub proof fn lemma_passed_output_spelled_out(
    raw: Seq<char>,
    actual: RiskLevel,
    numeric_reason: Option<Seq<char>>,
)
    requires
        guard_reasons(raw, actual, numeric_reason).len() == 0,
    ensures
        trim(raw).len() > 0,
        encode_utf8(trim(raw)).len() <= 2500,
        ({
            let lower = lowercase(trim(raw));
            &&& contains(lower, "human"@)
            &&& contains(lower, "inspection"@) || contains(lower, "inspect"@) || contains(
                lower,
                "verify"@,
            ) || contains(lower, "review"@)
            &&& contains(lower, "limitation"@) || contains(lower, "sensor"@) || contains(
                lower,
                "pump curve"@,
            )
        }),
        numeric_reason is None,
{
    lemma_passed_output_is_safe(raw, actual, numeric_reason);
}

/// An output that passes the guard names the deterministic level and claims no
/// other, in any recognised phrasing.
pub proof fn lemma_passed_output_keeps_level(
    raw: Seq<char>,
    actual: RiskLevel,
    numeric_reason: Option<Seq<char>>,
)
    requires
        guard_reasons(raw, actual, numeric_reason).len() == 0,
    ensures
        actual == RiskLevel::Low ==> contains(lowercase(trim(raw)), "low"@),
        actual != RiskLevel::Low ==> !contains(lowercase(trim(raw)), "low risk"@)
            && !contains(lowercase(trim(raw)), "risk level low"@)
           
            && !contains(lowercase(trim(raw)), "risk is low"@)
            && !contains(lowercase(trim(raw)), "risk: low"@),
        actual == RiskLevel::Medium ==> contains(lowercase(trim(raw)), "medium"@),
        actual != RiskLevel::Medium ==> !contains(lowercase(trim(raw)), "medium risk"@)
            && !contains(lowercase(trim(raw)), "risk level medium"@)
           
            && !contains(lowercase(trim(raw)), "risk is medium"@)
            && !contains(lowercase(trim(raw)), "risk: medium"@),
        actual == RiskLevel::High ==> contains(lowercase(trim(raw)), "high"@),
        actual != RiskLevel::High ==> !contains(lowercase(trim(raw)), "high risk"@)
            && !contains(lowercase(trim(raw)), "risk level high"@)
           
            && !contains(lowercase(trim(raw)), "risk is high"@)
            && !contains(lowercase(trim(raw)), "risk: high"@),
        actual == RiskLevel::Unknown ==> contains(lowercase(trim(raw)), "unknown"@),
        actual != RiskLevel::Unknown ==> !contains(lowercase(trim(raw)), "unknown risk"@)
            && !contains(lowercase(trim(raw)), "risk level unknown"@)
           
            && !contains(lowercase(trim(raw)), "risk is unknown"@)
            && !contains(lowercase(trim(raw)), "risk: unknown"@),
{
    let lower = lowercase(trim(raw));
    lemma_passed_output_is_safe(raw, actual, numeric_reason);
    lemma_claims_low(lower);
    lemma_claims_medium(lower);
    lemma_claims_high(lower);
    lemma_claims_unknown(lower);
}

/// The human-inspection caveat is found exactly when the text mentions a human,
/// an inspection step and a limitation.
pub proof fn lemma_human_caveat(lower: Seq<char>)
    ensures
        human_reasons(lower).len() == 0 <==> (contains(lower, "human"@) && (contains(
            lower,
            "inspection"@,
        ) || contains(lower, "inspect"@) || contains(lower, "verify"@) || contains(
            lower,
            "review"@,
        )) && (contains(lower, "limitation"@) || contains(lower, "sensor"@) || contains(
            lower,
            "pump curve"@,
        ))),
        human_reasons(lower).len() > 0 ==> human_reasons(lower)
            == seq!["omits_human_inspection_limitations"@],
{
}

/// The phrasings that claim LOW risk.
proof fn lemma_claims_low(lower: Seq<char>)
    ensures
        claims_risk(lower, RiskLevel::Low) <==> (contains(lower, "low risk"@) || contains(
            lower,
            "risk level low"@,
        ) || contains(lower, "risk is low"@) || contains(lower, "risk: low"@)),
        risk_word_lower(RiskLevel::Low) == "low"@,
        "changes_risk_level_to_"@ + risk_word_lower(RiskLevel::Low) == "changes_risk_level_to_low"@,
{
    reveal_strlit("low");
    reveal_strlit(" risk");
    reveal_strlit("risk level ");
    reveal_strlit("risk is ");
    reveal_strlit("risk: ");
    reveal_strlit("low risk");
    reveal_strlit("risk level low");
    reveal_strlit("risk is low");
    reveal_strlit("risk: low");
    reveal_strlit("changes_risk_level_to_");
    reveal_strlit("changes_risk_level_to_low");
    assert("low"@ + " risk"@ =~= "low risk"@);
    assert("risk level "@ + "low"@ =~= "risk level low"@);
    assert("risk is "@ + "low"@ =~= "risk is low"@);
    assert("risk: "@ + "low"@ =~= "risk: low"@);
    assert("changes_risk_level_to_"@ + "low"@ =~= "changes_risk_level_to_low"@);
}

/// The phrasings that claim MEDIUM risk.
proof fn lemma_claims_medium(lower: Seq<char>)
    ensures
        claims_risk(lower, RiskLevel::Medium) <==> (contains(lower, "medium risk"@) || contains(
            lower,
            "risk level medium"@,
        ) || contains(lower, "risk is medium"@) || contains(lower, "risk: medium"@)),
        risk_word_lower(RiskLevel::Medium) == "medium"@,
        "changes_risk_level_to_"@ + risk_word_lower(RiskLevel::Medium) == "changes_risk_level_to_medium"@,
{
    reveal_strlit("medium");
    reveal_strlit(" risk");
    reveal_strlit("risk level ");
    reveal_strlit("risk is ");
    reveal_strlit("risk: ");
    reveal_strlit("medium risk");
    reveal_strlit("risk level medium");
    reveal_strlit("risk is medium");
    reveal_strlit("risk: medium");
    reveal_strlit("changes_risk_level_to_");
    reveal_strlit("changes_risk_level_to_medium");
    assert("medium"@ + " risk"@ =~= "medium risk"@);
    assert("risk level "@ + "medium"@ =~= "risk level medium"@);
    assert("risk is "@ + "medium"@ =~= "risk is medium"@);
    assert("risk: "@ + "medium"@ =~= "risk: medium"@);
    assert("changes_risk_level_to_"@ + "medium"@ =~= "changes_risk_level_to_medium"@);
}

/// The phrasings that claim HIGH risk.
proof fn lemma_claims_high(lower: Seq<char>)
    ensures
        claims_risk(lower, RiskLevel::High) <==> (contains(lower, "high risk"@) || contains(
            lower,
            "risk level high"@,
        ) || contains(lower, "risk is high"@) || contains(lower, "risk: high"@)),
        risk_word_lower(RiskLevel::High) == "high"@,
        "changes_risk_level_to_"@ + risk_word_lower(RiskLevel::High) == "changes_risk_level_to_high"@,
{
    reveal_strlit("high");
    reveal_strlit(" risk");
    reveal_strlit("risk level ");
    reveal_strlit("risk is ");
    reveal_strlit("risk: ");
    reveal_strlit("high risk");
    reveal_strlit("risk level high");
    reveal_strlit("risk is high");
    reveal_strlit("risk: high");
    reveal_strlit("changes_risk_level_to_");
    reveal_strlit("changes_risk_level_to_high");
    assert("high"@ + " risk"@ =~= "high risk"@);
    assert("risk level "@ + "high"@ =~= "risk level high"@);
    assert("risk is "@ + "high"@ =~= "risk is high"@);
    assert("risk: "@ + "high"@ =~= "risk: high"@);
    assert("changes_risk_level_to_"@ + "high"@ =~= "changes_risk_level_to_high"@);
}

/// The phrasings that claim UNKNOWN risk.
proof fn lemma_claims_unknown(lower: Seq<char>)
    ensures
        claims_risk(lower, RiskLevel::Unknown) <==> (contains(lower, "unknown risk"@) || contains(
            lower,
            "risk level unknown"@,
        ) || contains(lower, "risk is unknown"@) || contains(lower, "risk: unknown"@)),
        risk_word_lower(RiskLevel::Unknown) == "unknown"@,
        "changes_risk_level_to_"@ + risk_word_lower(RiskLevel::Unknown) == "changes_risk_level_to_unknown"@,
{
    reveal_strlit("unknown");
    reveal_strlit(" risk");
    reveal_strlit("risk level ");
    reveal_strlit("risk is ");
    reveal_strlit("risk: ");
    reveal_strlit("unknown risk");
    reveal_strlit("risk level unknown");
    reveal_strlit("risk is unknown");
    reveal_strlit("risk: unknown");
    reveal_strlit("changes_risk_level_to_");
    reveal_strlit("changes_risk_level_to_unknown");
    assert("unknown"@ + " risk"@ =~= "unknown risk"@);
    assert("risk level "@ + "unknown"@ =~= "risk level unknown"@);
    assert("risk is "@ + "unknown"@ =~= "risk is unknown"@);
    assert("risk: "@ + "unknown"@ =~= "risk: unknown"@);
    assert("changes_risk_level_to_"@ + "unknown"@ =~= "changes_risk_level_to_unknown"@);
}

/// A reason among the risk-level reasons of the trimmed output is reported.
proof fn lemma_risk_reason_reported(
    raw: Seq<char>,
    actual: RiskLevel,
    numeric_reason: Option<Seq<char>>,
    reason: Seq<char>,
)
    requires
        risk_reasons(lowercase(trim(raw)), actual).contains(reason),
    ensures
        guard_reasons(raw, actual, numeric_reason).len() > 0,
        guard_reasons(raw, actual, numeric_reason).contains(reason),
{
    let out = trim(raw);
    let lower = lowercase(out);
    let r1 = reason_if(out.len() == 0, "empty_output"@);
    let r2 = reason_if(encode_utf8(out).len() > MAX_OUTPUT_BYTES, "output_too_long"@);
    let num = match numeric_reason {
        Some(r) => seq![r],
        None => Seq::<Seq<char>>::empty(),
    };
    lemma_contains_right(r1 + r2, risk_reasons(lower, actual), reason);
    lemma_contains_left(r1 + r2 + risk_reasons(lower, actual), certainty_reasons(lower), reason);
    lemma_contains_left(
        r1 + r2 + risk_reasons(lower, actual) + certainty_reasons(lower),
        control_reasons(lower),
        reason,
    );
    lemma_contains_left(
        r1 + r2 + risk_reasons(lower, actual) + certainty_reasons(lower) + control_reasons(lower),
        human_reasons(lower),
        reason,
    );
    lemma_contains_left(text_reasons(out, actual), num, reason);
}

/// An element of the left part of a concatenation is an element of the whole.
proof fn lemma_contains_left(a: Seq<Seq<char>>, b: Seq<Seq<char>>, x: Seq<char>)
    requires
        a.contains(x),
    ensures
        (a + b).contains(x),
{
    let i = choose|i: int| 0 <= i < a.len() && a[i] == x;
    assert((a + b)[i] == x);
}

/// An element of the right part of a concatenation is an element of the whole.
proof fn lemma_contains_right(a: Seq<Seq<char>>, b: Seq<Seq<char>>, x: Seq<char>)
    requires
        b.contains(x),
    ensures
        (a + b).contains(x),
{
    let i = choose|i: int| 0 <= i < b.len() && b[i] == x;
    assert((a + b)[a.len() + i] == x);
}

} // verus!
