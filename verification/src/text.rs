//! Character-level text operations with their mathematical meaning.
//!
//! Text is modelled as `Seq<char>`, the view that vstd gives `str` and
//! `String`. Searching, splitting, trimming and ASCII case folding are stated
//! here once and used by every module that inspects text.
use vstd::prelude::*;

verus! {

// ---------------------------------------------------------------------------
// Specifications
// ---------------------------------------------------------------------------

/// ASCII lower-casing of one character; every other character is unchanged.
pub open spec fn ascii_lower(c: char) -> char {
    if 'A' <= c && c <= 'Z' {
        ((c as u32) + 32) as char
    } else {
        c
    }
}

/// ASCII lower-casing of a whole text.
pub open spec fn lowercase(s: Seq<char>) -> Seq<char> {
    Seq::new(s.len(), |i: int| ascii_lower(s[i]))
}

/// ASCII letters and digits.
pub open spec fn is_ascii_alphanumeric(c: char) -> bool {
    ('a' <= c && c <= 'z') || ('A' <= c && c <= 'Z') || ('0' <= c && c <= '9')
}

/// The Unicode `White_Space` characters.
pub open spec fn is_whitespace(c: char) -> bool {
    ||| c == ' '
    ||| ('\u{09}' <= c && c <= '\u{0D}')
    ||| c == '\u{85}'
    ||| c == '\u{A0}'
    ||| c == '\u{1680}'
    ||| ('\u{2000}' <= c && c <= '\u{200A}')
    ||| c == '\u{2028}'
    ||| c == '\u{2029}'
    ||| c == '\u{202F}'
    ||| c == '\u{205F}'
    ||| c == '\u{3000}'
}

/// `p` occurs in `s` starting at position `i`.
pub open spec fn occurs_at(s: Seq<char>, p: Seq<char>, i: int) -> bool {
    0 <= i && i + p.len() <= s.len() && s.subrange(i, i + p.len()) == p
}

/// `p` occurs somewhere in `s`.
pub open spec fn contains(s: Seq<char>, p: Seq<char>) -> bool {
    exists|i: int| occurs_at(s, p, i)
}

/// The first position at or after `i` where `p` occurs in `s`.
pub open spec fn find_from(s: Seq<char>, p: Seq<char>, i: nat) -> Option<nat>
    decreases s.len() - i,
{
    if i + p.len() > s.len() {
        None
    } else if occurs_at(s, p, i as int) {
        Some(i)
    } else if i >= s.len() {
        None
    } else {
        find_from(s, p, i + 1)
    }
}

/// The text before the first occurrence of `p` (all of `s` when `p` does not occur):
/// the first item that splitting `s` on `p` yields.
pub open spec fn before_first(s: Seq<char>, p: Seq<char>) -> Seq<char> {
    match find_from(s, p, 0) {
        Some(i) => s.take(i as int),
        None => s,
    }
}

/// The last item that splitting `s` on a non-empty `p` yields: matches are taken
/// from the left without overlapping, and the text after the last one remains.
pub open spec fn after_last(s: Seq<char>, p: Seq<char>) -> Seq<char>
    decreases s.len(),
{
    if p.len() == 0 {
        s
    } else {
        match find_from(s, p, 0) {
            Some(i) => if i + p.len() <= s.len() {
                after_last(s.skip((i + p.len()) as int), p)
            } else {
                s
            },
            None => s,
        }
    }
}

/// `s` with every occurrence of a non-empty `p` replaced by `r`; matches are
/// taken from the left without overlapping.
pub open spec fn replace_all(s: Seq<char>, p: Seq<char>, r: Seq<char>) -> Seq<char>
    decreases s.len(),
{
    if p.len() == 0 {
        s
    } else {
        match find_from(s, p, 0) {
            Some(i) => if i + p.len() <= s.len() {
                s.take(i as int) + r + replace_all(s.skip((i + p.len()) as int), p, r)
            } else {
                s
            },
            None => s,
        }
    }
}

/// `s` without its leading white space.
pub open spec fn trim_start(s: Seq<char>) -> Seq<char>
    decreases s.len(),
{
    if s.len() > 0 && is_whitespace(s[0]) {
        trim_start(s.drop_first())
    } else {
        s
    }
}

/// `s` without its trailing white space.
pub open spec fn trim_end(s: Seq<char>) -> Seq<char>
    decreases s.len(),
{
    if s.len() > 0 && is_whitespace(s.last()) {
        trim_end(s.drop_last())
    } else {
        s
    }
}

/// `s` without leading and trailing white space.
pub open spec fn trim(s: Seq<char>) -> Seq<char> {
    trim_end(trim_start(s))
}

/// The pieces of `s` separated by `sep`, joined back with `sep` in between.
pub open spec fn join(items: Seq<Seq<char>>, sep: Seq<char>) -> Seq<char>
    decreases items.len(),
{
    if items.len() == 0 {
        Seq::empty()
    } else if items.len() == 1 {
        items[0]
    } else {
        join(items.drop_last(), sep) + sep + items.last()
    }
}

/// The decimal digit character for `d < 10`.
pub open spec fn digit_char(d: nat) -> char {
    ((48 + d) as u8) as char
}

/// The decimal notation of a natural number.
pub open spec fn decimal(n: nat) -> Seq<char>
    decreases n,
{
    if n < 10 {
        seq![digit_char(n)]
    } else {
        decimal(n / 10).push(digit_char(n % 10))
    }
}

/// The decimal notation of an integer, with a leading minus sign when negative.
pub open spec fn signed_decimal(n: int) -> Seq<char> {
    if n < 0 {
        seq!['-'] + decimal((-n) as nat)
    } else {
        decimal(n as nat)
    }
}

// ---------------------------------------------------------------------------
// Lemmas
// ---------------------------------------------------------------------------

/// What `find_from` returns is an occurrence, and no occurrence lies before it.
pub proof fn lemma_find_from_some(s: Seq<char>, p: Seq<char>, i: nat)
    ensures
        match find_from(s, p, i) {
            Some(k) => i <= k && occurs_at(s, p, k as int) && forall|j: int|
                i <= j < k ==> !occurs_at(s, p, j),
            None => forall|j: int| i <= j ==> !occurs_at(s, p, j),
        },
    decreases s.len() - i,
{
    if i + p.len() > s.len() {
    } else if occurs_at(s, p, i as int) {
    } else if i >= s.len() {
    } else {
        lemma_find_from_some(s, p, i + 1);
    }
}

/// `contains` holds exactly when a search from the start finds something.
pub proof fn lemma_contains_find(s: Seq<char>, p: Seq<char>)
    ensures
        contains(s, p) <==> find_from(s, p, 0) is Some,
{
    lemma_find_from_some(s, p, 0);
    if let Some(k) = find_from(s, p, 0) {
        assert(occurs_at(s, p, k as int));
    }
}

/// An occurrence inside a slice of `s` is an occurrence in `s`.
pub proof fn lemma_contains_subrange(s: Seq<char>, a: int, b: int, p: Seq<char>)
    requires
        0 <= a <= b <= s.len(),
        contains(s.subrange(a, b), p),
    ensures
        contains(s, p),
{
    let sub = s.subrange(a, b);
    let i = choose|i: int| occurs_at(sub, p, i);
    assert(s.subrange(a + i, a + i + p.len()) =~= sub.subrange(i, i + p.len()));
    assert(occurs_at(s, p, a + i));
}

/// The text after the last match of a non-empty `p` holds no match of it.
pub proof fn lemma_after_last_free(s: Seq<char>, p: Seq<char>)
    requires
        p.len() > 0,
    ensures
        !contains(after_last(s, p), p),
    decreases s.len(),
{
    lemma_find_from_some(s, p, 0);
    lemma_contains_find(s, p);
    match find_from(s, p, 0) {
        Some(i) => {
            lemma_after_last_free(s.skip((i + p.len()) as int), p);
        },
        None => {},
    }
}

/// A text that holds no match of a non-empty `p` is its own last piece.
pub proof fn lemma_after_last_absent(s: Seq<char>, p: Seq<char>)
    requires
        p.len() > 0,
        !contains(s, p),
    ensures
        after_last(s, p) == s,
{
    lemma_contains_find(s, p);
}

/// The text before the first match of a non-empty `p` holds no match of it,
/// and it is a prefix of `s`.
pub proof fn lemma_before_first_free(s: Seq<char>, p: Seq<char>)
    requires
        p.len() > 0,
    ensures
        !contains(before_first(s, p), p),
        before_first(s, p).len() <= s.len(),
        before_first(s, p) == s.subrange(0, before_first(s, p).len() as int),
{
    lemma_find_from_some(s, p, 0);
    lemma_contains_find(s, p);
    match find_from(s, p, 0) {
        Some(i) => {
            let x = s.take(i as int);
            assert(x =~= s.subrange(0, i as int));
            if contains(x, p) {
                let j = choose|j: int| occurs_at(x, p, j);
                assert(s.subrange(j, j + p.len()) =~= x.subrange(j, j + p.len()));
                assert(occurs_at(s, p, j));
            }
        },
        None => {
            assert(s =~= s.subrange(0, s.len() as int));
        },
    }
}

/// A text without `p` is its own first piece.
pub proof fn lemma_before_first_absent(s: Seq<char>, p: Seq<char>)
    requires
        !contains(s, p),
    ensures
        before_first(s, p) == s,
{
    lemma_contains_find(s, p);
}

/// `trim_start` drops a prefix, and what remains starts with no white space.
proof fn lemma_trim_start_shape(s: Seq<char>) -> (k: int)
    ensures
        0 <= k <= s.len(),
        trim_start(s) == s.skip(k),
        trim_start(s).len() > 0 ==> !is_whitespace(trim_start(s)[0]),
    decreases s.len(),
{
    if s.len() > 0 && is_whitespace(s[0]) {
        let k = lemma_trim_start_shape(s.drop_first());
        assert(s.drop_first().skip(k) =~= s.skip(k + 1));
        k + 1
    } else {
        assert(s.skip(0) =~= s);
        0
    }
}

/// `trim_end` keeps a prefix, and what remains ends with no white space.
proof fn lemma_trim_end_shape(s: Seq<char>) -> (k: int)
    ensures
        0 <= k <= s.len(),
        trim_end(s) == s.take(k),
        trim_end(s).len() > 0 ==> !is_whitespace(trim_end(s).last()),
    decreases s.len(),
{
    if s.len() > 0 && is_whitespace(s.last()) {
        let k = lemma_trim_end_shape(s.drop_last());
        assert(s.drop_last().take(k) =~= s.take(k));
        k
    } else {
        assert(s.take(s.len() as int) =~= s);
        s.len() as int
    }
}

/// Trimming keeps a slice of the text, which neither starts nor ends with
/// white space, and trimming it again changes nothing.
pub proof fn lemma_trim_shape(s: Seq<char>) -> (r: (int, int))
    ensures
        0 <= r.0 <= r.1 <= s.len(),
        trim(s) == s.subrange(r.0, r.1),
        trim(trim(s)) == trim(s),
{
    let a = lemma_trim_start_shape(s);
    let t = trim_start(s);
    let k = lemma_trim_end_shape(t);
    assert(t.take(k) =~= s.subrange(a, a + k));
    let w = trim(s);
    if w.len() > 0 {
        assert(w[0] == t[0]);
        assert(trim_start(w) == w);
        assert(trim_end(w) == w);
    } else {
        assert(trim_start(w) == w);
        assert(trim_end(w) == w);
    }
    (a, a + k)
}

proof fn lemma_trim_start_skip(s: Seq<char>, i: int)
    requires
        0 <= i < s.len(),
        is_whitespace(s[i]),
    ensures
        trim_start(s.subrange(i, s.len() as int)) == trim_start(s.subrange(i + 1, s.len() as int)),
{
    assert(s.subrange(i, s.len() as int).drop_first() =~= s.subrange(i + 1, s.len() as int));
}

proof fn lemma_trim_end_skip(s: Seq<char>, a: int, j: int)
    requires
        0 <= a < j <= s.len(),
        is_whitespace(s[j - 1]),
    ensures
        trim_end(s.subrange(a, j)) == trim_end(s.subrange(a, j - 1)),
{
    assert(s.subrange(a, j).drop_last() =~= s.subrange(a, j - 1));
}

// ---------------------------------------------------------------------------
// Executable operations
// ---------------------------------------------------------------------------

/// Appends one character to a `String`.
///
/// Trusted: `String::push` appends the given character at the end of the text;
/// that is all this contract claims of it.
#[verifier::external_body]
pub fn push_char(s: &mut String, c: char)
    ensures
        final(s)@ == old(s)@.push(c),
{
    s.push(c);
}

/// The characters of a text, in order.
pub fn chars_of(s: &str) -> (out: Vec<char>)
    ensures
        out@ == s@,
{
    let mut out: Vec<char> = Vec::new();
    for c in it: s.chars()
        invariant
            out@ == it.seq().take(it.index() as int),
    {
        out.push(c);
    }
    out
}

/// A `String` holding the given characters.
pub fn string_from_chars(chars: &Vec<char>) -> (out: String)
    ensures
        out@ == chars@,
{
    let mut out = String::new();
    let mut i: usize = 0;
    while i < chars.len()
        invariant
            i <= chars.len(),
            out@ == chars@.take(i as int),
        decreases chars.len() - i,
    {
        push_char(&mut out, chars[i]);
        proof {
            assert(chars@.take(i as int).push(chars@[i as int]) =~= chars@.take(i as int + 1));
        }
        i = i + 1;
    }
    proof {
        assert(chars@.take(chars.len() as int) =~= chars@);
    }
    out
}

/// A `String` holding the same text as `s`.
pub fn to_string(s: &str) -> (out: String)
    ensures
        out@ == s@,
{
    String::from_str(s)
}

/// Whether two texts are equal.
pub fn str_eq(a: &str, b: &str) -> (r: bool)
    ensures
        r == (a@ == b@),
{
    let x = chars_of(a);
    let y = chars_of(b);
    if x.len() != y.len() {
        return false;
    }
    let mut i: usize = 0;
    while i < x.len()
        invariant
            x.len() == y.len(),
            x@ == a@,
            y@ == b@,
            i <= x.len(),
            forall|k: int| 0 <= k < i ==> x@[k] == y@[k],
        decreases x.len() - i,
    {
        if x[i] != y[i] {
            return false;
        }
        i = i + 1;
    }
    proof {
        assert(x@ =~= y@);
    }
    true
}

/// ASCII lower-casing of one character.
pub fn ascii_lower_char(c: char) -> (r: char)
    ensures
        r == ascii_lower(c),
{
    if 'A' <= c && c <= 'Z' {
        ((c as u8) + 32) as char
    } else {
        c
    }
}

/// ASCII lower-casing of a text.
pub fn lowercase_chars(s: &Vec<char>) -> (out: Vec<char>)
    ensures
        out@ == lowercase(s@),
{
    let mut out: Vec<char> = Vec::new();
    let mut i: usize = 0;
    while i < s.len()
        invariant
            i <= s.len(),
            out@.len() == i,
            forall|k: int| 0 <= k < i ==> out@[k] == ascii_lower(s@[k]),
        decreases s.len() - i,
    {
        out.push(ascii_lower_char(s[i]));
        i = i + 1;
    }
    proof {
        assert(out@ =~= lowercase(s@));
    }
    out
}

/// Whether a character is Unicode white space.
pub fn is_whitespace_char(c: char) -> (r: bool)
    ensures
        r == is_whitespace(c),
{
    c == ' ' || ('\u{09}' <= c && c <= '\u{0D}') || c == '\u{85}' || c == '\u{A0}' || c
        == '\u{1680}' || ('\u{2000}' <= c && c <= '\u{200A}') || c == '\u{2028}' || c
        == '\u{2029}' || c == '\u{202F}' || c == '\u{205F}' || c == '\u{3000}'
}

/// Whether a character is an ASCII letter or digit.
pub fn is_ascii_alphanumeric_char(c: char) -> (r: bool)
    ensures
        r == is_ascii_alphanumeric(c),
{
    ('a' <= c && c <= 'z') || ('A' <= c && c <= 'Z') || ('0' <= c && c <= '9')
}

/// Whether `p` occurs in `s` at position `i`.
pub fn occurs_at_pos(s: &Vec<char>, p: &Vec<char>, i: usize) -> (r: bool)
    ensures
        r == occurs_at(s@, p@, i as int),
{
    if i > s.len() || s.len() - i < p.len() {
        return false;
    }
    let mut j: usize = 0;
    while j < p.len()
        invariant
            i + p.len() <= s.len(),
            j <= p.len(),
            forall|k: int| 0 <= k < j ==> s@[i + k] == p@[k],
        decreases p.len() - j,
    {
        if s[i + j] != p[j] {
            proof {
                assert(s@.subrange(i as int, i + p.len())[j as int] != p@[j as int]);
            }
            return false;
        }
        j = j + 1;
    }
    proof {
        assert(s@.subrange(i as int, i + p.len()) =~= p@);
    }
    true
}

/// The first position at or after `start` where `p` occurs in `s`.
pub fn find_from_pos(s: &Vec<char>, p: &Vec<char>, start: usize) -> (r: Option<usize>)
    ensures
        match r {
            Some(k) => find_from(s@, p@, start as nat) == Some(k as nat),
            None => find_from(s@, p@, start as nat) is None,
        },
{
    let mut i = start;
    while i <= s.len() && s.len() - i >= p.len()
        invariant
            start <= i,
            find_from(s@, p@, start as nat) == find_from(s@, p@, i as nat),
        decreases s.len() + 1 - i,
    {
        if occurs_at_pos(s, p, i) {
            return Some(i);
        }
        if i == s.len() {
            return None;
        }
        i = i + 1;
    }
    None
}

/// Whether `p` occurs anywhere in `s`.
pub fn contains_chars(s: &Vec<char>, p: &Vec<char>) -> (r: bool)
    ensures
        r == contains(s@, p@),
{
    proof {
        lemma_contains_find(s@, p@);
    }
    find_from_pos(s, p, 0).is_some()
}

/// Whether the text `p` occurs anywhere in `s`.
pub fn contains_str(s: &Vec<char>, p: &str) -> (r: bool)
    ensures
        r == contains(s@, p@),
{
    let pc = chars_of(p);
    contains_chars(s, &pc)
}

/// The bounds `[a, b)` of `s` that remain once white space is removed from both ends.
pub fn trim_bounds(s: &Vec<char>) -> (r: (usize, usize))
    ensures
        r.0 <= r.1 <= s.len(),
        s@.subrange(r.0 as int, r.1 as int) == trim(s@),
{
    let n = s.len();
    let mut a: usize = 0;
    proof {
        assert(s@.subrange(0, n as int) =~= s@);
    }
    while a < n && is_whitespace_char(s[a])
        invariant
            a <= n,
            n == s.len(),
            trim_start(s@) == trim_start(s@.subrange(a as int, n as int)),
        decreases n - a,
    {
        proof {
            lemma_trim_start_skip(s@, a as int);
        }
        a = a + 1;
    }
    let ghost start = s@.subrange(a as int, n as int);
    assert(trim_start(start) == start);
    let mut b: usize = n;
    proof {
        assert(s@.subrange(a as int, n as int) =~= start);
    }
    while b > a && is_whitespace_char(s[b - 1])
        invariant
            a <= b <= n,
            n == s.len(),
            trim_end(start) == trim_end(s@.subrange(a as int, b as int)),
            start == s@.subrange(a as int, n as int),
        decreases b - a,
    {
        proof {
            lemma_trim_end_skip(s@, a as int, b as int);
        }
        b = b - 1;
    }
    proof {
        let t = s@.subrange(a as int, b as int);
        if t.len() > 0 {
            assert(t.last() == s@[b - 1]);
        }
        assert(trim_end(t) == t);
    }
    (a, b)
}

/// The text `s` with white space removed from both ends.
pub fn trim_str(s: &str) -> (r: &str)
    ensures
        r@ == trim(s@),
{
    let cs = chars_of(s);
    let (a, b) = trim_bounds(&cs);
    s.substring_char(a, b)
}

/// The characters of `s` in positions `[a, b)`, as a new `String`.
pub fn slice_to_string(s: &Vec<char>, a: usize, b: usize) -> (out: String)
    requires
        a <= b <= s.len(),
    ensures
        out@ == s@.subrange(a as int, b as int),
{
    let mut out = String::new();
    let mut i = a;
    while i < b
        invariant
            a <= i <= b,
            b <= s.len(),
            out@ == s@.subrange(a as int, i as int),
        decreases b - i,
    {
        push_char(&mut out, s[i]);
        proof {
            assert(s@.subrange(a as int, i as int).push(s@[i as int]) =~= s@.subrange(
                a as int,
                i + 1,
            ));
        }
        i = i + 1;
    }
    out
}

/// The items of `items` joined with `sep` in between.
pub fn join_strings(items: &Vec<String>, sep: &str) -> (out: String)
    ensures
        out@ == join(items@.map_values(|v: String| v@), sep@),
{
    let ghost views = items@.map_values(|v: String| v@);
    let mut out = String::new();
    let mut i: usize = 0;
    while i < items.len()
        invariant
            i <= items.len(),
            views == items@.map_values(|v: String| v@),
            out@ == join(views.take(i as int), sep@),
        decreases items.len() - i,
    {
        proof {
            assert(views.take(i + 1).drop_last() =~= views.take(i as int));
        }
        if i == 0 {
            out.append(items[i].as_str());
            proof {
                assert(views.take(1) =~= seq![items@[0]@]);
            }
        } else {
            out.append(sep);
            out.append(items[i].as_str());
        }
        i = i + 1;
    }
    proof {
        assert(views.take(items.len() as int) =~= views);
    }
    out
}

/// The decimal notation of `n`.
pub fn decimal_string(n: u64) -> (out: String)
    ensures
        out@ == decimal(n as nat),
    decreases n,
{
    if n < 10 {
        let mut out = String::new();
        push_char(&mut out, ((n as u8) + 48) as char);
        proof {
            assert(out@ =~= seq![digit_char(n as nat)]);
        }
        out
    } else {
        let mut out = decimal_string(n / 10);
        push_char(&mut out, (((n % 10) as u8) + 48) as char);
        out
    }
}

/// The decimal notation of `n`, with a leading minus sign when it is negative.
pub fn signed_decimal_string(n: i64) -> (out: String)
    ensures
        out@ == signed_decimal(n as int),
{
    if n < 0 {
        let magnitude: u64 = (-(n as i128)) as u64;
        let digits = decimal_string(magnitude);
        let out = String::from_str("-").concat(digits.as_str());
        proof {
            reveal_strlit("-");
        }
        out
    } else {
        decimal_string(n as u64)
    }
}

/// The text before the first occurrence of `p` in `s`.
pub fn before_first_chars(s: &Vec<char>, p: &Vec<char>) -> (out: Vec<char>)
    ensures
        out@ == before_first(s@, p@),
{
    match find_from_pos(s, p, 0) {
        Some(i) => {
            proof {
                lemma_find_from_some(s@, p@, 0);
            }
            slice_chars(s, 0, i)
        },
        None => slice_chars(s, 0, s.len()),
    }
}

/// The characters of `s` in positions `[a, b)`.
pub fn slice_chars(s: &Vec<char>, a: usize, b: usize) -> (out: Vec<char>)
    requires
        a <= b <= s.len(),
    ensures
        out@ == s@.subrange(a as int, b as int),
{
    let mut out: Vec<char> = Vec::new();
    let mut i = a;
    while i < b
        invariant
            a <= i <= b,
            b <= s.len(),
            out@ == s@.subrange(a as int, i as int),
        decreases b - i,
    {
        out.push(s[i]);
        proof {
            assert(s@.subrange(a as int, i as int).push(s@[i as int]) =~= s@.subrange(
                a as int,
                i + 1,
            ));
        }
        i = i + 1;
    }
    out
}

/// The last item that splitting `s` on the non-empty `p` yields.
pub fn after_last_chars(s: &Vec<char>, p: &Vec<char>) -> (out: Vec<char>)
    requires
        p.len() > 0,
    ensures
        out@ == after_last(s@, p@),
{
    let mut rest = slice_chars(s, 0, s.len());
    proof {
        assert(rest@ =~= s@);
    }
    loop
        invariant
            p.len() > 0,
            after_last(s@, p@) == after_last(rest@, p@),
        decreases rest.len(),
    {
        match find_from_pos(&rest, p, 0) {
            Some(i) => {
                proof {
                    lemma_find_from_some(rest@, p@, 0);
                    assert(rest@.skip((i + p.len()) as int) =~= rest@.subrange(
                        (i + p.len()) as int,
                        rest.len() as int,
                    ));
                }
                rest = slice_chars(&rest, i + p.len(), rest.len());
            },
            None => {
                return rest;
            },
        }
    }
}

/// `s` with every occurrence of the non-empty `p` replaced by `r`.
pub fn replace_chars(s: &Vec<char>, p: &Vec<char>, r: &Vec<char>) -> (out: Vec<char>)
    requires
        p.len() > 0,
    ensures
        out@ == replace_all(s@, p@, r@),
{
    let mut rest = slice_chars(s, 0, s.len());
    let mut done: Vec<char> = Vec::new();
    proof {
        assert(rest@ =~= s@);
        assert(done@ + replace_all(rest@, p@, r@) =~= replace_all(s@, p@, r@));
    }
    loop
        invariant
            p.len() > 0,
            done@ + replace_all(rest@, p@, r@) == replace_all(s@, p@, r@),
        decreases rest.len(),
    {
        match find_from_pos(&rest, p, 0) {
            Some(i) => {
                proof {
                    lemma_find_from_some(rest@, p@, 0);
                }
                let ghost old_done = done@;
                let ghost old_rest = rest@;
                let head = slice_chars(&rest, 0, i);
                let tail = slice_chars(&rest, i + p.len(), rest.len());
                append_chars(&mut done, &head);
                append_chars(&mut done, r);
                proof {
                    assert(old_rest.skip((i + p.len()) as int) =~= tail@);
                    assert(old_rest.take(i as int) =~= head@);
                    assert(done@ + replace_all(tail@, p@, r@) =~= old_done + (head@ + r@
                        + replace_all(tail@, p@, r@)));
                }
                rest = tail;
            },
            None => {
                append_chars(&mut done, &rest);
                return done;
            },
        }
    }
}

/// Appends the characters of `extra` to `v`.
pub fn append_chars(v: &mut Vec<char>, extra: &Vec<char>)
    ensures
        final(v)@ == old(v)@ + extra@,
{
    let mut i: usize = 0;
    let ghost start = v@;
    while i < extra.len()
        invariant
            i <= extra.len(),
            v@ == start + extra@.take(i as int),
        decreases extra.len() - i,
    {
        v.push(extra[i]);
        proof {
            assert(start + extra@.take(i as int).push(extra@[i as int]) =~= start + extra@.take(
                i + 1,
            ));
        }
        i = i + 1;
    }
    proof {
        assert(extra@.take(extra.len() as int) =~= extra@);
    }
}

} // verus!
