//! A bounded buffer of the most recent frames of a live or replayed signal,
//! and the choice of the frames that fall in a time window.
use chrono::{DateTime, TimeDelta};
use std::collections::VecDeque;
use vstd::prelude::*;

verus! {

/// Frames in arrival order. Once the buffer holds `max_len` frames, each new
/// frame pushes out the oldest one.
#[derive(Debug, Clone)]
pub struct FrameBuffer<T> {
    max_len: usize,
    frames: VecDeque<T>,
}

/// What pushing `x` does to the frames `s` of a buffer made with `max_len`:
/// the oldest frame leaves when the buffer is full (and not empty).
pub open spec fn pushed<T>(s: Seq<T>, max_len: usize, x: T) -> Seq<T> {
    if s.len() == max_len && s.len() > 0 {
        s.drop_first().push(x)
    } else {
        s.push(x)
    }
}

/// The frames a buffer made with `max_len` holds after `s` was pushed into it:
/// the last `max_len` of them, or all of them when `max_len` is zero (a full
/// empty buffer has nothing to push out, so it keeps growing).
pub open spec fn retained<T>(s: Seq<T>, max_len: usize) -> Seq<T> {
    if max_len == 0 || s.len() <= max_len {
        s
    } else {
        s.skip(s.len() - max_len)
    }
}

impl<T> View for FrameBuffer<T> {
    type V = Seq<T>;

    closed spec fn view(&self) -> Seq<T> {
        self.frames@
    }
}

impl<T> FrameBuffer<T> {
    /// The bound the buffer was made with.
    pub closed spec fn bound(&self) -> usize {
        self.max_len
    }

    /// An empty buffer that keeps at most `max_len` frames.
    pub fn new(max_len: usize) -> (b: Self)
        ensures
            b@ == Seq::<T>::empty(),
            b.bound() == max_len,
    {
        FrameBuffer { max_len, frames: VecDeque::with_capacity(max_len) }
    }

    /// Adds a frame, pushing out the oldest one when the buffer is full.
    pub fn push(&mut self, snapshot: T)
        ensures
            final(self)@ == pushed(old(self)@, old(self).bound(), snapshot),
            final(self).bound() == old(self).bound(),
    {
        if self.frames.len() == self.max_len {
            let _ = self.frames.pop_front();
            proof {
                if old(self)@.len() > 0 {
                    assert(self.frames@ =~= old(self)@.drop_first());
                }
            }
        }
        self.frames.push_back(snapshot);
    }

    /// The most recent frame, if any.
    pub fn latest(&self) -> (r: Option<&T>)
        ensures
            self@.len() == 0 ==> r is None,
            self@.len() > 0 ==> r == Some(&self@.last()),
    {
        let n = self.frames.len();
        if n == 0 {
            None
        } else {
            Some(&self.frames[n - 1])
        }
    }

    /// The frames, oldest first.
    pub fn frames(&self) -> (r: &VecDeque<T>)
        ensures
            r@ == self@,
    {
        &self.frames
    }

    /// The number of frames held.
    pub fn len(&self) -> (n: usize)
        ensures
            n == self@.len(),
    {
        self.frames.len()
    }

    /// A buffer of bound `max_len` into which `snapshots` were pushed in order.
    pub fn from_snapshots(max_len: usize, snapshots: Vec<T>) -> (b: Self)
        ensures
            b@ == retained(snapshots@, max_len),
            b.bound() == max_len,
    {
        let mut buffer = Self::new(max_len);
        let ghost all = snapshots@;
        let mut rest = snapshots;
        let ghost mut i: int = 0;
        proof {
            assert(retained(all.take(0), max_len) =~= Seq::<T>::empty());
            assert(rest@ =~= all.skip(0));
        }
        while rest.len() > 0
            invariant
                0 <= i <= all.len(),
                rest@ == all.skip(i),
                buffer@ == retained(all.take(i), max_len),
                buffer.bound() == max_len,
            decreases rest.len(),
        {
            let x = rest.remove(0);
            proof {
                assert(x == all[i]);
                assert(rest@ =~= all.skip(i + 1));
                lemma_retained_push(all, max_len, i);
            }
            buffer.push(x);
            proof {
                i = i + 1;
            }
        }
        proof {
            assert(all.take(i) =~= all);
        }
        buffer
    }
}

/// Pushing the next frame keeps exactly the frames `retained` describes.
pub proof fn lemma_retained_push<T>(all: Seq<T>, max_len: usize, i: int)
    requires
        0 <= i < all.len(),
    ensures
        pushed(retained(all.take(i), max_len), max_len, all[i]) == retained(all.take(i + 1), max_len),
{
    let before = retained(all.take(i), max_len);
    let after = all.take(i + 1);
    if max_len == 0 {
        assert(all.take(i).push(all[i]) =~= after);
    } else if i < max_len {
        assert(all.take(i).push(all[i]) =~= after);
    } else {
        assert(before.len() == max_len);
        assert(before.drop_first().push(all[i]) =~= after.skip(after.len() - max_len));
    }
}

/// A buffer with a positive bound never holds more frames than its bound.
pub proof fn lemma_bounded<T>(s: Seq<T>, max_len: usize)
    requires
        max_len > 0,
    ensures
        retained(s, max_len).len() <= max_len,
        retained(s, max_len).len() == if s.len() <= max_len {
            s.len()
        } else {
            max_len as nat
        },
{
}

/// After a push, the pushed frame is the latest one.
pub proof fn lemma_push_then_latest<T>(s: Seq<T>, max_len: usize, x: T)
    ensures
        pushed(s, max_len, x).len() > 0,
        pushed(s, max_len, x).last() == x,
{
}

// ---------------------------------------------------------------------------
// Time windows
// ---------------------------------------------------------------------------

/// The UTC instant an RFC 3339 text denotes, as whole seconds since the Unix
/// epoch and the nanoseconds past them (at least 10^9 during a leap second),
/// or `None` when the text is not an RFC 3339 date and time.
pub uninterp spec fn rfc3339_instant(text: Seq<char>) -> Option<(i64, u32)>;

/// The instant `window_seconds` before `as_of`, or `None` when it cannot be
/// represented.
pub uninterp spec fn instant_minus_seconds(as_of: (i64, u32), window_seconds: i64) -> Option<
    (i64, u32),
>;

/// Reads an RFC 3339 timestamp as a UTC instant.
///
/// Trusted: `chrono::DateTime::parse_from_rfc3339` parses the text, a function
/// of the text alone; the instant is read back with `timestamp` and
/// `timestamp_subsec_nanos`, whose pairs order exactly as chrono orders the
/// parsed values (by UTC instant, leap seconds included).
#[verifier::external_body]
pub fn parse_rfc3339_instant(text: &str) -> (r: Option<(i64, u32)>)
    ensures
        r == rfc3339_instant(text@),
{
    match DateTime::parse_from_rfc3339(text) {
        Ok(t) => Some((t.timestamp(), t.timestamp_subsec_nanos())),
        Err(_) => None,
    }
}

/// The instant `window_seconds` before `as_of`.
///
/// Trusted: `chrono::DateTime::checked_sub_signed` subtracts a `TimeDelta` of
/// `window_seconds` seconds (`TimeDelta::try_seconds`) from the instant
/// (`DateTime::from_timestamp`), a function of its arguments alone; `None`
/// when the seconds or the result are out of chrono's range.
#[verifier::external_body]
fn window_start(as_of: (i64, u32), window_seconds: i64) -> (r: Option<(i64, u32)>)
    ensures
        r == instant_minus_seconds(as_of, window_seconds),
{
    match (TimeDelta::try_seconds(window_seconds), DateTime::from_timestamp(as_of.0, as_of.1)) {
        (Some(delta), Some(at)) => match at.checked_sub_signed(delta) {
            Some(start) => Some((start.timestamp(), start.timestamp_subsec_nanos())),
            None => None,
        },
        _ => None,
    }
}

/// `a` is not later than `b`: seconds first, then nanoseconds.
pub open spec fn instant_le(a: (i64, u32), b: (i64, u32)) -> bool {
    a.0 < b.0 || (a.0 == b.0 && a.1 <= b.1)
}

/// The positions among the first `n` timestamps that denote an instant in
/// `[start, end]`, in order.
pub open spec fn positions_in_window(
    timestamps: Seq<Seq<char>>,
    start: (i64, u32),
    end: (i64, u32),
    n: nat,
) -> Seq<int>
    decreases n,
{
    if n == 0 {
        Seq::empty()
    } else {
        let earlier = positions_in_window(timestamps, start, end, (n - 1) as nat);
        match rfc3339_instant(timestamps[n - 1]) {
            Some(t) => if instant_le(start, t) && instant_le(t, end) {
                earlier.push(n - 1)
            } else {
                earlier
            },
            None => earlier,
        }
    }
}

/// Every timestamp before position `n` is an RFC 3339 date and time.
pub open spec fn all_parse_before(timestamps: Seq<Seq<char>>, n: int) -> bool {
    forall|j: int| 0 <= j < n ==> (#[trigger] rfc3339_instant(timestamps[j])) is Some
}

/// The texts of a list of strings.
pub open spec fn string_texts(v: Seq<String>) -> Seq<Seq<char>> {
    v.map_values(|s: String| s@)
}

/// Why no window was selected.
#[derive(Debug, Clone, Copy, PartialEq, Eq, Structural)]
pub enum WindowError {
    /// The as-of time is not an RFC 3339 date and time.
    AsOf,
    /// The timestamp of the frame at this position is not an RFC 3339 date and time.
    Frame(usize),
    /// The window starts before the earliest time that can be represented.
    OutOfRange,
}

/// The positions of the frames whose timestamp lies in `[start, end]`, in
/// order; `Err(i)` at the first frame whose timestamp does not parse, whether
/// or not it would lie in the window.
pub fn frames_in_window(timestamps: &[String], start: (i64, u32), end: (i64, u32)) -> (r: Result<
    Vec<usize>,
    usize,
>)
    ensures
        match r {
            Ok(v) => all_parse_before(string_texts(timestamps@), timestamps@.len() as int)
                && v@.map_values(|p: usize| p as int) == positions_in_window(
                string_texts(timestamps@),
                start,
                end,
                timestamps@.len() as nat,
            ),
            Err(i) => i < timestamps@.len() && all_parse_before(string_texts(timestamps@), i as int)
                && rfc3339_instant(timestamps@[i as int]@) is None,
        },
{
    let ghost ts = string_texts(timestamps@);
    let mut out: Vec<usize> = Vec::new();
    let mut i: usize = 0;
    proof {
        assert(out@.map_values(|p: usize| p as int) =~= Seq::<int>::empty());
    }
    while i < timestamps.len()
        invariant
            i <= timestamps.len(),
            ts == string_texts(timestamps@),
            all_parse_before(ts, i as int),
            out@.map_values(|p: usize| p as int) == positions_in_window(ts, start, end, i as nat),
        decreases timestamps.len() - i,
    {
        proof {
            assert(ts[i as int] == timestamps@[i as int]@);
        }
        match parse_rfc3339_instant(timestamps[i].as_str()) {
            None => {
                return Err(i);
            },
            Some(t) => {
                let ghost before = out@;
                if instant_le_pair(start, t) && instant_le_pair(t, end) {
                    out.push(i);
                    proof {
                        assert(out@.map_values(|p: usize| p as int) =~= before.map_values(
                            |p: usize| p as int,
                        ).push(i as int));
                    }
                }
                proof {
                    assert forall|j: int| 0 <= j < i + 1 implies (#[trigger] rfc3339_instant(
                        ts[j],
                    )) is Some by {
                        if j < i {
                            assert(rfc3339_instant(ts[j]) is Some);
                        }
                    }
                }
            },
        }
        i = i + 1;
    }
    Ok(out)
}

/// Whether `a` is not later than `b`.
fn instant_le_pair(a: (i64, u32), b: (i64, u32)) -> (r: bool)
    ensures
        r == instant_le(a, b),
{
    a.0 < b.0 || (a.0 == b.0 && a.1 <= b.1)
}

/// The positions of the frames whose timestamp lies in the `window_seconds`
/// before `as_of` (both ends included), in order.
///
/// Fails when `as_of` does not parse, when the window's start cannot be
/// represented, or at the first frame whose timestamp does not parse (even
/// one outside the window).
pub fn window_positions(as_of: &str, timestamps: &[String], window_seconds: i64) -> (r: Result<
    Vec<usize>,
    WindowError,
>)
    ensures
        match rfc3339_instant(as_of@) {
            None => r == Err::<Vec<usize>, WindowError>(WindowError::AsOf),
            Some(end) => match instant_minus_seconds(end, window_seconds) {
                None => r == Err::<Vec<usize>, WindowError>(WindowError::OutOfRange),
                Some(start) => match r {
                    Ok(v) => all_parse_before(string_texts(timestamps@), timestamps@.len() as int)
                        && v@.map_values(|p: usize| p as int) == positions_in_window(
                        string_texts(timestamps@),
                        start,
                        end,
                        timestamps@.len() as nat,
                    ),
                    Err(WindowError::Frame(i)) => i < timestamps@.len() && all_parse_before(
                        string_texts(timestamps@),
                        i as int,
                    ) && rfc3339_instant(timestamps@[i as int]@) is None,
                    Err(_) => false,
                },
            },
        },
{
    let end = match parse_rfc3339_instant(as_of) {
        Some(end) => end,
        None => {
            return Err(WindowError::AsOf);
        },
    };
    let start = match window_start(end, window_seconds) {
        Some(start) => start,
        None => {
            return Err(WindowError::OutOfRange);
        },
    };
    match frames_in_window(timestamps, start, end) {
        Ok(v) => Ok(v),
        Err(i) => Err(WindowError::Frame(i)),
    }
}

/// Only frames that lie in the window are chosen, and a chosen position is a
/// position of the trace.
pub proof fn lemma_window_positions_in_window(
    timestamps: Seq<Seq<char>>,
    start: (i64, u32),
    end: (i64, u32),
    n: nat,
    k: int,
)
    requires
        0 <= k < positions_in_window(timestamps, start, end, n).len(),
    ensures
        ({
            let p = positions_in_window(timestamps, start, end, n)[k];
            &&& 0 <= p < n
            &&& rfc3339_instant(timestamps[p]) matches Some(t) && instant_le(start, t)
                && instant_le(t, end)
        }),
    decreases n,
{
    let earlier = positions_in_window(timestamps, start, end, (n - 1) as nat);
    if k < earlier.len() {
        lemma_window_positions_in_window(timestamps, start, end, (n - 1) as nat, k);
    }
}

/// A window that ends before it starts holds no frame.
pub proof fn lemma_empty_window(timestamps: Seq<Seq<char>>, start: (i64, u32), end: (i64, u32), n: nat)
    requires
        !instant_le(start, end),
    ensures
        positions_in_window(timestamps, start, end, n).len() == 0,
    decreases n,
{
    if n > 0 {
        lemma_empty_window(timestamps, start, end, (n - 1) as nat);
    }
}

} // verus!
