//! The status bar's input filters: which clock ticks and compositor events
//! reach the bar, and how a visualizer line is read.
//!
//! The event sources themselves (the per-second timer, the compositor
//! socket, the visualizer subprocess) run outside this crate and call in
//! here with plain values.

use vstd::prelude::*;

use chrono::Timelike;

use crate::features::status_bar::{ClockTime, StatusBarMessage};

verus! {

/// Relies on chrono's `Local::now` and the `Timelike` accessors: the hour
/// runs from 0 to 23, the minute and second from 0 to 59.
#[verifier::external_body]
fn local_clock_sample() -> (r: ClockTime)
    ensures
        r.hour < 24,
        r.minute < 60,
        r.second < 60,
{
    let now = chrono::Local::now();
    ClockTime { hour: now.hour(), minute: now.minute(), second: now.second() }
}

/// The per-second tick's decision on one wall-clock sample: forward it
/// exactly in the first moments of a minute, when the displayed hour and
/// minute may have changed; drop every later second.
pub fn minute_boundary_update(t: ClockTime) -> (r: Option<StatusBarMessage>)
    ensures
        r == (if t.second <= 1 {
            Some(StatusBarMessage::UpdateDatetime(t))
        } else {
            None::<StatusBarMessage>
        }),
{
    if t.second <= 1 {
        Some(StatusBarMessage::UpdateDatetime(t))
    } else {
        None
    }
}

/// One tick of the per-second clock source: sample the local time and
/// apply [`minute_boundary_update`] to it.
pub fn clock_tick() -> (r: Option<StatusBarMessage>)
    ensures
        (match r {
            Some(m) => m matches StatusBarMessage::UpdateDatetime(t) && t.second <= 1 && t.hour
                < 24 && t.minute < 60,
            None => true,
        }),
{
    minute_boundary_update(local_clock_sample())
}

/// Whether `b` is an ascii decimal digit.
pub open spec fn is_dec_digit(b: u8) -> bool {
    48 <= b <= 57
}

/// The numeric value of a digit token, most significant digit first; a
/// byte that is no digit contributes nothing.
pub open spec fn dec_value(t: Seq<u8>) -> nat
    decreases t.len(),
{
    if t.len() == 0 {
        0
    } else {
        10 * dec_value(t.drop_last()) + (if is_dec_digit(t.last()) {
            (t.last() - 48) as nat
        } else {
            0
        })
    }
}

/// A token parses when it is nonempty, all digits, and fits in 32 bits.
pub open spec fn token_value(t: Seq<u8>) -> Option<u32> {
    if t.len() > 0 && (forall|i: int| 0 <= i < t.len() ==> is_dec_digit(#[trigger] t[i]))
        && dec_value(t) <= u32::MAX {
        Some(dec_value(t) as u32)
    } else {
        None
    }
}

/// Index of the first semicolon, or the length when there is none.
pub open spec fn semi_index(s: Seq<u8>) -> int
    decreases s.len(),
{
    if s.len() == 0 {
        0
    } else if s[0] == 59 {
        0
    } else {
        1 + semi_index(s.drop_first())
    }
}

/// The first semicolon's index lies in the sequence, everything before it
/// is no semicolon, and it points at one unless there is none.
proof fn lemma_semi_index_bounds(s: Seq<u8>)
    ensures
        0 <= semi_index(s) <= s.len(),
        semi_index(s) < s.len() ==> s[semi_index(s)] == 59,
        forall|j: int| 0 <= j < semi_index(s) ==> s[j] != 59,
    decreases s.len(),
{
    if s.len() == 0 {
    } else if s[0] == 59 {
    } else {
        lemma_semi_index_bounds(s.drop_first());
        if semi_index(s) < s.len() {
            assert(s.drop_first()[semi_index(s) - 1] == s[semi_index(s)]);
        }
        assert forall|j: int| 0 <= j < semi_index(s) implies s[j] != 59 by {
            if j > 0 {
                assert(s.drop_first()[j - 1] == s[j]);
            }
        }
    }
}

/// A position with no semicolon before it, that is past the end or at a
/// semicolon, is the first semicolon's index.
proof fn lemma_semi_index_determined(s: Seq<u8>, i: int)
    requires
        0 <= i <= s.len(),
        forall|j: int| 0 <= j < i ==> s[j] != 59,
        i < s.len() ==> s[i] == 59,
    ensures
        semi_index(s) == i,
    decreases s.len(),
{
    if s.len() == 0 {
    } else if s[0] == 59 {
    } else {
        lemma_semi_index_determined(s.drop_first(), i - 1);
    }
}

/// The magnitudes of one visualizer line: semicolon-separated decimal
/// tokens on the 0 to 1000 scale; tokens that do not parse are dropped,
/// never aborting the line.
pub open spec fn line_magnitudes(s: Seq<u8>) -> Seq<u32>
    decreases s.len(),
    via line_magnitudes_decreases
{
    let i = semi_index(s);
    let head = match token_value(s.take(i)) {
        Some(v) => seq![v],
        None => Seq::<u32>::empty(),
    };
    if i == s.len() {
        head
    } else {
        head + line_magnitudes(s.skip(i + 1))
    }
}

#[via_fn]
proof fn line_magnitudes_decreases(s: Seq<u8>) {
    lemma_semi_index_bounds(s);
}

/// The value of a digit string never falls below the value of a prefix.
proof fn lemma_dec_value_mono(t: Seq<u8>, k: int)
    requires
        0 <= k <= t.len(),
    ensures
        dec_value(t) >= dec_value(t.take(k)),
    decreases t.len() - k,
{
    if k == t.len() {
        assert(t.take(k) =~= t);
    } else {
        assert(t.take(k + 1).drop_last() =~= t.take(k));
        lemma_dec_value_mono(t, k + 1);
    }
}

/// Parse the decimal token at `line[start..end]`.
fn parse_token(line: &[u8], start: usize, end: usize) -> (r: Option<u32>)
    requires
        start <= end <= line@.len(),
    ensures
        r == token_value(line@.subrange(start as int, end as int)),
{
    let ghost tok = line@.subrange(start as int, end as int);
    if start == end {
        return None;
    }
    let mut v: u64 = 0;
    let mut i = start;
    while i < end
        invariant
            start <= i <= end <= line@.len(),
            start < end,
            tok == line@.subrange(start as int, end as int),
            forall|k: int| 0 <= k < i - start ==> is_dec_digit(#[trigger] tok[k]),
            v == dec_value(tok.take(i - start)),
            v <= u32::MAX,
        decreases end - i,
    {
        let b = line[i];
        proof {
            assert(tok[i - start] == line@[i as int]);
        }
        if b < 48 || b > 57 {
            proof {
                assert(!is_dec_digit(tok[i - start]));
            }
            return None;
        }
        let d = (b - 48) as u64;
        proof {
            assert(tok.take(i - start + 1).drop_last() =~= tok.take(i - start));
            assert(tok.take(i - start + 1).last() == tok[i - start]);
        }
        v = v * 10 + d;
        if v > 0xFFFF_FFFF {
            proof {
                lemma_dec_value_mono(tok, i - start + 1);
            }
            return None;
        }
        i = i + 1;
    }
    proof {
        assert(tok.take(end - start) =~= tok);
    }
    Some(v as u32)
}

/// Read one line of the visualizer's output as its list of magnitudes.
pub fn parse_visualizer_line(line: &[u8]) -> (r: Vec<u32>)
    ensures
        r@ == line_magnitudes(line@),
{
    let mut r: Vec<u32> = Vec::new();
    let n = line.len();
    let mut start: usize = 0;
    let mut done = false;
    proof {
        assert(line@.skip(0) =~= line@);
        assert(r@ + line_magnitudes(line@) =~= line_magnitudes(line@));
    }
    while !done
        invariant
            n == line@.len(),
            start <= n,
            !done ==> line_magnitudes(line@) == r@ + line_magnitudes(line@.skip(start as int)),
            done ==> line_magnitudes(line@) == r@,
        decreases n - start + (if done { 0int } else { 1int }),
    {
        let mut j = start;
        while j < n && line[j] != 59
            invariant
                start <= j <= n,
                n == line@.len(),
                forall|k: int| start <= k < j ==> line@[k] != 59,
            decreases n - j,
        {
            j = j + 1;
        }
        let ghost s_suf = line@.skip(start as int);
        proof {
            assert forall|k: int| 0 <= k < j - start implies s_suf[k] != 59 by {
                assert(s_suf[k] == line@[start + k]);
            }
            if j < n {
                assert(s_suf[j - start] == line@[j as int]);
            }
            lemma_semi_index_determined(s_suf, j - start);
            assert(s_suf.take(j - start) =~= line@.subrange(start as int, j as int));
        }
        let tok = parse_token(line, start, j);
        let ghost r0 = r@;
        let ghost head = (match token_value(line@.subrange(start as int, j as int)) {
            Some(v) => seq![v],
            None => Seq::<u32>::empty(),
        });
        if let Some(v) = tok {
            r.push(v);
            proof {
                assert(r@ =~= r0 + head);
            }
        } else {
            proof {
                assert(r@ =~= r0 + head);
            }
        }
        if j == n {
            proof {
                assert(line_magnitudes(s_suf) == head);
                assert(line_magnitudes(line@) =~= r@);
            }
            done = true;
        } else {
            proof {
                assert(s_suf.skip(j - start + 1) =~= line@.skip(j as int + 1));
                assert(line_magnitudes(s_suf) == head + line_magnitudes(
                    line@.skip(j as int + 1),
                ));
                assert(r0 + line_magnitudes(s_suf) =~= r@ + line_magnitudes(
                    line@.skip(j as int + 1),
                ));
            }
            start = j + 1;
        }
    }
    r
}

/// Whether every magnitude of a line is zero.
pub open spec fn all_zero(v: Seq<u32>) -> bool {
    forall|i: int| 0 <= i < v.len() ==> v[i] == 0
}

/// The warm-up filter on the visualizer's output stream: all-zero lines
/// are treated as the visualizer still warming up and suppressed until the
/// first line with a non-zero magnitude; from then on every line passes.
pub struct CavaFilter {
    pub warmed_up: bool,
}

impl CavaFilter {
    pub fn new() -> (r: CavaFilter)
        ensures
            !r.warmed_up,
    {
        CavaFilter { warmed_up: false }
    }

    /// Feed one line of the visualizer's output; magnitudes that are let
    /// through become the bar's message.
    pub fn feed(&mut self, line: &[u8]) -> (r: Option<StatusBarMessage>)
        ensures
            ({
                let vals = line_magnitudes(line@);
                if !old(self).warmed_up && all_zero(vals) {
                    r is None && !final(self).warmed_up
                } else {
                    &&& final(self).warmed_up
                    &&& r matches Some(m) && m matches StatusBarMessage::CavaInfo(v) && v@
                        == vals
                }
            }),
    {
        let vals = parse_visualizer_line(line);
        let mut allz = true;
        let n = vals.len();
        let mut i: usize = 0;
        while i < n
            invariant
                n == vals@.len(),
                i <= n,
                allz == forall|j: int| 0 <= j < i ==> vals@[j] == 0,
            decreases n - i,
        {
            if vals[i] != 0 {
                allz = false;
            }
            i = i + 1;
        }
        if !self.warmed_up && allz {
            None
        } else {
            self.warmed_up = true;
            Some(StatusBarMessage::CavaInfo(vals))
        }
    }
}

/// The compositor event filter: a workspace-changed event reaches the bar
/// of `output` only when the workspace belongs to that output's known
/// workspaces.
pub fn workspace_update(known: &Vec<i32>, workspace: i32, output: String) -> (r: Option<
    StatusBarMessage,
>)
    ensures
        (if known@.contains(workspace) {
            r matches Some(m) && m matches StatusBarMessage::UpdateCurrenWorkspace(o, w) && o
                == output && w == workspace
        } else {
            r is None
        }),
{
    let mut found = false;
    let n = known.len();
    let mut i: usize = 0;
    while i < n
        invariant
            n == known@.len(),
            i <= n,
            found == exists|j: int| 0 <= j < i && known@[j] == workspace,
        decreases n - i,
    {
        if known[i] == workspace {
            found = true;
        }
        i = i + 1;
    }
    if found {
        Some(StatusBarMessage::UpdateCurrenWorkspace(output, workspace))
    } else {
        None
    }
}

} // verus!
