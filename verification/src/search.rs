//! Search primitives: skipping character runs and bounded forward search
//! for a literal byte pattern.

use vstd::prelude::*;

use crate::Char;
use crate::cursor::Cursor;
use crate::lexeme::{decode_scalar_at, tail_of};
use crate::metrics::{
    lemma_prev_codepoint_boundary_range, prev_codepoint_boundary, Metric,
};
use crate::emacs::lemma_scalar_step_back;
use vstd::utf8::{
    char_u32_cast, decode_first_scalar, length_of_first_scalar, valid_first_scalar,
};

verus! {

/// Whether `c` is one of the characters in `set`.
pub fn char_in_set(set: &[char], c: char) -> (r: bool)
    ensures
        r == set@.contains(c),
{
    let mut i: usize = 0;
    while i < set.len()
        invariant
            i <= set@.len(),
            forall|j: int| 0 <= j < i ==> set@[j] != c,
        decreases set@.len() - i,
    {
        if set[i] == c {
            return true;
        }
        i = i + 1;
    }
    false
}

/// Where `skip_chars_forward` stops and what it counts, starting at `p`
/// with `count` characters already consumed since `p0`.
pub open spec fn skip_fwd_spec(
    s: Seq<u8>,
    p: int,
    set: Seq<char>,
    p0: int,
    limit: int,
    count: int,
) -> (int, int)
    decreases s.len() - p,
{
    if p < 0 || p >= s.len() {
        (p, count)
    } else if !valid_first_scalar(tail_of(s, p)) {
        (p, count)
    } else {
        let c = decode_first_scalar(tail_of(s, p)) as char;
        let w = length_of_first_scalar(tail_of(s, p));
        if w < 1 {
            (p, count)
        } else if !set.contains(c) {
            (p, count)
        } else if count + p0 > limit {
            (p, count)
        } else {
            skip_fwd_spec(s, p + w, set, p0, limit, count + 1)
        }
    }
}

#[via_fn]
proof fn skip_back_spec_decreases(s: Seq<u8>, p: int, set: Seq<char>, limit: int, count: int) {
    if p > 0 {
        lemma_prev_codepoint_boundary_range(s, p);
    }
}

/// Where `skip_chars_backward` stops and what it counts, starting at `p`.
/// A character that stops the skip is stepped over forward again, so the
/// cursor rests right after it.
pub open spec fn skip_back_spec(
    s: Seq<u8>,
    p: int,
    set: Seq<char>,
    limit: int,
    count: int,
) -> (int, int)
    decreases p,
        via skip_back_spec_decreases
{
    if p <= 0 {
        (p, count)
    } else {
        let b = prev_codepoint_boundary(s, p);
        if !valid_first_scalar(tail_of(s, b)) {
            (p, count)
        } else {
            let c = decode_first_scalar(tail_of(s, b)) as char;
            let w = length_of_first_scalar(tail_of(s, b));
            if !set.contains(c) {
                (b + w, count)
            } else if b < limit {
                (b + w, count)
            } else {
                skip_back_spec(s, b, set, limit, count + 1)
            }
        }
    }
}

/// Whether the bytes of `pat` occur in `s` at position `i`.
pub open spec fn is_match_at(s: Seq<u8>, pat: Seq<u8>, i: int) -> bool {
    0 <= i && i + pat.len() <= s.len() && s.subrange(i, i + pat.len()) == pat
}

/// The first position at or after `from` where `pat` occurs in `s`.
pub open spec fn find_match(s: Seq<u8>, pat: Seq<u8>, from: int) -> Option<int>
    decreases s.len() - from,
{
    if pat.len() < 1 || from < 0 || from + pat.len() > s.len() {
        None
    } else if is_match_at(s, pat, from) {
        Some(from)
    } else {
        find_match(s, pat, from + 1)
    }
}

pub proof fn lemma_find_match_some(s: Seq<u8>, pat: Seq<u8>, from: int)
    requires
        find_match(s, pat, from) is Some,
    ensures
        ({
            let i = find_match(s, pat, from)->Some_0;
            &&& from <= i
            &&& i + pat.len() <= s.len()
            &&& is_match_at(s, pat, i)
            &&& forall|j: int| from <= j < i ==> !is_match_at(s, pat, j)
        }),
    decreases s.len() - from,
{
    if pat.len() < 1 || from < 0 || from + pat.len() > s.len() {
    } else if is_match_at(s, pat, from) {
    } else {
        lemma_find_match_some(s, pat, from + 1);
    }
}

/// The end offset of the `k`-th non-overlapping occurrence of `pat` at or
/// after `from` whose end does not exceed `bound`, if it exists.
pub open spec fn search_fwd_spec(s: Seq<u8>, pat: Seq<u8>, from: int, bound: int, k: int) -> Option<
    int,
>
    decreases k,
{
    if k <= 0 {
        None
    } else {
        match find_match(s, pat, from) {
            None => None,
            Some(i) => {
                if i + pat.len() > bound {
                    None
                } else if k == 1 {
                    Some(i + pat.len())
                } else {
                    search_fwd_spec(s, pat, i + pat.len(), bound, k - 1)
                }
            },
        }
    }
}

/// Whether `pat` occurs at position `i` of `s`, by direct comparison.
pub(crate) fn bytes_match_at(s: &[u8], pat: &[u8], i: usize) -> (r: bool)
    requires
        i + pat@.len() <= s@.len(),
    ensures
        r == is_match_at(s@, pat@, i as int),
{
    proof {
        crate::metrics::lemma_slice_len_bound(s);
    }
    let mut j: usize = 0;
    while j < pat.len()
        invariant
            j <= pat@.len(),
            i + pat@.len() <= s@.len() <= usize::MAX,
            forall|t: int| 0 <= t < j ==> s@[i + t] == pat@[t],
        decreases pat@.len() - j,
    {
        if s[i + j] != pat[j] {
            proof {
                assert(s@.subrange(i as int, i + pat@.len())[j as int] == s@[i + j]);
            }
            return false;
        }
        j = j + 1;
    }
    proof {
        assert(s@.subrange(i as int, i + pat@.len()) =~= pat@);
    }
    true
}

/// Finds the first occurrence of `pat` at or after `from`.
fn find_sub(s: &[u8], pat: &[u8], from: usize) -> (r: Option<usize>)
    requires
        from <= s@.len(),
        pat@.len() >= 1,
    ensures
        crate::metrics::opt_as_int(r) == find_match(s@, pat@, from as int),
{
    proof {
        crate::metrics::lemma_slice_len_bound(s);
    }
    if pat.len() > s.len() {
        return None;
    }
    let last = s.len() - pat.len();
    if from > last {
        return None;
    }
    let mut i: usize = from;
    while i <= last
        invariant
            from <= i <= last + 1,
            last == s@.len() - pat@.len(),
            1 <= pat@.len() <= s@.len() <= usize::MAX,
            find_match(s@, pat@, from as int) == find_match(s@, pat@, i as int),
        decreases last + 1 - i,
    {
        if bytes_match_at(s, pat, i) {
            return Some(i);
        }
        i = i + 1;
    }
    None
}

impl<'a> Cursor<'a> {
    /// Moves the cursor forward, stopping before a character not in `set`,
    /// or at position `limit`.  Returns the number of characters consumed.
    pub fn skip_chars_forward(&mut self, set: &[char], limit: Option<usize>) -> (r: usize)
        requires
            old(self).pos <= old(self).data@.len(),
        ensures
            final(self).data == old(self).data,
            ({
                let lim: int = match limit {
                    Some(l) => l as int,
                    None => old(self).data@.len() as int,
                };
                if old(self).pos >= lim {
                    r == 0 && final(self).pos == old(self).pos
                } else {
                    let pc = skip_fwd_spec(
                        old(self).data@,
                        old(self).pos as int,
                        set@,
                        old(self).pos as int,
                        lim,
                        0,
                    );
                    final(self).pos == pc.0 && r == pc.1
                }
            }),
    {
        let pos = self.pos();
        let lim: usize = match limit {
            Some(l) => l,
            None => self.data.len(),
        };
        if pos >= lim {
            return 0;
        }
        let mut count: usize = 0;
        loop
            invariant
                self.data == old(self).data,
                pos == old(self).pos,
                pos < lim,
                pos <= self.pos <= self.data@.len(),
                count + pos <= self.pos,
                lim <= usize::MAX,
                skip_fwd_spec(
                    self.data@,
                    self.pos as int,
                    set@,
                    pos as int,
                    lim as int,
                    count as int,
                ) == skip_fwd_spec(self.data@, pos as int, set@, pos as int, lim as int, 0),
            ensures
                self.data == old(self).data,
                (self.pos as int, count as int) == skip_fwd_spec(
                    self.data@,
                    pos as int,
                    set@,
                    pos as int,
                    lim as int,
                    0,
                ),
            decreases self.data@.len() - self.pos,
        {
            if self.pos == self.data.len() {
                break;
            }
            match decode_scalar_at(self.data, self.pos) {
                Some(cw) => {
                    proof {
                        char_u32_cast(cw.0, cw.0 as u32);
                    }
                    if !char_in_set(set, cw.0) {
                        break;
                    }
                    if count + pos > lim {
                        break;
                    }
                    self.pos = self.pos + cw.1;
                    count = count + 1;
                },
                None => {
                    break;
                },
            }
        }
        count
    }

    /// Moves the cursor backward, stopping after a character not in `set`,
    /// or at position `limit`.  Returns the distance travelled in
    /// characters (always non-negative).
    pub fn skip_chars_backward(&mut self, set: &[char], limit: Option<usize>) -> (r: usize)
        requires
            old(self).pos <= old(self).data@.len(),
        ensures
            final(self).data == old(self).data,
            ({
                let lim: int = match limit {
                    Some(l) => l as int,
                    None => 0int,
                };
                if old(self).pos <= lim {
                    r == 0 && final(self).pos == old(self).pos
                } else {
                    let pc = skip_back_spec(
                        old(self).data@,
                        old(self).pos as int,
                        set@,
                        lim,
                        0,
                    );
                    final(self).pos == pc.0 && r == pc.1
                }
            }),
    {
        let lim: usize = match limit {
            Some(l) => l,
            None => 0,
        };
        if self.pos() <= lim {
            return 0;
        }
        let ghost p0 = self.pos as int;
        proof {
            crate::metrics::lemma_slice_len_bound(self.data);
        }
        let mut count: usize = 0;
        loop
            invariant_except_break
                count + self.pos <= p0,
            invariant
                self.data == old(self).data,
                self.pos <= self.data@.len(),
                self.data@.len() <= usize::MAX,
                0 <= p0 <= usize::MAX,
                skip_back_spec(
                    self.data@,
                    self.pos as int,
                    set@,
                    lim as int,
                    count as int,
                ) == skip_back_spec(self.data@, p0, set@, lim as int, 0),
            ensures
                self.data == old(self).data,
                (self.pos as int, count as int) == skip_back_spec(
                    self.data@,
                    p0,
                    set@,
                    lim as int,
                    0,
                ),
            decreases self.pos,
        {
            if self.pos == 0 {
                break;
            }
            proof {
                lemma_prev_codepoint_boundary_range(self.data@, self.pos as int);
            }
            let b = <Char as Metric>::prev(self.data, self.pos).unwrap();
            match decode_scalar_at(self.data, b) {
                None => {
                    break;
                },
                Some(cw) => {
                    proof {
                        char_u32_cast(cw.0, cw.0 as u32);
                        lemma_scalar_step_back(self.data@, b as int);
                    }
                    if !char_in_set(set, cw.0) {
                        self.pos = b + cw.1;
                        break;
                    }
                    if b < lim {
                        self.pos = b + cw.1;
                        break;
                    }
                    self.pos = b;
                    count = count + 1;
                },
            }
        }
        count
    }

    /// Searches forward for the `count`-th occurrence of the literal `pat`
    /// whose end does not exceed `bound`.  On success the cursor moves to
    /// the end of the occurrence found, and that position is returned; on
    /// failure the cursor does not move.
    pub fn search_forward(&mut self, pat: &[u8], bound: Option<usize>, count: Option<usize>) -> (r:
        Option<usize>)
        requires
            old(self).pos <= old(self).data@.len(),
            pat@.len() >= 1,
        ensures
            final(self).data == old(self).data,
            ({
                let bnd: int = match bound {
                    Some(b) => b as int,
                    None => old(self).data@.len() as int,
                };
                let k: int = match count {
                    Some(c) => c as int,
                    None => 1int,
                };
                if bnd < old(self).pos {
                    r is None && final(self).pos == old(self).pos
                } else {
                    match search_fwd_spec(old(self).data@, pat@, old(self).pos as int, bnd, k) {
                        Some(e) => r == Some(e as usize) && final(self).pos == e,
                        None => r is None && final(self).pos == old(self).pos,
                    }
                }
            }),
    {
        let k: usize = match count {
            Some(c) => c,
            None => 1,
        };
        let bnd: usize = match bound {
            Some(b) => b,
            None => self.data.len(),
        };
        let pos = self.pos();
        if bnd < pos {
            return None;
        }
        if k == 0 {
            return None;
        }
        proof {
            crate::metrics::lemma_slice_len_bound(self.data);
        }
        let mut cur: usize = pos;
        let mut remaining: usize = k;
        loop
            invariant_except_break
                self.pos == pos,
                pos <= cur <= self.data@.len(),
                1 <= remaining,
            invariant
                self.data == old(self).data,
                self.data@.len() <= usize::MAX,
                pos == old(self).pos,
                pat@.len() >= 1,
                search_fwd_spec(
                    self.data@,
                    pat@,
                    cur as int,
                    bnd as int,
                    remaining as int,
                ) == search_fwd_spec(self.data@, pat@, pos as int, bnd as int, k as int),
            ensures
                self.data == old(self).data,
                pos == old(self).pos,
                match search_fwd_spec(self.data@, pat@, pos as int, bnd as int, k as int) {
                    Some(e) => self.pos == e && e > pos,
                    None => self.pos == pos,
                },
            decreases remaining,
        {
            match find_sub(self.data, pat, cur) {
                None => {
                    break;
                },
                Some(i) => {
                    proof {
                        lemma_find_match_some(self.data@, pat@, cur as int);
                    }
                    let e = i + pat.len();
                    if e > bnd {
                        break;
                    }
                    if remaining == 1 {
                        self.set(e);
                        break;
                    }
                    remaining = remaining - 1;
                    cur = i + pat.len();
                },
            }
        }
        if self.pos == pos {
            None
        } else {
            Some(self.pos)
        }
    }
}

/// Whatever stands right before `p` is benign for backward stepping: there
/// is nothing before it, the bytes there are not a well-formed scalar
/// encoding, or that encoding ends exactly at `p` — as in any buffer that
/// is valid UTF-8 around `p`.
pub open spec fn well_formed_before(s: Seq<u8>, p: int) -> bool {
    ||| p == 0
    ||| !valid_first_scalar(tail_of(s, prev_codepoint_boundary(s, p)))
    ||| prev_codepoint_boundary(s, p) + length_of_first_scalar(
        tail_of(s, prev_codepoint_boundary(s, p)),
    ) == p
}

proof fn lemma_skip_round_trip_aux(s: Seq<u8>, p: int, set: Seq<char>, p0: int, k: int, c: int)
    requires
        0 <= p0 <= p <= s.len(),
        0 <= c,
        c + p0 <= p,
    ensures
        ({
            let pc = skip_fwd_spec(s, p, set, p0, s.len() as int, c);
            skip_back_spec(s, pc.0, set, p0, k) == skip_back_spec(s, p, set, p0, k + pc.1 - c)
        }),
    decreases s.len() - p,
{
    if p >= s.len() {
    } else if !valid_first_scalar(tail_of(s, p)) {
    } else {
        let ch = decode_first_scalar(tail_of(s, p)) as char;
        let w = length_of_first_scalar(tail_of(s, p));
        crate::emacs::lemma_scalar_step_back(s, p);
        if w < 1 {
        } else if !set.contains(ch) {
        } else if c + p0 > s.len() {
        } else {
            lemma_skip_round_trip_aux(s, p + w, set, p0, k, c + 1);
            let pc = skip_fwd_spec(s, p + w, set, p0, s.len() as int, c + 1);
            assert(skip_back_spec(s, p + w, set, p0, k + pc.1 - c - 1) == skip_back_spec(
                s,
                p,
                set,
                p0,
                k + pc.1 - c,
            ));
        }
    }
}

/// Round trip of the character skips: after a forward skip over `set` with
/// no limit, an equal backward skip over the same `set`, bounded below by
/// the original position, returns the cursor exactly there and counts the
/// same number of characters — provided the encoding right before the
/// original position is well formed.
pub proof fn lemma_skip_chars_round_trip(s: Seq<u8>, p0: int, set: Seq<char>)
    requires
        0 <= p0 <= s.len(),
        well_formed_before(s, p0),
    ensures
        ({
            let pc = skip_fwd_spec(s, p0, set, p0, s.len() as int, 0);
            skip_back_spec(s, pc.0, set, p0, 0) == (p0, pc.1)
        }),
{
    lemma_skip_round_trip_aux(s, p0, set, p0, 0, 0);
    let pc = skip_fwd_spec(s, p0, set, p0, s.len() as int, 0);
    if p0 > 0 {
        lemma_prev_codepoint_boundary_range(s, p0);
        let b = prev_codepoint_boundary(s, p0);
        if valid_first_scalar(tail_of(s, b)) {
            crate::emacs::lemma_scalar_step_back(s, b);
        }
    }
}

} // verus!
