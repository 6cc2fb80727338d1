//! Emacs-style cursor operations: line-relative positions, whitespace
//! skipping and character peeking.
//!
//! The position queries (`line_beginning_position`, `line_end_position`,
//! `char_after`) are save-excursion operations: they probe by moving and
//! always restore the cursor position on every exit path.

use vstd::prelude::*;

use crate::{Char, Line};
use crate::cursor::{Cursor, MetricCursor};
use crate::lexeme::{decode_scalar_at, tail_of};
use crate::metrics::{
    is_codepoint_boundary, lemma_find_newline_some, lemma_prev_codepoint_boundary_found,
    lemma_rfind_newline_some, prev_codepoint_boundary, Metric,
};
use vstd::utf8::{
    decode_first_scalar, is_continuation_byte, length_of_first_scalar, valid_first_scalar,
};

verus! {

/// The Unicode scalar values with the `White_Space` property.
pub open spec fn is_whitespace_scalar(u: u32) -> bool {
    ||| u == 0x20
    ||| (0x09 <= u && u <= 0x0d)
    ||| u == 0x85
    ||| u == 0xa0
    ||| u == 0x1680
    ||| (0x2000 <= u && u <= 0x200a)
    ||| u == 0x2028
    ||| u == 0x2029
    ||| u == 0x202f
    ||| u == 0x205f
    ||| u == 0x3000
}

/// Whether `c` is Unicode whitespace.
pub fn is_whitespace_char(c: char) -> (r: bool)
    ensures
        r == is_whitespace_scalar(c as u32),
{
    let u = c as u32;
    u == 0x20 || (0x09 <= u && u <= 0x0d) || u == 0x85 || u == 0xa0 || u == 0x1680 || (0x2000 <= u
        && u <= 0x200a) || u == 0x2028 || u == 0x2029 || u == 0x202f || u == 0x205f || u == 0x3000
}

/// The start of the line containing `p`: `p` itself when it already follows
/// a newline, otherwise the position after the previous newline, or 0.
pub open spec fn line_begin_spec(s: Seq<u8>, p: int) -> int {
    if <Line as Metric>::boundary_spec(s, p) {
        p
    } else {
        match <Line as Metric>::prev_spec(s, p) {
            Some(b) => b,
            None => 0,
        }
    }
}

pub proof fn lemma_line_begin_range(s: Seq<u8>, p: int)
    requires
        0 <= p <= s.len(),
    ensures
        0 <= line_begin_spec(s, p) <= p,
        line_begin_spec(s, p) == 0 || <Line as Metric>::boundary_spec(s, line_begin_spec(s, p)),
{
    if !<Line as Metric>::boundary_spec(s, p) && p >= 1 {
        if crate::metrics::rfind_newline(s, p - 1) is Some {
            lemma_rfind_newline_some(s, p - 1);
        }
    }
}

/// Where a line start is already given, looking up the line start again
/// changes nothing: `line_begin_spec` is idempotent.
pub proof fn lemma_line_begin_idempotent(s: Seq<u8>, p: int)
    requires
        0 <= p <= s.len(),
    ensures
        line_begin_spec(s, line_begin_spec(s, p)) == line_begin_spec(s, p),
{
    lemma_line_begin_range(s, p);
    let b = line_begin_spec(s, p);
    if b != 0 {
        assert(<Line as Metric>::boundary_spec(s, b));
    }
}

/// One step of "go to the beginning of the next line": the next line start,
/// or the end of input when the buffer has no further newline.
pub open spec fn next_line_begin_spec(s: Seq<u8>, p: int) -> int {
    match <Line as Metric>::next_spec(s, p) {
        Some(n) => n,
        None => s.len() as int,
    }
}

/// `k` steps of "go to the beginning of the next line".
pub open spec fn fwd_lines_spec(s: Seq<u8>, p: int, k: nat) -> int
    decreases k,
{
    if k == 0 {
        p
    } else {
        match <Line as Metric>::next_spec(s, p) {
            Some(n) => fwd_lines_spec(s, n, (k - 1) as nat),
            None => s.len() as int,
        }
    }
}

/// `k` steps of "go to the start of the previous line", clamped to the
/// beginning of input when no previous line exists.
pub open spec fn back_lines_spec(s: Seq<u8>, p: int, k: nat) -> int
    decreases k,
{
    if k == 0 {
        p
    } else {
        match <Line as Metric>::prev_spec(s, p) {
            Some(q) => back_lines_spec(s, q, (k - 1) as nat),
            None => 0,
        }
    }
}

pub proof fn lemma_back_lines_range(s: Seq<u8>, p: int, k: nat)
    requires
        0 <= p <= s.len(),
    ensures
        0 <= back_lines_spec(s, p, k) <= p,
    decreases k,
{
    if k > 0 {
        match <Line as Metric>::prev_spec(s, p) {
            Some(q) => {
                lemma_rfind_newline_some(s, p - 1);
                lemma_back_lines_range(s, q, (k - 1) as nat);
            },
            None => {},
        }
    }
}

/// `k` steps of "go to the start of the previous line", staying put once no
/// previous line exists.
pub open spec fn back_lines_stay_spec(s: Seq<u8>, p: int, k: nat) -> int
    decreases k,
{
    if k == 0 {
        p
    } else {
        match <Line as Metric>::prev_spec(s, p) {
            Some(q) => back_lines_stay_spec(s, q, (k - 1) as nat),
            None => p,
        }
    }
}

/// The previous codepoint boundary, or 0 at the beginning of input.
pub open spec fn char_back_or_zero_spec(s: Seq<u8>, q: int) -> int {
    match <Char as Metric>::prev_spec(s, q) {
        Some(b) => b,
        None => 0,
    }
}

/// What `line_beginning_position` returns for cursor position `p` and
/// argument `n`.
pub open spec fn line_beginning_position_spec(s: Seq<u8>, p: int, n: Option<i32>) -> int {
    let x: int = match n {
        None => 1,
        Some(v) => v as int,
    };
    if x == 1 {
        line_begin_spec(s, p)
    } else if x > 1 {
        fwd_lines_spec(s, p, (x - 1) as nat)
    } else {
        let b = line_begin_spec(s, p);
        if b == 0 {
            0
        } else {
            back_lines_spec(s, b, (1 - x) as nat)
        }
    }
}

/// What `line_end_position` returns for cursor position `p` and argument
/// `n`.
pub open spec fn line_end_position_spec(s: Seq<u8>, p: int, n: Option<i32>) -> int {
    let x: int = match n {
        None => 1,
        Some(v) => v as int,
    };
    if x >= 1 {
        char_back_or_zero_spec(s, fwd_lines_spec(s, p, x as nat))
    } else if p == 0 {
        0
    } else {
        char_back_or_zero_spec(s, back_lines_stay_spec(s, p, (1 - x) as nat))
    }
}

/// Where `skip_whitespace` lands from `p`: the start of the first
/// non-whitespace character at or after `p`, or wherever decoding first
/// fails (the end of input included).
pub open spec fn skip_whitespace_spec(s: Seq<u8>, p: int) -> int
    decreases s.len() - p,
{
    if p < 0 || p >= s.len() {
        p
    } else if !valid_first_scalar(tail_of(s, p)) {
        p
    } else if !is_whitespace_scalar(decode_first_scalar(tail_of(s, p))) {
        p
    } else if length_of_first_scalar(tail_of(s, p)) < 1 {
        p
    } else {
        skip_whitespace_spec(s, p + length_of_first_scalar(tail_of(s, p)))
    }
}

/// A well-formed scalar encoding at `p` is followed only by continuation
/// bytes, so the previous codepoint boundary of its end is `p` itself.
pub proof fn lemma_scalar_step_back(s: Seq<u8>, p: int)
    requires
        0 <= p < s.len(),
        valid_first_scalar(tail_of(s, p)),
    ensures
        1 <= length_of_first_scalar(tail_of(s, p)) <= 4,
        p + length_of_first_scalar(tail_of(s, p)) <= s.len(),
        length_of_first_scalar(tail_of(s, p)) == crate::spec_len_utf8_from_first_byte(s[p]),
        prev_codepoint_boundary(s, p + length_of_first_scalar(tail_of(s, p))) == p,
{
    let tail = tail_of(s, p);
    let w = length_of_first_scalar(tail);
    assert(tail[0] == s[p]);
    assert(forall|j: int| 0 <= j < tail.len() ==> tail[j] == s[p + j]);
    assert(is_codepoint_boundary(s, p));
    assert(forall|j: int| p < j < p + w ==> is_continuation_byte(s[j]));
    assert(forall|j: int| p < j < p + w ==> !is_codepoint_boundary(s, j));
    lemma_prev_codepoint_boundary_found(s, p + w, p);
}

impl<'a> Cursor<'a> {
    /// Peeks at the character whose encoding starts at `offset`, without
    /// moving the cursor position.
    pub fn char_after(&mut self, offset: usize) -> (r: Option<char>)
        requires
            offset <= old(self).data@.len(),
        ensures
            final(self).data == old(self).data,
            final(self).pos == old(self).pos,
            r is Some <==> (offset < old(self).data@.len() && valid_first_scalar(
                tail_of(old(self).data@, offset as int),
            )),
            r matches Some(c) ==> c as u32 == decode_first_scalar(
                tail_of(old(self).data@, offset as int),
            ),
    {
        if offset == self.data.len() {
            return None;
        }
        match decode_scalar_at(self.data, offset) {
            Some(cw) => Some(cw.0),
            None => None,
        }
    }

    /// Skips over whitespace characters; the cursor lands exactly before the
    /// first non-whitespace character, or at the end of input when the
    /// buffer is exhausted.
    pub fn skip_whitespace(&mut self) -> (r: usize)
        requires
            old(self).pos <= old(self).data@.len(),
        ensures
            final(self).data == old(self).data,
            final(self).pos == skip_whitespace_spec(old(self).data@, old(self).pos as int),
            final(self).pos <= final(self).data@.len(),
            r == final(self).pos,
    {
        loop
            invariant
                self.data == old(self).data,
                self.pos <= self.data@.len(),
                skip_whitespace_spec(self.data@, self.pos as int) == skip_whitespace_spec(
                    old(self).data@,
                    old(self).pos as int,
                ),
            ensures
                self.data == old(self).data,
                self.pos as int == skip_whitespace_spec(old(self).data@, old(self).pos as int),
            decreases self.data@.len() - self.pos,
        {
            if self.pos == self.data.len() {
                break;
            }
            match decode_scalar_at(self.data, self.pos) {
                Some(cw) => {
                    if is_whitespace_char(cw.0) {
                        self.pos = self.pos + cw.1;
                    } else {
                        break;
                    }
                },
                None => {
                    break;
                },
            }
        }
        self.pos
    }

    /// True at the beginning of the buffer or right after a newline.
    pub fn is_bol(&self) -> (r: bool)
        requires
            self.pos <= self.data@.len(),
        ensures
            r == (self.pos == 0 || <Line as Metric>::boundary_spec(self.data@, self.pos as int)),
    {
        if self.pos == 0 {
            true
        } else {
            self.is_boundary::<Line>()
        }
    }

    /// Moves to the beginning of the current line; a no-op when already
    /// there.  Returns the position of the cursor.
    pub fn goto_line_begin(&mut self) -> (r: usize)
        requires
            old(self).pos <= old(self).data@.len(),
        ensures
            final(self).data == old(self).data,
            final(self).pos == line_begin_spec(old(self).data@, old(self).pos as int),
            r == final(self).pos,
    {
        if self.pos() != 0 && self.at_or_mprev::<Line>().is_none() {
            self.set(0);
        }
        self.pos()
    }

    /// Moves to the beginning of the next line, or to the end of input when
    /// there is no next line.
    pub fn goto_next_line(&mut self) -> (r: usize)
        requires
            old(self).pos <= old(self).data@.len(),
            old(self).data@.len() + 4 <= usize::MAX,
        ensures
            final(self).data == old(self).data,
            final(self).pos == next_line_begin_spec(old(self).data@, old(self).pos as int),
            r == final(self).pos,
    {
        proof {
            if crate::metrics::find_newline(self.data@, self.pos as int) is Some {
                lemma_find_newline_some(self.data@, self.pos as int);
            }
        }
        match self.mnext::<Line>() {
            None => {
                self.eof();
                self.data.len()
            },
            Some(x) => x,
        }
    }

    /// Moves to the beginning of the previous line, or to the beginning of
    /// input when there is no previous line.
    pub fn goto_prev_line(&mut self) -> (r: usize)
        requires
            old(self).pos <= old(self).data@.len(),
        ensures
            final(self).data == old(self).data,
            final(self).pos == ({
                let b = line_begin_spec(old(self).data@, old(self).pos as int);
                if b == 0 {
                    0int
                } else {
                    back_lines_spec(old(self).data@, b, 1)
                }
            }),
            r == final(self).pos,
    {
        self.goto_line_begin();
        if self.pos() == 0 {
            return 0;
        }
        proof {
            lemma_line_begin_range(old(self).data@, old(self).pos as int);
            if crate::metrics::rfind_newline(self.data@, self.pos - 1) is Some {
                lemma_rfind_newline_some(self.data@, self.pos - 1);
            }
        }
        let r: usize;
        let ghost b = self.pos as int;
        match self.mprev::<Line>() {
            None => {
                self.set(0);
                r = 0;
            },
            Some(x) => {
                proof {
                    assert(back_lines_spec(self.data@, x as int, 0) == x as int);
                }
                r = x;
            },
        }
        r
    }

    /// Returns the position of the first character on the current line,
    /// after moving `n - 1` lines forward (or `1 - n` lines backward for
    /// `n < 1`).  Does not move the cursor.
    pub fn line_beginning_position(&mut self, n: Option<i32>) -> (r: usize)
        requires
            old(self).pos <= old(self).data@.len(),
            old(self).data@.len() + 4 <= usize::MAX,
            n matches Some(x) ==> x > i32::MIN,
        ensures
            final(self).data == old(self).data,
            final(self).pos == old(self).pos,
            r == line_beginning_position_spec(old(self).data@, old(self).pos as int, n),
    {
        let pos = self.pos();
        let x: i32 = match n {
            None => 1,
            Some(v) => v,
        };
        if x == 1 {
            self.goto_line_begin();
        } else if x > 1 {
            let k: u32 = (x - 1) as u32;
            let mut i: u32 = 0;
            while i < k
                invariant
                    self.data == old(self).data,
                    self.pos <= self.data@.len(),
                    self.data@.len() + 4 <= usize::MAX,
                    i <= k,
                    fwd_lines_spec(self.data@, self.pos as int, (k - i) as nat) == fwd_lines_spec(
                        old(self).data@,
                        old(self).pos as int,
                        k as nat,
                    ),
                decreases k - i,
            {
                proof {
                    if crate::metrics::find_newline(self.data@, self.pos as int) is Some {
                        lemma_find_newline_some(self.data@, self.pos as int);
                    }
                }
                if self.mnext::<Line>().is_none() {
                    self.eof();
                    i = k;
                } else {
                    i = i + 1;
                }
            }
        } else {
            self.goto_line_begin();
            proof {
                lemma_line_begin_range(old(self).data@, old(self).pos as int);
            }
            if self.pos() != 0 {
                let k: u64 = (1i64 - x as i64) as u64;
                let mut i: u64 = 0;
                while i < k
                    invariant
                        self.data == old(self).data,
                        self.pos <= self.data@.len(),
                        i <= k,
                        back_lines_spec(self.data@, self.pos as int, (k - i) as nat)
                            == back_lines_spec(
                            old(self).data@,
                            line_begin_spec(old(self).data@, old(self).pos as int),
                            k as nat,
                        ),
                    decreases k - i,
                {
                    proof {
                        if self.pos >= 1 && crate::metrics::rfind_newline(
                            self.data@,
                            self.pos - 1,
                        ) is Some {
                            lemma_rfind_newline_some(self.data@, self.pos - 1);
                        }
                    }
                    if self.mprev::<Line>().is_none() {
                        self.bof();
                        i = k;
                    } else {
                        i = i + 1;
                    }
                }
            }
        }
        let result = self.pos();
        self.set(pos);
        result
    }

    /// Returns the position of the last character on the current line,
    /// after moving `n - 1` lines forward (clamped to the end of input) or
    /// backward.  Returns 0 when no previous character exists.  Does not
    /// move the cursor.
    pub fn line_end_position(&mut self, n: Option<i32>) -> (r: usize)
        requires
            old(self).pos <= old(self).data@.len(),
            old(self).data@.len() + 4 <= usize::MAX,
            n matches Some(x) ==> x > i32::MIN,
        ensures
            final(self).data == old(self).data,
            final(self).pos == old(self).pos,
            r == line_end_position_spec(old(self).data@, old(self).pos as int, n),
    {
        let pos = self.pos();
        let x: i32 = match n {
            None => 1,
            Some(v) => v,
        };
        if x >= 1 {
            let k: u32 = x as u32;
            let mut i: u32 = 0;
            while i < k
                invariant
                    self.data == old(self).data,
                    self.pos <= self.data@.len(),
                    self.data@.len() + 4 <= usize::MAX,
                    i <= k,
                    fwd_lines_spec(self.data@, self.pos as int, (k - i) as nat) == fwd_lines_spec(
                        old(self).data@,
                        old(self).pos as int,
                        k as nat,
                    ),
                decreases k - i,
            {
                proof {
                    if crate::metrics::find_newline(self.data@, self.pos as int) is Some {
                        lemma_find_newline_some(self.data@, self.pos as int);
                    }
                }
                if self.mnext::<Line>().is_none() {
                    self.eof();
                    i = k;
                } else {
                    i = i + 1;
                }
            }
        } else if self.pos() != 0 {
            let k: u64 = (1i64 - x as i64) as u64;
            let mut i: u64 = 0;
            while i < k
                invariant
                    self.data == old(self).data,
                    self.pos <= self.data@.len(),
                    i <= k,
                    back_lines_stay_spec(self.data@, self.pos as int, (k - i) as nat)
                        == back_lines_stay_spec(old(self).data@, old(self).pos as int, k as nat),
                decreases k - i,
            {
                proof {
                    if self.pos >= 1 && crate::metrics::rfind_newline(
                        self.data@,
                        self.pos - 1,
                    ) is Some {
                        lemma_rfind_newline_some(self.data@, self.pos - 1);
                    }
                }
                if self.mprev::<Line>().is_none() {
                    i = k;
                } else {
                    i = i + 1;
                }
            }
        }
        let result: usize = match self.mprev::<Char>() {
            Some(b) => b,
            None => 0,
        };
        self.set(pos);
        result
    }
}

} // verus!
