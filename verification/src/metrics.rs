//! Metrics: rules that locate boundary offsets in a byte buffer.
//!
//! A metric does not itself carry a user-facing value; it only finds
//! addresses.  Four metrics exist: codepoint boundaries ([`Char`]), line
//! starts ([`Line`]), the beginning of input ([`BOF`]) and the end of input
//! ([`EOF`]).

use vstd::prelude::*;

use crate::{Char, Line, BOF, EOF};
use crate::{len_utf8_from_first_byte, spec_len_utf8_from_first_byte};
use vstd::utf8::is_continuation_byte;

verus! {

/// The newline byte that delimits lines.
pub const NEWLINE: u8 = 10;

/// A slice always fits in the address space.
pub proof fn lemma_slice_len_bound<T>(s: &[T])
    ensures
        s@.len() <= usize::MAX,
{
    broadcast use vstd::slice::axiom_spec_len;

    assert(vstd::slice::spec_slice_len(s) == s@.len());
}

/// Lifts an `Option<usize>` into the mathematical domain used by the metric
/// specifications.
pub open spec fn opt_as_int(r: Option<usize>) -> Option<int> {
    match r {
        Some(v) => Some(v as int),
        None => None,
    }
}

/// True when `i` is offset 0, the end of the buffer, or a byte that does not
/// continue a multi-byte UTF-8 sequence.  This is the total, byte-level
/// reading of `str::is_char_boundary`.
pub open spec fn is_codepoint_boundary(s: Seq<u8>, i: int) -> bool {
    i == 0 || i == s.len() || (0 <= i < s.len() && !is_continuation_byte(s[i]))
}

/// The greatest codepoint boundary strictly below `o` (offset 0 always
/// qualifies, so the result exists for every positive `o`).
pub open spec fn prev_codepoint_boundary(s: Seq<u8>, o: int) -> int
    decreases o,
{
    if o <= 1 {
        0
    } else if is_codepoint_boundary(s, o - 1) {
        o - 1
    } else {
        prev_codepoint_boundary(s, o - 1)
    }
}

pub proof fn lemma_prev_codepoint_boundary_range(s: Seq<u8>, o: int)
    requires
        1 <= o,
    ensures
        0 <= prev_codepoint_boundary(s, o) < o,
        is_codepoint_boundary(s, prev_codepoint_boundary(s, o)),
    decreases o,
{
    if o <= 1 {
    } else if is_codepoint_boundary(s, o - 1) {
    } else {
        lemma_prev_codepoint_boundary_range(s, o - 1);
    }
}

/// A boundary with no other boundary above it (below `o`) is exactly the
/// previous boundary of `o`.
pub proof fn lemma_prev_codepoint_boundary_found(s: Seq<u8>, o: int, b: int)
    requires
        0 <= b < o,
        is_codepoint_boundary(s, b),
        forall|j: int| b < j < o ==> !is_codepoint_boundary(s, j),
    ensures
        prev_codepoint_boundary(s, o) == b,
    decreases o,
{
    if o <= 1 {
    } else if b == o - 1 {
    } else {
        lemma_prev_codepoint_boundary_found(s, o - 1, b);
    }
}

/// The position of the first newline byte at or after `from`, if any.
pub open spec fn find_newline(s: Seq<u8>, from: int) -> Option<int>
    decreases s.len() - from,
{
    if from < 0 || from >= s.len() {
        None
    } else if s[from] == NEWLINE {
        Some(from)
    } else {
        find_newline(s, from + 1)
    }
}

pub proof fn lemma_find_newline_some(s: Seq<u8>, from: int)
    requires
        find_newline(s, from) is Some,
    ensures
        ({
            let i = find_newline(s, from)->Some_0;
            &&& from <= i < s.len()
            &&& s[i] == NEWLINE
            &&& forall|j: int| from <= j < i ==> s[j] != NEWLINE
        }),
    decreases s.len() - from,
{
    if from < 0 || from >= s.len() {
    } else if s[from] == NEWLINE {
    } else {
        lemma_find_newline_some(s, from + 1);
    }
}

/// The position of the last newline byte strictly below `below`, if any.
pub open spec fn rfind_newline(s: Seq<u8>, below: int) -> Option<int>
    decreases below,
{
    if below <= 0 || below > s.len() {
        None
    } else if s[below - 1] == NEWLINE {
        Some(below - 1)
    } else {
        rfind_newline(s, below - 1)
    }
}

pub proof fn lemma_rfind_newline_some(s: Seq<u8>, below: int)
    requires
        rfind_newline(s, below) is Some,
    ensures
        ({
            let i = rfind_newline(s, below)->Some_0;
            &&& 0 <= i < below <= s.len()
            &&& s[i] == NEWLINE
            &&& forall|j: int| i < j < below ==> s[j] != NEWLINE
        }),
    decreases below,
{
    if below <= 0 || below > s.len() {
    } else if s[below - 1] == NEWLINE {
    } else {
        lemma_rfind_newline_some(s, below - 1);
    }
}

pub proof fn lemma_rfind_newline_none(s: Seq<u8>, below: int)
    requires
        rfind_newline(s, below) is None,
        below <= s.len(),
    ensures
        forall|j: int| 0 <= j < below ==> s[j] != NEWLINE,
    decreases below,
{
    if below <= 0 {
    } else {
        lemma_rfind_newline_none(s, below - 1);
    }
}

/// A rule for locating boundary offsets of one kind in a byte buffer.
///
/// `next` and `prev` never return the queried offset itself: they strictly
/// advance or strictly retreat, or report that no further boundary exists.
pub trait Metric {
    /// Whether `offset` falls on a boundary of this metric.
    spec fn boundary_spec(s: Seq<u8>, offset: int) -> bool;

    /// Where `prev` lands from `offset`, if anywhere.
    spec fn prev_spec(s: Seq<u8>, offset: int) -> Option<int>;

    /// Where `next` lands from `offset`, if anywhere.
    spec fn next_spec(s: Seq<u8>, offset: int) -> Option<int>;

    /// `next` strictly advances by at most one maximal codepoint width past
    /// the end, and `prev` strictly retreats without leaving the buffer.
    proof fn lemma_strict(s: Seq<u8>, offset: int)
        requires
            0 <= offset <= s.len(),
        ensures
            Self::next_spec(s, offset) matches Some(n) ==> offset < n <= s.len() + 3,
            Self::prev_spec(s, offset) matches Some(p) ==> 0 <= p < offset,
    ;

    /// Is this metric located at the given offset in the given buffer?
    fn is_boundary(s: &[u8], offset: usize) -> (r: bool)
        requires
            offset <= s@.len(),
        ensures
            r == Self::boundary_spec(s@, offset as int),
    ;

    /// Try to find the previous boundary relative to the given offset.
    fn prev(s: &[u8], offset: usize) -> (r: Option<usize>)
        requires
            offset <= s@.len(),
        ensures
            opt_as_int(r) == Self::prev_spec(s@, offset as int),
    ;

    /// Try to find the next boundary relative to the given offset.
    fn next(s: &[u8], offset: usize) -> (r: Option<usize>)
        requires
            offset <= s@.len(),
            s@.len() + 4 <= usize::MAX,
        ensures
            opt_as_int(r) == Self::next_spec(s@, offset as int),
    ;

    /// `offset` itself when it is already a boundary, the next boundary
    /// otherwise.
    fn at_or_next(s: &[u8], offset: usize) -> (r: Option<usize>)
        requires
            offset <= s@.len(),
            s@.len() + 4 <= usize::MAX,
        ensures
            opt_as_int(r) == (if Self::boundary_spec(s@, offset as int) {
                Some(offset as int)
            } else {
                Self::next_spec(s@, offset as int)
            }),
    ;

    /// `offset` itself when it is already a boundary, the previous boundary
    /// otherwise.
    fn at_or_prev(s: &[u8], offset: usize) -> (r: Option<usize>)
        requires
            offset <= s@.len(),
        ensures
            opt_as_int(r) == (if Self::boundary_spec(s@, offset as int) {
                Some(offset as int)
            } else {
                Self::prev_spec(s@, offset as int)
            }),
    ;
}

impl Metric for Char {
    open spec fn boundary_spec(s: Seq<u8>, offset: int) -> bool {
        is_codepoint_boundary(s, offset)
    }

    open spec fn prev_spec(s: Seq<u8>, offset: int) -> Option<int> {
        if offset == 0 {
            None
        } else {
            Some(prev_codepoint_boundary(s, offset))
        }
    }

    open spec fn next_spec(s: Seq<u8>, offset: int) -> Option<int> {
        if offset == s.len() {
            None
        } else {
            Some(offset + spec_len_utf8_from_first_byte(s[offset]))
        }
    }

    proof fn lemma_strict(s: Seq<u8>, offset: int) {
        if offset >= 1 {
            lemma_prev_codepoint_boundary_range(s, offset);
        }
    }

    fn is_boundary(s: &[u8], offset: usize) -> (r: bool) {
        offset == 0 || offset == s.len() || !(0x80 <= s[offset] && s[offset] <= 0xbf)
    }

    fn prev(s: &[u8], offset: usize) -> (r: Option<usize>) {
        if offset == 0 {
            None
        } else {
            let mut len: usize = 1;
            while offset - len != 0 && 0x80 <= s[offset - len] && s[offset - len] <= 0xbf
                invariant
                    1 <= len <= offset <= s@.len(),
                    forall|j: int| offset - len < j < offset ==> !is_codepoint_boundary(s@, j),
                decreases offset - len,
            {
                len = len + 1;
            }
            proof {
                lemma_prev_codepoint_boundary_found(s@, offset as int, (offset - len) as int);
            }
            Some(offset - len)
        }
    }

    fn next(s: &[u8], offset: usize) -> (r: Option<usize>) {
        if offset == s.len() {
            None
        } else {
            let b = s[offset];
            Some(offset + len_utf8_from_first_byte(b))
        }
    }

    fn at_or_next(s: &[u8], offset: usize) -> (r: Option<usize>) {
        if Self::is_boundary(s, offset) {
            Some(offset)
        } else {
            Self::next(s, offset)
        }
    }

    fn at_or_prev(s: &[u8], offset: usize) -> (r: Option<usize>) {
        if Self::is_boundary(s, offset) {
            Some(offset)
        } else {
            Self::prev(s, offset)
        }
    }
}

impl Metric for Line {
    /// Offset 0 is not a line boundary by this metric; a boundary is an
    /// offset whose preceding byte is a newline.
    open spec fn boundary_spec(s: Seq<u8>, offset: int) -> bool {
        offset != 0 && offset <= s.len() && s[offset - 1] == NEWLINE
    }

    /// The start of the line before the current one: the newline immediately
    /// preceding `offset` is deliberately skipped, so `prev` never lands on
    /// the current line's own start.
    open spec fn prev_spec(s: Seq<u8>, offset: int) -> Option<int> {
        if offset == 0 {
            None
        } else {
            match rfind_newline(s, offset - 1) {
                Some(i) => Some(i + 1),
                None => None,
            }
        }
    }

    open spec fn next_spec(s: Seq<u8>, offset: int) -> Option<int> {
        match find_newline(s, offset) {
            Some(i) => Some(i + 1),
            None => None,
        }
    }

    proof fn lemma_strict(s: Seq<u8>, offset: int) {
        if find_newline(s, offset) is Some {
            lemma_find_newline_some(s, offset);
        }
        if offset >= 1 && rfind_newline(s, offset - 1) is Some {
            lemma_rfind_newline_some(s, offset - 1);
        }
    }

    fn is_boundary(s: &[u8], offset: usize) -> (r: bool) {
        if offset == 0 {
            false
        } else {
            s[offset - 1] == NEWLINE
        }
    }

    fn prev(s: &[u8], offset: usize) -> (r: Option<usize>) {
        if offset == 0 {
            return None;
        }
        let mut below: usize = offset - 1;
        while below != 0 && s[below - 1] != NEWLINE
            invariant
                0 <= below <= offset - 1 <= s@.len(),
                rfind_newline(s@, (offset - 1) as int) == rfind_newline(s@, below as int),
            decreases below,
        {
            below = below - 1;
        }
        if below == 0 {
            None
        } else {
            Some(below)
        }
    }

    fn next(s: &[u8], offset: usize) -> (r: Option<usize>) {
        let mut i: usize = offset;
        while i < s.len() && s[i] != NEWLINE
            invariant
                offset <= i <= s@.len(),
                find_newline(s@, offset as int) == find_newline(s@, i as int),
            decreases s@.len() - i,
        {
            i = i + 1;
        }
        if i == s.len() {
            None
        } else {
            Some(i + 1)
        }
    }

    fn at_or_next(s: &[u8], offset: usize) -> (r: Option<usize>) {
        if Self::is_boundary(s, offset) {
            Some(offset)
        } else {
            Self::next(s, offset)
        }
    }

    fn at_or_prev(s: &[u8], offset: usize) -> (r: Option<usize>) {
        if Self::is_boundary(s, offset) {
            Some(offset)
        } else {
            Self::prev(s, offset)
        }
    }
}

impl Metric for BOF {
    open spec fn boundary_spec(s: Seq<u8>, offset: int) -> bool {
        offset == 0
    }

    open spec fn prev_spec(s: Seq<u8>, offset: int) -> Option<int> {
        if offset == 0 {
            None
        } else {
            Some(0)
        }
    }

    open spec fn next_spec(s: Seq<u8>, offset: int) -> Option<int> {
        None
    }

    proof fn lemma_strict(s: Seq<u8>, offset: int) {
    }

    fn is_boundary(s: &[u8], offset: usize) -> (r: bool) {
        offset == 0
    }

    fn prev(s: &[u8], offset: usize) -> (r: Option<usize>) {
        if offset == 0 {
            None
        } else {
            Some(0)
        }
    }

    fn next(s: &[u8], offset: usize) -> (r: Option<usize>) {
        None
    }

    fn at_or_next(s: &[u8], offset: usize) -> (r: Option<usize>) {
        if offset == 0 {
            Some(0)
        } else {
            None
        }
    }

    fn at_or_prev(s: &[u8], offset: usize) -> (r: Option<usize>) {
        Some(0)
    }
}

impl Metric for EOF {
    open spec fn boundary_spec(s: Seq<u8>, offset: int) -> bool {
        offset == s.len()
    }

    open spec fn prev_spec(s: Seq<u8>, offset: int) -> Option<int> {
        None
    }

    open spec fn next_spec(s: Seq<u8>, offset: int) -> Option<int> {
        if offset == s.len() {
            None
        } else {
            Some(s.len() as int)
        }
    }

    proof fn lemma_strict(s: Seq<u8>, offset: int) {
    }

    fn is_boundary(s: &[u8], offset: usize) -> (r: bool) {
        offset == s.len()
    }

    fn prev(s: &[u8], offset: usize) -> (r: Option<usize>) {
        None
    }

    fn next(s: &[u8], offset: usize) -> (r: Option<usize>) {
        if offset == s.len() {
            None
        } else {
            Some(s.len())
        }
    }

    fn at_or_next(s: &[u8], offset: usize) -> (r: Option<usize>) {
        Some(s.len())
    }

    fn at_or_prev(s: &[u8], offset: usize) -> (r: Option<usize>) {
        if offset == s.len() {
            Some(offset)
        } else {
            None
        }
    }
}

/// No line boundary is lost by stepping forward and back: from any
/// position, taking the next line boundary and then the previous one lands
/// on the greatest line boundary at or before the starting position — or
/// nowhere, exactly when no line boundary precedes it at all.
pub proof fn lemma_line_next_prev_inverse(s: Seq<u8>, p: int)
    requires
        0 <= p <= s.len(),
        <Line as Metric>::next_spec(s, p) is Some,
    ensures
        ({
            let q = <Line as Metric>::next_spec(s, p)->Some_0;
            &&& (<Line as Metric>::prev_spec(s, q) matches Some(r) ==> r <= p
                && <Line as Metric>::boundary_spec(s, r) && forall|b: int|
                <Line as Metric>::boundary_spec(s, b) && b <= p ==> b <= r)
            &&& (<Line as Metric>::prev_spec(s, q) is None ==> forall|b: int|
                0 <= b <= p ==> !<Line as Metric>::boundary_spec(s, b))
        }),
{
    let nl = find_newline(s, p)->Some_0;
    lemma_find_newline_some(s, p);
    let q = nl + 1;
    match rfind_newline(s, q - 1) {
        Some(m) => {
            lemma_rfind_newline_some(s, q - 1);
            assert forall|b: int|
                <Line as Metric>::boundary_spec(s, b) && b <= p implies b <= m + 1 by {
                if b > m + 1 {
                    assert(s[b - 1] == NEWLINE);
                    assert(m < b - 1 < nl);
                }
            }
        },
        None => {
            lemma_rfind_newline_none(s, q - 1);
            assert forall|b: int| 0 <= b <= p implies !<Line as Metric>::boundary_spec(s, b) by {
                if <Line as Metric>::boundary_spec(s, b) {
                    assert(s[b - 1] == NEWLINE);
                    assert(0 <= b - 1 < nl);
                }
            }
        },
    }
}

/// No codepoint boundary is lost either: where a well-formed scalar
/// encoding starts, stepping to the next codepoint boundary and back
/// returns exactly to the start.  (On ill-formed bytes — a truncated
/// multi-byte head — the forward step can overshoot intervening
/// boundaries, which is why well-formedness is required.)
pub proof fn lemma_char_next_prev_inverse(s: Seq<u8>, p: int)
    requires
        0 <= p < s.len(),
        vstd::utf8::valid_first_scalar(crate::lexeme::tail_of(s, p)),
    ensures
        ({
            let q = <Char as Metric>::next_spec(s, p)->Some_0;
            <Char as Metric>::prev_spec(s, q) == Some(p)
        }),
{
    crate::emacs::lemma_scalar_step_back(s, p);
}

} // verus!
