//! Lexemes: user-facing values delimited by metric boundaries.
//!
//! A lexeme is anything that carries a meaningful value for the parser.  A
//! [`Char`] lexeme decodes one codepoint; a [`Line`] lexeme yields the bytes
//! of a line, between the beginning of input and a newline, between two
//! newlines, or between a newline and the end of input.

use vstd::prelude::*;

use crate::{Addressable, Char, Interval, Line};
use crate::metrics::{
    find_newline, is_codepoint_boundary, prev_codepoint_boundary, rfind_newline, Metric, NEWLINE,
};
use vstd::utf8::{
    decode_first_scalar, is_scalar, length_of_first_scalar, valid_first_scalar,
};

verus! {

/// Relies on `char::from_u32`: returns `Some` exactly on Unicode scalar
/// values, and the resulting character has the given scalar value.
pub assume_specification[ char::from_u32 ](i: u32) -> (r: Option<char>)
    ensures
        r is Some <==> is_scalar(i),
        r matches Some(c) ==> c as u32 == i,
;

/// The suffix of `s` that starts at `offset`.
pub open spec fn tail_of(s: Seq<u8>, offset: int) -> Seq<u8> {
    s.subrange(offset, s.len() as int)
}

/// Copies the bytes of `[a, b)` out of the buffer.
pub fn copy_range(s: &[u8], a: usize, b: usize) -> (v: Vec<u8>)
    requires
        a <= b <= s@.len(),
    ensures
        v@ == s@.subrange(a as int, b as int),
{
    let mut v: Vec<u8> = Vec::new();
    let mut i: usize = a;
    while i < b
        invariant
            a <= i <= b <= s@.len(),
            v@ == s@.subrange(a as int, i as int),
        decreases b - i,
    {
        v.push(s[i]);
        proof {
            assert(v@ =~= s@.subrange(a as int, i + 1));
        }
        i = i + 1;
    }
    v
}

/// Decodes the UTF-8 scalar whose encoding starts at `offset`, returning the
/// character and the width of its encoding; `None` when the bytes there are
/// not a well-formed scalar encoding.
pub fn decode_scalar_at(s: &[u8], offset: usize) -> (r: Option<(char, usize)>)
    requires
        offset < s@.len(),
    ensures
        match r {
            Some(cw) => {
                &&& valid_first_scalar(tail_of(s@, offset as int))
                &&& cw.0 as u32 == decode_first_scalar(tail_of(s@, offset as int))
                &&& cw.1 == length_of_first_scalar(tail_of(s@, offset as int))
                &&& offset + cw.1 <= s@.len()
            },
            None => !valid_first_scalar(tail_of(s@, offset as int)),
        },
{
    let ghost tail = tail_of(s@, offset as int);
    proof {
        assert(tail.len() == s@.len() - offset);
        assert(tail[0] == s@[offset as int]);
    }
    let n = s.len();
    let b0 = s[offset];
    if b0 < 0x80 {
        proof {
            assert(b0 & 0x7f == b0) by (bit_vector)
                requires
                    b0 < 0x80,
            ;
        }
        let c = char::from_u32(b0 as u32);
        Some((c.unwrap(), 1))
    } else if b0 < 0xc0 {
        None
    } else if b0 < 0xe0 {
        if offset + 1 >= n {
            return None;
        }
        let b1 = s[offset + 1];
        proof {
            assert(tail[1] == s@[offset + 1]);
        }
        if !(0x80 <= b1 && b1 <= 0xbf) {
            return None;
        }
        let cp: u32 = (((b0 & 0x1f) as u32) << 6u32) | ((b1 & 0x3f) as u32);
        if cp < 0x80 {
            return None;
        }
        proof {
            assert((((b0 & 0x1f) as u32) << 6u32) | ((b1 & 0x3f) as u32) <= 0x7ff) by (bit_vector);
        }
        let c = char::from_u32(cp);
        Some((c.unwrap(), 2))
    } else if b0 < 0xf0 {
        if n - offset < 3 {
            return None;
        }
        let b1 = s[offset + 1];
        let b2 = s[offset + 2];
        proof {
            assert(tail[1] == s@[offset + 1]);
            assert(tail[2] == s@[offset + 2]);
        }
        if !(0x80 <= b1 && b1 <= 0xbf) || !(0x80 <= b2 && b2 <= 0xbf) {
            return None;
        }
        let cp: u32 = (((b0 & 0x0f) as u32) << 12u32) | (((b1 & 0x3f) as u32) << 6u32) | ((b2
            & 0x3f) as u32);
        if cp < 0x800 || (0xd800 <= cp && cp <= 0xdfff) {
            return None;
        }
        proof {
            assert((((b0 & 0x0f) as u32) << 12u32) | (((b1 & 0x3f) as u32) << 6u32) | ((b2
                & 0x3f) as u32) <= 0xffff) by (bit_vector);
        }
        let c = char::from_u32(cp);
        Some((c.unwrap(), 3))
    } else if b0 < 0xf8 {
        if n - offset < 4 {
            return None;
        }
        let b1 = s[offset + 1];
        let b2 = s[offset + 2];
        let b3 = s[offset + 3];
        proof {
            assert(tail[1] == s@[offset + 1]);
            assert(tail[2] == s@[offset + 2]);
            assert(tail[3] == s@[offset + 3]);
        }
        if !(0x80 <= b1 && b1 <= 0xbf) || !(0x80 <= b2 && b2 <= 0xbf) || !(0x80 <= b3 && b3
            <= 0xbf) {
            return None;
        }
        let cp: u32 = (((b0 & 0x07) as u32) << 18u32) | (((b1 & 0x3f) as u32) << 12u32) | (((b2
            & 0x3f) as u32) << 6u32) | ((b3 & 0x3f) as u32);
        if cp < 0x10000 || cp > 0x10ffff {
            return None;
        }
        let c = char::from_u32(cp);
        Some((c.unwrap(), 4))
    } else {
        None
    }
}

/// A lexeme: a decodable value bounded by metric boundaries.
pub trait Lexeme {
    type Item;

    /// Whether a value of this lexeme lies at `offset`.
    spec fn is_on_spec(s: Seq<u8>, offset: int) -> bool;

    /// The address found by `find_prev`.
    spec fn find_prev_spec(s: Seq<u8>, offset: int) -> Option<(int, int)>;

    /// The address found by `find_next`.
    spec fn find_next_spec(s: Seq<u8>, offset: int) -> Option<(int, int)>;

    /// Whether `get_prev` succeeds at `offset`.
    spec fn get_prev_is_some(s: Seq<u8>, offset: int) -> bool;

    /// Whether `get_next` succeeds at `offset`.
    spec fn get_next_is_some(s: Seq<u8>, offset: int) -> bool;

    /// What the value decoded by `get_prev` is.
    spec fn prev_value_spec(s: Seq<u8>, offset: int, v: Self::Item) -> bool;

    /// What the value decoded by `get_next` is.
    spec fn next_value_spec(s: Seq<u8>, offset: int, v: Self::Item) -> bool;

    /// `get_prev` succeeds only where `find_prev` finds an address, and the
    /// address lies within the buffer, strictly before `offset` at its start.
    proof fn lemma_lexeme(s: Seq<u8>, offset: int)
        requires
            0 <= offset <= s.len(),
        ensures
            Self::find_prev_spec(s, offset) matches Some(a) ==> 0 <= a.0 <= a.1 <= s.len()
                && a.0 < offset,
            Self::find_next_spec(s, offset) matches Some(a) ==> 0 <= a.0 <= a.1 <= s.len() + 3,
            Self::get_prev_is_some(s, offset) ==> Self::find_prev_spec(s, offset) is Some,
            Self::get_next_is_some(s, offset) ==> Self::find_next_spec(s, offset) is Some,
    ;

    fn is_on(s: &[u8], offset: usize) -> (r: bool)
        requires
            offset <= s@.len(),
        ensures
            r == Self::is_on_spec(s@, offset as int),
    ;

    fn find_prev(s: &[u8], offset: usize) -> (r: Option<Interval>)
        requires
            offset <= s@.len(),
        ensures
            match r {
                Some(i) => Self::find_prev_spec(s@, offset as int) == Some(
                    (i.start as int, i.end as int),
                ),
                None => Self::find_prev_spec(s@, offset as int) is None,
            },
    ;

    fn find_next(s: &[u8], offset: usize) -> (r: Option<Interval>)
        requires
            offset <= s@.len(),
            s@.len() + 4 <= usize::MAX,
        ensures
            match r {
                Some(i) => Self::find_next_spec(s@, offset as int) == Some(
                    (i.start as int, i.end as int),
                ),
                None => Self::find_next_spec(s@, offset as int) is None,
            },
    ;

    fn get_prev(s: &[u8], offset: usize) -> (r: Option<Addressable<Self::Item>>)
        requires
            offset <= s@.len(),
        ensures
            r is Some == Self::get_prev_is_some(s@, offset as int),
            match r {
                Some(a) => Self::find_prev_spec(s@, offset as int) == Some(
                    (a.address.start as int, a.address.end as int),
                ) && Self::prev_value_spec(s@, offset as int, a.value),
                None => true,
            },
    ;

    fn get_next(s: &[u8], offset: usize) -> (r: Option<Addressable<Self::Item>>)
        requires
            offset <= s@.len(),
            s@.len() + 4 <= usize::MAX,
        ensures
            r is Some == Self::get_next_is_some(s@, offset as int),
            match r {
                Some(a) => Self::find_next_spec(s@, offset as int) == Some(
                    (a.address.start as int, a.address.end as int),
                ) && Self::next_value_spec(s@, offset as int, a.value),
                None => true,
            },
    ;
}

impl Lexeme for Char {
    type Item = char;

    /// Any offset before the end of the buffer is on some character.
    open spec fn is_on_spec(s: Seq<u8>, offset: int) -> bool {
        offset < s.len()
    }

    /// The zero-width address of the previous codepoint boundary.
    open spec fn find_prev_spec(s: Seq<u8>, offset: int) -> Option<(int, int)> {
        match <Char as Metric>::prev_spec(s, offset) {
            Some(b) => Some((b, b)),
            None => None,
        }
    }

    /// The zero-width address of the next codepoint boundary.
    open spec fn find_next_spec(s: Seq<u8>, offset: int) -> Option<(int, int)> {
        match <Char as Metric>::next_spec(s, offset) {
            Some(b) => Some((b, b)),
            None => None,
        }
    }

    open spec fn get_prev_is_some(s: Seq<u8>, offset: int) -> bool {
        offset != 0 && valid_first_scalar(tail_of(s, prev_codepoint_boundary(s, offset)))
    }

    open spec fn get_next_is_some(s: Seq<u8>, offset: int) -> bool {
        offset < s.len() && valid_first_scalar(tail_of(s, offset))
    }

    /// The character whose encoding starts at the previous boundary.
    open spec fn prev_value_spec(s: Seq<u8>, offset: int, v: char) -> bool {
        v as u32 == decode_first_scalar(tail_of(s, prev_codepoint_boundary(s, offset)))
    }

    /// The character whose encoding starts at `offset` itself; the address
    /// returned alongside is the boundary after it.
    open spec fn next_value_spec(s: Seq<u8>, offset: int, v: char) -> bool {
        v as u32 == decode_first_scalar(tail_of(s, offset))
    }

    proof fn lemma_lexeme(s: Seq<u8>, offset: int) {
        <Char as Metric>::lemma_strict(s, offset);
        if offset >= 1 {
            crate::metrics::lemma_prev_codepoint_boundary_range(s, offset);
        }
    }

    fn find_prev(s: &[u8], offset: usize) -> (r: Option<Interval>) {
        match <Char as Metric>::prev(s, offset) {
            Some(beg) => Some(Interval { start: beg, end: beg }),
            None => None,
        }
    }

    fn get_prev(s: &[u8], offset: usize) -> (r: Option<Addressable<char>>) {
        if offset == 0 {
            return None;
        }
        let beg = <Char as Metric>::prev(s, offset).unwrap();
        proof {
            crate::metrics::lemma_prev_codepoint_boundary_range(s@, offset as int);
        }
        match decode_scalar_at(s, beg) {
            Some(cw) => Some(
                Addressable { value: cw.0, address: Interval { start: beg, end: beg } },
            ),
            None => None,
        }
    }

    fn find_next(s: &[u8], offset: usize) -> (r: Option<Interval>) {
        match <Char as Metric>::next(s, offset) {
            Some(beg) => Some(Interval { start: beg, end: beg }),
            None => None,
        }
    }

    fn get_next(s: &[u8], offset: usize) -> (r: Option<Addressable<char>>) {
        if offset == s.len() {
            return None;
        }
        match decode_scalar_at(s, offset) {
            Some(cw) => {
                let nxt = offset + cw.1;
                proof {
                    assert(length_of_first_scalar(tail_of(s@, offset as int))
                        == crate::spec_len_utf8_from_first_byte(s@[offset as int]));
                }
                Some(Addressable { value: cw.0, address: Interval { start: nxt, end: nxt } })
            },
            None => None,
        }
    }

    fn is_on(s: &[u8], offset: usize) -> (r: bool) {
        offset < s.len()
    }
}

/// The address of the line before `offset`: when `offset` is not itself a
/// line start, first back up to the current line's start, then to the
/// start of the line before it.
pub open spec fn line_find_prev_spec(s: Seq<u8>, offset: int) -> Option<(int, int)> {
    let e = if <Line as Metric>::boundary_spec(s, offset) {
        Some(offset)
    } else {
        <Line as Metric>::prev_spec(s, offset)
    };
    match e {
        None => None,
        Some(end) => {
            let beg = match <Line as Metric>::prev_spec(s, end) {
                None => 0,
                Some(b) => b,
            };
            Some((beg, end))
        },
    }
}

/// The address of the line at or after `offset`: its start is `offset` when
/// that is a line start, the next line start otherwise; its end is the next
/// line start after that, or the end of input.
pub open spec fn line_find_next_spec(s: Seq<u8>, offset: int) -> Option<(int, int)> {
    let b = if <Line as Metric>::boundary_spec(s, offset) {
        Some(offset)
    } else {
        <Line as Metric>::next_spec(s, offset)
    };
    match b {
        None => None,
        Some(beg) => {
            let end = match <Line as Metric>::next_spec(s, beg) {
                None => s.len() as int,
                Some(e) => e,
            };
            Some((beg, end))
        },
    }
}

impl Lexeme for Line {
    type Item = Vec<u8>;

    /// Any offset in the buffer, its end included, is on some line.
    open spec fn is_on_spec(s: Seq<u8>, offset: int) -> bool {
        offset <= s.len()
    }

    open spec fn find_prev_spec(s: Seq<u8>, offset: int) -> Option<(int, int)> {
        line_find_prev_spec(s, offset)
    }

    open spec fn find_next_spec(s: Seq<u8>, offset: int) -> Option<(int, int)> {
        line_find_next_spec(s, offset)
    }

    open spec fn get_prev_is_some(s: Seq<u8>, offset: int) -> bool {
        line_find_prev_spec(s, offset) is Some
    }

    open spec fn get_next_is_some(s: Seq<u8>, offset: int) -> bool {
        line_find_next_spec(s, offset) is Some
    }

    /// The bytes of the found line, newline included.
    open spec fn prev_value_spec(s: Seq<u8>, offset: int, v: Vec<u8>) -> bool {
        match line_find_prev_spec(s, offset) {
            Some(a) => v@ == s.subrange(a.0, a.1),
            None => false,
        }
    }

    /// The bytes of the found line, newline included.
    open spec fn next_value_spec(s: Seq<u8>, offset: int, v: Vec<u8>) -> bool {
        match line_find_next_spec(s, offset) {
            Some(a) => v@ == s.subrange(a.0, a.1),
            None => false,
        }
    }

    proof fn lemma_lexeme(s: Seq<u8>, offset: int) {
        <Line as Metric>::lemma_strict(s, offset);
        match line_find_prev_spec(s, offset) {
            Some(a) => {
                let end = if <Line as Metric>::boundary_spec(s, offset) {
                    offset
                } else {
                    <Line as Metric>::prev_spec(s, offset)->Some_0
                };
                if !<Line as Metric>::boundary_spec(s, offset)
                    && rfind_newline(s, offset - 1) is Some {
                    crate::metrics::lemma_rfind_newline_some(s, offset - 1);
                }
                if end >= 1 && rfind_newline(s, end - 1) is Some {
                    crate::metrics::lemma_rfind_newline_some(s, end - 1);
                }
            },
            None => {},
        }
        match line_find_next_spec(s, offset) {
            Some(a) => {
                let beg = if <Line as Metric>::boundary_spec(s, offset) {
                    offset
                } else {
                    <Line as Metric>::next_spec(s, offset)->Some_0
                };
                if !<Line as Metric>::boundary_spec(s, offset)
                    && find_newline(s, offset) is Some {
                    crate::metrics::lemma_find_newline_some(s, offset);
                }
                if find_newline(s, beg) is Some {
                    crate::metrics::lemma_find_newline_some(s, beg);
                }
            },
            None => {},
        }
    }

    fn is_on(s: &[u8], offset: usize) -> (r: bool) {
        offset <= s.len()
    }

    /// Finds the previous line relative to the offset.  If no first newline
    /// is found the offset is already on the first line; if no second one is
    /// found the previous line is the first line.
    fn find_prev(s: &[u8], offset: usize) -> (r: Option<Interval>) {
        let end: usize;
        if <Line as Metric>::is_boundary(s, offset) {
            end = offset;
        } else {
            match <Line as Metric>::prev(s, offset) {
                None => {
                    return None;
                },
                Some(x) => {
                    end = x;
                },
            }
        }
        proof {
            if end >= 1 && rfind_newline(s@, offset - 1) is Some {
                crate::metrics::lemma_rfind_newline_some(s@, offset - 1);
            }
        }
        let beg: usize = match <Line as Metric>::prev(s, end) {
            None => 0,
            Some(x) => x,
        };
        Some(Interval { start: beg, end })
    }

    fn get_prev(s: &[u8], offset: usize) -> (r: Option<Addressable<Vec<u8>>>) {
        match <Line as Lexeme>::find_prev(s, offset) {
            Some(i) => {
                proof {
                    if !<Line as Metric>::boundary_spec(s@, offset as int) && offset >= 1
                        && rfind_newline(s@, offset - 1) is Some {
                        crate::metrics::lemma_rfind_newline_some(s@, offset - 1);
                    }
                    if i.end >= 1 && rfind_newline(s@, i.end - 1) is Some {
                        crate::metrics::lemma_rfind_newline_some(s@, i.end - 1);
                    }
                }
                let v = copy_range(s, i.start, i.end);
                Some(Addressable { value: v, address: i })
            },
            None => None,
        }
    }

    /// Finds the next line relative to the offset.  If no first newline is
    /// found the offset is already on the last line; if no second one is
    /// found the next line is the last line.
    fn find_next(s: &[u8], offset: usize) -> (r: Option<Interval>) {
        let beg: usize;
        if <Line as Metric>::is_boundary(s, offset) {
            beg = offset;
        } else {
            match <Line as Metric>::next(s, offset) {
                None => {
                    return None;
                },
                Some(x) => {
                    beg = x;
                },
            }
        }
        proof {
            if find_newline(s@, offset as int) is Some {
                crate::metrics::lemma_find_newline_some(s@, offset as int);
            }
        }
        let end: usize = match <Line as Metric>::next(s, beg) {
            None => s.len(),
            Some(x) => x,
        };
        Some(Interval { start: beg, end })
    }

    fn get_next(s: &[u8], offset: usize) -> (r: Option<Addressable<Vec<u8>>>) {
        match <Line as Lexeme>::find_next(s, offset) {
            Some(i) => {
                proof {
                    if !<Line as Metric>::boundary_spec(s@, offset as int)
                        && find_newline(s@, offset as int) is Some {
                        crate::metrics::lemma_find_newline_some(s@, offset as int);
                    }
                    if find_newline(s@, i.start as int) is Some {
                        crate::metrics::lemma_find_newline_some(s@, i.start as int);
                    }
                }
                let v = copy_range(s, i.start, i.end);
                Some(Addressable { value: v, address: i })
            },
            None => None,
        }
    }
}

} // verus!
