//! The cursor: an owned, mutable byte-offset position into a borrowed text
//! buffer.
//!
//! The cursor is the only mutable piece of navigation state; every other
//! component operates through it.  Navigation primitives report "no such
//! boundary" as `None` and leave the position unchanged — exhaustion is a
//! normal outcome, never an error.

use vstd::prelude::*;

use crate::{Addressable, Char, Interval};
use crate::lexeme::Lexeme;
use crate::metrics::{opt_as_int, Metric};

verus! {

/// A byte-offset position into a borrowed buffer.
///
/// `set` is unchecked: the caller must supply a valid boundary for the
/// operations it intends to perform next, and each operation requires the
/// position to lie within the buffer.
pub struct Cursor<'a> {
    pub data: &'a [u8],
    pub pos: usize,
}

impl<'a> Cursor<'a> {
    pub fn new(data: &'a [u8], pos: usize) -> (c: Cursor<'a>)
        ensures
            c.data@ == data@,
            c.pos == pos,
    {
        Cursor { data, pos }
    }

    /// Total length of the underlying data.
    pub fn data_len(&self) -> (r: usize)
        ensures
            r == self.data@.len(),
    {
        self.data.len()
    }

    pub fn pos(&self) -> (r: usize)
        ensures
            r == self.pos,
    {
        self.pos
    }

    pub fn set(&mut self, pos: usize)
        ensures
            final(self).pos == pos,
            final(self).data == old(self).data,
    {
        self.pos = pos;
    }

    /// Moves to the end of the buffer.
    pub fn eof(&mut self)
        ensures
            final(self).pos == final(self).data@.len(),
            final(self).data == old(self).data,
    {
        self.pos = self.data.len();
    }

    /// Moves to the beginning of the buffer.
    pub fn bof(&mut self)
        ensures
            final(self).pos == 0,
            final(self).data == old(self).data,
    {
        self.pos = 0;
    }

    /// Advances the position by `inc` bytes.
    pub fn inc(&mut self, inc: usize)
        requires
            old(self).pos + inc <= usize::MAX,
        ensures
            final(self).pos == old(self).pos + inc,
            final(self).data == old(self).data,
    {
        self.pos = self.pos + inc;
    }

    /// Retreats the position by `dec` bytes, stopping at 0.
    pub fn dec(&mut self, dec: usize)
        ensures
            final(self).pos == if dec > old(self).pos {
                0int
            } else {
                old(self).pos - dec
            },
            final(self).data == old(self).data,
    {
        if dec > self.pos {
            self.pos = 0;
        } else {
            self.pos = self.pos - dec;
        }
    }
}

/// How many boundary steps of `M` a walk from `b` takes before reaching
/// `e` (or failing to advance), not counting `b` itself.
pub open spec fn count_walk<M: Metric>(s: Seq<u8>, b: int, e: int) -> int
    decreases (if b < e { e - b } else { 0int }),
        via count_walk_decreases::<M>
{
    if !(0 <= b <= s.len()) || b >= e {
        0
    } else {
        match M::next_spec(s, b) {
            Some(n) => 1 + count_walk::<M>(s, n, e),
            None => 0,
        }
    }
}

#[via_fn]
proof fn count_walk_decreases<M: Metric>(s: Seq<u8>, b: int, e: int) {
    if 0 <= b <= s.len() && b < e {
        M::lemma_strict(s, b);
    }
}

impl<'a> Cursor<'a> {
    /// Counts the boundaries of `M` between `begin` and `end`: one for
    /// `begin` itself when it is a boundary, then one per step of `next`
    /// until `end` is reached or no further boundary exists.
    pub fn count_between<M: Metric>(&self, begin: usize, end: usize) -> (cnt: usize)
        requires
            begin <= self.data@.len(),
            self.data@.len() + 4 <= usize::MAX,
        ensures
            cnt == (if M::boundary_spec(self.data@, begin as int) {
                1int
            } else {
                0int
            }) + count_walk::<M>(self.data@, begin as int, end as int),
    {
        let base: usize = if M::is_boundary(self.data, begin) {
            1
        } else {
            0
        };
        let mut cur = Cursor::new(self.data, begin);
        let mut cnt: usize = base;
        loop
            invariant
                cur.data == self.data,
                base <= 1,
                cnt + begin <= base + cur.pos,
                cur.pos <= cur.data@.len() + 3,
                begin <= cur.pos,
                cnt as int + count_walk::<M>(cur.data@, cur.pos as int, end as int) == base
                    + count_walk::<M>(self.data@, begin as int, end as int),
                self.data@.len() + 4 <= usize::MAX,
            ensures
                cnt as int == base + count_walk::<M>(self.data@, begin as int, end as int),
            decreases (if cur.pos < end {
                    end - cur.pos
                } else {
                    0int
                }),
        {
            if cur.pos() >= end {
                break;
            }
            if cur.pos() > cur.data.len() {
                break;
            }
            proof {
                M::lemma_strict(cur.data@, cur.pos as int);
            }
            match cur.mnext::<M>() {
                Some(_x) => {
                    cnt = cnt + 1;
                },
                None => {
                    break;
                },
            }
        }
        cnt
    }
}

/// Cursor movement by metric boundaries.
pub trait MetricCursor {
    /// The underlying buffer.
    spec fn buf(&self) -> Seq<u8>;

    /// The current byte offset.
    spec fn at(&self) -> int;

    /// Whether the cursor sits on a boundary of metric `M`.
    fn is_boundary<M: Metric>(&self) -> (r: bool)
        requires
            0 <= self.at() <= self.buf().len(),
        ensures
            r == M::boundary_spec(self.buf(), self.at()),
    ;

    /// Moves to the next boundary of `M`; `None` and no movement when there
    /// is none.
    fn mnext<M: Metric>(&mut self) -> (r: Option<usize>)
        requires
            0 <= old(self).at() <= old(self).buf().len(),
            old(self).buf().len() + 4 <= usize::MAX,
        ensures
            final(self).buf() == old(self).buf(),
            opt_as_int(r) == M::next_spec(old(self).buf(), old(self).at()),
            match M::next_spec(old(self).buf(), old(self).at()) {
                Some(n) => final(self).at() == n,
                None => final(self).at() == old(self).at(),
            },
    ;

    /// Moves to the previous boundary of `M`; `None` and no movement when
    /// there is none.
    fn mprev<M: Metric>(&mut self) -> (r: Option<usize>)
        requires
            0 <= old(self).at() <= old(self).buf().len(),
        ensures
            final(self).buf() == old(self).buf(),
            opt_as_int(r) == M::prev_spec(old(self).buf(), old(self).at()),
            match M::prev_spec(old(self).buf(), old(self).at()) {
                Some(p) => final(self).at() == p,
                None => final(self).at() == old(self).at(),
            },
    ;

    /// Stays put when already on a boundary of `M`, else moves to the next
    /// one.
    fn at_or_mnext<M: Metric>(&mut self) -> (r: Option<usize>)
        requires
            0 <= old(self).at() <= old(self).buf().len(),
            old(self).buf().len() + 4 <= usize::MAX,
        ensures
            final(self).buf() == old(self).buf(),
            opt_as_int(r) == (if M::boundary_spec(old(self).buf(), old(self).at()) {
                Some(old(self).at())
            } else {
                M::next_spec(old(self).buf(), old(self).at())
            }),
            match opt_as_int(r) {
                Some(n) => final(self).at() == n,
                None => final(self).at() == old(self).at(),
            },
    ;

    /// Stays put when already on a boundary of `M`, else moves to the
    /// previous one.
    fn at_or_mprev<M: Metric>(&mut self) -> (r: Option<usize>)
        requires
            0 <= old(self).at() <= old(self).buf().len(),
        ensures
            final(self).buf() == old(self).buf(),
            opt_as_int(r) == (if M::boundary_spec(old(self).buf(), old(self).at()) {
                Some(old(self).at())
            } else {
                M::prev_spec(old(self).buf(), old(self).at())
            }),
            match opt_as_int(r) {
                Some(p) => final(self).at() == p,
                None => final(self).at() == old(self).at(),
            },
    ;
}

impl<'a> MetricCursor for Cursor<'a> {
    open spec fn buf(&self) -> Seq<u8> {
        self.data@
    }

    open spec fn at(&self) -> int {
        self.pos as int
    }

    fn is_boundary<M: Metric>(&self) -> (r: bool) {
        M::is_boundary(self.data, self.pos)
    }

    fn mnext<M: Metric>(&mut self) -> (r: Option<usize>) {
        match M::next(self.data, self.pos) {
            Some(l) => {
                self.pos = l;
                Some(l)
            },
            None => None,
        }
    }

    fn mprev<M: Metric>(&mut self) -> (r: Option<usize>) {
        match M::prev(self.data, self.pos) {
            Some(offset) => {
                self.pos = offset;
                Some(offset)
            },
            None => None,
        }
    }

    fn at_or_mnext<M: Metric>(&mut self) -> (r: Option<usize>) {
        if self.is_boundary::<M>() {
            Some(self.pos())
        } else {
            self.mnext::<M>()
        }
    }

    fn at_or_mprev<M: Metric>(&mut self) -> (r: Option<usize>) {
        if self.is_boundary::<M>() {
            Some(self.pos())
        } else {
            self.mprev::<M>()
        }
    }
}

/// Cursor movement by lexemes: find an address or decode a value, then move
/// to the address start.
pub trait LexemeCursor {
    /// The underlying buffer.
    spec fn lbuf(&self) -> Seq<u8>;

    /// The current byte offset.
    spec fn lat(&self) -> int;

    /// Whether some value of lexeme `L` lies at the cursor.
    fn is_on<L: Lexeme>(&self) -> (r: bool)
        requires
            0 <= self.lat() <= self.lbuf().len(),
        ensures
            r == L::is_on_spec(self.lbuf(), self.lat()),
    ;

    /// Moves to the start of the previous lexeme's address and returns that
    /// address; `None` and no movement when there is none.
    fn lprev<L: Lexeme>(&mut self) -> (r: Option<Interval>)
        requires
            0 <= old(self).lat() <= old(self).lbuf().len(),
        ensures
            final(self).lbuf() == old(self).lbuf(),
            match r {
                Some(i) => L::find_prev_spec(old(self).lbuf(), old(self).lat()) == Some(
                    (i.start as int, i.end as int),
                ) && final(self).lat() == i.start,
                None => L::find_prev_spec(old(self).lbuf(), old(self).lat()) is None
                    && final(self).lat() == old(self).lat(),
            },
    ;

    /// Moves to the start of the next lexeme's address and returns that
    /// address; `None` and no movement when there is none.
    fn lnext<L: Lexeme>(&mut self) -> (r: Option<Interval>)
        requires
            0 <= old(self).lat() <= old(self).lbuf().len(),
            old(self).lbuf().len() + 4 <= usize::MAX,
        ensures
            final(self).lbuf() == old(self).lbuf(),
            match r {
                Some(i) => L::find_next_spec(old(self).lbuf(), old(self).lat()) == Some(
                    (i.start as int, i.end as int),
                ) && final(self).lat() == i.start,
                None => L::find_next_spec(old(self).lbuf(), old(self).lat()) is None
                    && final(self).lat() == old(self).lat(),
            },
    ;

    /// Decodes the previous lexeme's value and moves to its address start;
    /// `None` and no movement when there is none.
    fn get_lprev<L: Lexeme>(&mut self) -> (r: Option<L::Item>)
        requires
            0 <= old(self).lat() <= old(self).lbuf().len(),
        ensures
            final(self).lbuf() == old(self).lbuf(),
            r is Some == L::get_prev_is_some(old(self).lbuf(), old(self).lat()),
            match r {
                Some(v) => L::prev_value_spec(old(self).lbuf(), old(self).lat(), v) && Some(
                    final(self).lat(),
                ) == (match L::find_prev_spec(old(self).lbuf(), old(self).lat()) {
                    Some(a) => Some(a.0),
                    None => None,
                }),
                None => final(self).lat() == old(self).lat(),
            },
    ;

    /// Decodes the next lexeme's value and moves to its address start (for a
    /// character this consumes it, like `forward-char`); `None` and no
    /// movement when there is none.
    fn get_lnext<L: Lexeme>(&mut self) -> (r: Option<L::Item>)
        requires
            0 <= old(self).lat() <= old(self).lbuf().len(),
            old(self).lbuf().len() + 4 <= usize::MAX,
        ensures
            final(self).lbuf() == old(self).lbuf(),
            r is Some == L::get_next_is_some(old(self).lbuf(), old(self).lat()),
            match r {
                Some(v) => L::next_value_spec(old(self).lbuf(), old(self).lat(), v) && Some(
                    final(self).lat(),
                ) == (match L::find_next_spec(old(self).lbuf(), old(self).lat()) {
                    Some(a) => Some(a.0),
                    None => None,
                }),
                None => final(self).lat() == old(self).lat(),
            },
    ;
}

impl<'a> LexemeCursor for Cursor<'a> {
    open spec fn lbuf(&self) -> Seq<u8> {
        self.data@
    }

    open spec fn lat(&self) -> int {
        self.pos as int
    }

    fn is_on<L: Lexeme>(&self) -> (r: bool) {
        L::is_on(self.data, self.pos)
    }

    fn lprev<L: Lexeme>(&mut self) -> (r: Option<Interval>) {
        match L::find_prev(self.data, self.pos) {
            None => None,
            Some(i) => {
                self.set(i.start);
                Some(i)
            },
        }
    }

    fn lnext<L: Lexeme>(&mut self) -> (r: Option<Interval>) {
        match L::find_next(self.data, self.pos) {
            None => None,
            Some(i) => {
                self.set(i.start);
                Some(i)
            },
        }
    }

    fn get_lprev<L: Lexeme>(&mut self) -> (r: Option<L::Item>) {
        proof {
            L::lemma_lexeme(self.data@, self.pos as int);
        }
        match L::get_prev(self.data, self.pos) {
            None => None,
            Some(item) => {
                self.set(item.address.start);
                Some(item.value)
            },
        }
    }

    fn get_lnext<L: Lexeme>(&mut self) -> (r: Option<L::Item>) {
        proof {
            L::lemma_lexeme(self.data@, self.pos as int);
        }
        match L::get_next(self.data, self.pos) {
            None => None,
            Some(item) => {
                self.set(item.address.start);
                Some(item.value)
            },
        }
    }
}

impl<'a> Cursor<'a> {
    /// Decodes the codepoint at the cursor position and advances past it;
    /// `None` and no movement when the cursor is at the end of input or not
    /// on a well-formed encoding.
    pub fn get_next_char(&mut self) -> (r: Option<char>)
        requires
            old(self).pos <= old(self).data@.len(),
            old(self).data@.len() + 4 <= usize::MAX,
        ensures
            final(self).data == old(self).data,
            r is Some == <Char as Lexeme>::get_next_is_some(
                old(self).data@,
                old(self).pos as int,
            ),
            match r {
                Some(v) => <Char as Lexeme>::next_value_spec(
                    old(self).data@,
                    old(self).pos as int,
                    v,
                ) && Some(final(self).pos as int) == (
                match <Char as Lexeme>::find_next_spec(old(self).data@, old(self).pos as int) {
                    Some(a) => Some(a.0),
                    None => None,
                }),
                None => final(self).pos == old(self).pos,
            },
    {
        self.get_lnext::<Char>()
    }

    /// Decodes the codepoint before the cursor position and retreats to its
    /// start; `None` and no movement when there is none.
    pub fn get_prev_char(&mut self) -> (r: Option<char>)
        requires
            old(self).pos <= old(self).data@.len(),
        ensures
            final(self).data == old(self).data,
            r is Some == <Char as Lexeme>::get_prev_is_some(
                old(self).data@,
                old(self).pos as int,
            ),
            match r {
                Some(v) => <Char as Lexeme>::prev_value_spec(
                    old(self).data@,
                    old(self).pos as int,
                    v,
                ) && Some(final(self).pos as int) == (
                match <Char as Lexeme>::find_prev_spec(old(self).data@, old(self).pos as int) {
                    Some(a) => Some(a.0),
                    None => None,
                }),
                None => final(self).pos == old(self).pos,
            },
    {
        self.get_lprev::<Char>()
    }
}

} // verus!
