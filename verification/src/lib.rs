//! Byte-offset navigation and element parsing for Org-mode text buffers.
//!
//! The crate is organised around three layers:
//!
//! * metrics and lexemes ([`metrics`], [`lexeme`]): rules that locate
//!   structurally meaningful boundaries (codepoints, line starts) in a flat
//!   byte buffer and decode the values delimited by them;
//! * the cursor ([`cursor`], [`emacs`], [`search`]): a mutable byte-offset
//!   position threaded through every other component, with Emacs-style
//!   navigation and search primitives;
//! * the syntax data model and the element parser ([`data`], [`pattern`],
//!   [`affiliated`], [`parser`]): classification of each text region into a
//!   syntax node kind and construction of an owned parse tree.
//!
//! The buffer is an immutable `&[u8]` borrowed for the whole parse; offsets
//! are byte offsets, and UTF-8 boundary correctness is part of the metric
//! contracts.

use vstd::prelude::*;

pub mod affiliated;
pub mod babel;
pub mod blocks;
pub mod cursor;
pub mod data;
pub mod drawer;
pub mod emacs;
pub mod environment;
pub mod headline;
pub mod keyword;
pub mod latex;
pub mod lexeme;
pub mod list;
pub mod markup;
pub mod metrics;
pub mod paragraph;
pub mod parser;
pub mod pattern;
pub mod planning;
pub mod search;
pub mod table;

verus! {

/// Byte interval `[start, end)` within a text buffer.
#[derive(Debug, Clone, Copy, PartialEq, Eq, Structural)]
pub struct Interval {
    pub start: usize,
    pub end: usize,
}

impl Interval {
    /// Builds the half-open interval `[start, end)`.
    pub fn new(start: usize, end: usize) -> (r: Interval)
        ensures
            r.start == start,
            r.end == end,
    {
        Interval { start, end }
    }
}

/// A decoded value together with the interval it was read from.
pub struct Addressable<T> {
    pub value: T,
    pub address: Interval,
}

/// Codepoint marker type: as a metric its boundaries are the starts of UTF-8
/// code unit sequences; as a lexeme it decodes a single `char`.
pub struct Char;

/// Line marker type: as a metric its boundaries sit right after each newline
/// byte; as a lexeme it yields the bytes of one line, newline included.
pub struct Line;

/// Beginning of input.
pub struct BOF;

/// End of input.
pub struct EOF;

/// Width in bytes of a UTF-8 encoding, read off its leading byte.
pub open spec fn spec_len_utf8_from_first_byte(b: u8) -> int {
    if b < 0x80 {
        1
    } else if b < 0xe0 {
        2
    } else if b < 0xf0 {
        3
    } else {
        4
    }
}

/// Given the initial byte of a UTF-8 codepoint, returns the number of bytes
/// required to represent the codepoint.
pub fn len_utf8_from_first_byte(b: u8) -> (r: usize)
    ensures
        r == spec_len_utf8_from_first_byte(b),
{
    if b < 0x80 {
        1
    } else if b < 0xe0 {
        2
    } else if b < 0xf0 {
        3
    } else {
        4
    }
}

} // verus!
