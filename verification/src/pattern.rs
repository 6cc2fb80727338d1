//! The line patterns of the Org grammar, as verified byte matchers.
//!
//! Each pattern is matched anchored at a position, bounded by the end of the
//! current line (or by the end of input for the one multi-line pattern).
//! The specification functions here are the grammar itself: what a matcher
//! returns is exactly what its specification says.

use vstd::prelude::*;

use crate::Interval;
use crate::Line;
use crate::cursor::{Cursor, MetricCursor};
use crate::metrics::{find_newline, lemma_find_newline_some, Metric, NEWLINE};
use crate::search::is_match_at;
use crate::emacs::{is_whitespace_char, is_whitespace_scalar, line_begin_spec};
use crate::lexeme::{decode_scalar_at, tail_of};
use vstd::utf8::{decode_first_scalar, length_of_first_scalar, valid_first_scalar};

verus! {

pub const SPACE: u8 = 32;
pub const TAB: u8 = 9;
pub const CARRIAGE: u8 = 13;
pub const HASH: u8 = 35;
pub const PLUS: u8 = 43;
pub const COLON: u8 = 58;
pub const STAR: u8 = 42;
pub const HYPHEN: u8 = 45;
pub const DOT: u8 = 46;
pub const RPAREN: u8 = 41;
pub const LBRACKET: u8 = 91;
pub const RBRACKET: u8 = 93;
pub const PIPE: u8 = 124;
pub const RBRACE: u8 = 125;

/// A class of bytes that the run scanner can consume.
#[derive(Clone, Copy, PartialEq, Eq, Structural, Debug)]
pub enum ByteClass {
    /// Space or horizontal tab.
    SpaceTab,
    /// An asterisk.
    Star,
    /// An ASCII decimal digit.
    Digit,
    /// A hyphen.
    Hyphen,
    /// Anything but space, tab, carriage return or newline.
    NonSpace,
    /// ASCII letters and digits, underscore and hyphen.
    WordHyphen,
    /// ASCII letters and digits and the asterisk.
    LatexName,
}

pub open spec fn class_has(cls: ByteClass, b: u8) -> bool {
    match cls {
        ByteClass::SpaceTab => b == SPACE || b == TAB,
        ByteClass::Star => b == STAR,
        ByteClass::Digit => 48 <= b <= 57,
        ByteClass::Hyphen => b == HYPHEN,
        ByteClass::NonSpace => !(b == SPACE || b == TAB || b == CARRIAGE || b == NEWLINE),
        ByteClass::WordHyphen => (48 <= b <= 57) || (65 <= b <= 90) || (97 <= b <= 122) || b == 95
            || b == HYPHEN,
        ByteClass::LatexName => (48 <= b <= 57) || (65 <= b <= 90) || (97 <= b <= 122) || b
            == STAR,
    }
}

pub fn byte_has(cls: ByteClass, b: u8) -> (r: bool)
    ensures
        r == class_has(cls, b),
{
    match cls {
        ByteClass::SpaceTab => b == SPACE || b == TAB,
        ByteClass::Star => b == STAR,
        ByteClass::Digit => 48 <= b && b <= 57,
        ByteClass::Hyphen => b == HYPHEN,
        ByteClass::NonSpace => !(b == SPACE || b == TAB || b == CARRIAGE || b == NEWLINE),
        ByteClass::WordHyphen => (48 <= b && b <= 57) || (65 <= b && b <= 90) || (97 <= b && b
            <= 122) || b == 95 || b == HYPHEN,
        ByteClass::LatexName => (48 <= b && b <= 57) || (65 <= b && b <= 90) || (97 <= b && b
            <= 122) || b == STAR,
    }
}

/// The end of the maximal run of `cls` bytes that starts at `i`, bounded by
/// `end`.
pub open spec fn scan_end(s: Seq<u8>, i: int, end: int, cls: ByteClass) -> int
    decreases end - i,
{
    if i < 0 || i >= end || i >= s.len() || !class_has(cls, s[i]) {
        i
    } else {
        scan_end(s, i + 1, end, cls)
    }
}

pub proof fn lemma_scan_end_props(s: Seq<u8>, i: int, end: int, cls: ByteClass)
    requires
        0 <= i <= end <= s.len(),
    ensures
        i <= scan_end(s, i, end, cls) <= end,
        forall|j: int| i <= j < scan_end(s, i, end, cls) ==> class_has(cls, s[j]),
        scan_end(s, i, end, cls) == end || !class_has(cls, s[scan_end(s, i, end, cls)]),
    decreases end - i,
{
    if i < end && class_has(cls, s[i]) {
        lemma_scan_end_props(s, i + 1, end, cls);
    }
}

/// Scans the maximal run of `cls` bytes from `i`, bounded by `end`.
pub fn scan(s: &[u8], i: usize, end: usize, cls: ByteClass) -> (r: usize)
    requires
        i <= end <= s@.len(),
    ensures
        r == scan_end(s@, i as int, end as int, cls),
        i <= r <= end,
{
    let mut j: usize = i;
    while j < end && byte_has(cls, s[j])
        invariant
            i <= j <= end <= s@.len(),
            scan_end(s@, i as int, end as int, cls) == scan_end(s@, j as int, end as int, cls),
        decreases end - j,
    {
        j = j + 1;
    }
    j
}

/// The last position in `[lo, hi)` holding byte `b`, if any.
pub open spec fn rfind_byte(s: Seq<u8>, lo: int, hi: int, b: u8) -> Option<int>
    decreases hi - lo,
{
    if hi <= lo || lo < 0 || hi > s.len() {
        None
    } else if s[hi - 1] == b {
        Some(hi - 1)
    } else {
        rfind_byte(s, lo, hi - 1, b)
    }
}

/// Finds the last position in `[lo, hi)` holding byte `b`.
pub fn rscan_byte(s: &[u8], lo: usize, hi: usize, b: u8) -> (r: Option<usize>)
    requires
        lo <= hi <= s@.len(),
    ensures
        crate::metrics::opt_as_int(r) == rfind_byte(s@, lo as int, hi as int, b),
{
    let mut j: usize = hi;
    while j > lo && s[j - 1] != b
        invariant
            lo <= j <= hi <= s@.len(),
            rfind_byte(s@, lo as int, hi as int, b) == rfind_byte(s@, lo as int, j as int, b),
        decreases j,
    {
        j = j - 1;
    }
    if j == lo {
        None
    } else {
        Some(j - 1)
    }
}

/// Whether the bytes `lit` stand at `i`, wholly within `[i, end)`.
pub open spec fn lit_at_spec(s: Seq<u8>, i: int, end: int, lit: Seq<u8>) -> bool {
    i + lit.len() <= end && is_match_at(s, lit, i)
}

/// Whether the bytes of `lit` stand at `i`, wholly before `end`.
pub fn lit_at(s: &[u8], i: usize, end: usize, lit: &[u8]) -> (r: bool)
    requires
        i <= end <= s@.len(),
    ensures
        r == lit_at_spec(s@, i as int, end as int, lit@),
{
    if end - i < lit.len() {
        return false;
    }
    crate::search::bytes_match_at(s, lit, i)
}

/// The end of the line containing `i`: the position of the next newline, or
/// the end of input.
pub open spec fn line_end_at(s: Seq<u8>, i: int) -> int {
    match find_newline(s, i) {
        Some(nl) => nl,
        None => s.len() as int,
    }
}

pub proof fn lemma_line_end_at(s: Seq<u8>, i: int)
    requires
        0 <= i <= s.len(),
    ensures
        i <= line_end_at(s, i) <= s.len(),
        line_end_at(s, i) < s.len() ==> s[line_end_at(s, i)] == NEWLINE,
{
    if find_newline(s, i) is Some {
        lemma_find_newline_some(s, i);
    }
}

/// Computes the end of the line containing `i`.
pub fn line_end_of(s: &[u8], i: usize) -> (r: usize)
    requires
        i <= s@.len(),
    ensures
        r == line_end_at(s@, i as int),
        i <= r <= s@.len(),
{
    proof {
        lemma_line_end_at(s@, i as int);
    }
    let mut j: usize = i;
    while j < s.len() && s[j] != NEWLINE
        invariant
            i <= j <= s@.len(),
            find_newline(s@, i as int) == find_newline(s@, j as int),
        decreases s@.len() - j,
    {
        j = j + 1;
    }
    j
}

// Spec-level literals of the grammar.
pub open spec fn lit_closed() -> Seq<u8> {
    seq![67u8, 76u8, 79u8, 83u8, 69u8, 68u8, 58u8]
}

pub open spec fn lit_deadline() -> Seq<u8> {
    seq![68u8, 69u8, 65u8, 68u8, 76u8, 73u8, 78u8, 69u8, 58u8]
}

pub open spec fn lit_scheduled() -> Seq<u8> {
    seq![83u8, 67u8, 72u8, 69u8, 68u8, 85u8, 76u8, 69u8, 68u8, 58u8]
}

pub open spec fn lit_clock() -> Seq<u8> {
    seq![67u8, 76u8, 79u8, 67u8, 75u8, 58u8]
}

pub open spec fn lit_begin_under() -> Seq<u8> {
    seq![43u8, 66u8, 69u8, 71u8, 73u8, 78u8, 95u8]
}

pub open spec fn lit_begin() -> Seq<u8> {
    seq![43u8, 66u8, 69u8, 71u8, 73u8, 78u8]
}

pub open spec fn lit_call() -> Seq<u8> {
    seq![43u8, 67u8, 65u8, 76u8, 76u8, 58u8]
}

pub open spec fn lit_latex_begin() -> Seq<u8> {
    seq![92u8, 98u8, 101u8, 103u8, 105u8, 110u8, 123u8]
}

pub open spec fn lit_footnote() -> Seq<u8> {
    seq![91u8, 102u8, 110u8, 58u8]
}

pub open spec fn lit_diary() -> Seq<u8> {
    seq![37u8, 37u8, 40u8]
}

pub open spec fn lit_properties() -> Seq<u8> {
    seq![58u8, 80u8, 82u8, 79u8, 80u8, 69u8, 82u8, 84u8, 73u8, 69u8, 83u8, 58u8]
}

pub open spec fn lit_end_drawer() -> Seq<u8> {
    seq![58u8, 69u8, 78u8, 68u8, 58u8]
}

/// The patterns that classify lines of an Org document.
#[derive(Clone, Copy, PartialEq, Eq, Structural, Debug)]
pub enum Pattern {
    /// A line holding only spaces and tabs.
    EmptyLine,
    /// One or more asterisks followed by a whitespace character: a headline.
    HeadlineShort,
    /// Optional indentation, then `CLOSED:`, `DEADLINE:` or `SCHEDULED:`.
    PlanningLine,
    /// Optional indentation, then `CLOCK:`.
    ClockLine,
    /// A whole property drawer: a `:PROPERTIES:` line, node property lines,
    /// then an `:END:` line.  The one multi-line pattern.
    PropertyDrawer,
    /// Optional indentation, then `:NAME:` alone on the line.
    Drawer,
    /// Optional indentation, then a colon followed by a space or line end.
    FixedWidth,
    /// Optional indentation, then `#`.
    Hashtag,
    /// `+BEGIN_` and a block name, matched right after the `#`.
    BlockBegin,
    /// `+BEGIN` with an optional colon and a space, right after the `#`.
    DynamicBlock,
    /// `+CALL:`, right after the `#`.
    BabelCall,
    /// `+`, a nonblank run holding a final colon: a keyword, right after
    /// the `#`.
    KeywordLine,
    /// Optional indentation, then `\begin{NAME}`.
    LatexBegin,
    /// `[fn:LABEL]` at the start of a line.
    FootnoteDefinition,
    /// Optional indentation, five or more hyphens, optional blanks to the
    /// line end.
    HorizontalRule,
    /// `%%(`: a diary sexp.
    DiarySexp,
    /// Optional indentation, then `|`.
    TableBorder,
    /// A plain-list bullet: `-`, `+`, digits followed by `.` or `)`, or an
    /// indented `*`, each followed by a blank or the line end.
    ItemLine,
    /// A single ASCII decimal digit.
    Digit,
}

/// Whether the pattern may run across line endings.
pub open spec fn pattern_is_multiline(p: Pattern) -> bool {
    p == Pattern::PropertyDrawer
}

pub open spec fn match_empty_line_spec(s: Seq<u8>, i: int, end: int) -> Option<int> {
    if scan_end(s, i, end, ByteClass::SpaceTab) == end {
        Some(end)
    } else {
        None
    }
}

/// Stars, then one whitespace character that fits before `end`.
pub open spec fn match_headline_spec(s: Seq<u8>, i: int, end: int) -> Option<int> {
    let j = scan_end(s, i, end, ByteClass::Star);
    if j > i && j < s.len() && valid_first_scalar(tail_of(s, j)) && is_whitespace_scalar(
        decode_first_scalar(tail_of(s, j)),
    ) && j + length_of_first_scalar(tail_of(s, j)) <= end {
        Some(j + length_of_first_scalar(tail_of(s, j)))
    } else {
        None
    }
}

pub open spec fn match_planning_spec(s: Seq<u8>, i: int, end: int) -> Option<int> {
    let j = scan_end(s, i, end, ByteClass::SpaceTab);
    if lit_at_spec(s, j, end, lit_closed()) {
        Some(j + 7)
    } else if lit_at_spec(s, j, end, lit_deadline()) {
        Some(j + 9)
    } else if lit_at_spec(s, j, end, lit_scheduled()) {
        Some(j + 10)
    } else {
        None
    }
}

pub open spec fn match_clock_spec(s: Seq<u8>, i: int, end: int) -> Option<int> {
    let j = scan_end(s, i, end, ByteClass::SpaceTab);
    if lit_at_spec(s, j, end, lit_clock()) {
        Some(j + 6)
    } else {
        None
    }
}

pub open spec fn match_drawer_spec(s: Seq<u8>, i: int, end: int) -> Option<int> {
    let j = scan_end(s, i, end, ByteClass::SpaceTab);
    if j < end && s[j] == COLON {
        let k = scan_end(s, j + 1, end, ByteClass::WordHyphen);
        if k > j + 1 && k < end && s[k] == COLON && scan_end(s, k + 1, end, ByteClass::SpaceTab)
            == end {
            Some(end)
        } else {
            None
        }
    } else {
        None
    }
}

pub open spec fn match_fixed_width_spec(s: Seq<u8>, i: int, end: int) -> Option<int> {
    let j = scan_end(s, i, end, ByteClass::SpaceTab);
    if j < end && s[j] == COLON {
        if j + 1 == end {
            Some(j + 1)
        } else if s[j + 1] == SPACE {
            Some(j + 2)
        } else {
            None
        }
    } else {
        None
    }
}

pub open spec fn match_hashtag_spec(s: Seq<u8>, i: int, end: int) -> Option<int> {
    let j = scan_end(s, i, end, ByteClass::SpaceTab);
    if j < end && s[j] == HASH {
        Some(j + 1)
    } else {
        None
    }
}

pub open spec fn match_block_begin_spec(s: Seq<u8>, i: int, end: int) -> Option<int> {
    if lit_at_spec(s, i, end, lit_begin_under()) {
        let k = scan_end(s, i + 7, end, ByteClass::NonSpace);
        if k > i + 7 {
            Some(k)
        } else {
            None
        }
    } else {
        None
    }
}

pub open spec fn match_dynamic_block_spec(s: Seq<u8>, i: int, end: int) -> Option<int> {
    if lit_at_spec(s, i, end, lit_begin()) {
        let j = if i + 6 < end && s[i + 6] == COLON {
            i + 7
        } else {
            i + 6
        };
        if j < end && s[j] == SPACE {
            Some(j + 1)
        } else {
            None
        }
    } else {
        None
    }
}

pub open spec fn match_babel_call_spec(s: Seq<u8>, i: int, end: int) -> Option<int> {
    if lit_at_spec(s, i, end, lit_call()) {
        Some(i + 6)
    } else {
        None
    }
}

/// `+`, then a nonblank run whose last colon (not its first byte) ends the
/// keyword.
pub open spec fn match_keyword_spec(s: Seq<u8>, i: int, end: int) -> Option<int> {
    if i < end && s[i] == PLUS {
        let r = scan_end(s, i + 1, end, ByteClass::NonSpace);
        match rfind_byte(s, i + 2, r, COLON) {
            Some(k) => Some(k + 1),
            None => None,
        }
    } else {
        None
    }
}

pub open spec fn match_latex_begin_spec(s: Seq<u8>, i: int, end: int) -> Option<int> {
    let j = scan_end(s, i, end, ByteClass::SpaceTab);
    if lit_at_spec(s, j, end, lit_latex_begin()) {
        let k = scan_end(s, j + 7, end, ByteClass::LatexName);
        if k > j + 7 && k < end && s[k] == RBRACE {
            Some(k + 1)
        } else {
            None
        }
    } else {
        None
    }
}

pub open spec fn match_footnote_def_spec(s: Seq<u8>, i: int, end: int) -> Option<int> {
    if lit_at_spec(s, i, end, lit_footnote()) {
        let k = scan_end(s, i + 4, end, ByteClass::WordHyphen);
        if k > i + 4 && k < end && s[k] == RBRACKET {
            Some(k + 1)
        } else {
            None
        }
    } else {
        None
    }
}

pub open spec fn match_horizontal_rule_spec(s: Seq<u8>, i: int, end: int) -> Option<int> {
    let j = scan_end(s, i, end, ByteClass::SpaceTab);
    let k = scan_end(s, j, end, ByteClass::Hyphen);
    if k - j >= 5 && scan_end(s, k, end, ByteClass::SpaceTab) == end {
        Some(end)
    } else {
        None
    }
}

pub open spec fn match_diary_sexp_spec(s: Seq<u8>, i: int, end: int) -> Option<int> {
    if lit_at_spec(s, i, end, lit_diary()) {
        Some(i + 3)
    } else {
        None
    }
}

pub open spec fn match_table_border_spec(s: Seq<u8>, i: int, end: int) -> Option<int> {
    let j = scan_end(s, i, end, ByteClass::SpaceTab);
    if j < end && s[j] == PIPE {
        Some(j + 1)
    } else {
        None
    }
}

/// A bullet and what may follow it: a blank or the line end.
pub open spec fn item_suffix_ok(s: Seq<u8>, b_end: int, end: int) -> Option<int> {
    if b_end == end {
        Some(b_end)
    } else if b_end < end && (s[b_end] == SPACE || s[b_end] == TAB) {
        Some(b_end + 1)
    } else {
        None
    }
}

pub open spec fn match_item_spec(s: Seq<u8>, i: int, end: int) -> Option<int> {
    let j = scan_end(s, i, end, ByteClass::SpaceTab);
    if j < end && (s[j] == HYPHEN || s[j] == PLUS) {
        item_suffix_ok(s, j + 1, end)
    } else {
        let d = scan_end(s, j, end, ByteClass::Digit);
        if d > j && d < end && (s[d] == DOT || s[d] == RPAREN) {
            item_suffix_ok(s, d + 1, end)
        } else if j > i && j < end && s[j] == STAR {
            item_suffix_ok(s, j + 1, end)
        } else {
            None
        }
    }
}

pub open spec fn match_digit_spec(s: Seq<u8>, i: int, end: int) -> Option<int> {
    if i < end && i < s.len() && 48 <= s[i] <= 57 {
        Some(i + 1)
    } else {
        None
    }
}

/// A node property line inside a property drawer: indentation, `:KEY:`,
/// then a blank and free text, or blanks alone, to a newline-terminated
/// line end.
pub open spec fn pd_prop_line_ok(s: Seq<u8>, p: int) -> bool {
    let e = line_end_at(s, p);
    let j = scan_end(s, p, e, ByteClass::SpaceTab);
    &&& e < s.len()
    &&& j < e && s[j] == COLON
    &&& ({
        let r = scan_end(s, j + 1, e, ByteClass::NonSpace);
        match rfind_byte(s, j + 2, r, COLON) {
            Some(k) => k + 1 == e || s[k + 1] == SPACE || scan_end(s, k + 1, e, ByteClass::SpaceTab)
                == e,
            None => false,
        }
    })
}

#[via_fn]
proof fn pd_rest_spec_decreases(s: Seq<u8>, p: int) {
    if 0 <= p <= s.len() {
        lemma_line_end_at(s, p);
    }
}

/// The lines of a property drawer after its `:PROPERTIES:` line: node
/// property lines up to an `:END:` line, whose end (trailing blanks
/// included) is the whole match's end.
pub open spec fn pd_rest_spec(s: Seq<u8>, p: int) -> Option<int>
    decreases s.len() - p,
        via pd_rest_spec_decreases
{
    if p < 0 || p > s.len() {
        None
    } else {
        let e = line_end_at(s, p);
        let j = scan_end(s, p, e, ByteClass::SpaceTab);
        if lit_at_spec(s, j, e, lit_end_drawer()) {
            Some(scan_end(s, j + 5, e, ByteClass::SpaceTab))
        } else if pd_prop_line_ok(s, p) {
            pd_rest_spec(s, e + 1)
        } else {
            None
        }
    }
}

pub open spec fn match_property_drawer_spec(s: Seq<u8>, i: int) -> Option<int> {
    let e = line_end_at(s, i);
    let j = scan_end(s, i, e, ByteClass::SpaceTab);
    if lit_at_spec(s, j, e, lit_properties()) && scan_end(s, j + 12, e, ByteClass::SpaceTab) == e
        && e < s.len() {
        pd_rest_spec(s, e + 1)
    } else {
        None
    }
}

/// Where an anchored match of `p` at `i` ends, bounded by `end` (ignored by
/// the multi-line pattern, which runs to the end of input).
pub open spec fn pattern_match_end(p: Pattern, s: Seq<u8>, i: int, end: int) -> Option<int> {
    match p {
        Pattern::EmptyLine => match_empty_line_spec(s, i, end),
        Pattern::HeadlineShort => match_headline_spec(s, i, end),
        Pattern::PlanningLine => match_planning_spec(s, i, end),
        Pattern::ClockLine => match_clock_spec(s, i, end),
        Pattern::PropertyDrawer => match_property_drawer_spec(s, i),
        Pattern::Drawer => match_drawer_spec(s, i, end),
        Pattern::FixedWidth => match_fixed_width_spec(s, i, end),
        Pattern::Hashtag => match_hashtag_spec(s, i, end),
        Pattern::BlockBegin => match_block_begin_spec(s, i, end),
        Pattern::DynamicBlock => match_dynamic_block_spec(s, i, end),
        Pattern::BabelCall => match_babel_call_spec(s, i, end),
        Pattern::KeywordLine => match_keyword_spec(s, i, end),
        Pattern::LatexBegin => match_latex_begin_spec(s, i, end),
        Pattern::FootnoteDefinition => match_footnote_def_spec(s, i, end),
        Pattern::HorizontalRule => match_horizontal_rule_spec(s, i, end),
        Pattern::DiarySexp => match_diary_sexp_spec(s, i, end),
        Pattern::TableBorder => match_table_border_spec(s, i, end),
        Pattern::ItemLine => match_item_spec(s, i, end),
        Pattern::Digit => match_digit_spec(s, i, end),
    }
}

/// Every successful match ends within the buffer, at or after its start.
pub proof fn lemma_pattern_match_range(p: Pattern, s: Seq<u8>, i: int, end: int)
    requires
        0 <= i <= end <= s.len(),
    ensures
        pattern_match_end(p, s, i, end) matches Some(e) ==> i <= e <= s.len(),
        !pattern_is_multiline(p) ==> (pattern_match_end(p, s, i, end) matches Some(e) ==> i <= e
            <= end),
    decreases s.len() - i,
{
    lemma_scan_end_props(s, i, end, ByteClass::SpaceTab);
    lemma_scan_end_props(s, i, end, ByteClass::Star);
    lemma_scan_end_props(s, i, end, ByteClass::Digit);
    let j = scan_end(s, i, end, ByteClass::SpaceTab);
    lemma_scan_end_props(s, j, end, ByteClass::Hyphen);
    if j < end && s[j] == COLON {
        lemma_scan_end_props(s, j + 1, end, ByteClass::WordHyphen);
    }
    if i < end && s[i] == PLUS {
        lemma_scan_end_props(s, i + 1, end, ByteClass::NonSpace);
        let r = scan_end(s, i + 1, end, ByteClass::NonSpace);
        if rfind_byte(s, i + 2, r, COLON) is Some {
            lemma_rfind_byte_some(s, i + 2, r, COLON);
        }
    }
    if lit_at_spec(s, j, end, lit_latex_begin()) {
        lemma_scan_end_props(s, j + 7, end, ByteClass::LatexName);
    }
    if lit_at_spec(s, i, end, lit_begin_under()) {
        lemma_scan_end_props(s, i + 7, end, ByteClass::NonSpace);
    }
    if lit_at_spec(s, i, end, lit_footnote()) {
        lemma_scan_end_props(s, i + 4, end, ByteClass::WordHyphen);
    }
    let k = scan_end(s, j, end, ByteClass::Hyphen);
    lemma_scan_end_props(s, k, end, ByteClass::SpaceTab);
    let d = scan_end(s, j, end, ByteClass::Digit);
    if p == Pattern::PropertyDrawer {
        lemma_line_end_at(s, i);
        let e1 = line_end_at(s, i);
        let j1 = scan_end(s, i, e1, ByteClass::SpaceTab);
        if lit_at_spec(s, j1, e1, lit_properties()) && scan_end(s, j1 + 12, e1, ByteClass::SpaceTab)
            == e1 && e1 < s.len() {
            lemma_pd_rest_range(s, e1 + 1);
        }
    }
}

pub proof fn lemma_pd_rest_range(s: Seq<u8>, p: int)
    requires
        0 <= p,
    ensures
        pd_rest_spec(s, p) matches Some(e) ==> p <= e <= s.len(),
    decreases s.len() - p,
{
    if 0 <= p <= s.len() {
        lemma_line_end_at(s, p);
        let e = line_end_at(s, p);
        let j = scan_end(s, p, e, ByteClass::SpaceTab);
        lemma_scan_end_props(s, p, e, ByteClass::SpaceTab);
        if lit_at_spec(s, j, e, lit_end_drawer()) {
            lemma_scan_end_props(s, j + 5, e, ByteClass::SpaceTab);
        } else if pd_prop_line_ok(s, p) {
            lemma_pd_rest_range(s, e + 1);
        }
    }
}

pub proof fn lemma_rfind_byte_some(s: Seq<u8>, lo: int, hi: int, b: u8)
    requires
        rfind_byte(s, lo, hi, b) is Some,
    ensures
        ({
            let k = rfind_byte(s, lo, hi, b)->Some_0;
            &&& lo <= k < hi <= s.len()
            &&& s[k] == b
        }),
    decreases hi - lo,
{
    if hi <= lo || lo < 0 || hi > s.len() {
    } else if s[hi - 1] == b {
    } else {
        lemma_rfind_byte_some(s, lo, hi - 1, b);
    }
}

/// Matches one pattern anchored at `i`, bounded by `end`.
#[verifier::rlimit(100)]
pub fn pattern_match_at(s: &[u8], p: Pattern, i: usize, end: usize) -> (r: Option<usize>)
    requires
        i <= end <= s@.len(),
    ensures
        crate::metrics::opt_as_int(r) == pattern_match_end(p, s@, i as int, end as int),
{
    proof {
        crate::metrics::lemma_slice_len_bound(s);
    }
    match p {
        Pattern::EmptyLine => {
            let j = scan(s, i, end, ByteClass::SpaceTab);
            if j == end {
                Some(end)
            } else {
                None
            }
        },
        Pattern::HeadlineShort => headline_match_at(s, i, end),
        Pattern::PlanningLine => {
            let j = scan(s, i, end, ByteClass::SpaceTab);
            let lc: [u8; 7] = [67, 76, 79, 83, 69, 68, 58];
            let ld: [u8; 9] = [68, 69, 65, 68, 76, 73, 78, 69, 58];
            let ls: [u8; 10] = [83, 67, 72, 69, 68, 85, 76, 69, 68, 58];
            let slc: &[u8] = lc.as_slice();
            let sld: &[u8] = ld.as_slice();
            let sls: &[u8] = ls.as_slice();
            proof {
                assert(slc@ =~= lit_closed());
                assert(sld@ =~= lit_deadline());
                assert(sls@ =~= lit_scheduled());
            }
            if lit_at(s, j, end, slc) {
                Some(j + 7)
            } else if lit_at(s, j, end, sld) {
                Some(j + 9)
            } else if lit_at(s, j, end, sls) {
                Some(j + 10)
            } else {
                None
            }
        },
        Pattern::ClockLine => {
            let j = scan(s, i, end, ByteClass::SpaceTab);
            let lk: [u8; 6] = [67, 76, 79, 67, 75, 58];
            let slk: &[u8] = lk.as_slice();
            proof {
                assert(slk@ =~= lit_clock());
            }
            if lit_at(s, j, end, slk) {
                Some(j + 6)
            } else {
                None
            }
        },
        Pattern::PropertyDrawer => property_drawer_at(s, i),
        Pattern::Drawer => {
            let j = scan(s, i, end, ByteClass::SpaceTab);
            if j < end && s[j] == COLON {
                let k = scan(s, j + 1, end, ByteClass::WordHyphen);
                if k > j + 1 && k < end && s[k] == COLON && scan(s, k + 1, end, ByteClass::SpaceTab)
                    == end {
                    Some(end)
                } else {
                    None
                }
            } else {
                None
            }
        },
        Pattern::FixedWidth => {
            let j = scan(s, i, end, ByteClass::SpaceTab);
            if j < end && s[j] == COLON {
                if j + 1 == end {
                    Some(j + 1)
                } else if s[j + 1] == SPACE {
                    Some(j + 2)
                } else {
                    None
                }
            } else {
                None
            }
        },
        Pattern::Hashtag => {
            let j = scan(s, i, end, ByteClass::SpaceTab);
            if j < end && s[j] == HASH {
                Some(j + 1)
            } else {
                None
            }
        },
        Pattern::BlockBegin => {
            let lb: [u8; 7] = [43, 66, 69, 71, 73, 78, 95];
            let slb: &[u8] = lb.as_slice();
            proof {
                assert(slb@ =~= lit_begin_under());
            }
            if lit_at(s, i, end, slb) {
                let k = scan(s, i + 7, end, ByteClass::NonSpace);
                if k > i + 7 {
                    Some(k)
                } else {
                    None
                }
            } else {
                None
            }
        },
        Pattern::DynamicBlock => {
            let lb: [u8; 6] = [43, 66, 69, 71, 73, 78];
            let slb: &[u8] = lb.as_slice();
            proof {
                assert(slb@ =~= lit_begin());
            }
            if lit_at(s, i, end, slb) {
                let j: usize = if i + 6 < end && s[i + 6] == COLON {
                    i + 7
                } else {
                    i + 6
                };
                if j < end && s[j] == SPACE {
                    Some(j + 1)
                } else {
                    None
                }
            } else {
                None
            }
        },
        Pattern::BabelCall => {
            let lb: [u8; 6] = [43, 67, 65, 76, 76, 58];
            let slb: &[u8] = lb.as_slice();
            proof {
                assert(slb@ =~= lit_call());
            }
            if lit_at(s, i, end, slb) {
                Some(i + 6)
            } else {
                None
            }
        },
        Pattern::KeywordLine => {
            if i < end && s[i] == PLUS {
                let run = scan(s, i + 1, end, ByteClass::NonSpace);
                if run <= i + 1 {
                    return None;
                }
                match rscan_byte(s, i + 2, run, COLON) {
                    Some(k) => {
                        proof {
                            lemma_rfind_byte_some(s@, i + 2, run as int, COLON);
                        }
                        Some(k + 1)
                    },
                    None => None,
                }
            } else {
                None
            }
        },
        Pattern::LatexBegin => {
            let j = scan(s, i, end, ByteClass::SpaceTab);
            let lb: [u8; 7] = [92, 98, 101, 103, 105, 110, 123];
            let slb: &[u8] = lb.as_slice();
            proof {
                assert(slb@ =~= lit_latex_begin());
            }
            if lit_at(s, j, end, slb) {
                let k = scan(s, j + 7, end, ByteClass::LatexName);
                if k > j + 7 && k < end && s[k] == RBRACE {
                    Some(k + 1)
                } else {
                    None
                }
            } else {
                None
            }
        },
        Pattern::FootnoteDefinition => {
            let lb: [u8; 4] = [91, 102, 110, 58];
            let slb: &[u8] = lb.as_slice();
            proof {
                assert(slb@ =~= lit_footnote());
            }
            if lit_at(s, i, end, slb) {
                let k = scan(s, i + 4, end, ByteClass::WordHyphen);
                if k > i + 4 && k < end && s[k] == RBRACKET {
                    Some(k + 1)
                } else {
                    None
                }
            } else {
                None
            }
        },
        Pattern::HorizontalRule => {
            let j = scan(s, i, end, ByteClass::SpaceTab);
            let k = scan(s, j, end, ByteClass::Hyphen);
            if k - j >= 5 && scan(s, k, end, ByteClass::SpaceTab) == end {
                Some(end)
            } else {
                None
            }
        },
        Pattern::DiarySexp => {
            let lb: [u8; 3] = [37, 37, 40];
            let slb: &[u8] = lb.as_slice();
            proof {
                assert(slb@ =~= lit_diary());
            }
            if lit_at(s, i, end, slb) {
                Some(i + 3)
            } else {
                None
            }
        },
        Pattern::TableBorder => {
            let j = scan(s, i, end, ByteClass::SpaceTab);
            if j < end && s[j] == PIPE {
                Some(j + 1)
            } else {
                None
            }
        },
        Pattern::ItemLine => {
            let j = scan(s, i, end, ByteClass::SpaceTab);
            if j < end && (s[j] == HYPHEN || s[j] == PLUS) {
                item_suffix_at(s, j + 1, end)
            } else {
                let d = scan(s, j, end, ByteClass::Digit);
                if d > j && d < end && (s[d] == DOT || s[d] == RPAREN) {
                    item_suffix_at(s, d + 1, end)
                } else if j > i && j < end && s[j] == STAR {
                    item_suffix_at(s, j + 1, end)
                } else {
                    None
                }
            }
        },
        Pattern::Digit => {
            if i < end && 48 <= s[i] && s[i] <= 57 {
                Some(i + 1)
            } else {
                None
            }
        },
    }
}

fn item_suffix_at(s: &[u8], b_end: usize, end: usize) -> (r: Option<usize>)
    requires
        b_end <= end + 1,
        end <= s@.len(),
    ensures
        crate::metrics::opt_as_int(r) == item_suffix_ok(s@, b_end as int, end as int),
{
    if b_end == end {
        Some(b_end)
    } else if b_end < end && (s[b_end] == SPACE || s[b_end] == TAB) {
        Some(b_end + 1)
    } else {
        None
    }
}

pub(crate) fn headline_match_at(s: &[u8], i: usize, end: usize) -> (r: Option<usize>)
    requires
        i <= end <= s@.len(),
    ensures
        crate::metrics::opt_as_int(r) == match_headline_spec(s@, i as int, end as int),
{
    let j = scan(s, i, end, ByteClass::Star);
    if j == i {
        return None;
    }
    if j == s.len() {
        return None;
    }
    match decode_scalar_at(s, j) {
        Some(cw) => {
            if is_whitespace_char(cw.0) && j + cw.1 <= end {
                Some(j + cw.1)
            } else {
                None
            }
        },
        None => None,
    }
}

fn pd_prop_line_at(s: &[u8], p: usize) -> (r: bool)
    requires
        p <= s@.len(),
    ensures
        r == pd_prop_line_ok(s@, p as int),
{
    let e = line_end_of(s, p);
    if e == s.len() {
        return false;
    }
    let j = scan(s, p, e, ByteClass::SpaceTab);
    if !(j < e && s[j] == COLON) {
        return false;
    }
    let run = scan(s, j + 1, e, ByteClass::NonSpace);
    if run < j + 2 {
        return false;
    }
    match rscan_byte(s, j + 2, run, COLON) {
        None => false,
        Some(k) => {
            proof {
                lemma_rfind_byte_some(s@, j + 2, run as int, COLON);
            }
            k + 1 == e || s[k + 1] == SPACE || scan(s, k + 1, e, ByteClass::SpaceTab) == e
        },
    }
}

fn pd_rest_at(s: &[u8], p0: usize) -> (r: Option<usize>)
    requires
        p0 <= s@.len(),
    ensures
        crate::metrics::opt_as_int(r) == pd_rest_spec(s@, p0 as int),
{
    let mut p: usize = p0;
    loop
        invariant
            p <= s@.len(),
            pd_rest_spec(s@, p0 as int) == pd_rest_spec(s@, p as int),
        decreases s@.len() - p,
    {
        let e = line_end_of(s, p);
        let j = scan(s, p, e, ByteClass::SpaceTab);
        let le: [u8; 5] = [58, 69, 78, 68, 58];
        let sle: &[u8] = le.as_slice();
        proof {
            assert(sle@ =~= lit_end_drawer());
        }
        if lit_at(s, j, e, sle) {
            return Some(scan(s, j + 5, e, ByteClass::SpaceTab));
        }
        if !pd_prop_line_at(s, p) {
            return None;
        }
        proof {
            lemma_line_end_at(s@, p as int);
            crate::metrics::lemma_slice_len_bound(s);
            assert(pd_prop_line_ok(s@, p as int));
        }
        p = e + 1;
    }
}

fn property_drawer_at(s: &[u8], i: usize) -> (r: Option<usize>)
    requires
        i <= s@.len(),
    ensures
        crate::metrics::opt_as_int(r) == match_property_drawer_spec(s@, i as int),
{
    let e = line_end_of(s, i);
    let j = scan(s, i, e, ByteClass::SpaceTab);
    let lp: [u8; 12] = [58, 80, 82, 79, 80, 69, 82, 84, 73, 69, 83, 58];
    let slp: &[u8] = lp.as_slice();
    proof {
        assert(slp@ =~= lit_properties());
    }
    if lit_at(s, j, e, slp) && scan(s, j + 12, e, ByteClass::SpaceTab) == e && e < s.len() {
        pd_rest_at(s, e + 1)
    } else {
        None
    }
}

/// Where the search for pattern `p` may try a match starting at `i`: the
/// match must stay within its own line and within `bound`.
pub open spec fn attempt_bound(s: Seq<u8>, i: int, bound: int) -> int {
    let le = line_end_at(s, i);
    if le < bound {
        le
    } else {
        bound
    }
}

/// The first position at or after `from` where `p` matches, with the
/// absolute interval of the match: the pattern is tried anchored at each
/// successive position, each attempt bounded by its own line and by
/// `bound`.
pub open spec fn pattern_find_spec(p: Pattern, s: Seq<u8>, from: int, bound: int) -> Option<
    (int, int),
>
    decreases bound - from,
{
    if from < 0 || from >= bound || from > s.len() {
        None
    } else {
        match pattern_match_end(p, s, from, attempt_bound(s, from, bound)) {
            Some(e) => Some((from, e)),
            None => pattern_find_spec(p, s, from + 1, bound),
        }
    }
}

/// The first headline start at or after `i`, where a position qualifies
/// when it is `beg` itself or a line start, and stars followed by
/// whitespace stand there.
pub open spec fn headline_find_spec(s: Seq<u8>, beg: int, i: int) -> Option<int>
    decreases s.len() - i,
{
    if i < 0 || i >= s.len() {
        None
    } else if (i == beg || (i > 0 && s[i - 1] == NEWLINE)) && match_headline_spec(
        s,
        i,
        s.len() as int,
    ) is Some {
        Some(i)
    } else {
        headline_find_spec(s, beg, i + 1)
    }
}

impl<'a> Cursor<'a> {
    /// Checks whether the text directly following the cursor matches the
    /// given pattern: the match is anchored at the cursor and bounded by the
    /// current line (by the end of input for a multi-line pattern).  Returns
    /// the match interval relative to the cursor.  Does not move the
    /// cursor.
    pub fn looking_at(&self, p: Pattern) -> (r: Option<Interval>)
        requires
            self.pos <= self.data@.len(),
        ensures
            ({
                let bound: int = if pattern_is_multiline(p) {
                    self.data@.len() as int
                } else {
                    line_end_at(self.data@, self.pos as int)
                };
                match pattern_match_end(p, self.data@, self.pos as int, bound) {
                    Some(e) => r matches Some(iv) && iv.start == 0 && self.pos + iv.end == e,
                    None => r is None,
                }
            }),
    {
        let end: usize = match p {
            Pattern::PropertyDrawer => self.data.len(),
            _ => line_end_of(self.data, self.pos),
        };
        match pattern_match_at(self.data, p, self.pos, end) {
            Some(e) => {
                proof {
                    lemma_pattern_match_range(p, self.data@, self.pos as int, end as int);
                }
                Some(Interval { start: 0, end: e - self.pos })
            },
            None => None,
        }
    }

    /// Searches forward for pattern `p`, trying it anchored at each
    /// position before `bound`.  On success the cursor moves to the match
    /// end and the absolute match interval is returned; on failure the
    /// cursor does not move.
    pub fn re_search_forward(&mut self, p: Pattern, bound: Option<usize>) -> (r: Option<Interval>)
        requires
            old(self).pos <= old(self).data@.len(),
            !pattern_is_multiline(p),
            bound matches Some(b) ==> b <= old(self).data@.len(),
        ensures
            final(self).data == old(self).data,
            ({
                let bnd: int = match bound {
                    Some(b) => b as int,
                    None => old(self).data@.len() as int,
                };
                if bnd <= old(self).pos {
                    r is None && final(self).pos == old(self).pos
                } else {
                    match pattern_find_spec(p, old(self).data@, old(self).pos as int, bnd) {
                        Some(ie) => r matches Some(iv) && iv.start == ie.0 && iv.end == ie.1
                            && final(self).pos == ie.1,
                        None => r is None && final(self).pos == old(self).pos,
                    }
                }
            }),
    {
        let bnd: usize = match bound {
            Some(b) => b,
            None => self.data.len(),
        };
        if bnd <= self.pos {
            return None;
        }
        let mut i: usize = self.pos;
        loop
            invariant
                self.data == old(self).data,
                self.pos == old(self).pos,
                self.pos <= i <= self.data@.len(),
                i <= bnd <= self.data@.len(),
                old(self).pos < bnd,
                bnd as int == (match bound {
                    Some(b) => b as int,
                    None => old(self).data@.len() as int,
                }),
                i < bnd ==> pattern_find_spec(p, self.data@, old(self).pos as int, bnd as int)
                    == pattern_find_spec(p, self.data@, i as int, bnd as int),
                i >= bnd ==> pattern_find_spec(
                    p,
                    self.data@,
                    old(self).pos as int,
                    bnd as int,
                ) is None,
                !pattern_is_multiline(p),
            ensures
                self.data == old(self).data,
                self.pos == old(self).pos,
                pattern_find_spec(
                    p,
                    self.data@,
                    old(self).pos as int,
                    bnd as int,
                ) is None,
                bnd as int == (match bound {
                    Some(b) => b as int,
                    None => old(self).data@.len() as int,
                }),
                old(self).pos < bnd,
            decreases bnd - i,
        {
            if i >= bnd {
                break;
            }
            let le = line_end_of(self.data, i);
            let ab: usize = if le < bnd {
                le
            } else {
                bnd
            };
            match pattern_match_at(self.data, p, i, ab) {
                Some(e) => {
                    self.set(e);
                    proof {
                        lemma_pattern_match_range(p, self.data@, i as int, ab as int);
                    }
                    return Some(Interval { start: i, end: e });
                },
                None => {
                    i = i + 1;
                },
            }
        }
        None
    }

    /// Whether the cursor stands on a headline: the line containing the
    /// cursor starts with asterisks followed by whitespace.  Does not move
    /// the cursor.
    pub fn on_headline(&mut self) -> (r: bool)
        requires
            old(self).pos <= old(self).data@.len(),
        ensures
            final(self).data == old(self).data,
            final(self).pos == old(self).pos,
            r == ({
                let lb = line_begin_spec(old(self).data@, old(self).pos as int);
                match_headline_spec(old(self).data@, lb, line_end_at(old(self).data@, lb)) is Some
            }),
    {
        let pos = self.pos();
        self.goto_line_begin();
        let lb = self.pos();
        proof {
            crate::emacs::lemma_line_begin_range(old(self).data@, old(self).pos as int);
        }
        let e = line_end_of(self.data, lb);
        let m = headline_match_at(self.data, lb, e);
        self.set(pos);
        m.is_some()
    }

    /// Possibly moves the cursor to the beginning of the next headline,
    /// skipping the current line first so the current headline never
    /// matches.  On failure the cursor rests at the start of the next line
    /// (or where it was, when no next line exists).
    pub fn next_headline(&mut self) -> (r: Option<usize>)
        requires
            old(self).pos <= old(self).data@.len(),
            old(self).data@.len() + 4 <= usize::MAX,
        ensures
            final(self).data == old(self).data,
            ({
                let beg: int = match <Line as Metric>::next_spec(
                    old(self).data@,
                    old(self).pos as int,
                ) {
                    Some(n) => n,
                    None => old(self).pos as int,
                };
                match headline_find_spec(old(self).data@, beg, beg) {
                    Some(h) => r == Some(h as usize) && final(self).pos == h,
                    None => r is None && final(self).pos == beg,
                }
            }),
    {
        proof {
            if find_newline(self.data@, self.pos as int) is Some {
                lemma_find_newline_some(self.data@, self.pos as int);
            }
        }
        self.mnext::<Line>();
        let beg = self.pos();
        let mut i: usize = beg;
        loop
            invariant
                self.data == old(self).data,
                self.pos == beg,
                beg <= i <= self.data@.len(),
                beg as int == (match <Line as Metric>::next_spec(
                    old(self).data@,
                    old(self).pos as int,
                ) {
                    Some(n) => n,
                    None => old(self).pos as int,
                }),
                headline_find_spec(self.data@, beg as int, beg as int) == headline_find_spec(
                    self.data@,
                    beg as int,
                    i as int,
                ),
            decreases self.data@.len() - i,
        {
            if i >= self.data.len() {
                return None;
            }
            let bol: bool = i == beg || (i > 0 && s_byte(self.data, i - 1) == NEWLINE);
            if bol {
                match headline_match_at(self.data, i, self.data.len()) {
                    Some(_e) => {
                        self.set(i);
                        return Some(i);
                    },
                    None => {},
                }
            }
            i = i + 1;
        }
    }
}

/// A found headline lies at or after the scan start, within the buffer.
pub proof fn lemma_headline_find_range(s: Seq<u8>, beg: int, i: int)
    ensures
        headline_find_spec(s, beg, i) matches Some(h) ==> i <= h < s.len(),
    decreases s.len() - i,
{
    if 0 <= i < s.len() {
        if !((i == beg || (i > 0 && s[i - 1] == NEWLINE)) && match_headline_spec(
            s,
            i,
            s.len() as int,
        ) is Some) {
            lemma_headline_find_range(s, beg, i + 1);
        }
    }
}

/// Reads one byte of the buffer.
fn s_byte(s: &[u8], i: usize) -> (r: u8)
    requires
        i < s@.len(),
    ensures
        r == s@[i as int],
{
    s[i]
}

} // verus!
