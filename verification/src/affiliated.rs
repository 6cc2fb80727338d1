//! Affiliated keywords: `#+KEY: VALUE` annotation lines standing
//! immediately above an element, attaching metadata to it.
//!
//! Keywords follow one of three shapes: regular (`#+KEY: VALUE`), dual
//! (`#+KEY[OPTIONAL]: VALUE`) and exported attribute
//! (`#+ATTR_BACKEND: VALUE`).  KEY is `CAPTION`, `HEADER`, `NAME`, `PLOT`
//! or `RESULTS` (older spellings of `NAME` included); only `CAPTION` and
//! `RESULTS` take an optional secondary value; `CAPTION`, `HEADER` and the
//! attributes may occur more than once.

use vstd::prelude::*;

use crate::data::StringOrObject;
use crate::emacs::next_line_begin_spec;
use crate::environment::Environment;
use crate::metrics::Metric;
use crate::parser::Parser;
use crate::pattern::{
    line_end_at, line_end_of, lemma_line_end_at, lemma_scan_end_props, match_empty_line_spec,
    scan, scan_end, ByteClass, COLON, HASH, LBRACKET, PLUS, RBRACKET, SPACE, TAB,
};
use crate::Line;

verus! {

/// A value that may carry an optional secondary value, as `CAPTION` and
/// `RESULTS` keywords do.
#[derive(Debug, PartialEq)]
pub struct DualVal<T> {
    pub value: T,
    pub secondary: Option<T>,
}

/// One exported-attribute entry: an upper-cased backend name and the
/// accumulated values of its occurrences, in order.
#[derive(Debug, PartialEq)]
pub struct AttrEntry {
    pub backend: Vec<u8>,
    pub values: Vec<Vec<u8>>,
}

/// The affiliated keywords collected above one element.
#[derive(Debug, PartialEq)]
pub struct AffiliatedData {
    /// Dual, multi-occurrence.
    pub caption: Vec<DualVal<StringOrObject>>,
    /// Multi-occurrence.
    pub header: Vec<Vec<u8>>,
    /// Singular.
    pub name: Option<Vec<u8>>,
    /// Singular.
    pub plot: Option<Vec<u8>>,
    /// Dual.
    pub results: Option<DualVal<Vec<u8>>>,
    /// Exported attributes, keyed by upper-cased backend name.
    pub attr: Vec<AttrEntry>,
}

impl Default for AffiliatedData {
    /// The empty record: no keyword collected yet.
    fn default() -> (r: AffiliatedData)
        ensures
            r.caption@.len() == 0,
            r.header@.len() == 0,
            r.name is None,
            r.plot is None,
            r.results is None,
            r.attr@.len() == 0,
    {
        AffiliatedData {
            caption: Vec::new(),
            header: Vec::new(),
            name: None,
            plot: None,
            results: None,
            attr: Vec::new(),
        }
    }
}

/// Upper-cases one ASCII byte.
pub open spec fn ascii_upper(b: u8) -> u8 {
    if 97 <= b <= 122 {
        (b - 32) as u8
    } else {
        b
    }
}

/// Whether `lit` (given upper-case) stands at `i`, compared
/// case-insensitively, wholly before `end`.
pub open spec fn ci_lit_at_spec(s: Seq<u8>, i: int, end: int, lit: Seq<u8>) -> bool {
    &&& 0 <= i
    &&& i + lit.len() <= end <= s.len()
    &&& forall|k: int| 0 <= k < lit.len() ==> ascii_upper(s[i + k]) == lit[k]
}

/// Compares `lit` (given upper-case) against the bytes at `i`,
/// case-insensitively.
pub fn ci_lit_at(s: &[u8], i: usize, end: usize, lit: &[u8]) -> (r: bool)
    requires
        i <= end <= s@.len(),
    ensures
        r == ci_lit_at_spec(s@, i as int, end as int, lit@),
{
    if end - i < lit.len() {
        return false;
    }
    let mut k: usize = 0;
    while k < lit.len()
        invariant
            k <= lit@.len(),
            i + lit@.len() <= end <= s@.len(),
            forall|t: int| 0 <= t < k ==> ascii_upper(s@[i + t]) == lit@[t],
        decreases lit@.len() - k,
    {
        let b = s[i + k];
        let u: u8 = if 97 <= b && b <= 122 {
            b - 32
        } else {
            b
        };
        if u != lit[k] {
            return false;
        }
        k = k + 1;
    }
    true
}

// The affiliated keyword names, upper-case.
pub open spec fn lit_caption() -> Seq<u8> {
    seq![67u8, 65u8, 80u8, 84u8, 73u8, 79u8, 78u8]
}

pub open spec fn lit_results() -> Seq<u8> {
    seq![82u8, 69u8, 83u8, 85u8, 76u8, 84u8, 83u8]
}

pub open spec fn lit_result() -> Seq<u8> {
    seq![82u8, 69u8, 83u8, 85u8, 76u8, 84u8]
}

pub open spec fn lit_headers() -> Seq<u8> {
    seq![72u8, 69u8, 65u8, 68u8, 69u8, 82u8, 83u8]
}

pub open spec fn lit_header() -> Seq<u8> {
    seq![72u8, 69u8, 65u8, 68u8, 69u8, 82u8]
}

pub open spec fn lit_plot() -> Seq<u8> {
    seq![80u8, 76u8, 79u8, 84u8]
}

pub open spec fn lit_data() -> Seq<u8> {
    seq![68u8, 65u8, 84u8, 65u8]
}

pub open spec fn lit_label() -> Seq<u8> {
    seq![76u8, 65u8, 66u8, 69u8, 76u8]
}

pub open spec fn lit_name() -> Seq<u8> {
    seq![78u8, 65u8, 77u8, 69u8]
}

pub open spec fn lit_resname() -> Seq<u8> {
    seq![82u8, 69u8, 83u8, 78u8, 65u8, 77u8, 69u8]
}

pub open spec fn lit_source() -> Seq<u8> {
    seq![83u8, 79u8, 85u8, 82u8, 67u8, 69u8]
}

pub open spec fn lit_srcname() -> Seq<u8> {
    seq![83u8, 82u8, 67u8, 78u8, 65u8, 77u8, 69u8]
}

pub open spec fn lit_tblname() -> Seq<u8> {
    seq![84u8, 66u8, 76u8, 78u8, 65u8, 77u8, 69u8]
}

pub open spec fn lit_attr_under() -> Seq<u8> {
    seq![65u8, 84u8, 84u8, 82u8, 95u8]
}

/// Which affiliated keyword a matched line carries.
#[derive(Clone, Copy, PartialEq, Eq, Structural, Debug)]
pub enum AffKeyKind {
    Caption,
    Results,
    Header,
    Plot,
    Name,
    Attr,
}

/// The keyword (with whether it is dual) standing at `k`, and the position
/// right after it.
pub open spec fn aff_key_after_spec(s: Seq<u8>, k: int, e: int) -> Option<(int, bool)> {
    if ci_lit_at_spec(s, k, e, lit_caption()) {
        Some((k + 7, true))
    } else if ci_lit_at_spec(s, k, e, lit_results()) {
        Some((k + 7, true))
    } else if ci_lit_at_spec(s, k, e, lit_result()) {
        Some((k + 6, true))
    } else if ci_lit_at_spec(s, k, e, lit_headers()) {
        Some((k + 7, false))
    } else if ci_lit_at_spec(s, k, e, lit_header()) {
        Some((k + 6, false))
    } else if ci_lit_at_spec(s, k, e, lit_plot()) {
        Some((k + 4, false))
    } else if ci_lit_at_spec(s, k, e, lit_data()) {
        Some((k + 4, false))
    } else if ci_lit_at_spec(s, k, e, lit_label()) {
        Some((k + 5, false))
    } else if ci_lit_at_spec(s, k, e, lit_name()) {
        Some((k + 4, false))
    } else if ci_lit_at_spec(s, k, e, lit_resname()) {
        Some((k + 7, false))
    } else if ci_lit_at_spec(s, k, e, lit_source()) {
        Some((k + 6, false))
    } else if ci_lit_at_spec(s, k, e, lit_srcname()) {
        Some((k + 7, false))
    } else if ci_lit_at_spec(s, k, e, lit_tblname()) {
        Some((k + 7, false))
    } else if ci_lit_at_spec(s, k, e, lit_attr_under()) {
        let t = scan_end(s, k + 5, e, ByteClass::WordHyphen);
        if t > k + 5 {
            Some((t, false))
        } else {
            None
        }
    } else {
        None
    }
}

/// The last closing bracket in `[lo, hi)` that a colon follows.
pub open spec fn rfind_bracket_colon(s: Seq<u8>, lo: int, hi: int) -> Option<int>
    decreases hi - lo,
{
    if hi <= lo || lo < 0 || hi + 1 > s.len() {
        None
    } else if s[hi - 1] == RBRACKET && s[hi] == COLON {
        Some(hi - 1)
    } else {
        rfind_bracket_colon(s, lo, hi - 1)
    }
}

/// Whether the line starting the region at `p` is an affiliated keyword
/// line: indentation, `#+`, a recognized key, an optional `[...]` part for
/// dual keys, then a colon.
pub open spec fn aff_line_is_match(s: Seq<u8>, p: int) -> bool {
    let e = line_end_at(s, p);
    let j = scan_end(s, p, e, ByteClass::SpaceTab);
    &&& 0 <= p
    &&& j + 1 < e
    &&& s[j] == HASH
    &&& s[j + 1] == PLUS
    &&& match aff_key_after_spec(s, j + 2, e) {
        None => false,
        Some(ab) => {
            if ab.1 && ab.0 < e && s[ab.0] == LBRACKET {
                rfind_bracket_colon(s, ab.0 + 1, e - 1) is Some
            } else {
                ab.0 < e && s[ab.0] == COLON
            }
        },
    }
}

#[via_fn]
proof fn aff_scan_spec_decreases(s: Seq<u8>, p: int, limit: int) {
    if 0 <= p <= s.len() {
        if crate::metrics::find_newline(s, p) is Some {
            crate::metrics::lemma_find_newline_some(s, p);
        }
    }
}

/// The first line start at or below `limit` where affiliated keyword lines
/// stop: the collector's cursor rests there.
pub open spec fn aff_scan_spec(s: Seq<u8>, p: int, limit: int) -> int
    decreases s.len() - p,
        via aff_scan_spec_decreases
{
    if !(0 <= p < s.len()) {
        p
    } else if p >= limit {
        p
    } else if !aff_line_is_match(s, p) {
        p
    } else {
        aff_scan_spec(s, next_line_begin_spec(s, p), limit)
    }
}

/// One matched affiliated keyword line, located.
pub struct AffMatch {
    /// Which keyword matched.
    pub key: AffKeyKind,
    /// For an attribute: the `ATTR_BACKEND` token interval.
    pub backend: (usize, usize),
    /// For a dual keyword: the secondary value interval.
    pub secondary: Option<(usize, usize)>,
    /// The position of the colon ending the keyword part.
    pub colon: usize,
}

/// Matches one affiliated keyword line anchored at `p`; the match is `Some`
/// exactly when the line fits the affiliated keyword shape.
pub fn aff_match_at(s: &[u8], p: usize) -> (r: Option<AffMatch>)
    requires
        p <= s@.len(),
    ensures
        r is Some == aff_line_is_match(s@, p as int),
        r matches Some(m) ==> ({
            let e = line_end_at(s@, p as int);
            &&& p <= m.colon < e
            &&& m.backend.0 <= m.backend.1 <= e
            &&& (m.secondary matches Some(sc) ==> sc.0 <= sc.1 <= e)
        }),
{
    proof {
        crate::metrics::lemma_slice_len_bound(s);
    }
    let e = line_end_of(s, p);
    let j = scan(s, p, e, ByteClass::SpaceTab);
    if !(e - j >= 2 && s[j] == HASH && s[j + 1] == PLUS) {
        return None;
    }
    let k = j + 2;
    let key: AffKeyKind;
    let after: usize;
    let dual: bool;
    let mut backend: (usize, usize) = (0, 0);
    let lcap: [u8; 7] = [67, 65, 80, 84, 73, 79, 78];
    let lress: [u8; 7] = [82, 69, 83, 85, 76, 84, 83];
    let lres: [u8; 6] = [82, 69, 83, 85, 76, 84];
    let lhdrs: [u8; 7] = [72, 69, 65, 68, 69, 82, 83];
    let lhdr: [u8; 6] = [72, 69, 65, 68, 69, 82];
    let lplot: [u8; 4] = [80, 76, 79, 84];
    let ldata: [u8; 4] = [68, 65, 84, 65];
    let llabel: [u8; 5] = [76, 65, 66, 69, 76];
    let lname: [u8; 4] = [78, 65, 77, 69];
    let lresn: [u8; 7] = [82, 69, 83, 78, 65, 77, 69];
    let lsrc: [u8; 6] = [83, 79, 85, 82, 67, 69];
    let lsrcn: [u8; 7] = [83, 82, 67, 78, 65, 77, 69];
    let ltbln: [u8; 7] = [84, 66, 76, 78, 65, 77, 69];
    let lattr: [u8; 5] = [65, 84, 84, 82, 95];
    let scap: &[u8] = lcap.as_slice();
    let sress: &[u8] = lress.as_slice();
    let sres: &[u8] = lres.as_slice();
    let shdrs: &[u8] = lhdrs.as_slice();
    let shdr: &[u8] = lhdr.as_slice();
    let splot: &[u8] = lplot.as_slice();
    let sdata: &[u8] = ldata.as_slice();
    let slabel: &[u8] = llabel.as_slice();
    let sname: &[u8] = lname.as_slice();
    let sresn: &[u8] = lresn.as_slice();
    let ssrc: &[u8] = lsrc.as_slice();
    let ssrcn: &[u8] = lsrcn.as_slice();
    let stbln: &[u8] = ltbln.as_slice();
    let sattr: &[u8] = lattr.as_slice();
    proof {
        assert(scap@ =~= lit_caption());
        assert(sress@ =~= lit_results());
        assert(sres@ =~= lit_result());
        assert(shdrs@ =~= lit_headers());
        assert(shdr@ =~= lit_header());
        assert(splot@ =~= lit_plot());
        assert(sdata@ =~= lit_data());
        assert(slabel@ =~= lit_label());
        assert(sname@ =~= lit_name());
        assert(sresn@ =~= lit_resname());
        assert(ssrc@ =~= lit_source());
        assert(ssrcn@ =~= lit_srcname());
        assert(stbln@ =~= lit_tblname());
        assert(sattr@ =~= lit_attr_under());
    }
    if ci_lit_at(s, k, e, scap) {
        key = AffKeyKind::Caption;
        after = k + 7;
        dual = true;
    } else if ci_lit_at(s, k, e, sress) {
        key = AffKeyKind::Results;
        after = k + 7;
        dual = true;
    } else if ci_lit_at(s, k, e, sres) {
        key = AffKeyKind::Results;
        after = k + 6;
        dual = true;
    } else if ci_lit_at(s, k, e, shdrs) {
        key = AffKeyKind::Header;
        after = k + 7;
        dual = false;
    } else if ci_lit_at(s, k, e, shdr) {
        key = AffKeyKind::Header;
        after = k + 6;
        dual = false;
    } else if ci_lit_at(s, k, e, splot) {
        key = AffKeyKind::Plot;
        after = k + 4;
        dual = false;
    } else if ci_lit_at(s, k, e, sdata) {
        key = AffKeyKind::Name;
        after = k + 4;
        dual = false;
    } else if ci_lit_at(s, k, e, slabel) {
        key = AffKeyKind::Name;
        after = k + 5;
        dual = false;
    } else if ci_lit_at(s, k, e, sname) {
        key = AffKeyKind::Name;
        after = k + 4;
        dual = false;
    } else if ci_lit_at(s, k, e, sresn) {
        key = AffKeyKind::Name;
        after = k + 7;
        dual = false;
    } else if ci_lit_at(s, k, e, ssrc) {
        key = AffKeyKind::Name;
        after = k + 6;
        dual = false;
    } else if ci_lit_at(s, k, e, ssrcn) {
        key = AffKeyKind::Name;
        after = k + 7;
        dual = false;
    } else if ci_lit_at(s, k, e, stbln) {
        key = AffKeyKind::Name;
        after = k + 7;
        dual = false;
    } else if ci_lit_at(s, k, e, sattr) {
        let t = scan(s, k + 5, e, ByteClass::WordHyphen);
        if t <= k + 5 {
            return None;
        }
        key = AffKeyKind::Attr;
        after = t;
        dual = false;
        backend = (k, t);
    } else {
        return None;
    }
    if dual && after < e && s[after] == LBRACKET {
        if e - after < 2 {
            return None;
        }
        match rscan_bracket_colon(s, after + 1, e - 1) {
            Some(m) => {
                proof {
                    lemma_rfind_bracket_colon_some(s@, after + 1, (e - 1) as int);
                }
                Some(
                    AffMatch {
                        key,
                        backend,
                        secondary: Some((after + 1, m)),
                        colon: m + 1,
                    },
                )
            },
            None => None,
        }
    } else if after < e && s[after] == COLON {
        Some(AffMatch { key, backend, secondary: None, colon: after })
    } else {
        None
    }
}

pub proof fn lemma_rfind_bracket_colon_some(s: Seq<u8>, lo: int, hi: int)
    requires
        rfind_bracket_colon(s, lo, hi) is Some,
    ensures
        ({
            let m = rfind_bracket_colon(s, lo, hi)->Some_0;
            &&& lo <= m < hi
            &&& m + 1 < s.len()
            &&& s[m] == RBRACKET
            &&& s[m + 1] == COLON
        }),
    decreases hi - lo,
{
    if hi <= lo || lo < 0 || hi + 1 > s.len() {
    } else if s[hi - 1] == RBRACKET && s[hi] == COLON {
    } else {
        lemma_rfind_bracket_colon_some(s, lo, hi - 1);
    }
}

/// Finds the last closing bracket in `[lo, hi)` that a colon follows.
fn rscan_bracket_colon(s: &[u8], lo: usize, hi: usize) -> (r: Option<usize>)
    requires
        lo <= hi,
        hi + 1 <= s@.len(),
    ensures
        crate::metrics::opt_as_int(r) == rfind_bracket_colon(s@, lo as int, hi as int),
{
    let mut j: usize = hi;
    while j > lo && !(s[j - 1] == RBRACKET && s[j] == COLON)
        invariant
            lo <= j <= hi,
            hi + 1 <= s@.len(),
            rfind_bracket_colon(s@, lo as int, hi as int) == rfind_bracket_colon(
                s@,
                lo as int,
                j as int,
            ),
        decreases j,
    {
        j = j - 1;
    }
    if j == lo {
        None
    } else {
        Some(j - 1)
    }
}

/// Whether a byte is trimmed off a keyword value: space, tab or carriage
/// return.
pub open spec fn is_blankish(b: u8) -> bool {
    b == SPACE || b == TAB || b == 13
}

/// The start of `[a, b)` after leading blanks.
pub open spec fn trim_lo(s: Seq<u8>, a: int, b: int) -> int
    decreases b - a,
{
    if a < 0 || a >= b || a >= s.len() || !is_blankish(s[a]) {
        a
    } else {
        trim_lo(s, a + 1, b)
    }
}

/// The end of `[a, b)` before trailing blanks.
pub open spec fn trim_hi(s: Seq<u8>, a: int, b: int) -> int
    decreases b,
{
    if b <= a || b <= 0 || b > s.len() || !is_blankish(s[b - 1]) {
        b
    } else {
        trim_hi(s, a, b - 1)
    }
}

/// Copies `[a, b)` with leading and trailing blanks removed.
pub fn trim_range(s: &[u8], a: usize, b: usize) -> (v: Vec<u8>)
    requires
        a <= b <= s@.len(),
    ensures
        v@ == s@.subrange(trim_lo(s@, a as int, b as int), trim_hi(s@, trim_lo(s@, a as int, b as int), b as int)),
{
    let mut lo: usize = a;
    while lo < b && (s[lo] == SPACE || s[lo] == TAB || s[lo] == 13)
        invariant
            a <= lo <= b <= s@.len(),
            trim_lo(s@, a as int, b as int) == trim_lo(s@, lo as int, b as int),
        decreases b - lo,
    {
        lo = lo + 1;
    }
    let mut hi: usize = b;
    while hi > lo && (s[hi - 1] == SPACE || s[hi - 1] == TAB || s[hi - 1] == 13)
        invariant
            lo <= hi <= b <= s@.len(),
            trim_hi(s@, lo as int, b as int) == trim_hi(s@, lo as int, hi as int),
        decreases hi,
    {
        hi = hi - 1;
    }
    crate::lexeme::copy_range(s, lo, hi)
}

/// Copies `[a, b)` with every ASCII letter upper-cased.
pub fn upper_range(s: &[u8], a: usize, b: usize) -> (v: Vec<u8>)
    requires
        a <= b <= s@.len(),
    ensures
        v@.len() == b - a,
        forall|k: int| 0 <= k < b - a ==> v@[k] == ascii_upper(s@[a + k]),
{
    let mut v: Vec<u8> = Vec::new();
    let mut i: usize = a;
    while i < b
        invariant
            a <= i <= b <= s@.len(),
            v@.len() == i - a,
            forall|k: int| 0 <= k < i - a ==> v@[k] == ascii_upper(s@[a + k]),
        decreases b - i,
    {
        let c = s[i];
        let u: u8 = if 97 <= c && c <= 122 {
            c - 32
        } else {
            c
        };
        v.push(u);
        i = i + 1;
    }
    v
}

impl<'a, E: Environment> Parser<'a, E> {
    /// Collects affiliated keywords from the cursor down to `limit`.
    ///
    /// The first component of the result is the position of the first
    /// affiliated keyword (the cursor position on entry).  When the cursor
    /// is not at a line beginning, or when the keyword lines are orphaned —
    /// immediately followed by a blank line — the second component is
    /// `None` and the cursor is restored; otherwise the record of collected
    /// keywords is returned and the cursor rests on the first line after
    /// them.
    pub fn collect_affiliated_keywords(&mut self, limit: usize) -> (r: (
        usize,
        Option<AffiliatedData>,
    ))
        requires
            old(self).inv(),
        ensures
            final(self).inv(),
            final(self).same_buffer(*old(self)),
            r.0 == old(self).cursor.pos,
            old(self).cursor.pos <= final(self).cursor.pos,
            ({
                let s = old(self).cursor.data@;
                let origin = old(self).cursor.pos as int;
                if !(origin == 0 || <Line as Metric>::boundary_spec(s, origin)) {
                    r.1 is None && final(self).cursor.pos == origin
                } else {
                    let stop = aff_scan_spec(s, origin, limit as int);
                    if match_empty_line_spec(s, stop, line_end_at(s, stop)) is Some {
                        r.1 is None && final(self).cursor.pos == origin
                    } else {
                        r.1 is Some && final(self).cursor.pos == stop
                    }
                }
            }),
    {
        let origin = self.cursor.pos();
        if !self.cursor.is_bol() {
            return (origin, None);
        }
        let mut output = AffiliatedData::default();
        loop
            invariant
                self.inv(),
                self.same_buffer(*old(self)),
                origin == old(self).cursor.pos,
                origin <= self.cursor.pos,
                self.cursor.pos <= self.cursor.data@.len(),
                aff_scan_spec(self.cursor.data@, origin as int, limit as int) == aff_scan_spec(
                    self.cursor.data@,
                    self.cursor.pos as int,
                    limit as int,
                ),
            ensures
                self.inv(),
                self.same_buffer(*old(self)),
                origin <= self.cursor.pos,
                self.cursor.pos as int == aff_scan_spec(
                    self.cursor.data@,
                    origin as int,
                    limit as int,
                ),
            decreases self.cursor.data@.len() - self.cursor.pos,
        {
            if self.cursor.pos() >= limit || self.cursor.pos() >= self.cursor.data_len() {
                break;
            }
            let p = self.cursor.pos();
            let e = line_end_of(self.cursor.data, p);
            match aff_match_at(self.cursor.data, p) {
                None => {
                    break;
                },
                Some(m) => {
                    let value = trim_range(self.cursor.data, m.colon + 1, e);
                    let secondary: Option<Vec<u8>> = match m.secondary {
                        None => None,
                        Some(sc) => Some(trim_range(self.cursor.data, sc.0, sc.1)),
                    };
                    match m.key {
                        AffKeyKind::Caption => {
                            let sec = match secondary {
                                None => None,
                                Some(v) => Some(StringOrObject::Raw(v)),
                            };
                            output.caption.push(
                                DualVal { value: StringOrObject::Raw(value), secondary: sec },
                            );
                        },
                        AffKeyKind::Results => {
                            output.results = Some(DualVal { value, secondary });
                        },
                        AffKeyKind::Name => {
                            output.name = Some(value);
                        },
                        AffKeyKind::Plot => {
                            output.plot = Some(value);
                        },
                        AffKeyKind::Header => {
                            output.header.push(value);
                        },
                        AffKeyKind::Attr => {
                            let backend = upper_range(self.cursor.data, m.backend.0, m.backend.1);
                            push_attr(&mut output.attr, backend, value);
                        },
                    }
                    proof {
                        lemma_line_end_at(self.cursor.data@, p as int);
                        if crate::metrics::find_newline(self.cursor.data@, p as int) is Some {
                            crate::metrics::lemma_find_newline_some(self.cursor.data@, p as int);
                        }
                    }
                    self.cursor.goto_next_line();
                },
            }
        }
        // Orphaned affiliated keywords — a blank line follows them — belong
        // to no element: rewind to the first one.
        let stop = self.cursor.pos();
        let stop_end = line_end_of(self.cursor.data, stop);
        let j = scan(self.cursor.data, stop, stop_end, ByteClass::SpaceTab);
        if j == stop_end {
            self.cursor.set(origin);
            return (origin, None);
        }
        (origin, Some(output))
    }
}

/// Appends one attribute value under its backend, keeping one entry per
/// backend name.
fn push_attr(attr: &mut Vec<AttrEntry>, backend: Vec<u8>, value: Vec<u8>)
{
    let mut i: usize = 0;
    let n = attr.len();
    while i < n
        invariant
            i <= n,
            n == attr@.len(),
        decreases n - i,
    {
        if vec_bytes_eq(&attr[i].backend, &backend) {
            let mut entry = attr.remove(i);
            entry.values.push(value);
            attr.insert(i, entry);
            return ;
        }
        i = i + 1;
    }
    let mut values: Vec<Vec<u8>> = Vec::new();
    values.push(value);
    attr.push(AttrEntry { backend, values });
}

/// Whether two byte vectors hold the same bytes.
pub fn vec_bytes_eq(a: &Vec<u8>, b: &Vec<u8>) -> (r: bool)
    ensures
        r == (a@ == b@),
{
    if a.len() != b.len() {
        proof {
            assert(a@ != b@);
        }
        return false;
    }
    let mut i: usize = 0;
    while i < a.len()
        invariant
            i <= a@.len(),
            a@.len() == b@.len(),
            forall|k: int| 0 <= k < i ==> a@[k] == b@[k],
        decreases a@.len() - i,
    {
        if a[i] != b[i] {
            return false;
        }
        i = i + 1;
    }
    proof {
        assert(a@ =~= b@);
    }
    true
}

} // verus!
