//! The element-phase parser: a recursive-descent engine that classifies
//! the text at the cursor into a syntax kind, delegates to a leaf parser,
//! and recurses into greater elements per granularity.

use vstd::prelude::*;

use crate::affiliated::AffiliatedData;
use crate::cursor::Cursor;
use crate::data::{node_located, Syntax, SyntaxNode, SyntaxT};
use crate::environment::Environment;
use crate::list::{clone_list_struct, ListStruct};
use crate::metrics::Metric;
use crate::Line;
use crate::data::{nodes_chain, tree_tiled};
use crate::pattern::{
    lemma_pattern_match_range, line_end_at, line_end_of, pattern_match_at, scan, ByteClass,
    Pattern, SPACE,
};
use crate::Interval;

verus! {

/// The shape every leaf parser guarantees of the node it returns: the node
/// starts at the element start (affiliated keywords included), ends after
/// the cursor's entry position and within `limit`, carries the expected
/// kind, and its content interval — when present — starts strictly inside
/// it, except for a section, whose content is the whole node.
pub open spec fn leaf_node_shape(
    n: SyntaxNode,
    start: int,
    pre_pos: int,
    end_pos: int,
    limit: int,
    kind: SyntaxT,
) -> bool {
    &&& n.location.start == start
    &&& n.location.end == end_pos
    &&& pre_pos < end_pos <= limit
    &&& start <= pre_pos
    &&& node_located(n)
    &&& n.data.spec_kind() == kind
    &&& n.children@.len() == 0
    &&& (n.content_location matches Some(c) ==> (if kind == SyntaxT::Section {
        c.start == start
    } else {
        c.start > start
    }))
}

/// Whether the line at `p` holds only blanks up to its end.
pub open spec fn blank_line_at(s: Seq<u8>, p: int) -> bool {
    crate::pattern::scan_end(s, p, line_end_at(s, p), ByteClass::SpaceTab) == line_end_at(s, p)
}

/// The start of the line after `p`, clamped to `limit`.
pub open spec fn next_line_clamped(s: Seq<u8>, p: int, limit: int) -> int {
    let q = crate::emacs::next_line_begin_spec(s, p);
    if q < limit {
        q
    } else {
        limit
    }
}

#[via_fn]
proof fn absorb_blanks_spec_decreases(s: Seq<u8>, p: int, limit: int) {
    if 0 <= p < limit && limit <= s.len() {
        if crate::metrics::find_newline(s, p) is Some {
            crate::metrics::lemma_find_newline_some(s, p);
        }
    }
}

/// Where a run of blank lines starting at `p` ends (clamped to `limit`),
/// and how many blank lines it holds.
pub open spec fn absorb_blanks_spec(s: Seq<u8>, p: int, limit: int) -> (int, int)
    decreases limit - p,
        via absorb_blanks_spec_decreases
{
    if !(0 <= p < limit && limit <= s.len()) {
        (p, 0)
    } else if !blank_line_at(s, p) {
        (p, 0)
    } else {
        let rest = absorb_blanks_spec(s, next_line_clamped(s, p, limit), limit);
        (rest.0, 1 + rest.1)
    }
}

/// Where a simple leaf lands: past the current line, then past the blank
/// lines after it, clamped to `limit`.
pub open spec fn line_and_blanks_end(s: Seq<u8>, p: int, limit: int) -> (int, int) {
    absorb_blanks_spec(s, next_line_clamped(s, p, limit), limit)
}

/// The kinds that may carry affiliated keywords: every element except
/// those the classifier places before the keyword-collecting step —
/// items, table rows, node properties, headlines, sections, planning
/// lines, property drawers, clocks and inline tasks.
pub open spec fn affiliated_capable(k: SyntaxT) -> bool {
    &&& k.spec_is_element()
    &&& k != SyntaxT::Item
    &&& k != SyntaxT::TableRow
    &&& k != SyntaxT::NodeProperty
    &&& k != SyntaxT::Headline
    &&& k != SyntaxT::Section
    &&& k != SyntaxT::Planning
    &&& k != SyntaxT::PropertyDrawer
    &&& k != SyntaxT::Clock
    &&& k != SyntaxT::InlineTask
}

/// The extra measure granted to modes that may still produce a section
/// node: recursing into a section keeps its interval but drops this flag.
pub open spec fn section_flag(mode: ParserMode) -> int {
    if mode == ParserMode::Section || mode == ParserMode::FirstSection {
        1
    } else {
        0
    }
}

/// The requested recursion depth of a parse.
#[derive(Clone, Copy, PartialEq, Eq, Structural, Debug)]
pub enum ParseGranularity {
    /// Only parse headlines.
    Headline,
    /// Do not recurse into greater elements except headlines and sections:
    /// the elements parsed are the top-level ones.
    GreaterElement,
    /// Parse everything but objects and plain text.
    Element,
    /// Parse the complete buffer.
    Object,
}

/// The parser mode: a bias applied to element classification, reflecting
/// which construct is structurally expected next.
#[derive(Clone, Copy, PartialEq, Eq, Structural, Debug)]
pub enum ParserMode {
    FirstSection,
    Section,
    Planning,
    Item,
    NodeProperty,
    TableRow,
    PropertyDrawer,
}

/// The parsing engine: one cursor over one input buffer, plus the
/// granularity and environment the parse was requested with.
pub struct Parser<'a, E: Environment> {
    pub cursor: Cursor<'a>,
    pub input: &'a [u8],
    pub granularity: ParseGranularity,
    pub environment: E,
}

impl<'a, E: Environment> Parser<'a, E> {
    /// The parser's structural invariant: the cursor walks the input
    /// buffer and stays within it.
    pub open spec fn inv(&self) -> bool {
        &&& self.cursor.data@ == self.input@
        &&& self.input@.len() + 4 <= usize::MAX
        &&& self.cursor.pos <= self.cursor.data@.len()
    }

    /// Whether two parser states share buffer and configuration, differing
    /// at most in cursor position.
    pub open spec fn same_buffer(&self, other: Parser<'a, E>) -> bool {
        &&& self.cursor.data == other.cursor.data
        &&& self.input == other.input
        &&& self.granularity == other.granularity
    }

    pub fn new(input: &'a [u8], granularity: ParseGranularity, environment: E) -> (p: Parser<
        'a,
        E,
    >)
        requires
            input@.len() + 4 <= usize::MAX,
        ensures
            p.inv(),
            p.cursor.pos == 0,
            p.cursor.data@ == input@,
            p.input == input,
            p.granularity == granularity,
    {
        Parser { cursor: Cursor::new(input, 0), input, granularity, environment }
    }

    /// The parser mode that applies inside an `element` (when `is_parent`)
    /// or right after it (otherwise): a pure lookup over the kind.
    pub open spec fn spec_next_mode(syntax: SyntaxT, is_parent: bool) -> Option<ParserMode> {
        if is_parent {
            if syntax == SyntaxT::Headline {
                Some(ParserMode::Section)
            } else if syntax == SyntaxT::InlineTask {
                Some(ParserMode::Planning)
            } else if syntax == SyntaxT::PlainList {
                Some(ParserMode::Item)
            } else if syntax == SyntaxT::PropertyDrawer {
                Some(ParserMode::NodeProperty)
            } else if syntax == SyntaxT::Section {
                Some(ParserMode::Planning)
            } else if syntax == SyntaxT::Table {
                Some(ParserMode::TableRow)
            } else {
                None
            }
        } else {
            if syntax == SyntaxT::Item {
                Some(ParserMode::Item)
            } else if syntax == SyntaxT::NodeProperty {
                Some(ParserMode::NodeProperty)
            } else if syntax == SyntaxT::Planning {
                Some(ParserMode::PropertyDrawer)
            } else if syntax == SyntaxT::TableRow {
                Some(ParserMode::TableRow)
            } else {
                None
            }
        }
    }

    /// Returns the parser mode according to the given kind: the mode that
    /// applies to the first child of a node of that kind (`is_parent`), or
    /// to the sibling following it.
    pub fn next_mode(syntax: SyntaxT, is_parent: bool) -> (r: Option<ParserMode>)
        ensures
            r == Self::spec_next_mode(syntax, is_parent),
    {
        if is_parent {
            if syntax == SyntaxT::Headline {
                Some(ParserMode::Section)
            } else if syntax == SyntaxT::InlineTask {
                Some(ParserMode::Planning)
            } else if syntax == SyntaxT::PlainList {
                Some(ParserMode::Item)
            } else if syntax == SyntaxT::PropertyDrawer {
                Some(ParserMode::NodeProperty)
            } else if syntax == SyntaxT::Section {
                Some(ParserMode::Planning)
            } else if syntax == SyntaxT::Table {
                Some(ParserMode::TableRow)
            } else {
                None
            }
        } else {
            if syntax == SyntaxT::Item {
                Some(ParserMode::Item)
            } else if syntax == SyntaxT::NodeProperty {
                Some(ParserMode::NodeProperty)
            } else if syntax == SyntaxT::Planning {
                Some(ParserMode::PropertyDrawer)
            } else if syntax == SyntaxT::TableRow {
                Some(ParserMode::TableRow)
            } else {
                None
            }
        }
    }
}

impl<'a, E: Environment> Parser<'a, E> {
    /// Consumes the rest of the current line, then any following blank
    /// lines, clamped to `limit`; returns the number of blank lines
    /// absorbed.
    pub(crate) fn consume_line_and_blanks(&mut self, limit: usize) -> (pb: usize)
        requires
            old(self).inv(),
            old(self).cursor.pos < limit <= old(self).cursor.data@.len(),
        ensures
            final(self).inv(),
            final(self).same_buffer(*old(self)),
            old(self).cursor.pos < final(self).cursor.pos <= limit,
            (final(self).cursor.pos as int, pb as int) == line_and_blanks_end(
                old(self).cursor.data@,
                old(self).cursor.pos as int,
                limit as int,
            ),
    {
        proof {
            if crate::metrics::find_newline(self.cursor.data@, self.cursor.pos as int) is Some {
                crate::metrics::lemma_find_newline_some(
                    self.cursor.data@,
                    self.cursor.pos as int,
                );
            }
        }
        self.cursor.goto_next_line();
        if self.cursor.pos() > limit {
            self.cursor.set(limit);
        }
        self.absorb_blanks(limit)
    }

    /// Absorbs blank lines up to `limit`, returning how many were
    /// consumed.
    pub(crate) fn absorb_blanks(&mut self, limit: usize) -> (pb: usize)
        requires
            old(self).inv(),
            old(self).cursor.pos <= limit <= old(self).cursor.data@.len(),
        ensures
            final(self).inv(),
            final(self).same_buffer(*old(self)),
            old(self).cursor.pos <= final(self).cursor.pos <= limit,
            (final(self).cursor.pos as int, pb as int) == absorb_blanks_spec(
                old(self).cursor.data@,
                old(self).cursor.pos as int,
                limit as int,
            ),
    {
        let mut pb: usize = 0;
        loop
            invariant
                self.inv(),
                self.same_buffer(*old(self)),
                old(self).cursor.pos <= self.cursor.pos <= limit,
                limit <= self.cursor.data@.len(),
                pb <= self.cursor.pos,
                absorb_blanks_spec(
                    self.cursor.data@,
                    old(self).cursor.pos as int,
                    limit as int,
                ).0 == absorb_blanks_spec(
                    self.cursor.data@,
                    self.cursor.pos as int,
                    limit as int,
                ).0,
                absorb_blanks_spec(
                    self.cursor.data@,
                    old(self).cursor.pos as int,
                    limit as int,
                ).1 == pb + absorb_blanks_spec(
                    self.cursor.data@,
                    self.cursor.pos as int,
                    limit as int,
                ).1,
            ensures
                self.inv(),
                self.same_buffer(*old(self)),
                old(self).cursor.pos <= self.cursor.pos <= limit,
                (self.cursor.pos as int, pb as int) == absorb_blanks_spec(
                    old(self).cursor.data@,
                    old(self).cursor.pos as int,
                    limit as int,
                ),
            decreases limit - self.cursor.pos,
        {
            if self.cursor.pos() >= limit {
                break;
            }
            let p = self.cursor.pos();
            let e = line_end_of(self.cursor.data, p);
            let j = scan(self.cursor.data, p, e, ByteClass::SpaceTab);
            if j != e {
                break;
            }
            proof {
                if crate::metrics::find_newline(self.cursor.data@, p as int) is Some {
                    crate::metrics::lemma_find_newline_some(self.cursor.data@, p as int);
                }
            }
            self.cursor.goto_next_line();
            if self.cursor.pos() > limit {
                self.cursor.set(limit);
            }
            pb = pb + 1;
        }
        pb
    }

    /// Builds a leaf node of the given kind by consuming one line and its
    /// trailing blank lines: the plainest consumption every simple leaf
    /// parser shares.
    pub(crate) fn parse_simple_element(
        &mut self,
        limit: usize,
        start: usize,
        affiliated: Option<AffiliatedData>,
        data: Syntax,
    ) -> (n: SyntaxNode)
        requires
            old(self).inv(),
            start <= old(self).cursor.pos,
            old(self).cursor.pos < limit <= old(self).cursor.data@.len(),
        ensures
            final(self).inv(),
            final(self).same_buffer(*old(self)),
            leaf_node_shape(
                n,
                start as int,
                old(self).cursor.pos as int,
                final(self).cursor.pos as int,
                limit as int,
                data.spec_kind(),
            ),
            (n.location.end as int, n.post_blank as int) == line_and_blanks_end(
                old(self).cursor.data@,
                old(self).cursor.pos as int,
                limit as int,
            ),
    {
        let pb = self.consume_line_and_blanks(limit);
        let end = self.cursor.pos();
        SyntaxNode {
            children: Vec::new(),
            data,
            location: Interval::new(start, end),
            content_location: None,
            post_blank: pb,
            affiliated,
        }
    }
}

impl<'a, E: Environment> Parser<'a, E> {
    /// Parses the element starting at the cursor: an ordered decision
    /// cascade in which the first matching branch dispatches to its leaf
    /// parser.  The cursor is restored afterwards; the caller advances to
    /// the returned node's end.  The node starts exactly at the cursor,
    /// makes progress, stays within `limit`, and is a section only under a
    /// section-expecting mode.
    pub fn current_element(
        &mut self,
        limit: usize,
        mode: ParserMode,
        structure: Option<&ListStruct>,
    ) -> (n: SyntaxNode)
        requires
            old(self).inv(),
            old(self).cursor.pos < limit <= old(self).cursor.data@.len(),
        ensures
            final(self).inv(),
            final(self).same_buffer(*old(self)),
            final(self).cursor.pos == old(self).cursor.pos,
            n.location.start == old(self).cursor.pos,
            old(self).cursor.pos < n.location.end <= limit,
            crate::data::node_located(n),
            n.children@.len() == 0,
            n.content_location matches Some(c) ==> (if n.data.spec_kind() == SyntaxT::Section {
                c.start == n.location.start
            } else {
                c.start > n.location.start
            }),
            n.data.spec_kind() == SyntaxT::Section ==> (mode == ParserMode::Section || mode
                == ParserMode::FirstSection),
            mode == ParserMode::Item ==> n.data.spec_kind() == SyntaxT::Item,
            mode == ParserMode::TableRow ==> n.data.spec_kind() == SyntaxT::TableRow,
            mode == ParserMode::NodeProperty ==> n.data.spec_kind() == SyntaxT::NodeProperty,
            ({
                let s = old(self).cursor.data@;
                let lb = crate::emacs::line_begin_spec(s, old(self).cursor.pos as int);
                let on_hl = crate::pattern::match_headline_spec(
                    s,
                    lb,
                    line_end_at(s, lb),
                ) is Some;
                &&& (n.data.spec_kind() == SyntaxT::Headline ==> on_hl)
                &&& (on_hl && mode != ParserMode::Item && mode != ParserMode::TableRow && mode
                    != ParserMode::NodeProperty ==> n.data.spec_kind() == SyntaxT::Headline)
            }),
    {
        let pos = self.cursor.pos();
        let raw_secondary_p = self.granularity == ParseGranularity::Object;
        let node: SyntaxNode;
        if mode == ParserMode::Item {
            node = self.item_parser(limit, structure, raw_secondary_p);
        } else if mode == ParserMode::TableRow {
            node = self.table_row_parser(limit);
        } else if mode == ParserMode::NodeProperty {
            node = self.node_property_parser(limit);
        } else if self.cursor.on_headline() {
            node = self.headline_parser(limit);
        } else if mode == ParserMode::Section || mode == ParserMode::FirstSection {
            node = self.section_parser(limit);
        } else {
            // Planning and property drawers sit directly under a headline:
            // probe whether the previous line starts with a star.
            let mho = self.cursor.line_beginning_position(Some(0));
            proof {
                crate::emacs::lemma_line_begin_range(self.cursor.data@, self.cursor.pos as int);
                crate::emacs::lemma_back_lines_range(
                    self.cursor.data@,
                    crate::emacs::line_begin_spec(self.cursor.data@, self.cursor.pos as int),
                    1,
                );
            }
            let star0 = self.cursor.char_after(mho);
            let is_prev_star: bool = match star0 {
                Some(c) => c == '*',
                None => false,
            };
            if mode == ParserMode::Planning && is_prev_star && self.cursor.looking_at(
                Pattern::PlanningLine,
            ).is_some() {
                node = self.planning_parser(limit);
            } else {
                let delta: i32 = if mode == ParserMode::Planning {
                    0
                } else {
                    -1
                };
                let mho2 = self.cursor.line_beginning_position(Some(delta));
                proof {
                    crate::emacs::lemma_line_begin_range(
                        self.cursor.data@,
                        self.cursor.pos as int,
                    );
                    crate::emacs::lemma_back_lines_range(
                        self.cursor.data@,
                        crate::emacs::line_begin_spec(self.cursor.data@, self.cursor.pos as int),
                        1,
                    );
                    crate::emacs::lemma_back_lines_range(
                        self.cursor.data@,
                        crate::emacs::line_begin_spec(self.cursor.data@, self.cursor.pos as int),
                        2,
                    );
                }
                let star2 = self.cursor.char_after(mho2);
                let is_prev_star2: bool = match star2 {
                    Some(c) => c == '*',
                    None => false,
                };
                if (mode == ParserMode::Planning || mode == ParserMode::PropertyDrawer)
                    && is_prev_star2 && self.cursor.looking_at(Pattern::PropertyDrawer).is_some() {
                    node = self.property_drawer_parser(limit);
                } else if !self.cursor.is_bol() {
                    // Off a line beginning the cursor sits at the start of
                    // an item or a footnote definition: the next element is
                    // always a paragraph.
                    node = self.paragraph_parser(limit, pos, None);
                } else if self.cursor.looking_at(Pattern::ClockLine).is_some() {
                    node = self.clock_line_parser(limit);
                } else if self.cursor.on_headline() {
                    node = self.inlinetask_parser(limit, raw_secondary_p);
                } else {
                    // From here on, elements can carry affiliated keywords.
                    let aff = self.collect_affiliated_keywords(limit);
                    let aff_start = aff.0;
                    let maybe_aff = aff.1;
                    if maybe_aff.is_some() && self.cursor.pos() >= limit {
                        // Collecting ran off the limit: the keywords are
                        // parsed as a plain keyword element instead.
                        self.cursor.set(aff_start);
                        node = self.keyword_parser(limit, aff_start, None);
                    } else {
                        node = self.dispatch_after_affiliated(
                            limit,
                            aff_start,
                            maybe_aff,
                            structure,
                        );
                    }
                }
            }
        }
        self.cursor.set(pos);
        node
    }

    /// The tail of the classification cascade, entered once affiliated
    /// keywords have been collected: LaTeX environments, drawers,
    /// fixed-width lines, the `#`-introduced family, footnote definitions,
    /// horizontal rules, diary sexps, tables and lists, with the paragraph
    /// as the catch-all.
    fn dispatch_after_affiliated(
        &mut self,
        limit: usize,
        start: usize,
        affiliated: Option<AffiliatedData>,
        structure: Option<&ListStruct>,
    ) -> (n: SyntaxNode)
        requires
            old(self).inv(),
            start <= old(self).cursor.pos,
            old(self).cursor.pos < limit <= old(self).cursor.data@.len(),
        ensures
            final(self).inv(),
            final(self).same_buffer(*old(self)),
            n.location.start == start,
            start < n.location.end <= limit,
            crate::data::node_located(n),
            n.children@.len() == 0,
            n.content_location matches Some(c) ==> c.start > start,
            affiliated_capable(n.data.spec_kind()),
    {
        if self.cursor.looking_at(Pattern::LatexBegin).is_some() {
            return self.latex_environment_parser(limit, start, affiliated);
        }
        if self.cursor.looking_at(Pattern::Drawer).is_some() {
            return self.drawer_parser(limit, start, affiliated);
        }
        if self.cursor.looking_at(Pattern::FixedWidth).is_some() {
            return self.fixed_width_parser(limit, start, affiliated);
        }
        match self.cursor.looking_at(Pattern::Hashtag) {
            Some(m) => {
                let p = self.cursor.pos();
                let eol = line_end_of(self.cursor.data, p);
                proof {
                    lemma_pattern_match_range(
                        Pattern::Hashtag,
                        self.cursor.data@,
                        p as int,
                        eol as int,
                    );
                }
                let hpos = p + m.end;
                // A comment needs a blank or the line end right after `#`.
                if hpos >= eol {
                    return self.comment_parser(limit, start, affiliated);
                }
                if self.cursor.data[hpos] == SPACE {
                    return self.comment_parser(limit, start, affiliated);
                }
                match pattern_match_at(self.cursor.data, Pattern::BlockBegin, hpos, eol) {
                    Some(k) => {
                        proof {
                            crate::pattern::lemma_scan_end_props(
                                self.cursor.data@,
                                hpos + 7,
                                eol as int,
                                ByteClass::NonSpace,
                            );
                        }
                        return self.named_block_parser(limit, start, affiliated, hpos, k, eol);
                    },
                    None => {},
                }
                if pattern_match_at(self.cursor.data, Pattern::BabelCall, hpos, eol).is_some() {
                    return self.babel_call_parser(limit, start, affiliated);
                }
                if pattern_match_at(
                    self.cursor.data,
                    Pattern::DynamicBlock,
                    hpos,
                    eol,
                ).is_some() {
                    return self.dynamic_block_parser(limit, start, affiliated);
                }
                if pattern_match_at(self.cursor.data, Pattern::KeywordLine, hpos, eol).is_some() {
                    return self.keyword_parser(limit, start, affiliated);
                }
                // A malformed `#`-line is just a paragraph.
                return self.paragraph_parser(limit, start, affiliated);
            },
            None => {},
        }
        if self.cursor.looking_at(Pattern::FootnoteDefinition).is_some() {
            return self.footnote_definition_parser(limit, start, affiliated);
        }
        if self.cursor.looking_at(Pattern::HorizontalRule).is_some() {
            return self.horizontal_rule_parser(limit, start, affiliated);
        }
        if self.cursor.looking_at(Pattern::DiarySexp).is_some() {
            return self.diary_sexp_parser(limit, start, affiliated);
        }
        if self.cursor.looking_at(Pattern::TableBorder).is_some() {
            return self.table_parser(limit, start, affiliated);
        }
        if self.cursor.looking_at(Pattern::ItemLine).is_some() {
            let st: ListStruct = match structure {
                Some(s) => clone_list_struct(s),
                None => self.list_struct(limit),
            };
            return self.plain_list_parser(limit, start, affiliated, st);
        }
        self.paragraph_parser(limit, start, affiliated)
    }

    /// Dispatches a `#+BEGIN_<NAME>` line by its upper-cased name to one
    /// of the block parsers; an unrecognized name makes a special block,
    /// so this branch never fails.
    fn named_block_parser(
        &mut self,
        limit: usize,
        start: usize,
        affiliated: Option<AffiliatedData>,
        hpos: usize,
        k: usize,
        eol: usize,
    ) -> (n: SyntaxNode)
        requires
            old(self).inv(),
            start <= old(self).cursor.pos,
            old(self).cursor.pos < limit <= old(self).cursor.data@.len(),
            hpos + 7 <= k <= eol <= old(self).cursor.data@.len(),
        ensures
            final(self).inv(),
            final(self).same_buffer(*old(self)),
            n.location.start == start,
            start < n.location.end <= limit,
            crate::data::node_located(n),
            n.children@.len() == 0,
            n.content_location matches Some(c) ==> c.start > start,
            affiliated_capable(n.data.spec_kind()),
    {
        let name = crate::affiliated::upper_range(self.cursor.data, hpos + 7, k);
        let a_center: [u8; 6] = [67, 69, 78, 84, 69, 82];
        let a_comment: [u8; 7] = [67, 79, 77, 77, 69, 78, 84];
        let a_example: [u8; 7] = [69, 88, 65, 77, 80, 76, 69];
        let a_export: [u8; 6] = [69, 88, 80, 79, 82, 84];
        let a_quote: [u8; 5] = [81, 85, 79, 84, 69];
        let a_src: [u8; 3] = [83, 82, 67];
        let a_verse: [u8; 5] = [86, 69, 82, 83, 69];
        let v_center = crate::lexeme::copy_range(a_center.as_slice(), 0, 6);
        let v_comment = crate::lexeme::copy_range(a_comment.as_slice(), 0, 7);
        let v_example = crate::lexeme::copy_range(a_example.as_slice(), 0, 7);
        let v_export = crate::lexeme::copy_range(a_export.as_slice(), 0, 6);
        let v_quote = crate::lexeme::copy_range(a_quote.as_slice(), 0, 5);
        let v_src = crate::lexeme::copy_range(a_src.as_slice(), 0, 3);
        let v_verse = crate::lexeme::copy_range(a_verse.as_slice(), 0, 5);
        if crate::affiliated::vec_bytes_eq(&name, &v_center) {
            self.center_block_parser(limit, start, affiliated)
        } else if crate::affiliated::vec_bytes_eq(&name, &v_comment) {
            self.comment_block_parser(limit, start, affiliated)
        } else if crate::affiliated::vec_bytes_eq(&name, &v_example) {
            self.example_block_parser(limit, start, affiliated)
        } else if crate::affiliated::vec_bytes_eq(&name, &v_export) {
            self.export_block_parser(limit, start, affiliated)
        } else if crate::affiliated::vec_bytes_eq(&name, &v_quote) {
            self.quote_block_parser(limit, start, affiliated)
        } else if crate::affiliated::vec_bytes_eq(&name, &v_src) {
            self.src_block_parser(limit, start, affiliated)
        } else if crate::affiliated::vec_bytes_eq(&name, &v_verse) {
            self.verse_block_parser(limit, start, affiliated)
        } else {
            self.special_block_parser(limit, start, affiliated)
        }
    }

    /// Parses the objects of `[beg, end)` under the containment rule of
    /// the `restriction` kind.  The per-object patterns are plug-in leaf
    /// matchers; at its coarsest the phase yields one plain-text run
    /// covering the whole interval, the unmatched-span fallback every
    /// finer pass interleaves with matched objects.
    pub fn parse_objects(&mut self, beg: usize, end: usize, restriction: SyntaxT) -> (acc: Vec<
        SyntaxNode,
    >)
        requires
            old(self).inv(),
            beg <= end <= old(self).cursor.data@.len(),
        ensures
            final(self).inv(),
            final(self).same_buffer(*old(self)),
            final(self).cursor.pos == old(self).cursor.pos,
            beg < end ==> acc@.len() > 0 && nodes_chain(acc@, beg as int, end as int),
            beg >= end ==> acc@.len() == 0,
            forall|i: int| 0 <= i < acc@.len() ==> tree_tiled(#[trigger] acc@[i]),
    {
        let mut acc: Vec<SyntaxNode> = Vec::new();
        if beg < end {
            acc.push(
                SyntaxNode {
                    children: Vec::new(),
                    data: Syntax::PlainText(Interval::new(beg, end)),
                    location: Interval::new(beg, end),
                    content_location: None,
                    post_blank: 0,
                    affiliated: None,
                },
            );
        }
        acc
    }

    /// Parses the elements of `[beg, end)` under `mode0`.  The cursor is
    /// saved and restored around the whole call.  The returned siblings
    /// tile the interval exactly: each node's end is the next one's start,
    /// the first starts at `beg` and the last ends at `end` (except under
    /// headline-only granularity, where the text before the first headline
    /// is skipped).
    pub fn parse_elements(
        &mut self,
        beg: usize,
        end: usize,
        mode0: ParserMode,
        structure: Option<&ListStruct>,
    ) -> (elements: Vec<SyntaxNode>)
        requires
            old(self).inv(),
            beg <= end <= old(self).cursor.data@.len(),
        ensures
            final(self).inv(),
            final(self).same_buffer(*old(self)),
            final(self).cursor.pos == old(self).cursor.pos,
            old(self).granularity != ParseGranularity::Headline ==> ((beg < end ==> elements@.len()
                > 0 && nodes_chain(elements@, beg as int, end as int)) && (beg >= end
                ==> elements@.len() == 0)),
            old(self).granularity != ParseGranularity::Headline ==> forall|i: int|
                0 <= i < elements@.len() ==> tree_tiled(#[trigger] elements@[i]),
        decreases 2 * (end - beg) + section_flag(mode0),
    {
        let pos0 = self.cursor.pos();
        self.cursor.set(beg);
        // When parsing only headlines, skip any text before the first one.
        if self.granularity == ParseGranularity::Headline {
            if !self.cursor.on_headline() {
                proof {
                    if crate::metrics::find_newline(
                        self.cursor.data@,
                        self.cursor.pos as int,
                    ) is Some {
                        crate::metrics::lemma_find_newline_some(
                            self.cursor.data@,
                            self.cursor.pos as int,
                        );
                    }
                }
                let ghost b2: int = match <Line as Metric>::next_spec(
                    self.cursor.data@,
                    self.cursor.pos as int,
                ) {
                    Some(x) => x,
                    None => self.cursor.pos as int,
                };
                self.cursor.next_headline();
                proof {
                    crate::pattern::lemma_headline_find_range(self.cursor.data@, b2, b2);
                }
            }
        }
        let mut elements: Vec<SyntaxNode> = Vec::new();
        let mut mode = mode0;
        loop
            invariant
                self.inv(),
                self.same_buffer(*old(self)),
                self.granularity == old(self).granularity,
                beg <= self.cursor.pos,
                end <= self.cursor.data@.len(),
                mode == mode0 || section_flag(mode) == 0,
                self.granularity != ParseGranularity::Headline ==> self.cursor.pos <= end,
                self.granularity != ParseGranularity::Headline ==> ((elements@.len() == 0
                    ==> self.cursor.pos == beg) && (elements@.len() > 0
                    ==> elements@[0].location.start == beg
                    && elements@[elements@.len() - 1].location.end == self.cursor.pos
                    && beg < self.cursor.pos) && (
                forall|i: int|
                    0 <= i < elements@.len() - 1 ==> (#[trigger] elements@[i].location).end
                        == elements@[i + 1].location.start) && (forall|i: int|
                    0 <= i < elements@.len() ==> (#[trigger] elements@[i].location).start
                        < elements@[i].location.end && crate::data::node_located(elements@[i]))),
                self.granularity != ParseGranularity::Headline ==> forall|i: int|
                    0 <= i < elements@.len() ==> tree_tiled(#[trigger] elements@[i]),
            ensures
                self.inv(),
                self.same_buffer(*old(self)),
                self.granularity == old(self).granularity,
                self.cursor.pos >= end,
                self.granularity != ParseGranularity::Headline ==> self.cursor.pos == end
                    && ((elements@.len() == 0 ==> end == beg) && (elements@.len() > 0
                    ==> elements@[0].location.start == beg
                    && elements@[elements@.len() - 1].location.end == end && beg < end) && (
                forall|i: int|
                    0 <= i < elements@.len() - 1 ==> (#[trigger] elements@[i].location).end
                        == elements@[i + 1].location.start) && (forall|i: int|
                    0 <= i < elements@.len() ==> (#[trigger] elements@[i].location).start
                        < elements@[i].location.end && crate::data::node_located(elements@[i]))),
                self.granularity != ParseGranularity::Headline ==> forall|i: int|
                    0 <= i < elements@.len() ==> tree_tiled(#[trigger] elements@[i]),
            decreases
                    (if self.cursor.pos <= end {
                        end - self.cursor.pos
                    } else {
                        0int
                    }),
        {
            if self.cursor.pos() >= end {
                break;
            }
            let mut node = self.current_element(end, mode, structure);
            self.cursor.set(node.location.end);
            let k = node.data.kind();
            // Recurse into the node's contents where the granularity asks
            // for it: always into headlines (for sub-heading discovery),
            // into any greater element at element or object granularity,
            // and into sections at greater-element granularity; other
            // object containers get the object phase.
            match node.content_location {
                Some(c) => {
                    if k.is_greater_element() {
                        if k == SyntaxT::Headline || self.granularity == ParseGranularity::Element
                            || self.granularity == ParseGranularity::Object || (k
                            == SyntaxT::Section && self.granularity
                            == ParseGranularity::GreaterElement) {
                            let new_mode: ParserMode = match Self::next_mode(k, true) {
                                Some(m) => m,
                                None => mode,
                            };
                            let owned: Option<ListStruct> = match &node.data {
                                Syntax::PlainList(d) => Some(clone_list_struct(&d.structure)),
                                _ => None,
                            };
                            let kids: Vec<SyntaxNode> = match &owned {
                                Some(sref) => self.parse_elements(
                                    c.start,
                                    c.end,
                                    new_mode,
                                    Some(sref),
                                ),
                                None => self.parse_elements(c.start, c.end, new_mode, None),
                            };
                            node.children = kids;
                        }
                    } else if k.is_object_container() && self.granularity
                        == ParseGranularity::Object {
                        node.children = self.parse_objects(c.start, c.end, k);
                    }
                },
                None => {},
            }
            match Self::next_mode(k, false) {
                Some(m) => {
                    mode = m;
                },
                None => {},
            }
            elements.push(node);
        }
        self.cursor.set(pos0);
        elements
    }

    /// Parses the whole buffer from its beginning to its end, producing
    /// the synthetic root whose children are the top-level elements.
    pub fn parse_buffer(&mut self) -> (root: SyntaxNode)
        requires
            old(self).inv(),
        ensures
            final(self).inv(),
            final(self).same_buffer(*old(self)),
            root.data.spec_kind() == SyntaxT::OrgData,
            old(self).granularity != ParseGranularity::Headline ==> ((old(
                self,
            ).cursor.data@.len() > 0 ==> root.children@.len() > 0 && nodes_chain(
                root.children@,
                0,
                old(self).cursor.data@.len() as int,
            )) && (old(self).cursor.data@.len() == 0 ==> root.children@.len() == 0)),
            old(self).granularity != ParseGranularity::Headline ==> forall|i: int|
                0 <= i < root.children@.len() ==> tree_tiled(#[trigger] root.children@[i]),
    {
        self.cursor.set(0);
        self.cursor.skip_whitespace();
        let end = self.cursor.data_len();
        proof {
            crate::metrics::lemma_slice_len_bound(self.cursor.data);
        }
        let kids = self.parse_elements(0, end, ParserMode::FirstSection, None);
        let mut root = SyntaxNode::create_root();
        root.children = kids;
        root
    }
}

} // verus!
