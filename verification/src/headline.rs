//! Headline, inline task and node property payloads.
//!
//! A headline is `STARS KEYWORD PRIORITY TITLE TAGS`, where STARS — one or
//! more asterisks followed by a whitespace character at column 0 — is the
//! sole compulsory part and its count defines the headline's level.

use vstd::prelude::*;

use crate::data::{Syntax, SyntaxNode, SyntaxT, TimestampData};
use crate::environment::Environment;
use crate::parser::{leaf_node_shape, next_line_clamped, Parser};
use crate::pattern::{headline_match_at, line_end_of, scan, ByteClass, Pattern};
use crate::Interval;

verus! {

#[via_fn]
proof fn headline_end_scan_decreases(s: Seq<u8>, cur: int, limit: int, level: int) {
    if 0 <= cur < limit && limit <= s.len() {
        if crate::metrics::find_newline(s, cur) is Some {
            crate::metrics::lemma_find_newline_some(s, cur);
        }
    }
}

/// Where a headline of the given level ends: at the next headline line of
/// the same or a shallower level, or at `limit`.
pub open spec fn headline_end_scan(s: Seq<u8>, cur: int, limit: int, level: int) -> int
    decreases limit - cur,
        via headline_end_scan_decreases
{
    if !(0 <= cur < limit && limit <= s.len()) {
        limit
    } else {
        let le = crate::pattern::line_end_at(s, cur);
        let st = crate::pattern::scan_end(s, cur, le, ByteClass::Star);
        if st > cur && st - cur <= level && crate::pattern::match_headline_spec(s, cur, le)
            is Some {
            cur
        } else {
            headline_end_scan(s, next_line_clamped(s, cur, limit), limit, level)
        }
    }
}

/// The level a headline line at `p` declares: the width of its leading
/// star run, at least one.
pub open spec fn headline_level_at(s: Seq<u8>, p: int) -> int {
    let stars = crate::pattern::scan_end(
        s,
        p,
        crate::pattern::line_end_at(s, p),
        ByteClass::Star,
    );
    if stars > p {
        stars - p
    } else {
        1
    }
}

/// Fields of a headline element.
#[derive(Debug, PartialEq)]
pub struct HeadlineData {
    /// Whether the headline has an archive tag.
    pub archivedp: bool,
    /// Headline's CLOSED reference, if any.
    pub closed: Option<TimestampData>,
    /// Whether the headline has a comment keyword.
    pub commentedp: bool,
    /// Headline's DEADLINE reference, if any.
    pub deadline: Option<TimestampData>,
    /// Whether the headline is a footnote section.
    pub footnote_section_p: bool,
    /// Reduced level of the headline.
    pub level: usize,
    /// Number of blank lines between the headline and the first non-blank
    /// line of its contents.
    pub pre_blank: usize,
    /// Headline's priority, as a character code.
    pub priority: usize,
    /// Whether the headline contains a quote keyword.
    pub quotedp: bool,
    /// Raw headline text, without the stars and the tags.
    pub raw_value: Vec<u8>,
    /// Headline's SCHEDULED reference, if any.
    pub scheduled: Option<TimestampData>,
    /// Headline's tags, without the archive tag.
    pub tags: Vec<Tag>,
    /// Headline's title, without the stars and the tags.
    pub title: Vec<u8>,
    /// Headline's TODO keyword, if any.
    pub todo_keyword: Option<TodoKeyword>,
}

impl HeadlineData {
    /// A headline record of the given level, all other fields empty.
    pub fn at_level(level: usize) -> (r: HeadlineData)
        ensures
            r.level == level,
    {
        HeadlineData {
            archivedp: false,
            closed: None,
            commentedp: false,
            deadline: None,
            footnote_section_p: false,
            level,
            pre_blank: 0,
            priority: 0,
            quotedp: false,
            raw_value: Vec::new(),
            scheduled: None,
            tags: Vec::new(),
            title: Vec::new(),
            todo_keyword: None,
        }
    }
}

/// Fields of an inline task element.
#[derive(Debug, PartialEq)]
pub struct InlineTaskData {
    /// Inline task's CLOSED reference, if any.
    pub closed: Option<TimestampData>,
    /// Inline task's DEADLINE reference, if any.
    pub deadline: Option<TimestampData>,
    /// Reduced level of the inline task.
    pub level: usize,
    /// Inline task's priority, as a character code.
    pub priority: usize,
    /// Raw inline task text, without the stars and the tags.
    pub raw_value: Vec<u8>,
    /// Inline task's SCHEDULED reference, if any.
    pub scheduled: Option<TimestampData>,
    /// Inline task's tags.
    pub tags: Vec<Tag>,
    /// Inline task's title, without the stars and the tags.
    pub title: Vec<u8>,
    /// Inline task's TODO keyword, if any.
    pub todo_keyword: Option<TodoKeyword>,
}

impl InlineTaskData {
    /// An inline task record of the given level, all other fields empty.
    pub fn at_level(level: usize) -> (r: InlineTaskData)
        ensures
            r.level == level,
    {
        InlineTaskData {
            closed: None,
            deadline: None,
            level,
            priority: 0,
            raw_value: Vec::new(),
            scheduled: None,
            tags: Vec::new(),
            title: Vec::new(),
            todo_keyword: None,
        }
    }
}

/// Fields of a node property line inside a property drawer.
#[derive(Debug, PartialEq)]
pub struct NodePropertyData {
    pub key: Vec<u8>,
    pub value: Vec<u8>,
}

impl NodePropertyData {
    /// An empty node property record.
    pub fn empty() -> (r: NodePropertyData)
        ensures
            r.key@.len() == 0,
            r.value@.len() == 0,
    {
        NodePropertyData { key: Vec::new(), value: Vec::new() }
    }
}

/// A headline tag.
#[derive(Debug, PartialEq)]
pub struct Tag(pub Vec<u8>);

/// Kind of a TODO keyword on a headline.
#[derive(Clone, Copy, PartialEq, Eq, Structural, Debug)]
pub enum TodoKeyword {
    TODO,
    DONE,
}

impl<'a, E: Environment> Parser<'a, E> {
    /// Parses a headline at the cursor.  The node runs to the next
    /// headline of the same or a shallower level (or to `limit`), and its
    /// content — everything after the headline's own line — is recursed
    /// into for sub-heading discovery.
    pub fn headline_parser(&mut self, limit: usize) -> (n: SyntaxNode)
        requires
            old(self).inv(),
            old(self).cursor.pos < limit <= old(self).cursor.data@.len(),
        ensures
            final(self).inv(),
            final(self).same_buffer(*old(self)),
            leaf_node_shape(
                n,
                old(self).cursor.pos as int,
                old(self).cursor.pos as int,
                final(self).cursor.pos as int,
                limit as int,
                SyntaxT::Headline,
            ),
            ({
                let s = old(self).cursor.data@;
                let p = old(self).cursor.pos as int;
                let lvl = headline_level_at(s, p);
                let fc = next_line_clamped(s, p, limit as int);
                let end = headline_end_scan(s, fc, limit as int, lvl);
                &&& n.location.end as int == end
                &&& (n.data matches Syntax::Headline(d) && d.level as int == lvl)
                &&& n.content_location == (if fc < end {
                    Some(Interval { start: fc as usize, end: end as usize })
                } else {
                    None
                })
            }),
    {
        let pos = self.cursor.pos();
        let e = line_end_of(self.cursor.data, pos);
        let stars = scan(self.cursor.data, pos, e, ByteClass::Star);
        let level: usize = if stars > pos {
            stars - pos
        } else {
            1
        };
        // The line after the headline's own line, clamped to `limit`.
        let first_content: usize = if e < self.cursor.data_len() {
            if e + 1 < limit {
                e + 1
            } else {
                limit
            }
        } else {
            limit
        };
        let mut cur: usize = first_content;
        let ghost s0 = self.cursor.data@;
        loop
            invariant
                self.inv(),
                self.cursor.data@ == s0,
                pos < cur <= limit,
                limit <= self.cursor.data@.len(),
                headline_end_scan(s0, first_content as int, limit as int, level as int)
                    == headline_end_scan(s0, cur as int, limit as int, level as int),
            ensures
                self.inv(),
                self.cursor.data@ == s0,
                pos < cur <= limit,
                cur as int == headline_end_scan(
                    s0,
                    first_content as int,
                    limit as int,
                    level as int,
                ),
            decreases limit - cur,
        {
            if cur >= limit {
                break;
            }
            let le = line_end_of(self.cursor.data, cur);
            let st = scan(self.cursor.data, cur, le, ByteClass::Star);
            if st > cur && st - cur <= level && headline_match_at(
                self.cursor.data,
                cur,
                le,
            ).is_some() {
                break;
            }
            let next: usize = if le < self.cursor.data_len() {
                le + 1
            } else {
                self.cursor.data_len()
            };
            cur = if next < limit {
                next
            } else {
                limit
            };
            proof {
                crate::pattern::lemma_line_end_at(self.cursor.data@, 0);
            }
        }
        let end = cur;
        self.cursor.set(end);
        let content: Option<Interval> = if first_content < end {
            Some(Interval::new(first_content, end))
        } else {
            None
        };
        SyntaxNode {
            children: Vec::new(),
            data: Syntax::Headline(Box::new(HeadlineData::at_level(level))),
            location: Interval::new(pos, end),
            content_location: content,
            post_blank: 0,
            affiliated: None,
        }
    }

    /// Parses an inline task at the cursor.
    pub fn inlinetask_parser(&mut self, limit: usize, raw_secondary_p: bool) -> (n: SyntaxNode)
        requires
            old(self).inv(),
            old(self).cursor.pos < limit <= old(self).cursor.data@.len(),
        ensures
            final(self).inv(),
            final(self).same_buffer(*old(self)),
            leaf_node_shape(
                n,
                old(self).cursor.pos as int,
                old(self).cursor.pos as int,
                final(self).cursor.pos as int,
                limit as int,
                SyntaxT::InlineTask,
            ),
            (n.location.end as int, n.post_blank as int) == crate::parser::line_and_blanks_end(
                old(self).cursor.data@,
                old(self).cursor.pos as int,
                limit as int,
            ),
    {
        let start = self.cursor.pos();
        let e = line_end_of(self.cursor.data, start);
        let stars = scan(self.cursor.data, start, e, ByteClass::Star);
        let level: usize = if stars > start {
            stars - start
        } else {
            1
        };
        self.parse_simple_element(
            limit,
            start,
            None,
            Syntax::InlineTask(Box::new(InlineTaskData::at_level(level))),
        )
    }

    /// Parses a property drawer at the cursor: the whole matched drawer is
    /// consumed, through its `:END:` line.
    pub fn property_drawer_parser(&mut self, limit: usize) -> (n: SyntaxNode)
        requires
            old(self).inv(),
            old(self).cursor.pos < limit <= old(self).cursor.data@.len(),
        ensures
            final(self).inv(),
            final(self).same_buffer(*old(self)),
            leaf_node_shape(
                n,
                old(self).cursor.pos as int,
                old(self).cursor.pos as int,
                final(self).cursor.pos as int,
                limit as int,
                SyntaxT::PropertyDrawer,
            ),
    {
        let start = self.cursor.pos();
        match self.cursor.looking_at(Pattern::PropertyDrawer) {
            Some(iv) => {
                proof {
                    crate::pattern::lemma_pattern_match_range(
                        Pattern::PropertyDrawer,
                        self.cursor.data@,
                        self.cursor.pos as int,
                        self.cursor.data@.len() as int,
                    );
                }
                let tgt = start + iv.end;
                if tgt < limit && tgt >= start {
                    self.cursor.set(tgt);
                }
            },
            None => {},
        }
        self.parse_simple_element(limit, start, None, Syntax::PropertyDrawer)
    }

    /// Parses one node property line inside a property drawer.
    pub fn node_property_parser(&mut self, limit: usize) -> (n: SyntaxNode)
        requires
            old(self).inv(),
            old(self).cursor.pos < limit <= old(self).cursor.data@.len(),
        ensures
            final(self).inv(),
            final(self).same_buffer(*old(self)),
            leaf_node_shape(
                n,
                old(self).cursor.pos as int,
                old(self).cursor.pos as int,
                final(self).cursor.pos as int,
                limit as int,
                SyntaxT::NodeProperty,
            ),
            (n.location.end as int, n.post_blank as int) == crate::parser::line_and_blanks_end(
                old(self).cursor.data@,
                old(self).cursor.pos as int,
                limit as int,
            ),
    {
        let start = self.cursor.pos();
        self.parse_simple_element(
            limit,
            start,
            None,
            Syntax::NodeProperty(Box::new(NodePropertyData::empty())),
        )
    }
}

} // verus!
