//! Paragraphs and sections.
//!
//! A paragraph is the catch-all element: it swallows lines until a blank
//! line or a headline.  A section covers everything between its start and
//! the next headline; only a headline can contain a section.

use vstd::prelude::*;

use crate::affiliated::AffiliatedData;
use crate::data::{Syntax, SyntaxNode, SyntaxT};
use crate::environment::Environment;
use crate::metrics::Metric;
use crate::parser::{
    absorb_blanks_spec, blank_line_at, leaf_node_shape, next_line_clamped, Parser,
};
use crate::Line;
use crate::pattern::{line_end_of, scan, ByteClass, Pattern};
use crate::Interval;

verus! {

#[via_fn]
proof fn paragraph_text_end_decreases(s: Seq<u8>, p: int, limit: int) {
    if 0 <= p < limit && limit <= s.len() {
        if crate::metrics::find_newline(s, p) is Some {
            crate::metrics::lemma_find_newline_some(s, p);
        }
    }
}

/// Where the text of a paragraph starting at `p` ends: at the first blank
/// line, the first headline, or `limit`.
pub open spec fn paragraph_text_end(s: Seq<u8>, p: int, limit: int) -> int
    decreases limit - p,
        via paragraph_text_end_decreases
{
    if !(0 <= p < limit && limit <= s.len()) {
        p
    } else if blank_line_at(s, p) {
        p
    } else if crate::pattern::match_headline_spec(s, p, crate::pattern::line_end_at(s, p))
        is Some {
        p
    } else {
        paragraph_text_end(s, next_line_clamped(s, p, limit), limit)
    }
}

impl<'a, E: Environment> Parser<'a, E> {
    /// Parses a paragraph at the cursor: lines accumulate until a blank
    /// line, a headline or `limit`; the trailing blank lines are absorbed
    /// as `post_blank`.
    pub fn paragraph_parser(
        &mut self,
        limit: usize,
        start: usize,
        affiliated: Option<AffiliatedData>,
    ) -> (n: SyntaxNode)
        requires
            old(self).inv(),
            start <= old(self).cursor.pos,
            old(self).cursor.pos < limit <= old(self).cursor.data@.len(),
        ensures
            final(self).inv(),
            final(self).same_buffer(*old(self)),
            leaf_node_shape(
                n,
                start as int,
                old(self).cursor.pos as int,
                final(self).cursor.pos as int,
                limit as int,
                SyntaxT::Paragraph,
            ),
            (n.location.end as int, n.post_blank as int) == ({
                let s = old(self).cursor.data@;
                let te = paragraph_text_end(
                    s,
                    next_line_clamped(s, old(self).cursor.pos as int, limit as int),
                    limit as int,
                );
                absorb_blanks_spec(s, te, limit as int)
            }),
    {
        proof {
            if crate::metrics::find_newline(self.cursor.data@, self.cursor.pos as int) is Some {
                crate::metrics::lemma_find_newline_some(
                    self.cursor.data@,
                    self.cursor.pos as int,
                );
            }
        }
        self.cursor.goto_next_line();
        if self.cursor.pos() > limit {
            self.cursor.set(limit);
        }
        let ghost entry = old(self).cursor.pos as int;
        let ghost cur0 = self.cursor.pos as int;
        loop
            invariant
                self.inv(),
                self.same_buffer(*old(self)),
                entry < self.cursor.pos <= limit,
                limit <= self.cursor.data@.len(),
                paragraph_text_end(self.cursor.data@, cur0, limit as int) == paragraph_text_end(
                    self.cursor.data@,
                    self.cursor.pos as int,
                    limit as int,
                ),
            ensures
                self.inv(),
                self.same_buffer(*old(self)),
                entry < self.cursor.pos <= limit,
                self.cursor.pos as int == paragraph_text_end(
                    self.cursor.data@,
                    cur0,
                    limit as int,
                ),
            decreases limit - self.cursor.pos,
        {
            if self.cursor.pos() >= limit {
                break;
            }
            let p = self.cursor.pos();
            let e = line_end_of(self.cursor.data, p);
            let j = scan(self.cursor.data, p, e, ByteClass::SpaceTab);
            if j == e {
                break;
            }
            if self.cursor.looking_at(Pattern::HeadlineShort).is_some() {
                break;
            }
            proof {
                if crate::metrics::find_newline(self.cursor.data@, p as int) is Some {
                    crate::metrics::lemma_find_newline_some(self.cursor.data@, p as int);
                }
            }
            self.cursor.goto_next_line();
            if self.cursor.pos() > limit {
                self.cursor.set(limit);
            }
        }
        let pb = self.absorb_blanks(limit);
        let end = self.cursor.pos();
        SyntaxNode {
            children: Vec::new(),
            data: Syntax::Paragraph,
            location: Interval::new(start, end),
            content_location: None,
            post_blank: pb,
            affiliated,
        }
    }

    /// Parses a section at the cursor: it runs to the next headline, or to
    /// `limit` when none follows, and its content is the whole interval.
    pub fn section_parser(&mut self, limit: usize) -> (n: SyntaxNode)
        requires
            old(self).inv(),
            old(self).cursor.pos < limit <= old(self).cursor.data@.len(),
        ensures
            final(self).inv(),
            final(self).same_buffer(*old(self)),
            leaf_node_shape(
                n,
                old(self).cursor.pos as int,
                old(self).cursor.pos as int,
                final(self).cursor.pos as int,
                limit as int,
                SyntaxT::Section,
            ),
            n.content_location == Some(n.location),
            n.location.end as int == ({
                let s = old(self).cursor.data@;
                let p = old(self).cursor.pos as int;
                let base: int = match <Line as Metric>::next_spec(s, p) {
                    Some(x) => x,
                    None => p,
                };
                match crate::pattern::headline_find_spec(s, base, base) {
                    Some(h) => if p < h && h < limit {
                        h
                    } else {
                        limit as int
                    },
                    None => limit as int,
                }
            }),
    {
        let pos = self.cursor.pos();
        let h = self.cursor.next_headline();
        let end: usize = match h {
            Some(x) => {
                if pos < x && x < limit {
                    x
                } else {
                    limit
                }
            },
            None => limit,
        };
        self.cursor.set(end);
        SyntaxNode {
            children: Vec::new(),
            data: Syntax::Section,
            location: Interval::new(pos, end),
            content_location: Some(Interval::new(pos, end)),
            post_blank: 0,
            affiliated: None,
        }
    }
}

} // verus!
