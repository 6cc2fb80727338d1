//! Planning lines, clock lines and diary sexps.
//!
//! A planning line follows a headline directly — no blank line between —
//! and carries `DEADLINE:`, `SCHEDULED:` or `CLOSED:` entries.

use vstd::prelude::*;

use crate::affiliated::AffiliatedData;
use crate::data::{
    ClockData, ClockStatus, DiarySexpData, PlanningData, Syntax, SyntaxNode, SyntaxT,
    TimestampData,
};
use crate::environment::Environment;
use crate::parser::{leaf_node_shape, Parser};

verus! {

impl<'a, E: Environment> Parser<'a, E> {
    /// Parses a planning line at the cursor.
    pub fn planning_parser(&mut self, limit: usize) -> (n: SyntaxNode)
        requires
            old(self).inv(),
            old(self).cursor.pos < limit <= old(self).cursor.data@.len(),
        ensures
            final(self).inv(),
            final(self).same_buffer(*old(self)),
            leaf_node_shape(
                n,
                old(self).cursor.pos as int,
                old(self).cursor.pos as int,
                final(self).cursor.pos as int,
                limit as int,
                SyntaxT::Planning,
            ),
            (n.location.end as int, n.post_blank as int) == crate::parser::line_and_blanks_end(
                old(self).cursor.data@,
                old(self).cursor.pos as int,
                limit as int,
            ),
    {
        let start = self.cursor.pos();
        self.parse_simple_element(
            limit,
            start,
            None,
            Syntax::Planning(
                Box::new(PlanningData { closed: None, deadline: None, scheduled: None }),
            ),
        )
    }

    /// Parses a clock line at the cursor.
    pub fn clock_line_parser(&mut self, limit: usize) -> (n: SyntaxNode)
        requires
            old(self).inv(),
            old(self).cursor.pos < limit <= old(self).cursor.data@.len(),
        ensures
            final(self).inv(),
            final(self).same_buffer(*old(self)),
            leaf_node_shape(
                n,
                old(self).cursor.pos as int,
                old(self).cursor.pos as int,
                final(self).cursor.pos as int,
                limit as int,
                SyntaxT::Clock,
            ),
            (n.location.end as int, n.post_blank as int) == crate::parser::line_and_blanks_end(
                old(self).cursor.data@,
                old(self).cursor.pos as int,
                limit as int,
            ),
    {
        let start = self.cursor.pos();
        self.parse_simple_element(
            limit,
            start,
            None,
            Syntax::Clock(
                Box::new(
                    ClockData {
                        duration: Vec::new(),
                        status: ClockStatus::Running,
                        value: TimestampData::empty(),
                    },
                ),
            ),
        )
    }

    /// Parses a diary sexp (`%%(`) at the cursor.
    pub fn diary_sexp_parser(
        &mut self,
        limit: usize,
        start: usize,
        affiliated: Option<AffiliatedData>,
    ) -> (n: SyntaxNode)
        requires
            old(self).inv(),
            start <= old(self).cursor.pos,
            old(self).cursor.pos < limit <= old(self).cursor.data@.len(),
        ensures
            final(self).inv(),
            final(self).same_buffer(*old(self)),
            leaf_node_shape(
                n,
                start as int,
                old(self).cursor.pos as int,
                final(self).cursor.pos as int,
                limit as int,
                SyntaxT::DiarySexp,
            ),
            (n.location.end as int, n.post_blank as int) == crate::parser::line_and_blanks_end(
                old(self).cursor.data@,
                old(self).cursor.pos as int,
                limit as int,
            ),
    {
        self.parse_simple_element(
            limit,
            start,
            affiliated,
            Syntax::DiarySexp(Box::new(DiarySexpData { value: Vec::new() })),
        )
    }
}

} // verus!
