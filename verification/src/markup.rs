//! Comment, fixed-width and footnote definition payloads.

use vstd::prelude::*;

use crate::affiliated::AffiliatedData;
use crate::data::{Syntax, SyntaxNode, SyntaxT};
use crate::environment::Environment;
use crate::parser::{leaf_node_shape, Parser};

verus! {

/// Fields of a comment element.
#[derive(Debug, PartialEq)]
pub struct CommentData {
    /// Comment text, with the pound signs.
    pub value: Vec<u8>,
}

impl CommentData {
    /// An empty comment record.
    pub fn empty() -> (r: CommentData)
        ensures
            r.value@.len() == 0,
    {
        CommentData { value: Vec::new() }
    }
}

/// Fields of a fixed-width element.
#[derive(Debug, PartialEq)]
pub struct FixedWidthData {
    /// Contents, without the colon prefixes.
    pub value: Vec<u8>,
}

impl FixedWidthData {
    /// An empty fixed-width record.
    pub fn empty() -> (r: FixedWidthData)
        ensures
            r.value@.len() == 0,
    {
        FixedWidthData { value: Vec::new() }
    }
}

/// Fields of a footnote definition element.
#[derive(Debug, PartialEq)]
pub struct FootnoteDefinitionData {
    /// Label used for references.
    pub label: Vec<u8>,
    /// Number of newline characters between the beginning of the footnote
    /// and the beginning of the contents.
    pub pre_blank: u8,
}

impl FootnoteDefinitionData {
    /// A footnote definition record with an empty label.
    pub fn empty() -> (r: FootnoteDefinitionData)
        ensures
            r.label@.len() == 0,
    {
        FootnoteDefinitionData { label: Vec::new(), pre_blank: 0 }
    }
}

impl<'a, E: Environment> Parser<'a, E> {
    /// Parses a comment element at the cursor.
    pub fn comment_parser(
        &mut self,
        limit: usize,
        start: usize,
        affiliated: Option<AffiliatedData>,
    ) -> (n: SyntaxNode)
        requires
            old(self).inv(),
            start <= old(self).cursor.pos,
            old(self).cursor.pos < limit <= old(self).cursor.data@.len(),
        ensures
            final(self).inv(),
            final(self).same_buffer(*old(self)),
            leaf_node_shape(
                n,
                start as int,
                old(self).cursor.pos as int,
                final(self).cursor.pos as int,
                limit as int,
                SyntaxT::Comment,
            ),
            (n.location.end as int, n.post_blank as int) == crate::parser::line_and_blanks_end(
                old(self).cursor.data@,
                old(self).cursor.pos as int,
                limit as int,
            ),
    {
        self.parse_simple_element(limit, start, affiliated, Syntax::Comment(Box::new(CommentData::empty())))
    }

    /// Parses a horizontal rule at the cursor.
    pub fn horizontal_rule_parser(
        &mut self,
        limit: usize,
        start: usize,
        affiliated: Option<AffiliatedData>,
    ) -> (n: SyntaxNode)
        requires
            old(self).inv(),
            start <= old(self).cursor.pos,
            old(self).cursor.pos < limit <= old(self).cursor.data@.len(),
        ensures
            final(self).inv(),
            final(self).same_buffer(*old(self)),
            leaf_node_shape(
                n,
                start as int,
                old(self).cursor.pos as int,
                final(self).cursor.pos as int,
                limit as int,
                SyntaxT::HorizontalRule,
            ),
            (n.location.end as int, n.post_blank as int) == crate::parser::line_and_blanks_end(
                old(self).cursor.data@,
                old(self).cursor.pos as int,
                limit as int,
            ),
    {
        self.parse_simple_element(limit, start, affiliated, Syntax::HorizontalRule)
    }

    /// Parses a footnote definition at the cursor.
    pub fn footnote_definition_parser(
        &mut self,
        limit: usize,
        start: usize,
        affiliated: Option<AffiliatedData>,
    ) -> (n: SyntaxNode)
        requires
            old(self).inv(),
            start <= old(self).cursor.pos,
            old(self).cursor.pos < limit <= old(self).cursor.data@.len(),
        ensures
            final(self).inv(),
            final(self).same_buffer(*old(self)),
            leaf_node_shape(
                n,
                start as int,
                old(self).cursor.pos as int,
                final(self).cursor.pos as int,
                limit as int,
                SyntaxT::FootnoteDefinition,
            ),
            (n.location.end as int, n.post_blank as int) == crate::parser::line_and_blanks_end(
                old(self).cursor.data@,
                old(self).cursor.pos as int,
                limit as int,
            ),
    {
        self.parse_simple_element(limit, start, affiliated, Syntax::FootnoteDefinition(Box::new(FootnoteDefinitionData::empty())))
    }

    /// Parses a fixed-width element at the cursor.
    pub fn fixed_width_parser(
        &mut self,
        limit: usize,
        start: usize,
        affiliated: Option<AffiliatedData>,
    ) -> (n: SyntaxNode)
        requires
            old(self).inv(),
            start <= old(self).cursor.pos,
            old(self).cursor.pos < limit <= old(self).cursor.data@.len(),
        ensures
            final(self).inv(),
            final(self).same_buffer(*old(self)),
            leaf_node_shape(
                n,
                start as int,
                old(self).cursor.pos as int,
                final(self).cursor.pos as int,
                limit as int,
                SyntaxT::FixedWidth,
            ),
            (n.location.end as int, n.post_blank as int) == crate::parser::line_and_blanks_end(
                old(self).cursor.data@,
                old(self).cursor.pos as int,
                limit as int,
            ),
    {
        self.parse_simple_element(limit, start, affiliated, Syntax::FixedWidth(Box::new(FixedWidthData::empty())))
    }
}

} // verus!
