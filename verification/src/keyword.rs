//! Keyword payloads.
//!
//! Keywords follow the syntax `#+KEY: VALUE`.  KEY can contain any
//! non-whitespace character; VALUE can contain any character but a newline.

use vstd::prelude::*;

use crate::affiliated::AffiliatedData;
use crate::data::{Syntax, SyntaxNode, SyntaxT};
use crate::environment::Environment;
use crate::parser::{leaf_node_shape, Parser};

verus! {

/// Fields of a keyword element.
#[derive(Debug, PartialEq)]
pub struct KeywordData {
    /// Keyword's name.
    pub key: Vec<u8>,
    /// Keyword's value.
    pub value: Vec<u8>,
}

impl KeywordData {
    /// An empty keyword record.
    pub fn empty() -> (r: KeywordData)
        ensures
            r.key@.len() == 0,
            r.value@.len() == 0,
    {
        KeywordData { key: Vec::new(), value: Vec::new() }
    }
}

impl<'a, E: Environment> Parser<'a, E> {
    /// Parses a keyword (`#+KEY: VALUE`) at the cursor.
    pub fn keyword_parser(
        &mut self,
        limit: usize,
        start: usize,
        affiliated: Option<AffiliatedData>,
    ) -> (n: SyntaxNode)
        requires
            old(self).inv(),
            start <= old(self).cursor.pos,
            old(self).cursor.pos < limit <= old(self).cursor.data@.len(),
        ensures
            final(self).inv(),
            final(self).same_buffer(*old(self)),
            leaf_node_shape(
                n,
                start as int,
                old(self).cursor.pos as int,
                final(self).cursor.pos as int,
                limit as int,
                SyntaxT::Keyword,
            ),
            (n.location.end as int, n.post_blank as int) == crate::parser::line_and_blanks_end(
                old(self).cursor.data@,
                old(self).cursor.pos as int,
                limit as int,
            ),
    {
        self.parse_simple_element(limit, start, affiliated, Syntax::Keyword(Box::new(KeywordData::empty())))
    }
}

} // verus!
