//! Babel call payloads.

use vstd::prelude::*;

use crate::affiliated::AffiliatedData;
use crate::data::{Syntax, SyntaxNode, SyntaxT};
use crate::environment::Environment;
use crate::parser::{leaf_node_shape, Parser};

verus! {

/// Fields of a `#+CALL:` element.
#[derive(Debug, PartialEq)]
pub struct BabelCallData {
    /// Name of the code block being called.
    pub call: Vec<u8>,
    /// Header arguments applied to the named code block.
    pub inside_header: Option<Vec<u8>>,
    /// Arguments passed to the code block.
    pub arguments: Option<Vec<u8>>,
    /// Header arguments applied to the calling instance.
    pub end_header: Option<Vec<u8>>,
    /// Raw call, as Org syntax.
    pub value: Vec<u8>,
}

impl BabelCallData {
    /// An empty babel call record.
    pub fn empty() -> (r: BabelCallData)
        ensures
            r.call@.len() == 0,
            r.value@.len() == 0,
    {
        BabelCallData {
            call: Vec::new(),
            inside_header: None,
            arguments: None,
            end_header: None,
            value: Vec::new(),
        }
    }
}

impl<'a, E: Environment> Parser<'a, E> {
    /// Parses a babel call element (`#+CALL:`) at the cursor.
    pub fn babel_call_parser(
        &mut self,
        limit: usize,
        start: usize,
        affiliated: Option<AffiliatedData>,
    ) -> (n: SyntaxNode)
        requires
            old(self).inv(),
            start <= old(self).cursor.pos,
            old(self).cursor.pos < limit <= old(self).cursor.data@.len(),
        ensures
            final(self).inv(),
            final(self).same_buffer(*old(self)),
            leaf_node_shape(
                n,
                start as int,
                old(self).cursor.pos as int,
                final(self).cursor.pos as int,
                limit as int,
                SyntaxT::BabelCall,
            ),
            (n.location.end as int, n.post_blank as int) == crate::parser::line_and_blanks_end(
                old(self).cursor.data@,
                old(self).cursor.pos as int,
                limit as int,
            ),
    {
        self.parse_simple_element(limit, start, affiliated, Syntax::BabelCall(Box::new(BabelCallData::empty())))
    }
}

} // verus!
