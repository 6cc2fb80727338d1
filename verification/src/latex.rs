//! LaTeX environment and fragment payloads.

use vstd::prelude::*;

use crate::affiliated::AffiliatedData;
use crate::data::{Syntax, SyntaxNode, SyntaxT};
use crate::environment::Environment;
use crate::parser::{leaf_node_shape, Parser};

verus! {

/// Fields of a LaTeX environment element.
#[derive(Debug, PartialEq)]
pub struct LatexEnvironmentData {
    /// LaTeX code.
    pub value: Vec<u8>,
}

impl LatexEnvironmentData {
    /// An empty LaTeX environment record.
    pub fn empty() -> (r: LatexEnvironmentData)
        ensures
            r.value@.len() == 0,
    {
        LatexEnvironmentData { value: Vec::new() }
    }
}

/// Fields of an inline LaTeX fragment object.
#[derive(Debug, PartialEq)]
pub struct LatexFragmentData {
    /// LaTeX code.
    pub value: Vec<u8>,
}

impl<'a, E: Environment> Parser<'a, E> {
    /// Parses a LaTeX environment at the cursor.
    pub fn latex_environment_parser(
        &mut self,
        limit: usize,
        start: usize,
        affiliated: Option<AffiliatedData>,
    ) -> (n: SyntaxNode)
        requires
            old(self).inv(),
            start <= old(self).cursor.pos,
            old(self).cursor.pos < limit <= old(self).cursor.data@.len(),
        ensures
            final(self).inv(),
            final(self).same_buffer(*old(self)),
            leaf_node_shape(
                n,
                start as int,
                old(self).cursor.pos as int,
                final(self).cursor.pos as int,
                limit as int,
                SyntaxT::LatexEnvironment,
            ),
            (n.location.end as int, n.post_blank as int) == crate::parser::line_and_blanks_end(
                old(self).cursor.data@,
                old(self).cursor.pos as int,
                limit as int,
            ),
    {
        self.parse_simple_element(limit, start, affiliated, Syntax::LatexEnvironment(Box::new(LatexEnvironmentData::empty())))
    }
}

} // verus!
