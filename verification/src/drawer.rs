//! Drawer payloads.

use vstd::prelude::*;

use crate::affiliated::AffiliatedData;
use crate::data::{Syntax, SyntaxNode, SyntaxT};
use crate::environment::Environment;
use crate::parser::{leaf_node_shape, Parser};

verus! {

/// Fields of a drawer element.
#[derive(Debug, PartialEq)]
pub struct DrawerData {
    /// Drawer's name.
    pub drawer_name: Vec<u8>,
}

impl DrawerData {
    /// A drawer record with an empty name.
    pub fn empty() -> (r: DrawerData)
        ensures
            r.drawer_name@.len() == 0,
    {
        DrawerData { drawer_name: Vec::new() }
    }
}

impl<'a, E: Environment> Parser<'a, E> {
    /// Parses a drawer at the cursor.
    pub fn drawer_parser(
        &mut self,
        limit: usize,
        start: usize,
        affiliated: Option<AffiliatedData>,
    ) -> (n: SyntaxNode)
        requires
            old(self).inv(),
            start <= old(self).cursor.pos,
            old(self).cursor.pos < limit <= old(self).cursor.data@.len(),
        ensures
            final(self).inv(),
            final(self).same_buffer(*old(self)),
            leaf_node_shape(
                n,
                start as int,
                old(self).cursor.pos as int,
                final(self).cursor.pos as int,
                limit as int,
                SyntaxT::Drawer,
            ),
            (n.location.end as int, n.post_blank as int) == crate::parser::line_and_blanks_end(
                old(self).cursor.data@,
                old(self).cursor.pos as int,
                limit as int,
            ),
    {
        self.parse_simple_element(limit, start, affiliated, Syntax::Drawer(Box::new(DrawerData::empty())))
    }
}

} // verus!
