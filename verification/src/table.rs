//! Table payloads.

use vstd::prelude::*;

use crate::affiliated::AffiliatedData;
use crate::data::{Syntax, SyntaxNode, SyntaxT};
use crate::environment::Environment;
use crate::parser::{leaf_node_shape, Parser};

verus! {

/// Fields of a table element.
#[derive(Debug, PartialEq)]
pub struct TableData {
    /// Formulas associated to the table, if any.
    pub tblfm: Option<Vec<u8>>,
}

/// Fields of a table row element.
#[derive(Debug, PartialEq)]
pub struct TableRowData {
    pub table_row_type: TableRowType,
}

/// Row's type: a standard row, or a horizontal rule.
#[derive(Clone, Copy, PartialEq, Eq, Structural, Debug)]
pub enum TableRowType {
    Standard,
    Rule,
}

impl<'a, E: Environment> Parser<'a, E> {
    /// Parses a table at the cursor.
    pub fn table_parser(
        &mut self,
        limit: usize,
        start: usize,
        affiliated: Option<AffiliatedData>,
    ) -> (n: SyntaxNode)
        requires
            old(self).inv(),
            start <= old(self).cursor.pos,
            old(self).cursor.pos < limit <= old(self).cursor.data@.len(),
        ensures
            final(self).inv(),
            final(self).same_buffer(*old(self)),
            leaf_node_shape(
                n,
                start as int,
                old(self).cursor.pos as int,
                final(self).cursor.pos as int,
                limit as int,
                SyntaxT::Table,
            ),
            (n.location.end as int, n.post_blank as int) == crate::parser::line_and_blanks_end(
                old(self).cursor.data@,
                old(self).cursor.pos as int,
                limit as int,
            ),
    {
        self.parse_simple_element(limit, start, affiliated, Syntax::Table(Box::new(TableData { tblfm: None })))
    }

    /// Parses a table row at the cursor.
    pub fn table_row_parser(&mut self, limit: usize) -> (n: SyntaxNode)
        requires
            old(self).inv(),
            old(self).cursor.pos < limit <= old(self).cursor.data@.len(),
        ensures
            final(self).inv(),
            final(self).same_buffer(*old(self)),
            leaf_node_shape(
                n,
                old(self).cursor.pos as int,
                old(self).cursor.pos as int,
                final(self).cursor.pos as int,
                limit as int,
                SyntaxT::TableRow,
            ),
            (n.location.end as int, n.post_blank as int) == crate::parser::line_and_blanks_end(
                old(self).cursor.data@,
                old(self).cursor.pos as int,
                limit as int,
            ),
    {
        let start = self.cursor.pos();
        self.parse_simple_element(
            limit,
            start,
            None,
            Syntax::TableRow(Box::new(TableRowData { table_row_type: TableRowType::Standard })),
        )
    }
}

} // verus!
