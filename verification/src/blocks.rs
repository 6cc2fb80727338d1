//! Block element payloads: center, comment, example, export, quote, source,
//! verse, special and dynamic blocks.

use vstd::prelude::*;

use crate::data::LineNumberingMode;
use crate::affiliated::AffiliatedData;
use crate::data::{Syntax, SyntaxNode, SyntaxT};
use crate::environment::Environment;
use crate::parser::{leaf_node_shape, Parser};


verus! {

/// Fields of a dynamic block (`#+BEGIN: NAME ARGS`).
#[derive(Debug, PartialEq)]
pub struct DynamicBlockData {
    /// Block's parameters.
    pub arguments: Vec<u8>,
    /// Block's name.
    pub block_name: Vec<u8>,
    /// Drawer's name.
    pub drawer_name: Vec<u8>,
}

impl DynamicBlockData {
    /// An empty dynamic block record.
    pub fn empty() -> (r: DynamicBlockData)
        ensures
            r.block_name@.len() == 0,
    {
        DynamicBlockData {
            arguments: Vec::new(),
            block_name: Vec::new(),
            drawer_name: Vec::new(),
        }
    }
}

/// Fields of a comment block.
#[derive(Debug, PartialEq)]
pub struct CommentBlockData {
    /// Comments, without the block's boundaries.
    pub value: Vec<u8>,
}

/// Fields of an example block.
#[derive(Debug, PartialEq)]
pub struct ExampleBlockData {
    /// Format string used to write labels in the current block, if
    /// different from the default.
    pub label_fmt: Option<Vec<u8>>,
    /// Language of the code in the block, if specified.
    pub language: Option<Vec<u8>>,
    /// How code lines should be numbered, if at all.
    pub number_lines: Option<LineNumberingMode>,
    /// Block's options located on the block's opening line.
    pub options: Vec<u8>,
    /// Optional header arguments.
    pub parameters: Option<Vec<u8>>,
    /// Whether indentation within the block must not be modified upon
    /// export.
    pub preserve_indent: bool,
    /// Whether labels should be kept visible upon export.
    pub retain_labels: bool,
    /// Optional switches for code block export.
    pub switches: Option<Vec<u8>>,
    /// Whether links to labels should display the label instead of the line
    /// number.
    pub use_labels: bool,
    /// Contents.
    pub value: Vec<u8>,
}

/// Fields of an export block.
#[derive(Debug, PartialEq)]
pub struct ExportBlockData {
    /// Related back-end's name.
    pub type_s: Vec<u8>,
    /// Contents.
    pub value: Vec<u8>,
}

/// Fields of a special block.
#[derive(Debug, PartialEq)]
pub struct SpecialBlockData {
    /// Block's name.
    pub type_s: Vec<u8>,
    /// Raw contents in the block.
    pub raw_value: Vec<u8>,
}

impl SpecialBlockData {
    /// A special block record with the given name.
    pub fn named(type_s: Vec<u8>) -> (r: SpecialBlockData)
        ensures
            r.type_s@ == type_s@,
    {
        SpecialBlockData { type_s, raw_value: Vec::new() }
    }
}

/// Fields of a source block.
#[derive(Debug, PartialEq)]
pub struct SrcBlockData {
    /// Format string used to write labels in the current block, if
    /// different from the default.
    pub label_fmt: Option<Vec<u8>>,
    /// Language of the code in the block, if specified.
    pub language: Option<Vec<u8>>,
    /// How code lines should be numbered, if at all.
    pub number_lines: Option<LineNumberingMode>,
    /// Optional header arguments.
    pub parameters: Option<Vec<u8>>,
    /// Whether indentation within the block must not be modified upon
    /// export.
    pub preserve_indent: bool,
    /// Whether labels should be kept visible upon export.
    pub retain_labels: bool,
    /// Optional switches for code block export.
    pub switches: Option<Vec<u8>>,
    /// Whether links to labels should display the label instead of the line
    /// number.
    pub use_labels: bool,
    /// Source code.
    pub value: Vec<u8>,
}

impl<'a, E: Environment> Parser<'a, E> {
    /// Parses a center block at the cursor.
    pub fn center_block_parser(
        &mut self,
        limit: usize,
        start: usize,
        affiliated: Option<AffiliatedData>,
    ) -> (n: SyntaxNode)
        requires
            old(self).inv(),
            start <= old(self).cursor.pos,
            old(self).cursor.pos < limit <= old(self).cursor.data@.len(),
        ensures
            final(self).inv(),
            final(self).same_buffer(*old(self)),
            leaf_node_shape(
                n,
                start as int,
                old(self).cursor.pos as int,
                final(self).cursor.pos as int,
                limit as int,
                SyntaxT::CenterBlock,
            ),
            (n.location.end as int, n.post_blank as int) == crate::parser::line_and_blanks_end(
                old(self).cursor.data@,
                old(self).cursor.pos as int,
                limit as int,
            ),
    {
        self.parse_simple_element(limit, start, affiliated, Syntax::CenterBlock)
    }

    /// Parses a comment block at the cursor.
    pub fn comment_block_parser(
        &mut self,
        limit: usize,
        start: usize,
        affiliated: Option<AffiliatedData>,
    ) -> (n: SyntaxNode)
        requires
            old(self).inv(),
            start <= old(self).cursor.pos,
            old(self).cursor.pos < limit <= old(self).cursor.data@.len(),
        ensures
            final(self).inv(),
            final(self).same_buffer(*old(self)),
            leaf_node_shape(
                n,
                start as int,
                old(self).cursor.pos as int,
                final(self).cursor.pos as int,
                limit as int,
                SyntaxT::CommentBlock,
            ),
            (n.location.end as int, n.post_blank as int) == crate::parser::line_and_blanks_end(
                old(self).cursor.data@,
                old(self).cursor.pos as int,
                limit as int,
            ),
    {
        self.parse_simple_element(limit, start, affiliated, Syntax::CommentBlock(Box::new(CommentBlockData { value: Vec::new() })))
    }

    /// Parses an example block at the cursor.
    pub fn example_block_parser(
        &mut self,
        limit: usize,
        start: usize,
        affiliated: Option<AffiliatedData>,
    ) -> (n: SyntaxNode)
        requires
            old(self).inv(),
            start <= old(self).cursor.pos,
            old(self).cursor.pos < limit <= old(self).cursor.data@.len(),
        ensures
            final(self).inv(),
            final(self).same_buffer(*old(self)),
            leaf_node_shape(
                n,
                start as int,
                old(self).cursor.pos as int,
                final(self).cursor.pos as int,
                limit as int,
                SyntaxT::ExampleBlock,
            ),
            (n.location.end as int, n.post_blank as int) == crate::parser::line_and_blanks_end(
                old(self).cursor.data@,
                old(self).cursor.pos as int,
                limit as int,
            ),
    {
        self.parse_simple_element(limit, start, affiliated, Syntax::ExampleBlock(
            Box::new(
                ExampleBlockData {
                    label_fmt: None,
                    language: None,
                    number_lines: None,
                    options: Vec::new(),
                    parameters: None,
                    preserve_indent: false,
                    retain_labels: false,
                    switches: None,
                    use_labels: false,
                    value: Vec::new(),
                },
            ),
        ))
    }

    /// Parses an export block at the cursor.
    pub fn export_block_parser(
        &mut self,
        limit: usize,
        start: usize,
        affiliated: Option<AffiliatedData>,
    ) -> (n: SyntaxNode)
        requires
            old(self).inv(),
            start <= old(self).cursor.pos,
            old(self).cursor.pos < limit <= old(self).cursor.data@.len(),
        ensures
            final(self).inv(),
            final(self).same_buffer(*old(self)),
            leaf_node_shape(
                n,
                start as int,
                old(self).cursor.pos as int,
                final(self).cursor.pos as int,
                limit as int,
                SyntaxT::ExportBlock,
            ),
            (n.location.end as int, n.post_blank as int) == crate::parser::line_and_blanks_end(
                old(self).cursor.data@,
                old(self).cursor.pos as int,
                limit as int,
            ),
    {
        self.parse_simple_element(limit, start, affiliated, Syntax::ExportBlock(Box::new(ExportBlockData { type_s: Vec::new(), value: Vec::new() })))
    }

    /// Parses a quote block at the cursor.
    pub fn quote_block_parser(
        &mut self,
        limit: usize,
        start: usize,
        affiliated: Option<AffiliatedData>,
    ) -> (n: SyntaxNode)
        requires
            old(self).inv(),
            start <= old(self).cursor.pos,
            old(self).cursor.pos < limit <= old(self).cursor.data@.len(),
        ensures
            final(self).inv(),
            final(self).same_buffer(*old(self)),
            leaf_node_shape(
                n,
                start as int,
                old(self).cursor.pos as int,
                final(self).cursor.pos as int,
                limit as int,
                SyntaxT::QuoteBlock,
            ),
            (n.location.end as int, n.post_blank as int) == crate::parser::line_and_blanks_end(
                old(self).cursor.data@,
                old(self).cursor.pos as int,
                limit as int,
            ),
    {
        self.parse_simple_element(limit, start, affiliated, Syntax::QuoteBlock)
    }

    /// Parses a source block at the cursor.
    pub fn src_block_parser(
        &mut self,
        limit: usize,
        start: usize,
        affiliated: Option<AffiliatedData>,
    ) -> (n: SyntaxNode)
        requires
            old(self).inv(),
            start <= old(self).cursor.pos,
            old(self).cursor.pos < limit <= old(self).cursor.data@.len(),
        ensures
            final(self).inv(),
            final(self).same_buffer(*old(self)),
            leaf_node_shape(
                n,
                start as int,
                old(self).cursor.pos as int,
                final(self).cursor.pos as int,
                limit as int,
                SyntaxT::SrcBlock,
            ),
            (n.location.end as int, n.post_blank as int) == crate::parser::line_and_blanks_end(
                old(self).cursor.data@,
                old(self).cursor.pos as int,
                limit as int,
            ),
    {
        self.parse_simple_element(limit, start, affiliated, Syntax::SrcBlock(
            Box::new(
                SrcBlockData {
                    label_fmt: None,
                    language: None,
                    number_lines: None,
                    parameters: None,
                    preserve_indent: false,
                    retain_labels: false,
                    switches: None,
                    use_labels: false,
                    value: Vec::new(),
                },
            ),
        ))
    }

    /// Parses a verse block at the cursor.
    pub fn verse_block_parser(
        &mut self,
        limit: usize,
        start: usize,
        affiliated: Option<AffiliatedData>,
    ) -> (n: SyntaxNode)
        requires
            old(self).inv(),
            start <= old(self).cursor.pos,
            old(self).cursor.pos < limit <= old(self).cursor.data@.len(),
        ensures
            final(self).inv(),
            final(self).same_buffer(*old(self)),
            leaf_node_shape(
                n,
                start as int,
                old(self).cursor.pos as int,
                final(self).cursor.pos as int,
                limit as int,
                SyntaxT::VerseBlock,
            ),
            (n.location.end as int, n.post_blank as int) == crate::parser::line_and_blanks_end(
                old(self).cursor.data@,
                old(self).cursor.pos as int,
                limit as int,
            ),
    {
        self.parse_simple_element(limit, start, affiliated, Syntax::VerseBlock)
    }

    /// Parses a special block at the cursor.
    pub fn special_block_parser(
        &mut self,
        limit: usize,
        start: usize,
        affiliated: Option<AffiliatedData>,
    ) -> (n: SyntaxNode)
        requires
            old(self).inv(),
            start <= old(self).cursor.pos,
            old(self).cursor.pos < limit <= old(self).cursor.data@.len(),
        ensures
            final(self).inv(),
            final(self).same_buffer(*old(self)),
            leaf_node_shape(
                n,
                start as int,
                old(self).cursor.pos as int,
                final(self).cursor.pos as int,
                limit as int,
                SyntaxT::SpecialBlock,
            ),
            (n.location.end as int, n.post_blank as int) == crate::parser::line_and_blanks_end(
                old(self).cursor.data@,
                old(self).cursor.pos as int,
                limit as int,
            ),
    {
        self.parse_simple_element(limit, start, affiliated, Syntax::SpecialBlock(Box::new(SpecialBlockData::named(Vec::new()))))
    }

    /// Parses a dynamic block at the cursor.
    pub fn dynamic_block_parser(
        &mut self,
        limit: usize,
        start: usize,
        affiliated: Option<AffiliatedData>,
    ) -> (n: SyntaxNode)
        requires
            old(self).inv(),
            start <= old(self).cursor.pos,
            old(self).cursor.pos < limit <= old(self).cursor.data@.len(),
        ensures
            final(self).inv(),
            final(self).same_buffer(*old(self)),
            leaf_node_shape(
                n,
                start as int,
                old(self).cursor.pos as int,
                final(self).cursor.pos as int,
                limit as int,
                SyntaxT::DynamicBlock,
            ),
            (n.location.end as int, n.post_blank as int) == crate::parser::line_and_blanks_end(
                old(self).cursor.data@,
                old(self).cursor.pos as int,
                limit as int,
            ),
    {
        self.parse_simple_element(limit, start, affiliated, Syntax::DynamicBlock(Box::new(DynamicBlockData::empty())))
    }
}

} // verus!
