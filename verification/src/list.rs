//! Plain lists and items.
//!
//! Items are lines starting with a bullet: an asterisk, a hyphen, a plus
//! sign, or a counter followed by `.` or `)`.  A plain list is a set of
//! consecutive items of the same indentation.

use vstd::prelude::*;

use crate::affiliated::AffiliatedData;
use crate::data::{Syntax, SyntaxNode, SyntaxT};
use crate::environment::Environment;
use crate::parser::{leaf_node_shape, Parser};
use crate::pattern::{line_end_of, pattern_match_at, Pattern};

verus! {

/// Intermediate list structure shared by a plain list and its items.
#[derive(Debug, PartialEq)]
pub struct ListStruct {
    /// Starting offsets of the items that belong to the list.
    pub item_starts: Vec<usize>,
}

impl ListStruct {
    /// An empty list structure.
    pub fn empty() -> (r: ListStruct)
        ensures
            r.item_starts@.len() == 0,
    {
        ListStruct { item_starts: Vec::new() }
    }
}

/// Fields of a list item.
#[derive(Debug, PartialEq)]
pub struct ItemData {
    /// Item's bullet.
    pub bullet: Vec<u8>,
    /// Item's checkbox, if any.
    pub checkbox: Option<CheckBox>,
    /// Item's counter; literal counters become ordinals.
    pub counter: usize,
    /// Number of newline characters between the beginning of the item and
    /// the beginning of the contents.
    pub pre_blank: usize,
    /// Uninterpreted item tag, if any.
    pub raw_tag: Option<Vec<u8>>,
    /// Item tag, if any.
    pub tag: Option<Vec<u8>>,
    /// The list structure this item belongs to.
    pub structure: ListStruct,
}

impl ItemData {
    /// An empty item record.
    pub fn empty() -> (r: ItemData)
        ensures
            r.bullet@.len() == 0,
    {
        ItemData {
            bullet: Vec::new(),
            checkbox: None,
            counter: 0,
            pre_blank: 0,
            raw_tag: None,
            tag: None,
            structure: ListStruct::empty(),
        }
    }
}

/// Fields of a plain list element.
#[derive(Debug, PartialEq)]
pub struct PlainListData {
    /// Full list structure.
    pub structure: ListStruct,
    /// List's kind.
    pub type_s: ListKind,
}

/// Kind of a plain list.
#[derive(Clone, Copy, PartialEq, Eq, Structural, Debug)]
pub enum ListKind {
    Descriptive,
    Ordered,
    Unordered,
}

/// State of an item's checkbox.
#[derive(Clone, Copy, PartialEq, Eq, Structural, Debug)]
pub enum CheckBox {
    On,
    Off,
    Trans,
}

/// Copies a list structure.
pub fn clone_list_struct(s: &ListStruct) -> (r: ListStruct)
    ensures
        r.item_starts@ == s.item_starts@,
{
    let mut starts: Vec<usize> = Vec::new();
    let mut i: usize = 0;
    while i < s.item_starts.len()
        invariant
            i <= s.item_starts@.len(),
            starts@ == s.item_starts@.subrange(0, i as int),
        decreases s.item_starts@.len() - i,
    {
        starts.push(s.item_starts[i]);
        proof {
            assert(starts@ =~= s.item_starts@.subrange(0, i + 1));
        }
        i = i + 1;
    }
    proof {
        assert(starts@ =~= s.item_starts@);
    }
    ListStruct { item_starts: starts }
}

impl<'a, E: Environment> Parser<'a, E> {
    /// Parses one list item at the cursor.
    pub fn item_parser(
        &mut self,
        limit: usize,
        structure: Option<&ListStruct>,
        raw_secondary_p: bool,
    ) -> (n: SyntaxNode)
        requires
            old(self).inv(),
            old(self).cursor.pos < limit <= old(self).cursor.data@.len(),
        ensures
            final(self).inv(),
            final(self).same_buffer(*old(self)),
            leaf_node_shape(
                n,
                old(self).cursor.pos as int,
                old(self).cursor.pos as int,
                final(self).cursor.pos as int,
                limit as int,
                SyntaxT::Item,
            ),
            (n.location.end as int, n.post_blank as int) == crate::parser::line_and_blanks_end(
                old(self).cursor.data@,
                old(self).cursor.pos as int,
                limit as int,
            ),
    {
        let start = self.cursor.pos();
        let mut item = ItemData::empty();
        match structure {
            Some(s) => {
                item.structure = clone_list_struct(s);
            },
            None => {},
        }
        self.parse_simple_element(limit, start, None, Syntax::Item(Box::new(item)))
    }

    /// Parses a plain list at the cursor.
    pub fn plain_list_parser(
        &mut self,
        limit: usize,
        start: usize,
        affiliated: Option<AffiliatedData>,
        structure: ListStruct,
    ) -> (n: SyntaxNode)
        requires
            old(self).inv(),
            start <= old(self).cursor.pos,
            old(self).cursor.pos < limit <= old(self).cursor.data@.len(),
        ensures
            final(self).inv(),
            final(self).same_buffer(*old(self)),
            leaf_node_shape(
                n,
                start as int,
                old(self).cursor.pos as int,
                final(self).cursor.pos as int,
                limit as int,
                SyntaxT::PlainList,
            ),
            (n.location.end as int, n.post_blank as int) == crate::parser::line_and_blanks_end(
                old(self).cursor.data@,
                old(self).cursor.pos as int,
                limit as int,
            ),
    {
        self.parse_simple_element(
            limit,
            start,
            affiliated,
            Syntax::PlainList(
                Box::new(PlainListData { structure, type_s: ListKind::Unordered }),
            ),
        )
    }

    /// Returns the structure of the list at the cursor: the starting
    /// offsets of the consecutive item lines from here down to `limit`.
    pub fn list_struct(&self, limit: usize) -> (r: ListStruct)
        requires
            self.inv(),
            self.cursor.pos <= limit <= self.cursor.data@.len(),
        ensures
            forall|i: int|
                0 <= i < r.item_starts@.len() ==> ({
                    let p = #[trigger] r.item_starts@[i] as int;
                    &&& self.cursor.pos <= p < limit
                    &&& crate::pattern::match_item_spec(
                        self.cursor.data@,
                        p,
                        crate::pattern::line_end_at(self.cursor.data@, p),
                    ) is Some
                }),
    {
        let mut starts: Vec<usize> = Vec::new();
        let mut p = self.cursor.pos();
        loop
            invariant
                self.cursor.pos <= p,
                p <= limit <= self.cursor.data@.len(),
                forall|i: int|
                    0 <= i < starts@.len() ==> ({
                        let q = #[trigger] starts@[i] as int;
                        &&& self.cursor.pos <= q < limit
                        &&& crate::pattern::match_item_spec(
                            self.cursor.data@,
                            q,
                            crate::pattern::line_end_at(self.cursor.data@, q),
                        ) is Some
                    }),
            ensures
                forall|i: int|
                    0 <= i < starts@.len() ==> ({
                        let q = #[trigger] starts@[i] as int;
                        &&& self.cursor.pos <= q < limit
                        &&& crate::pattern::match_item_spec(
                            self.cursor.data@,
                            q,
                            crate::pattern::line_end_at(self.cursor.data@, q),
                        ) is Some
                    }),
            decreases limit - p,
        {
            if p >= limit {
                break;
            }
            let e = line_end_of(self.cursor.data, p);
            match pattern_match_at(self.cursor.data, Pattern::ItemLine, p, e) {
                None => {
                    break;
                },
                Some(_m) => {
                    starts.push(p);
                },
            }
            let next: usize = if e < self.cursor.data_len() {
                e + 1
            } else {
                self.cursor.data_len()
            };
            p = if next < limit {
                next
            } else {
                limit
            };
        }
        ListStruct { item_starts: starts }
    }
}

} // verus!
