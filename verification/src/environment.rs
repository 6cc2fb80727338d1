//! The environment: configuration that leaf parsers consult.
//!
//! The environment is an injected collaborator: callers may supply their
//! own TODO keywords and list conventions.  Nothing architectural depends
//! on it, so its methods carry no contracts.

use vstd::prelude::*;

verus! {

/// Which terminators an ordered list item may use.
#[derive(Clone, Copy, PartialEq, Eq, Structural, Debug)]
pub enum OrderedItemTerminator {
    Period,
    Paren,
    Both,
}

/// Read-only configuration consulted by leaf parsers.
pub trait Environment {
    /// The recognized TODO keywords.
    fn todo_keywords(&self) -> Vec<Vec<u8>>;

    /// The recognized DONE keywords.
    fn done_keywords(&self) -> Vec<Vec<u8>>;

    /// Whether alphabetic ordered-list counters are allowed.
    fn is_list_alpha_allowed(&self) -> bool;

    /// Which terminator ordered list items use.
    fn ordered_item_terminator(&self) -> OrderedItemTerminator;
}

/// The stock configuration: `TODO` and `DONE`, numeric counters, either
/// terminator.
pub struct DefaultEnvironment;

impl Environment for DefaultEnvironment {
    fn todo_keywords(&self) -> Vec<Vec<u8>> {
        let mut kws: Vec<Vec<u8>> = Vec::new();
        let mut todo: Vec<u8> = Vec::new();
        todo.push(84);
        todo.push(79);
        todo.push(68);
        todo.push(79);
        kws.push(todo);
        kws
    }

    fn done_keywords(&self) -> Vec<Vec<u8>> {
        let mut kws: Vec<Vec<u8>> = Vec::new();
        let mut done: Vec<u8> = Vec::new();
        done.push(68);
        done.push(79);
        done.push(78);
        done.push(69);
        kws.push(done);
        kws
    }

    fn is_list_alpha_allowed(&self) -> bool {
        false
    }

    fn ordered_item_terminator(&self) -> OrderedItemTerminator {
        OrderedItemTerminator::Both
    }
}

} // verus!
