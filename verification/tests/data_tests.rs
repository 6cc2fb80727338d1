//! Tests of the syntax data model: classification predicates and the
//! object-containment matrix.

use orgparse::data::{Syntax, SyntaxNode, SyntaxT};
use orgparse::parser::{Parser, ParserMode};
use orgparse::environment::DefaultEnvironment;

#[test]
fn can_contain() {
    let bold = SyntaxT::Bold;
    let br = SyntaxT::LineBreak;
    let verse = SyntaxT::VerseBlock;

    fn closure_test(that: SyntaxT, restriction: impl Fn(SyntaxT) -> bool) -> bool {
        restriction(that)
    }

    assert!(!bold.can_contain(SyntaxT::VerseBlock));
    assert!(bold.can_contain(SyntaxT::LineBreak));
    assert!(closure_test(br, |that| bold.can_contain(that)));
    assert!(!closure_test(verse, |that| bold.can_contain(that)));
}

#[test]
fn can_contain_anti_reflexive() {
    // A link never directly contains a link, a radio target never a radio
    // target, yet both belong to the standard object set elsewhere.
    assert!(!SyntaxT::Link.can_contain(SyntaxT::Link));
    assert!(!SyntaxT::RadioTarget.can_contain(SyntaxT::RadioTarget));
    assert!(SyntaxT::Bold.can_contain(SyntaxT::Link));
    assert!(SyntaxT::Bold.can_contain(SyntaxT::RadioTarget));
    assert!(SyntaxT::TableCell.can_contain(SyntaxT::Link));
    assert!(SyntaxT::TableRow.can_contain(SyntaxT::TableCell));
    assert!(!SyntaxT::TableRow.can_contain(SyntaxT::Bold));
    assert!(!SyntaxT::Keyword.can_contain(SyntaxT::FootnoteReference));
    assert!(SyntaxT::Keyword.can_contain(SyntaxT::Bold));
    assert!(!SyntaxT::Headline.can_contain(SyntaxT::LineBreak));
}

#[test]
fn classification_predicates() {
    assert!(SyntaxT::Headline.is_greater_element());
    assert!(SyntaxT::Headline.is_element());
    assert!(!SyntaxT::Headline.is_object());
    assert!(SyntaxT::Paragraph.is_element());
    assert!(!SyntaxT::Paragraph.is_greater_element());
    assert!(SyntaxT::Paragraph.is_object_container());
    assert!(SyntaxT::Bold.is_object());
    assert!(SyntaxT::Bold.is_recursive_object());
    assert!(SyntaxT::Bold.is_object_container());
    assert!(!SyntaxT::Code.is_recursive_object());
    assert!(SyntaxT::PlainText.is_object());
    assert!(SyntaxT::Section.is_container());
    assert!(!SyntaxT::HorizontalRule.is_container());
}

#[test]
fn syntax_kind() {
    assert_eq!(SyntaxT::OrgData, Syntax::OrgData.kind());
    assert_eq!(SyntaxT::Paragraph, Syntax::Paragraph.kind());
    assert_eq!(SyntaxT::Bold, Syntax::Bold.kind());
}

#[test]
fn create_root_and_append() {
    let mut root = SyntaxNode::create_root();
    assert_eq!(SyntaxT::OrgData, root.data.kind());
    assert_eq!(0, root.children.len());
    let child = SyntaxNode::create_root();
    root.append_child(child);
    assert_eq!(1, root.children.len());
}

#[test]
fn next_mode_table() {
    type P<'a> = Parser<'a, DefaultEnvironment>;
    assert_eq!(Some(ParserMode::Section), P::next_mode(SyntaxT::Headline, true));
    assert_eq!(Some(ParserMode::Planning), P::next_mode(SyntaxT::InlineTask, true));
    assert_eq!(Some(ParserMode::Item), P::next_mode(SyntaxT::PlainList, true));
    assert_eq!(Some(ParserMode::NodeProperty), P::next_mode(SyntaxT::PropertyDrawer, true));
    assert_eq!(Some(ParserMode::Planning), P::next_mode(SyntaxT::Section, true));
    assert_eq!(Some(ParserMode::TableRow), P::next_mode(SyntaxT::Table, true));
    assert_eq!(None, P::next_mode(SyntaxT::Paragraph, true));
    assert_eq!(Some(ParserMode::Item), P::next_mode(SyntaxT::Item, false));
    assert_eq!(Some(ParserMode::NodeProperty), P::next_mode(SyntaxT::NodeProperty, false));
    assert_eq!(Some(ParserMode::PropertyDrawer), P::next_mode(SyntaxT::Planning, false));
    assert_eq!(Some(ParserMode::TableRow), P::next_mode(SyntaxT::TableRow, false));
    assert_eq!(None, P::next_mode(SyntaxT::Headline, false));
}
