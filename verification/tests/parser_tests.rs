//! Tests of the element-phase engine and the grammar matchers.

use orgparse::data::{Syntax, SyntaxT};
use orgparse::environment::DefaultEnvironment;
use orgparse::parser::{ParseGranularity, Parser};
use orgparse::pattern::{pattern_match_at, Pattern};

#[test]
fn pattern_matchers() {
    let hr = b"-----";
    assert_eq!(Some(5), pattern_match_at(hr, Pattern::HorizontalRule, 0, hr.len()));
    let hr4 = b"----";
    assert_eq!(None, pattern_match_at(hr4, Pattern::HorizontalRule, 0, hr4.len()));
    let drawer = b":LOGBOOK:";
    assert_eq!(Some(9), pattern_match_at(drawer, Pattern::Drawer, 0, drawer.len()));
    let fw = b": verse";
    assert_eq!(Some(2), pattern_match_at(fw, Pattern::FixedWidth, 0, fw.len()));
    let item = b"- item";
    assert_eq!(Some(2), pattern_match_at(item, Pattern::ItemLine, 0, item.len()));
    let ordered = b"12. item";
    assert_eq!(Some(4), pattern_match_at(ordered, Pattern::ItemLine, 0, ordered.len()));
    let word = b"plain";
    assert_eq!(None, pattern_match_at(word, Pattern::ItemLine, 0, word.len()));
    let clock = b"  CLOCK: [2020]";
    assert_eq!(Some(8), pattern_match_at(clock, Pattern::ClockLine, 0, clock.len()));
    let planning = b"DEADLINE: <2020>";
    assert_eq!(Some(9), pattern_match_at(planning, Pattern::PlanningLine, 0, planning.len()));
    let latex = b"\\begin{align}";
    assert_eq!(Some(13), pattern_match_at(latex, Pattern::LatexBegin, 0, latex.len()));
    let footnote = b"[fn:note-1] text";
    assert_eq!(Some(11), pattern_match_at(footnote, Pattern::FootnoteDefinition, 0, footnote.len()));
    let table = b"| a | b |";
    assert_eq!(Some(1), pattern_match_at(table, Pattern::TableBorder, 0, table.len()));
    let diary = b"%%(diary)";
    assert_eq!(Some(3), pattern_match_at(diary, Pattern::DiarySexp, 0, diary.len()));
}

#[test]
fn property_drawer_pattern() {
    let good = b":PROPERTIES:\n:ID: 42\n:END:";
    assert!(pattern_match_at(good, Pattern::PropertyDrawer, 0, good.len()).is_some());
    let unterminated = b":PROPERTIES:\n:ID: 42\n";
    assert!(pattern_match_at(unterminated, Pattern::PropertyDrawer, 0, unterminated.len()).is_none());
}

#[test]
fn hashtag_family_patterns() {
    // These are matched right after the `#`, as the classifier applies
    // them.
    let block = b"+BEGIN_SRC rust";
    assert_eq!(Some(10), pattern_match_at(block, Pattern::BlockBegin, 0, block.len()));
    let dynamic = b"+BEGIN: clocktable";
    assert_eq!(Some(8), pattern_match_at(dynamic, Pattern::DynamicBlock, 0, dynamic.len()));
    let call = b"+CALL: f()";
    assert_eq!(Some(6), pattern_match_at(call, Pattern::BabelCall, 0, call.len()));
    let keyword = b"+TITLE: doc";
    assert_eq!(Some(7), pattern_match_at(keyword, Pattern::KeywordLine, 0, keyword.len()));
    let bad = b"+TITLE doc";
    assert_eq!(None, pattern_match_at(bad, Pattern::KeywordLine, 0, bad.len()));
}

#[test]
fn parse_buffer_tiles_the_document() {
    let text = "Some text\n\n* Head\nBody\n** Sub\nMore\n";
    let mut p = Parser::new(text.as_bytes(), ParseGranularity::Object, DefaultEnvironment);
    let root = p.parse_buffer();
    assert_eq!(SyntaxT::OrgData, root.data.kind());
    assert!(!root.children.is_empty());
    // Siblings tile the buffer: each node ends where the next one starts.
    assert_eq!(0, root.children[0].location.start);
    assert_eq!(text.len(), root.children[root.children.len() - 1].location.end);
    for w in root.children.windows(2) {
        assert_eq!(w[0].location.end, w[1].location.start);
    }
    // The first-section text before the headline, then the headline.
    assert_eq!(SyntaxT::Section, root.children[0].data.kind());
    assert_eq!(SyntaxT::Headline, root.children[1].data.kind());
    match &root.children[1].data {
        Syntax::Headline(d) => assert_eq!(1, d.level),
        _ => panic!("headline expected"),
    }
    // The deeper headline is discovered inside the first one.
    let head = &root.children[1];
    let sub = head
        .children
        .iter()
        .find(|c| c.data.kind() == SyntaxT::Headline)
        .expect("sub-headline expected");
    match &sub.data {
        Syntax::Headline(d) => assert_eq!(2, d.level),
        _ => panic!("headline expected"),
    }
}

#[test]
fn parse_buffer_empty_input() {
    let mut p = Parser::new(b"", ParseGranularity::Object, DefaultEnvironment);
    let root = p.parse_buffer();
    assert_eq!(SyntaxT::OrgData, root.data.kind());
    assert!(root.children.is_empty());
}

#[test]
fn classifier_picks_block_kinds() {
    let text = "#+BEGIN_SRC rust\ncode\n#+END_SRC\n";
    let mut p = Parser::new(text.as_bytes(), ParseGranularity::Element, DefaultEnvironment);
    let root = p.parse_buffer();
    // The whole document is one first section holding the block lines.
    assert_eq!(SyntaxT::Section, root.children[0].data.kind());
    let section = &root.children[0];
    assert!(!section.children.is_empty());
    assert_eq!(SyntaxT::SrcBlock, section.children[0].data.kind());
}

#[test]
fn classifier_comment_versus_keyword() {
    let comment = "# plain comment\n";
    let mut p = Parser::new(comment.as_bytes(), ParseGranularity::Element, DefaultEnvironment);
    let root = p.parse_buffer();
    assert_eq!(SyntaxT::Comment, root.children[0].children[0].data.kind());

    let keyword = "#+TITLE: doc\nrest\n";
    let mut p2 = Parser::new(keyword.as_bytes(), ParseGranularity::Element, DefaultEnvironment);
    let root2 = p2.parse_buffer();
    assert_eq!(SyntaxT::Keyword, root2.children[0].children[0].data.kind());
}

#[test]
fn parse_objects_emits_plain_text_run() {
    let text = "hello";
    let mut p = Parser::new(text.as_bytes(), ParseGranularity::Object, DefaultEnvironment);
    let objs = p.parse_objects(0, 5, SyntaxT::Paragraph);
    assert_eq!(1, objs.len());
    assert_eq!(SyntaxT::PlainText, objs[0].data.kind());
    assert_eq!(0, objs[0].location.start);
    assert_eq!(5, objs[0].location.end);
    let none = p.parse_objects(3, 3, SyntaxT::Paragraph);
    assert!(none.is_empty());
}

#[test]
fn classifier_property_drawer_and_planning() {
    let text = "* H\nDEADLINE: <2024-01-01>\n:PROPERTIES:\n:ID: 7\n:END:\nBody\n";
    let mut p = Parser::new(text.as_bytes(), ParseGranularity::Element, DefaultEnvironment);
    let root = p.parse_buffer();
    assert_eq!(SyntaxT::Headline, root.children[0].data.kind());
    let head = &root.children[0];
    let section = &head.children[0];
    assert_eq!(SyntaxT::Section, section.data.kind());
    assert_eq!(SyntaxT::Planning, section.children[0].data.kind());
    assert_eq!(SyntaxT::PropertyDrawer, section.children[1].data.kind());
}

#[test]
fn classifier_table_and_list() {
    let text = "| a | b |\n\n- one\n- two\n";
    let mut p = Parser::new(text.as_bytes(), ParseGranularity::Element, DefaultEnvironment);
    let root = p.parse_buffer();
    let section = &root.children[0];
    assert_eq!(SyntaxT::Table, section.children[0].data.kind());
    assert_eq!(SyntaxT::PlainList, section.children[1].data.kind());
}

#[test]
fn headline_only_granularity_skips_prologue() {
    let text = "intro text\n* One\nbody\n* Two\n";
    let mut p = Parser::new(text.as_bytes(), ParseGranularity::Headline, DefaultEnvironment);
    let root = p.parse_buffer();
    assert_eq!(2, root.children.len());
    assert_eq!(SyntaxT::Headline, root.children[0].data.kind());
    assert_eq!(11, root.children[0].location.start);
    assert_eq!(SyntaxT::Headline, root.children[1].data.kind());
}

fn assert_tiled(node: &orgparse::data::SyntaxNode) {
    if !node.children.is_empty() {
        let c = node.content_location.expect("children imply a content interval");
        assert_eq!(c.start, node.children[0].location.start);
        assert_eq!(c.end, node.children[node.children.len() - 1].location.end);
        for w in node.children.windows(2) {
            assert_eq!(w[0].location.end, w[1].location.start);
        }
        for child in &node.children {
            assert_tiled(child);
        }
    }
}

#[test]
fn children_tile_content_at_every_depth() {
    let text = "Intro\n\n* A\ntext\n** B\n- x\n- y\n\n* C\n| t |\nend\n";
    let mut p = Parser::new(text.as_bytes(), ParseGranularity::Object, DefaultEnvironment);
    let root = p.parse_buffer();
    assert_eq!(0, root.children[0].location.start);
    assert_eq!(text.len(), root.children[root.children.len() - 1].location.end);
    for child in &root.children {
        assert_tiled(child);
    }
}
