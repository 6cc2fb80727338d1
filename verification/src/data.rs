//! The syntax data model: the tagged union of node kinds, the parse-tree
//! node, the classification predicates and the object-containment matrix.
//!
//! The discriminant alone is enough to classify containment: every
//! classification predicate is a pure function of the [`SyntaxT`] kind.

use vstd::prelude::*;

use crate::Interval;
use crate::affiliated::AffiliatedData;
use crate::babel::BabelCallData;
use crate::blocks::{
    CommentBlockData, DynamicBlockData, ExampleBlockData, ExportBlockData, SpecialBlockData,
    SrcBlockData,
};
use crate::drawer::DrawerData;
use crate::headline::{HeadlineData, InlineTaskData, NodePropertyData};
use crate::keyword::KeywordData;
use crate::latex::{LatexEnvironmentData, LatexFragmentData};
use crate::list::{ItemData, PlainListData};
use crate::markup::{CommentData, FixedWidthData, FootnoteDefinitionData};
use crate::table::{TableData, TableRowData};

verus! {

/// How code lines of an example or source block are numbered.
#[derive(Clone, Copy, PartialEq, Eq, Structural, Debug)]
pub enum LineNumberingMode {
    New,
    Continued,
}

/// Fields of a clock element.
#[derive(Debug, PartialEq)]
pub struct ClockData {
    /// Clock duration for a closed clock.
    pub duration: Vec<u8>,
    /// Status of the clock.
    pub status: ClockStatus,
    /// Timestamp associated to the clock keyword.
    pub value: TimestampData,
}

/// Status of a clock: still running, or closed.
#[derive(Clone, Copy, PartialEq, Eq, Structural, Debug)]
pub enum ClockStatus {
    Running,
    Closed,
}

/// Fields of a diary sexp element.
#[derive(Debug, PartialEq)]
pub struct DiarySexpData {
    /// Full sexp.
    pub value: Vec<u8>,
}

/// Fields of a planning element.
#[derive(Debug, PartialEq)]
pub struct PlanningData {
    /// Timestamp associated to the closed keyword, if any.
    pub closed: Option<TimestampData>,
    /// Timestamp associated to the deadline keyword, if any.
    pub deadline: Option<TimestampData>,
    /// Timestamp associated to the scheduled keyword, if any.
    pub scheduled: Option<TimestampData>,
}

/// Fields of an inline code object.
#[derive(Debug, PartialEq)]
pub struct CodeData {
    pub value: Vec<u8>,
}

/// Fields of an entity object.
#[derive(Debug, PartialEq)]
pub struct EntityData {
    /// Entity's ASCII representation.
    pub ascii: Vec<u8>,
    /// Entity's HTML representation.
    pub html: Vec<u8>,
    /// Entity's LaTeX representation.
    pub latex: Vec<u8>,
    /// Whether the LaTeX representation should be in math mode.
    pub latex_math_p: bool,
    /// Entity's Latin-1 representation.
    pub latin1: Vec<u8>,
    /// Entity's name, without backslash nor brackets.
    pub name: Vec<u8>,
    /// Whether the entity is written with optional brackets.
    pub use_brackets_p: bool,
    /// Entity's UTF-8 representation.
    pub utf_8: Vec<u8>,
}

/// Fields of an export snippet object.
#[derive(Debug, PartialEq)]
pub struct ExportSnippetData {
    /// Related back-end's name.
    pub back_end: Vec<u8>,
    /// Export code.
    pub value: Vec<u8>,
}

/// Fields of a footnote reference object.
#[derive(Debug, PartialEq)]
pub struct FootnoteReferenceData {
    /// Footnote's label, if any.
    pub label: Option<Vec<u8>>,
    /// Whether the reference has its definition inline.
    pub type_s: Vec<u8>,
}

/// Fields of an inline babel call object.
#[derive(Debug, PartialEq)]
pub struct InlineBabelCallData {
    /// Name of the code block being called.
    pub call: Vec<u8>,
    /// Header arguments applied to the named code block.
    pub inside_header: Option<Vec<u8>>,
    /// Arguments passed to the code block.
    pub arguments: Option<Vec<u8>>,
    /// Header arguments applied to the calling instance.
    pub end_header: Option<Vec<u8>>,
    /// Raw call, as Org syntax.
    pub value: Vec<u8>,
}

/// Fields of an inline source block object.
#[derive(Debug, PartialEq)]
pub struct InlineSrcBlockData {
    /// Language of the code in the block.
    pub language: Vec<u8>,
    /// Optional header arguments.
    pub parameters: Option<Vec<u8>>,
    /// Source code.
    pub value: Vec<u8>,
}

/// Syntax used to write a link.
#[derive(Clone, Copy, PartialEq, Eq, Structural, Debug)]
pub enum LinkFormat {
    Plain,
    Angle,
    Bracket,
}

/// Fields of a link object.
#[derive(Debug, PartialEq)]
pub struct LinkData {
    /// Name of the application requested to open the link, for file links.
    pub application: Option<Vec<u8>>,
    /// Format of the link syntax.
    pub format: LinkFormat,
    /// Identifier of the link's destination.
    pub path: Vec<u8>,
    /// Uninterpreted link part.
    pub raw_link: Vec<u8>,
    /// Additional information for file location, for file links.
    pub search_option: Option<Vec<u8>>,
    /// The link's kind.
    pub link_type: LinkType,
}

/// Kind of a link's destination.
#[derive(Clone, Copy, PartialEq, Eq, Structural, Debug)]
pub enum LinkType {
    /// A line in some source code.
    Coderef,
    /// A specific headline's custom id.
    CustomId,
    /// An external file.
    File,
    /// A target, named element or headline in the current parse tree.
    Fuzzy,
    /// A specific headline's id.
    Id,
    /// A radio target.
    Radio,
}

/// Fields of a macro object.
#[derive(Debug, PartialEq)]
pub struct MacroData {
    /// Arguments passed to the macro.
    pub args: Vec<Vec<u8>>,
    /// Macro's name.
    pub key: Vec<u8>,
    /// Replacement text.
    pub value: Vec<u8>,
}

/// Fields of a radio target object.
#[derive(Debug, PartialEq)]
pub struct RadioTargetData {
    /// Uninterpreted contents.
    pub raw_value: Vec<u8>,
}

/// Fields of a statistics cookie object.
#[derive(Debug, PartialEq)]
pub struct StatisticsCookieData {
    /// Full cookie.
    pub value: Vec<u8>,
}

/// Fields of a subscript object.
#[derive(Debug, PartialEq)]
pub struct SubscriptData {
    /// Whether the contents are enclosed in curly brackets.
    pub use_brackets_p: bool,
}

/// Fields of a superscript object.
#[derive(Debug, PartialEq)]
pub struct SuperscriptData {
    /// Whether the contents are enclosed in curly brackets.
    pub use_brackets_p: bool,
}

/// Fields of a target object.
#[derive(Debug, PartialEq)]
pub struct TargetData {
    /// Target's id.
    pub value: Vec<u8>,
}

/// Fields of a timestamp object.
#[derive(Debug, PartialEq)]
pub struct TimestampData {
    /// Day part of the timestamp end; defaults to the start day part.
    pub day_end: usize,
    /// Day part of the timestamp start.
    pub day_start: usize,
    /// Hour part of the timestamp end, if any.
    pub hour_end: Option<usize>,
    /// Hour part of the timestamp start, if any.
    pub hour_start: Option<usize>,
    /// Minute part of the timestamp end, if any.
    pub minute_end: Option<usize>,
    /// Minute part of the timestamp start, if any.
    pub minute_start: Option<usize>,
    /// Month part of the timestamp end.
    pub month_end: usize,
    /// Month part of the timestamp start.
    pub month_start: usize,
    /// Raw timestamp text.
    pub raw_value: Vec<u8>,
    /// Kind of repeater, if any.
    pub repeater_type: Option<RepeaterType>,
    /// Unit of shift, if a repeater is defined.
    pub repeater_unit: Option<TimeUnit>,
    /// Value of shift, if a repeater is defined.
    pub repeater_value: Option<usize>,
    /// Kind of the timestamp.
    pub type_s: TimestampType,
    /// Kind of warning, if any.
    pub warning_type: Option<WarningType>,
    /// Unit of delay, if one is defined.
    pub warning_unit: Option<TimeUnit>,
    /// Value of delay, if one is defined.
    pub warning_value: Option<usize>,
    /// Year part of the timestamp end.
    pub year_end: usize,
    /// Year part of the timestamp start.
    pub year_start: usize,
}

impl TimestampData {
    /// A timestamp record with every part zero or absent.
    pub fn empty() -> (r: TimestampData)
        ensures
            r.raw_value@.len() == 0,
    {
        TimestampData {
            day_end: 0,
            day_start: 0,
            hour_end: None,
            hour_start: None,
            minute_end: None,
            minute_start: None,
            month_end: 0,
            month_start: 0,
            raw_value: Vec::new(),
            repeater_type: None,
            repeater_unit: None,
            repeater_value: None,
            type_s: TimestampType::Inactive,
            warning_type: None,
            warning_unit: None,
            warning_value: None,
            year_end: 0,
            year_start: 0,
        }
    }
}

/// Kind of warning on a timestamp.
#[derive(Clone, Copy, PartialEq, Eq, Structural, Debug)]
pub enum WarningType {
    All,
    First,
}

/// Kind of a timestamp.
#[derive(Clone, Copy, PartialEq, Eq, Structural, Debug)]
pub enum TimestampType {
    Active,
    ActiveRange,
    Diary,
    Inactive,
    InactiveRange,
}

/// Kind of repeater on a timestamp.
#[derive(Clone, Copy, PartialEq, Eq, Structural, Debug)]
pub enum RepeaterType {
    CatchUp,
    Restart,
    Cumulate,
}

/// A calendar or clock time unit.
#[derive(Clone, Copy, PartialEq, Eq, Structural, Debug)]
pub enum TimeUnit {
    Year,
    Month,
    Week,
    Day,
    Hour,
}

/// Fields of a verbatim object.
#[derive(Debug, PartialEq)]
pub struct VerbatimData {
    /// Contents.
    pub value: Vec<u8>,
}

/// Complete list of syntax entities.
#[derive(Debug, PartialEq)]
pub enum Syntax {
    /// Root of the parse tree.
    OrgData,
    /// Element.
    BabelCall(Box<BabelCallData>),
    /// Greater element.
    CenterBlock,
    /// Element.
    Clock(Box<ClockData>),
    /// Element.
    Comment(Box<CommentData>),
    /// Element.
    CommentBlock(Box<CommentBlockData>),
    /// Element.
    DiarySexp(Box<DiarySexpData>),
    /// Greater element.
    Drawer(Box<DrawerData>),
    /// Greater element.
    DynamicBlock(Box<DynamicBlockData>),
    /// Element.
    ExampleBlock(Box<ExampleBlockData>),
    /// Element.
    ExportBlock(Box<ExportBlockData>),
    /// Element.
    FixedWidth(Box<FixedWidthData>),
    /// Greater element.
    FootnoteDefinition(Box<FootnoteDefinitionData>),
    /// Greater element.
    Headline(Box<HeadlineData>),
    /// Element.
    HorizontalRule,
    /// Greater element.
    InlineTask(Box<InlineTaskData>),
    /// Greater element.
    Item(Box<ItemData>),
    /// Element.
    Keyword(Box<KeywordData>),
    /// Element.
    LatexEnvironment(Box<LatexEnvironmentData>),
    /// Element; node properties can only exist in property drawers.
    NodeProperty(Box<NodePropertyData>),
    /// Element containing objects.
    Paragraph,
    /// Greater element.
    PlainList(Box<PlainListData>),
    /// Element.
    Planning(Box<PlanningData>),
    /// Greater element.
    PropertyDrawer,
    /// Greater element.
    QuoteBlock,
    /// Greater element.
    Section,
    /// Greater element.
    SpecialBlock(Box<SpecialBlockData>),
    /// Element.
    SrcBlock(Box<SrcBlockData>),
    /// Greater element.
    Table(Box<TableData>),
    /// Element containing objects.
    TableRow(Box<TableRowData>),
    /// Element containing objects.
    VerseBlock,
    /// Recursive object.
    Bold,
    /// Object.
    Code(Box<CodeData>),
    /// Object.
    Entity(Box<EntityData>),
    /// Object.
    ExportSnippet(Box<ExportSnippetData>),
    /// Recursive object.
    FootnoteReference(Box<FootnoteReferenceData>),
    /// Object.
    InlineBabelCall(Box<InlineBabelCallData>),
    /// Object.
    InlineSrcBlock(Box<InlineSrcBlockData>),
    /// Recursive object.
    Italic,
    /// Object.
    LineBreak,
    /// Object.
    LatexFragment(Box<LatexFragmentData>),
    /// Recursive object.
    Link(Box<LinkData>),
    /// Object.
    Macro(Box<MacroData>),
    /// Recursive object.
    RadioTarget(Box<RadioTargetData>),
    /// Object.
    StatisticsCookie(Box<StatisticsCookieData>),
    /// Recursive object.
    StrikeThrough,
    /// Recursive object.
    Subscript(Box<SubscriptData>),
    /// Recursive object.
    Superscript(Box<SuperscriptData>),
    /// Recursive object.
    TableCell,
    /// Object.
    Target(Box<TargetData>),
    /// Object.
    Timestamp(Box<TimestampData>),
    /// Recursive object.
    Underline,
    /// Object.
    Verbatim(Box<VerbatimData>),
    /// Special object: a raw text run, as a buffer interval.
    PlainText(Interval),
}

/// The discriminants of [`Syntax`]: the node kinds, without their payloads.
#[derive(Clone, Copy, PartialEq, Eq, Structural, Debug)]
pub enum SyntaxT {
    OrgData,
    BabelCall,
    CenterBlock,
    Clock,
    Comment,
    CommentBlock,
    DiarySexp,
    Drawer,
    DynamicBlock,
    ExampleBlock,
    ExportBlock,
    FixedWidth,
    FootnoteDefinition,
    Headline,
    HorizontalRule,
    InlineTask,
    Item,
    Keyword,
    LatexEnvironment,
    NodeProperty,
    Paragraph,
    PlainList,
    Planning,
    PropertyDrawer,
    QuoteBlock,
    Section,
    SpecialBlock,
    SrcBlock,
    Table,
    TableRow,
    VerseBlock,
    Bold,
    Code,
    Entity,
    ExportSnippet,
    FootnoteReference,
    InlineBabelCall,
    InlineSrcBlock,
    Italic,
    LineBreak,
    LatexFragment,
    Link,
    Macro,
    RadioTarget,
    StatisticsCookie,
    StrikeThrough,
    Subscript,
    Superscript,
    TableCell,
    Target,
    Timestamp,
    Underline,
    Verbatim,
    PlainText,
}

impl Syntax {
    /// The kind of this syntax value, payload dropped.
    pub open spec fn spec_kind(&self) -> SyntaxT {
        match self {
            Syntax::OrgData => SyntaxT::OrgData,
            Syntax::BabelCall(_) => SyntaxT::BabelCall,
            Syntax::CenterBlock => SyntaxT::CenterBlock,
            Syntax::Clock(_) => SyntaxT::Clock,
            Syntax::Comment(_) => SyntaxT::Comment,
            Syntax::CommentBlock(_) => SyntaxT::CommentBlock,
            Syntax::DiarySexp(_) => SyntaxT::DiarySexp,
            Syntax::Drawer(_) => SyntaxT::Drawer,
            Syntax::DynamicBlock(_) => SyntaxT::DynamicBlock,
            Syntax::ExampleBlock(_) => SyntaxT::ExampleBlock,
            Syntax::ExportBlock(_) => SyntaxT::ExportBlock,
            Syntax::FixedWidth(_) => SyntaxT::FixedWidth,
            Syntax::FootnoteDefinition(_) => SyntaxT::FootnoteDefinition,
            Syntax::Headline(_) => SyntaxT::Headline,
            Syntax::HorizontalRule => SyntaxT::HorizontalRule,
            Syntax::InlineTask(_) => SyntaxT::InlineTask,
            Syntax::Item(_) => SyntaxT::Item,
            Syntax::Keyword(_) => SyntaxT::Keyword,
            Syntax::LatexEnvironment(_) => SyntaxT::LatexEnvironment,
            Syntax::NodeProperty(_) => SyntaxT::NodeProperty,
            Syntax::Paragraph => SyntaxT::Paragraph,
            Syntax::PlainList(_) => SyntaxT::PlainList,
            Syntax::Planning(_) => SyntaxT::Planning,
            Syntax::PropertyDrawer => SyntaxT::PropertyDrawer,
            Syntax::QuoteBlock => SyntaxT::QuoteBlock,
            Syntax::Section => SyntaxT::Section,
            Syntax::SpecialBlock(_) => SyntaxT::SpecialBlock,
            Syntax::SrcBlock(_) => SyntaxT::SrcBlock,
            Syntax::Table(_) => SyntaxT::Table,
            Syntax::TableRow(_) => SyntaxT::TableRow,
            Syntax::VerseBlock => SyntaxT::VerseBlock,
            Syntax::Bold => SyntaxT::Bold,
            Syntax::Code(_) => SyntaxT::Code,
            Syntax::Entity(_) => SyntaxT::Entity,
            Syntax::ExportSnippet(_) => SyntaxT::ExportSnippet,
            Syntax::FootnoteReference(_) => SyntaxT::FootnoteReference,
            Syntax::InlineBabelCall(_) => SyntaxT::InlineBabelCall,
            Syntax::InlineSrcBlock(_) => SyntaxT::InlineSrcBlock,
            Syntax::Italic => SyntaxT::Italic,
            Syntax::LineBreak => SyntaxT::LineBreak,
            Syntax::LatexFragment(_) => SyntaxT::LatexFragment,
            Syntax::Link(_) => SyntaxT::Link,
            Syntax::Macro(_) => SyntaxT::Macro,
            Syntax::RadioTarget(_) => SyntaxT::RadioTarget,
            Syntax::StatisticsCookie(_) => SyntaxT::StatisticsCookie,
            Syntax::StrikeThrough => SyntaxT::StrikeThrough,
            Syntax::Subscript(_) => SyntaxT::Subscript,
            Syntax::Superscript(_) => SyntaxT::Superscript,
            Syntax::TableCell => SyntaxT::TableCell,
            Syntax::Target(_) => SyntaxT::Target,
            Syntax::Timestamp(_) => SyntaxT::Timestamp,
            Syntax::Underline => SyntaxT::Underline,
            Syntax::Verbatim(_) => SyntaxT::Verbatim,
            Syntax::PlainText(_) => SyntaxT::PlainText,
        }
    }

    /// Returns the kind of this syntax value.
    pub fn kind(&self) -> (r: SyntaxT)
        ensures
            r == self.spec_kind(),
    {
        match self {
            Syntax::OrgData => SyntaxT::OrgData,
            Syntax::BabelCall(_) => SyntaxT::BabelCall,
            Syntax::CenterBlock => SyntaxT::CenterBlock,
            Syntax::Clock(_) => SyntaxT::Clock,
            Syntax::Comment(_) => SyntaxT::Comment,
            Syntax::CommentBlock(_) => SyntaxT::CommentBlock,
            Syntax::DiarySexp(_) => SyntaxT::DiarySexp,
            Syntax::Drawer(_) => SyntaxT::Drawer,
            Syntax::DynamicBlock(_) => SyntaxT::DynamicBlock,
            Syntax::ExampleBlock(_) => SyntaxT::ExampleBlock,
            Syntax::ExportBlock(_) => SyntaxT::ExportBlock,
            Syntax::FixedWidth(_) => SyntaxT::FixedWidth,
            Syntax::FootnoteDefinition(_) => SyntaxT::FootnoteDefinition,
            Syntax::Headline(_) => SyntaxT::Headline,
            Syntax::HorizontalRule => SyntaxT::HorizontalRule,
            Syntax::InlineTask(_) => SyntaxT::InlineTask,
            Syntax::Item(_) => SyntaxT::Item,
            Syntax::Keyword(_) => SyntaxT::Keyword,
            Syntax::LatexEnvironment(_) => SyntaxT::LatexEnvironment,
            Syntax::NodeProperty(_) => SyntaxT::NodeProperty,
            Syntax::Paragraph => SyntaxT::Paragraph,
            Syntax::PlainList(_) => SyntaxT::PlainList,
            Syntax::Planning(_) => SyntaxT::Planning,
            Syntax::PropertyDrawer => SyntaxT::PropertyDrawer,
            Syntax::QuoteBlock => SyntaxT::QuoteBlock,
            Syntax::Section => SyntaxT::Section,
            Syntax::SpecialBlock(_) => SyntaxT::SpecialBlock,
            Syntax::SrcBlock(_) => SyntaxT::SrcBlock,
            Syntax::Table(_) => SyntaxT::Table,
            Syntax::TableRow(_) => SyntaxT::TableRow,
            Syntax::VerseBlock => SyntaxT::VerseBlock,
            Syntax::Bold => SyntaxT::Bold,
            Syntax::Code(_) => SyntaxT::Code,
            Syntax::Entity(_) => SyntaxT::Entity,
            Syntax::ExportSnippet(_) => SyntaxT::ExportSnippet,
            Syntax::FootnoteReference(_) => SyntaxT::FootnoteReference,
            Syntax::InlineBabelCall(_) => SyntaxT::InlineBabelCall,
            Syntax::InlineSrcBlock(_) => SyntaxT::InlineSrcBlock,
            Syntax::Italic => SyntaxT::Italic,
            Syntax::LineBreak => SyntaxT::LineBreak,
            Syntax::LatexFragment(_) => SyntaxT::LatexFragment,
            Syntax::Link(_) => SyntaxT::Link,
            Syntax::Macro(_) => SyntaxT::Macro,
            Syntax::RadioTarget(_) => SyntaxT::RadioTarget,
            Syntax::StatisticsCookie(_) => SyntaxT::StatisticsCookie,
            Syntax::StrikeThrough => SyntaxT::StrikeThrough,
            Syntax::Subscript(_) => SyntaxT::Subscript,
            Syntax::Superscript(_) => SyntaxT::Superscript,
            Syntax::TableCell => SyntaxT::TableCell,
            Syntax::Target(_) => SyntaxT::Target,
            Syntax::Timestamp(_) => SyntaxT::Timestamp,
            Syntax::Underline => SyntaxT::Underline,
            Syntax::Verbatim(_) => SyntaxT::Verbatim,
            Syntax::PlainText(_) => SyntaxT::PlainText,
        }
    }
}

/// Some elements can hold either raw text or a parsed object in their value
/// fields.
#[derive(Debug, PartialEq)]
pub enum StringOrObject {
    Raw(Vec<u8>),
    Parsed(SyntaxNode),
}

/// A parse-tree node.
///
/// Ownership flows from the root down: a node owns its children, in
/// document order, so the tree holds no reference cycles.  `location.end`
/// of a node equals `location.start` of its following sibling, because a
/// node absorbs the blank lines after it (`post_blank` counts them).
#[derive(Debug, PartialEq)]
pub struct SyntaxNode {
    /// Child nodes, owned, in document order.
    pub children: Vec<SyntaxNode>,
    /// The node's kind and payload.
    pub data: Syntax,
    /// Begin and end of the whole construct, trailing blank lines
    /// included.
    pub location: Interval,
    /// The sub-range containing nested elements or objects; `None` for
    /// leaf nodes.
    pub content_location: Option<Interval>,
    /// Number of trailing blank lines absorbed into this node.
    pub post_blank: usize,
    /// Affiliated keywords attached above the node.
    pub affiliated: Option<AffiliatedData>,
}

impl SyntaxNode {
    /// The synthetic root of a parse tree; it carries no location
    /// semantics.
    pub fn create_root() -> (r: SyntaxNode)
        ensures
            r.data.spec_kind() == SyntaxT::OrgData,
            r.children@.len() == 0,
    {
        SyntaxNode {
            children: Vec::new(),
            data: Syntax::OrgData,
            location: Interval { start: 0, end: 0 },
            content_location: None,
            post_blank: 0,
            affiliated: None,
        }
    }

    /// Appends a child to the node, after all present children.
    pub fn append_child(&mut self, child: SyntaxNode)
        ensures
            final(self).children@ == old(self).children@.push(child),
            final(self).data == old(self).data,
            final(self).location == old(self).location,
            final(self).content_location == old(self).content_location,
            final(self).post_blank == old(self).post_blank,
    {
        self.children.push(child);
    }
}

/// Location discipline of a single node: its content interval, if any,
/// lies within its location.
pub open spec fn node_located(n: SyntaxNode) -> bool {
    &&& n.location.start <= n.location.end
    &&& (n.content_location matches Some(c) ==> n.location.start <= c.start <= c.end
        <= n.location.end)
}

/// Sibling discipline: consecutive nodes tile `[beg, end)` exactly, each
/// node's end being the next one's start, each node non-empty and located.
pub open spec fn nodes_chain(ns: Seq<SyntaxNode>, beg: int, end: int) -> bool {
    &&& (ns.len() > 0 ==> ns[0].location.start == beg && ns[ns.len() - 1].location.end == end)
    &&& (forall|i: int|
        0 <= i < ns.len() - 1 ==> (#[trigger] ns[i].location).end == ns[i + 1].location.start)
    &&& (forall|i: int|
        0 <= i < ns.len() ==> (#[trigger] ns[i].location).start < ns[i].location.end)
    &&& (forall|i: int| 0 <= i < ns.len() ==> node_located(#[trigger] ns[i]))
}

/// Tiling at every depth: wherever a node has children, it has a content
/// interval and the children tile it exactly, and the same holds inside
/// each child.
pub open spec fn tree_tiled(n: SyntaxNode) -> bool
    decreases n,
{
    &&& (n.children@.len() > 0 ==> (n.content_location matches Some(c) && nodes_chain(
        n.children@,
        c.start as int,
        c.end as int,
    )))
    &&& (forall|i: int| 0 <= i < n.children@.len() ==> tree_tiled(#[trigger] n.children@[i]))
}

impl SyntaxT {
    /// Whether this kind may directly contain other elements.
    pub open spec fn spec_is_greater_element(self) -> bool {
        ||| self == SyntaxT::CenterBlock
        ||| self == SyntaxT::Drawer
        ||| self == SyntaxT::DynamicBlock
        ||| self == SyntaxT::FootnoteDefinition
        ||| self == SyntaxT::Headline
        ||| self == SyntaxT::InlineTask
        ||| self == SyntaxT::Item
        ||| self == SyntaxT::PlainList
        ||| self == SyntaxT::PropertyDrawer
        ||| self == SyntaxT::QuoteBlock
        ||| self == SyntaxT::Section
        ||| self == SyntaxT::SpecialBlock
        ||| self == SyntaxT::Table
    }

    /// Whether this kind may directly contain other elements.
    pub fn is_greater_element(self) -> (r: bool)
        ensures
            r == self.spec_is_greater_element(),
    {
        self == SyntaxT::CenterBlock || self == SyntaxT::Drawer || self == SyntaxT::DynamicBlock
            || self == SyntaxT::FootnoteDefinition || self == SyntaxT::Headline || self
            == SyntaxT::InlineTask || self == SyntaxT::Item || self == SyntaxT::PlainList || self
            == SyntaxT::PropertyDrawer || self == SyntaxT::QuoteBlock || self == SyntaxT::Section
            || self == SyntaxT::SpecialBlock || self == SyntaxT::Table
    }

    /// Whether this kind is a block construct (a greater element included).
    pub open spec fn spec_is_element(self) -> bool {
        ||| self.spec_is_greater_element()
        ||| self == SyntaxT::BabelCall
        ||| self == SyntaxT::Clock
        ||| self == SyntaxT::Comment
        ||| self == SyntaxT::CommentBlock
        ||| self == SyntaxT::DiarySexp
        ||| self == SyntaxT::ExampleBlock
        ||| self == SyntaxT::ExportBlock
        ||| self == SyntaxT::FixedWidth
        ||| self == SyntaxT::HorizontalRule
        ||| self == SyntaxT::Keyword
        ||| self == SyntaxT::LatexEnvironment
        ||| self == SyntaxT::NodeProperty
        ||| self == SyntaxT::Paragraph
        ||| self == SyntaxT::Planning
        ||| self == SyntaxT::SrcBlock
        ||| self == SyntaxT::TableRow
        ||| self == SyntaxT::VerseBlock
    }

    /// Whether this kind is a block construct (a greater element included).
    pub fn is_element(self) -> (r: bool)
        ensures
            r == self.spec_is_element(),
    {
        self.is_greater_element() || self == SyntaxT::BabelCall || self == SyntaxT::Clock || self
            == SyntaxT::Comment || self == SyntaxT::CommentBlock || self == SyntaxT::DiarySexp
            || self == SyntaxT::ExampleBlock || self == SyntaxT::ExportBlock || self
            == SyntaxT::FixedWidth || self == SyntaxT::HorizontalRule || self == SyntaxT::Keyword
            || self == SyntaxT::LatexEnvironment || self == SyntaxT::NodeProperty || self
            == SyntaxT::Paragraph || self == SyntaxT::Planning || self == SyntaxT::SrcBlock || self
            == SyntaxT::TableRow || self == SyntaxT::VerseBlock
    }

    /// Whether this kind is an inline object.
    pub open spec fn spec_is_object(self) -> bool {
        ||| self == SyntaxT::Bold
        ||| self == SyntaxT::Code
        ||| self == SyntaxT::Entity
        ||| self == SyntaxT::ExportSnippet
        ||| self == SyntaxT::FootnoteReference
        ||| self == SyntaxT::InlineBabelCall
        ||| self == SyntaxT::InlineSrcBlock
        ||| self == SyntaxT::Italic
        ||| self == SyntaxT::LineBreak
        ||| self == SyntaxT::LatexFragment
        ||| self == SyntaxT::Link
        ||| self == SyntaxT::Macro
        ||| self == SyntaxT::RadioTarget
        ||| self == SyntaxT::StatisticsCookie
        ||| self == SyntaxT::StrikeThrough
        ||| self == SyntaxT::Subscript
        ||| self == SyntaxT::Superscript
        ||| self == SyntaxT::TableCell
        ||| self == SyntaxT::Target
        ||| self == SyntaxT::Timestamp
        ||| self == SyntaxT::Underline
        ||| self == SyntaxT::Verbatim
        ||| self == SyntaxT::PlainText
    }

    /// Whether this kind is an inline object.
    pub fn is_object(self) -> (r: bool)
        ensures
            r == self.spec_is_object(),
    {
        self == SyntaxT::Bold || self == SyntaxT::Code || self == SyntaxT::Entity || self
            == SyntaxT::ExportSnippet || self == SyntaxT::FootnoteReference || self
            == SyntaxT::InlineBabelCall || self == SyntaxT::InlineSrcBlock || self
            == SyntaxT::Italic || self == SyntaxT::LineBreak || self == SyntaxT::LatexFragment
            || self == SyntaxT::Link || self == SyntaxT::Macro || self == SyntaxT::RadioTarget
            || self == SyntaxT::StatisticsCookie || self == SyntaxT::StrikeThrough || self
            == SyntaxT::Subscript || self == SyntaxT::Superscript || self == SyntaxT::TableCell
            || self == SyntaxT::Target || self == SyntaxT::Timestamp || self == SyntaxT::Underline
            || self == SyntaxT::Verbatim || self == SyntaxT::PlainText
    }

    /// Whether this kind is an object that may contain other objects.
    pub open spec fn spec_is_recursive_object(self) -> bool {
        ||| self == SyntaxT::Bold
        ||| self == SyntaxT::FootnoteReference
        ||| self == SyntaxT::Italic
        ||| self == SyntaxT::Link
        ||| self == SyntaxT::RadioTarget
        ||| self == SyntaxT::StrikeThrough
        ||| self == SyntaxT::Subscript
        ||| self == SyntaxT::Superscript
        ||| self == SyntaxT::TableCell
        ||| self == SyntaxT::Underline
    }

    /// Whether this kind is an object that may contain other objects.
    pub fn is_recursive_object(self) -> (r: bool)
        ensures
            r == self.spec_is_recursive_object(),
    {
        self == SyntaxT::Bold || self == SyntaxT::FootnoteReference || self == SyntaxT::Italic
            || self == SyntaxT::Link || self == SyntaxT::RadioTarget || self
            == SyntaxT::StrikeThrough || self == SyntaxT::Subscript || self == SyntaxT::Superscript
            || self == SyntaxT::TableCell || self == SyntaxT::Underline
    }

    /// Whether this kind holds objects directly: the object containers
    /// among elements, and the recursive objects.
    pub open spec fn spec_is_object_container(self) -> bool {
        ||| self == SyntaxT::Paragraph
        ||| self == SyntaxT::TableRow
        ||| self == SyntaxT::VerseBlock
        ||| self.spec_is_recursive_object()
    }

    /// Whether this kind holds objects directly.
    pub fn is_object_container(self) -> (r: bool)
        ensures
            r == self.spec_is_object_container(),
    {
        self == SyntaxT::Paragraph || self == SyntaxT::TableRow || self == SyntaxT::VerseBlock
            || self.is_recursive_object()
    }

    /// Whether this kind contains anything at all: a greater element or an
    /// object container.
    pub open spec fn spec_is_container(self) -> bool {
        self.spec_is_greater_element() || self.spec_is_object_container()
    }

    /// Whether this kind contains anything at all.
    pub fn is_container(self) -> (r: bool)
        ensures
            r == self.spec_is_container(),
    {
        self.is_greater_element() || self.is_object_container()
    }

    /// The standard object set: every object except a table cell.
    pub open spec fn spec_in_standard_set(self) -> bool {
        self != SyntaxT::TableCell && self.spec_is_object()
    }

    /// The standard set without line breaks.
    pub open spec fn spec_in_standard_set_no_line_break(self) -> bool {
        self != SyntaxT::LineBreak && self.spec_in_standard_set()
    }

    /// The fixed object-containment matrix: whether an object or
    /// object-holding element of kind `self` may directly contain an
    /// object of kind `that`.
    pub open spec fn spec_can_contain(self, that: SyntaxT) -> bool {
        if self == SyntaxT::Bold || self == SyntaxT::Italic || self == SyntaxT::FootnoteReference
            || self == SyntaxT::Paragraph || self == SyntaxT::StrikeThrough || self
            == SyntaxT::Subscript || self == SyntaxT::Superscript || self == SyntaxT::Underline
            || self == SyntaxT::VerseBlock {
            that.spec_in_standard_set()
        } else if self == SyntaxT::Headline || self == SyntaxT::InlineTask || self
            == SyntaxT::Item {
            that.spec_in_standard_set_no_line_break()
        } else if self == SyntaxT::Keyword {
            that != SyntaxT::FootnoteReference && that.spec_in_standard_set()
        } else if self == SyntaxT::Link {
            ||| that == SyntaxT::Bold
            ||| that == SyntaxT::Code
            ||| that == SyntaxT::Entity
            ||| that == SyntaxT::ExportSnippet
            ||| that == SyntaxT::InlineBabelCall
            ||| that == SyntaxT::InlineSrcBlock
            ||| that == SyntaxT::Italic
            ||| that == SyntaxT::LatexFragment
            ||| that == SyntaxT::Macro
            ||| that == SyntaxT::StatisticsCookie
            ||| that == SyntaxT::StrikeThrough
            ||| that == SyntaxT::Subscript
            ||| that == SyntaxT::Superscript
            ||| that == SyntaxT::Underline
            ||| that == SyntaxT::Verbatim
        } else if self == SyntaxT::RadioTarget {
            ||| that == SyntaxT::Bold
            ||| that == SyntaxT::Code
            ||| that == SyntaxT::Entity
            ||| that == SyntaxT::Italic
            ||| that == SyntaxT::LatexFragment
            ||| that == SyntaxT::StrikeThrough
            ||| that == SyntaxT::Subscript
            ||| that == SyntaxT::Superscript
            ||| that == SyntaxT::Underline
        } else if self == SyntaxT::TableCell {
            ||| that == SyntaxT::Bold
            ||| that == SyntaxT::Code
            ||| that == SyntaxT::Entity
            ||| that == SyntaxT::ExportSnippet
            ||| that == SyntaxT::FootnoteReference
            ||| that == SyntaxT::Italic
            ||| that == SyntaxT::LatexFragment
            ||| that == SyntaxT::Link
            ||| that == SyntaxT::Macro
            ||| that == SyntaxT::RadioTarget
            ||| that == SyntaxT::StrikeThrough
            ||| that == SyntaxT::Subscript
            ||| that == SyntaxT::Superscript
            ||| that == SyntaxT::Target
            ||| that == SyntaxT::Timestamp
            ||| that == SyntaxT::Underline
            ||| that == SyntaxT::Verbatim
        } else if self == SyntaxT::TableRow {
            that == SyntaxT::TableCell
        } else {
            false
        }
    }

    /// Whether a node of kind `self` may directly contain an object of
    /// kind `that`, per the fixed containment matrix.
    pub fn can_contain(self, that: SyntaxT) -> (r: bool)
        ensures
            r == self.spec_can_contain(that),
    {
        if self == SyntaxT::Bold || self == SyntaxT::Italic || self == SyntaxT::FootnoteReference
            || self == SyntaxT::Paragraph || self == SyntaxT::StrikeThrough || self
            == SyntaxT::Subscript || self == SyntaxT::Superscript || self == SyntaxT::Underline
            || self == SyntaxT::VerseBlock {
            that != SyntaxT::TableCell && that.is_object()
        } else if self == SyntaxT::Headline || self == SyntaxT::InlineTask || self
            == SyntaxT::Item {
            that != SyntaxT::LineBreak && that != SyntaxT::TableCell && that.is_object()
        } else if self == SyntaxT::Keyword {
            that != SyntaxT::FootnoteReference && that != SyntaxT::TableCell && that.is_object()
        } else if self == SyntaxT::Link {
            that == SyntaxT::Bold || that == SyntaxT::Code || that == SyntaxT::Entity || that
                == SyntaxT::ExportSnippet || that == SyntaxT::InlineBabelCall || that
                == SyntaxT::InlineSrcBlock || that == SyntaxT::Italic || that
                == SyntaxT::LatexFragment || that == SyntaxT::Macro || that
                == SyntaxT::StatisticsCookie || that == SyntaxT::StrikeThrough || that
                == SyntaxT::Subscript || that == SyntaxT::Superscript || that == SyntaxT::Underline
                || that == SyntaxT::Verbatim
        } else if self == SyntaxT::RadioTarget {
            that == SyntaxT::Bold || that == SyntaxT::Code || that == SyntaxT::Entity || that
                == SyntaxT::Italic || that == SyntaxT::LatexFragment || that
                == SyntaxT::StrikeThrough || that == SyntaxT::Subscript || that
                == SyntaxT::Superscript || that == SyntaxT::Underline
        } else if self == SyntaxT::TableCell {
            that == SyntaxT::Bold || that == SyntaxT::Code || that == SyntaxT::Entity || that
                == SyntaxT::ExportSnippet || that == SyntaxT::FootnoteReference || that
                == SyntaxT::Italic || that == SyntaxT::LatexFragment || that == SyntaxT::Link
                || that == SyntaxT::Macro || that == SyntaxT::RadioTarget || that
                == SyntaxT::StrikeThrough || that == SyntaxT::Subscript || that
                == SyntaxT::Superscript || that == SyntaxT::Target || that == SyntaxT::Timestamp
                || that == SyntaxT::Underline || that == SyntaxT::Verbatim
        } else if self == SyntaxT::TableRow {
            that == SyntaxT::TableCell
        } else {
            false
        }
    }
}

/// The containment matrix is anti-reflexive for links and radio targets:
/// neither may directly contain itself, though both belong to the standard
/// object set elsewhere (a bold object, for one, may contain either).
pub proof fn lemma_can_contain_anti_reflexive()
    ensures
        !SyntaxT::Link.spec_can_contain(SyntaxT::Link),
        !SyntaxT::RadioTarget.spec_can_contain(SyntaxT::RadioTarget),
        SyntaxT::Bold.spec_can_contain(SyntaxT::Link),
        SyntaxT::Bold.spec_can_contain(SyntaxT::RadioTarget),
{
}

} // verus!
