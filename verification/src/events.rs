//! The crate's own model of the parsing engine's event stream.
//!
//! The engine reports a document as a flat sequence of events: a `Start`
//! and a matching `End` for every container construct, and leaf events
//! for text, code, raw HTML, breaks, rules, footnote references and task
//! list markers. Each variant holds only its own payload, as plain
//! values, so that the normalization logic over it can be verified.

use vstd::prelude::*;

verus! {

/// How a link or image reference was written in the source text.
#[derive(Clone, Copy, PartialEq, Eq, Structural, Debug)]
pub enum LinkKind {
    Inline,
    Reference,
    Autolink,
    Email,
    Shortcut,
    Collapsed,
    /// A reference, collapsed or shortcut link whose label is not defined
    /// in the document and was resolved by other means.
    Unknown,
}

/// Text alignment of one table column.
#[derive(Clone, Copy, PartialEq, Eq, Structural, Debug)]
pub enum ColumnAlign {
    Unaligned,
    Left,
    Right,
    Center,
}

/// The kind of a code block: indented, or fenced with an info string
/// (empty when the fence names no language).
#[derive(Clone, Debug)]
pub enum CodeKind {
    Indented,
    Fenced(String),
}

/// A block- or inline-level construct opened by a `Start` event and
/// closed by a matching `End` event.
#[derive(Clone, Debug)]
pub enum MdTag {
    BlockQuote,
    CodeBlock(CodeKind),
    Emphasis,
    /// Label of the footnote being defined.
    FootnoteDefinition(String),
    /// Heading depth, 1 to 6.
    Heading(u32),
    /// Link kind, destination URL and title.
    Image(LinkKind, String, String),
    Item,
    /// Link kind, destination URL and title.
    Link(LinkKind, String, String),
    /// Starting ordinal of an ordered list; `None` for an unordered list.
    List(Option<u64>),
    Paragraph,
    Strikethrough,
    Strong,
    /// One alignment per column, in column order.
    Table(Vec<ColumnAlign>),
    TableCell,
    TableHead,
    TableRow,
}

/// One event of the parsing engine's stream.
#[derive(Clone, Debug)]
pub enum MdEvent {
    Start(MdTag),
    End(MdTag),
    Text(String),
    Code(String),
    Html(String),
    FootnoteReference(String),
    SoftBreak,
    HardBreak,
    Rule,
    TaskListMarker(bool),
}

/// Mathematical model of a `CodeKind`.
#[verifier::ext_equal]
pub enum CodeKindV {
    Indented,
    Fenced(Seq<char>),
}

/// Mathematical model of a `MdTag`.
#[verifier::ext_equal]
pub enum MdTagV {
    BlockQuote,
    CodeBlock(CodeKindV),
    Emphasis,
    FootnoteDefinition(Seq<char>),
    Heading(u32),
    Image(LinkKind, Seq<char>, Seq<char>),
    Item,
    Link(LinkKind, Seq<char>, Seq<char>),
    List(Option<u64>),
    Paragraph,
    Strikethrough,
    Strong,
    Table(Seq<ColumnAlign>),
    TableCell,
    TableHead,
    TableRow,
}

/// Mathematical model of an `MdEvent`.
#[verifier::ext_equal]
pub enum MdEventV {
    Start(MdTagV),
    End(MdTagV),
    Text(Seq<char>),
    Code(Seq<char>),
    Html(Seq<char>),
    FootnoteReference(Seq<char>),
    SoftBreak,
    HardBreak,
    Rule,
    TaskListMarker(bool),
}

impl View for CodeKind {
    type V = CodeKindV;

    open spec fn view(&self) -> CodeKindV {
        match self {
            CodeKind::Indented => CodeKindV::Indented,
            CodeKind::Fenced(language) => CodeKindV::Fenced(language@),
        }
    }
}

impl View for MdTag {
    type V = MdTagV;

    open spec fn view(&self) -> MdTagV {
        match self {
            MdTag::BlockQuote => MdTagV::BlockQuote,
            MdTag::CodeBlock(k) => MdTagV::CodeBlock(k@),
            MdTag::Emphasis => MdTagV::Emphasis,
            MdTag::FootnoteDefinition(label) => MdTagV::FootnoteDefinition(label@),
            MdTag::Heading(level) => MdTagV::Heading(*level),
            MdTag::Image(k, url, title) => MdTagV::Image(*k, url@, title@),
            MdTag::Item => MdTagV::Item,
            MdTag::Link(k, url, title) => MdTagV::Link(*k, url@, title@),
            MdTag::List(start) => MdTagV::List(*start),
            MdTag::Paragraph => MdTagV::Paragraph,
            MdTag::Strikethrough => MdTagV::Strikethrough,
            MdTag::Strong => MdTagV::Strong,
            MdTag::Table(aligns) => MdTagV::Table(aligns@),
            MdTag::TableCell => MdTagV::TableCell,
            MdTag::TableHead => MdTagV::TableHead,
            MdTag::TableRow => MdTagV::TableRow,
        }
    }
}

impl View for MdEvent {
    type V = MdEventV;

    open spec fn view(&self) -> MdEventV {
        match self {
            MdEvent::Start(t) => MdEventV::Start(t@),
            MdEvent::End(t) => MdEventV::End(t@),
            MdEvent::Text(s) => MdEventV::Text(s@),
            MdEvent::Code(s) => MdEventV::Code(s@),
            MdEvent::Html(s) => MdEventV::Html(s@),
            MdEvent::FootnoteReference(s) => MdEventV::FootnoteReference(s@),
            MdEvent::SoftBreak => MdEventV::SoftBreak,
            MdEvent::HardBreak => MdEventV::HardBreak,
            MdEvent::Rule => MdEventV::Rule,
            MdEvent::TaskListMarker(checked) => MdEventV::TaskListMarker(*checked),
        }
    }
}

/// The models of a sequence of events.
pub open spec fn view_events(v: Seq<MdEvent>) -> Seq<MdEventV> {
    v.map_values(|e: MdEvent| e@)
}

/// The string that names a link kind in the flat record schema.
pub open spec fn link_kind_name(k: LinkKind) -> Seq<char> {
    match k {
        LinkKind::Inline => "INLINE"@,
        LinkKind::Reference => "REFERENCE"@,
        LinkKind::Autolink => "AUTOLINK"@,
        LinkKind::Email => "EMAIL"@,
        LinkKind::Shortcut => "SHORTCUT"@,
        LinkKind::Collapsed => "COLLAPSED"@,
        LinkKind::Unknown => "UNKNOWN"@,
    }
}

/// The string that names a column alignment in the flat record schema.
pub open spec fn align_name(a: ColumnAlign) -> Seq<char> {
    match a {
        ColumnAlign::Unaligned => "None"@,
        ColumnAlign::Left => "Left"@,
        ColumnAlign::Right => "Right"@,
        ColumnAlign::Center => "Center"@,
    }
}

/// The string that names a construct in the flat record schema. The name
/// depends only on the construct, never on its payload.
pub open spec fn tag_name(t: MdTagV) -> Seq<char> {
    match t {
        MdTagV::BlockQuote => "BLOCK_QUOTE"@,
        MdTagV::CodeBlock(_) => "CODE_BLOCK"@,
        MdTagV::Emphasis => "EMPHASIS"@,
        MdTagV::FootnoteDefinition(_) => "FOOTNOTE_DEFINITION"@,
        MdTagV::Heading(_) => "HEADING"@,
        MdTagV::Image(_, _, _) => "IMAGE"@,
        MdTagV::Item => "ITEM"@,
        MdTagV::Link(_, _, _) => "LINK"@,
        MdTagV::List(_) => "LIST"@,
        MdTagV::Paragraph => "PARAGRAPH"@,
        MdTagV::Strikethrough => "STRIKETHROUGH"@,
        MdTagV::Strong => "STRONG"@,
        MdTagV::Table(_) => "TABLE"@,
        MdTagV::TableCell => "TABLE_CELL"@,
        MdTagV::TableHead => "TABLE_HEAD"@,
        MdTagV::TableRow => "TABLE_ROW"@,
    }
}

/// The sixteen construct names are pairwise distinct: their lengths,
/// and the disequalities among the names that share a length.
pub proof fn lemma_tag_names_distinct()
    ensures
        "BLOCK_QUOTE"@.len() == 11,
        "CODE_BLOCK"@.len() == 10,
        "EMPHASIS"@.len() == 8,
        "FOOTNOTE_DEFINITION"@.len() == 19,
        "HEADING"@.len() == 7,
        "IMAGE"@.len() == 5,
        "ITEM"@.len() == 4,
        "LINK"@.len() == 4,
        "LIST"@.len() == 4,
        "PARAGRAPH"@.len() == 9,
        "STRIKETHROUGH"@.len() == 13,
        "STRONG"@.len() == 6,
        "TABLE"@.len() == 5,
        "TABLE_CELL"@.len() == 10,
        "TABLE_HEAD"@.len() == 10,
        "TABLE_ROW"@.len() == 9,
        "LINK"@ != "ITEM"@,
        "LINK"@ != "LIST"@,
        "ITEM"@ != "LIST"@,
        "IMAGE"@ != "TABLE"@,
        "CODE_BLOCK"@ != "TABLE_CELL"@,
        "CODE_BLOCK"@ != "TABLE_HEAD"@,
        "TABLE_CELL"@ != "TABLE_HEAD"@,
        "PARAGRAPH"@ != "TABLE_ROW"@,
{
    reveal_strlit("BLOCK_QUOTE");
    reveal_strlit("CODE_BLOCK");
    reveal_strlit("EMPHASIS");
    reveal_strlit("FOOTNOTE_DEFINITION");
    reveal_strlit("HEADING");
    reveal_strlit("IMAGE");
    reveal_strlit("ITEM");
    reveal_strlit("LINK");
    reveal_strlit("LIST");
    reveal_strlit("PARAGRAPH");
    reveal_strlit("STRIKETHROUGH");
    reveal_strlit("STRONG");
    reveal_strlit("TABLE");
    reveal_strlit("TABLE_CELL");
    reveal_strlit("TABLE_HEAD");
    reveal_strlit("TABLE_ROW");
    assert("LINK"@[0] == 'L' && "ITEM"@[0] == 'I' && "LIST"@[2] == 'S' && "LINK"@[2] == 'N');
    assert("IMAGE"@[0] == 'I' && "TABLE"@[0] == 'T');
    assert("CODE_BLOCK"@[0] == 'C' && "TABLE_CELL"@[0] == 'T' && "TABLE_HEAD"@[0] == 'T');
    assert("TABLE_CELL"@[6] == 'C' && "TABLE_HEAD"@[6] == 'H');
    assert("PARAGRAPH"@[0] == 'P' && "TABLE_ROW"@[0] == 'T');
}

/// The ten event-kind names are pairwise distinct: their lengths, and
/// the disequalities among the names that share a length.
pub proof fn lemma_type_names_distinct()
    ensures
        "START"@.len() == 5,
        "END"@.len() == 3,
        "TEXT"@.len() == 4,
        "CODE"@.len() == 4,
        "HTML"@.len() == 4,
        "FOOTNOTE_REFERENCE"@.len() == 18,
        "SOFT_BREAK"@.len() == 10,
        "HARD_BREAK"@.len() == 10,
        "RULE"@.len() == 4,
        "TASK_LIST_MARKER"@.len() == 16,
        "TEXT"@ != "CODE"@,
        "TEXT"@ != "HTML"@,
        "TEXT"@ != "RULE"@,
        "CODE"@ != "HTML"@,
        "CODE"@ != "RULE"@,
        "HTML"@ != "RULE"@,
        "SOFT_BREAK"@ != "HARD_BREAK"@,
{
    reveal_strlit("START");
    reveal_strlit("END");
    reveal_strlit("TEXT");
    reveal_strlit("CODE");
    reveal_strlit("HTML");
    reveal_strlit("FOOTNOTE_REFERENCE");
    reveal_strlit("SOFT_BREAK");
    reveal_strlit("HARD_BREAK");
    reveal_strlit("RULE");
    reveal_strlit("TASK_LIST_MARKER");
    assert("TEXT"@[0] == 'T' && "CODE"@[0] == 'C' && "HTML"@[0] == 'H' && "RULE"@[0] == 'R');
    assert("SOFT_BREAK"@[0] == 'S' && "HARD_BREAK"@[0] == 'H');
}

/// The seven link-kind names are pairwise distinct, and none is empty.
pub proof fn lemma_link_kind_names_distinct()
    ensures
        "INLINE"@.len() == 6,
        "REFERENCE"@.len() == 9,
        "AUTOLINK"@.len() == 8,
        "EMAIL"@.len() == 5,
        "SHORTCUT"@.len() == 8,
        "COLLAPSED"@.len() == 9,
        "UNKNOWN"@.len() == 7,
        "AUTOLINK"@ != "SHORTCUT"@,
        "REFERENCE"@ != "COLLAPSED"@,
{
    reveal_strlit("INLINE");
    reveal_strlit("REFERENCE");
    reveal_strlit("AUTOLINK");
    reveal_strlit("EMAIL");
    reveal_strlit("SHORTCUT");
    reveal_strlit("COLLAPSED");
    reveal_strlit("UNKNOWN");
    assert("AUTOLINK"@[0] == 'A' && "SHORTCUT"@[0] == 'S');
    assert("REFERENCE"@[0] == 'R' && "COLLAPSED"@[0] == 'C');
}

/// The record-schema label of a link kind.
pub fn link_kind_label(k: LinkKind) -> (r: String)
    ensures
        r@ == link_kind_name(k),
{
    match k {
        LinkKind::Inline => String::from_str("INLINE"),
        LinkKind::Reference => String::from_str("REFERENCE"),
        LinkKind::Autolink => String::from_str("AUTOLINK"),
        LinkKind::Email => String::from_str("EMAIL"),
        LinkKind::Shortcut => String::from_str("SHORTCUT"),
        LinkKind::Collapsed => String::from_str("COLLAPSED"),
        LinkKind::Unknown => String::from_str("UNKNOWN"),
    }
}

/// The record-schema label of a column alignment.
pub fn align_label(a: ColumnAlign) -> (r: String)
    ensures
        r@ == align_name(a),
{
    match a {
        ColumnAlign::Unaligned => String::from_str("None"),
        ColumnAlign::Left => String::from_str("Left"),
        ColumnAlign::Right => String::from_str("Right"),
        ColumnAlign::Center => String::from_str("Center"),
    }
}

} // verus!
