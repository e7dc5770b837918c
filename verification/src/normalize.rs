//! The event normalizer.
//!
//! Each parse event becomes exactly one flat record: `typ` names the
//! event kind, `tag` the construct for START and END records, and the
//! construct's payload fills the fields documented for it, while every
//! other field keeps its default value. The mapping is total over every
//! event and construct the parsing engine can produce: exhaustive
//! matching over the closed enums makes an unhandled variant a compile
//! error, not a runtime one.

use vstd::prelude::*;

use crate::events::ColumnAlign;
use crate::events::CodeKind;
use crate::events::CodeKindV;
use crate::events::MdEvent;
use crate::events::MdEventV;
use crate::events::MdTag;
use crate::events::MdTagV;
use crate::events::align_label;
use crate::events::align_name;
use crate::events::link_kind_label;
use crate::events::link_kind_name;
use crate::events::tag_name;
use crate::record::Record;
use crate::record::RecordV;
use crate::record::blank_record;

verus! {

/// The record for a leaf event that carries text.
pub open spec fn leaf_record(typ: Seq<char>, content: Seq<char>) -> RecordV {
    RecordV { typ: typ, content: content, ..blank_record() }
}

/// The record for a leaf event without a payload.
pub open spec fn bare_record(typ: Seq<char>) -> RecordV {
    RecordV { typ: typ, ..blank_record() }
}

/// The record for a START or END event: the construct's name, plus the
/// fields documented for that construct.
pub open spec fn tag_record(typ: Seq<char>, t: MdTagV) -> RecordV {
    match t {
        MdTagV::BlockQuote => RecordV { typ: typ, tag: tag_name(t), ..blank_record() },
        MdTagV::CodeBlock(k) => match k {
            CodeKindV::Indented => RecordV {
                typ: typ,
                tag: tag_name(t),
                kind: "INDENTED"@,
                ..blank_record()
            },
            CodeKindV::Fenced(language) => RecordV {
                typ: typ,
                tag: tag_name(t),
                kind: "FENCED"@,
                language: language,
                ..blank_record()
            },
        },
        MdTagV::Emphasis => RecordV { typ: typ, tag: tag_name(t), ..blank_record() },
        MdTagV::FootnoteDefinition(label) => RecordV {
            typ: typ,
            tag: tag_name(t),
            label: label,
            ..blank_record()
        },
        MdTagV::Heading(level) => RecordV {
            typ: typ,
            tag: tag_name(t),
            level: level,
            ..blank_record()
        },
        MdTagV::Image(k, url, title) => RecordV {
            typ: typ,
            tag: tag_name(t),
            kind: link_kind_name(k),
            url: url,
            title: title,
            ..blank_record()
        },
        MdTagV::Item => RecordV { typ: typ, tag: tag_name(t), ..blank_record() },
        MdTagV::Link(k, url, title) => RecordV {
            typ: typ,
            tag: tag_name(t),
            kind: link_kind_name(k),
            url: url,
            title: title,
            ..blank_record()
        },
        MdTagV::List(start) => RecordV {
            typ: typ,
            tag: tag_name(t),
            start_number: match start {
                Some(n) => n,
                None => 0,
            },
            ..blank_record()
        },
        MdTagV::Paragraph => RecordV { typ: typ, tag: tag_name(t), ..blank_record() },
        MdTagV::Strikethrough => RecordV { typ: typ, tag: tag_name(t), ..blank_record() },
        MdTagV::Strong => RecordV { typ: typ, tag: tag_name(t), ..blank_record() },
        MdTagV::Table(aligns) => RecordV {
            typ: typ,
            tag: tag_name(t),
            alignments: aligns.map_values(|a: ColumnAlign| align_name(a)),
            ..blank_record()
        },
        MdTagV::TableCell => RecordV { typ: typ, tag: tag_name(t), ..blank_record() },
        MdTagV::TableHead => RecordV { typ: typ, tag: tag_name(t), ..blank_record() },
        MdTagV::TableRow => RecordV { typ: typ, tag: tag_name(t), ..blank_record() },
    }
}

/// The record that the normalizer owes for an event.
pub open spec fn normalize_spec(e: MdEventV) -> RecordV {
    match e {
        MdEventV::Start(t) => tag_record("START"@, t),
        MdEventV::End(t) => tag_record("END"@, t),
        MdEventV::Text(s) => leaf_record("TEXT"@, s),
        MdEventV::Code(s) => leaf_record("CODE"@, s),
        MdEventV::Html(s) => leaf_record("HTML"@, s),
        MdEventV::FootnoteReference(s) => leaf_record("FOOTNOTE_REFERENCE"@, s),
        MdEventV::SoftBreak => bare_record("SOFT_BREAK"@),
        MdEventV::HardBreak => bare_record("HARD_BREAK"@),
        MdEventV::Rule => bare_record("RULE"@),
        MdEventV::TaskListMarker(checked) => RecordV {
            typ: "TASK_LIST_MARKER"@,
            checked: checked,
            ..blank_record()
        },
    }
}

/// The records for a whole event sequence, in emission order.
pub open spec fn normalize_all(es: Seq<MdEventV>) -> Seq<RecordV> {
    es.map_values(|e: MdEventV| normalize_spec(e))
}

/// Builds the record of a leaf event that carries text.
fn build_leaf(typ: String, content: &String) -> (r: Record)
    ensures
        r@ == leaf_record(typ@, content@),
{
    let mut r = Record::blank();
    r.typ = typ;
    r.content = content.clone();
    proof {
        assert(r@ =~= leaf_record(r.typ@, content@));
    }
    r
}

/// Builds the record of a leaf event without a payload.
fn build_bare(typ: String) -> (r: Record)
    ensures
        r@ == bare_record(typ@),
{
    let mut r = Record::blank();
    r.typ = typ;
    proof {
        assert(r@ =~= bare_record(r.typ@));
    }
    r
}

/// Builds the record of a START or END event from its construct.
pub fn record_of_tag(typ: String, t: &MdTag) -> (r: Record)
    ensures
        r@ == tag_record(typ@, t@),
{
    let mut r = Record::blank();
    r.typ = typ;
    match t {
        MdTag::BlockQuote => {
            r.tag = String::from_str("BLOCK_QUOTE");
        },
        MdTag::CodeBlock(k) => {
            r.tag = String::from_str("CODE_BLOCK");
            match k {
                CodeKind::Indented => {
                    r.kind = String::from_str("INDENTED");
                },
                CodeKind::Fenced(language) => {
                    r.kind = String::from_str("FENCED");
                    r.language = language.clone();
                },
            }
        },
        MdTag::Emphasis => {
            r.tag = String::from_str("EMPHASIS");
        },
        MdTag::FootnoteDefinition(label) => {
            r.tag = String::from_str("FOOTNOTE_DEFINITION");
            r.label = label.clone();
        },
        MdTag::Heading(level) => {
            r.tag = String::from_str("HEADING");
            r.level = *level;
        },
        MdTag::Image(k, url, title) => {
            r.tag = String::from_str("IMAGE");
            r.kind = link_kind_label(*k);
            r.url = url.clone();
            r.title = title.clone();
        },
        MdTag::Item => {
            r.tag = String::from_str("ITEM");
        },
        MdTag::Link(k, url, title) => {
            r.tag = String::from_str("LINK");
            r.kind = link_kind_label(*k);
            r.url = url.clone();
            r.title = title.clone();
        },
        MdTag::List(start) => {
            r.tag = String::from_str("LIST");
            r.start_number = match start {
                Some(n) => *n,
                None => 0,
            };
        },
        MdTag::Paragraph => {
            r.tag = String::from_str("PARAGRAPH");
        },
        MdTag::Strikethrough => {
            r.tag = String::from_str("STRIKETHROUGH");
        },
        MdTag::Strong => {
            r.tag = String::from_str("STRONG");
        },
        MdTag::Table(aligns) => {
            r.tag = String::from_str("TABLE");
            let mut names: Vec<String> = Vec::new();
            let mut i: usize = 0;
            while i < aligns.len()
                invariant
                    i <= aligns.len(),
                    names@.len() == i,
                    forall|j: int| 0 <= j < i ==> names@[j]@ == align_name(aligns@[j]),
                decreases aligns.len() - i,
            {
                names.push(align_label(aligns[i]));
                i += 1;
            }
            r.alignments = names;
            proof {
                assert(r.alignments@.map_values(|s: String| s@) =~= aligns@.map_values(
                    |a: ColumnAlign| align_name(a),
                ));
            }
        },
        MdTag::TableCell => {
            r.tag = String::from_str("TABLE_CELL");
        },
        MdTag::TableHead => {
            r.tag = String::from_str("TABLE_HEAD");
        },
        MdTag::TableRow => {
            r.tag = String::from_str("TABLE_ROW");
        },
    }
    proof {
        assert(r@ =~= tag_record(r.typ@, t@));
    }
    r
}

/// Maps one parse event to exactly one flat record.
pub fn normalize(e: &MdEvent) -> (r: Record)
    ensures
        r@ == normalize_spec(e@),
{
    match e {
        MdEvent::Start(t) => record_of_tag(String::from_str("START"), t),
        MdEvent::End(t) => record_of_tag(String::from_str("END"), t),
        MdEvent::Text(s) => build_leaf(String::from_str("TEXT"), s),
        MdEvent::Code(s) => build_leaf(String::from_str("CODE"), s),
        MdEvent::Html(s) => build_leaf(String::from_str("HTML"), s),
        MdEvent::FootnoteReference(s) => build_leaf(String::from_str("FOOTNOTE_REFERENCE"), s),
        MdEvent::SoftBreak => build_bare(String::from_str("SOFT_BREAK")),
        MdEvent::HardBreak => build_bare(String::from_str("HARD_BREAK")),
        MdEvent::Rule => build_bare(String::from_str("RULE")),
        MdEvent::TaskListMarker(checked) => {
            let mut r = build_bare(String::from_str("TASK_LIST_MARKER"));
            r.checked = *checked;
            proof {
                assert(r@ =~= normalize_spec(e@));
            }
            r
        },
    }
}

} // verus!
