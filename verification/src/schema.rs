//! Laws of the flat record schema.
//!
//! The record shape is the same for every event; only the meaning of
//! the fields varies with `typ` and `tag`. The laws here pin that down:
//! every field outside the set documented for an event's kind and
//! construct keeps its default value, and the link-kind discriminator
//! of a link or image record is always one of the seven documented
//! names.

use vstd::prelude::*;

use crate::events::LinkKind;
use crate::events::MdEventV;
use crate::events::MdTagV;
use crate::events::lemma_link_kind_names_distinct;
use crate::events::lemma_tag_names_distinct;
use crate::events::lemma_type_names_distinct;
use crate::events::link_kind_name;
use crate::normalize::normalize_spec;
use crate::record::RecordV;
use crate::record::blank_record;

verus! {

/// A record that differs from the all-default record in at most `typ`
/// and `content`.
pub open spec fn leaf_schema_ok(r: RecordV) -> bool {
    r == RecordV { typ: r.typ, content: r.content, ..blank_record() }
}

/// A record that differs from the all-default record in at most `typ`.
pub open spec fn bare_schema_ok(r: RecordV) -> bool {
    r == RecordV { typ: r.typ, ..blank_record() }
}

/// For a START or END record of construct `t`: the construct name is
/// never empty, and every field outside the set documented for that
/// construct keeps its default value.
pub open spec fn tag_schema_ok(t: MdTagV, r: RecordV) -> bool {
    &&& r.tag.len() > 0
    &&& match t {
        MdTagV::CodeBlock(_) => r == RecordV {
            typ: r.typ,
            tag: r.tag,
            kind: r.kind,
            language: r.language,
            ..blank_record()
        } && r.kind.len() > 0,
        MdTagV::FootnoteDefinition(_) => r == RecordV {
            typ: r.typ,
            tag: r.tag,
            label: r.label,
            ..blank_record()
        },
        MdTagV::Heading(_) => r == RecordV { typ: r.typ, tag: r.tag, level: r.level, ..blank_record() },
        MdTagV::Image(_, _, _) => r == RecordV {
            typ: r.typ,
            tag: r.tag,
            kind: r.kind,
            url: r.url,
            title: r.title,
            ..blank_record()
        } && r.kind.len() > 0,
        MdTagV::Link(_, _, _) => r == RecordV {
            typ: r.typ,
            tag: r.tag,
            kind: r.kind,
            url: r.url,
            title: r.title,
            ..blank_record()
        } && r.kind.len() > 0,
        MdTagV::List(_) => r == RecordV {
            typ: r.typ,
            tag: r.tag,
            start_number: r.start_number,
            ..blank_record()
        },
        MdTagV::Table(_) => r == RecordV {
            typ: r.typ,
            tag: r.tag,
            alignments: r.alignments,
            ..blank_record()
        },
        _ => r == RecordV { typ: r.typ, tag: r.tag, ..blank_record() },
    }
}

/// The schema obligation of a record produced for event `e`: `typ` is
/// never empty, `fenced` is always false, and every field that the
/// schema does not document for this event keeps its default value.
pub open spec fn schema_ok(e: MdEventV, r: RecordV) -> bool {
    &&& r.typ.len() > 0
    &&& r.fenced == false
    &&& match e {
        MdEventV::Start(t) => tag_schema_ok(t, r),
        MdEventV::End(t) => tag_schema_ok(t, r),
        MdEventV::Text(_) => leaf_schema_ok(r),
        MdEventV::Code(_) => leaf_schema_ok(r),
        MdEventV::Html(_) => leaf_schema_ok(r),
        MdEventV::FootnoteReference(_) => leaf_schema_ok(r),
        MdEventV::SoftBreak => bare_schema_ok(r),
        MdEventV::HardBreak => bare_schema_ok(r),
        MdEventV::Rule => bare_schema_ok(r),
        MdEventV::TaskListMarker(_) => r == RecordV {
            typ: r.typ,
            checked: r.checked,
            ..blank_record()
        },
    }
}

/// Schema totality: whatever event the engine produces, its record
/// leaves every field the schema does not document for that event at
/// the field's default value. (A documented field may still equal its
/// default when the payload itself does, such as the starting ordinal
/// of an unordered list.)
pub proof fn lemma_schema_totality(e: MdEventV)
    ensures
        schema_ok(e, normalize_spec(e)),
{
    lemma_type_names_distinct();
    lemma_tag_names_distinct();
    lemma_link_kind_names_distinct();
    reveal_strlit("INDENTED");
    reveal_strlit("FENCED");
}

/// `s` is one of the seven documented link-kind names.
pub open spec fn is_link_kind_name(s: Seq<char>) -> bool {
    ||| s == "INLINE"@
    ||| s == "REFERENCE"@
    ||| s == "AUTOLINK"@
    ||| s == "EMAIL"@
    ||| s == "SHORTCUT"@
    ||| s == "COLLAPSED"@
    ||| s == "UNKNOWN"@
}

/// Link-kind totality: every link kind the engine can report maps to
/// one of the seven documented names, and never to the empty string.
pub proof fn lemma_link_kind_totality(k: LinkKind)
    ensures
        is_link_kind_name(link_kind_name(k)),
        link_kind_name(k).len() > 0,
{
    lemma_link_kind_names_distinct();
}

/// A record whose tag is LINK or IMAGE always carries one of the seven
/// documented link-kind names in `kind`, never the empty string.
pub proof fn lemma_link_record_kind(e: MdEventV)
    ensures
        normalize_spec(e).tag == "LINK"@ || normalize_spec(e).tag == "IMAGE"@
            ==> is_link_kind_name(normalize_spec(e).kind) && normalize_spec(e).kind.len() > 0,
{
    lemma_tag_names_distinct();
    lemma_type_names_distinct();
    match e {
        MdEventV::Start(t) => match t {
            MdTagV::Link(k, _, _) => lemma_link_kind_totality(k),
            MdTagV::Image(k, _, _) => lemma_link_kind_totality(k),
            _ => (),
        },
        MdEventV::End(t) => match t {
            MdTagV::Link(k, _, _) => lemma_link_kind_totality(k),
            MdTagV::Image(k, _, _) => lemma_link_kind_totality(k),
            _ => (),
        },
        _ => (),
    }
}

} // verus!
