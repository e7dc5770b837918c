//! The flat record schema.
//!
//! Every event is reported to the caller as one `Record` with the same
//! thirteen fields, whatever the event was. A field that carries no
//! payload of the event is left at its type's default value (empty
//! string, zero, false, empty sequence); only the meaning of the fields
//! varies with `typ` and `tag`. Consumers across a serialization
//! boundary bind to the fields by name, so the shape is fixed.

use vstd::prelude::*;

verus! {

/// One flattened event, with the full field superset of every variant.
#[derive(Clone, Debug)]
pub struct Record {
    /// Event kind: one of START, END, TEXT, CODE, HTML,
    /// FOOTNOTE_REFERENCE, SOFT_BREAK, HARD_BREAK, RULE,
    /// TASK_LIST_MARKER. Serialized across the boundary under the wire
    /// name `type`, which Rust reserves.
    pub typ: String,
    /// Construct name; meaningful only when `typ` is START or END.
    pub tag: String,
    /// Text payload of TEXT, CODE, HTML and FOOTNOTE_REFERENCE events.
    pub content: String,
    /// Heading depth, 1 to 6; 0 when inapplicable.
    pub level: u32,
    /// Sub-kind discriminator: the code block kind or the link kind.
    pub kind: String,
    /// Retained for schema stability; always false.
    pub fenced: bool,
    /// Info string of a fenced code block.
    pub language: String,
    /// Starting ordinal of an ordered list; 0 for an unordered list.
    pub start_number: u64,
    /// Label of a footnote definition.
    pub label: String,
    /// Table column alignments, one name per column.
    pub alignments: Vec<String>,
    /// Destination of a link or image.
    pub url: String,
    /// Title of a link or image.
    pub title: String,
    /// Whether a task list marker is checked.
    pub checked: bool,
}

/// Mathematical model of a `Record`.
#[verifier::ext_equal]
pub struct RecordV {
    pub typ: Seq<char>,
    pub tag: Seq<char>,
    pub content: Seq<char>,
    pub level: u32,
    pub kind: Seq<char>,
    pub fenced: bool,
    pub language: Seq<char>,
    pub start_number: u64,
    pub label: Seq<char>,
    pub alignments: Seq<Seq<char>>,
    pub url: Seq<char>,
    pub title: Seq<char>,
    pub checked: bool,
}

impl View for Record {
    type V = RecordV;

    open spec fn view(&self) -> RecordV {
        RecordV {
            typ: self.typ@,
            tag: self.tag@,
            content: self.content@,
            level: self.level,
            kind: self.kind@,
            fenced: self.fenced,
            language: self.language@,
            start_number: self.start_number,
            label: self.label@,
            alignments: self.alignments@.map_values(|s: String| s@),
            url: self.url@,
            title: self.title@,
            checked: self.checked,
        }
    }
}

/// The models of a sequence of records.
pub open spec fn view_records(v: Seq<Record>) -> Seq<RecordV> {
    v.map_values(|r: Record| r@)
}

/// The record whose every field holds its type's default value.
pub open spec fn blank_record() -> RecordV {
    RecordV {
        typ: Seq::<char>::empty(),
        tag: Seq::<char>::empty(),
        content: Seq::<char>::empty(),
        level: 0,
        kind: Seq::<char>::empty(),
        fenced: false,
        language: Seq::<char>::empty(),
        start_number: 0,
        label: Seq::<char>::empty(),
        alignments: Seq::<Seq<char>>::empty(),
        url: Seq::<char>::empty(),
        title: Seq::<char>::empty(),
        checked: false,
    }
}

impl Record {
    /// A record with every field at its default value.
    pub fn blank() -> (r: Record)
        ensures
            r@ == blank_record(),
    {
        let r = Record {
            typ: String::new(),
            tag: String::new(),
            content: String::new(),
            level: 0,
            kind: String::new(),
            fenced: false,
            language: String::new(),
            start_number: 0,
            label: String::new(),
            alignments: Vec::new(),
            url: String::new(),
            title: String::new(),
            checked: false,
        };
        proof {
            assert(r.alignments@.map_values(|s: String| s@) =~= Seq::<Seq<char>>::empty());
            assert(r@ =~= blank_record());
        }
        r
    }
}

} // verus!
