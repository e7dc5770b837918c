//! Markdown event extraction and HTML rendering.
//!
//! A Markdown document is turned into two derived artifacts: a flat,
//! uniformly shaped sequence of records describing every block- and
//! inline-level construct the parsing engine encounters, and a rendered
//! HTML string. Parsing itself is delegated to an external CommonMark
//! engine; this crate's own logic is the normalization of the engine's
//! richly typed event stream into the flat record schema.

use vstd::prelude::*;

mod engine;
mod events;
mod nesting;
mod normalize;
mod record;
mod schema;

pub use engine::html_of;
pub use engine::parse_events;

pub use nesting::event_heading_ok;
pub use nesting::events_nested_from;
pub use nesting::events_well_nested;
pub use nesting::heading_levels_ok;
pub use nesting::lemma_heading_level_bound;
pub use nesting::lemma_records_well_nested;
pub use nesting::records_nested_from;
pub use nesting::records_well_nested;

pub use schema::bare_schema_ok;
pub use schema::is_link_kind_name;
pub use schema::leaf_schema_ok;
pub use schema::lemma_link_kind_totality;
pub use schema::lemma_link_record_kind;
pub use schema::lemma_schema_totality;
pub use schema::schema_ok;
pub use schema::tag_schema_ok;

pub use normalize::bare_record;
pub use normalize::leaf_record;
pub use normalize::normalize;
pub use normalize::normalize_all;
pub use normalize::normalize_spec;
pub use normalize::record_of_tag;
pub use normalize::tag_record;

pub use record::Record;
pub use record::RecordV;
pub use record::blank_record;
pub use record::view_records;

pub use events::ColumnAlign;
pub use events::CodeKind;
pub use events::CodeKindV;
pub use events::LinkKind;
pub use events::MdEvent;
pub use events::MdEventV;
pub use events::MdTag;
pub use events::MdTagV;
pub use events::align_label;
pub use events::align_name;
pub use events::link_kind_label;
pub use events::link_kind_name;
pub use events::tag_name;
pub use events::view_events;

verus! {

/// Parses a document and returns the normalized record sequence: one
/// flat record per engine event, in emission order, with no event
/// skipped, reordered or merged. The record sequence keeps the
/// engine's stack discipline of START and END records.
pub fn parse(contents: &str) -> (r: Vec<Record>)
    ensures
        view_records(r@) == normalize_all(parse_events(contents@)),
        records_well_nested(view_records(r@)),
        forall|i: int|
            0 <= i < r@.len() && (#[trigger] view_records(r@)[i]).tag == "HEADING"@ ==> 1
                <= view_records(r@)[i].level <= 6,
{
    let events = engine::run_engine(contents);
    let mut out: Vec<Record> = Vec::new();
    let mut i: usize = 0;
    while i < events.len()
        invariant
            i <= events.len(),
            view_events(events@) == parse_events(contents@),
            events_well_nested(view_events(events@)),
            out@.len() == i,
            forall|j: int| 0 <= j < i ==> (#[trigger] out@[j])@ == normalize_spec(
                view_events(events@)[j],
            ),
        decreases events.len() - i,
    {
        let rec = normalize(&events[i]);
        out.push(rec);
        i += 1;
    }
    proof {
        assert(view_records(out@) =~= normalize_all(view_events(events@)));
        nesting::lemma_records_well_nested(view_events(events@));
        nesting::lemma_heading_level_bound(view_events(events@));
    }
    out
}

/// Renders a document to HTML, as the parsing engine's own renderer
/// defines it: construct markup, escaping of text, pass-through of raw
/// HTML.
pub fn html(contents: &str) -> (r: String)
    ensures
        r@ == html_of(contents@),
{
    engine::render_engine(contents)
}

/// Idempotent rendering: the HTML output is a function of the input
/// text alone, so two calls on equal documents return equal output.
pub proof fn lemma_render_deterministic(a: Seq<char>, b: Seq<char>)
    requires
        a == b,
    ensures
        html_of(a) == html_of(b),
{
}

} // verus!
