//! The parsing engine boundary.
//!
//! Parsing itself is delegated to the pulldown_cmark crate, driven with
//! the table, footnote, strikethrough and task-list extensions enabled.
//! Everything the crate relies on from it is gathered here: the names
//! `parse_events` and `html_of` stand for what the engine returns for a
//! document, and the trusted functions below make the calls and convert
//! the engine's borrowed, richly typed values into the crate's own
//! plain event type, one variant arm per engine variant.

use vstd::prelude::*;

use crate::events::ColumnAlign;
use crate::events::CodeKind;
use crate::events::LinkKind;
use crate::events::MdEvent;
use crate::events::MdEventV;
use crate::events::MdTag;
use crate::events::view_events;
use crate::nesting::events_well_nested;
use crate::nesting::heading_levels_ok;
use pulldown_cmark::CowStr;
use pulldown_cmark::Tag as CmTag;

verus! {

#[verifier::external_type_specification]
#[verifier::external_body]
pub struct ExEvent<'a>(pulldown_cmark::Event<'a>);

#[verifier::external_type_specification]
#[verifier::external_body]
pub struct ExTag<'a>(pulldown_cmark::Tag<'a>);

#[verifier::external_type_specification]
#[verifier::external_body]
pub struct ExCodeBlockKind<'a>(pulldown_cmark::CodeBlockKind<'a>);

#[verifier::external_type_specification]
#[verifier::external_body]
pub struct ExLinkType(pulldown_cmark::LinkType);

#[verifier::external_type_specification]
#[verifier::external_body]
pub struct ExAlignment(pulldown_cmark::Alignment);

#[verifier::external_type_specification]
#[verifier::external_body]
pub struct ExCowStr<'a>(pulldown_cmark::CowStr<'a>);

/// The engine's event stream for a document: a function of the input
/// text alone.
pub uninterp spec fn parse_events(text: Seq<char>) -> Seq<MdEventV>;

/// The engine's HTML rendering of a document: a function of the input
/// text alone.
pub uninterp spec fn html_of(text: Seq<char>) -> Seq<char>;

/// Relies on pulldown_cmark::Alignment: one arm per variant.
#[verifier::external_body]
fn align_of(a: pulldown_cmark::Alignment) -> ColumnAlign {
    match a {
        pulldown_cmark::Alignment::None => ColumnAlign::Unaligned,
        pulldown_cmark::Alignment::Left => ColumnAlign::Left,
        pulldown_cmark::Alignment::Right => ColumnAlign::Right,
        pulldown_cmark::Alignment::Center => ColumnAlign::Center,
    }
}

/// Relies on pulldown_cmark::LinkType: one arm per variant; the three
/// variants for links whose label is undefined in the document all
/// stand for an unknown reference.
#[verifier::external_body]
fn link_of(k: pulldown_cmark::LinkType) -> LinkKind {
    match k {
        pulldown_cmark::LinkType::Inline => LinkKind::Inline,
        pulldown_cmark::LinkType::Reference => LinkKind::Reference,
        pulldown_cmark::LinkType::Autolink => LinkKind::Autolink,
        pulldown_cmark::LinkType::Email => LinkKind::Email,
        pulldown_cmark::LinkType::Shortcut => LinkKind::Shortcut,
        pulldown_cmark::LinkType::Collapsed => LinkKind::Collapsed,
        pulldown_cmark::LinkType::ReferenceUnknown => LinkKind::Unknown,
        pulldown_cmark::LinkType::CollapsedUnknown => LinkKind::Unknown,
        pulldown_cmark::LinkType::ShortcutUnknown => LinkKind::Unknown,
    }
}

/// Relies on pulldown_cmark::CodeBlockKind: one arm per variant, the
/// fence's info string moved as an owned string.
#[verifier::external_body]
fn kind_of(k: pulldown_cmark::CodeBlockKind) -> CodeKind {
    match k {
        pulldown_cmark::CodeBlockKind::Indented => CodeKind::Indented,
        pulldown_cmark::CodeBlockKind::Fenced(language) => CodeKind::Fenced(
            language.into_string(),
        ),
    }
}

/// Relies on pulldown_cmark::Tag::Link's payload: the kind converted,
/// the destination and title moved as owned strings.
#[verifier::external_body]
fn link_tag_of(k: pulldown_cmark::LinkType, url: CowStr, title: CowStr) -> MdTag {
    MdTag::Link(link_of(k), url.into_string(), title.into_string())
}

/// Relies on pulldown_cmark::Tag::Image's payload: the kind converted,
/// the destination and title moved as owned strings.
#[verifier::external_body]
fn image_tag_of(k: pulldown_cmark::LinkType, url: CowStr, title: CowStr) -> MdTag {
    MdTag::Image(link_of(k), url.into_string(), title.into_string())
}

/// Relies on pulldown_cmark::Tag::Table's payload: each column's
/// alignment converted, in column order.
#[verifier::external_body]
fn table_tag_of(aligns: Vec<pulldown_cmark::Alignment>) -> MdTag {
    MdTag::Table(aligns.into_iter().map(align_of).collect())
}

/// Relies on pulldown_cmark::Tag: one arm per variant, each payload
/// moved as a plain value.
#[verifier::external_body]
fn tag_of(t: CmTag) -> MdTag {
    match t {
        CmTag::Paragraph => MdTag::Paragraph, CmTag::BlockQuote => MdTag::BlockQuote,
        CmTag::Item => MdTag::Item, CmTag::Emphasis => MdTag::Emphasis,
        CmTag::Strong => MdTag::Strong, CmTag::Strikethrough => MdTag::Strikethrough,
        CmTag::TableHead => MdTag::TableHead, CmTag::TableRow => MdTag::TableRow,
        CmTag::TableCell => MdTag::TableCell,
        CmTag::Heading(level) => MdTag::Heading(level),
        CmTag::CodeBlock(k) => MdTag::CodeBlock(kind_of(k)),
        CmTag::List(start) => MdTag::List(start),
        CmTag::FootnoteDefinition(label) => MdTag::FootnoteDefinition(label.into_string()),
        CmTag::Table(aligns) => table_tag_of(aligns),
        CmTag::Link(k, url, title) => link_tag_of(k, url, title),
        CmTag::Image(k, url, title) => image_tag_of(k, url, title),
    }
}

/// Relies on pulldown_cmark::Event: one arm per variant, each payload
/// moved as a plain value.
#[verifier::external_body]
fn event_of(e: pulldown_cmark::Event) -> MdEvent {
    match e {
        pulldown_cmark::Event::Start(t) => MdEvent::Start(tag_of(t)),
        pulldown_cmark::Event::End(t) => MdEvent::End(tag_of(t)),
        pulldown_cmark::Event::Text(s) => MdEvent::Text(s.into_string()),
        pulldown_cmark::Event::Code(s) => MdEvent::Code(s.into_string()),
        pulldown_cmark::Event::Html(s) => MdEvent::Html(s.into_string()),
        pulldown_cmark::Event::FootnoteReference(s) => MdEvent::FootnoteReference(s.into_string()),
        pulldown_cmark::Event::SoftBreak => MdEvent::SoftBreak,
        pulldown_cmark::Event::HardBreak => MdEvent::HardBreak,
        pulldown_cmark::Event::Rule => MdEvent::Rule,
        pulldown_cmark::Event::TaskListMarker(checked) => MdEvent::TaskListMarker(checked),
    }
}

/// Relies on pulldown_cmark::Parser::new_ext and its Iterator
/// implementation: the event stream is a function of the input text
/// alone; "start and end events are guaranteed to be balanced" (the
/// engine's documentation of `Event::Start`), and a heading's level is
/// 1 to 6 (`scan_atx_heading` admits one to six `#`, a setext
/// underline yields level 1 or 2).
#[verifier::external_body]
pub(crate) fn run_engine(text: &str) -> (r: Vec<MdEvent>)
    ensures
        view_events(r@) == parse_events(text@),
        events_well_nested(view_events(r@)),
        heading_levels_ok(view_events(r@)),
{
    let opts = pulldown_cmark::Options::ENABLE_TABLES | pulldown_cmark::Options::ENABLE_FOOTNOTES
        | pulldown_cmark::Options::ENABLE_STRIKETHROUGH
        | pulldown_cmark::Options::ENABLE_TASKLISTS;
    pulldown_cmark::Parser::new_ext(text, opts).map(event_of).collect()
}

/// Relies on pulldown_cmark::html::push_html over the same parser
/// configuration: the rendered HTML is a function of the input text
/// alone.
#[verifier::external_body]
pub(crate) fn render_engine(text: &str) -> (r: String)
    ensures
        r@ == html_of(text@),
{
    let opts = pulldown_cmark::Options::ENABLE_TABLES | pulldown_cmark::Options::ENABLE_FOOTNOTES
        | pulldown_cmark::Options::ENABLE_STRIKETHROUGH
        | pulldown_cmark::Options::ENABLE_TASKLISTS;
    let mut out = String::new();
    pulldown_cmark::html::push_html(&mut out, pulldown_cmark::Parser::new_ext(text, opts));
    out
}

} // verus!
