//! Structural laws of the output sequence.
//!
//! The engine opens every construct with a Start event and closes it
//! with a matching End event, in stack discipline. The normalizer keeps
//! that shape: in the record sequence, START and END records balance
//! and nest by construct name, and every HEADING record carries a level
//! between 1 and 6.

use vstd::prelude::*;

use crate::events::MdEventV;
use crate::events::MdTagV;
use crate::events::lemma_tag_names_distinct;
use crate::events::lemma_type_names_distinct;
use crate::events::tag_name;
use crate::normalize::normalize_all;
use crate::normalize::normalize_spec;
use crate::record::RecordV;

verus! {

/// Stack discipline of an event sequence, starting from a stack of the
/// names of the constructs already open: every End closes the construct
/// opened last, and at the end of the sequence nothing stays open.
pub open spec fn events_nested_from(es: Seq<MdEventV>, stack: Seq<Seq<char>>) -> bool
    decreases es.len(),
{
    if es.len() == 0 {
        stack.len() == 0
    } else {
        match es[0] {
            MdEventV::Start(t) => events_nested_from(es.drop_first(), stack.push(tag_name(t))),
            MdEventV::End(t) => stack.len() > 0 && stack.last() == tag_name(t)
                && events_nested_from(es.drop_first(), stack.drop_last()),
            _ => events_nested_from(es.drop_first(), stack),
        }
    }
}

/// Well-nestedness of a whole event sequence.
pub open spec fn events_well_nested(es: Seq<MdEventV>) -> bool {
    events_nested_from(es, Seq::<Seq<char>>::empty())
}

/// Stack discipline of a record sequence, by the `typ` and `tag`
/// fields: every END record closes the tag opened by the latest
/// unmatched START record, and no START record stays unmatched.
pub open spec fn records_nested_from(rs: Seq<RecordV>, stack: Seq<Seq<char>>) -> bool
    decreases rs.len(),
{
    if rs.len() == 0 {
        stack.len() == 0
    } else if rs[0].typ == "START"@ {
        records_nested_from(rs.drop_first(), stack.push(rs[0].tag))
    } else if rs[0].typ == "END"@ {
        stack.len() > 0 && stack.last() == rs[0].tag
            && records_nested_from(rs.drop_first(), stack.drop_last())
    } else {
        records_nested_from(rs.drop_first(), stack)
    }
}

/// Well-nestedness of a whole record sequence.
pub open spec fn records_well_nested(rs: Seq<RecordV>) -> bool {
    records_nested_from(rs, Seq::<Seq<char>>::empty())
}

/// Every heading the event sequence opens or closes has a level
/// between 1 and 6.
pub open spec fn event_heading_ok(e: MdEventV) -> bool {
    match e {
        MdEventV::Start(t) => match t {
            MdTagV::Heading(level) => 1 <= level <= 6,
            _ => true,
        },
        MdEventV::End(t) => match t {
            MdTagV::Heading(level) => 1 <= level <= 6,
            _ => true,
        },
        _ => true,
    }
}

/// Every heading in the event sequence has a level between 1 and 6.
pub open spec fn heading_levels_ok(es: Seq<MdEventV>) -> bool {
    forall|i: int| 0 <= i < es.len() ==> event_heading_ok(#[trigger] es[i])
}

proof fn lemma_records_nested_from(es: Seq<MdEventV>, stack: Seq<Seq<char>>)
    requires
        events_nested_from(es, stack),
    ensures
        records_nested_from(normalize_all(es), stack),
    decreases es.len(),
{
    lemma_type_names_distinct();
    let rs = normalize_all(es);
    if es.len() == 0 {
        assert(rs =~= Seq::<RecordV>::empty());
    } else {
        assert(rs[0] == normalize_spec(es[0]));
        assert(normalize_all(es.drop_first()) =~= rs.drop_first());
        match es[0] {
            MdEventV::Start(t) => {
                lemma_records_nested_from(es.drop_first(), stack.push(tag_name(t)));
            },
            MdEventV::End(t) => {
                lemma_records_nested_from(es.drop_first(), stack.drop_last());
            },
            _ => {
                lemma_records_nested_from(es.drop_first(), stack);
            },
        }
    }
}

/// Structural balance: a well-nested event sequence normalizes to a
/// well-nested record sequence — START and END records with matching
/// tags balance, and no prefix closes a construct that an earlier
/// unmatched START record did not open.
pub proof fn lemma_records_well_nested(es: Seq<MdEventV>)
    requires
        events_well_nested(es),
    ensures
        records_well_nested(normalize_all(es)),
{
    lemma_records_nested_from(es, Seq::<Seq<char>>::empty());
}

proof fn lemma_heading_record(e: MdEventV)
    requires
        event_heading_ok(e),
    ensures
        normalize_spec(e).tag == "HEADING"@ ==> 1 <= normalize_spec(e).level <= 6,
{
    lemma_tag_names_distinct();
    lemma_type_names_distinct();
}

/// Heading level bound: when every heading event of the engine carries
/// a level between 1 and 6, every HEADING record does too.
pub proof fn lemma_heading_level_bound(es: Seq<MdEventV>)
    requires
        heading_levels_ok(es),
    ensures
        forall|i: int| 0 <= i < es.len() && (#[trigger] normalize_all(es)[i]).tag == "HEADING"@
            ==> 1 <= normalize_all(es)[i].level <= 6,
{
    assert forall|i: int|
        0 <= i < es.len() && (#[trigger] normalize_all(es)[i]).tag == "HEADING"@ implies 1
        <= normalize_all(es)[i].level <= 6 by {
        assert(event_heading_ok(es[i]));
        lemma_heading_record(es[i]);
    }
}

} // verus!
