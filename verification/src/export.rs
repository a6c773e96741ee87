//! Export of recorded occurrences as a CSV document.

use crate::csv_format::{record_bytes, text_fields};
use crate::csv_writer::{record_width, written, CsvBuffer};
use crate::error::{Error, ErrorView};
use crate::model::{
    views, AnalysisEventSummary, AnalysisEventSummaryView, AnalysisEventType,
    AnalysisEventTypeView,
};
use std::collections::HashMap;
use vstd::prelude::*;
use vstd::string::StringExecFns;
use vstd::utf8::encode_utf8;

verus! {

broadcast use vstd::std_specs::hash::group_hash_axioms;

/// The name under each event-type identity. Where two event types share an
/// identity, the later one gives the name.
pub open spec fn name_lookup(event_types: Seq<AnalysisEventTypeView>) -> Map<i64, Seq<char>>
    decreases event_types.len(),
{
    if event_types.len() == 0 {
        Map::empty()
    } else {
        name_lookup(event_types.drop_last()).insert(
            event_types.last().id,
            event_types.last().name,
        )
    }
}

/// Whether every occurrence names an event type that has a name.
pub open spec fn all_known(
    names: Map<i64, Seq<char>>,
    occurrences: Seq<AnalysisEventSummaryView>,
) -> bool {
    forall|i: int|
        0 <= i < occurrences.len() ==> names.contains_key(
            (#[trigger] occurrences[i]).event_type_id,
        )
}

/// The three column titles.
pub open spec fn header_texts() -> Seq<Seq<char>> {
    seq!["Event Type"@, "Start Time"@, "End Time"@]
}

/// The text of the last column: the end where there is one, else nothing.
pub open spec fn end_text(occurrence: AnalysisEventSummaryView) -> Seq<char> {
    match occurrence.end_timestamp {
        Some(text) => text,
        None => Seq::empty(),
    }
}

/// The three texts of the row of one occurrence.
pub open spec fn row_texts(
    names: Map<i64, Seq<char>>,
    occurrence: AnalysisEventSummaryView,
) -> Seq<Seq<char>> {
    seq![names[occurrence.event_type_id], occurrence.start_timestamp, end_text(occurrence)]
}

/// A record of texts as bytes of the document.
pub open spec fn text_record(texts: Seq<Seq<char>>) -> Seq<u8> {
    record_bytes(Seq::new(texts.len(), |i: int| encode_utf8(texts[i])))
}

/// The rows of the occurrences, one after the other in the order given.
pub open spec fn rows_bytes(
    names: Map<i64, Seq<char>>,
    occurrences: Seq<AnalysisEventSummaryView>,
) -> Seq<u8>
    decreases occurrences.len(),
{
    if occurrences.len() == 0 {
        Seq::empty()
    } else {
        rows_bytes(names, occurrences.drop_last()) + text_record(
            row_texts(names, occurrences.last()),
        )
    }
}

/// The whole document: the header row, then one row for each occurrence.
pub open spec fn csv_document(
    names: Map<i64, Seq<char>>,
    occurrences: Seq<AnalysisEventSummaryView>,
) -> Seq<u8> {
    text_record(header_texts()) + rows_bytes(names, occurrences)
}

/// What an export comes to: no event types at all is one failure, an
/// occurrence of an unknown event type another, and everything else gives the
/// document.
pub open spec fn export_outcome(
    event_types: Seq<AnalysisEventTypeView>,
    occurrences: Seq<AnalysisEventSummaryView>,
) -> Result<Seq<u8>, ErrorView> {
    if event_types.len() == 0 {
        Err(ErrorView::EmptyEventTypes)
    } else if !all_known(name_lookup(event_types), occurrences) {
        Err(ErrorView::UnknownEventType)
    } else {
        Ok(csv_document(name_lookup(event_types), occurrences))
    }
}

/// Whether a table of names holds what the lookup says.
spec fn holds_names(table: Map<i64, String>, names: Map<i64, Seq<char>>) -> bool {
    &&& table.dom() == names.dom()
    &&& forall|id: i64| #[trigger] table.contains_key(id) ==> table[id]@ == names[id]
}

fn build_lookup(event_types: &Vec<AnalysisEventType>) -> (table: HashMap<i64, String>)
    ensures
        holds_names(table@, name_lookup(views(event_types@))),
{
    let mut table: HashMap<i64, String> = HashMap::new();
    let mut i: usize = 0;
    while i < event_types.len()
        invariant
            i <= event_types.len(),
            holds_names(table@, name_lookup(views(event_types@).take(i as int))),
        decreases event_types.len() - i,
    {
        let ghost before = views(event_types@).take(i as int);
        let ghost after = views(event_types@).take(i + 1);
        assert(after.drop_last() == before);
        table.insert(event_types[i].id, event_types[i].name.clone());
        i += 1;
    }
    assert(views(event_types@).take(i as int) == views(event_types@));
    table
}

fn header_row() -> (fields: Vec<String>)
    ensures
        fields@.len() == 3,
        record_bytes(text_fields(fields@)) == text_record(header_texts()),
{
    let mut fields: Vec<String> = Vec::new();
    fields.push(String::from_str("Event Type"));
    fields.push(String::from_str("Start Time"));
    fields.push(String::from_str("End Time"));
    assert(text_fields(fields@) == Seq::new(
        header_texts().len(),
        |i: int| encode_utf8(header_texts()[i]),
    ));
    fields
}

fn occurrence_row(name: &String, occurrence: &AnalysisEventSummary) -> (fields: Vec<String>)
    ensures
        fields@.len() == 3,
        text_fields(fields@) == Seq::new(
            3,
            |i: int| encode_utf8(seq![name@, occurrence@.start_timestamp, end_text(occurrence@)][i]),
        ),
{
    let mut fields: Vec<String> = Vec::new();
    fields.push(name.clone());
    fields.push(occurrence.start_timestamp.clone());
    let end = match &occurrence.end_timestamp {
        Some(text) => text.clone(),
        None => String::new(),
    };
    fields.push(end);
    fields
}

/// Writes the occurrences as a CSV document: a header row, then one row for
/// each occurrence in the order given, with the name of its event type, its
/// start and its end (empty where it has none).
///
/// Fails without a document when there are no event types, or when an
/// occurrence names an event type that is not among them.
pub fn export_csv(
    event_types: &Vec<AnalysisEventType>,
    occurrences: &Vec<AnalysisEventSummary>,
) -> (outcome: Result<Vec<u8>, Error>)
    ensures
        match outcome {
            Ok(document) => export_outcome(views(event_types@), views(occurrences@)) == Ok::<
                Seq<u8>,
                ErrorView,
            >(document@),
            Err(error) => export_outcome(views(event_types@), views(occurrences@)) == Err::<
                Seq<u8>,
                ErrorView,
            >(error@),
        },
{
    if event_types.len() == 0 {
        return Err(Error::EmptyEventTypes);
    }
    let ghost names = name_lookup(views(event_types@));
    let ghost all = views(occurrences@);
    let table = build_lookup(event_types);
    let mut buffer = CsvBuffer::new();
    let header = header_row();
    if !buffer.write_record(&header) {
        return Err(Error::Encoding);
    }
    let mut i: usize = 0;
    while i < occurrences.len()
        invariant
            i <= occurrences.len(),
            event_types@.len() > 0,
            names == name_lookup(views(event_types@)),
            all == views(occurrences@),
            holds_names(table@, names),
            all_known(names, all.take(i as int)),
            record_width(buffer) == Some(3nat),
            written(buffer) == text_record(header_texts()) + rows_bytes(names, all.take(i as int)),
        decreases occurrences.len() - i,
    {
        let occurrence = &occurrences[i];
        let ghost done = all.take(i as int);
        let ghost next = all.take(i + 1);
        assert(next.drop_last() == done);
        match table.get(&occurrence.event_type_id) {
            None => {
                assert(!names.contains_key(all[i as int].event_type_id));
                return Err(Error::UnknownEventType);
            },
            Some(name) => {
                let row = occurrence_row(name, occurrence);
                if !buffer.write_record(&row) {
                    return Err(Error::Encoding);
                }
            },
        }
        i += 1;
    }
    assert(all.take(i as int) == all);
    match buffer.into_bytes() {
        Some(document) => Ok(document),
        None => Err(Error::Encoding),
    }
}

/// The lookup knows exactly the identities of the event types given.
pub proof fn lookup_knows_the_identities_given(event_types: Seq<AnalysisEventTypeView>, id: i64)
    ensures
        name_lookup(event_types).contains_key(id) <==> exists|i: int|
            0 <= i < event_types.len() && (#[trigger] event_types[i]).id == id,
    decreases event_types.len(),
{
    if event_types.len() > 0 {
        let earlier = event_types.drop_last();
        lookup_knows_the_identities_given(earlier, id);
        if event_types.last().id != id && !name_lookup(event_types).contains_key(id) {
            assert forall|i: int| 0 <= i < event_types.len() implies (#[trigger] event_types[i]).id
                != id by {
                if i < earlier.len() {
                    assert(earlier[i].id != id);
                }
            }
        }
    }
}

/// Under an identity the lookup holds the name of the last event type that
/// has it.
pub proof fn lookup_names_by_the_last(event_types: Seq<AnalysisEventTypeView>, at: int)
    requires
        0 <= at < event_types.len(),
        forall|j: int|
            at < j < event_types.len() ==> (#[trigger] event_types[j]).id != event_types[at].id,
    ensures
        name_lookup(event_types).contains_key(event_types[at].id),
        name_lookup(event_types)[event_types[at].id] == event_types[at].name,
    decreases event_types.len(),
{
    if at < event_types.len() - 1 {
        let earlier = event_types.drop_last();
        lookup_names_by_the_last(earlier, at);
    }
}

/// With no event types at all an export fails, whatever the occurrences.
pub proof fn export_without_event_types_fails(occurrences: Seq<AnalysisEventSummaryView>)
    ensures
        export_outcome(Seq::empty(), occurrences) == Err::<Seq<u8>, ErrorView>(
            ErrorView::EmptyEventTypes,
        ),
{
}

/// An occurrence of an event type that is not among those given makes the
/// export fail, and no document comes of it.
pub proof fn export_of_unknown_event_type_fails(
    event_types: Seq<AnalysisEventTypeView>,
    occurrences: Seq<AnalysisEventSummaryView>,
    at: int,
)
    requires
        event_types.len() > 0,
        0 <= at < occurrences.len(),
        forall|i: int|
            0 <= i < event_types.len() ==> (#[trigger] event_types[i]).id
                != occurrences[at].event_type_id,
    ensures
        export_outcome(event_types, occurrences) == Err::<Seq<u8>, ErrorView>(
            ErrorView::UnknownEventType,
        ),
{
    lookup_knows_the_identities_given(event_types, occurrences[at].event_type_id);
}

/// Where there are event types and every occurrence is of one of them, the
/// export gives the document.
pub proof fn export_of_known_event_types_succeeds(
    event_types: Seq<AnalysisEventTypeView>,
    occurrences: Seq<AnalysisEventSummaryView>,
)
    requires
        event_types.len() > 0,
        forall|k: int|
            0 <= k < occurrences.len() ==> exists|i: int|
                0 <= i < event_types.len() && (#[trigger] event_types[i]).id == (
                #[trigger] occurrences[k]).event_type_id,
    ensures
        export_outcome(event_types, occurrences) == Ok::<Seq<u8>, ErrorView>(
            csv_document(name_lookup(event_types), occurrences),
        ),
{
    assert forall|k: int| 0 <= k < occurrences.len() implies name_lookup(
        event_types,
    ).contains_key((#[trigger] occurrences[k]).event_type_id) by {
        lookup_knows_the_identities_given(event_types, occurrences[k].event_type_id);
    }
}

} // verus!
