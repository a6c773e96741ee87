//! The statements that the requests of the repository stand for.

use crate::bulk_insert::{
    bound_values, row_values, statement_text, values_clause, BulkInsert, EventTypeRow,
    EventTypeRowView,
};
use crate::model::{category_text, views, AddAnalysisEventType, AddAnalysisEventTypeView};
use vstd::prelude::*;

verus! {

/// Inserts one analysis; binds the name, the path and the duration.
pub const INSERT_ANALYSIS: &'static str =
    "INSERT INTO analyses (name, path, duration) VALUES (?, ?, ?)";

/// The start of the bulk insert of event types; a `VALUES` clause follows.
pub const INSERT_EVENT_TYPES: &'static str =
    "INSERT INTO analysis_event_types (analysis_id, name, keyboard_key, category) ";

/// Fetches every analysis.
pub const SELECT_ANALYSES: &'static str =
    "SELECT id, name, path, duration, created_at, updated_at, last_opened_at FROM analyses";

/// Fetches the analysis with the identity bound.
pub const SELECT_ANALYSIS: &'static str =
    "SELECT id, name, path, duration, created_at, updated_at, last_opened_at FROM analyses WHERE id = ?";

/// Fetches the event types of the analysis with the identity bound.
pub const SELECT_EVENT_TYPES: &'static str =
    "SELECT id, analysis_id, name, keyboard_key, category FROM analysis_event_types WHERE analysis_id = ?";

/// The text of the bulk insert of `count` event types. It depends on their
/// number alone: no value of theirs is part of it.
pub open spec fn bulk_insert_text(count: nat) -> Seq<char> {
    INSERT_EVENT_TYPES@ + values_clause(count)
}

/// The rows that the event types of an analysis are stored as, in the order
/// of the event types.
pub open spec fn rows_of(
    analysis_id: i64,
    event_types: Seq<AddAnalysisEventTypeView>,
) -> Seq<EventTypeRowView> {
    Seq::new(
        event_types.len(),
        |i: int|
            EventTypeRowView {
                analysis_id,
                name: event_types[i].name,
                keyboard_key: event_types[i].keyboard_key,
                category: category_text(event_types[i].category),
            },
    )
}

fn rows_to_insert(analysis_id: i64, event_types: &Vec<AddAnalysisEventType>) -> (rows: Vec<
    EventTypeRow,
>)
    ensures
        rows@.len() == event_types@.len(),
        views(rows@) == rows_of(analysis_id, views(event_types@)),
{
    let mut rows: Vec<EventTypeRow> = Vec::new();
    let mut i: usize = 0;
    while i < event_types.len()
        invariant
            i <= event_types.len(),
            rows@.len() == i,
            forall|k: int|
                0 <= k < i ==> (#[trigger] rows@[k])@ == rows_of(
                    analysis_id,
                    views(event_types@),
                )[k],
        decreases event_types.len() - i,
    {
        let event_type = &event_types[i];
        rows.push(
            EventTypeRow {
                analysis_id,
                name: event_type.name.clone(),
                keyboard_key: event_type.keyboard_key.clone(),
                category: event_type.category.as_text().to_owned(),
            },
        );
        i += 1;
    }
    rows
}

/// Builds the one statement that inserts all event types of an analysis:
/// a tuple of four placeholders for each event type, and bound to them, in
/// order, the analysis, the name, the key and the text of the category.
/// Every value is bound; none is written into the text of the statement.
///
/// With no event types there is no such statement.
pub fn event_types_insert(analysis_id: i64, event_types: &Vec<AddAnalysisEventType>) -> (insert:
    Option<BulkInsert>)
    ensures
        insert is Some <==> event_types@.len() > 0,
        insert matches Some(built) ==> {
            &&& statement_text(built) == bulk_insert_text(event_types@.len())
            &&& bound_values(built) == row_values(rows_of(analysis_id, views(event_types@)))
        },
{
    if event_types.len() == 0 {
        return None;
    }
    let rows = rows_to_insert(analysis_id, event_types);
    let mut built = BulkInsert::new(INSERT_EVENT_TYPES);
    built.push_rows(rows);
    Some(built)
}

} // verus!
