//! What the operations take for granted of the storage engine.
//!
//! This is a model, in specification only: two tables, and a transaction
//! whose writes show once it is committed. No executable code rests on it.
//! The laws of the repository are stated for every engine that answers
//! requests as `engine_allows` says.

use crate::model::{category_text, AddAnalysisEventTypeView, AnalysisDataView, StoredEventTypeView};
use crate::protocol::{ReplyView, RequestView};
use vstd::prelude::*;

verus! {

/// The rows of the two tables, in the order in which they were inserted.
pub struct Tables {
    pub analyses: Seq<AnalysisDataView>,
    pub event_types: Seq<StoredEventTypeView>,
}

/// The storage: what is committed, and inside a transaction the tables as
/// the transaction sees them.
pub struct Store {
    pub committed: Tables,
    pub pending: Option<Tables>,
}

/// Whether an analysis with this identity is in the tables.
pub open spec fn has_analysis(tables: Tables, id: i64) -> bool {
    exists|i: int| 0 <= i < tables.analyses.len() && (#[trigger] tables.analyses[i]).id == id
}

/// Whether an event type with this identity is in the tables.
pub open spec fn has_event_type(tables: Tables, id: i64) -> bool {
    exists|i: int| 0 <= i < tables.event_types.len() && (#[trigger] tables.event_types[i]).id == id
}

/// What the schema keeps true of the tables: no identity occurs twice, and
/// every event type belongs to an analysis that is there.
pub open spec fn well_formed(tables: Tables) -> bool {
    &&& forall|i: int, j: int|
        0 <= i < j < tables.analyses.len() ==> (#[trigger] tables.analyses[i]).id != (
        #[trigger] tables.analyses[j]).id
    &&& forall|i: int, j: int|
        0 <= i < j < tables.event_types.len() ==> (#[trigger] tables.event_types[i]).id != (
        #[trigger] tables.event_types[j]).id
    &&& forall|i: int|
        0 <= i < tables.event_types.len() ==> has_analysis(
            tables,
            (#[trigger] tables.event_types[i]).analysis_id,
        )
}

/// A way to put `count` things in some order: the place of each, none twice.
pub open spec fn is_ordering(order: Seq<int>, count: nat) -> bool {
    &&& order.len() == count
    &&& forall|i: int| 0 <= i < count ==> 0 <= #[trigger] order[i] < count
    &&& forall|i: int, j: int| 0 <= i < j < count ==> #[trigger] order[i] != #[trigger] order[j]
}

/// Whether `rows` holds the items of `of` under `order`.
pub open spec fn ordered_by<A>(rows: Seq<A>, of: Seq<A>, order: Seq<int>) -> bool {
    &&& is_ordering(order, of.len())
    &&& rows.len() == of.len()
    &&& forall|i: int| 0 <= i < rows.len() ==> #[trigger] rows[i] == of[order[i]]
}

/// Whether `rows` holds the items of `of`, each once, in some order.
pub open spec fn reordered<A>(rows: Seq<A>, of: Seq<A>) -> bool {
    exists|order: Seq<int>| ordered_by(rows, of, order)
}

/// The analyses with this identity.
pub open spec fn analyses_with_id(tables: Tables, id: i64) -> Seq<AnalysisDataView> {
    tables.analyses.filter(|row: AnalysisDataView| row.id == id)
}

/// The event types of the analysis with this identity.
pub open spec fn event_types_of(tables: Tables, analysis_id: i64) -> Seq<StoredEventTypeView> {
    tables.event_types.filter(|row: StoredEventTypeView| row.analysis_id == analysis_id)
}

/// Whether `after` is `before` with one more analysis at the end: a row with
/// an identity that was free, and with the fields given. The engine sets the
/// three timestamps.
pub open spec fn analysis_added(
    before: Tables,
    after: Tables,
    id: i64,
    name: Seq<char>,
    path: Seq<char>,
    duration_bits: u64,
) -> bool {
    &&& !has_analysis(before, id)
    &&& after.analyses.len() == before.analyses.len() + 1
    &&& after.analyses.drop_last() == before.analyses
    &&& after.analyses.last().id == id
    &&& after.analyses.last().name == name
    &&& after.analyses.last().path == path
    &&& after.analyses.last().duration_bits == duration_bits
    &&& after.event_types == before.event_types
}

/// Whether `after` is `before` with one more event type at the end for each
/// of those given, in their order: under identities that were free and
/// differ, for the analysis given, with the category as its text.
pub open spec fn event_types_added(
    before: Tables,
    after: Tables,
    analysis_id: i64,
    event_types: Seq<AddAnalysisEventTypeView>,
) -> bool {
    let start = before.event_types.len() as int;
    &&& after.analyses == before.analyses
    &&& after.event_types.len() == start + event_types.len()
    &&& after.event_types.take(start) == before.event_types
    &&& forall|k: int|
        0 <= k < event_types.len() ==> {
            let row = #[trigger] after.event_types[start + k];
            &&& !has_event_type(before, row.id)
            &&& row.analysis_id == analysis_id
            &&& row.name == event_types[k].name
            &&& row.keyboard_key == event_types[k].keyboard_key
            &&& row.category == category_text(event_types[k].category)
        }
    &&& forall|k: int, l: int|
        0 <= k < l < event_types.len() ==> (#[trigger] after.event_types[start + k]).id != (
        #[trigger] after.event_types[start + l]).id
}

/// Whether the engine, with the storage as in `before`, may answer the
/// request with the reply and leave the storage as in `after`.
///
/// A statement that is refused changes nothing. Writes go to the tables of
/// the open transaction; a commit makes them the committed tables, a
/// rollback or a failed commit drops them. Fetches read the committed tables
/// and hand the rows back in an order of the engine's choosing.
pub open spec fn engine_allows(
    before: Store,
    request: RequestView,
    reply: ReplyView,
    after: Store,
) -> bool {
    match request {
        RequestView::Begin => match reply {
            ReplyView::Done => before.pending is None && after == Store {
                committed: before.committed,
                pending: Some(before.committed),
            },
            ReplyView::Failed(_) => after == before,
            _ => false,
        },
        RequestView::InsertAnalysis { name, path, duration_bits } => match reply {
            ReplyView::Inserted { rows_affected, last_insert_rowid } => {
                &&& rows_affected == 1
                &&& before.pending is Some
                &&& after.pending is Some
                &&& after.committed == before.committed
                &&& analysis_added(
                    before.pending.unwrap(),
                    after.pending.unwrap(),
                    last_insert_rowid,
                    name,
                    path,
                    duration_bits,
                )
            },
            ReplyView::Failed(_) => after == before,
            _ => false,
        },
        RequestView::InsertEventTypes { analysis_id, event_types } => match reply {
            ReplyView::Inserted { rows_affected, last_insert_rowid } => {
                &&& rows_affected == event_types.len()
                &&& before.pending is Some
                &&& after.pending is Some
                &&& after.committed == before.committed
                &&& has_analysis(before.pending.unwrap(), analysis_id)
                &&& event_types_added(
                    before.pending.unwrap(),
                    after.pending.unwrap(),
                    analysis_id,
                    event_types,
                )
            },
            ReplyView::Failed(_) => after == before,
            _ => false,
        },
        RequestView::Commit => match reply {
            ReplyView::Done => before.pending is Some && after == Store {
                committed: before.pending.unwrap(),
                pending: None,
            },
            ReplyView::Failed(_) => after == Store { committed: before.committed, pending: None },
            _ => false,
        },
        RequestView::Rollback => match reply {
            ReplyView::Done | ReplyView::Failed(_) => after == Store {
                committed: before.committed,
                pending: None,
            },
            _ => false,
        },
        RequestView::SelectAnalyses => after == before && match reply {
            ReplyView::Analyses(rows) => reordered(rows, before.committed.analyses),
            ReplyView::Failed(_) => true,
            _ => false,
        },
        RequestView::SelectAnalysis { id } => after == before && match reply {
            ReplyView::Analyses(rows) => reordered(rows, analyses_with_id(before.committed, id)),
            ReplyView::Failed(_) => true,
            _ => false,
        },
        RequestView::SelectEventTypes { analysis_id } => after == before && match reply {
            ReplyView::EventTypes(rows) => reordered(
                rows,
                event_types_of(before.committed, analysis_id),
            ),
            ReplyView::Failed(_) => true,
            _ => false,
        },
        RequestView::ChooseDestination => after == before,
        RequestView::WriteFile { .. } => after == before,
    }
}

/// Whether the committed tables, and those of an open transaction, are
/// well formed.
pub open spec fn store_well_formed(store: Store) -> bool {
    &&& well_formed(store.committed)
    &&& store.pending is Some ==> well_formed(store.pending.unwrap())
}

proof fn adding_an_analysis_keeps_tables_well_formed(
    before: Tables,
    after: Tables,
    id: i64,
    name: Seq<char>,
    path: Seq<char>,
    duration_bits: u64,
)
    requires
        well_formed(before),
        analysis_added(before, after, id, name, path, duration_bits),
    ensures
        well_formed(after),
{
    assert forall|i: int| 0 <= i < before.analyses.len() implies #[trigger] after.analyses[i]
        == before.analyses[i] by {}
    assert forall|i: int| 0 <= i < after.event_types.len() implies has_analysis(
        after,
        (#[trigger] after.event_types[i]).analysis_id,
    ) by {
        let owner = after.event_types[i].analysis_id;
        let at = choose|at: int|
            0 <= at < before.analyses.len() && (#[trigger] before.analyses[at]).id == owner;
        assert(after.analyses[at].id == owner);
    }
}

proof fn adding_event_types_keeps_tables_well_formed(
    before: Tables,
    after: Tables,
    analysis_id: i64,
    event_types: Seq<AddAnalysisEventTypeView>,
)
    requires
        well_formed(before),
        has_analysis(before, analysis_id),
        event_types_added(before, after, analysis_id, event_types),
    ensures
        well_formed(after),
{
    let start = before.event_types.len() as int;
    assert forall|i: int| 0 <= i < start implies #[trigger] after.event_types[i]
        == before.event_types[i] by {}
    assert forall|i: int, j: int| 0 <= i < j < after.event_types.len() implies (
    #[trigger] after.event_types[i]).id != (#[trigger] after.event_types[j]).id by {
        if i >= start {
            assert(after.event_types[start + (i - start)].id != after.event_types[start + (j
                - start)].id);
        } else if j >= start {
            assert(!has_event_type(before, after.event_types[start + (j - start)].id));
        }
    }
    assert forall|i: int| 0 <= i < after.event_types.len() implies has_analysis(
        after,
        (#[trigger] after.event_types[i]).analysis_id,
    ) by {
        if i >= start {
            assert(after.event_types[start + (i - start)].analysis_id == analysis_id);
        }
    }
}

/// Whatever is asked and however the engine answers, well-formed storage
/// stays well formed.
pub proof fn engine_keeps_storage_well_formed(
    before: Store,
    request: RequestView,
    reply: ReplyView,
    after: Store,
)
    requires
        store_well_formed(before),
        engine_allows(before, request, reply, after),
    ensures
        store_well_formed(after),
{
    match request {
        RequestView::InsertAnalysis { name, path, duration_bits } => {
            if let ReplyView::Inserted { rows_affected, last_insert_rowid } = reply {
                adding_an_analysis_keeps_tables_well_formed(
                    before.pending.unwrap(),
                    after.pending.unwrap(),
                    last_insert_rowid,
                    name,
                    path,
                    duration_bits,
                );
            }
        },
        RequestView::InsertEventTypes { analysis_id, event_types } => {
            if reply is Inserted {
                adding_event_types_keeps_tables_well_formed(
                    before.pending.unwrap(),
                    after.pending.unwrap(),
                    analysis_id,
                    event_types,
                );
            }
        },
        _ => {},
    }
}

} // verus!
