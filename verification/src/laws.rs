//! Laws of the repository: what holds of whole runs of its operations.
//!
//! A run pairs each request of an operation with the reply of the engine and
//! with the storage that the engine leaves. The laws of the first part hold
//! of every run that `engine_allows` admits. Those of the second part hold of
//! the creation alone, whatever the engine is.

use crate::create::{add_analysis_step, AddAnalysisView};
use crate::engine::{
    analyses_with_id, analysis_added, engine_allows, event_types_added, event_types_of,
    has_analysis, is_ordering, ordered_by, reordered, well_formed, Store, Tables,
};
use crate::error::ErrorView;
use crate::fetch::{
    get_all_analyses_step, get_analysis_by_id_step, GetAllAnalyses, GetAnalysisView,
};
use crate::model::{
    category_text, category_text_round_trip, parse_category, AddAnalysisEventTypeView,
    AddAnalysisParamsView, AnalysisDataView, AnalysisEventTypeView, AnalysisWithEventsView,
    StoredEventTypeView,
};
use crate::protocol::{ReplyView, RequestView, Step};
use vstd::prelude::*;

verus! {

/// How a run ended: the result of the operation, and the storage after it.
pub struct Ended<T> {
    pub result: Result<T, ErrorView>,
    pub store: Store,
}

/// A run of the creation from a state whose request is still unanswered:
/// `replies[i]` answers the request that follows `i` replies, and `stores[i]`
/// is the storage after it. Gives the end of the run if the engine allows
/// every reply and the creation is done with the last one.
pub open spec fn creation_run(
    state: AddAnalysisView,
    request: RequestView,
    store: Store,
    replies: Seq<ReplyView>,
    stores: Seq<Store>,
) -> Option<Ended<i64>>
    decreases replies.len(),
{
    if replies.len() == 0 || stores.len() != replies.len() || !engine_allows(
        store,
        request,
        replies[0],
        stores[0],
    ) {
        None
    } else {
        match add_analysis_step(state, replies[0]) {
            Step::Done(result) => if replies.len() == 1 {
                Some(Ended { result, store: stores[0] })
            } else {
                None
            },
            Step::Ask(next, next_request) => creation_run(
                next,
                next_request,
                stores[0],
                replies.drop_first(),
                stores.drop_first(),
            ),
        }
    }
}

/// A whole run of the creation of an analysis, from its first request.
pub open spec fn creation(
    params: AddAnalysisParamsView,
    before: Store,
    replies: Seq<ReplyView>,
    stores: Seq<Store>,
) -> Option<Ended<i64>> {
    creation_run(AddAnalysisView::Beginning(params), RequestView::Begin, before, replies, stores)
}

/// A run of the fetch of one analysis, as `creation_run` is one of the
/// creation.
pub open spec fn fetch_run(
    state: GetAnalysisView,
    request: RequestView,
    store: Store,
    replies: Seq<ReplyView>,
    stores: Seq<Store>,
) -> Option<Ended<AnalysisWithEventsView>>
    decreases replies.len(),
{
    if replies.len() == 0 || stores.len() != replies.len() || !engine_allows(
        store,
        request,
        replies[0],
        stores[0],
    ) {
        None
    } else {
        match get_analysis_by_id_step(state, replies[0]) {
            Step::Done(result) => if replies.len() == 1 {
                Some(Ended { result, store: stores[0] })
            } else {
                None
            },
            Step::Ask(next, next_request) => fetch_run(
                next,
                next_request,
                stores[0],
                replies.drop_first(),
                stores.drop_first(),
            ),
        }
    }
}

/// A whole run of the fetch of the analysis with this identity.
pub open spec fn fetch(
    id: i64,
    store: Store,
    replies: Seq<ReplyView>,
    stores: Seq<Store>,
) -> Option<Ended<AnalysisWithEventsView>> {
    fetch_run(
        GetAnalysisView::FetchingAnalysis(id),
        RequestView::SelectAnalysis { id },
        store,
        replies,
        stores,
    )
}

/// Whether no reply of a run is a refusal.
pub open spec fn none_refused(replies: Seq<ReplyView>) -> bool {
    forall|i: int| 0 <= i < replies.len() ==> !((#[trigger] replies[i]) is Failed)
}

/// Whether `after` is `before` with the analysis of `params` added under the
/// identity `id`, and with its event types.
pub open spec fn created(
    before: Tables,
    after: Tables,
    params: AddAnalysisParamsView,
    id: i64,
) -> bool {
    exists|with_analysis: Tables|
        {
            &&& #[trigger] analysis_added(
                before,
                with_analysis,
                id,
                params.name,
                params.path,
                params.duration_bits,
            )
            &&& event_types_added(with_analysis, after, id, params.event_types)
        }
}

/// Whether the analysis found is the one that went in under this identity.
pub open spec fn same_analysis(
    found: AnalysisDataView,
    params: AddAnalysisParamsView,
    id: i64,
) -> bool {
    &&& found.id == id
    &&& found.name == params.name
    &&& found.path == params.path
    &&& found.duration_bits == params.duration_bits
}

/// Whether the event types found are those given, each once and in some
/// order, all under the analysis with this identity.
pub open spec fn same_event_types(
    found: Seq<AnalysisEventTypeView>,
    given: Seq<AddAnalysisEventTypeView>,
    analysis_id: i64,
) -> bool {
    exists|order: Seq<int>|
        {
            &&& #[trigger] is_ordering(order, given.len())
            &&& found.len() == given.len()
            &&& forall|i: int|
                0 <= i < found.len() ==> {
                    &&& (#[trigger] found[i]).analysis_id == analysis_id
                    &&& found[i].name == given[order[i]].name
                    &&& found[i].keyboard_key == given[order[i]].keyboard_key
                    &&& found[i].category == given[order[i]].category
                }
        }
}

/// Creation is all or nothing. Whatever the engine answers, a run of the
/// creation leaves no transaction open; if it fails, the committed tables are
/// what they were; if it gives an identity, they hold one more analysis,
/// under that identity and with the fields given, and one more event type
/// for each one given.
pub proof fn creation_is_all_or_nothing(
    params: AddAnalysisParamsView,
    before: Store,
    replies: Seq<ReplyView>,
    stores: Seq<Store>,
)
    requires
        before.pending is None,
        creation(params, before, replies, stores) is Some,
    ensures
        ({
            let end = creation(params, before, replies, stores).unwrap();
            &&& end.store.pending is None
            &&& match end.result {
                Ok(id) => created(before.committed, end.store.committed, params, id),
                Err(_) => end.store.committed == before.committed,
            }
        }),
{
    reveal_with_fuel(creation_run, 5);
    let end = creation(params, before, replies, stores).unwrap();
    if end.result is Ok && params.event_types.len() == 0 {
        // Without event types the tables after the analysis went in are the
        // last ones, and adding no rows to them changes nothing.
        let with_analysis = stores[1].pending.unwrap();
        assert(with_analysis.event_types.take(with_analysis.event_types.len() as int)
            == with_analysis.event_types);
    }
}

/// Creation succeeds where the engine refuses nothing: a run without a
/// refusal gives an identity.
pub proof fn creation_succeeds_unless_refused(
    params: AddAnalysisParamsView,
    before: Store,
    replies: Seq<ReplyView>,
    stores: Seq<Store>,
)
    requires
        none_refused(replies),
        creation(params, before, replies, stores) is Some,
    ensures
        creation(params, before, replies, stores).unwrap().result is Ok,
{
    reveal_with_fuel(creation_run, 5);
}

proof fn filter_keeps_none<A>(rows: Seq<A>, keep: spec_fn(A) -> bool)
    requires
        forall|i: int| 0 <= i < rows.len() ==> !keep(#[trigger] rows[i]),
    ensures
        rows.filter(keep) == Seq::<A>::empty(),
    decreases rows.len(),
{
    reveal(Seq::filter);
    if rows.len() > 0 {
        filter_keeps_none(rows.drop_last(), keep);
    }
}

proof fn filter_keeps_all<A>(rows: Seq<A>, keep: spec_fn(A) -> bool)
    requires
        forall|i: int| 0 <= i < rows.len() ==> keep(#[trigger] rows[i]),
    ensures
        rows.filter(keep) == rows,
    decreases rows.len(),
{
    reveal(Seq::filter);
    if rows.len() > 0 {
        filter_keeps_all(rows.drop_last(), keep);
    }
}

/// In tables where an analysis and its event types have just been added,
/// the only analysis under the new identity is the new one, and its event
/// types are the new rows.
proof fn created_rows_are_found(
    before: Tables,
    after: Tables,
    params: AddAnalysisParamsView,
    id: i64,
)
    requires
        well_formed(before),
        created(before, after, params, id),
    ensures
        after.analyses.len() > 0,
        analyses_with_id(after, id) == seq![after.analyses.last()],
        same_analysis(after.analyses.last(), params, id),
        after.event_types.len() == before.event_types.len() + params.event_types.len(),
        event_types_of(after, id) == after.event_types.skip(before.event_types.len() as int),
{
    let has_id = |row: AnalysisDataView| row.id == id;
    let of_id = |row: StoredEventTypeView| row.analysis_id == id;
    // No analysis had the identity before, so only the new one has it now.
    let old_analyses = before.analyses;
    let new_analysis = after.analyses.last();
    assert(after.analyses == old_analyses.push(new_analysis));
    assert forall|i: int| 0 <= i < old_analyses.len() implies !has_id(
        #[trigger] old_analyses[i],
    ) by {}
    filter_keeps_none(old_analyses, has_id);
    old_analyses.lemma_filter_push(new_analysis, has_id);
    // Every old event type belongs to an old analysis, so none belongs to
    // the new one; every new event type does.
    let start = before.event_types.len() as int;
    let old_rows = after.event_types.take(start);
    let new_rows = after.event_types.skip(start);
    assert(after.event_types == old_rows + new_rows);
    assert forall|i: int| 0 <= i < old_rows.len() implies !of_id(#[trigger] old_rows[i]) by {}
    assert forall|i: int| 0 <= i < new_rows.len() implies of_id(#[trigger] new_rows[i]) by {
        assert(new_rows[i] == after.event_types[start + i]);
    }
    filter_keeps_none(old_rows, of_id);
    filter_keeps_all(new_rows, of_id);
    Seq::filter_distributes_over_add(old_rows, new_rows, of_id);
}

/// What was created reads back. In storage where an analysis has just been
/// added under an identity, a fetch of that identity which the engine does
/// not refuse leaves the storage as it was and gives the analysis with the
/// name, the path and the duration that went in, and exactly the event types
/// that went in, each once, in some order.
pub proof fn created_analysis_reads_back(
    params: AddAnalysisParamsView,
    id: i64,
    before: Tables,
    store: Store,
    replies: Seq<ReplyView>,
    stores: Seq<Store>,
)
    requires
        well_formed(before),
        created(before, store.committed, params, id),
        none_refused(replies),
        fetch(id, store, replies, stores) is Some,
    ensures
        ({
            let end = fetch(id, store, replies, stores).unwrap();
            &&& end.store == store
            &&& match end.result {
                Ok(found) => {
                    &&& same_analysis(found.analysis_data, params, id)
                    &&& same_event_types(found.event_types, params.event_types, id)
                },
                Err(_) => false,
            }
        }),
{
    reveal_with_fuel(fetch_run, 3);
    created_rows_are_found(before, store.committed, params, id);
    let tables = store.committed;
    let start = before.event_types.len() as int;
    let added = tables.event_types.skip(start);
    // The second reply holds the rows that were added, in the engine's order.
    let rows = replies[1]->EventTypes_0;
    let order = choose|order: Seq<int>| ordered_by(rows, event_types_of(tables, id), order);
    assert forall|i: int| 0 <= i < rows.len() implies {
        &&& (#[trigger] rows[i]).analysis_id == id
        &&& rows[i].name == params.event_types[order[i]].name
        &&& rows[i].keyboard_key == params.event_types[order[i]].keyboard_key
        &&& rows[i].category == category_text(params.event_types[order[i]].category)
    } by {
        assert(added[order[i]] == tables.event_types[start + order[i]]);
    }
    // Each stored category is the text of the one that went in.
    assert forall|i: int| 0 <= i < rows.len() implies parse_category(
        (#[trigger] rows[i]).category,
    ) == Some(params.event_types[order[i]].category) by {
        category_text_round_trip(params.event_types[order[i]].category);
    }
}

/// Creation and fetch round-trip. Where a creation gave an identity, a fetch
/// of that identity right after it, which the engine does not refuse, gives
/// the analysis with the name, the path and the duration that went in, and
/// exactly the event types that went in, each once, in some order.
pub proof fn creation_and_fetch_round_trip(
    params: AddAnalysisParamsView,
    before: Store,
    creation_replies: Seq<ReplyView>,
    creation_stores: Seq<Store>,
    fetch_replies: Seq<ReplyView>,
    fetch_stores: Seq<Store>,
)
    requires
        before.pending is None,
        well_formed(before.committed),
        creation(params, before, creation_replies, creation_stores) is Some,
        creation(params, before, creation_replies, creation_stores).unwrap().result is Ok,
        none_refused(fetch_replies),
        ({
            let made = creation(params, before, creation_replies, creation_stores).unwrap();
            fetch(made.result->Ok_0, made.store, fetch_replies, fetch_stores) is Some
        }),
    ensures
        ({
            let made = creation(params, before, creation_replies, creation_stores).unwrap();
            let id = made.result->Ok_0;
            match fetch(id, made.store, fetch_replies, fetch_stores).unwrap().result {
                Ok(found) => {
                    &&& same_analysis(found.analysis_data, params, id)
                    &&& same_event_types(found.event_types, params.event_types, id)
                },
                Err(_) => false,
            }
        }),
{
    creation_is_all_or_nothing(params, before, creation_replies, creation_stores);
    let made = creation(params, before, creation_replies, creation_stores).unwrap();
    created_analysis_reads_back(
        params,
        made.result->Ok_0,
        before.committed,
        made.store,
        fetch_replies,
        fetch_stores,
    );
}

/// An analysis may have no event types. Created without any, where the
/// engine refuses nothing, it gets an identity, and a fetch of that identity
/// finds it with no event types.
pub proof fn analysis_without_event_types_reads_back(
    params: AddAnalysisParamsView,
    before: Store,
    creation_replies: Seq<ReplyView>,
    creation_stores: Seq<Store>,
    fetch_replies: Seq<ReplyView>,
    fetch_stores: Seq<Store>,
)
    requires
        params.event_types.len() == 0,
        before.pending is None,
        well_formed(before.committed),
        none_refused(creation_replies),
        creation(params, before, creation_replies, creation_stores) is Some,
        none_refused(fetch_replies),
        ({
            let made = creation(params, before, creation_replies, creation_stores).unwrap();
            made.result is Ok ==> fetch(
                made.result->Ok_0,
                made.store,
                fetch_replies,
                fetch_stores,
            ) is Some
        }),
    ensures
        ({
            let made = creation(params, before, creation_replies, creation_stores).unwrap();
            let id = made.result->Ok_0;
            &&& made.result is Ok
            &&& match fetch(id, made.store, fetch_replies, fetch_stores).unwrap().result {
                Ok(found) => {
                    &&& same_analysis(found.analysis_data, params, id)
                    &&& found.event_types.len() == 0
                },
                Err(_) => false,
            }
        }),
{
    creation_succeeds_unless_refused(params, before, creation_replies, creation_stores);
    creation_and_fetch_round_trip(
        params,
        before,
        creation_replies,
        creation_stores,
        fetch_replies,
        fetch_stores,
    );
}

/// An identity that no analysis has is not found. A fetch of it never gives
/// an analysis, whatever the engine answers; where the engine refuses
/// nothing, the failure is `NotFound`.
pub proof fn missing_analysis_is_not_found(
    id: i64,
    store: Store,
    replies: Seq<ReplyView>,
    stores: Seq<Store>,
)
    requires
        !has_analysis(store.committed, id),
        fetch(id, store, replies, stores) is Some,
    ensures
        ({
            let end = fetch(id, store, replies, stores).unwrap();
            &&& end.store == store
            &&& end.result is Err
            &&& none_refused(replies) ==> end.result == Err::<AnalysisWithEventsView, ErrorView>(
                ErrorView::NotFound,
            )
        }),
{
    reveal_with_fuel(fetch_run, 3);
    let has_id = |row: AnalysisDataView| row.id == id;
    assert forall|i: int| 0 <= i < store.committed.analyses.len() implies !has_id(
        #[trigger] store.committed.analyses[i],
    ) by {}
    filter_keeps_none(store.committed.analyses, has_id);
}

/// The list of analyses is all of them. Where the engine does not refuse the
/// fetch, the result holds every committed analysis once, in the order of
/// the engine's choosing, and the storage is as it was.
pub proof fn every_analysis_is_listed(store: Store, reply: ReplyView, after: Store)
    requires
        engine_allows(store, RequestView::SelectAnalyses, reply, after),
        !(reply is Failed),
    ensures
        after == store,
        match get_all_analyses_step(GetAllAnalyses::Fetching, reply) {
            Step::Done(Ok(rows)) => reordered(rows, store.committed.analyses),
            _ => false,
        },
{
}

/// Where the creation of an analysis stands after these replies. Replies
/// that come after the end change nothing.
pub open spec fn creation_after(params: AddAnalysisParamsView, replies: Seq<ReplyView>) -> Step<
    AddAnalysisView,
    i64,
>
    decreases replies.len(),
{
    if replies.len() == 0 {
        Step::Ask(AddAnalysisView::Beginning(params), RequestView::Begin)
    } else {
        match creation_after(params, replies.drop_last()) {
            Step::Ask(reached, _) => add_analysis_step(reached, replies.last()),
            Step::Done(result) => Step::Done(result),
        }
    }
}

/// Whether the replies are those of a creation in which every step went
/// through, up to the commit: the transaction was opened, the analysis went
/// in as one row under the identity `id`, and the event types, if there are
/// any, went in after it.
pub open spec fn inserts_went_through(
    params: AddAnalysisParamsView,
    replies: Seq<ReplyView>,
    id: i64,
) -> bool {
    &&& replies.len() == if params.event_types.len() == 0 {
        2int
    } else {
        3int
    }
    &&& replies[0] is Done
    &&& replies[1] == (ReplyView::Inserted { rows_affected: 1, last_insert_rowid: id })
    &&& params.event_types.len() > 0 ==> replies[2] is Inserted
}

/// The state that the creation is in tells which replies came before.
proof fn creation_states_follow_the_replies(
    params: AddAnalysisParamsView,
    replies: Seq<ReplyView>,
)
    ensures
        match creation_after(params, replies) {
            Step::Ask(AddAnalysisView::Beginning(_), _) => replies.len() == 0,
            Step::Ask(AddAnalysisView::InsertingAnalysis(waiting), _) => {
                &&& replies.len() == 1
                &&& replies[0] is Done
                &&& waiting == params.event_types
            },
            Step::Ask(AddAnalysisView::InsertingEventTypes(id), _) => {
                &&& replies.len() == 2
                &&& replies[0] is Done
                &&& replies[1] == (ReplyView::Inserted { rows_affected: 1, last_insert_rowid: id })
                &&& params.event_types.len() > 0
            },
            Step::Ask(AddAnalysisView::Committing(_), request) => request == RequestView::Commit,
            _ => true,
        },
    decreases replies.len(),
{
    reveal_with_fuel(creation_after, 2);
    if replies.len() > 0 {
        creation_states_follow_the_replies(params, replies.drop_last());
    }
}

/// A commit is asked for only once every insert has gone through, and an
/// identity is handed out only once the commit has gone through. This holds
/// of the creation alone, whatever the engine is.
pub proof fn commit_only_after_every_insert(
    params: AddAnalysisParamsView,
    replies: Seq<ReplyView>,
)
    ensures
        match creation_after(params, replies) {
            Step::Ask(reached, RequestView::Commit) => exists|id: i64|
                reached == AddAnalysisView::Committing(id) && #[trigger] inserts_went_through(
                    params,
                    replies,
                    id,
                ),
            Step::Done(Ok(id)) => exists|count: int|
                0 <= count < replies.len() && #[trigger] inserts_went_through(
                    params,
                    replies.take(count),
                    id,
                ) && replies[count] is Done,
            _ => true,
        },
    decreases replies.len(),
{
    reveal_with_fuel(creation_after, 2);
    if replies.len() > 0 {
        let earlier = replies.drop_last();
        let count = earlier.len() as int;
        commit_only_after_every_insert(params, earlier);
        creation_states_follow_the_replies(params, earlier);
        assert forall|i: int| 0 <= i < count implies earlier[i] == replies[i] by {}
        assert(replies.take(count) == earlier);
        match creation_after(params, replies) {
            Step::Ask(AddAnalysisView::Committing(id), RequestView::Commit) => {
                assert(inserts_went_through(params, replies, id));
            },
            Step::Done(Ok(id)) => {
                if creation_after(params, earlier) is Done {
                    // The creation had ended before the last reply.
                    let before = choose|before: int|
                        0 <= before < earlier.len() && #[trigger] inserts_went_through(
                            params,
                            earlier.take(before),
                            id,
                        ) && earlier[before] is Done;
                    assert(earlier.take(before) == replies.take(before));
                    assert(inserts_went_through(params, replies.take(before), id));
                } else {
                    // The last reply answers the commit.
                    assert(inserts_went_through(params, replies.take(count), id));
                }
            },
            _ => {},
        }
    }
}

} // verus!
