//! Creating an analysis together with its event types, all or nothing.

use crate::error::{Error, ErrorView};
use crate::model::{
    views, AddAnalysisEventType, AddAnalysisEventTypeView, AddAnalysisParams,
    AddAnalysisParamsView,
};
use crate::protocol::{
    failure_of, persistence_failure, statement_is_built, Outcome, Reply, ReplyView, Request,
    RequestView, Step,
};
use crate::statements::event_types_insert;
use vstd::prelude::*;
use vstd::string::StringExecFns;

verus! {

/// How far the creation of an analysis has come. Each state names the
/// request whose reply is awaited.
#[derive(Debug)]
pub enum AddAnalysis {
    /// The transaction is being opened.
    Beginning(AddAnalysisParams),
    /// The analysis row is being inserted; the event types wait.
    InsertingAnalysis(Vec<AddAnalysisEventType>),
    /// The event types of the analysis with this identity are being inserted.
    InsertingEventTypes(i64),
    /// The transaction that created this analysis is being committed.
    Committing(i64),
    /// The transaction is being given up because of this failure.
    RollingBack(Error),
}

pub enum AddAnalysisView {
    Beginning(AddAnalysisParamsView),
    InsertingAnalysis(Seq<AddAnalysisEventTypeView>),
    InsertingEventTypes(i64),
    Committing(i64),
    RollingBack(ErrorView),
}

impl View for AddAnalysis {
    type V = AddAnalysisView;

    open spec fn view(&self) -> AddAnalysisView {
        match self {
            AddAnalysis::Beginning(params) => AddAnalysisView::Beginning(params@),
            AddAnalysis::InsertingAnalysis(event_types) => AddAnalysisView::InsertingAnalysis(
                views(event_types@),
            ),
            AddAnalysis::InsertingEventTypes(id) => AddAnalysisView::InsertingEventTypes(*id),
            AddAnalysis::Committing(id) => AddAnalysisView::Committing(*id),
            AddAnalysis::RollingBack(error) => AddAnalysisView::RollingBack(error@),
        }
    }
}

impl View for Outcome<AddAnalysis, i64> {
    type V = Step<AddAnalysisView, i64>;

    open spec fn view(&self) -> Step<AddAnalysisView, i64> {
        match self {
            Outcome::Ask(next, request) => Step::Ask(next@, request@),
            Outcome::Done(Ok(id)) => Step::Done(Ok(*id)),
            Outcome::Done(Err(error)) => Step::Done(Err(error@)),
        }
    }
}

/// The text of the failure for an insert that did not touch one row.
pub open spec fn insert_failed_text() -> Seq<char> {
    "Failed to insert analysis"@
}

/// What creating an analysis does next.
///
/// The analysis row goes in first and must touch exactly one row. With no
/// event types the transaction is then committed; otherwise they follow in
/// one statement under the identity that the engine gave the analysis, and
/// the commit comes after. Any failure while the transaction is open gives it
/// up, and the failure is the result.
pub open spec fn add_analysis_step(state: AddAnalysisView, reply: ReplyView) -> Step<
    AddAnalysisView,
    i64,
> {
    match state {
        AddAnalysisView::Beginning(params) => match reply {
            ReplyView::Done => Step::Ask(
                AddAnalysisView::InsertingAnalysis(params.event_types),
                RequestView::InsertAnalysis {
                    name: params.name,
                    path: params.path,
                    duration_bits: params.duration_bits,
                },
            ),
            _ => Step::Done(Err(persistence_failure(reply))),
        },
        AddAnalysisView::InsertingAnalysis(event_types) => match reply {
            ReplyView::Inserted { rows_affected, last_insert_rowid } => if rows_affected != 1 {
                Step::Ask(
                    AddAnalysisView::RollingBack(ErrorView::Persistence(insert_failed_text())),
                    RequestView::Rollback,
                )
            } else if event_types.len() == 0 {
                Step::Ask(AddAnalysisView::Committing(last_insert_rowid), RequestView::Commit)
            } else {
                Step::Ask(
                    AddAnalysisView::InsertingEventTypes(last_insert_rowid),
                    RequestView::InsertEventTypes { analysis_id: last_insert_rowid, event_types },
                )
            },
            _ => Step::Ask(
                AddAnalysisView::RollingBack(persistence_failure(reply)),
                RequestView::Rollback,
            ),
        },
        AddAnalysisView::InsertingEventTypes(id) => match reply {
            ReplyView::Inserted { .. } => Step::Ask(
                AddAnalysisView::Committing(id),
                RequestView::Commit,
            ),
            _ => Step::Ask(
                AddAnalysisView::RollingBack(persistence_failure(reply)),
                RequestView::Rollback,
            ),
        },
        AddAnalysisView::Committing(id) => match reply {
            ReplyView::Done => Step::Done(Ok(id)),
            _ => Step::Done(Err(persistence_failure(reply))),
        },
        AddAnalysisView::RollingBack(error) => Step::Done(Err(error)),
    }
}

impl AddAnalysis {
    /// Starts the creation: the first thing to do is to open a transaction.
    pub fn start(params: AddAnalysisParams) -> (first: (AddAnalysis, Request))
        ensures
            first.0@ == AddAnalysisView::Beginning(params@),
            first.1@ == RequestView::Begin,
    {
        (AddAnalysis::Beginning(params), Request::Begin)
    }
}

/// Takes the creation of an analysis one reply further.
pub fn add_analysis(state: AddAnalysis, reply: Reply) -> (outcome: Outcome<AddAnalysis, i64>)
    ensures
        outcome@ == add_analysis_step(state@, reply@),
        outcome matches Outcome::Ask(_, request) ==> statement_is_built(request),
{
    match state {
        AddAnalysis::Beginning(params) => match reply {
            Reply::Done => {
                let AddAnalysisParams { name, path, duration_bits, event_types } = params;
                Outcome::Ask(
                    AddAnalysis::InsertingAnalysis(event_types),
                    Request::InsertAnalysis { name, path, duration_bits },
                )
            },
            other => Outcome::Done(Err(failure_of(other))),
        },
        AddAnalysis::InsertingAnalysis(event_types) => match reply {
            Reply::Inserted { rows_affected, last_insert_rowid } => {
                if rows_affected != 1 {
                    Outcome::Ask(
                        AddAnalysis::RollingBack(
                            Error::Persistence(String::from_str("Failed to insert analysis")),
                        ),
                        Request::Rollback,
                    )
                } else {
                    match event_types_insert(last_insert_rowid, &event_types) {
                        None => Outcome::Ask(
                            AddAnalysis::Committing(last_insert_rowid),
                            Request::Commit,
                        ),
                        Some(statement) => Outcome::Ask(
                            AddAnalysis::InsertingEventTypes(last_insert_rowid),
                            Request::InsertEventTypes {
                                analysis_id: last_insert_rowid,
                                event_types,
                                statement,
                            },
                        ),
                    }
                }
            },
            other => Outcome::Ask(AddAnalysis::RollingBack(failure_of(other)), Request::Rollback),
        },
        AddAnalysis::InsertingEventTypes(id) => match reply {
            Reply::Inserted { .. } => Outcome::Ask(AddAnalysis::Committing(id), Request::Commit),
            other => Outcome::Ask(AddAnalysis::RollingBack(failure_of(other)), Request::Rollback),
        },
        AddAnalysis::Committing(id) => match reply {
            Reply::Done => Outcome::Done(Ok(id)),
            other => Outcome::Done(Err(failure_of(other))),
        },
        AddAnalysis::RollingBack(error) => Outcome::Done(Err(error)),
    }
}

/// The insert of event types is asked for only when there is at least one
/// to insert.
pub proof fn event_types_are_inserted_only_if_any(state: AddAnalysisView, reply: ReplyView)
    ensures
        match add_analysis_step(state, reply) {
            Step::Ask(_, RequestView::InsertEventTypes { event_types, .. }) => event_types.len()
                > 0,
            _ => true,
        },
{
}

} // verus!
