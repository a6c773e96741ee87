//! What passes between an operation and the one who runs it.
//!
//! An operation of the repository never touches storage or the file system.
//! It asks for one thing at a time with a `Request`, is told how that went
//! with a `Reply`, and then either asks for the next thing or is done.

use crate::bulk_insert::{bound_values, row_values, statement_text, BulkInsert};
use crate::error::{Error, ErrorView};
use crate::model::{
    views, AddAnalysisEventType, AddAnalysisEventTypeView, AnalysisData, AnalysisDataView,
    StoredEventType, StoredEventTypeView,
};
use crate::statements::{bulk_insert_text, rows_of};
use vstd::prelude::*;
use vstd::string::StringExecFns;

verus! {

/// One thing for the caller to do.
pub enum Request {
    /// Open a transaction.
    Begin,
    /// Insert one analysis row inside the open transaction.
    InsertAnalysis { name: String, path: String, duration_bits: u64 },
    /// Insert, in one statement inside the open transaction, a row for each
    /// event type in the order given. Each row holds the analysis identity,
    /// the name, the key and the text of the category. The first two fields
    /// say what goes in; `statement` is what to run, with every value bound.
    /// The creation asks for this only with at least one event type.
    InsertEventTypes {
        analysis_id: i64,
        event_types: Vec<AddAnalysisEventType>,
        statement: BulkInsert,
    },
    /// Make the writes of the open transaction last.
    Commit,
    /// Give up the open transaction and all its writes.
    Rollback,
    /// Fetch every analysis.
    SelectAnalyses,
    /// Fetch the analysis with this identity.
    SelectAnalysis { id: i64 },
    /// Fetch the event types of this analysis.
    SelectEventTypes { analysis_id: i64 },
    /// Let the user pick where an export goes.
    ChooseDestination,
    /// Write the bytes to the place picked.
    WriteFile { path: String, contents: Vec<u8> },
}

pub enum RequestView {
    Begin,
    InsertAnalysis { name: Seq<char>, path: Seq<char>, duration_bits: u64 },
    InsertEventTypes { analysis_id: i64, event_types: Seq<AddAnalysisEventTypeView> },
    Commit,
    Rollback,
    SelectAnalyses,
    SelectAnalysis { id: i64 },
    SelectEventTypes { analysis_id: i64 },
    ChooseDestination,
    WriteFile { path: Seq<char>, contents: Seq<u8> },
}

impl View for Request {
    type V = RequestView;

    open spec fn view(&self) -> RequestView {
        match self {
            Request::Begin => RequestView::Begin,
            Request::InsertAnalysis { name, path, duration_bits } => RequestView::InsertAnalysis {
                name: name@,
                path: path@,
                duration_bits: *duration_bits,
            },
            Request::InsertEventTypes { analysis_id, event_types, statement } => {
                RequestView::InsertEventTypes {
                    analysis_id: *analysis_id,
                    event_types: views(event_types@),
                }
            },
            Request::Commit => RequestView::Commit,
            Request::Rollback => RequestView::Rollback,
            Request::SelectAnalyses => RequestView::SelectAnalyses,
            Request::SelectAnalysis { id } => RequestView::SelectAnalysis { id: *id },
            Request::SelectEventTypes { analysis_id } => RequestView::SelectEventTypes {
                analysis_id: *analysis_id,
            },
            Request::ChooseDestination => RequestView::ChooseDestination,
            Request::WriteFile { path, contents } => RequestView::WriteFile {
                path: path@,
                contents: contents@,
            },
        }
    }
}

/// How the last request went.
#[derive(Debug)]
pub enum Reply {
    /// It went through and there is nothing to hand back.
    Done,
    /// An insert went through: how many rows it touched, and the identity
    /// that the engine gave last.
    Inserted { rows_affected: u64, last_insert_rowid: i64 },
    /// The analyses that a fetch found.
    Analyses(Vec<AnalysisData>),
    /// The event types that a fetch found.
    EventTypes(Vec<StoredEventType>),
    /// The place that the user picked, if any.
    Destination(Option<String>),
    /// It was refused; the text says why.
    Failed(String),
}

pub enum ReplyView {
    Done,
    Inserted { rows_affected: u64, last_insert_rowid: i64 },
    Analyses(Seq<AnalysisDataView>),
    EventTypes(Seq<StoredEventTypeView>),
    Destination(Option<Seq<char>>),
    Failed(Seq<char>),
}

impl View for Reply {
    type V = ReplyView;

    open spec fn view(&self) -> ReplyView {
        match self {
            Reply::Done => ReplyView::Done,
            Reply::Inserted { rows_affected, last_insert_rowid } => ReplyView::Inserted {
                rows_affected: *rows_affected,
                last_insert_rowid: *last_insert_rowid,
            },
            Reply::Analyses(rows) => ReplyView::Analyses(views(rows@)),
            Reply::EventTypes(rows) => ReplyView::EventTypes(views(rows@)),
            Reply::Destination(path) => ReplyView::Destination(
                match path {
                    Some(text) => Some(text@),
                    None => None,
                },
            ),
            Reply::Failed(cause) => ReplyView::Failed(cause@),
        }
    }
}

/// Whether the statement that comes with a request is the one that the
/// request stands for: for the insert of event types, the bulk insert with a
/// tuple of placeholders for each event type and with the fields of the
/// rows bound in order.
pub open spec fn statement_is_built(request: Request) -> bool {
    match request {
        Request::InsertEventTypes { analysis_id, event_types, statement } => {
            &&& event_types@.len() > 0
            &&& statement_text(statement) == bulk_insert_text(event_types@.len())
            &&& bound_values(statement) == row_values(rows_of(analysis_id, views(event_types@)))
        },
        _ => true,
    }
}

/// Where an operation stands after a reply: it asks for one more thing and
/// goes on from a new state, or it is done with a result.
pub enum Outcome<S, T> {
    Ask(S, Request),
    Done(Result<T, Error>),
}

/// An `Outcome` over views.
pub enum Step<S, T> {
    Ask(S, RequestView),
    Done(Result<T, ErrorView>),
}

/// The text of the failure for a reply that does not answer the request.
pub open spec fn unexpected_reply_text() -> Seq<char> {
    "Unexpected reply"@
}

/// The failure that a refusal by storage, or a reply that does not answer
/// the request, comes to.
pub open spec fn persistence_failure(reply: ReplyView) -> ErrorView {
    match reply {
        ReplyView::Failed(cause) => ErrorView::Persistence(cause),
        _ => ErrorView::Persistence(unexpected_reply_text()),
    }
}

/// Turns a refusal by storage, or a reply that does not answer the request,
/// into the failure to report.
pub fn failure_of(reply: Reply) -> (error: Error)
    ensures
        error@ == persistence_failure(reply@),
{
    match reply {
        Reply::Failed(cause) => Error::Persistence(cause),
        _ => Error::Persistence(String::from_str("Unexpected reply")),
    }
}

} // verus!
