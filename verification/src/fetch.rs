//! Reading analyses back: all of them, or one with its event types.

use crate::error::{Error, ErrorView};
use crate::model::{
    parse_category, views, AnalysisData, AnalysisDataView, AnalysisEventType,
    AnalysisEventTypeView, AnalysisWithEvents, AnalysisWithEventsView, EventCategory,
    StoredEventType, StoredEventTypeView,
};
use crate::protocol::{
    failure_of, persistence_failure, Outcome, Reply, ReplyView, Request, RequestView, Step,
};
use vstd::prelude::*;
use vstd::string::StringExecFns;

verus! {

/// Whether the category of every row is one of the two known texts.
pub open spec fn all_decodable(rows: Seq<StoredEventTypeView>) -> bool {
    forall|i: int| 0 <= i < rows.len() ==> parse_category((#[trigger] rows[i]).category) is Some
}

/// A stored row with its category read.
pub open spec fn decoded_row(row: StoredEventTypeView) -> AnalysisEventTypeView {
    AnalysisEventTypeView {
        id: row.id,
        analysis_id: row.analysis_id,
        name: row.name,
        keyboard_key: row.keyboard_key,
        category: parse_category(row.category).unwrap(),
    }
}

/// The stored rows with their categories read, in the same order; nothing
/// if one category is not a known text.
pub open spec fn decoded(rows: Seq<StoredEventTypeView>) -> Option<Seq<AnalysisEventTypeView>> {
    if all_decodable(rows) {
        Some(Seq::new(rows.len(), |i: int| decoded_row(rows[i])))
    } else {
        None
    }
}

/// The text of the failure for a stored category that is not a known text.
pub open spec fn bad_category_text() -> Seq<char> {
    "Unknown event category in storage"@
}

/// Reads the category of every stored row. A category that is not one of the
/// two known texts makes the whole reading fail; none is replaced by a
/// default.
pub fn decode_event_types(rows: &Vec<StoredEventType>) -> (event_types: Option<
    Vec<AnalysisEventType>,
>)
    ensures
        match event_types {
            Some(read) => decoded(views(rows@)) == Some(views(read@)),
            None => decoded(views(rows@)) is None,
        },
{
    let mut read: Vec<AnalysisEventType> = Vec::new();
    let mut i: usize = 0;
    while i < rows.len()
        invariant
            i <= rows.len(),
            read@.len() == i,
            forall|k: int|
                0 <= k < i ==> parse_category((#[trigger] views(rows@)[k]).category) is Some,
            forall|k: int| 0 <= k < i ==> (#[trigger] read@[k])@ == decoded_row(views(rows@)[k]),
        decreases rows.len() - i,
    {
        let row = &rows[i];
        assert(views(rows@)[i as int] == row@);
        match EventCategory::from_text(row.category.as_str()) {
            None => {
                return None;
            },
            Some(category) => {
                read.push(
                    AnalysisEventType {
                        id: row.id,
                        analysis_id: row.analysis_id,
                        name: row.name.clone(),
                        keyboard_key: row.keyboard_key.clone(),
                        category,
                    },
                );
            },
        }
        i += 1;
    }
    Some(read)
}

/// The one state of fetching all analyses: the fetch is under way.
#[derive(Debug)]
pub enum GetAllAnalyses {
    Fetching,
}

impl View for Outcome<GetAllAnalyses, Vec<AnalysisData>> {
    type V = Step<GetAllAnalyses, Seq<AnalysisDataView>>;

    open spec fn view(&self) -> Step<GetAllAnalyses, Seq<AnalysisDataView>> {
        match self {
            Outcome::Ask(next, request) => Step::Ask(*next, request@),
            Outcome::Done(Ok(rows)) => Step::Done(Ok(views(rows@))),
            Outcome::Done(Err(error)) => Step::Done(Err(error@)),
        }
    }
}

/// What fetching all analyses comes to: the rows as storage gave them, in
/// its order, or the failure.
pub open spec fn get_all_analyses_step(state: GetAllAnalyses, reply: ReplyView) -> Step<
    GetAllAnalyses,
    Seq<AnalysisDataView>,
> {
    match reply {
        ReplyView::Analyses(rows) => Step::Done(Ok(rows)),
        _ => Step::Done(Err(persistence_failure(reply))),
    }
}

impl GetAllAnalyses {
    /// Starts the fetch of all analyses.
    pub fn start() -> (first: (GetAllAnalyses, Request))
        ensures
            first.0 == GetAllAnalyses::Fetching,
            first.1@ == RequestView::SelectAnalyses,
    {
        (GetAllAnalyses::Fetching, Request::SelectAnalyses)
    }
}

/// Takes the fetch of all analyses one reply further, which ends it.
pub fn get_all_analyses(state: GetAllAnalyses, reply: Reply) -> (outcome: Outcome<
    GetAllAnalyses,
    Vec<AnalysisData>,
>)
    ensures
        outcome@ == get_all_analyses_step(state, reply@),
{
    match reply {
        Reply::Analyses(rows) => Outcome::Done(Ok(rows)),
        other => Outcome::Done(Err(failure_of(other))),
    }
}

/// How far the fetch of one analysis has come.
#[derive(Debug)]
pub enum GetAnalysis {
    /// The analysis row with this identity is being fetched.
    FetchingAnalysis(i64),
    /// The analysis is there; its event types are being fetched.
    FetchingEventTypes(AnalysisData),
}

pub enum GetAnalysisView {
    FetchingAnalysis(i64),
    FetchingEventTypes(AnalysisDataView),
}

impl View for GetAnalysis {
    type V = GetAnalysisView;

    open spec fn view(&self) -> GetAnalysisView {
        match self {
            GetAnalysis::FetchingAnalysis(id) => GetAnalysisView::FetchingAnalysis(*id),
            GetAnalysis::FetchingEventTypes(analysis) => GetAnalysisView::FetchingEventTypes(
                analysis@,
            ),
        }
    }
}

impl View for Outcome<GetAnalysis, AnalysisWithEvents> {
    type V = Step<GetAnalysisView, AnalysisWithEventsView>;

    open spec fn view(&self) -> Step<GetAnalysisView, AnalysisWithEventsView> {
        match self {
            Outcome::Ask(next, request) => Step::Ask(next@, request@),
            Outcome::Done(Ok(found)) => Step::Done(Ok(found@)),
            Outcome::Done(Err(error)) => Step::Done(Err(error@)),
        }
    }
}

/// What fetching one analysis does next.
///
/// No row for the identity is `NotFound`. Otherwise the first row is the
/// analysis, and its event types are fetched under the identity asked for;
/// there may be none. A refusal by storage, or a stored category that is not
/// a known text, is a persistence failure.
pub open spec fn get_analysis_by_id_step(state: GetAnalysisView, reply: ReplyView) -> Step<
    GetAnalysisView,
    AnalysisWithEventsView,
> {
    match state {
        GetAnalysisView::FetchingAnalysis(id) => match reply {
            ReplyView::Analyses(rows) => if rows.len() == 0 {
                Step::Done(Err(ErrorView::NotFound))
            } else {
                Step::Ask(
                    GetAnalysisView::FetchingEventTypes(rows[0]),
                    RequestView::SelectEventTypes { analysis_id: id },
                )
            },
            _ => Step::Done(Err(persistence_failure(reply))),
        },
        GetAnalysisView::FetchingEventTypes(analysis) => match reply {
            ReplyView::EventTypes(rows) => match decoded(rows) {
                Some(event_types) => Step::Done(
                    Ok(AnalysisWithEventsView { analysis_data: analysis, event_types }),
                ),
                None => Step::Done(Err(ErrorView::Persistence(bad_category_text()))),
            },
            _ => Step::Done(Err(persistence_failure(reply))),
        },
    }
}

impl GetAnalysis {
    /// Starts the fetch of the analysis with this identity.
    pub fn start(id: i64) -> (first: (GetAnalysis, Request))
        ensures
            first.0@ == GetAnalysisView::FetchingAnalysis(id),
            first.1@ == (RequestView::SelectAnalysis { id }),
    {
        (GetAnalysis::FetchingAnalysis(id), Request::SelectAnalysis { id })
    }
}

/// Takes the fetch of one analysis one reply further.
pub fn get_analysis_by_id(state: GetAnalysis, reply: Reply) -> (outcome: Outcome<
    GetAnalysis,
    AnalysisWithEvents,
>)
    ensures
        outcome@ == get_analysis_by_id_step(state@, reply@),
{
    match state {
        GetAnalysis::FetchingAnalysis(id) => match reply {
            Reply::Analyses(rows) => {
                let mut rows = rows;
                if rows.len() == 0 {
                    Outcome::Done(Err(Error::NotFound))
                } else {
                    let first = rows.swap_remove(0);
                    Outcome::Ask(
                        GetAnalysis::FetchingEventTypes(first),
                        Request::SelectEventTypes { analysis_id: id },
                    )
                }
            },
            other => Outcome::Done(Err(failure_of(other))),
        },
        GetAnalysis::FetchingEventTypes(analysis) => match reply {
            Reply::EventTypes(rows) => match decode_event_types(&rows) {
                Some(event_types) => Outcome::Done(
                    Ok(AnalysisWithEvents { analysis_data: analysis, event_types }),
                ),
                None => Outcome::Done(
                    Err(Error::Persistence(String::from_str("Unknown event category in storage"))),
                ),
            },
            other => Outcome::Done(Err(failure_of(other))),
        },
    }
}

} // verus!
