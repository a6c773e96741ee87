//! Saving the occurrences of an analysis as a CSV file.

use crate::error::{Error, ErrorView};
use crate::export::{export_csv, export_outcome};
use crate::fetch::{bad_category_text, decode_event_types, decoded};
use crate::model::{
    views, AnalysisEventSummary, AnalysisEventSummaryView, AnalysisEventType,
    AnalysisEventTypeView,
};
use crate::protocol::{
    failure_of, persistence_failure, unexpected_reply_text, Outcome, Reply, ReplyView, Request,
    RequestView, Step,
};
use vstd::prelude::*;
use vstd::string::StringExecFns;

verus! {

/// How far the saving has come.
#[derive(Debug)]
pub enum SaveEvents {
    /// The event types of the analysis are being fetched; the occurrences
    /// wait.
    FetchingEventTypes(Vec<AnalysisEventSummary>),
    /// The user is picking where the file goes.
    ChoosingDestination(Vec<AnalysisEventType>, Vec<AnalysisEventSummary>),
    /// The document is being written out.
    Writing,
}

pub enum SaveEventsView {
    FetchingEventTypes(Seq<AnalysisEventSummaryView>),
    ChoosingDestination(Seq<AnalysisEventTypeView>, Seq<AnalysisEventSummaryView>),
    Writing,
}

impl View for SaveEvents {
    type V = SaveEventsView;

    open spec fn view(&self) -> SaveEventsView {
        match self {
            SaveEvents::FetchingEventTypes(events) => SaveEventsView::FetchingEventTypes(
                views(events@),
            ),
            SaveEvents::ChoosingDestination(event_types, events) => {
                SaveEventsView::ChoosingDestination(views(event_types@), views(events@))
            },
            SaveEvents::Writing => SaveEventsView::Writing,
        }
    }
}

impl View for Outcome<SaveEvents, ()> {
    type V = Step<SaveEventsView, ()>;

    open spec fn view(&self) -> Step<SaveEventsView, ()> {
        match self {
            Outcome::Ask(next, request) => Step::Ask(next@, request@),
            Outcome::Done(Ok(())) => Step::Done(Ok(())),
            Outcome::Done(Err(error)) => Step::Done(Err(error@)),
        }
    }
}

/// The failure that a refusal outside storage, or a reply that does not
/// answer the request, comes to.
pub open spec fn io_failure(reply: ReplyView) -> ErrorView {
    match reply {
        ReplyView::Failed(cause) => ErrorView::Io(cause),
        _ => ErrorView::Io(unexpected_reply_text()),
    }
}

/// What saving does next.
///
/// With no event types for the analysis there is nothing to name the
/// occurrences by, and the saving fails before the user is asked anything.
/// Once a place is picked the document is made, whole or not at all, and
/// only a whole document is handed on to be written.
pub open spec fn save_events_to_csv_step(state: SaveEventsView, reply: ReplyView) -> Step<
    SaveEventsView,
    (),
> {
    match state {
        SaveEventsView::FetchingEventTypes(events) => match reply {
            ReplyView::EventTypes(rows) => match decoded(rows) {
                Some(event_types) => if event_types.len() == 0 {
                    Step::Done(Err(ErrorView::EmptyEventTypes))
                } else {
                    Step::Ask(
                        SaveEventsView::ChoosingDestination(event_types, events),
                        RequestView::ChooseDestination,
                    )
                },
                None => Step::Done(Err(ErrorView::Persistence(bad_category_text()))),
            },
            _ => Step::Done(Err(persistence_failure(reply))),
        },
        SaveEventsView::ChoosingDestination(event_types, events) => match reply {
            ReplyView::Destination(Some(path)) => match export_outcome(event_types, events) {
                Ok(contents) => Step::Ask(
                    SaveEventsView::Writing,
                    RequestView::WriteFile { path, contents },
                ),
                Err(error) => Step::Done(Err(error)),
            },
            ReplyView::Destination(None) => Step::Done(Err(ErrorView::DestinationNotSelected)),
            _ => Step::Done(Err(io_failure(reply))),
        },
        SaveEventsView::Writing => match reply {
            ReplyView::Done => Step::Done(Ok(())),
            _ => Step::Done(Err(io_failure(reply))),
        },
    }
}

/// Turns a refusal outside storage, or a reply that does not answer the
/// request, into the failure to report.
pub fn io_failure_of(reply: Reply) -> (error: Error)
    ensures
        error@ == io_failure(reply@),
{
    match reply {
        Reply::Failed(cause) => Error::Io(cause),
        _ => Error::Io(String::from_str("Unexpected reply")),
    }
}

impl SaveEvents {
    /// Starts the saving of these occurrences of the analysis with this
    /// identity: first its event types are fetched.
    pub fn start(analysis_id: i64, events: Vec<AnalysisEventSummary>) -> (first: (
        SaveEvents,
        Request,
    ))
        ensures
            first.0@ == SaveEventsView::FetchingEventTypes(views(events@)),
            first.1@ == (RequestView::SelectEventTypes { analysis_id }),
    {
        (SaveEvents::FetchingEventTypes(events), Request::SelectEventTypes { analysis_id })
    }
}

/// Takes the saving one reply further.
pub fn save_events_to_csv(state: SaveEvents, reply: Reply) -> (outcome: Outcome<SaveEvents, ()>)
    ensures
        outcome@ == save_events_to_csv_step(state@, reply@),
{
    match state {
        SaveEvents::FetchingEventTypes(events) => match reply {
            Reply::EventTypes(rows) => match decode_event_types(&rows) {
                Some(event_types) => {
                    if event_types.len() == 0 {
                        Outcome::Done(Err(Error::EmptyEventTypes))
                    } else {
                        Outcome::Ask(
                            SaveEvents::ChoosingDestination(event_types, events),
                            Request::ChooseDestination,
                        )
                    }
                },
                None => Outcome::Done(
                    Err(Error::Persistence(String::from_str("Unknown event category in storage"))),
                ),
            },
            other => Outcome::Done(Err(failure_of(other))),
        },
        SaveEvents::ChoosingDestination(event_types, events) => match reply {
            Reply::Destination(Some(path)) => match export_csv(&event_types, &events) {
                Ok(contents) => Outcome::Ask(
                    SaveEvents::Writing,
                    Request::WriteFile { path, contents },
                ),
                Err(error) => Outcome::Done(Err(error)),
            },
            Reply::Destination(None) => Outcome::Done(Err(Error::DestinationNotSelected)),
            other => Outcome::Done(Err(io_failure_of(other))),
        },
        SaveEvents::Writing => match reply {
            Reply::Done => Outcome::Done(Ok(())),
            other => Outcome::Done(Err(io_failure_of(other))),
        },
    }
}

/// Where the saving stands after these replies, counted from its start with
/// the occurrences given. Replies that come after the end change nothing.
pub open spec fn saving_after(
    analysis_id: i64,
    events: Seq<AnalysisEventSummaryView>,
    replies: Seq<ReplyView>,
) -> Step<SaveEventsView, ()>
    decreases replies.len(),
{
    if replies.len() == 0 {
        Step::Ask(
            SaveEventsView::FetchingEventTypes(events),
            RequestView::SelectEventTypes { analysis_id },
        )
    } else {
        match saving_after(analysis_id, events, replies.drop_last()) {
            Step::Ask(reached, _) => save_events_to_csv_step(reached, replies.last()),
            Step::Done(result) => Step::Done(result),
        }
    }
}

/// Whether the replies are those of a saving up to the writing: storage gave
/// event types, the user picked `path`, and `contents` is the whole document
/// for those event types and the occurrences.
pub open spec fn document_is_ready(
    events: Seq<AnalysisEventSummaryView>,
    replies: Seq<ReplyView>,
    path: Seq<char>,
    contents: Seq<u8>,
) -> bool {
    &&& replies.len() == 2
    &&& replies[0] is EventTypes
    &&& decoded(replies[0]->EventTypes_0) is Some
    &&& replies[1] == ReplyView::Destination(Some(path))
    &&& export_outcome(decoded(replies[0]->EventTypes_0)->Some_0, events) == Ok::<
        Seq<u8>,
        ErrorView,
    >(contents)
}

/// Only a whole document is written, and the saving succeeds only once it
/// has been written. Whatever the replies, a file is asked for only with the
/// document that the export gives for the event types fetched and the
/// occurrences given, at the place that the user picked.
pub proof fn only_a_whole_document_is_written(
    analysis_id: i64,
    events: Seq<AnalysisEventSummaryView>,
    replies: Seq<ReplyView>,
)
    ensures
        match saving_after(analysis_id, events, replies) {
            Step::Ask(reached, RequestView::WriteFile { path, contents }) => {
                &&& reached == SaveEventsView::Writing
                &&& document_is_ready(events, replies, path, contents)
            },
            Step::Ask(reached, _) => reached != SaveEventsView::Writing,
            Step::Done(Ok(())) => exists|path: Seq<char>, contents: Seq<u8>|
                #![trigger document_is_ready(events, replies.take(2), path, contents)]
                {
                    &&& replies.len() >= 3
                    &&& document_is_ready(events, replies.take(2), path, contents)
                    &&& replies[2] is Done
                },
            _ => true,
        },
    decreases replies.len(),
{
    reveal_with_fuel(saving_after, 2);
    if replies.len() > 0 {
        let earlier = replies.drop_last();
        only_a_whole_document_is_written(analysis_id, events, earlier);
        saving_states_follow_the_replies(analysis_id, events, earlier);
        assert forall|i: int| 0 <= i < earlier.len() implies earlier[i] == replies[i] by {}
        if saving_after(analysis_id, events, replies) matches Step::Done(Ok(())) {
            if saving_after(analysis_id, events, earlier) is Done {
                // The saving had ended before the last reply.
                let (path, contents) = choose|path: Seq<char>, contents: Seq<u8>|
                    #![trigger document_is_ready(events, earlier.take(2), path, contents)]
                    {
                        &&& earlier.len() >= 3
                        &&& document_is_ready(events, earlier.take(2), path, contents)
                        &&& earlier[2] is Done
                    };
                assert(earlier.take(2) == replies.take(2));
                assert(document_is_ready(events, replies.take(2), path, contents));
            } else {
                // The last reply answers the writing of the document.
                assert(earlier == replies.take(2));
            }
        }
    }
}

/// The state that the saving is in tells which replies came before.
proof fn saving_states_follow_the_replies(
    analysis_id: i64,
    events: Seq<AnalysisEventSummaryView>,
    replies: Seq<ReplyView>,
)
    ensures
        match saving_after(analysis_id, events, replies) {
            Step::Ask(SaveEventsView::FetchingEventTypes(waiting), _) => {
                &&& replies.len() == 0
                &&& waiting == events
            },
            Step::Ask(SaveEventsView::ChoosingDestination(event_types, waiting), _) => {
                &&& replies.len() == 1
                &&& replies[0] is EventTypes
                &&& decoded(replies[0]->EventTypes_0) == Some(event_types)
                &&& waiting == events
            },
            Step::Ask(SaveEventsView::Writing, request) => {
                &&& replies.len() == 2
                &&& request is WriteFile
            },
            _ => true,
        },
    decreases replies.len(),
{
    reveal_with_fuel(saving_after, 2);
    if replies.len() > 0 {
        saving_states_follow_the_replies(analysis_id, events, replies.drop_last());
    }
}

} // verus!
