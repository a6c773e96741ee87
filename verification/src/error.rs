//! The failures that the library reports.

use vstd::prelude::*;
use vstd::string::StringExecFns;

verus! {

/// Why an operation did not go through.
///
/// A variant with a text carries the cause as the layer below worded it.
#[derive(Debug)]
pub enum Error {
    /// The storage could not be prepared: its directory, its file or a
    /// migration failed.
    StorageInit(String),
    /// The engine refused a statement, or a write did not touch the rows it
    /// was meant to.
    Persistence(String),
    /// No analysis has the identity asked for.
    NotFound,
    /// An export was asked for with no event types to name the occurrences.
    EmptyEventTypes,
    /// An occurrence names an event type that is not among those given.
    UnknownEventType,
    /// A row could not be put into text.
    Encoding,
    /// The caller picked no place to write the export to.
    DestinationNotSelected,
    /// The export could not be written out.
    Io(String),
}

pub enum ErrorView {
    StorageInit(Seq<char>),
    Persistence(Seq<char>),
    NotFound,
    EmptyEventTypes,
    UnknownEventType,
    Encoding,
    DestinationNotSelected,
    Io(Seq<char>),
}

impl View for Error {
    type V = ErrorView;

    open spec fn view(&self) -> ErrorView {
        match self {
            Error::StorageInit(cause) => ErrorView::StorageInit(cause@),
            Error::Persistence(cause) => ErrorView::Persistence(cause@),
            Error::NotFound => ErrorView::NotFound,
            Error::EmptyEventTypes => ErrorView::EmptyEventTypes,
            Error::UnknownEventType => ErrorView::UnknownEventType,
            Error::Encoding => ErrorView::Encoding,
            Error::DestinationNotSelected => ErrorView::DestinationNotSelected,
            Error::Io(cause) => ErrorView::Io(cause@),
        }
    }
}

/// The text shown for a failure.
pub open spec fn message_text(error: ErrorView) -> Seq<char> {
    match error {
        ErrorView::StorageInit(cause) => cause,
        ErrorView::Persistence(cause) => cause,
        ErrorView::NotFound => "Analysis not found"@,
        ErrorView::EmptyEventTypes => "No event types found for the given analysis ID"@,
        ErrorView::UnknownEventType => "Event type not found"@,
        ErrorView::Encoding => "Failed to serialize event"@,
        ErrorView::DestinationNotSelected => "File path not selected"@,
        ErrorView::Io(cause) => cause,
    }
}

impl Error {
    /// The failure as plain text for a person to read.
    pub fn message(&self) -> (text: String)
        ensures
            text@ == message_text(self@),
    {
        match self {
            Error::StorageInit(cause) => cause.clone(),
            Error::Persistence(cause) => cause.clone(),
            Error::NotFound => String::from_str("Analysis not found"),
            Error::EmptyEventTypes => String::from_str(
                "No event types found for the given analysis ID",
            ),
            Error::UnknownEventType => String::from_str("Event type not found"),
            Error::Encoding => String::from_str("Failed to serialize event"),
            Error::DestinationNotSelected => String::from_str("File path not selected"),
            Error::Io(cause) => cause.clone(),
        }
    }
}

} // verus!
