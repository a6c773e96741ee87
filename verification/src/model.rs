//! The records that the library stores, fetches and exports.
//!
//! Every record has a view: the same record with its texts as sequences of
//! characters. Contracts elsewhere in the crate speak of the views.

use vstd::prelude::*;

verus! {

/// The views of a run of items, in order.
pub open spec fn views<T: View>(items: Seq<T>) -> Seq<T::V> {
    Seq::new(items.len(), |i: int| items[i]@)
}

/// Whether an event marks one instant or spans a stretch of time.
#[derive(Clone, Copy, Debug, PartialEq, Eq, Structural)]
pub enum EventCategory {
    Single,
    Range,
}

/// The lowercase text under which a category is stored.
pub open spec fn category_text(category: EventCategory) -> Seq<char> {
    match category {
        EventCategory::Single => "single"@,
        EventCategory::Range => "range"@,
    }
}

/// The category that a stored text stands for, if it stands for one.
pub open spec fn parse_category(text: Seq<char>) -> Option<EventCategory> {
    if text == "single"@ {
        Some(EventCategory::Single)
    } else if text == "range"@ {
        Some(EventCategory::Range)
    } else {
        None
    }
}

impl EventCategory {
    /// The text that storage holds for this category.
    pub fn as_text(&self) -> (text: &'static str)
        ensures
            text@ == category_text(*self),
    {
        match self {
            EventCategory::Single => "single",
            EventCategory::Range => "range",
        }
    }

    /// Reads a stored text back; any text but the two known ones is refused.
    pub fn from_text(text: &str) -> (category: Option<EventCategory>)
        ensures
            category == parse_category(text@),
    {
        let given = text.to_owned();
        if given == "single".to_owned() {
            Some(EventCategory::Single)
        } else if given == "range".to_owned() {
            Some(EventCategory::Range)
        } else {
            None
        }
    }
}

/// An analysis as storage holds it.
///
/// `duration_bits` is the length in seconds, kept as the bit pattern of the
/// binary64 number that the caller works with; the library only carries it.
#[derive(Debug)]
pub struct AnalysisData {
    pub id: i64,
    pub name: String,
    pub path: String,
    pub duration_bits: u64,
    pub created_at: String,
    pub updated_at: String,
    pub last_opened_at: String,
}

pub struct AnalysisDataView {
    pub id: i64,
    pub name: Seq<char>,
    pub path: Seq<char>,
    pub duration_bits: u64,
    pub created_at: Seq<char>,
    pub updated_at: Seq<char>,
    pub last_opened_at: Seq<char>,
}

impl View for AnalysisData {
    type V = AnalysisDataView;

    open spec fn view(&self) -> AnalysisDataView {
        AnalysisDataView {
            id: self.id,
            name: self.name@,
            path: self.path@,
            duration_bits: self.duration_bits,
            created_at: self.created_at@,
            updated_at: self.updated_at@,
            last_opened_at: self.last_opened_at@,
        }
    }
}

/// An event type of one analysis, with its category decoded.
#[derive(Debug)]
pub struct AnalysisEventType {
    pub id: i64,
    pub analysis_id: i64,
    pub name: String,
    pub keyboard_key: String,
    pub category: EventCategory,
}

pub struct AnalysisEventTypeView {
    pub id: i64,
    pub analysis_id: i64,
    pub name: Seq<char>,
    pub keyboard_key: Seq<char>,
    pub category: EventCategory,
}

impl View for AnalysisEventType {
    type V = AnalysisEventTypeView;

    open spec fn view(&self) -> AnalysisEventTypeView {
        AnalysisEventTypeView {
            id: self.id,
            analysis_id: self.analysis_id,
            name: self.name@,
            keyboard_key: self.keyboard_key@,
            category: self.category,
        }
    }
}

/// A row of the event-type table as it comes back from storage: the category
/// is still the stored text.
#[derive(Debug)]
pub struct StoredEventType {
    pub id: i64,
    pub analysis_id: i64,
    pub name: String,
    pub keyboard_key: String,
    pub category: String,
}

pub struct StoredEventTypeView {
    pub id: i64,
    pub analysis_id: i64,
    pub name: Seq<char>,
    pub keyboard_key: Seq<char>,
    pub category: Seq<char>,
}

impl View for StoredEventType {
    type V = StoredEventTypeView;

    open spec fn view(&self) -> StoredEventTypeView {
        StoredEventTypeView {
            id: self.id,
            analysis_id: self.analysis_id,
            name: self.name@,
            keyboard_key: self.keyboard_key@,
            category: self.category@,
        }
    }
}

/// An event type to create together with its analysis.
#[derive(Debug)]
pub struct AddAnalysisEventType {
    pub name: String,
    pub keyboard_key: String,
    pub category: EventCategory,
}

pub struct AddAnalysisEventTypeView {
    pub name: Seq<char>,
    pub keyboard_key: Seq<char>,
    pub category: EventCategory,
}

impl View for AddAnalysisEventType {
    type V = AddAnalysisEventTypeView;

    open spec fn view(&self) -> AddAnalysisEventTypeView {
        AddAnalysisEventTypeView {
            name: self.name@,
            keyboard_key: self.keyboard_key@,
            category: self.category,
        }
    }
}

/// What it takes to create an analysis: its own fields and its event types,
/// in the order in which they are to be stored.
#[derive(Debug)]
pub struct AddAnalysisParams {
    pub name: String,
    pub path: String,
    pub duration_bits: u64,
    pub event_types: Vec<AddAnalysisEventType>,
}

pub struct AddAnalysisParamsView {
    pub name: Seq<char>,
    pub path: Seq<char>,
    pub duration_bits: u64,
    pub event_types: Seq<AddAnalysisEventTypeView>,
}

impl View for AddAnalysisParams {
    type V = AddAnalysisParamsView;

    open spec fn view(&self) -> AddAnalysisParamsView {
        AddAnalysisParamsView {
            name: self.name@,
            path: self.path@,
            duration_bits: self.duration_bits,
            event_types: views(self.event_types@),
        }
    }
}

/// An analysis together with all of its event types.
#[derive(Debug)]
pub struct AnalysisWithEvents {
    pub analysis_data: AnalysisData,
    pub event_types: Vec<AnalysisEventType>,
}

pub struct AnalysisWithEventsView {
    pub analysis_data: AnalysisDataView,
    pub event_types: Seq<AnalysisEventTypeView>,
}

impl View for AnalysisWithEvents {
    type V = AnalysisWithEventsView;

    open spec fn view(&self) -> AnalysisWithEventsView {
        AnalysisWithEventsView {
            analysis_data: self.analysis_data@,
            event_types: views(self.event_types@),
        }
    }
}

/// One recorded occurrence of an event, as the caller hands it over for
/// export.
///
/// The two timestamps are the decimal texts of the caller's numbers. The end
/// is absent for an occurrence without one.
#[derive(Debug)]
pub struct AnalysisEventSummary {
    pub event_type_id: i64,
    pub start_timestamp: String,
    pub end_timestamp: Option<String>,
}

pub struct AnalysisEventSummaryView {
    pub event_type_id: i64,
    pub start_timestamp: Seq<char>,
    pub end_timestamp: Option<Seq<char>>,
}

impl View for AnalysisEventSummary {
    type V = AnalysisEventSummaryView;

    open spec fn view(&self) -> AnalysisEventSummaryView {
        AnalysisEventSummaryView {
            event_type_id: self.event_type_id,
            start_timestamp: self.start_timestamp@,
            end_timestamp: match self.end_timestamp {
                Some(text) => Some(text@),
                None => None,
            },
        }
    }
}

/// Reading back the text of a category gives the category.
pub proof fn category_text_round_trip(category: EventCategory)
    ensures
        parse_category(category_text(category)) == Some(category),
{
    reveal_strlit("single");
    reveal_strlit("range");
    assert("single"@.len() != "range"@.len());
}

/// Only the two stored texts are read as a category, each as its own.
pub proof fn parse_category_inverts_text(text: Seq<char>, category: EventCategory)
    ensures
        parse_category(text) == Some(category) <==> text == category_text(category),
{
    category_text_round_trip(category);
}

} // verus!
