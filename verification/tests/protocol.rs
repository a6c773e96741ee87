use analysis_store::create::{add_analysis, AddAnalysis};
use analysis_store::error::Error;
use analysis_store::fetch::{
    decode_event_types, get_all_analyses, get_analysis_by_id, GetAllAnalyses, GetAnalysis,
};
use analysis_store::model::{
    AddAnalysisEventType, AddAnalysisParams, AnalysisData, AnalysisEventSummary, EventCategory,
    StoredEventType,
};
use analysis_store::protocol::{Outcome, Reply, Request};
use analysis_store::save::{save_events_to_csv, SaveEvents};
use analysis_store::statements::event_types_insert;
use analysis_store::storage::{open_storage, OpenOutcome, OpenRequest, OpenStorage};

fn params(event_types: Vec<AddAnalysisEventType>) -> AddAnalysisParams {
    AddAnalysisParams {
        name: "Match".to_string(),
        path: "/videos/match.mp4".to_string(),
        duration_bits: 90.5f64.to_bits(),
        event_types,
    }
}

fn new_type(name: &str, key: &str, category: EventCategory) -> AddAnalysisEventType {
    AddAnalysisEventType { name: name.to_string(), keyboard_key: key.to_string(), category }
}

fn stored(id: i64, analysis_id: i64, name: &str, category: &str) -> StoredEventType {
    StoredEventType {
        id,
        analysis_id,
        name: name.to_string(),
        keyboard_key: "k".to_string(),
        category: category.to_string(),
    }
}

fn analysis(id: i64, name: &str) -> AnalysisData {
    AnalysisData {
        id,
        name: name.to_string(),
        path: "/p".to_string(),
        duration_bits: 12.0f64.to_bits(),
        created_at: "2024-01-01 00:00:00".to_string(),
        updated_at: "2024-01-01 00:00:00".to_string(),
        last_opened_at: "2024-01-01 00:00:00".to_string(),
    }
}

fn ask<S, T>(outcome: Outcome<S, T>) -> (S, Request) {
    match outcome {
        Outcome::Ask(state, request) => (state, request),
        Outcome::Done(_) => panic!("the operation ended early"),
    }
}

fn done<S, T>(outcome: Outcome<S, T>) -> Result<T, Error> {
    match outcome {
        Outcome::Done(result) => result,
        Outcome::Ask(_, _) => panic!("the operation did not end"),
    }
}

#[test]
fn category_texts_are_lowercase() {
    assert_eq!(EventCategory::Single.as_text(), "single");
    assert_eq!(EventCategory::Range.as_text(), "range");
}

#[test]
fn category_reads_only_its_own_texts() {
    assert_eq!(EventCategory::from_text("single"), Some(EventCategory::Single));
    assert_eq!(EventCategory::from_text("range"), Some(EventCategory::Range));
    assert_eq!(EventCategory::from_text("Single"), None);
    assert_eq!(EventCategory::from_text("RANGE"), None);
    assert_eq!(EventCategory::from_text(""), None);
    assert_eq!(EventCategory::from_text("range "), None);
    assert_eq!(EventCategory::from_text("point"), None);
}

#[test]
fn category_text_reads_back() {
    for category in [EventCategory::Single, EventCategory::Range] {
        assert_eq!(EventCategory::from_text(category.as_text()), Some(category));
    }
}

#[test]
fn error_messages_are_plain_text() {
    assert_eq!(Error::StorageInit("no disk".to_string()).message(), "no disk");
    assert_eq!(Error::Persistence("locked".to_string()).message(), "locked");
    assert_eq!(Error::NotFound.message(), "Analysis not found");
    assert_eq!(
        Error::EmptyEventTypes.message(),
        "No event types found for the given analysis ID"
    );
    assert_eq!(Error::UnknownEventType.message(), "Event type not found");
    assert_eq!(Error::Encoding.message(), "Failed to serialize event");
    assert_eq!(Error::DestinationNotSelected.message(), "File path not selected");
    assert_eq!(Error::Io("denied".to_string()).message(), "denied");
}

#[test]
fn creation_with_event_types_asks_for_four_things() {
    let (state, request) = AddAnalysis::start(params(vec![
        new_type("Jump", "j", EventCategory::Single),
        new_type("Run", "r", EventCategory::Range),
    ]));
    assert!(matches!(request, Request::Begin));
    let (state, request) = ask(add_analysis(state, Reply::Done));
    match request {
        Request::InsertAnalysis { name, path, duration_bits } => {
            assert_eq!(name, "Match");
            assert_eq!(path, "/videos/match.mp4");
            assert_eq!(f64::from_bits(duration_bits), 90.5);
        }
        _ => panic!("unexpected request"),
    }
    let (state, request) =
        ask(add_analysis(state, Reply::Inserted { rows_affected: 1, last_insert_rowid: 42 }));
    match request {
        Request::InsertEventTypes { analysis_id, event_types, statement } => {
            assert_eq!(
                statement.builder.sql(),
                "INSERT INTO analysis_event_types (analysis_id, name, keyboard_key, category) \
                 VALUES (?, ?, ?, ?), (?, ?, ?, ?)"
            );
            assert_eq!(analysis_id, 42);
            assert_eq!(event_types.len(), 2);
            assert_eq!(event_types[0].name, "Jump");
            assert_eq!(event_types[0].keyboard_key, "j");
            assert_eq!(event_types[0].category, EventCategory::Single);
            assert_eq!(event_types[1].name, "Run");
            assert_eq!(event_types[1].keyboard_key, "r");
            assert_eq!(event_types[1].category, EventCategory::Range);
        }
        _ => panic!("unexpected request"),
    }
    let (state, request) =
        ask(add_analysis(state, Reply::Inserted { rows_affected: 2, last_insert_rowid: 8 }));
    assert!(matches!(request, Request::Commit));
    assert!(matches!(done(add_analysis(state, Reply::Done)), Ok(42)));
}

#[test]
fn creation_without_event_types_commits_after_the_analysis() {
    let (state, _) = AddAnalysis::start(params(vec![]));
    let (state, _) = ask(add_analysis(state, Reply::Done));
    let (state, request) =
        ask(add_analysis(state, Reply::Inserted { rows_affected: 1, last_insert_rowid: 7 }));
    assert!(matches!(request, Request::Commit));
    assert!(matches!(done(add_analysis(state, Reply::Done)), Ok(7)));
}

#[test]
fn creation_fails_when_the_transaction_does_not_open() {
    let (state, _) = AddAnalysis::start(params(vec![]));
    match done(add_analysis(state, Reply::Failed("database is locked".to_string()))) {
        Err(Error::Persistence(cause)) => assert_eq!(cause, "database is locked"),
        other => panic!("unexpected result {:?}", other),
    }
}

#[test]
fn creation_rolls_back_when_no_row_was_inserted() {
    let (state, _) = AddAnalysis::start(params(vec![new_type("Jump", "j", EventCategory::Single)]));
    let (state, _) = ask(add_analysis(state, Reply::Done));
    let (state, request) =
        ask(add_analysis(state, Reply::Inserted { rows_affected: 0, last_insert_rowid: 0 }));
    assert!(matches!(request, Request::Rollback));
    match done(add_analysis(state, Reply::Done)) {
        Err(Error::Persistence(cause)) => assert_eq!(cause, "Failed to insert analysis"),
        other => panic!("unexpected result {:?}", other),
    }
}

#[test]
fn creation_rolls_back_when_the_analysis_is_refused() {
    let (state, _) = AddAnalysis::start(params(vec![]));
    let (state, _) = ask(add_analysis(state, Reply::Done));
    let (state, request) = ask(add_analysis(state, Reply::Failed("disk full".to_string())));
    assert!(matches!(request, Request::Rollback));
    match done(add_analysis(state, Reply::Failed("no transaction".to_string()))) {
        Err(Error::Persistence(cause)) => assert_eq!(cause, "disk full"),
        other => panic!("unexpected result {:?}", other),
    }
}

#[test]
fn creation_rolls_back_when_the_event_types_are_refused() {
    let (state, _) = AddAnalysis::start(params(vec![new_type("Jump", "j", EventCategory::Single)]));
    let (state, _) = ask(add_analysis(state, Reply::Done));
    let (state, _) =
        ask(add_analysis(state, Reply::Inserted { rows_affected: 1, last_insert_rowid: 3 }));
    let (state, request) =
        ask(add_analysis(state, Reply::Failed("CHECK constraint failed".to_string())));
    assert!(matches!(request, Request::Rollback));
    match done(add_analysis(state, Reply::Done)) {
        Err(Error::Persistence(cause)) => assert_eq!(cause, "CHECK constraint failed"),
        other => panic!("unexpected result {:?}", other),
    }
}

#[test]
fn creation_fails_when_the_commit_is_refused() {
    let (state, _) = AddAnalysis::start(params(vec![]));
    let (state, _) = ask(add_analysis(state, Reply::Done));
    let (state, _) =
        ask(add_analysis(state, Reply::Inserted { rows_affected: 1, last_insert_rowid: 3 }));
    match done(add_analysis(state, Reply::Failed("I/O error".to_string()))) {
        Err(Error::Persistence(cause)) => assert_eq!(cause, "I/O error"),
        other => panic!("unexpected result {:?}", other),
    }
}

#[test]
fn creation_treats_a_misplaced_reply_as_a_failure() {
    let (state, _) = AddAnalysis::start(params(vec![]));
    let (state, _) = ask(add_analysis(state, Reply::Done));
    let (state, request) = ask(add_analysis(state, Reply::Analyses(vec![])));
    assert!(matches!(request, Request::Rollback));
    match done(add_analysis(state, Reply::Done)) {
        Err(Error::Persistence(cause)) => assert_eq!(cause, "Unexpected reply"),
        other => panic!("unexpected result {:?}", other),
    }
}

#[test]
fn all_analyses_come_back_as_storage_gave_them() {
    let (state, request) = GetAllAnalyses::start();
    assert!(matches!(request, Request::SelectAnalyses));
    let rows = done(get_all_analyses(
        state,
        Reply::Analyses(vec![analysis(2, "second"), analysis(1, "first")]),
    ))
    .expect("fetch failed");
    assert_eq!(rows.len(), 2);
    assert_eq!(rows[0].id, 2);
    assert_eq!(rows[0].name, "second");
    assert_eq!(rows[1].id, 1);
    assert_eq!(rows[1].name, "first");
}

#[test]
fn all_analyses_fail_when_storage_refuses() {
    let (state, _) = GetAllAnalyses::start();
    match done(get_all_analyses(state, Reply::Failed("no such table".to_string()))) {
        Err(Error::Persistence(cause)) => assert_eq!(cause, "no such table"),
        other => panic!("unexpected result {:?}", other),
    }
}

#[test]
fn missing_analysis_is_not_found() {
    let (state, request) = GetAnalysis::start(99);
    assert!(matches!(request, Request::SelectAnalysis { id: 99 }));
    assert!(matches!(
        done(get_analysis_by_id(state, Reply::Analyses(vec![]))),
        Err(Error::NotFound)
    ));
}

#[test]
fn analysis_comes_back_with_its_event_types() {
    let (state, _) = GetAnalysis::start(5);
    let (state, request) = ask(get_analysis_by_id(state, Reply::Analyses(vec![analysis(5, "five")])));
    assert!(matches!(request, Request::SelectEventTypes { analysis_id: 5 }));
    let found = done(get_analysis_by_id(
        state,
        Reply::EventTypes(vec![stored(10, 5, "Jump", "single"), stored(11, 5, "Run", "range")]),
    ))
    .expect("fetch failed");
    assert_eq!(found.analysis_data.id, 5);
    assert_eq!(found.analysis_data.name, "five");
    assert_eq!(f64::from_bits(found.analysis_data.duration_bits), 12.0);
    assert_eq!(found.event_types.len(), 2);
    assert_eq!(found.event_types[0].id, 10);
    assert_eq!(found.event_types[0].analysis_id, 5);
    assert_eq!(found.event_types[0].name, "Jump");
    assert_eq!(found.event_types[0].keyboard_key, "k");
    assert_eq!(found.event_types[0].category, EventCategory::Single);
    assert_eq!(found.event_types[1].id, 11);
    assert_eq!(found.event_types[1].category, EventCategory::Range);
}

#[test]
fn analysis_may_have_no_event_types() {
    let (state, _) = GetAnalysis::start(5);
    let (state, _) = ask(get_analysis_by_id(state, Reply::Analyses(vec![analysis(5, "five")])));
    let found = done(get_analysis_by_id(state, Reply::EventTypes(vec![]))).expect("fetch failed");
    assert_eq!(found.analysis_data.id, 5);
    assert!(found.event_types.is_empty());
}

#[test]
fn unknown_stored_category_is_a_failure() {
    let (state, _) = GetAnalysis::start(5);
    let (state, _) = ask(get_analysis_by_id(state, Reply::Analyses(vec![analysis(5, "five")])));
    match done(get_analysis_by_id(
        state,
        Reply::EventTypes(vec![stored(10, 5, "Jump", "single"), stored(11, 5, "Run", "burst")]),
    )) {
        Err(Error::Persistence(cause)) => assert_eq!(cause, "Unknown event category in storage"),
        other => panic!("unexpected result {:?}", other),
    }
    assert!(decode_event_types(&vec![stored(1, 1, "a", "Single")]).is_none());
    assert_eq!(decode_event_types(&vec![]).map(|rows| rows.len()), Some(0));
}

#[test]
fn fetch_of_one_analysis_fails_when_storage_refuses() {
    let (state, _) = GetAnalysis::start(5);
    match done(get_analysis_by_id(state, Reply::Failed("busy".to_string()))) {
        Err(Error::Persistence(cause)) => assert_eq!(cause, "busy"),
        other => panic!("unexpected result {:?}", other),
    }
    let (state, _) = GetAnalysis::start(5);
    let (state, _) = ask(get_analysis_by_id(state, Reply::Analyses(vec![analysis(5, "five")])));
    match done(get_analysis_by_id(state, Reply::Failed("gone".to_string()))) {
        Err(Error::Persistence(cause)) => assert_eq!(cause, "gone"),
        other => panic!("unexpected result {:?}", other),
    }
}

fn events() -> Vec<AnalysisEventSummary> {
    vec![
        AnalysisEventSummary {
            event_type_id: 1,
            start_timestamp: 0.5f64.to_string(),
            end_timestamp: None,
        },
        AnalysisEventSummary {
            event_type_id: 2,
            start_timestamp: 1.0f64.to_string(),
            end_timestamp: Some(2.5f64.to_string()),
        },
    ]
}

#[test]
fn saving_writes_the_document_to_the_place_picked() {
    let (state, request) = SaveEvents::start(4, events());
    assert!(matches!(request, Request::SelectEventTypes { analysis_id: 4 }));
    let (state, request) = ask(save_events_to_csv(
        state,
        Reply::EventTypes(vec![stored(1, 4, "Jump", "single"), stored(2, 4, "Duck", "range")]),
    ));
    assert!(matches!(request, Request::ChooseDestination));
    let (state, request) =
        ask(save_events_to_csv(state, Reply::Destination(Some("/tmp/out.csv".to_string()))));
    match request {
        Request::WriteFile { path, contents } => {
            assert_eq!(path, "/tmp/out.csv");
            assert_eq!(
                String::from_utf8(contents).expect("not UTF-8"),
                "Event Type,Start Time,End Time\nJump,0.5,\nDuck,1,2.5\n"
            );
        }
        _ => panic!("unexpected request"),
    }
    assert!(matches!(done(save_events_to_csv(state, Reply::Done)), Ok(())));
}

#[test]
fn saving_without_event_types_fails_before_asking_for_a_place() {
    let (state, _) = SaveEvents::start(4, events());
    assert!(matches!(
        done(save_events_to_csv(state, Reply::EventTypes(vec![]))),
        Err(Error::EmptyEventTypes)
    ));
}

#[test]
fn saving_fails_when_no_place_is_picked() {
    let (state, _) = SaveEvents::start(4, events());
    let (state, _) =
        ask(save_events_to_csv(state, Reply::EventTypes(vec![stored(1, 4, "Jump", "single")])));
    assert!(matches!(
        done(save_events_to_csv(state, Reply::Destination(None))),
        Err(Error::DestinationNotSelected)
    ));
}

#[test]
fn saving_an_occurrence_of_an_unknown_event_type_fails_before_writing() {
    let (state, _) = SaveEvents::start(4, events());
    let (state, _) =
        ask(save_events_to_csv(state, Reply::EventTypes(vec![stored(1, 4, "Jump", "single")])));
    assert!(matches!(
        done(save_events_to_csv(state, Reply::Destination(Some("/tmp/out.csv".to_string())))),
        Err(Error::UnknownEventType)
    ));
}

#[test]
fn saving_reports_what_storage_and_the_file_system_refuse() {
    let (state, _) = SaveEvents::start(4, events());
    match done(save_events_to_csv(state, Reply::Failed("busy".to_string()))) {
        Err(Error::Persistence(cause)) => assert_eq!(cause, "busy"),
        other => panic!("unexpected result {:?}", other),
    }
    let (state, _) = SaveEvents::start(4, events());
    match done(save_events_to_csv(state, Reply::EventTypes(vec![stored(1, 4, "Jump", "jump")]))) {
        Err(Error::Persistence(cause)) => assert_eq!(cause, "Unknown event category in storage"),
        other => panic!("unexpected result {:?}", other),
    }
    let (state, _) = SaveEvents::start(4, vec![]);
    let (state, _) =
        ask(save_events_to_csv(state, Reply::EventTypes(vec![stored(1, 4, "Jump", "single")])));
    let (state, request) =
        ask(save_events_to_csv(state, Reply::Destination(Some("/ro/out.csv".to_string()))));
    match request {
        Request::WriteFile { contents, .. } => {
            assert_eq!(contents, b"Event Type,Start Time,End Time\n".to_vec())
        }
        _ => panic!("unexpected request"),
    }
    match done(save_events_to_csv(state, Reply::Failed("read-only file system".to_string()))) {
        Err(Error::Io(cause)) => assert_eq!(cause, "read-only file system"),
        other => panic!("unexpected result {:?}", other),
    }
}

#[test]
fn opening_goes_through_directory_file_and_migrations() {
    let (state, request) = OpenStorage::start();
    assert_eq!(state, OpenStorage::EnsuringDirectory);
    assert!(matches!(request, OpenRequest::EnsureDirectory));
    let state = match open_storage(state, Reply::Done) {
        OpenOutcome::Ask(state, OpenRequest::Connect { file_name, create_if_missing, write_ahead_log }) => {
            assert_eq!(file_name, "app_data.sqlite");
            assert!(create_if_missing);
            assert!(write_ahead_log);
            state
        }
        other => panic!("unexpected outcome {:?}", other),
    };
    let state = match open_storage(state, Reply::Done) {
        OpenOutcome::Ask(state, OpenRequest::Migrate) => state,
        other => panic!("unexpected outcome {:?}", other),
    };
    assert!(matches!(open_storage(state, Reply::Done), OpenOutcome::Done(Ok(()))));
}

#[test]
fn opening_stops_at_the_first_failure() {
    for state in [OpenStorage::EnsuringDirectory, OpenStorage::Connecting, OpenStorage::Migrating] {
        match open_storage(state, Reply::Failed("permission denied".to_string())) {
            OpenOutcome::Done(Err(Error::StorageInit(cause))) => {
                assert_eq!(cause, "permission denied")
            }
            other => panic!("unexpected outcome {:?}", other),
        }
        match open_storage(state, Reply::Destination(None)) {
            OpenOutcome::Done(Err(Error::StorageInit(cause))) => {
                assert_eq!(cause, "Unexpected reply")
            }
            other => panic!("unexpected outcome {:?}", other),
        }
    }
}

#[test]
fn bulk_insert_has_a_tuple_of_placeholders_for_each_event_type() {
    assert!(event_types_insert(1, &vec![]).is_none());
    let one = event_types_insert(1, &vec![new_type("a'); DROP TABLE analyses; --", "k", EventCategory::Single)])
        .expect("no statement");
    assert_eq!(
        one.builder.sql(),
        "INSERT INTO analysis_event_types (analysis_id, name, keyboard_key, category) \
         VALUES (?, ?, ?, ?)"
    );
    let three = event_types_insert(
        9,
        &vec![
            new_type("a", "1", EventCategory::Single),
            new_type("b", "2", EventCategory::Range),
            new_type("c", "3", EventCategory::Single),
        ],
    )
    .expect("no statement");
    assert_eq!(
        three.builder.sql(),
        "INSERT INTO analysis_event_types (analysis_id, name, keyboard_key, category) \
         VALUES (?, ?, ?, ?), (?, ?, ?, ?), (?, ?, ?, ?)"
    );
}
