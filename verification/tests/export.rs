use analysis_store::error::Error;
use analysis_store::export::export_csv;
use analysis_store::model::{AnalysisEventSummary, AnalysisEventType, EventCategory};

fn event_type(id: i64, name: &str, category: EventCategory) -> AnalysisEventType {
    AnalysisEventType {
        id,
        analysis_id: 1,
        name: name.to_string(),
        keyboard_key: "k".to_string(),
        category,
    }
}

fn occurrence(event_type_id: i64, start: f64, end: Option<f64>) -> AnalysisEventSummary {
    AnalysisEventSummary {
        event_type_id,
        start_timestamp: start.to_string(),
        end_timestamp: end.map(|t| t.to_string()),
    }
}

fn text(outcome: Result<Vec<u8>, Error>) -> String {
    String::from_utf8(outcome.expect("export failed")).expect("not UTF-8")
}

#[test]
fn export_of_two_occurrences_is_exact() {
    let types = vec![
        event_type(1, "Jump", EventCategory::Single),
        event_type(2, "Duck", EventCategory::Range),
    ];
    let occurrences = vec![occurrence(1, 0.5, None), occurrence(2, 1.0, Some(2.5))];
    assert_eq!(
        text(export_csv(&types, &occurrences)),
        "Event Type,Start Time,End Time\nJump,0.5,\nDuck,1,2.5\n"
    );
}

#[test]
fn export_without_occurrences_is_the_header() {
    let types = vec![event_type(1, "Jump", EventCategory::Single)];
    assert_eq!(text(export_csv(&types, &vec![])), "Event Type,Start Time,End Time\n");
}

#[test]
fn export_without_event_types_fails() {
    let occurrences = vec![occurrence(1, 0.5, None)];
    assert!(matches!(export_csv(&vec![], &occurrences), Err(Error::EmptyEventTypes)));
    assert!(matches!(export_csv(&vec![], &vec![]), Err(Error::EmptyEventTypes)));
}

#[test]
fn export_of_unknown_event_type_fails() {
    let types = vec![event_type(1, "Jump", EventCategory::Single)];
    let occurrences = vec![occurrence(1, 0.5, None), occurrence(7, 1.0, None)];
    assert!(matches!(export_csv(&types, &occurrences), Err(Error::UnknownEventType)));
}

#[test]
fn export_quotes_names_that_need_it() {
    let types = vec![
        event_type(1, "a,b", EventCategory::Single),
        event_type(2, "say \"hi\"", EventCategory::Single),
        event_type(3, "two\nlines", EventCategory::Single),
        event_type(4, "cr\rhere", EventCategory::Single),
        event_type(5, "", EventCategory::Single),
        event_type(6, " padded ", EventCategory::Single),
        event_type(7, "#é;'\t", EventCategory::Single),
    ];
    let occurrences: Vec<AnalysisEventSummary> =
        (1..=7).map(|id| occurrence(id, 2.0, Some(0.25))).collect();
    assert_eq!(
        text(export_csv(&types, &occurrences)),
        "Event Type,Start Time,End Time\n\
         \"a,b\",2,0.25\n\
         \"say \"\"hi\"\"\",2,0.25\n\
         \"two\nlines\",2,0.25\n\
         \"cr\rhere\",2,0.25\n\
         ,2,0.25\n \
         padded ,2,0.25\n\
         #é;'\t,2,0.25\n"
    );
}

#[test]
fn export_takes_the_later_name_of_a_shared_identity() {
    let types = vec![
        event_type(1, "First", EventCategory::Single),
        event_type(1, "Second", EventCategory::Single),
    ];
    let occurrences = vec![occurrence(1, 3.0, None)];
    assert_eq!(
        text(export_csv(&types, &occurrences)),
        "Event Type,Start Time,End Time\nSecond,3,\n"
    );
}

#[test]
fn export_of_many_long_rows_keeps_every_byte() {
    let long_name = "n\"".repeat(6000);
    let types = vec![event_type(1, &long_name, EventCategory::Single)];
    let occurrences: Vec<AnalysisEventSummary> =
        (0..5).map(|k| occurrence(1, k as f64, None)).collect();
    let quoted = format!("\"{}\"", "n\"\"".repeat(6000));
    let mut expected = String::from("Event Type,Start Time,End Time\n");
    for k in 0..5 {
        expected.push_str(&format!("{},{},\n", quoted, k));
    }
    assert_eq!(text(export_csv(&types, &occurrences)), expected);
}

#[test]
fn export_reads_back_with_the_csv_reader() {
    let types = vec![
        event_type(1, "a,\"b\"\r\n", EventCategory::Single),
        event_type(2, "plain", EventCategory::Range),
    ];
    let occurrences = vec![occurrence(1, 0.5, None), occurrence(2, 1.5, Some(2.0))];
    let document = export_csv(&types, &occurrences).expect("export failed");
    let mut reader = csv::ReaderBuilder::new().has_headers(false).from_reader(&document[..]);
    let rows: Vec<Vec<String>> = reader
        .records()
        .map(|r| r.expect("bad record").iter().map(|f| f.to_string()).collect())
        .collect();
    assert_eq!(
        rows,
        vec![
            vec!["Event Type".to_string(), "Start Time".to_string(), "End Time".to_string()],
            vec!["a,\"b\"\r\n".to_string(), "0.5".to_string(), "".to_string()],
            vec!["plain".to_string(), "1.5".to_string(), "2".to_string()],
        ]
    );
}
