use swu_app::calendar::CalendarDate;
use swu_app::report::assemble_batch;
use swu_app::report::batch_update_request;
use swu_app::report::format_window;
use swu_app::report::get_charity_event_summary_rows;
use swu_app::report::get_general_feedback_rows;
use swu_app::report::get_store_status_rows;
use swu_app::report::get_uninstall_feedback_rows;
use swu_app::report::get_widget_event_summary_rows;
use swu_app::report::window_heading_row;
use swu_app::report::CharityEventCount;
use swu_app::report::ExportRun;
use swu_app::report::GeneralFeedbackRecord;
use swu_app::report::Sheet;
use swu_app::report::StoreRecord;
use swu_app::report::UninstallFeedbackRecord;
use swu_app::report::WidgetEventCount;
use swu_app::report::SHEET_COUNT;
use swu_app::sheets::create_bulk_updates_for_sheet;
use swu_app::sheets::Rows;
use swu_app::sheets::ValueRange;

fn row(cells: &[&str]) -> Vec<String> {
    cells.iter().map(|cell| (*cell).to_owned()).collect()
}

fn rows(all: &[&[&str]]) -> Rows {
    all.iter().map(|cells| row(cells)).collect()
}

fn ranges(updates: &[ValueRange]) -> Vec<String> {
    updates
        .iter()
        .map(|update| update.range.clone().unwrap())
        .collect()
}

fn week() -> (CalendarDate, CalendarDate) {
    (
        CalendarDate { year: 2022, month: 8, day: 1 },
        CalendarDate { year: 2022, month: 8, day: 7 },
    )
}

#[test]
fn stores_are_reported_with_their_status() {
    let stores = vec![
        StoreRecord {
            id: "6f2b0c0e-6a3b-4c56-9d2f-2f4c1f8b9a10".to_owned(),
            store_hash: "abc123".to_owned(),
            installed_at: "2022-08-06 10:00:00.0 +00:00:00".to_owned(),
            published: true,
            uninstalled: false,
        },
        StoreRecord {
            id: "id-2".to_owned(),
            store_hash: "def456".to_owned(),
            installed_at: "later".to_owned(),
            published: false,
            uninstalled: true,
        },
    ];
    assert_eq!(
        get_store_status_rows(&stores),
        rows(&[
            &[
                "6f2b0c0e-6a3b-4c56-9d2f-2f4c1f8b9a10",
                "abc123",
                "2022-08-06 10:00:00.0 +00:00:00",
                "true",
                "false"
            ],
            &["id-2", "def456", "later", "false", "true"],
        ])
    );
    assert_eq!(get_store_status_rows(&Vec::new()), Rows::new());
}

#[test]
fn feedback_is_reported_with_its_number() {
    let uninstall = vec![UninstallFeedbackRecord {
        id: 17,
        store_hash: "abc123".to_owned(),
        unpublished_at: "2022-08-06".to_owned(),
        reason: "too loud".to_owned(),
    }];
    assert_eq!(
        get_uninstall_feedback_rows(&uninstall),
        rows(&[&["17", "abc123", "2022-08-06", "too loud"]])
    );
    let general = vec![
        GeneralFeedbackRecord {
            id: 1,
            submitted_at: "2022-08-06".to_owned(),
            name: "Ann".to_owned(),
            email: "ann@example.com".to_owned(),
            message: "thanks".to_owned(),
        },
        GeneralFeedbackRecord {
            id: -2,
            submitted_at: "2022-08-07".to_owned(),
            name: "".to_owned(),
            email: "b@example.com".to_owned(),
            message: "".to_owned(),
        },
    ];
    assert_eq!(
        get_general_feedback_rows(&general),
        rows(&[
            &["1", "2022-08-06", "Ann", "ann@example.com", "thanks"],
            &["-2", "2022-08-07", "", "b@example.com", ""],
        ])
    );
}

#[test]
fn window_is_written_from_its_first_to_its_last_day() {
    let (start, end) = week();
    assert_eq!(format_window(start, end), "August-1-2022 to August-7-2022");
    assert_eq!(
        window_heading_row(start, end),
        row(&["⎯⎯⎯⎯⎯ August-1-2022 to August-7-2022 ⎯⎯⎯⎯⎯"])
    );
}

#[test]
fn charity_events_are_keyed_by_charity_event_and_window() {
    let (start, end) = week();
    let counts = vec![
        CharityEventCount {
            charity: "razom".to_owned(),
            event_type: "see-more-clicked".to_owned(),
            count: 3,
        },
        CharityEventCount {
            charity: "unicef".to_owned(),
            event_type: "support-clicked".to_owned(),
            count: 12,
        },
    ];
    assert_eq!(
        get_charity_event_summary_rows(&counts, start, end),
        rows(&[
            &["⎯⎯⎯⎯⎯ August-1-2022 to August-7-2022 ⎯⎯⎯⎯⎯"],
            &[
                "razom:see-more-clicked August-1-2022 to August-7-2022",
                "razom",
                "see-more-clicked",
                "3"
            ],
            &[
                "unicef:support-clicked August-1-2022 to August-7-2022",
                "unicef",
                "support-clicked",
                "12"
            ],
        ])
    );
    assert_eq!(
        get_charity_event_summary_rows(&Vec::new(), start, end),
        rows(&[&["⎯⎯⎯⎯⎯ August-1-2022 to August-7-2022 ⎯⎯⎯⎯⎯"]])
    );
}

#[test]
fn widget_events_are_keyed_by_event_and_window() {
    let (start, end) = week();
    let counts = vec![WidgetEventCount { event_type: "widget-opened".to_owned(), count: 40 }];
    assert_eq!(
        get_widget_event_summary_rows(&counts, start, end),
        rows(&[
            &["⎯⎯⎯⎯⎯ August-1-2022 to August-7-2022 ⎯⎯⎯⎯⎯"],
            &["widget-opened August-1-2022 to August-7-2022", "widget-opened", "40"],
        ])
    );
}

#[test]
fn summary_of_a_week_overwrites_itself_when_exported_again() {
    let (start, end) = week();
    let counts = vec![WidgetEventCount { event_type: "widget-opened".to_owned(), count: 40 }];
    let first_rows = get_widget_event_summary_rows(&counts, start, end);
    let first = create_bulk_updates_for_sheet("widget-events", &None, first_rows.clone());
    assert_eq!(ranges(&first), vec!["widget-events!A1:A1", "widget-events!A2:C2"]);
    let existing: Rows = first_rows.iter().map(|cells| vec![cells[0].clone()]).collect();
    let more = vec![WidgetEventCount { event_type: "widget-opened".to_owned(), count: 41 }];
    let second = create_bulk_updates_for_sheet(
        "widget-events",
        &Some(existing),
        get_widget_event_summary_rows(&more, start, end),
    );
    assert_eq!(ranges(&second), ranges(&first));
    assert_eq!(
        second[1].values,
        Some(rows(&[&["widget-opened August-1-2022 to August-7-2022", "widget-opened", "41"]]))
    );
}

#[test]
fn sheets_are_brought_up_to_date_in_a_fixed_order() {
    assert_eq!(SHEET_COUNT, 5);
    assert_eq!(Sheet::at(0), Some(Sheet::Stores));
    assert_eq!(Sheet::at(1), Some(Sheet::UninstallFeedback));
    assert_eq!(Sheet::at(2), Some(Sheet::GeneralFeedback));
    assert_eq!(Sheet::at(3), Some(Sheet::CharityEvents));
    assert_eq!(Sheet::at(4), Some(Sheet::WidgetEvents));
    assert_eq!(Sheet::at(5), None);
    assert_eq!(Sheet::at(usize::MAX), None);
    assert_eq!(Sheet::Stores.name(), "stores");
    assert_eq!(Sheet::UninstallFeedback.name(), "uninstall-feedback");
    assert_eq!(Sheet::GeneralFeedback.name(), "general-feedback");
    assert_eq!(Sheet::CharityEvents.name(), "charity-events");
    assert_eq!(Sheet::WidgetEvents.name(), "widget-events");
}

#[test]
fn batch_keeps_the_order_of_sheets_and_of_their_writes() {
    let stores = create_bulk_updates_for_sheet("stores", &None, rows(&[&["a", "1"], &["b", "2"]]));
    let feedback = create_bulk_updates_for_sheet(
        "feedback",
        &Some(rows(&[&["id"], &["7"]])),
        rows(&[&["8", "x"], &["7", "y"]]),
    );
    let batch = assemble_batch(vec![stores.clone(), Vec::new(), feedback.clone()]);
    assert_eq!(
        ranges(&batch),
        vec!["stores!A1:B1", "stores!A2:B2", "feedback!A3:B3", "feedback!A2:B2"]
    );
    let mut expected = stores;
    expected.extend(feedback);
    assert_eq!(batch, expected);
    assert_eq!(assemble_batch(Vec::new()), Vec::new());
}

#[test]
fn batch_is_read_as_typed_and_asks_for_no_values_back() {
    let updates = create_bulk_updates_for_sheet("stores", &None, rows(&[&["a", "1"]]));
    let request = batch_update_request(updates.clone());
    assert_eq!(request.data, Some(updates));
    assert_eq!(request.value_input_option, Some("USER_ENTERED".to_owned()));
    assert_eq!(request.include_values_in_response, Some(false));
    assert_eq!(request.response_date_time_render_option, None);
    assert_eq!(request.response_value_render_option, None);
}

#[test]
fn export_run_plans_each_sheet_and_ends_in_one_batch() {
    let mut run = ExportRun::new();
    assert_eq!(run.pending_sheet(), Some(Sheet::Stores));
    run.plan_pending_sheet(&Some(rows(&[&["id"], &["s1"]])), rows(&[&["s1", "a"], &["s2", "b"]]));
    assert_eq!(run.pending_sheet(), Some(Sheet::UninstallFeedback));
    run.plan_pending_sheet(&None, rows(&[&["1", "x"]]));
    assert_eq!(run.pending_sheet(), Some(Sheet::GeneralFeedback));
    run.plan_pending_sheet(&None, Rows::new());
    assert_eq!(run.pending_sheet(), Some(Sheet::CharityEvents));
    run.plan_pending_sheet(&Some(rows(&[&["k"]])), rows(&[&["k"], &["l", "m", "n", "o"]]));
    assert_eq!(run.pending_sheet(), Some(Sheet::WidgetEvents));
    run.plan_pending_sheet(&Some(Rows::new()), rows(&[&["w", "1", "2"]]));
    assert_eq!(run.pending_sheet(), None);
    let request = run.finish().expect("every sheet is planned");
    assert_eq!(
        ranges(&request.data.unwrap()),
        vec![
            "stores!A2:B2",
            "stores!A3:B3",
            "uninstall-feedback!A1:B1",
            "charity-events!A1:A1",
            "charity-events!A2:D2",
            "widget-events!A1:C1",
        ]
    );
    assert_eq!(request.value_input_option, Some("USER_ENTERED".to_owned()));
    assert_eq!(request.include_values_in_response, Some(false));
}

#[test]
fn export_run_does_not_end_while_a_sheet_is_pending() {
    assert!(ExportRun::new().finish().is_none());
    let mut run = ExportRun::new();
    run.plan_pending_sheet(&None, rows(&[&["a"]]));
    run.plan_pending_sheet(&None, rows(&[&["a"]]));
    run.plan_pending_sheet(&None, rows(&[&["a"]]));
    run.plan_pending_sheet(&None, rows(&[&["a"]]));
    assert_eq!(run.pending_sheet(), Some(Sheet::WidgetEvents));
    assert!(run.finish().is_none());
}
