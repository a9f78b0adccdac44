use std::path::PathBuf;

use counter::aggregation_control::{AggregationController, ControllerAction};
use counter::file_handling::{AggregationMessages, FileHandlingMessages};
use counter::record_handling::{AggregateELBRecord, Day, ELBRecordAggregation};

const TEST_LOG_FILE: &str = "test_resources/elb_test.log";
const TEST_LOG_FILE_AGGS: usize = 10;

/// The messages that went to one worker, in the order they were sent.
fn received_by(dispatched: &[(usize, FileHandlingMessages)], worker: usize) -> Vec<&FileHandlingMessages> {
    dispatched.iter().filter(|(w, _)| *w == worker).map(|(_, m)| m).collect()
}

#[test]
fn run_aggregation_returns_when_all_of_the_file_handlers_have_sent_their_aggs() {
    let num_file_handlers = 10;
    let mut reports = Vec::new();
    for _ in 0..num_file_handlers {
        reports.push(AggregationMessages::Aggregate(0, ELBRecordAggregation::new()));
    }
    let mut agg_ctrl = AggregationController::new(num_file_handlers, Vec::new());
    agg_ctrl.run_aggregation(reports);
    assert!(agg_ctrl.is_finished());
    let file_agg = agg_ctrl.into_result();

    assert_eq!(file_agg.num_raw_records, 0);
    assert_eq!(file_agg.aggregation.len(), 0);
}

#[test]
fn run_aggregation_sends_done_msg_to_the_correct_file_handler_when_there_are_no_filenames() {
    let num_file_handlers = 10;
    let file_handler_of_interest = 3;
    let files = Vec::new();
    let mut reports = vec![AggregationMessages::Next(file_handler_of_interest)];
    for _ in 0..num_file_handlers {
        reports.push(AggregationMessages::Aggregate(TEST_LOG_FILE_AGGS, ELBRecordAggregation::new()));
    }
    let mut agg_ctrl = AggregationController::new(num_file_handlers, files);
    let dispatched = agg_ctrl.run_aggregation(reports);
    let received = received_by(&dispatched, file_handler_of_interest);

    assert_eq!(*received[0], FileHandlingMessages::Done);
}

#[test]
fn run_aggregation_sends_done_msg_to_the_correct_file_handler_after_filenames_are_gone() {
    let num_file_handlers = 10;
    let file_handler_of_interest = 3;
    let num_files = 5;
    let test_file_path_buf = PathBuf::from(TEST_LOG_FILE);
    let mut files = Vec::new();
    for _ in 0..num_files {
        files.push(test_file_path_buf.clone())
    }
    let mut reports = Vec::new();
    for _ in 0..num_files + 1 {
        reports.push(AggregationMessages::Next(file_handler_of_interest));
    }
    for _ in 0..num_file_handlers {
        reports.push(AggregationMessages::Aggregate(TEST_LOG_FILE_AGGS, ELBRecordAggregation::new()));
    }
    let mut agg_ctrl = AggregationController::new(num_file_handlers, files);
    let dispatched = agg_ctrl.run_aggregation(reports);
    let received = received_by(&dispatched, file_handler_of_interest);
    for idx in 0..num_files {
        assert_eq!(*received[idx], FileHandlingMessages::Filename(test_file_path_buf.clone()));
    }
    let expected_done_msg = received[num_files];

    assert_eq!(*expected_done_msg, FileHandlingMessages::Done);
}

#[test]
fn run_aggregation_sends_a_filename_to_the_correct_file_handler_when_there_is_a_filename() {
    let num_file_handlers = 10;
    let file_handler_of_interest = 3;
    let test_file_path_buf = PathBuf::from(TEST_LOG_FILE);
    let files = vec![test_file_path_buf.clone()];
    let mut reports = vec![AggregationMessages::Next(file_handler_of_interest)];
    for _ in 0..num_file_handlers {
        reports.push(AggregationMessages::Aggregate(TEST_LOG_FILE_AGGS, ELBRecordAggregation::new()));
    }
    let mut agg_ctrl = AggregationController::new(num_file_handlers, files);
    let dispatched = agg_ctrl.run_aggregation(reports);
    let received = received_by(&dispatched, file_handler_of_interest);

    assert_eq!(*received[0], FileHandlingMessages::Filename(test_file_path_buf));
}

fn key(system: &str) -> AggregateELBRecord {
    AggregateELBRecord::new(Day { year: 2015, month: 8, day: 15 }, 0xac10_0106, system.to_string())
}

fn agg_of(systems: &[&str]) -> ELBRecordAggregation {
    let mut agg = ELBRecordAggregation::new();
    for s in systems {
        agg.add(key(s));
    }
    agg
}

#[test]
fn no_files_leaves_an_empty_aggregate_and_no_records() {
    let num_workers = 4;
    let mut reports = Vec::new();
    for w in 0..num_workers {
        reports.push(AggregationMessages::Next(w));
    }
    for _ in 0..num_workers {
        reports.push(AggregationMessages::Aggregate(0, ELBRecordAggregation::new()));
    }
    let mut ctrl = AggregationController::new(num_workers, Vec::new());
    let dispatched = ctrl.run_aggregation(reports);
    assert_eq!(dispatched.len(), num_workers);
    assert!(dispatched.iter().all(|(_, m)| *m == FileHandlingMessages::Done));
    let result = ctrl.into_result();
    assert_eq!(result.num_raw_records, 0);
    assert!(result.aggregation.is_empty());
}

#[test]
fn fewer_files_than_workers_sends_done_to_the_rest_and_still_terminates() {
    let num_workers = 5;
    let files = vec![PathBuf::from("a.log"), PathBuf::from("b.log")];
    let mut ctrl = AggregationController::new(num_workers, files);
    let mut reports = Vec::new();
    for w in 0..num_workers {
        reports.push(AggregationMessages::Next(w));
    }
    reports.push(AggregationMessages::Next(0));
    reports.push(AggregationMessages::Next(1));
    reports.push(AggregationMessages::Aggregate(3, agg_of(&["sys1", "sys1"])));
    reports.push(AggregationMessages::Aggregate(2, agg_of(&["sys2"])));
    for _ in 2..num_workers {
        reports.push(AggregationMessages::Aggregate(0, ELBRecordAggregation::new()));
    }
    let dispatched = ctrl.run_aggregation(reports);
    assert!(ctrl.is_finished());
    assert_eq!(dispatched[0], (0, FileHandlingMessages::Filename(PathBuf::from("b.log"))));
    assert_eq!(dispatched[1], (1, FileHandlingMessages::Filename(PathBuf::from("a.log"))));
    for w in 2..num_workers {
        assert_eq!(dispatched[w], (w, FileHandlingMessages::Done));
    }
    assert_eq!(dispatched[5], (0, FileHandlingMessages::Done));
    assert_eq!(dispatched[6], (1, FileHandlingMessages::Done));
    let result = ctrl.into_result();
    assert_eq!(result.num_raw_records, 5);
    assert_eq!(result.aggregation.len(), 2);
    assert_eq!(result.aggregation.get(&key("sys1")), Some(2));
    assert_eq!(result.aggregation.get(&key("sys2")), Some(1));
}

#[test]
fn handle_report_merges_finals_and_reports_the_last_one() {
    let mut ctrl = AggregationController::new(2, Vec::new());
    match ctrl.handle_report(AggregationMessages::Aggregate(4, agg_of(&["a", "b"]))) {
        ControllerAction::Merged => {}
        _ => panic!("expected a merge"),
    }
    match ctrl.handle_report(AggregationMessages::Aggregate(6, agg_of(&["a"]))) {
        ControllerAction::Finished => {}
        _ => panic!("expected the end"),
    }
    let result = ctrl.into_result();
    assert_eq!(result.num_raw_records, 10);
    assert_eq!(result.aggregation.get(&key("a")), Some(2));
    assert_eq!(result.aggregation.get(&key("b")), Some(1));
}

#[test]
fn can_accept_refuses_unknown_workers_and_overflowing_counts() {
    let ctrl = AggregationController::new(2, Vec::new());
    assert!(ctrl.can_accept(&AggregationMessages::Next(1)));
    assert!(!ctrl.can_accept(&AggregationMessages::Next(2)));
    assert!(ctrl.can_accept(&AggregationMessages::Aggregate(usize::MAX, ELBRecordAggregation::new())));

    let mut ctrl = AggregationController::new(2, Vec::new());
    let mut big = ELBRecordAggregation::new();
    big.add_count(key("a"), i64::MAX);
    ctrl.handle_report(AggregationMessages::Aggregate(1, big));
    assert!(!ctrl.can_accept(&AggregationMessages::Aggregate(0, agg_of(&["a"]))));
    assert!(ctrl.can_accept(&AggregationMessages::Aggregate(0, agg_of(&["b"]))));
    assert!(!ctrl.can_accept(&AggregationMessages::Aggregate(usize::MAX, ELBRecordAggregation::new())));
}
