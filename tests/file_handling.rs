use std::path::PathBuf;

use counter::aggregation_control::AggregationController;
use counter::file_handling::{
    is_log_extension, is_log_file, AggregationMessages, FileAggregator, FileHandlingMessages, WorkerAction, WorkerEvent,
    WorkerPhase,
};
use counter::record_handling::{AggregateELBRecord, Day};

fn record(system: &str) -> String {
    format!(
        "2015-08-15T23:43:05.302180Z elb 172.16.1.6:54814 172.16.1.5:9000 0.000039 0.145507 \
         0.00003 200 200 0 7582 \"GET http://h/?system={} HTTP/1.1\"",
        system
    )
}

fn key(system: &str) -> AggregateELBRecord {
    AggregateELBRecord::new(Day { year: 2015, month: 8, day: 15 }, 0xac10_0106, system.to_string())
}

fn lines(ls: &[Option<&str>]) -> Vec<Option<String>> {
    ls.iter().map(|l| l.map(|s| s.to_string())).collect()
}

#[test]
fn sends_the_final_agg_after_receiving_the_done_message() {
    let mut file_aggregator = FileAggregator::new(1);
    // The Next message sent at startup.
    let _ = file_aggregator.step(WorkerEvent::Started);

    match file_aggregator.step(WorkerEvent::Received(FileHandlingMessages::Done)) {
        WorkerAction::Report(AggregationMessages::Aggregate(size, agg)) => {
            assert_eq!(size, 0);
            assert_eq!(agg.len(), 0);
        }
        _ => panic!("Received an unexpected Next message."),
    }
}

#[test]
fn sends_a_next_message_after_starting_up() {
    let mut file_aggregator = FileAggregator::new(1);

    match file_aggregator.step(WorkerEvent::Started) {
        WorkerAction::Report(AggregationMessages::Next(id)) => assert_eq!(id, 1),
        _ => panic!("Received an unexpected Aggregate message."),
    }
}

#[test]
fn read_records_counts_every_attempted_line() {
    let mut worker = FileAggregator::new(0);
    let r1 = record("sys1");
    let file = lines(&[Some("garbage"), Some(&r1), None, Some(""), Some(&r1)]);
    let report = worker.read_records(&file);
    assert_eq!(worker.num_raw_records(), 5);
    assert_eq!(report.bad_line_nums, vec![2]);
    assert_eq!(report.malformed_line_nums, vec![0, 3]);
    assert_eq!(worker.aggregation().len(), 1);
    assert_eq!(worker.aggregation().get(&key("sys1")), Some(2));
}

#[test]
fn one_malformed_line_then_one_good_line() {
    let mut worker = FileAggregator::new(0);
    let file = lines(&[Some("this is not a record"), Some(&record("sys1"))]);
    let report = worker.read_records(&file);
    assert_eq!(worker.aggregation().len(), 1);
    assert_eq!(worker.aggregation().get(&key("sys1")), Some(1));
    assert_eq!(worker.num_raw_records(), 2);
    assert_eq!(report.malformed_line_nums, vec![0]);
    assert_eq!(file[report.malformed_line_nums[0]].as_deref(), Some("this is not a record"));
}

#[test]
fn a_file_of_blank_or_unparseable_lines_adds_only_to_the_line_count() {
    let mut worker = FileAggregator::new(0);
    let report = worker.read_records(&lines(&[Some(""), Some("x y z"), Some("")]));
    assert_eq!(worker.num_raw_records(), 3);
    assert!(worker.aggregation().is_empty());
    assert_eq!(report.malformed_line_nums, vec![0, 1, 2]);
    assert!(report.bad_line_nums.is_empty());
}

#[test]
fn a_worker_sends_two_more_messages_than_files() {
    let mut worker = FileAggregator::new(7);
    let mut sent = 0;
    if let WorkerAction::Report(_) = worker.step(WorkerEvent::Started) {
        sent += 1;
    }
    for name in ["a.log", "b.log", "c.log"] {
        match worker.step(WorkerEvent::Received(FileHandlingMessages::Filename(PathBuf::from(name)))) {
            WorkerAction::Process(p) => assert_eq!(p, PathBuf::from(name)),
            _ => panic!("expected a file to process"),
        }
        worker.read_records(&lines(&[Some(&record("s"))]));
        match worker.step(WorkerEvent::FileFinished) {
            WorkerAction::Report(AggregationMessages::Next(7)) => sent += 1,
            _ => panic!("expected a Next message"),
        }
    }
    match worker.step(WorkerEvent::Received(FileHandlingMessages::Done)) {
        WorkerAction::Report(AggregationMessages::Aggregate(3, agg)) => {
            sent += 1;
            assert_eq!(agg.get(&key("s")), Some(3));
        }
        _ => panic!("expected the final aggregate"),
    }
    assert_eq!(sent, 3 + 2);
    assert!(worker.finished_reports());
    assert_eq!(worker.phase(), WorkerPhase::Finished);
}

#[test]
fn out_of_order_events_are_ignored() {
    let mut worker = FileAggregator::new(0);
    assert!(matches!(worker.step(WorkerEvent::FileFinished), WorkerAction::Wait));
    assert!(matches!(worker.step(WorkerEvent::Received(FileHandlingMessages::Done)), WorkerAction::Wait));
    assert_eq!(worker.phase(), WorkerPhase::Starting);
    assert!(matches!(worker.step(WorkerEvent::Started), WorkerAction::Report(AggregationMessages::Next(0))));
    assert!(matches!(worker.step(WorkerEvent::Started), WorkerAction::Wait));
    assert_eq!(worker.phase(), WorkerPhase::Idle);
}

#[test]
fn log_extension_is_exact_and_case_sensitive() {
    assert!(is_log_extension(Some("log")));
    assert!(!is_log_extension(Some("LOG")));
    assert!(!is_log_extension(Some("logs")));
    assert!(!is_log_extension(Some("txt")));
    assert!(!is_log_extension(None));
}

/// Runs the whole exchange with the given number of workers, one thread at a time.
fn run_pipeline(files: &[Vec<Option<String>>], num_workers: usize) -> Vec<(String, i64)> {
    let names: Vec<PathBuf> = (0..files.len()).map(|i| PathBuf::from(format!("{}.log", i))).collect();
    let mut ctrl = AggregationController::new(num_workers, names);
    let mut workers: Vec<FileAggregator> = (0..num_workers).map(FileAggregator::new).collect();
    let mut pending: Vec<AggregationMessages> = Vec::new();
    for w in workers.iter_mut() {
        if let WorkerAction::Report(m) = w.step(WorkerEvent::Started) {
            pending.push(m);
        }
    }
    while !ctrl.is_finished() {
        let msg = pending.remove(0);
        if let counter::aggregation_control::ControllerAction::Send(i, work) = ctrl.handle_report(msg) {
            match workers[i].step(WorkerEvent::Received(work)) {
                WorkerAction::Process(p) => {
                    let idx: usize = p.file_stem().unwrap().to_str().unwrap().parse().unwrap();
                    workers[i].read_records(&files[idx]);
                    if let WorkerAction::Report(m) = workers[i].step(WorkerEvent::FileFinished) {
                        pending.push(m);
                    }
                }
                WorkerAction::Report(m) => pending.push(m),
                WorkerAction::Wait => {}
            }
        }
    }
    let result = ctrl.into_result();
    let mut v: Vec<(String, i64)> =
        result.aggregation.entries().iter().map(|(k, c)| (k.system_name.clone(), *c)).collect();
    v.sort();
    v.push(("lines".to_string(), result.num_raw_records as i64));
    v
}

#[test]
fn one_worker_and_many_workers_give_the_same_aggregate() {
    let files: Vec<Vec<Option<String>>> = vec![
        lines(&[Some(&record("a")), Some(&record("b")), Some("bad")]),
        lines(&[Some(&record("a"))]),
        lines(&[None, Some(&record("c")), Some(&record("a"))]),
        lines(&[]),
    ];
    let one = run_pipeline(&files, 1);
    let three = run_pipeline(&files, 3);
    let six = run_pipeline(&files, 6);
    assert_eq!(one, three);
    assert_eq!(one, six);
    assert_eq!(
        one,
        vec![
            ("a".to_string(), 3),
            ("b".to_string(), 1),
            ("c".to_string(), 1),
            ("lines".to_string(), 7)
        ]
    );
}

#[test]
fn only_regular_files_with_the_log_extension_are_log_files() {
    assert!(is_log_file(true, Some("log")));
    assert!(!is_log_file(false, Some("log")));
    assert!(!is_log_file(true, Some("gz")));
    assert!(!is_log_file(true, None));
}
