use replay_diff::http_client::HttpRequest;
use replay_diff::replay_log_reader::ReplayLog;
use replay_diff::request_service::{FeedStep, RequestService, RequestServiceConf, StatInfo};
use replay_diff::service_error::ServiceError;
use replay_diff::worker::{EntryReport, HandleOutcome, Worker, WorkerStep};
use std::time::Duration;

fn conf(method: &str, queue_size: usize, workers: i32) -> RequestServiceConf {
    let mut conf = RequestServiceConf::new();
    conf.old_url = "http://old.example/api".to_string();
    conf.new_url = "http://new.example/api".to_string();
    conf.request_method = method.to_string();
    conf.queue_size = queue_size;
    conf.concurrent_num = workers;
    conf
}

fn entry(text: &str) -> ReplayLog {
    ReplayLog { data: text.to_string() }
}

/// Answers `a=1` alike on both targets and `a=2` differently; anything with
/// `down` in it fails in transport.
fn answer(request: &HttpRequest) -> Result<String, ServiceError> {
    if request.url.contains("down") || request.body.contains("down") {
        return Err(ServiceError::Transport("Couldn't connect to server".to_string()));
    }
    match request.url.as_str() {
        "http://old.example/api?a=1" | "http://new.example/api?a=1" => Ok("one".to_string()),
        "http://old.example/api?a=2" => Ok("two".to_string()),
        "http://new.example/api?a=2" => Ok("TWO".to_string()),
        "http://old.example/api" | "http://new.example/api" => Ok(request.body.clone()),
        _ => Ok("other".to_string()),
    }
}

/// Runs a worker until its queue is closed and drained. Returns its reports
/// and every request that it asked for.
fn drive(worker: &Worker, stat: &mut StatInfo) -> (Vec<EntryReport>, Vec<HttpRequest>) {
    let mut reports = Vec::new();
    let mut calls = Vec::new();
    loop {
        let mut step = worker.receive();
        loop {
            match step {
                WorkerStep::Stop => return (reports, calls),
                WorkerStep::Report(report) => {
                    stat.record(&report.outcome);
                    reports.push(report);
                    break;
                }
                WorkerStep::Call(request, pending) => {
                    let reply = answer(&request);
                    calls.push(request);
                    step = worker.on_reply(pending, reply);
                }
            }
        }
    }
}

#[test]
fn end_to_end_get_reports_one_diff_and_no_failure() {
    let service = RequestService::new(conf("GET", 10, 1)).unwrap();
    let workers = service.workers();
    let lines = vec!["a=1".to_string(), "a=2".to_string()];
    assert_eq!(service.feed_lines(&lines).unwrap(), FeedStep::ReadMore);
    assert_eq!(service.feed_lines(&Vec::new()).unwrap(), FeedStep::Finished);
    drop(service);
    let mut stat = StatInfo::new();
    let (reports, calls) = drive(&workers[0], &mut stat);
    assert_eq!(stat.succ_cnt(), 2);
    assert_eq!(stat.fail_cnt(), 0);
    assert_eq!(reports.len(), 2);
    assert_eq!(reports[0].log.data, "a=1");
    assert!(matches!(reports[0].outcome, HandleOutcome::Same));
    assert_eq!(reports[1].log.data, "a=2");
    let diffs: Vec<&EntryReport> =
        reports.iter().filter(|report| matches!(report.outcome, HandleOutcome::Diff(_))).collect();
    assert_eq!(diffs.len(), 1);
    assert_eq!(diffs[0].log.data, "a=2");
    match &diffs[0].outcome {
        HandleOutcome::Diff(record) => {
            assert_eq!(record.old_url, "http://old.example/api");
            assert_eq!(record.new_url, "http://new.example/api");
            assert_eq!(record.old_body, "two");
            assert_eq!(record.new_body, "TWO");
        }
        other => panic!("unexpected outcome {:?}", other),
    }
    let targets: Vec<&str> = calls.iter().map(|request| request.url.as_str()).collect();
    assert_eq!(
        targets,
        vec![
            "http://old.example/api?a=1",
            "http://new.example/api?a=1",
            "http://old.example/api?a=2",
            "http://new.example/api?a=2",
        ]
    );
}

#[test]
fn end_to_end_post_sends_each_payload_to_both_targets() {
    let service = RequestService::new(conf("POST", 10, 1)).unwrap();
    let workers = service.workers();
    let lines = vec!["{\"a\":1}\n".to_string(), "{\"a\":2}\n".to_string()];
    assert_eq!(service.feed_lines(&lines).unwrap(), FeedStep::ReadMore);
    drop(service);
    let mut stat = StatInfo::new();
    let (reports, calls) = drive(&workers[0], &mut stat);
    assert_eq!((stat.succ_cnt(), stat.fail_cnt()), (2, 0));
    assert!(reports.iter().all(|report| matches!(report.outcome, HandleOutcome::Same)));
    let sent: Vec<(&str, &str)> =
        calls.iter().map(|request| (request.url.as_str(), request.body.as_str())).collect();
    assert_eq!(
        sent,
        vec![
            ("http://old.example/api", "{\"a\":1}"),
            ("http://new.example/api", "{\"a\":1}"),
            ("http://old.example/api", "{\"a\":2}"),
            ("http://new.example/api", "{\"a\":2}"),
        ]
    );
    assert!(calls.iter().all(|request| request.content_type.as_deref() == Some("application/json")));
}

#[test]
fn unsupported_method_fails_every_entry_and_makes_no_call() {
    let service = RequestService::new(conf("PATCH", 10, 1)).unwrap();
    let workers = service.workers();
    assert!(service.send_to_channel(vec![entry("a=1"), entry("a=2"), entry("a=3")]).is_ok());
    drop(service);
    let mut stat = StatInfo::new();
    let (reports, calls) = drive(&workers[0], &mut stat);
    assert!(calls.is_empty());
    assert_eq!((stat.succ_cnt(), stat.fail_cnt()), (0, 3));
    assert_eq!(reports.len(), 3);
    for report in &reports {
        match &report.outcome {
            HandleOutcome::Failed(ServiceError::UnsupportedMethod(text)) => {
                assert_eq!(text, "PATCH")
            }
            other => panic!("unexpected outcome {:?}", other),
        }
    }
}

#[test]
fn a_failed_entry_does_not_stop_the_worker() {
    let service = RequestService::new(conf("GET", 10, 1)).unwrap();
    let workers = service.workers();
    assert!(service
        .send_to_channel(vec![entry("a=1"), entry("down=1"), entry("a=2"), entry("a=1")])
        .is_ok());
    drop(service);
    let mut stat = StatInfo::new();
    let (reports, calls) = drive(&workers[0], &mut stat);
    assert_eq!((stat.succ_cnt(), stat.fail_cnt()), (3, 1));
    assert_eq!(stat.succ_cnt() + stat.fail_cnt(), 4);
    let logs: Vec<&str> = reports.iter().map(|report| report.log.data.as_str()).collect();
    assert_eq!(logs, vec!["a=1", "down=1", "a=2", "a=1"]);
    assert!(matches!(reports[1].outcome, HandleOutcome::Failed(ServiceError::Transport(_))));
    assert_eq!(calls.len(), 7);
    assert_eq!(calls[2].url, "http://old.example/api?down=1");
    assert_eq!(calls[3].url, "http://old.example/api?a=2");
}

#[test]
fn a_worker_without_entries_stops_with_nothing_counted() {
    let service = RequestService::new(conf("GET", 1, 1)).unwrap();
    let workers = service.workers();
    drop(service);
    let mut stat = StatInfo::new();
    let (reports, calls) = drive(&workers[0], &mut stat);
    assert!(reports.is_empty());
    assert!(calls.is_empty());
    assert_eq!((stat.succ_cnt(), stat.fail_cnt()), (0, 0));
}

#[test]
fn full_queue_blocks_the_feeder_until_the_worker_takes_entries() {
    let service = RequestService::new(conf("GET", 1, 1)).unwrap();
    let workers = service.workers();
    let (done, is_done) = crossbeam::channel::bounded::<bool>(1);
    let mut stat = StatInfo::new();
    let reports = crossbeam::scope(|scope| {
        scope.spawn(|_| {
            let sent = service.send_to_channel(vec![entry("a=1"), entry("a=2"), entry("a=1")]);
            done.send(sent.is_ok()).unwrap();
            drop(service);
        });
        // The worker is busy elsewhere: the queue holds one entry and the
        // feeder cannot finish.
        assert!(is_done.recv_timeout(Duration::from_millis(300)).is_err());
        let (reports, _) = drive(&workers[0], &mut stat);
        assert_eq!(is_done.recv_timeout(Duration::from_secs(5)), Ok(true));
        reports
    })
    .unwrap();
    let logs: Vec<&str> = reports.iter().map(|report| report.log.data.as_str()).collect();
    assert_eq!(logs, vec!["a=1", "a=2", "a=1"]);
    assert_eq!((stat.succ_cnt(), stat.fail_cnt()), (3, 0));
}

#[test]
fn several_workers_count_every_entry_once() {
    let service = RequestService::new(conf("GET", 2, 3)).unwrap();
    let workers = service.workers();
    let entries: Vec<ReplayLog> =
        (0..60).map(|n| entry(if n % 4 == 0 { "down=1" } else { "a=2" })).collect();
    let stat = std::sync::Mutex::new(StatInfo::new());
    let reported = crossbeam::scope(|scope| {
        let handles: Vec<_> = workers
            .iter()
            .map(|worker| {
                let stat = &stat;
                scope.spawn(move |_| {
                    let mut own = StatInfo::new();
                    let (reports, _) = drive(worker, &mut own);
                    for report in &reports {
                        stat.lock().unwrap().record(&report.outcome);
                    }
                    reports.len()
                })
            })
            .collect();
        assert!(service.send_to_channel(entries).is_ok());
        drop(service);
        handles.into_iter().map(|handle| handle.join().unwrap()).sum::<usize>()
    })
    .unwrap();
    let stat = stat.into_inner().unwrap();
    assert_eq!(reported, 60);
    assert_eq!(stat.succ_cnt(), 45);
    assert_eq!(stat.fail_cnt(), 15);
    assert_eq!(stat.succ_cnt() + stat.fail_cnt(), 60);
}

#[test]
fn queue_of_size_zero_hands_each_entry_straight_to_a_worker() {
    let service = RequestService::new(conf("GET", 0, 1)).unwrap();
    let workers = service.workers();
    let mut stat = StatInfo::new();
    let reports = crossbeam::scope(|scope| {
        scope.spawn(|_| {
            assert!(service.send_to_channel(vec![entry("a=2"), entry("a=1")]).is_ok());
            drop(service);
        });
        drive(&workers[0], &mut stat).0
    })
    .unwrap();
    let logs: Vec<&str> = reports.iter().map(|report| report.log.data.as_str()).collect();
    assert_eq!(logs, vec!["a=2", "a=1"]);
    assert!(matches!(reports[0].outcome, HandleOutcome::Diff(_)));
    assert!(matches!(reports[1].outcome, HandleOutcome::Same));
    assert_eq!((stat.succ_cnt(), stat.fail_cnt()), (2, 0));
}

#[test]
fn batches_are_fed_in_the_order_read() {
    let service = RequestService::new(conf("GET", 10, 1)).unwrap();
    let workers = service.workers();
    let first = vec!["a=1\n".to_string(), "\n".to_string(), "a=2\n".to_string()];
    let blank = vec!["\n".to_string(), " \n".to_string()];
    let last = vec!["a=3".to_string()];
    assert_eq!(service.feed_lines(&first).unwrap(), FeedStep::ReadMore);
    assert_eq!(service.feed_lines(&blank).unwrap(), FeedStep::ReadMore);
    assert_eq!(service.feed_lines(&last).unwrap(), FeedStep::ReadMore);
    assert_eq!(service.feed_lines(&Vec::new()).unwrap(), FeedStep::Finished);
    drop(service);
    let mut stat = StatInfo::new();
    let (reports, _) = drive(&workers[0], &mut stat);
    let logs: Vec<&str> = reports.iter().map(|report| report.log.data.as_str()).collect();
    assert_eq!(logs, vec!["a=1", "a=2", "a=3"]);
    assert_eq!(stat.succ_cnt() + stat.fail_cnt(), 3);
}
