use replay_diff::request_service::StatInfo;
use replay_diff::result_diff::DiffRecord;
use replay_diff::service_error::ServiceError;
use replay_diff::worker::HandleOutcome;

fn a_diff() -> HandleOutcome {
    HandleOutcome::Diff(DiffRecord {
        old_url: "http://old.example/api".to_string(),
        new_url: "http://new.example/api".to_string(),
        old_body: "1".to_string(),
        new_body: "2".to_string(),
    })
}

#[test]
fn new_stat_info_starts_at_zero() {
    let stat = StatInfo::new();
    assert_eq!(stat.succ_cnt(), 0);
    assert_eq!(stat.fail_cnt(), 0);
}

#[test]
fn timestamps_are_taken_at_construction_and_stay() {
    let before = std::time::SystemTime::now();
    let mut stat = StatInfo::new();
    let after = std::time::SystemTime::now();
    assert!(before <= stat.start_ts() && stat.start_ts() <= after);
    assert!(stat.start_ts() <= stat.end_ts() && stat.end_ts() <= after);
    let (start, end) = (stat.start_ts(), stat.end_ts());
    stat.incr_succ();
    stat.incr_fail();
    stat.record(&HandleOutcome::Same);
    assert_eq!(stat.start_ts(), start);
    assert_eq!(stat.end_ts(), end);
}

#[test]
fn incr_succ_adds_one_to_the_success_counter_only() {
    let mut stat = StatInfo::new();
    stat.incr_succ();
    assert_eq!((stat.succ_cnt(), stat.fail_cnt()), (1, 0));
    stat.incr_succ();
    assert_eq!((stat.succ_cnt(), stat.fail_cnt()), (2, 0));
}

#[test]
fn incr_fail_adds_one_to_the_failure_counter_only() {
    let mut stat = StatInfo::new();
    stat.incr_fail();
    assert_eq!((stat.succ_cnt(), stat.fail_cnt()), (0, 1));
    stat.incr_fail();
    assert_eq!((stat.succ_cnt(), stat.fail_cnt()), (0, 2));
}

#[test]
fn record_counts_a_diff_as_replayed() {
    let mut stat = StatInfo::new();
    stat.record(&a_diff());
    assert_eq!((stat.succ_cnt(), stat.fail_cnt()), (1, 0));
    stat.record(&HandleOutcome::Same);
    assert_eq!((stat.succ_cnt(), stat.fail_cnt()), (2, 0));
}

#[test]
fn record_counts_every_error_as_failed() {
    let mut stat = StatInfo::new();
    stat.record(&HandleOutcome::Failed(ServiceError::Transport("Timeout was reached".to_string())));
    assert_eq!((stat.succ_cnt(), stat.fail_cnt()), (0, 1));
    stat.record(&HandleOutcome::Failed(ServiceError::UnsupportedMethod("PUT".to_string())));
    assert_eq!((stat.succ_cnt(), stat.fail_cnt()), (0, 2));
}

#[test]
fn counters_add_up_to_the_number_of_entries_counted() {
    let mut stat = StatInfo::new();
    let mut counted = 0;
    for round in 0..250 {
        let outcome = match round % 3 {
            0 => HandleOutcome::Same,
            1 => a_diff(),
            _ => HandleOutcome::Failed(ServiceError::Transport("refused".to_string())),
        };
        stat.record(&outcome);
        counted += 1;
        assert_eq!(stat.succ_cnt() + stat.fail_cnt(), counted);
    }
    assert_eq!(stat.succ_cnt(), 167);
    assert_eq!(stat.fail_cnt(), 83);
}
