use replay_diff::request_service::RequestServiceConf;
use replay_diff::result_diff::ResultDiff;

fn conf() -> RequestServiceConf {
    let mut conf = RequestServiceConf::new();
    conf.old_url = "http://old.example/api".to_string();
    conf.new_url = "http://new.example/api".to_string();
    conf
}

#[test]
fn diff_of_a_body_with_itself_is_false() {
    for body in ["", "x", "{\"a\":1}", "line\nline", "caf\u{e9}"] {
        assert!(!ResultDiff::diff(body.to_string(), body.to_string()));
    }
}

#[test]
fn diff_of_bodies_that_differ_is_true() {
    assert!(ResultDiff::diff("x".to_string(), "y".to_string()));
    assert!(ResultDiff::diff("".to_string(), " ".to_string()));
    assert!(ResultDiff::diff("abc".to_string(), "abd".to_string()));
}

#[test]
fn diff_does_not_normalise() {
    assert!(ResultDiff::diff("{\"a\":1,\"b\":2}".to_string(), "{\"b\":2,\"a\":1}".to_string()));
    assert!(ResultDiff::diff("{\"a\": 1}".to_string(), "{\"a\":1}".to_string()));
    assert!(ResultDiff::diff("A".to_string(), "a".to_string()));
    assert!(ResultDiff::diff("x\n".to_string(), "x".to_string()));
    assert!(ResultDiff::diff("e\u{301}".to_string(), "\u{e9}".to_string()));
}

#[test]
fn record_is_absent_for_equal_bodies() {
    assert!(ResultDiff::record(&conf(), "same".to_string(), "same".to_string()).is_none());
}

#[test]
fn record_holds_both_targets_and_both_bodies() {
    let record = ResultDiff::record(&conf(), "old body".to_string(), "new body".to_string()).unwrap();
    assert_eq!(record.old_url, "http://old.example/api");
    assert_eq!(record.new_url, "http://new.example/api");
    assert_eq!(record.old_body, "old body");
    assert_eq!(record.new_body, "new body");
}
