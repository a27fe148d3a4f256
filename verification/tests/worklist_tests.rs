use pour::{ConfigIssue, RunConfiguration, RunError, WorkList};

fn two_targets() -> RunConfiguration {
    let lines = vec!["http://a.example/".to_string(), "http://b.example/".to_string()];
    RunConfiguration::build(3, false, 1000, None, Some(lines)).unwrap()
}

#[test]
fn work_list_has_m_times_n_entries() {
    let cfg = two_targets();
    let w = WorkList::build(&cfg.targets, cfg.repetitions).unwrap();
    assert_eq!(w.len(), 6);
}

#[test]
fn work_list_is_in_repeated_pass_order() {
    let cfg = two_targets();
    let w = WorkList::build(&cfg.targets, cfg.repetitions).unwrap();
    let expect = [
        "http://a.example/",
        "http://b.example/",
        "http://a.example/",
        "http://b.example/",
        "http://a.example/",
        "http://b.example/",
    ];
    for i in 0..w.len() {
        assert_eq!(w.get(i).target.as_str(), expect[i]);
    }
}

#[test]
fn zero_repetitions_rejected_by_builder() {
    let cfg = two_targets();
    match WorkList::build(&cfg.targets, 0) {
        Err(RunError::Configuration { issue }) => assert_eq!(issue, ConfigIssue::ZeroRepetitions),
        _ => panic!("expected a zero-repetitions configuration error"),
    }
}

#[test]
fn single_target_single_pass() {
    let cfg = RunConfiguration::build(1, false, 1000, Some("http://example.com".to_string()), None)
        .unwrap();
    let w = WorkList::build(&cfg.targets, cfg.repetitions).unwrap();
    assert_eq!(w.len(), 1);
    assert_eq!(w.get(0).target.as_str(), "http://example.com");
}

#[test]
fn request_method_is_get() {
    let cfg = two_targets();
    let w = WorkList::build(&cfg.targets, cfg.repetitions).unwrap();
    assert_eq!(w.get(0).method_name(), "GET");
}
