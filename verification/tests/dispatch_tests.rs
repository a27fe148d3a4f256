use pour::{
    BarrierEvent, Dispatcher, ExecutionOutcome, Mode, RunConfiguration, RunError, WaitStep,
    report_lines,
};

#[test]
fn scenario_sequential_three_in_order() {
    let cfg = RunConfiguration::build(3, false, 1000, Some("http://example.com".to_string()), None)
        .unwrap();
    let mut d = Dispatcher::new(&cfg);
    assert_eq!(d.mode(), Mode::Sequential);
    assert_eq!(d.total(), 3);
    let mut lines: Vec<String> = Vec::new();
    let mut executed: Vec<String> = Vec::new();
    while let Some(spec) = d.next_request() {
        executed.push(spec.target.to_url_string());
        let outcome = ExecutionOutcome::completed(spec.target, 0, 5, 200);
        for line in report_lines(&outcome) {
            lines.push(line);
        }
        assert!(d.record_outcome(outcome).is_ok());
    }
    assert_eq!(
        executed,
        vec!["http://example.com", "http://example.com", "http://example.com"]
    );
    assert_eq!(lines.len(), 3);
    assert_eq!(lines[0], "0.005s, 200, http://example.com");
}

#[test]
fn sequential_stops_on_first_failure() {
    let cfg = RunConfiguration::build(4, false, 1000, Some("http://example.com".to_string()), None)
        .unwrap();
    let mut d = Dispatcher::new(&cfg);
    let first = d.next_request().unwrap();
    let ok = ExecutionOutcome::completed(first.target, 0, 1, 200);
    assert!(d.record_outcome(ok).is_ok());
    let second = d.next_request().unwrap();
    let failed = ExecutionOutcome::failed(second.target, 0, 2, "connection refused".to_string());
    match d.record_outcome(failed) {
        Err(RunError::Execution { url, reason }) => {
            assert_eq!(url, "http://example.com");
            assert_eq!(reason, "connection refused");
        }
        _ => panic!("expected the run to halt with an execution error"),
    }
    assert!(d.next_request().is_none());
}

#[test]
fn scenario_concurrent_two_by_two() {
    let lines = vec!["http://a.example/".to_string(), "http://b.example/".to_string()];
    let cfg = RunConfiguration::build(2, true, 1000, None, Some(lines)).unwrap();
    let mut d = Dispatcher::new(&cfg);
    assert_eq!(d.mode(), Mode::Concurrent);
    assert_eq!(d.total(), 4);
    let mut spawned: Vec<String> = Vec::new();
    while let Some(spec) = d.next_request() {
        spawned.push(spec.target.to_url_string());
    }
    assert_eq!(spawned.len(), 4);
    let mut report: Vec<String> = Vec::new();
    let mut t = d.make_tracker();
    let mut released = false;
    for url in &spawned {
        let target = pour::Target::parse(url).unwrap();
        let outcome = ExecutionOutcome::completed(target, 0, 10, 200);
        for line in report_lines(&outcome) {
            report.push(line);
        }
        match t.consume(BarrierEvent::Signal) {
            WaitStep::Complete => released = true,
            WaitStep::Pending => assert!(!released),
            WaitStep::Lost => panic!("no completion may be lost here"),
        }
    }
    assert!(released);
    assert!(t.is_complete());
    assert_eq!(report.len(), 4);
}

#[test]
fn scenario_zero_repetitions_schedules_nothing() {
    let r = RunConfiguration::build(0, false, 1000, Some("http://example.com".to_string()), None);
    assert!(matches!(
        r,
        Err(RunError::Configuration { issue: pour::ConfigIssue::ZeroRepetitions })
    ));
    // No configuration, hence no dispatcher, no request and no report line.
}

#[test]
fn scenario_concurrent_one_failure_still_releases() {
    let cfg = RunConfiguration::build(5, true, 1000, Some("http://example.com".to_string()), None)
        .unwrap();
    let mut d = Dispatcher::new(&cfg);
    assert_eq!(d.total(), 5);
    let mut specs = Vec::new();
    while let Some(spec) = d.next_request() {
        specs.push(spec);
    }
    let mut t = d.make_tracker();
    let mut report: Vec<String> = Vec::new();
    let mut outcome_of_last = WaitStep::Pending;
    for (i, spec) in specs.into_iter().enumerate() {
        let outcome = if i == 2 {
            ExecutionOutcome::failed(spec.target, 0, 3, "connection refused".to_string())
        } else {
            ExecutionOutcome::completed(spec.target, 0, 4, 200)
        };
        for line in report_lines(&outcome) {
            report.push(line);
        }
        outcome_of_last = t.consume(BarrierEvent::Signal);
    }
    assert_eq!(outcome_of_last, WaitStep::Complete);
    assert!(t.is_complete());
    assert_eq!(report.len(), 5);
    let failures = report.iter().filter(|l| l.contains("connection refused")).count();
    assert_eq!(failures, 1);
    let successes = report.iter().filter(|l| l.contains(", 200, ")).count();
    assert_eq!(successes, 4);
}

#[test]
fn config_error_messages_name_the_kind() {
    let e = RunError::Configuration { issue: pour::ConfigIssue::ZeroRepetitions };
    assert_eq!(e.describe(), "configuration error: cannot repeat 0 times");
    let e = RunError::Configuration { issue: pour::ConfigIssue::MissingTarget };
    assert_eq!(e.describe(), "configuration error: missing url to test");
    let e = RunError::Parse { input: "http://exa mple.com".to_string() };
    assert_eq!(e.describe(), "error parsing url http://exa mple.com");
    let e = RunError::SourceRead { path: "urls.txt".to_string() };
    assert_eq!(e.describe(), "error reading url file urls.txt");
    let e = RunError::Execution {
        url: "http://example.com".to_string(),
        reason: "timeout".to_string(),
    };
    assert_eq!(e.describe(), "error requesting http://example.com: timeout");
}
