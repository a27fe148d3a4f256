use pour::{report_line, report_lines, u64_decimal, ExecutionOutcome, Target};

fn example_target() -> Target {
    Target::parse(&"http://example.com".to_string()).unwrap()
}

#[test]
fn decimal_rendering_is_exact() {
    assert_eq!(u64_decimal(0), "0");
    assert_eq!(u64_decimal(7), "7");
    assert_eq!(u64_decimal(10), "10");
    assert_eq!(u64_decimal(200), "200");
    assert_eq!(u64_decimal(9876543210), "9876543210");
}

#[test]
fn completed_line_has_the_exact_format() {
    let o = ExecutionOutcome::completed(example_target(), 1, 42, 200);
    assert_eq!(report_line(&o), "1.042s, 200, http://example.com");
}

#[test]
fn millis_are_padded_to_three_digits() {
    let o = ExecutionOutcome::completed(example_target(), 0, 7, 200);
    assert_eq!(report_line(&o), "0.007s, 200, http://example.com");
    let o = ExecutionOutcome::completed(example_target(), 0, 70, 200);
    assert_eq!(report_line(&o), "0.070s, 200, http://example.com");
    let o = ExecutionOutcome::completed(example_target(), 0, 700, 200);
    assert_eq!(report_line(&o), "0.700s, 200, http://example.com");
}

#[test]
fn failed_line_carries_the_reason() {
    let o = ExecutionOutcome::failed(
        example_target(),
        0,
        100,
        "connection refused".to_string(),
    );
    assert_eq!(report_line(&o), "0.100s, connection refused, http://example.com");
    assert!(!o.is_completed());
    assert!(!o.is_server_error());
}

#[test]
fn ordinary_outcome_emits_one_line() {
    let o = ExecutionOutcome::completed(example_target(), 2, 0, 404);
    let v = report_lines(&o);
    assert_eq!(v.len(), 1);
    assert_eq!(v[0], "2.000s, 404, http://example.com");
    assert!(!o.is_server_error());
}

#[test]
fn server_error_emits_status_on_second_line() {
    let o = ExecutionOutcome::completed(example_target(), 0, 5, 503);
    assert!(o.is_server_error());
    assert!(o.is_completed());
    let v = report_lines(&o);
    assert_eq!(v.len(), 2);
    assert_eq!(v[0], "0.005s, 503, http://example.com");
    assert_eq!(v[1], "503");
}

#[test]
fn boundary_statuses_for_server_error_flag() {
    let o = ExecutionOutcome::completed(example_target(), 0, 0, 499);
    assert!(!o.is_server_error());
    let o = ExecutionOutcome::completed(example_target(), 0, 0, 500);
    assert!(o.is_server_error());
    let o = ExecutionOutcome::completed(example_target(), 0, 0, 599);
    assert!(o.is_server_error());
    let o = ExecutionOutcome::completed(example_target(), 0, 0, 600);
    assert!(!o.is_server_error());
}
