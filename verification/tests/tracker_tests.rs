use pour::{BarrierEvent, CompletionTracker, RunError, WaitStep};

#[test]
fn barrier_releases_after_exactly_expected_signals() {
    let mut t = CompletionTracker::new(4);
    assert!(!t.is_complete());
    assert_eq!(t.consume(BarrierEvent::Signal), WaitStep::Pending);
    assert_eq!(t.consume(BarrierEvent::Signal), WaitStep::Pending);
    assert_eq!(t.consume(BarrierEvent::Signal), WaitStep::Pending);
    assert!(!t.is_complete());
    assert_eq!(t.consume(BarrierEvent::Signal), WaitStep::Complete);
    assert!(t.is_complete());
}

#[test]
fn barrier_of_one_releases_on_first_signal() {
    let mut t = CompletionTracker::new(1);
    assert_eq!(t.consume(BarrierEvent::Signal), WaitStep::Complete);
    assert!(t.is_complete());
    assert!(t.closure_error().is_ok());
}

#[test]
fn early_closure_is_lost_completion() {
    let mut t = CompletionTracker::new(3);
    assert_eq!(t.consume(BarrierEvent::Signal), WaitStep::Pending);
    assert_eq!(t.consume(BarrierEvent::Closed), WaitStep::Lost);
    match t.closure_error() {
        Err(RunError::LostCompletion) => {}
        _ => panic!("expected a lost-completion error"),
    }
}

#[test]
fn lost_completion_message_is_loud() {
    let e = RunError::LostCompletion;
    assert_eq!(
        e.describe(),
        "lost completion: a request finished without signalling"
    );
}
