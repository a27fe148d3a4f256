use pour::FlightBound;

#[test]
fn unbounded_limiter_always_has_room() {
    let mut g = FlightBound::unbounded();
    for _ in 0..100 {
        assert!(g.has_room());
        g.launch();
    }
    assert!(g.has_room());
}

#[test]
fn bounded_limiter_blocks_at_its_cap() {
    let mut g = FlightBound::new(Some(2));
    assert!(g.has_room());
    g.launch();
    assert!(g.has_room());
    g.launch();
    assert!(!g.has_room());
    g.settle();
    assert!(g.has_room());
    g.launch();
    assert!(!g.has_room());
}

#[test]
fn settling_everything_reopens_the_limiter() {
    let mut g = FlightBound::new(Some(1));
    g.launch();
    assert!(!g.has_room());
    g.settle();
    assert!(g.has_room());
}
