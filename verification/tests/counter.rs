use waiter_trait::Counter;

#[test]
fn counter() {
    let c = Counter::new(0);
    let mut t = c.start();
    assert!(t.timeout());
    assert!(t.timeout());

    let c = Counter::new(usize::MAX);
    let mut t = c.start();
    assert!(!t.timeout());
    assert!(!t.timeout());

    let c = Counter::new(2);
    let mut t = c.start();
    assert!(!t.timeout());
    assert!(!t.timeout());
    assert!(t.timeout());
    assert!(t.timeout());

    t.restart();
    assert!(!t.timeout());
    assert!(!t.timeout());
    assert!(t.timeout());
    assert!(t.timeout());
}

#[test]
fn counter_zero_budget_expires_forever() {
    let c = Counter::new(0);
    let mut t = c.start();
    for _ in 0..5 {
        assert!(t.timeout());
    }
    t.restart();
    assert!(t.timeout());
}

#[test]
fn counter_max_budget_never_expires() {
    let c = Counter::new(usize::MAX);
    let mut t = c.start();
    for _ in 0..100 {
        assert!(!t.timeout());
    }
}
