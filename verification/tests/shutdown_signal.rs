use hello_server::shutdown::ShutdownSignal;

#[test]
fn starts_unset_and_sets_once() {
    let mut sig = ShutdownSignal::new();
    assert!(!sig.observed());
    let newly = sig.request();
    assert!(newly);
    assert!(sig.observed());
}

#[test]
fn second_request_changes_nothing() {
    // Triggering shutdown twice is the same as once: the signal stays set,
    // and only the first request reports an observation to log.
    let mut sig = ShutdownSignal::new();
    assert!(sig.request());
    assert!(!sig.request());
    assert!(sig.observed());
    let mut log_lines: usize = 0;
    for _ in 0..3 {
        if sig.request() {
            log_lines += 1;
        }
    }
    assert_eq!(log_lines, 0);
    assert!(sig.observed());
}

#[test]
fn many_readers_see_the_same_signal() {
    let mut sig = ShutdownSignal::new();
    sig.request();
    for _ in 0..4 {
        assert!(sig.observed());
    }
}
