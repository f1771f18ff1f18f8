use gmsv_rhttp::registry::RequestRegistry;

#[test]
fn cancelled_request_is_removed_after_completion() {
    let mut registry = RequestRegistry::new();
    let request = registry.register();
    assert!(registry.cancel(request.id));
    assert!(request.token.is_cancelled());
    registry.finish(request.id);
    assert!(!registry.cancel(1));
}

#[test]
fn numbers_start_at_one_and_are_not_used_again() {
    let mut registry = RequestRegistry::new();
    let first = registry.register();
    let second = registry.register();
    assert_eq!(first.id, 1);
    assert_eq!(second.id, 2);
    registry.finish(second.id);
    assert_eq!(registry.register().id, 3);
}

#[test]
fn cancel_reaches_its_own_request_only() {
    let mut registry = RequestRegistry::new();
    let first = registry.register();
    let second = registry.register();
    assert!(!first.is_cancelled(&registry));
    assert!(registry.cancel(second.id));
    assert!(!first.is_cancelled(&registry));
    assert!(second.is_cancelled(&registry));
}

#[test]
fn cancel_can_be_repeated_until_the_request_ends() {
    let mut registry = RequestRegistry::new();
    let request = registry.register();
    assert!(registry.cancel(request.id));
    assert!(registry.cancel(request.id));
    registry.finish(request.id);
    assert!(!registry.cancel(request.id));
}

#[test]
fn unknown_numbers_are_not_cancelled() {
    let mut registry = RequestRegistry::new();
    let request = registry.register();
    assert!(!registry.cancel(0));
    assert!(!registry.cancel(2));
    assert!(!registry.cancel(u64::MAX));
    assert!(!request.is_cancelled(&registry));
}

#[test]
fn cancel_all_reaches_every_request_and_empties_the_registry() {
    let mut registry = RequestRegistry::new();
    let requests = vec![registry.register(), registry.register(), registry.register()];
    registry.finish(2);
    registry.cancel_all();
    assert!(requests[0].is_cancelled(&registry));
    assert!(!requests[1].is_cancelled(&registry));
    assert!(requests[2].is_cancelled(&registry));
    assert!(!registry.cancel(1));
    assert!(!registry.cancel(3));
    assert_eq!(registry.register().id, 4);
}

#[test]
fn tokens_are_not_shared() {
    let mut registry = RequestRegistry::new();
    let first = registry.register();
    let second = registry.register();
    assert!(first.token != second.token);
    assert!(!second.token.is_cancelled());
    registry.cancel_all();
    let third = registry.register();
    assert!(third.token != first.token);
    assert!(!third.token.is_cancelled());
}

#[test]
fn finish_twice_is_finish_once() {
    let mut registry = RequestRegistry::new();
    let first = registry.register();
    let second = registry.register();
    registry.finish(first.id);
    registry.finish(first.id);
    registry.finish(99);
    assert!(!first.is_cancelled(&registry));
    assert!(!registry.cancel(first.id));
    assert!(registry.cancel(second.id));
}

#[test]
fn unknown_number_cancels_no_request() {
    let mut registry = RequestRegistry::new();
    let first = registry.register();
    let second = registry.register();
    registry.finish(first.id);
    assert!(!registry.cancel(first.id));
    assert!(!registry.cancel(3));
    assert!(!first.is_cancelled(&registry));
    assert!(!second.is_cancelled(&registry));
}

#[test]
fn cancelled_request_stays_cancelled() {
    let mut registry = RequestRegistry::new();
    let first = registry.register();
    assert!(registry.cancel(first.id));
    assert!(first.is_cancelled(&registry));
    registry.finish(first.id);
    let second = registry.register();
    assert!(first.is_cancelled(&registry));
    assert!(!second.is_cancelled(&registry));
    registry.cancel_all();
    assert!(first.is_cancelled(&registry));
    assert!(second.is_cancelled(&registry));
}
