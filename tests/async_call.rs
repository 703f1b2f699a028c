use piccolo::async_call::AsyncCall;

#[test]
fn completion_before_the_action_returns_is_not_missed() {
    let mut call: AsyncCall<Result<(), u32>> = AsyncCall::new();
    assert!(call.register_waiter());
    assert_eq!(call.waiters(), 1);
    // the callback fires while the triggering action is still running
    assert!(call.complete(Ok(())));
    assert!(call.is_completed());
    assert_eq!(call.result(), Some(&Ok(())));
    assert_eq!(call.waiters(), 0);
}

#[test]
fn second_completion_keeps_the_first_value() {
    let mut call = AsyncCall::new();
    assert!(call.register_waiter());
    assert!(call.register_waiter());
    assert_eq!(call.waiters(), 2);
    assert!(call.complete(7u32));
    assert!(!call.complete(9u32));
    assert_eq!(call.result(), Some(&7));
}

#[test]
fn waiter_after_completion_does_not_suspend() {
    let mut call = AsyncCall::new();
    assert_eq!(call.result(), None);
    assert!(!call.is_completed());
    call.complete(String::from("ready"));
    assert!(!call.register_waiter());
    assert_eq!(call.result().map(|s| s.as_str()), Some("ready"));
}
