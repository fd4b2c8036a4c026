use gvrunner::cancel::CancelToken;

#[test]
fn fresh_token_is_clear() {
    let t = CancelToken::new();
    assert!(!t.is_set());
}

#[test]
fn set_marks_and_is_idempotent() {
    let mut t = CancelToken::new();
    t.set();
    assert!(t.is_set());
    t.set();
    assert!(t.is_set());
}

#[test]
fn stale_cancel_is_invisible_after_reset() {
    let mut t = CancelToken::new();
    t.set();
    t.reset();
    assert!(!t.is_set());
}
