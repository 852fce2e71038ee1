use garlock::protocol::{daemon_reply, Command, Response};

#[test]
fn constructors() {
    assert!(matches!(Response::ok(), Response::Success { message: None }));
    match Response::ok_with_message("hi") {
        Response::Success { message: Some(m) } => assert_eq!(m, "hi"),
        other => panic!("unexpected {:?}", other),
    }
    match Response::error("bad") {
        Response::Error { message } => assert_eq!(message, "bad"),
        other => panic!("unexpected {:?}", other),
    }
    match Response::state(true, Some(2), Some(false)) {
        Response::State { locked, failed_attempts, in_cooldown } => {
            assert!(locked);
            assert_eq!(failed_attempts, Some(2));
            assert_eq!(in_cooldown, Some(false));
        }
        other => panic!("unexpected {:?}", other),
    }
}

#[test]
fn lock_when_unlocked_starts_lock() {
    let r = daemon_reply(Command::Lock, false);
    assert!(r.start_lock);
    assert!(!r.stop);
    match r.response {
        Response::Success { message: Some(m) } => assert_eq!(m, "Locking screen"),
        other => panic!("unexpected {:?}", other),
    }
}

#[test]
fn lock_when_locked_is_refused() {
    let r = daemon_reply(Command::Lock, true);
    assert!(!r.start_lock);
    assert!(!r.stop);
    match r.response {
        Response::Error { message } => assert_eq!(message, "Screen is already locked"),
        other => panic!("unexpected {:?}", other),
    }
}

#[test]
fn query_reports_lock_state() {
    for locked in [false, true] {
        let r = daemon_reply(Command::QueryState, locked);
        assert!(!r.start_lock && !r.stop);
        match r.response {
            Response::State { locked: l, failed_attempts: None, in_cooldown: None } => {
                assert_eq!(l, locked)
            }
            other => panic!("unexpected {:?}", other),
        }
    }
}

#[test]
fn shutdown_stops() {
    let r = daemon_reply(Command::Shutdown, true);
    assert!(r.stop);
    assert!(!r.start_lock);
    match r.response {
        Response::Success { message: Some(m) } => assert_eq!(m, "Shutting down"),
        other => panic!("unexpected {:?}", other),
    }
}
