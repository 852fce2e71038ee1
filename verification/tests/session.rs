use std::sync::mpsc;

use garlock::auth::{resolve_poll, AuthResult, ChannelPoll, PendingAuth};
use garlock::keyboard::KeyResult;
use garlock::ring::RingState;
use garlock::session::LockSession;
use garlock::state::{AuthState, InputState};

fn typed(s: &mut LockSession, text: &str) {
    for c in text.chars() {
        let out = s.on_key_with_cooldown(KeyResult::Char(c), false, false);
        assert!(out.redraw);
        assert!(out.submit.is_none());
    }
}

#[test]
fn typing_updates_ring_and_password() {
    let mut s = LockSession::new();
    typed(&mut s, "pw");
    assert_eq!(s.password.as_str(), "pw");
    assert_eq!(s.state.input, InputState::Letter);
    assert_eq!(s.ring.state(), RingState::Typing);
    assert_eq!(s.ring.highlight_segment(), Some(1));
}

#[test]
fn backspace_and_clear() {
    let mut s = LockSession::new();
    typed(&mut s, "abc");
    let out = s.on_key_with_cooldown(KeyResult::Backspace, false, false);
    assert!(out.redraw);
    assert_eq!(s.password.as_str(), "ab");
    assert_eq!(s.ring.state(), RingState::Clear);
    assert_eq!(s.ring.highlight_segment(), Some(1));
    s.on_key_with_cooldown(KeyResult::Clear, false, false);
    assert!(s.password.is_empty());
    assert_eq!(s.state.input, InputState::Clear);
    assert_eq!(s.ring.highlight_segment(), None);
    let out = s.on_key_with_cooldown(KeyResult::Backspace, false, false);
    assert!(out.redraw);
    assert_eq!(s.state.input, InputState::Clear);
}

#[test]
fn enter_submits_and_clears() {
    let mut s = LockSession::new();
    typed(&mut s, "secret");
    let out = s.on_key(KeyResult::Enter, false);
    assert!(out.redraw);
    assert_eq!(out.submit.as_deref(), Some("secret"));
    assert!(s.password.is_empty());
    assert_eq!(s.state.auth, AuthState::Validating);
    assert_eq!(s.ring.state(), RingState::Verifying);
    assert_eq!(s.ring.highlight_segment(), None);
}

#[test]
fn enter_does_not_submit_when_empty_or_pending() {
    let mut s = LockSession::new();
    let out = s.on_key_with_cooldown(KeyResult::Enter, false, false);
    assert!(out.submit.is_none());
    assert!(!out.redraw);
    typed(&mut s, "x");
    let out = s.on_key_with_cooldown(KeyResult::Enter, true, false);
    assert!(out.submit.is_none());
    assert_eq!(s.password.as_str(), "x");
}

#[test]
fn enter_during_cooldown_discards_password() {
    let mut s = LockSession::new();
    typed(&mut s, "guess");
    let out = s.on_key_with_cooldown(KeyResult::Enter, false, true);
    assert!(out.submit.is_none());
    assert!(out.redraw);
    assert!(s.password.is_empty());
    assert_eq!(s.state.auth, AuthState::Idle);
}

#[test]
fn modifier_and_ignored_keys() {
    let mut s = LockSession::new();
    let out = s.on_key(KeyResult::Modifier, false);
    assert!(!out.redraw);
    assert_eq!(s.state.input, InputState::Neutral);
    let out = s.on_key(KeyResult::Escape, false);
    assert!(!out.redraw && out.submit.is_none());
    let out = s.on_key(KeyResult::Ignored, false);
    assert!(!out.redraw && out.submit.is_none());
}

#[test]
fn failures_start_cooldown_at_limit() {
    let mut s = LockSession::new();
    for attempt in 1..=3u32 {
        typed(&mut s, "wrong");
        let out = s.on_key_with_cooldown(KeyResult::Enter, false, false);
        assert!(out.submit.is_some());
        let unlocked = s.on_auth_result(AuthResult::Failure("nope".to_string()), 3, 5);
        assert!(!unlocked);
        assert_eq!(s.state.failed_attempts, attempt);
        assert_eq!(s.ring.state(), RingState::Wrong);
        assert_eq!(s.state.is_in_cooldown(), attempt == 3);
    }
    assert!(s.state.cooldown_remaining() <= 5);
    let out = s.on_key(KeyResult::Char('a'), false);
    assert!(out.redraw);
    let out = s.on_key(KeyResult::Enter, false);
    assert!(out.submit.is_none());
    assert!(s.password.is_empty());
}

#[test]
fn success_unlocks_and_resets() {
    let mut s = LockSession::new();
    s.on_auth_result(AuthResult::Failure(String::new()), 3, 5);
    assert!(s.on_auth_result(AuthResult::Success, 3, 5));
    assert_eq!(s.state.failed_attempts, 0);
    assert_eq!(s.state.auth, AuthState::Idle);
}

#[test]
fn sync_and_tick() {
    let mut s = LockSession::new();
    s.state.start_validation();
    s.sync_ring();
    assert_eq!(s.ring.state(), RingState::Verifying);
    assert!(!s.tick());
}

#[test]
fn channel_polls() {
    assert!(resolve_poll(ChannelPoll::Empty).is_none());
    assert!(matches!(resolve_poll(ChannelPoll::Ready(AuthResult::Success)), Some(AuthResult::Success)));
    match resolve_poll(ChannelPoll::Disconnected) {
        Some(AuthResult::Failure(m)) => assert_eq!(m, "Authentication thread died"),
        other => panic!("unexpected {:?}", other),
    }
}

#[test]
fn pending_auth_over_a_channel() {
    let (tx, rx) = mpsc::channel();
    let pending = PendingAuth::new(rx);
    assert!(pending.try_recv().is_none());
    tx.send(AuthResult::Failure("bad".to_string())).unwrap();
    assert!(matches!(pending.try_recv(), Some(AuthResult::Failure(m)) if m == "bad"));
    drop(tx);
    assert!(matches!(pending.try_recv(), Some(AuthResult::Failure(m)) if m == "Authentication thread died"));
}
