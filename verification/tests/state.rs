use garlock::ring::RingState;
use garlock::state::{AuthState, InputState, LockerState};

#[test]
fn new_state_is_idle() {
    let s = LockerState::new();
    assert_eq!(s.auth, AuthState::Idle);
    assert_eq!(s.input, InputState::Idle);
    assert_eq!(s.failed_attempts, 0);
    assert_eq!(s.ring_state(), RingState::Idle);
    assert_eq!(s.cooldown_remaining(), 0);
    assert!(!s.is_in_cooldown());
}

#[test]
fn names() {
    assert_eq!(AuthState::Idle.name(), "idle");
    assert_eq!(AuthState::Validating.name(), "validating");
    assert_eq!(AuthState::Invalid.name(), "invalid");
    assert_eq!(InputState::Idle.name(), "idle");
    assert_eq!(InputState::Letter.name(), "letter");
    assert_eq!(InputState::Backspace.name(), "backspace");
    assert_eq!(InputState::Clear.name(), "clear");
    assert_eq!(InputState::Neutral.name(), "neutral");
    assert_eq!(RingState::Idle.name(), "idle");
    assert_eq!(RingState::Typing.name(), "typing");
    assert_eq!(RingState::Verifying.name(), "verifying");
    assert_eq!(RingState::Wrong.name(), "wrong");
    assert_eq!(RingState::Clear.name(), "clear");
}

#[test]
fn visual_feedback() {
    assert!(!InputState::Idle.has_visual_feedback());
    assert!(!InputState::Neutral.has_visual_feedback());
    assert!(InputState::Letter.has_visual_feedback());
    assert!(InputState::Backspace.has_visual_feedback());
    assert!(InputState::Clear.has_visual_feedback());
}

#[test]
fn ring_state_follows_input_when_idle() {
    let mut s = LockerState::new();
    s.on_input(InputState::Letter);
    assert_eq!(s.ring_state(), RingState::Typing);
    s.on_input(InputState::Backspace);
    assert_eq!(s.ring_state(), RingState::Clear);
    s.on_input(InputState::Clear);
    assert_eq!(s.ring_state(), RingState::Clear);
    s.on_input(InputState::Neutral);
    assert_eq!(s.ring_state(), RingState::Idle);
}

#[test]
fn auth_state_takes_priority_over_input() {
    let mut s = LockerState::new();
    s.on_input(InputState::Letter);
    s.start_validation();
    assert_eq!(s.ring_state(), RingState::Verifying);
    s.on_auth_failure();
    assert_eq!(s.ring_state(), RingState::Wrong);
    assert_eq!(s.failed_attempts, 1);
}

#[test]
fn success_resets_failed_attempts() {
    let mut s = LockerState::new();
    s.on_auth_failure();
    s.on_auth_failure();
    assert_eq!(s.failed_attempts, 2);
    s.on_auth_success();
    assert_eq!(s.failed_attempts, 0);
    assert_eq!(s.auth, AuthState::Idle);
}

#[test]
fn timeouts_decay_to_idle() {
    let mut s = LockerState::new();
    s.on_input(InputState::Letter);
    s.on_auth_failure();
    // before the timeouts nothing changes
    assert!(!s.update_timers_at(299, 1499));
    assert_eq!(s.input, InputState::Letter);
    assert_eq!(s.auth, AuthState::Invalid);
    // the input timeout passes first
    assert!(s.update_timers_at(300, 1499));
    assert_eq!(s.input, InputState::Idle);
    assert_eq!(s.auth, AuthState::Invalid);
    // then the failure timeout
    assert!(s.update_timers_at(5000, 1500));
    assert_eq!(s.auth, AuthState::Idle);
    // nothing is left to decay
    assert!(!s.update_timers_at(5000, 5000));
}

#[test]
fn timeouts_need_a_running_timer() {
    let mut s = LockerState::new();
    s.input = InputState::Letter;
    s.auth = AuthState::Invalid;
    assert!(!s.update_timers_at(10_000, 10_000));
    assert_eq!(s.input, InputState::Letter);
    assert_eq!(s.auth, AuthState::Invalid);
}

#[test]
fn update_timers_right_after_input_changes_nothing() {
    let mut s = LockerState::new();
    s.on_input(InputState::Letter);
    assert!(!s.update_timers());
    assert_eq!(s.input, InputState::Letter);
}

#[test]
fn cooldown_counts_down_in_whole_seconds() {
    let mut s = LockerState::new();
    assert_eq!(s.cooldown_remaining_at(0), 0);
    s.start_cooldown(5);
    assert_eq!(s.cooldown_remaining_at(0), 5);
    assert_eq!(s.cooldown_remaining_at(1), 5);
    assert_eq!(s.cooldown_remaining_at(1000), 4);
    assert_eq!(s.cooldown_remaining_at(4001), 1);
    assert_eq!(s.cooldown_remaining_at(5000), 0);
    assert_eq!(s.cooldown_remaining_at(u128::MAX), 0);
    assert!(s.is_in_cooldown());
    assert!(s.cooldown_remaining() <= 5);
}

#[test]
fn zero_cooldown_is_never_active() {
    let mut s = LockerState::new();
    s.start_cooldown(0);
    assert!(!s.is_in_cooldown());
    assert_eq!(s.cooldown_remaining(), 0);
}

#[test]
fn caps_lock_shown_only_with_input() {
    let mut s = LockerState::default();
    assert!(!s.should_show_caps_lock(true));
    s.on_input(InputState::Neutral);
    assert!(s.should_show_caps_lock(true));
    assert!(!s.should_show_caps_lock(false));
}
