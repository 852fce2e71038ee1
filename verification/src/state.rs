//! Lock state machines: the authentication state, the visual input state,
//! their timeouts, the failed-attempt counter and the cooldown.

use std::time::Instant;
use vstd::prelude::*;

use crate::ring::RingState;

verus! {

/// `std::time::Instant`, a moment of the monotonic clock, opaque here.
#[verifier::external_type_specification]
#[verifier::external_body]
pub struct ExInstant(Instant);

/// `Instant::now`: the current moment of the monotonic clock.
#[verifier::external_body]
fn instant_now() -> Instant {
    Instant::now()
}

/// `Instant::elapsed` of `since`, the `Duration` converted to whole
/// milliseconds. What it returns depends on the clock; nothing is stated of it.
#[verifier::external_body]
fn elapsed_millis(since: &Instant) -> u128 {
    since.elapsed().as_millis()
}

/// Milliseconds without input after which the input state returns to idle.
pub const INPUT_IDLE_TIMEOUT_MS: u64 = 300;

/// Milliseconds for which a failed authentication is shown.
pub const AUTH_INVALID_TIMEOUT_MS: u64 = 1500;

/// Authentication state (what's happening with PAM).
#[derive(Debug, Clone, Copy, PartialEq, Eq, Structural, Default)]
pub enum AuthState {
    /// No authentication in progress
    #[default]
    Idle,
    /// Currently validating password with PAM
    Validating,
    /// Authentication failed, showing error state
    Invalid,
}

impl AuthState {
    /// Display name for logging.
    pub fn name(&self) -> (r: &'static str)
        ensures
            r@ == match *self {
                AuthState::Idle => "idle"@,
                AuthState::Validating => "validating"@,
                AuthState::Invalid => "invalid"@,
            },
    {
        match self {
            AuthState::Idle => "idle",
            AuthState::Validating => "validating",
            AuthState::Invalid => "invalid",
        }
    }
}

/// Input state (visual feedback for the ring indicator).
#[derive(Debug, Clone, Copy, PartialEq, Eq, Structural, Default)]
pub enum InputState {
    /// No recent input, ring shows idle color
    #[default]
    Idle,
    /// A character was typed
    Letter,
    /// Backspace removed a character
    Backspace,
    /// Password buffer was cleared (Ctrl+U or backspace on empty)
    Clear,
    /// A modifier key was pressed (no visual change)
    Neutral,
}

impl InputState {
    /// Display name for logging.
    pub fn name(&self) -> (r: &'static str)
        ensures
            r@ == match *self {
                InputState::Idle => "idle"@,
                InputState::Letter => "letter"@,
                InputState::Backspace => "backspace"@,
                InputState::Clear => "clear"@,
                InputState::Neutral => "neutral"@,
            },
    {
        match self {
            InputState::Idle => "idle",
            InputState::Letter => "letter",
            InputState::Backspace => "backspace",
            InputState::Clear => "clear",
            InputState::Neutral => "neutral",
        }
    }

    /// Whether this state gives visual feedback.
    pub fn has_visual_feedback(&self) -> (r: bool)
        ensures
            r == !(*self == InputState::Idle || *self == InputState::Neutral),
    {
        !matches!(self, InputState::Idle | InputState::Neutral)
    }
}

/// The ring state shown for an authentication state and an input state:
/// validation and failure take priority over input feedback.
pub open spec fn ring_state_for(auth: AuthState, input: InputState) -> RingState {
    match auth {
        AuthState::Validating => RingState::Verifying,
        AuthState::Invalid => RingState::Wrong,
        AuthState::Idle => match input {
            InputState::Letter => RingState::Typing,
            InputState::Backspace | InputState::Clear => RingState::Clear,
            InputState::Idle | InputState::Neutral => RingState::Idle,
        },
    }
}

/// One application of the timeouts, given the milliseconds elapsed since the
/// last input and since the failure was shown: the input state returns to idle
/// once its timeout has passed, the failure once its own has (and its timer
/// stops); nothing else changes, and `changed` tells whether either decayed.
pub open spec fn timers_step(
    pre: LockerModel,
    post: LockerModel,
    input_ms: u128,
    invalid_ms: u128,
    changed: bool,
) -> bool {
    let input_decays = pre.input != InputState::Idle && pre.input_timer && input_ms
        >= INPUT_IDLE_TIMEOUT_MS;
    let auth_decays = pre.auth == AuthState::Invalid && pre.invalid_timer && invalid_ms
        >= AUTH_INVALID_TIMEOUT_MS;
    &&& post == LockerModel {
        input: if input_decays {
            InputState::Idle
        } else {
            pre.input
        },
        auth: if auth_decays {
            AuthState::Idle
        } else {
            pre.auth
        },
        invalid_timer: pre.invalid_timer && !auth_decays,
        ..pre
    }
    &&& changed == (input_decays || auth_decays)
}

/// Seconds of cooldown left, rounded up, when `elapsed_ms` milliseconds of a
/// cooldown of `seconds` seconds have passed.
pub open spec fn cooldown_left(seconds: u64, elapsed_ms: u128) -> int {
    let total = seconds * 1000;
    if elapsed_ms >= total {
        0
    } else {
        (total - elapsed_ms + 999) / 1000
    }
}

/// Locker state machine combining auth and input states.
pub struct LockerState {
    /// Current authentication state
    pub auth: AuthState,
    /// Current input state
    pub input: InputState,
    /// Time of last input event
    last_input: Option<Instant>,
    /// Time when auth became invalid (for timeout)
    invalid_since: Option<Instant>,
    /// Time when the cooldown started
    cooldown_since: Option<Instant>,
    /// Length of the cooldown in seconds
    cooldown_seconds: u64,
    /// Number of failed authentication attempts
    pub failed_attempts: u32,
}

/// The abstract state of a `LockerState`.
pub struct LockerModel {
    pub auth: AuthState,
    pub input: InputState,
    pub failed_attempts: u32,
    /// An input has been recorded, so the input timeout is running.
    pub input_timer: bool,
    /// A failure is being shown, so the invalid timeout is running.
    pub invalid_timer: bool,
    /// A cooldown has been started.
    pub cooldown_started: bool,
    /// Length in seconds of the last cooldown started.
    pub cooldown_length: u64,
}

impl LockerModel {
    /// The timers and the cooldown of `other` are those of `self`.
    pub open spec fn same_timers(self, other: Self) -> bool {
        &&& self.input_timer == other.input_timer
        &&& self.invalid_timer == other.invalid_timer
        &&& self.cooldown_started == other.cooldown_started
        &&& self.cooldown_length == other.cooldown_length
    }
}

impl View for LockerState {
    type V = LockerModel;

    closed spec fn view(&self) -> LockerModel {
        LockerModel {
            auth: self.auth,
            input: self.input,
            failed_attempts: self.failed_attempts,
            input_timer: self.last_input is Some,
            invalid_timer: self.invalid_since is Some,
            cooldown_started: self.cooldown_since is Some,
            cooldown_length: self.cooldown_seconds,
        }
    }
}

impl LockerState {
    /// Idle states, no failed attempt, no timer and no cooldown.
    pub fn new() -> (s: Self)
        ensures
            s@.auth == AuthState::Idle,
            s@.input == InputState::Idle,
            s@.failed_attempts == 0,
            !s@.input_timer,
            !s@.invalid_timer,
            !s@.cooldown_started,
            s@.cooldown_length == 0,
    {
        LockerState {
            auth: AuthState::Idle,
            input: InputState::Idle,
            last_input: None,
            invalid_since: None,
            cooldown_since: None,
            cooldown_seconds: 0,
            failed_attempts: 0,
        }
    }

    /// Records an input event and restarts the input timeout.
    pub fn on_input(&mut self, input: InputState)
        ensures
            final(self)@.input == input,
            final(self)@.auth == old(self)@.auth,
            final(self)@.failed_attempts == old(self)@.failed_attempts,
            final(self)@.input_timer,
            final(self)@.invalid_timer == old(self)@.invalid_timer,
            final(self)@.cooldown_started == old(self)@.cooldown_started,
            final(self)@.cooldown_length == old(self)@.cooldown_length,
    {
        self.input = input;
        self.last_input = Some(instant_now());
    }

    /// Starts password validation.
    pub fn start_validation(&mut self)
        ensures
            final(self)@.auth == AuthState::Validating,
            final(self)@.input == old(self)@.input,
            final(self)@.failed_attempts == old(self)@.failed_attempts,
            final(self)@.same_timers(old(self)@),
    {
        self.auth = AuthState::Validating;
    }

    /// Handles a successful authentication: the failure count is reset.
    pub fn on_auth_success(&mut self)
        ensures
            final(self)@.auth == AuthState::Idle,
            final(self)@.failed_attempts == 0,
            final(self)@.input == old(self)@.input,
            final(self)@.same_timers(old(self)@),
    {
        self.auth = AuthState::Idle;
        self.failed_attempts = 0;
    }

    /// Handles a failed authentication: shows the failure, starts its
    /// timeout and counts the attempt.
    pub fn on_auth_failure(&mut self)
        requires
            old(self)@.failed_attempts < u32::MAX,
        ensures
            final(self)@.auth == AuthState::Invalid,
            final(self)@.failed_attempts == old(self)@.failed_attempts + 1,
            final(self)@.input == old(self)@.input,
            final(self)@.invalid_timer,
            final(self)@.input_timer == old(self)@.input_timer,
            final(self)@.cooldown_started == old(self)@.cooldown_started,
            final(self)@.cooldown_length == old(self)@.cooldown_length,
    {
        self.auth = AuthState::Invalid;
        self.invalid_since = Some(instant_now());
        self.failed_attempts = self.failed_attempts + 1;
    }

    /// Applies the timeouts, given the milliseconds elapsed since the last
    /// input and since the failure was shown. The input state returns to idle
    /// once its timeout has passed, the failure once its own has; returns
    /// whether either changed.
    pub fn update_timers_at(&mut self, input_elapsed_ms: u128, invalid_elapsed_ms: u128) -> (changed:
        bool)
        ensures
            timers_step(old(self)@, final(self)@, input_elapsed_ms, invalid_elapsed_ms, changed),
            final(self)@.failed_attempts == old(self)@.failed_attempts,
            final(self)@.input_timer == old(self)@.input_timer,
            final(self)@.cooldown_started == old(self)@.cooldown_started,
            final(self)@.cooldown_length == old(self)@.cooldown_length,
    {
        let mut changed = false;
        if self.input != InputState::Idle && self.last_input.is_some() && input_elapsed_ms
            >= INPUT_IDLE_TIMEOUT_MS as u128 {
            self.input = InputState::Idle;
            changed = true;
        }
        if self.auth == AuthState::Invalid && self.invalid_since.is_some() && invalid_elapsed_ms
            >= AUTH_INVALID_TIMEOUT_MS as u128 {
            self.auth = AuthState::Idle;
            self.invalid_since = None;
            changed = true;
        }
        changed
    }

    /// Checks the timeouts against the clock and applies them; returns
    /// whether a state changed. Timeouts only return states to idle: the input
    /// state changes only from a non-idle state to idle, the authentication
    /// state only from invalid to idle.
    pub fn update_timers(&mut self) -> (changed: bool)
        ensures
            final(self)@.input == old(self)@.input || (final(self)@.input == InputState::Idle
                && old(self)@.input_timer),
            final(self)@.auth == old(self)@.auth || (final(self)@.auth == AuthState::Idle
                && old(self)@.auth == AuthState::Invalid),
            changed == (final(self)@.input != old(self)@.input || final(self)@.auth != old(self)@.auth),
            final(self)@.failed_attempts == old(self)@.failed_attempts,
            final(self)@.input_timer == old(self)@.input_timer,
            final(self)@.invalid_timer == (old(self)@.invalid_timer && final(self)@.auth
                == old(self)@.auth),
            final(self)@.cooldown_started == old(self)@.cooldown_started,
            final(self)@.cooldown_length == old(self)@.cooldown_length,
            exists|input_ms: u128, invalid_ms: u128|
                timers_step(old(self)@, final(self)@, input_ms, invalid_ms, changed),
    {
        let input_ms = match &self.last_input {
            Some(t) => if self.input != InputState::Idle {
                elapsed_millis(t)
            } else {
                0
            },
            None => 0,
        };
        let invalid_ms = match &self.invalid_since {
            Some(t) => if self.auth == AuthState::Invalid {
                elapsed_millis(t)
            } else {
                0
            },
            None => 0,
        };
        self.update_timers_at(input_ms, invalid_ms)
    }

    /// Starts a cooldown of `seconds` seconds.
    pub fn start_cooldown(&mut self, seconds: u64)
        ensures
            final(self)@.cooldown_started,
            final(self)@.cooldown_length == seconds,
            final(self)@.auth == old(self)@.auth,
            final(self)@.input == old(self)@.input,
            final(self)@.failed_attempts == old(self)@.failed_attempts,
            final(self)@.input_timer == old(self)@.input_timer,
            final(self)@.invalid_timer == old(self)@.invalid_timer,
    {
        self.cooldown_since = Some(instant_now());
        self.cooldown_seconds = seconds;
    }

    /// Seconds of cooldown left, rounded up, once `elapsed_ms` milliseconds
    /// have passed since it started; zero when no cooldown was started.
    pub fn cooldown_remaining_at(&self, elapsed_ms: u128) -> (r: u64)
        ensures
            r == if self@.cooldown_started {
                cooldown_left(self@.cooldown_length, elapsed_ms)
            } else {
                0
            },
    {
        if self.cooldown_since.is_none() {
            return 0;
        }
        let total: u128 = self.cooldown_seconds as u128 * 1000;
        if elapsed_ms >= total {
            0
        } else {
            let left: u128 = (total - elapsed_ms + 999) / 1000;
            assert(left <= self.cooldown_seconds) by (nonlinear_arith)
                requires
                    left == (total - elapsed_ms + 999) / 1000,
                    total == self.cooldown_seconds * 1000,
                    elapsed_ms < total,
            ;
            left as u64
        }
    }

    /// Seconds of cooldown left by the clock, rounded up; zero when no
    /// cooldown was started, and never more than its length.
    pub fn cooldown_remaining(&self) -> (r: u64)
        ensures
            !self@.cooldown_started ==> r == 0,
            r <= self@.cooldown_length,
    {
        match &self.cooldown_since {
            Some(t) => {
                let ms = elapsed_millis(t);
                let r = self.cooldown_remaining_at(ms);
                assert(r <= self@.cooldown_length) by (nonlinear_arith)
                    requires
                        r == cooldown_left(self@.cooldown_length, ms),
                ;
                r
            },
            None => 0,
        }
    }

    /// Whether a cooldown is in progress by the clock; never when none was
    /// started or its length is zero.
    pub fn is_in_cooldown(&self) -> (r: bool)
        ensures
            r ==> self@.cooldown_started && self@.cooldown_length > 0,
    {
        self.cooldown_remaining() > 0
    }

    /// Number of failed authentication attempts.
    pub fn failed_attempts(&self) -> (r: u32)
        ensures
            r == self@.failed_attempts,
    {
        self.failed_attempts
    }

    /// Current authentication state.
    pub fn auth(&self) -> (r: AuthState)
        ensures
            r == self@.auth,
    {
        self.auth
    }

    /// Current input state.
    pub fn input(&self) -> (r: InputState)
        ensures
            r == self@.input,
    {
        self.input
    }

    /// The ring state for the current states.
    pub fn ring_state(&self) -> (r: RingState)
        ensures
            r == ring_state_for(self@.auth, self@.input),
    {
        match self.auth {
            AuthState::Validating => return RingState::Verifying,
            AuthState::Invalid => return RingState::Wrong,
            AuthState::Idle => {},
        }
        match self.input {
            InputState::Letter => RingState::Typing,
            InputState::Backspace | InputState::Clear => RingState::Clear,
            InputState::Idle | InputState::Neutral => RingState::Idle,
        }
    }

    /// Whether the Caps Lock warning is shown: Caps Lock is on and the input
    /// state is not idle.
    pub fn should_show_caps_lock(&self, caps_active: bool) -> (r: bool)
        ensures
            r == (caps_active && self@.input != InputState::Idle),
    {
        caps_active && !matches!(self.input, InputState::Idle)
    }
}

impl Default for LockerState {
    fn default() -> (s: Self)
        ensures
            s@.auth == AuthState::Idle,
            s@.input == InputState::Idle,
            s@.failed_attempts == 0,
            !s@.input_timer,
            !s@.invalid_timer,
            !s@.cooldown_started,
    {
        Self::new()
    }
}

/// While authentication is being validated or a failure is shown, the ring
/// shows that, whatever the input state.
pub proof fn law_auth_state_takes_priority(auth: AuthState, i1: InputState, i2: InputState)
    requires
        auth != AuthState::Idle,
    ensures
        ring_state_for(auth, i1) == ring_state_for(auth, i2),
{
}

/// A cooldown of zero seconds is never in progress, and a cooldown is over
/// once its length has elapsed.
pub proof fn law_cooldown_ends(seconds: u64, elapsed_ms: u128)
    requires
        elapsed_ms >= seconds * 1000,
    ensures
        cooldown_left(seconds, elapsed_ms) == 0,
        cooldown_left(0, elapsed_ms) == 0,
{
}

/// While a cooldown lasts, the seconds left are the fewest whole seconds
/// that, added to the time elapsed, reach its length: at least one and at
/// most the length. As time passes they never grow.
pub proof fn law_cooldown_counts_down(seconds: u64, elapsed_ms: u128, later_ms: u128)
    requires
        elapsed_ms <= later_ms,
    ensures
        elapsed_ms < seconds * 1000 ==> {
            let left = cooldown_left(seconds, elapsed_ms);
            &&& 1 <= left <= seconds
            &&& elapsed_ms + left * 1000 >= seconds * 1000
            &&& elapsed_ms + (left - 1) * 1000 < seconds * 1000
        },
        cooldown_left(seconds, later_ms) <= cooldown_left(seconds, elapsed_ms),
{
    let total = seconds * 1000;
    if elapsed_ms < total {
        let left = cooldown_left(seconds, elapsed_ms);
        assert(left == (total - elapsed_ms + 999) / 1000);
        assert(1 <= left <= seconds && elapsed_ms + left * 1000 >= total && elapsed_ms + (left - 1)
            * 1000 < total) by (nonlinear_arith)
            requires
                left == (total - elapsed_ms + 999) / 1000,
                total == seconds * 1000,
                elapsed_ms < total,
        ;
        if later_ms < total {
            let l2 = cooldown_left(seconds, later_ms);
            assert(l2 <= left) by (nonlinear_arith)
                requires
                    left == (total - elapsed_ms + 999) / 1000,
                    l2 == (total - later_ms + 999) / 1000,
                    elapsed_ms <= later_ms,
            ;
        }
    }
}

} // verus!
