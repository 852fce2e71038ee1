//! The decisions of a lock session: how each key press and each
//! authentication result changes the password, the state machines and the
//! ring, and when a password is handed over for verification.

use vstd::prelude::*;

use crate::auth::AuthResult;
use crate::keyboard::KeyResult;
use crate::password::Password;
use crate::ring::{advanced, retreated, RingIndicator, RingState};
use crate::state::{ring_state_for, AuthState, InputState, LockerState};

verus! {

/// What the event loop has to do after a key press.
pub struct KeyOutcome {
    /// The screen has to be drawn again.
    pub redraw: bool,
    /// A password to verify, when the key submitted one.
    pub submit: Option<String>,
}

/// The password, the state machines and the ring of a locked screen.
pub struct LockSession {
    pub password: Password,
    pub state: LockerState,
    pub ring: RingIndicator,
}

/// The session after an input event: the password is `pw`, the input state
/// is `input` with its timer restarted, and the ring shows the new state with
/// highlight `highlight`.
pub open spec fn after_input(
    pre: &LockSession,
    post: &LockSession,
    pw: Seq<char>,
    input: InputState,
    highlight: Option<usize>,
) -> bool {
    &&& post.password@ == pw
    &&& post.state@.input == input
    &&& post.state@.input_timer
    &&& post.state@.auth == pre.state@.auth
    &&& post.state@.failed_attempts == pre.state@.failed_attempts
    &&& post.state@.invalid_timer == pre.state@.invalid_timer
    &&& post.state@.cooldown_started == pre.state@.cooldown_started
    &&& post.state@.cooldown_length == pre.state@.cooldown_length
    &&& post.ring.shown() == ring_state_for(pre.state@.auth, input)
    &&& post.ring.highlight() == highlight
}

/// Nothing but the password and the highlight changed.
pub open spec fn only_password_and_highlight(
    pre: &LockSession,
    post: &LockSession,
    pw: Seq<char>,
    highlight: Option<usize>,
) -> bool {
    &&& post.password@ == pw
    &&& post.state@ == pre.state@
    &&& post.ring.shown() == pre.ring.shown()
    &&& post.ring.highlight() == highlight
}

/// Nothing changed.
pub open spec fn unchanged(pre: &LockSession, post: &LockSession) -> bool {
    &&& post.password@ == pre.password@
    &&& post.state@ == pre.state@
    &&& post.ring.shown() == pre.ring.shown()
    &&& post.ring.highlight() == pre.ring.highlight()
}

/// How a key press changes the session from `pre` to `post`, given whether an
/// authentication is pending and whether a cooldown is in progress.
pub open spec fn key_step(
    pre: &LockSession,
    post: &LockSession,
    key: KeyResult,
    auth_pending: bool,
    in_cooldown: bool,
    out: &KeyOutcome,
) -> bool {
    &&& post.password.capacity() == pre.password.capacity()
    &&& match key {
        KeyResult::Char(c) => {
            let fits = pre.password.byte_len() + crate::password::char_utf8_len(c)
                <= pre.password.capacity();
            &&& out.redraw == fits
            &&& out.submit is None
            &&& if fits {
                after_input(
                    pre,
                    post,
                    pre.password@.push(c),
                    InputState::Letter,
                    advanced(pre.ring.highlight()),
                )
            } else {
                unchanged(pre, post)
            }
        },
        KeyResult::Backspace => {
            &&& out.redraw
            &&& out.submit is None
            &&& if pre.password@.len() > 0 {
                after_input(
                    pre,
                    post,
                    pre.password@.drop_last(),
                    InputState::Backspace,
                    retreated(pre.ring.highlight()),
                )
            } else {
                after_input(pre, post, pre.password@, InputState::Clear, None)
            }
        },
        KeyResult::Clear => {
            &&& out.redraw
            &&& out.submit is None
            &&& after_input(pre, post, Seq::empty(), InputState::Clear, None)
        },
        KeyResult::Enter => if in_cooldown {
            &&& out.redraw
            &&& out.submit is None
            &&& only_password_and_highlight(pre, post, Seq::empty(), None)
        } else if pre.password@.len() > 0 && !auth_pending {
            &&& out.redraw
            &&& out.submit matches Some(s) && s@ == pre.password@
            &&& post.password@ == Seq::<char>::empty()
            &&& post.state@ == (crate::state::LockerModel {
                auth: AuthState::Validating,
                ..pre.state@
            })
            &&& post.ring.shown() == RingState::Verifying
            &&& post.ring.highlight() == None::<usize>
        } else {
            &&& !out.redraw
            &&& out.submit is None
            &&& unchanged(pre, post)
        },
        KeyResult::Modifier => {
            &&& !out.redraw
            &&& out.submit is None
            &&& post.password@ == pre.password@
            &&& post.state@ == (crate::state::LockerModel {
                input: InputState::Neutral,
                input_timer: true,
                ..pre.state@
            })
            &&& post.ring.shown() == pre.ring.shown()
            &&& post.ring.highlight() == pre.ring.highlight()
        },
        KeyResult::Escape | KeyResult::Ignored => {
            &&& !out.redraw
            &&& out.submit is None
            &&& unchanged(pre, post)
        },
    }
}

impl LockSession {
    /// Well-formed password buffer.
    pub open spec fn wf(&self) -> bool {
        self.password.wf()
    }

    /// A session with an empty default password buffer, idle states and an
    /// idle ring.
    pub fn new() -> (s: Self)
        ensures
            s.wf(),
            s.password@ == Seq::<char>::empty(),
            s.state@.auth == AuthState::Idle,
            s.state@.input == InputState::Idle,
            s.state@.failed_attempts == 0,
            !s.state@.cooldown_started,
            s.ring.shown() == RingState::Idle,
            s.ring.highlight() == None::<usize>,
    {
        LockSession { password: Password::new(), state: LockerState::new(), ring: RingIndicator::new() }
    }

    /// Records an input event and shows its ring state.
    fn input_event(&mut self, input: InputState)
        ensures
            final(self).password == old(self).password,
            final(self).state@.input == input,
            final(self).state@.input_timer,
            final(self).state@.auth == old(self).state@.auth,
            final(self).state@.failed_attempts == old(self).state@.failed_attempts,
            final(self).state@.invalid_timer == old(self).state@.invalid_timer,
            final(self).state@.cooldown_started == old(self).state@.cooldown_started,
            final(self).state@.cooldown_length == old(self).state@.cooldown_length,
            final(self).ring.shown() == ring_state_for(old(self).state@.auth, input),
            final(self).ring.highlight() == old(self).ring.highlight(),
    {
        self.state.on_input(input);
        let rs = self.state.ring_state();
        self.ring.set_state(rs);
    }

    /// Handles a key press, given whether an authentication is pending and
    /// whether a cooldown is in progress.
    pub fn on_key_with_cooldown(&mut self, key: KeyResult, auth_pending: bool, in_cooldown: bool) -> (out:
        KeyOutcome)
        requires
            old(self).wf(),
        ensures
            final(self).wf(),
            key_step(old(self), final(self), key, auth_pending, in_cooldown, &out),
    {
        match key {
            KeyResult::Char(c) => {
                if self.password.push(c) {
                    self.input_event(InputState::Letter);
                    self.ring.advance_highlight();
                    KeyOutcome { redraw: true, submit: None }
                } else {
                    KeyOutcome { redraw: false, submit: None }
                }
            },
            KeyResult::Backspace => {
                if self.password.pop() {
                    self.input_event(InputState::Backspace);
                    self.ring.retreat_highlight();
                } else {
                    self.input_event(InputState::Clear);
                    self.ring.clear_highlight();
                }
                KeyOutcome { redraw: true, submit: None }
            },
            KeyResult::Clear => {
                self.password.clear();
                self.input_event(InputState::Clear);
                self.ring.clear_highlight();
                KeyOutcome { redraw: true, submit: None }
            },
            KeyResult::Enter => {
                if in_cooldown {
                    self.password.clear();
                    self.ring.clear_highlight();
                    KeyOutcome { redraw: true, submit: None }
                } else if !self.password.is_empty() && !auth_pending {
                    self.state.start_validation();
                    let rs = self.state.ring_state();
                    self.ring.set_state(rs);
                    let submitted = String::from_str(self.password.as_str());
                    self.password.clear();
                    self.ring.clear_highlight();
                    KeyOutcome { redraw: true, submit: Some(submitted) }
                } else {
                    KeyOutcome { redraw: false, submit: None }
                }
            },
            KeyResult::Modifier => {
                self.state.on_input(InputState::Neutral);
                KeyOutcome { redraw: false, submit: None }
            },
            KeyResult::Escape | KeyResult::Ignored => KeyOutcome { redraw: false, submit: None },
        }
    }

    /// Handles a key press, reading the cooldown from the clock when Enter is
    /// pressed.
    pub fn on_key(&mut self, key: KeyResult, auth_pending: bool) -> (out: KeyOutcome)
        requires
            old(self).wf(),
        ensures
            final(self).wf(),
            exists|in_cooldown: bool|
                {
                    &&& key_step(old(self), final(self), key, auth_pending, in_cooldown, &out)
                    &&& in_cooldown ==> key == KeyResult::Enter
                        && old(self).state@.cooldown_started && old(self).state@.cooldown_length > 0
                },
    {
        let in_cooldown = match key {
            KeyResult::Enter => self.state.is_in_cooldown(),
            _ => false,
        };
        self.on_key_with_cooldown(key, auth_pending, in_cooldown)
    }

    /// Handles the result of an authentication. Returns `true` when the screen
    /// is to be unlocked. A failure is counted and shown; once the failures
    /// reach `max_attempts`, a cooldown of `cooldown_seconds` starts.
    pub fn on_auth_result(&mut self, result: AuthResult, max_attempts: u32, cooldown_seconds: u32) -> (unlocked: bool)
        requires
            old(self).wf(),
            result is Failure ==> old(self).state@.failed_attempts < u32::MAX,
        ensures
            final(self).wf(),
            final(self).password@ == old(self).password@,
            final(self).ring.highlight() == old(self).ring.highlight(),
            unlocked == (result is Success),
            match result {
                AuthResult::Success => {
                    &&& final(self).state@ == (crate::state::LockerModel {
                        auth: AuthState::Idle,
                        failed_attempts: 0,
                        ..old(self).state@
                    })
                    &&& final(self).ring.shown() == old(self).ring.shown()
                },
                AuthResult::Failure(_) => {
                    let failed = (old(self).state@.failed_attempts + 1) as u32;
                    &&& final(self).state@.auth == AuthState::Invalid
                    &&& final(self).state@.failed_attempts == failed
                    &&& final(self).state@.input == old(self).state@.input
                    &&& final(self).state@.invalid_timer
                    &&& final(self).state@.input_timer == old(self).state@.input_timer
                    &&& if failed >= max_attempts {
                        final(self).state@.cooldown_started
                            && final(self).state@.cooldown_length == cooldown_seconds
                    } else {
                        final(self).state@.cooldown_started == old(self).state@.cooldown_started
                            && final(self).state@.cooldown_length == old(self).state@.cooldown_length
                    }
                    &&& final(self).ring.shown() == RingState::Wrong
                },
            },
    {
        match result {
            AuthResult::Success => {
                self.state.on_auth_success();
                true
            },
            AuthResult::Failure(_) => {
                self.state.on_auth_failure();
                let rs = self.state.ring_state();
                self.ring.set_state(rs);
                if self.state.failed_attempts() >= max_attempts {
                    self.state.start_cooldown(cooldown_seconds as u64);
                }
                false
            },
        }
    }

    /// Shows the ring state of the current states.
    pub fn sync_ring(&mut self)
        ensures
            final(self).password == old(self).password,
            final(self).state == old(self).state,
            final(self).ring.shown() == ring_state_for(old(self).state@.auth, old(self).state@.input),
            final(self).ring.highlight() == old(self).ring.highlight(),
    {
        let rs = self.state.ring_state();
        self.ring.set_state(rs);
    }

    /// Applies the timeouts by the clock; returns whether a state changed.
    pub fn tick(&mut self) -> (changed: bool)
        ensures
            final(self).password == old(self).password,
            final(self).ring == old(self).ring,
            final(self).state@.input == old(self).state@.input || final(self).state@.input
                == InputState::Idle,
            final(self).state@.auth == old(self).state@.auth || (final(self).state@.auth
                == AuthState::Idle && old(self).state@.auth == AuthState::Invalid),
            final(self).state@.failed_attempts == old(self).state@.failed_attempts,
            changed == (final(self).state@.input != old(self).state@.input || final(self).state@.auth != old(self).state@.auth),
            exists|input_ms: u128, invalid_ms: u128|
                crate::state::timers_step(
                    old(self).state@,
                    final(self).state@,
                    input_ms,
                    invalid_ms,
                    changed,
                ),
    {
        self.state.update_timers()
    }
}

/// A password is handed over for verification only when no cooldown is in
/// progress, no other verification is pending and the password is not empty;
/// it is then exactly the password typed, and the buffer is emptied.
pub proof fn law_submission_guarded(
    pre: &LockSession,
    post: &LockSession,
    key: KeyResult,
    auth_pending: bool,
    in_cooldown: bool,
    out: &KeyOutcome,
)
    requires
        key_step(pre, post, key, auth_pending, in_cooldown, out),
    ensures
        out.submit matches Some(s) ==> {
            &&& key == KeyResult::Enter
            &&& !in_cooldown
            &&& !auth_pending
            &&& pre.password@.len() > 0
            &&& s@ == pre.password@
            &&& post.password@.len() == 0
            &&& post.state@.auth == AuthState::Validating
        },
{
}

/// Enter during a cooldown wipes the typed password and submits nothing.
pub proof fn law_cooldown_discards_password(
    pre: &LockSession,
    post: &LockSession,
    auth_pending: bool,
    out: &KeyOutcome,
)
    requires
        key_step(pre, post, KeyResult::Enter, auth_pending, true, out),
    ensures
        out.submit is None,
        post.password@.len() == 0,
        post.state@ == pre.state@,
{
}

} // verus!
