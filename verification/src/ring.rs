//! Ring indicator state: which colour the ring shows and which of its
//! segments is highlighted for keystroke feedback.

use vstd::prelude::*;

verus! {

/// Number of segments around the ring for keystroke feedback.
pub const NUM_SEGMENTS: usize = 12;

/// Ring indicator state.
#[derive(Debug, Clone, Copy, PartialEq, Eq, Structural, Default)]
pub enum RingState {
    /// Waiting for input (blue)
    #[default]
    Idle,
    /// Receiving password input (green)
    Typing,
    /// Verifying password with PAM (orange)
    Verifying,
    /// Authentication failed (red)
    Wrong,
    /// Backspace/clearing input (yellow)
    Clear,
}

impl RingState {
    /// The display name of this state.
    pub fn name(&self) -> (r: &'static str)
        ensures
            r@ == match *self {
                RingState::Idle => "idle"@,
                RingState::Typing => "typing"@,
                RingState::Verifying => "verifying"@,
                RingState::Wrong => "wrong"@,
                RingState::Clear => "clear"@,
            },
    {
        match self {
            RingState::Idle => "idle",
            RingState::Typing => "typing",
            RingState::Verifying => "verifying",
            RingState::Wrong => "wrong",
            RingState::Clear => "clear",
        }
    }
}

/// Segment highlighted after advancing from `h`.
pub open spec fn advanced(h: Option<usize>) -> Option<usize> {
    match h {
        Some(s) => Some(((s + 1) % NUM_SEGMENTS as int) as usize),
        None => Some(0),
    }
}

/// Segment highlighted after retreating from `h`.
pub open spec fn retreated(h: Option<usize>) -> Option<usize> {
    match h {
        Some(s) => if s == 0 {
            None
        } else {
            Some((s - 1) as usize)
        },
        None => None,
    }
}

/// A highlight names a segment of the ring, or none.
pub open spec fn valid_highlight(h: Option<usize>) -> bool {
    h matches Some(s) ==> s < NUM_SEGMENTS
}

/// What the ring shows: its state and the highlighted segment.
pub struct RingIndicator {
    state: RingState,
    highlight_segment: Option<usize>,
}

impl RingIndicator {
    #[verifier::type_invariant]
    spec fn inv(self) -> bool {
        valid_highlight(self.highlight_segment)
    }

    /// The state the ring shows.
    pub closed spec fn shown(&self) -> RingState {
        self.state
    }

    /// The highlighted segment, if any.
    pub closed spec fn highlight(&self) -> Option<usize> {
        self.highlight_segment
    }

    /// An idle ring with no highlight.
    pub fn new() -> (r: Self)
        ensures
            r.shown() == RingState::Idle,
            r.highlight() == None::<usize>,
    {
        RingIndicator { state: RingState::Idle, highlight_segment: None }
    }

    /// Sets the state the ring shows.
    pub fn set_state(&mut self, state: RingState)
        ensures
            final(self).shown() == state,
            final(self).highlight() == old(self).highlight(),
    {
        proof {
            use_type_invariant(&*self);
        }
        self.state = state;
    }

    /// The state the ring shows.
    pub fn state(&self) -> (r: RingState)
        ensures
            r == self.shown(),
    {
        self.state
    }

    /// The highlighted segment, if any.
    pub fn highlight_segment(&self) -> (r: Option<usize>)
        ensures
            r == self.highlight(),
            valid_highlight(r),
    {
        proof {
            use_type_invariant(self);
        }
        self.highlight_segment
    }

    /// Highlights a segment, taken modulo the number of segments, or none.
    pub fn set_highlight_segment(&mut self, segment: Option<usize>)
        ensures
            final(self).shown() == old(self).shown(),
            final(self).highlight() == match segment {
                Some(s) => Some((s % NUM_SEGMENTS) as usize),
                None => None,
            },
    {
        self.highlight_segment = match segment {
            Some(s) => Some(s % NUM_SEGMENTS),
            None => None,
        };
    }

    /// Moves the highlight to the next segment, starting at the first.
    pub fn advance_highlight(&mut self)
        ensures
            final(self).shown() == old(self).shown(),
            final(self).highlight() == advanced(old(self).highlight()),
    {
        proof {
            use_type_invariant(&*self);
        }
        self.highlight_segment = match self.highlight_segment {
            Some(s) => Some((s + 1) % NUM_SEGMENTS),
            None => Some(0),
        };
    }

    /// Moves the highlight to the previous segment; from the first segment
    /// the highlight is cleared.
    pub fn retreat_highlight(&mut self)
        ensures
            final(self).shown() == old(self).shown(),
            final(self).highlight() == retreated(old(self).highlight()),
    {
        proof {
            use_type_invariant(&*self);
        }
        self.highlight_segment = match self.highlight_segment {
            Some(s) => if s == 0 {
                None
            } else {
                Some(s - 1)
            },
            None => None,
        };
    }

    /// Clears the highlight.
    pub fn clear_highlight(&mut self)
        ensures
            final(self).shown() == old(self).shown(),
            final(self).highlight() == None::<usize>,
    {
        self.highlight_segment = None;
    }
}

/// Retreating undoes advancing, except from the last segment, where advancing
/// wraps around to the first and retreating then clears the highlight.
pub proof fn law_retreat_undoes_advance(h: Option<usize>)
    requires
        valid_highlight(h),
        h matches Some(s) ==> s + 1 < NUM_SEGMENTS,
    ensures
        retreated(advanced(h)) == h,
{
}

/// Advancing and retreating keep the highlight on a segment of the ring.
pub proof fn law_highlight_stays_on_ring(h: Option<usize>)
    requires
        valid_highlight(h),
    ensures
        valid_highlight(advanced(h)),
        valid_highlight(retreated(h)),
{
}

} // verus!
