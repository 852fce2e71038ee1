use garlock::ring::{RingIndicator, RingState, NUM_SEGMENTS};

#[test]
fn highlight_advances_and_wraps() {
    let mut r = RingIndicator::new();
    assert_eq!(r.highlight_segment(), None);
    r.advance_highlight();
    assert_eq!(r.highlight_segment(), Some(0));
    for _ in 0..NUM_SEGMENTS - 1 {
        r.advance_highlight();
    }
    assert_eq!(r.highlight_segment(), Some(11));
    r.advance_highlight();
    assert_eq!(r.highlight_segment(), Some(0));
}

#[test]
fn retreat_undoes_advance() {
    let mut r = RingIndicator::new();
    r.advance_highlight();
    r.advance_highlight();
    r.advance_highlight();
    assert_eq!(r.highlight_segment(), Some(2));
    r.retreat_highlight();
    assert_eq!(r.highlight_segment(), Some(1));
    r.retreat_highlight();
    r.retreat_highlight();
    assert_eq!(r.highlight_segment(), None);
    r.retreat_highlight();
    assert_eq!(r.highlight_segment(), None);
}

#[test]
fn set_highlight_wraps_and_clears() {
    let mut r = RingIndicator::new();
    r.set_highlight_segment(Some(25));
    assert_eq!(r.highlight_segment(), Some(1));
    r.set_state(RingState::Wrong);
    assert_eq!(r.state(), RingState::Wrong);
    r.clear_highlight();
    assert_eq!(r.highlight_segment(), None);
    r.set_highlight_segment(None);
    assert_eq!(r.highlight_segment(), None);
    assert_eq!(r.state(), RingState::Wrong);
}
