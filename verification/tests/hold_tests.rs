use volev::hold::{ChannelOp, HoldMachine, SkipDirection, HOLD_TIMEOUT_MS};

const KEY_VOLUMEDOWN: u16 = 114;
const KEY_VOLUMEUP: u16 = 115;

#[test]
fn hold_deadline_is_700_ms() {
    assert_eq!(HOLD_TIMEOUT_MS, 700);
}

#[test]
fn short_press_grabs_then_ungrabs() {
    // Press then release before the deadline: grab, ungrab, no skip action.
    let mut m = HoldMachine::new(KEY_VOLUMEDOWN, SkipDirection::Backward);
    assert_eq!(m.on_event(KEY_VOLUMEDOWN, 1, false), Some(ChannelOp::Grab));
    assert!(m.held);
    assert_eq!(m.on_event(KEY_VOLUMEDOWN, 0, false), Some(ChannelOp::Ungrab));
    assert!(!m.held);
    // the timeout is polled only while held, so it never fires here
}

#[test]
fn hold_past_deadline_emits_backward_once() {
    // Press with no release before the deadline: one skip-backward, the
    // hold flag clears, and the device stays grabbed until the release.
    let mut m = HoldMachine::new(KEY_VOLUMEDOWN, SkipDirection::Backward);
    assert_eq!(m.on_event(KEY_VOLUMEDOWN, 1, false), Some(ChannelOp::Grab));
    assert!(m.held);
    let dir = m.on_timeout();
    assert_eq!(dir, SkipDirection::Backward);
    assert!(!m.held);
    // no ungrab was demanded by the timeout; the eventual release does it
    assert_eq!(m.on_event(KEY_VOLUMEDOWN, 0, false), Some(ChannelOp::Ungrab));
    assert!(!m.held);
}

#[test]
fn interactive_press_is_bypassed() {
    // While the host is interactive no event does anything at all.
    let mut m = HoldMachine::new(KEY_VOLUMEDOWN, SkipDirection::Backward);
    assert_eq!(m.on_event(KEY_VOLUMEDOWN, 1, true), None);
    assert!(!m.held);
    assert_eq!(m.on_event(KEY_VOLUMEDOWN, 0, true), None);
    assert!(!m.held);
}

#[test]
fn timeout_fires_exactly_once_per_hold() {
    // However long the button stays down past the deadline, the timer is
    // polled only while held, so the skip action fires once.
    let mut m = HoldMachine::new(KEY_VOLUMEUP, SkipDirection::Forward);
    assert_eq!(m.on_event(KEY_VOLUMEUP, 1, false), Some(ChannelOp::Grab));
    let mut skips = 0u32;
    for _ in 0..5 {
        if m.held {
            assert_eq!(m.on_timeout(), SkipDirection::Forward);
            skips += 1;
        }
    }
    assert_eq!(skips, 1);
}

#[test]
fn repeat_value_is_ignored() {
    let mut m = HoldMachine::new(KEY_VOLUMEUP, SkipDirection::Forward);
    assert_eq!(m.on_event(KEY_VOLUMEUP, 1, false), Some(ChannelOp::Grab));
    assert_eq!(m.on_event(KEY_VOLUMEUP, 2, false), None);
    assert!(m.held);
}

#[test]
fn alien_code_is_ignored() {
    let mut m = HoldMachine::new(KEY_VOLUMEUP, SkipDirection::Forward);
    assert_eq!(m.on_event(KEY_VOLUMEDOWN, 1, false), None);
    assert!(!m.held);
}

#[test]
fn re_press_while_held_grabs_again() {
    let mut m = HoldMachine::new(KEY_VOLUMEUP, SkipDirection::Forward);
    assert_eq!(m.on_event(KEY_VOLUMEUP, 1, false), Some(ChannelOp::Grab));
    assert_eq!(m.on_event(KEY_VOLUMEUP, 1, false), Some(ChannelOp::Grab));
    assert!(m.held);
}

#[test]
fn new_hold_after_timeout_needs_new_press() {
    // After a timeout fired, only a fresh press re-arms the cycle.
    let mut m = HoldMachine::new(KEY_VOLUMEUP, SkipDirection::Forward);
    m.on_event(KEY_VOLUMEUP, 1, false);
    m.on_timeout();
    assert!(!m.held);
    assert_eq!(m.on_event(KEY_VOLUMEUP, 1, false), Some(ChannelOp::Grab));
    assert!(m.held);
    assert_eq!(m.on_timeout(), SkipDirection::Forward);
}
