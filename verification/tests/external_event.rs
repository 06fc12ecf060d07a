use cava::external_event::{handles_change, ExternalEvent, CHANGE_DEBOUNCE_NANOS};

#[test]
fn default_event_is_idle() {
    assert!(matches!(ExternalEvent::default(), ExternalEvent::Idle));
}

#[test]
fn changes_are_debounced() {
    assert!(handles_change(true, 10_000_000_000));
    assert!(handles_change(true, CHANGE_DEBOUNCE_NANOS + 1));
    assert!(!handles_change(true, CHANGE_DEBOUNCE_NANOS));
    assert!(!handles_change(true, 5_000_000));
    assert!(!handles_change(false, 10_000_000_000));
}
