//! What the background watcher tells the event loop, and which file
//! changes it passes on.

use crate::config::Config;
use vstd::prelude::*;

verus! {

/// An event sent to the event loop from outside it.
#[derive(Debug, Clone)]
pub enum ExternalEvent {
    /// A periodic wake-up that carries nothing.
    Idle,
    /// The configuration file changed; this is what it now holds.
    ChangeConfig(Config),
}

impl Default for ExternalEvent {
    fn default() -> (e: Self)
        ensures
            e is Idle,
    {
        ExternalEvent::Idle
    }
}

/// How long after a handled change of the watched file further changes
/// are passed over: 100 milliseconds, in nanoseconds.
pub const CHANGE_DEBOUNCE_NANOS: u128 = 100_000_000;

/// Whether a file-system event is handled: it must be a modification,
/// coming more than [`CHANGE_DEBOUNCE_NANOS`] after the last handled one.
/// A handled event starts a new quiet period.
pub fn handles_change(is_modify: bool, nanos_since_last: u128) -> (handled: bool)
    ensures
        handled == (is_modify && nanos_since_last > CHANGE_DEBOUNCE_NANOS),
{
    is_modify && nanos_since_last > CHANGE_DEBOUNCE_NANOS
}

} // verus!
