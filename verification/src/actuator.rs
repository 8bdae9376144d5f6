//! The shared actuator state: one mutable on/off value.
//!
//! The service owns exactly one piece of mutable state, the on/off value
//! of the actuator (an LED, or any logical output). Every connection
//! handler reaches it through an exclusive-access guard supplied by the
//! embedding program (a scoped borrow on a single-threaded executor, a
//! mutex under preemption); inside the guard each handler sees the value
//! through `&mut`, so each `toggle` is one atomic flip and no update can
//! be lost.

use vstd::prelude::*;

verus! {

/// The on/off state of the single actuator.
pub struct ActuatorState {
    /// Whether the actuator is currently on.
    pub on: bool,
}

/// The value of the actuator after `count` toggles starting from `initial`.
pub open spec fn toggled(initial: bool, count: nat) -> bool
    decreases count,
{
    if count == 0 {
        initial
    } else {
        !toggled(initial, (count - 1) as nat)
    }
}

impl ActuatorState {
    /// Create the state with a known initial value.
    pub fn new(initial: bool) -> (s: ActuatorState)
        ensures
            s.on == initial,
    {
        ActuatorState { on: initial }
    }

    /// Atomically flip the value and return the value that resulted
    /// from this flip. The caller holds exclusive access through `&mut`.
    pub fn toggle(&mut self) -> (r: bool)
        ensures
            final(self).on == !old(self).on,
            r == final(self).on,
    {
        self.on = !self.on;
        self.on
    }

    /// Read the current value without mutating it.
    pub fn get(&self) -> (r: bool)
        ensures
            r == self.on,
    {
        self.on
    }
}

/// Toggling twice returns to the starting value: a double toggle is the
/// identity on the actuator state.
pub proof fn lemma_double_toggle_identity(initial: bool)
    ensures
        toggled(initial, 2) == initial,
{
    lemma_toggle_count_parity(initial, 2);
}

/// A run of `count` toggles applies exactly `count` flips: the final
/// value is the initial value exactly when `count` is even. Because each
/// toggle happens under exclusive access, any interleaving of concurrent
/// toggle calls is some serial order of the same flips, so this fixes
/// the final state of every such run.
pub proof fn lemma_toggle_count_parity(initial: bool, count: nat)
    ensures
        toggled(initial, count) == if count % 2 == 0 {
            initial
        } else {
            !initial
        },
    decreases count,
{
    if count > 0 {
        lemma_toggle_count_parity(initial, (count - 1) as nat);
    }
}

} // verus!
