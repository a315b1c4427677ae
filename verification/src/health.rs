//! The health flag: one boolean with two operations, read and toggle.
//!
//! The flag starts healthy. It cannot be set to a chosen value: it can only
//! be flipped. `toggle` takes the flag by `&mut`, so a flag that several
//! threads share sits behind a lock, and each toggle is one step that no
//! other caller can split.

use vstd::prelude::*;

verus! {

/// The flag after `n` toggles, starting from `initial`.
pub open spec fn after_toggles(initial: bool, n: nat) -> bool
    decreases n,
{
    if n == 0 {
        initial
    } else {
        !after_toggles(initial, (n - 1) as nat)
    }
}

/// After `n` toggles the flag is where it started if `n` is even, and flipped
/// if `n` is odd: no toggle is lost, and none counts twice.
pub proof fn lemma_toggle_parity(initial: bool, n: nat)
    ensures
        after_toggles(initial, n) == (if n % 2 == 0 {
            initial
        } else {
            !initial
        }),
    decreases n,
{
    if n > 0 {
        lemma_toggle_parity(initial, (n - 1) as nat);
    }
}

/// Toggles issued by several callers take effect in some order, one after
/// the other. Whatever that order, `first` toggles followed by `second`
/// toggles leave the flag where `first + second` toggles leave it.
pub proof fn lemma_toggles_add_up(initial: bool, first: nat, second: nat)
    ensures
        after_toggles(after_toggles(initial, first), second) == after_toggles(
            initial,
            first + second,
        ),
        after_toggles(after_toggles(initial, first), second) == after_toggles(
            after_toggles(initial, second),
            first,
        ),
{
    lemma_toggle_parity(initial, first);
    lemma_toggle_parity(initial, second);
    lemma_toggle_parity(initial, first + second);
    lemma_toggle_parity(after_toggles(initial, first), second);
    lemma_toggle_parity(after_toggles(initial, second), first);
}

/// The health flag of the service.
pub struct HealthState {
    healthy: bool,
}

impl HealthState {
    /// What the flag holds.
    pub closed spec fn is_healthy(&self) -> bool {
        self.healthy
    }

    /// A flag in its initial state, healthy.
    pub fn new() -> (state: HealthState)
        ensures
            state.is_healthy(),
    {
        HealthState { healthy: true }
    }

    /// Reads the flag.
    pub fn read(&self) -> (healthy: bool)
        ensures
            healthy == self.is_healthy(),
    {
        self.healthy
    }

    /// Flips the flag and returns the new value.
    pub fn toggle(&mut self) -> (healthy: bool)
        ensures
            final(self).is_healthy() == !old(self).is_healthy(),
            final(self).is_healthy() == after_toggles(old(self).is_healthy(), 1),
            healthy == final(self).is_healthy(),
    {
        proof {
            reveal_with_fuel(after_toggles, 2);
        }
        self.healthy = !self.healthy;
        self.healthy
    }
}

} // verus!
