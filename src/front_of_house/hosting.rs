//! Receiving guests.

use vstd::prelude::*;

verus! {

/// Puts a party on the waiting list; the list itself is not modelled, so
/// nothing is recorded.
pub fn add_to_waitlist() {
}

} // verus!
