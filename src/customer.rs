//! What a guest does on arrival.

use vstd::prelude::*;
use crate::front_of_house::hosting;

verus! {

/// Seats a guest, who first goes on the waiting list.
pub fn get_seated() {
    hosting::add_to_waitlist();
}

} // verus!
