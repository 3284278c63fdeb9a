//! The front of house of a restaurant: seating guests and taking orders.
use vstd::prelude::*;

verus! {

/// Puts a guest on the waiting list.
pub fn add_to_waitlist() {
}

/// Takes a table's order.
pub fn take_order() {
}

/// A guest's visit: the order is taken, then the next guest waits.
pub fn eat_at_restaurant() {
    take_order();
    add_to_waitlist();
}

/// A guest eats, and another is put on the waiting list.
pub fn eat_somegthing() {
    eat_at_restaurant();
    add_to_waitlist();
}

/// Adds two counts.
pub fn add(left: usize, right: usize) -> (r: usize)
    requires
        left + right <= usize::MAX,
    ensures
        r == left + right,
{
    left + right
}

} // verus!
