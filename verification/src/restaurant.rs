//! A restaurant laid out as a tree of modules: what goes on in front of the
//! house and what goes on behind it.

pub mod back_of_house;
pub mod front_of_house;

use vstd::prelude::*;

verus! {

/// A guest eats at the restaurant, which starts with the waiting list.
pub fn eat_at_restaurant() {
    crate::restaurant::front_of_house::hosting::add_to_waitlist();
    front_of_house::hosting::add_to_waitlist();
}

/// Brings an order to the table.
pub fn serve_order() {
}

} // verus!
