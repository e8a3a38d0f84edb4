//! Waiting on guests.

use vstd::prelude::*;

verus! {

pub fn take_order() {
}

pub fn serve_order() {
}

pub fn take_payment() {
}

} // verus!
