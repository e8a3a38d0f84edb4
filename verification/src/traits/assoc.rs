//! An iterator trait whose item type is an associated type: a type can
//! implement it once.

use vstd::prelude::*;
use crate::traits::Foo;

verus! {

pub trait Iterator {
    type Item;

    fn next(&mut self) -> Option<Self::Item>;
}

impl Iterator for Foo {
    type Item = u32;

    /// There is never a next item.
    fn next(&mut self) -> (item: Option<Self::Item>)
        ensures
            item is None,
    {
        None
    }
}

} // verus!
