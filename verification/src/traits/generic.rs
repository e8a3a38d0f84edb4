//! An iterator trait whose item type is a type parameter: a type can
//! implement it once for every item type.

use vstd::prelude::*;
use crate::traits::Foo;

verus! {

pub trait Iterator<T> {
    fn next(&mut self) -> Option<T>;
}

impl Iterator<u32> for Foo {
    /// There is never a next item.
    fn next(&mut self) -> Option<u32>
        returns
            None::<u32>,
    {
        None
    }
}

impl Iterator<String> for Foo {
    /// There is never a next item.
    fn next(&mut self) -> Option<String>
        returns
            None::<String>,
    {
        None
    }
}

} // verus!
