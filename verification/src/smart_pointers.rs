//! A box of one's own: a wrapper that owns a value and can be dereferenced
//! to it.

use std::ops::Deref;
use vstd::prelude::*;

verus! {

/// A list of integers in which each cell owns the rest of the list.
pub enum List {
    Cons(i32, Box<List>),
    Nil,
}

/// Owns one value.
pub struct MyBox<T>(pub T);

impl<T> MyBox<T> {
    /// Wraps `x`.
    pub fn new(x: T) -> (boxed: MyBox<T>)
        ensures
            boxed.0 == x,
    {
        MyBox(x)
    }
}

impl<T> Deref for MyBox<T> {
    type Target = T;

    /// A reference to the value inside.
    fn deref(&self) -> (inner: &T)
        ensures
            *inner == self.0,
    {
        &self.0
    }
}

} // verus!
