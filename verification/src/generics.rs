//! Functions and types that work for more than one type.

use std::cmp::Ordering;
use vstd::prelude::*;
use vstd::std_specs::cmp::PartialOrdSpec;
use vstd::string::StringExecFns;

verus! {

/// Whether `a` is greater than `b` in the order of `T`.
pub open spec fn exceeds<T: PartialOrd>(a: T, b: T) -> bool {
    a.partial_cmp_spec(&b) == Some(Ordering::Greater)
}

/// The position of the item that a scan from the front ends up with when it
/// starts with the first item and moves on to an item whenever that item is
/// greater than the one it holds.
pub open spec fn largest_index<T: PartialOrd>(list: Seq<T>) -> int
    decreases list.len(),
{
    if list.len() <= 1 {
        0
    } else {
        let best = largest_index(list.drop_last());
        if exceeds(list.last(), list[best]) {
            list.len() - 1
        } else {
            best
        }
    }
}

/// The scan ends within the list.
pub proof fn lemma_largest_index_in_range<T: PartialOrd>(list: Seq<T>)
    requires
        list.len() > 0,
    ensures
        0 <= largest_index(list) < list.len(),
    decreases list.len(),
{
    if list.len() > 1 {
        lemma_largest_index_in_range(list.drop_last());
    }
}

/// In an order that is irreflexive and transitive on the items of the list,
/// no item of the list is greater than the one the scan ends up with.
pub proof fn lemma_largest_is_maximal<T: PartialOrd>(list: Seq<T>, j: int)
    requires
        list.len() > 0,
        0 <= j < list.len(),
        forall|a: int| 0 <= a < list.len() ==> !exceeds(#[trigger] list[a], list[a]),
        forall|a: int, b: int, c: int|
            0 <= a < list.len() && 0 <= b < list.len() && 0 <= c < list.len() && #[trigger] exceeds(
                list[a],
                list[b],
            ) && #[trigger] exceeds(list[b], list[c]) ==> exceeds(list[a], list[c]),
    ensures
        !exceeds(list[j], list[largest_index(list)]),
    decreases list.len(),
{
    if list.len() > 1 {
        let front = list.drop_last();
        lemma_largest_index_in_range(front);
        let best = largest_index(front);
        assert(forall|a: int| 0 <= a < front.len() ==> front[a] == list[a]);
        if j < front.len() {
            lemma_largest_is_maximal(front, j);
            if exceeds(list.last(), list[best]) {
                if exceeds(list[j], list.last()) {
                    assert(exceeds(list[j], list[list.len() - 1]));
                    assert(exceeds(list[list.len() - 1], list[best]));
                    assert(exceeds(list[j], list[best]));
                }
            }
        } else {
            if exceeds(list.last(), list[best]) {
                assert(!exceeds(list[list.len() - 1], list[list.len() - 1]));
            }
        }
    } else {
        assert(!exceeds(list[0], list[0]));
    }
}

/// The largest item of a non-empty list, found by one scan from the front;
/// of several largest items the first.
pub fn largest<T: PartialOrd>(list: &[T]) -> (item: &T)
    requires
        list@.len() > 0,
    ensures
        T::obeys_partial_cmp_spec() ==> *item == list@[largest_index(list@)],
        exists|i: int| 0 <= i < list@.len() && *item == list@[i],
{
    let mut largest = &list[0];
    let ghost mut at: int = 0;
    let ghost mut seen: int = 0;
    let mut i: usize = 0;
    while i < list.len()
        invariant
            seen == i,
            i <= list@.len(),
            0 <= at < list@.len(),
            *largest == list@[at],
            T::obeys_partial_cmp_spec() ==> at == largest_index(list@.take(seen)),
        decreases list@.len() - i,
    {
        let item = &list[i];
        proof {
            let prefix = list@.take(seen + 1);
            assert(prefix.drop_last() =~= list@.take(seen));
            assert(prefix.last() == *item);
            if seen > 0 && T::obeys_partial_cmp_spec() {
                lemma_largest_index_in_range(list@.take(seen));
                assert(prefix[largest_index(list@.take(seen))] == *largest);
            }
        }
        if item > largest {
            largest = item;
            proof {
                at = seen;
            }
        }
        i += 1;
        proof {
            seen = seen + 1;
        }
    }
    assert(list@.take(seen) =~= list@);
    largest
}

/// A point whose two coordinates share a type.
#[derive(Debug)]
pub struct Point<T> {
    pub x: T,
    pub y: T,
}

impl Point<i32> {
    /// The sum of the two coordinates.
    pub fn sum(&self) -> (total: i32)
        requires
            i32::MIN <= self.x + self.y <= i32::MAX,
        ensures
            total == self.x + self.y,
    {
        self.x + self.y
    }
}

impl<'a> Point<&'a str> {
    /// The two coordinates joined by a hyphen.
    pub fn concat(&self) -> (joined: String)
        ensures
            joined@ == self.x@ + "-"@ + self.y@,
    {
        let mut joined = String::from_str(self.x);
        joined.append("-");
        joined.append(self.y);
        joined
    }
}

/// The longer of two string slices, measured in bytes; the second where they
/// are equally long.
pub fn longest<'a>(x: &'a str, y: &'a str) -> (longer: &'a str)
    ensures
        longer == if x.len() > y.len() {
            x
        } else {
            y
        },
{
    if x.len() > y.len() {
        x
    } else {
        y
    }
}

} // verus!
