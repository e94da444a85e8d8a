//! The largest element of a list over any type that can be compared.
use vstd::prelude::*;
use std::cmp::Ordering;
use vstd::std_specs::cmp::PartialOrdSpec;
use crate::generics::Pair;

verus! {

/// Whether `a` compares as greater than `b`.
pub open spec fn is_greater<T: PartialOrd>(a: T, b: T) -> bool {
    a.partial_cmp_spec(&b) == Some(Ordering::Greater)
}

/// The position of the largest among the elements of `list` up to position
/// `n`: the first of them that no later one exceeds.
pub open spec fn largest_index<T: PartialOrd>(list: Seq<T>, n: int) -> int
    decreases n,
{
    if n <= 0 {
        0
    } else {
        let k = largest_index(list, n - 1);
        if is_greater(list[n], list[k]) {
            n
        } else {
            k
        }
    }
}

/// The largest element of a list that is not empty: the first element that
/// no later one exceeds.
pub fn largest<T: PartialOrd>(list: &[T]) -> (largest: &T)
    requires
        list@.len() > 0,
    ensures
        exists|k: int| 0 <= k < list@.len() && list@[k] == *largest,
        T::obeys_partial_cmp_spec() ==> *largest == list@[largest_index(
            list@,
            list@.len() - 1,
        )],
{
    let mut largest = &list[0];
    let ghost mut k: int = 0;
    let ghost mut n: int = 1;
    let mut i: usize = 1;
    while i < list.len()
        invariant
            1 <= i <= list@.len(),
            n == i,
            0 <= k < n,
            list@[k] == *largest,
            T::obeys_partial_cmp_spec() ==> k == largest_index(list@, n - 1),
        decreases list@.len() - i,
    {
        let item = &list[i];
        if *item > *largest {
            largest = item;
            proof {
                k = n;
            }
        }
        i += 1;
        proof {
            n = n + 1;
        }
    }
    largest
}

impl<T: PartialOrd> Pair<T> {
    /// Whether the first member is the one to show as the largest: whether
    /// it is greater than the second or equal to it.
    pub fn x_is_largest(&self) -> (b: bool)
        ensures
            T::obeys_partial_cmp_spec() ==> (b <==> self.x.partial_cmp_spec(&self.y) matches Some(
                Ordering::Greater
                | Ordering::Equal,
            )),
    {
        self.x >= self.y
    }
}

} // verus!
