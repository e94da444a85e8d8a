//! A fixed-size worker pool, modelled as a deterministic state machine, together
//! with a collection of small verified building blocks.
use vstd::prelude::*;

pub mod channel;
pub mod worker;
pub mod pool;
pub mod laws;
pub mod cargo_crates;
pub mod testing;
pub mod rectangles;
pub mod coins;
pub mod blog;
pub mod typed_blog;
pub mod inventory;
pub mod generics;
pub mod structs;
pub mod smart_pointers;
pub mod advanced;
pub mod gui;
pub mod patterns;
pub mod largest;
pub mod text;
pub mod averaged;
pub mod guessing;

verus! {

/// Five.
pub fn five() -> (r: i32)
    ensures
        r == 5,
{
    5
}

/// The sum `a + 2`, as a mathematical integer.
pub open spec fn spec_add_two(a: int) -> int {
    a + 2
}

/// Adds two to `a`.
pub fn add_two(a: i32) -> (r: i32)
    requires
        a <= i32::MAX - 2,
    ensures
        r == spec_add_two(a as int),
{
    a + 2
}

} // verus!
