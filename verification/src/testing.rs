//! Small functions with exact contracts: a rectangle that may hold another,
//! sums, a greeting and a guess within bounds.
use vstd::prelude::*;

verus! {

/// A rectangle with sides of whole length.
#[derive(Clone, Copy, Debug, PartialEq, Eq, Structural)]
pub struct Rectangle {
    pub width: u32,
    pub height: u32,
}

impl Rectangle {
    /// Whether `other` fits inside `self` with room to spare on both sides.
    pub fn can_hold(&self, other: &Rectangle) -> (b: bool)
        ensures
            b == (self.width > other.width && self.height > other.height),
    {
        self.width > other.width && self.height > other.height
    }
}

/// Adds two to `a`.
pub fn add_two(a: i32) -> (r: i32)
    requires
        a <= i32::MAX - 2,
    ensures
        r == a + 2,
{
    a + 2
}

/// The text of the greeting for `name`.
pub open spec fn spec_greeting(name: Seq<char>) -> Seq<char> {
    "Hello "@ + name + "!"@
}

/// Greets `name`.
pub fn greeting(name: &str) -> (r: String)
    ensures
        r@ == spec_greeting(name@),
{
    String::from_str("Hello ").concat(name).concat("!")
}

/// A guess between 1 and 100.
pub struct Guess {
    value: i32,
}

impl View for Guess {
    type V = int;

    closed spec fn view(&self) -> int {
        self.value as int
    }
}

impl Guess {
    /// Whether `value` is an admissible guess.
    pub open spec fn in_range(value: int) -> bool {
        1 <= value <= 100
    }

    /// Every guess lies between 1 and 100.
    #[verifier::type_invariant]
    closed spec fn inv(self) -> bool {
        Guess::in_range(self.value as int)
    }

    /// A guess of `value`, which must lie between 1 and 100.
    pub fn new(value: i32) -> (g: Guess)
        requires
            Guess::in_range(value as int),
        ensures
            g@ == value,
    {
        Guess { value }
    }

    /// The number that was guessed.
    pub fn value(&self) -> (v: i32)
        ensures
            v == self@,
            Guess::in_range(v as int),
    {
        proof {
            use_type_invariant(self);
        }
        self.value
    }
}

/// Adds `a` and `b`.
pub fn internal_adder(a: i32, b: i32) -> (r: i32)
    requires
        i32::MIN <= a + b <= i32::MAX,
    ensures
        r == a + b,
{
    a + b
}

} // verus!
