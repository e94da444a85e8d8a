//! Operators on types of one's own, traits with associated functions, and
//! functions taken as arguments.
use vstd::prelude::*;
use vstd::std_specs::ops::AddSpecImpl;
use vstd::string::StringSliceAdditionalSpecFns;
use std::ops::Add;

verus! {

/// A point in the plane.
#[derive(Clone, Copy, Debug, PartialEq, Eq, Structural)]
pub struct Point {
    pub x: i32,
    pub y: i32,
}

impl Add for Point {
    type Output = Point;

    /// The sum of two points, coordinate by coordinate.
    fn add(self, other: Point) -> (sum: Point) {
        Point { x: self.x + other.x, y: self.y + other.y }
    }
}

impl AddSpecImpl for Point {
    open spec fn obeys_add_spec() -> bool {
        true
    }

    open spec fn add_req(self, other: Point) -> bool {
        &&& i32::MIN <= self.x + other.x <= i32::MAX
        &&& i32::MIN <= self.y + other.y <= i32::MAX
    }

    open spec fn add_spec(self, other: Point) -> Point {
        Point { x: (self.x + other.x) as i32, y: (self.y + other.y) as i32 }
    }
}

/// A length in millimeters.
#[derive(Clone, Copy, Debug, PartialEq, Eq, Structural)]
pub struct Millimeters(pub u32);

/// A length in meters.
#[derive(Clone, Copy, Debug, PartialEq, Eq, Structural)]
pub struct Meters(pub u32);

impl Add<Meters> for Millimeters {
    type Output = Millimeters;

    /// The sum of the two lengths, in millimeters.
    fn add(self, other: Meters) -> (sum: Millimeters) {
        Millimeters(self.0 + (other.0 * 1000))
    }
}

impl AddSpecImpl<Meters> for Millimeters {
    open spec fn obeys_add_spec() -> bool {
        true
    }

    open spec fn add_req(self, other: Meters) -> bool {
        self.0 + other.0 * 1000 <= u32::MAX
    }

    open spec fn add_spec(self, other: Meters) -> Millimeters {
        Millimeters((self.0 + other.0 * 1000) as u32)
    }
}

/// Anything that hands out items one after the other, of a type that each
/// implementor names once.
pub trait Iterator {
    /// The type of the items.
    type Item;

    /// The next item, or `None` when there is none left.
    fn next(&mut self) -> Option<Self::Item>;
}

/// What a type called `name` says when it greets.
pub open spec fn spec_hello_macro(name: Seq<char>) -> Seq<char> {
    "Hello, Macro! My name is "@ + name + "!"@
}

/// The greeting of the type called `name`.
pub fn hello_macro(name: &str) -> (greeting: String)
    ensures
        greeting@ == spec_hello_macro(name@),
{
    String::from_str("Hello, Macro! My name is ").concat(name).concat("!")
}

/// Animals, by what their young are called.
pub trait Animal {
    /// What the young of this animal are called.
    spec fn spec_baby_name() -> Seq<char>;

    /// What the young of this animal are called.
    fn baby_name() -> (name: String)
        ensures
            name@ == Self::spec_baby_name(),
    ;
}

/// A dog.
pub struct Dog;

impl Dog {
    /// The name of this one dog's young.
    pub fn baby_name() -> (name: String)
        ensures
            name@ == "Spot"@,
    {
        String::from_str("Spot")
    }
}

impl Animal for Dog {
    open spec fn spec_baby_name() -> Seq<char> {
        "puppy"@
    }

    fn baby_name() -> (name: String) {
        String::from_str("puppy")
    }
}

/// The character `c`, `n` times.
pub open spec fn spec_repeat(c: char, n: nat) -> Seq<char> {
    Seq::new(n, |i: int| c)
}

/// The five lines that frame a text of `width` bytes with asterisks: a full
/// line, a hollow one, the text between two margins, and again a hollow and
/// a full line.
pub open spec fn spec_outline(output: Seq<char>, width: nat) -> Seq<Seq<char>> {
    let full = spec_repeat('*', width + 4);
    let hollow = seq!['*'] + spec_repeat(' ', width + 2) + seq!['*'];
    seq![full, hollow, seq!['*', ' '] + output + seq![' ', '*'], hollow, full]
}

/// The string that holds `c`, `n` times; `piece` is `c` as a string.
fn repeat(piece: &str, c: char, n: usize) -> (text: String)
    requires
        piece@ == seq![c],
    ensures
        text@ == spec_repeat(c, n as nat),
{
    let mut text = String::new();
    let mut i: usize = 0;
    while i < n
        invariant
            i <= n,
            piece@ == seq![c],
            text@ == spec_repeat(c, i as nat),
        decreases n - i,
    {
        text.append(piece);
        i += 1;
        assert(text@ =~= spec_repeat(c, i as nat));
    }
    text
}

/// Frames `output` with asterisks, as five lines. The frame is as wide as
/// the text is long in bytes, and four more.
pub fn outline(output: &str) -> (lines: Vec<String>)
    requires
        output.spec_bytes().len() + 4 <= usize::MAX,
    ensures
        texts(lines@) == spec_outline(output@, output.spec_bytes().len()),
{
    proof {
        reveal_strlit("*");
        reveal_strlit(" ");
        reveal_strlit("* ");
        reveal_strlit(" *");
    }
    assert("*"@ =~= seq!['*']);
    assert(" "@ =~= seq![' ']);
    assert("* "@ =~= seq!['*', ' ']);
    assert(" *"@ =~= seq![' ', '*']);
    let len = output.len();
    let full = repeat("*", '*', len + 4);
    let hollow = String::from_str("*").concat(repeat(" ", ' ', len + 2).as_str()).concat("*");
    let middle = String::from_str("* ").concat(output).concat(" *");
    let mut lines: Vec<String> = Vec::new();
    lines.push(full.clone());
    lines.push(hollow.clone());
    lines.push(middle);
    lines.push(hollow);
    lines.push(full);
    assert(texts(lines@) =~= spec_outline(output@, output.spec_bytes().len()));
    lines
}

/// The texts of `items`, each pair of neighbours with `sep` between them.
pub open spec fn spec_join(items: Seq<Seq<char>>, sep: Seq<char>) -> Seq<char>
    decreases items.len(),
{
    if items.len() == 0 {
        Seq::empty()
    } else if items.len() == 1 {
        items[0]
    } else {
        spec_join(items.drop_last(), sep) + sep + items.last()
    }
}

/// The contents of a row of strings.
pub open spec fn texts(items: Seq<String>) -> Seq<Seq<char>> {
    items.map_values(|s: String| s@)
}

/// A list of strings that knows how to show itself.
pub struct Wrapper(pub Vec<String>);

impl Wrapper {
    /// The list as one text: its items between square brackets, with a comma
    /// and a space between neighbours.
    pub fn to_string(&self) -> (text: String)
        ensures
            text@ == "["@ + spec_join(texts(self.0@), ", "@) + "]"@,
    {
        let mut text = String::from_str("[");
        let mut i: usize = 0;
        while i < self.0.len()
            invariant
                i <= self.0@.len(),
                text@ == "["@ + spec_join(texts(self.0@).take(i as int), ", "@),
            decreases self.0@.len() - i,
        {
            proof {
                let all = texts(self.0@);
                assert(all.take(i as int + 1).drop_last() =~= all.take(i as int));
                assert(all.take(i as int + 1).last() == self.0@[i as int]@);
            }
            if i > 0 {
                text.append(", ");
            }
            text.append(self.0[i].as_str());
            i += 1;
            proof {
                let all = texts(self.0@);
                assert(text@ =~= "["@ + spec_join(all.take(i as int), ", "@));
            }
        }
        proof {
            assert(texts(self.0@).take(i as int) =~= texts(self.0@));
        }
        text.append("]");
        text
    }
}

/// A value to go on with, or the sign to stop.
#[derive(Clone, Copy, Debug, PartialEq, Eq, Structural)]
pub enum Status {
    Value(u32),
    Stop,
}

/// Adds one to `x`.
pub fn add_one(x: i32) -> (r: i32)
    requires
        x < i32::MAX,
    ensures
        r == x + 1,
{
    x + 1
}

/// Calls `f` on `arg` twice and adds what it returned.
pub fn do_twice<F: Fn(i32) -> i32>(f: F, arg: i32) -> (r: i32)
    requires
        call_requires(f, (arg,)),
        forall|a: i32, b: i32|
            call_ensures(f, (arg,), a) && call_ensures(f, (arg,), b) ==> i32::MIN <= a + b
                <= i32::MAX,
    ensures
        exists|a: i32, b: i32|
            call_ensures(f, (arg,), a) && call_ensures(f, (arg,), b) && r == a + b,
{
    let a = f(arg);
    let b = f(arg);
    a + b
}

/// The statuses that carry the numbers below `n`, in order.
pub fn statuses_below(n: u32) -> (list: Vec<Status>)
    ensures
        list@ == Seq::new(n as nat, |i: int| Status::Value(i as u32)),
{
    let mut list: Vec<Status> = Vec::new();
    let mut i: u32 = 0;
    while i < n
        invariant
            i <= n,
            list@ == Seq::new(i as nat, |k: int| Status::Value(k as u32)),
        decreases n - i,
    {
        list.push(Status::Value(i));
        i += 1;
        assert(list@ =~= Seq::new(i as nat, |k: int| Status::Value(k as u32)));
    }
    list
}

} // verus!
