//! The largest element of a list, generic points and pairs, and summaries of
//! things to read.
use vstd::prelude::*;
use std::fmt::{Debug, Display};

verus! {

/// Whether `m` occurs in `list` and no element of `list` is greater.
pub open spec fn is_largest_i32(list: Seq<i32>, m: i32) -> bool {
    &&& exists|k: int| 0 <= k < list.len() && list[k] == m
    &&& forall|j: int| 0 <= j < list.len() ==> list[j] <= m
}

/// The largest number of a list that is not empty.
pub fn largest_i32(list: &[i32]) -> (largest: &i32)
    requires
        list@.len() > 0,
    ensures
        is_largest_i32(list@, *largest),
{
    let mut largest = &list[0];
    let mut i: usize = 1;
    while i < list.len()
        invariant
            1 <= i <= list@.len(),
            exists|k: int| 0 <= k < i && list@[k] == *largest,
            forall|j: int| 0 <= j < i ==> list@[j] <= *largest,
        decreases list@.len() - i,
    {
        let item = &list[i];
        if *item > *largest {
            largest = item;
        }
        i += 1;
    }
    largest
}

/// Whether `m` occurs in `list` and no element of `list` comes after it in
/// the order of the code points.
pub open spec fn is_largest_char(list: Seq<char>, m: char) -> bool {
    &&& exists|k: int| 0 <= k < list.len() && list[k] == m
    &&& forall|j: int| 0 <= j < list.len() ==> list[j] as u32 <= m as u32
}

/// The largest character of a list that is not empty.
pub fn largest_char(list: &[char]) -> (largest: &char)
    requires
        list@.len() > 0,
    ensures
        is_largest_char(list@, *largest),
{
    let mut largest = &list[0];
    let mut i: usize = 1;
    while i < list.len()
        invariant
            1 <= i <= list@.len(),
            exists|k: int| 0 <= k < i && list@[k] == *largest,
            forall|j: int| 0 <= j < i ==> list@[j] as u32 <= *largest as u32,
        decreases list@.len() - i,
    {
        let item = &list[i];
        if *item as u32 > *largest as u32 {
            largest = item;
        }
        i += 1;
    }
    largest
}

/// A point whose coordinates are of one type.
pub struct Point<T> {
    pub x: T,
    pub y: T,
}

impl<T> Point<T> {
    /// The first coordinate.
    pub fn x(&self) -> (x: &T)
        ensures
            *x == self.x,
    {
        &self.x
    }
}

/// A point whose coordinates may be of two types.
pub struct Point2<T, U> {
    pub x: T,
    pub y: U,
}

impl<T, U> Point2<T, U> {
    /// The point with the first coordinate of `self` and the second of `other`.
    pub fn mixup<X2, Y2>(self, other: Point2<X2, Y2>) -> (mixed: Point2<T, Y2>)
        ensures
            mixed.x == self.x,
            mixed.y == other.y,
    {
        Point2 { x: self.x, y: other.y }
    }
}

/// Two values of one type.
pub struct Pair<T> {
    pub x: T,
    pub y: T,
}

impl<T> Pair<T> {
    /// The pair of `x` and `y`.
    pub fn new(x: T, y: T) -> (pair: Self)
        ensures
            pair.x == x,
            pair.y == y,
    {
        Self { x, y }
    }
}

/// The default summary of something by `author`.
pub open spec fn spec_read_more(author: Seq<char>) -> Seq<char> {
    "(Read more from "@ + author + "...)"@
}

/// Things that can be summarized in a line.
pub trait Summary {
    /// The name under which the author appears.
    spec fn author(&self) -> Seq<char>;

    /// The line that summarizes the thing.
    spec fn summary(&self) -> Seq<char>;

    /// The line that summarizes the thing.
    fn summarize(&self) -> (line: String)
        ensures
            line@ == self.summary(),
    ;

    /// The name under which the author appears.
    fn summarize_author(&self) -> (name: String)
        ensures
            name@ == self.author(),
    ;
}

/// An article in a newspaper.
pub struct NewsArticle {
    pub headline: String,
    pub location: String,
    pub author: String,
    pub content: String,
}

impl Summary for NewsArticle {
    open spec fn author(&self) -> Seq<char> {
        self.author@
    }

    open spec fn summary(&self) -> Seq<char> {
        spec_read_more(self.author())
    }

    fn summarize(&self) -> (line: String) {
        let name = self.summarize_author();
        String::from_str("(Read more from ").concat(name.as_str()).concat("...)")
    }

    fn summarize_author(&self) -> (name: String) {
        self.author.clone()
    }
}

/// A short public message.
pub struct Tweet {
    pub username: String,
    pub content: String,
    pub reply: bool,
    pub retweet: bool,
}

impl Summary for Tweet {
    open spec fn author(&self) -> Seq<char> {
        "@"@ + self.username@
    }

    open spec fn summary(&self) -> Seq<char> {
        self.username@ + ": "@ + self.content@
    }

    fn summarize(&self) -> (line: String) {
        self.username.clone().concat(": ").concat(self.content.as_str())
    }

    fn summarize_author(&self) -> (name: String) {
        String::from_str("@").concat(self.username.as_str())
    }
}

/// Takes anything that can be summarized and shown, and does nothing with it.
pub fn some_function(item: &(impl Summary + Display)) {
}

/// Takes anything that can be summarized and shown, and does nothing with it.
pub fn other_function<T: Summary + Display>(item: &T) {
}

/// Three, whatever it is given.
pub fn some_other_function<T, U>(t: &T, u: &U) -> (r: i32) where
    T: Display + Clone,
    U: Clone + Debug,

    ensures
        r == 3,
{
    3
}

/// A tweet to summarize.
pub fn returns_summarizable() -> (tweet: Tweet)
    ensures
        tweet.username@ == "horse_ebooks"@,
        tweet.content@ == "of course, as you probably already know, people"@,
        !tweet.reply,
        !tweet.retweet,
{
    Tweet {
        username: String::from_str("horse_ebooks"),
        content: String::from_str("of course, as you probably already know, people"),
        reply: false,
        retweet: false,
    }
}

} // verus!
