//! Decisions made by matching: on optional numbers, on ranges of numbers and
//! letters, on the fields of a point and on the parts of a message.
use vstd::prelude::*;

verus! {

/// Adds one to the number in `x`, and leaves `None` as it is.
pub fn match_use_case(x: Option<i32>) -> (r: Option<i32>)
    requires
        x != Some(i32::MAX),
    ensures
        r == match x {
            None => None::<i32>,
            Some(i) => Some((i + 1) as i32),
        },
{
    match x {
        None => None,
        Some(i) => Some(i + 1),
    }
}

/// The colors that a background can take.
#[derive(Clone, Copy, Debug, PartialEq, Eq)]
pub enum Background<'a> {
    /// The color that the user likes best.
    Favorite(&'a str),
    Green,
    Purple,
    Orange,
    Blue,
}

/// The background to use. A favorite color wins; failing that, Tuesday is
/// green day; failing that, a known age picks purple above thirty and orange
/// up to thirty; and blue is what is left.
pub fn background_color<'a>(
    favorite_color: Option<&'a str>,
    is_tuesday: bool,
    age: Option<u8>,
) -> (color: Background<'a>)
    ensures
        favorite_color is Some ==> color == Background::Favorite(favorite_color->Some_0),
        favorite_color is None && is_tuesday ==> color == Background::<'a>::Green,
        favorite_color is None && !is_tuesday && age is Some && age->Some_0 > 30 ==> color
            == Background::<'a>::Purple,
        favorite_color is None && !is_tuesday && age is Some && age->Some_0 <= 30 ==> color
            == Background::<'a>::Orange,
        favorite_color is None && !is_tuesday && age is None ==> color == Background::<'a>::Blue,
{
    if let Some(color) = favorite_color {
        Background::Favorite(color)
    } else if is_tuesday {
        Background::Green
    } else if let Some(age) = age {
        if age > 30 {
            Background::Purple
        } else {
            Background::Orange
        }
    } else {
        Background::Blue
    }
}

/// How a number is read out.
#[derive(Clone, Copy, Debug, PartialEq, Eq, Structural)]
pub enum NumberName {
    One,
    Two,
    Three,
    Anything,
}

/// The name of `x`: one, two and three have their own, every other number
/// goes as anything.
pub fn matching_literals(x: i32) -> (name: NumberName)
    ensures
        x == 1 <==> name == NumberName::One,
        x == 2 <==> name == NumberName::Two,
        x == 3 <==> name == NumberName::Three,
{
    match x {
        1 => NumberName::One,
        2 => NumberName::Two,
        3 => NumberName::Three,
        _ => NumberName::Anything,
    }
}

/// What a match on an optional number finds.
#[derive(Clone, Copy, Debug, PartialEq, Eq, Structural)]
pub enum Found {
    /// The number was fifty.
    Fifty,
    /// The number was this one, and not fifty.
    Matched(i32),
    /// There was no number.
    Default,
}

/// Tells fifty from every other number, and a number from none.
pub fn matching_named_variables(x: Option<i32>) -> (found: Found)
    ensures
        found == match x {
            Some(y) => if y == 50 {
                Found::Fifty
            } else {
                Found::Matched(y)
            },
            None => Found::Default,
        },
{
    match x {
        Some(50) => Found::Fifty,
        Some(y) => Found::Matched(y),
        _ => Found::Default,
    }
}

/// A number by the group it falls in.
#[derive(Clone, Copy, Debug, PartialEq, Eq, Structural)]
pub enum NumberGroup {
    OneOrTwo,
    Three,
    Anything,
}

/// The group of `x`.
pub fn multiple_patterns(x: i32) -> (group: NumberGroup)
    ensures
        (x == 1 || x == 2) <==> group == NumberGroup::OneOrTwo,
        x == 3 <==> group == NumberGroup::Three,
{
    match x {
        1 | 2 => NumberGroup::OneOrTwo,
        3 => NumberGroup::Three,
        _ => NumberGroup::Anything,
    }
}

/// Whether `x` is one of the numbers one through five.
pub fn one_through_five(x: i32) -> (b: bool)
    ensures
        b == (1 <= x <= 5),
{
    match x {
        1..=5 => true,
        _ => false,
    }
}

/// A character by its place among the small ASCII letters.
#[derive(Clone, Copy, Debug, PartialEq, Eq, Structural)]
pub enum LetterClass {
    /// One of `a` to `j`.
    Early,
    /// One of `k` to `z`.
    Late,
    /// No small ASCII letter.
    SomethingElse,
}

/// The class of `y`.
pub fn letter_class(y: char) -> (class: LetterClass)
    ensures
        ('a' as u32) <= (y as u32) <= ('j' as u32) <==> class == LetterClass::Early,
        ('k' as u32) <= (y as u32) <= ('z' as u32) <==> class == LetterClass::Late,
{
    match y {
        'a'..='j' => LetterClass::Early,
        'k'..='z' => LetterClass::Late,
        _ => LetterClass::SomethingElse,
    }
}

/// A point in the plane.
#[derive(Clone, Copy, Debug, PartialEq, Eq, Structural)]
pub struct Point {
    pub x: i32,
    pub y: i32,
}

/// Where a point lies with respect to the axes.
#[derive(Clone, Copy, Debug, PartialEq, Eq, Structural)]
pub enum OnAxis {
    /// On the x axis, at this `x`. The origin counts here.
    X(i32),
    /// On the y axis, at this `y`, and not at the origin.
    Y(i32),
    /// On neither axis.
    Neither(i32, i32),
}

/// Where `p` lies with respect to the axes.
pub fn destructuring_structs(p: Point) -> (place: OnAxis)
    ensures
        place == if p.y == 0 {
            OnAxis::X(p.x)
        } else if p.x == 0 {
            OnAxis::Y(p.y)
        } else {
            OnAxis::Neither(p.x, p.y)
        },
{
    match p {
        Point { x, y: 0 } => OnAxis::X(x),
        Point { x: 0, y } => OnAxis::Y(y),
        Point { x, y } => OnAxis::Neither(x, y),
    }
}

/// The setting after an attempt to write `new_setting_value` over
/// `setting_value`: a value that is set is never overwritten by another, but
/// it can be cleared, and an unset one takes whatever comes.
pub fn overwrite_setting(setting_value: Option<i32>, new_setting_value: Option<i32>) -> (r:
    Option<i32>)
    ensures
        r == if setting_value is Some && new_setting_value is Some {
            setting_value
        } else {
            new_setting_value
        },
{
    match (setting_value, new_setting_value) {
        (Some(_), Some(_)) => setting_value,
        _ => new_setting_value,
    }
}

/// The first, third and fifth of five numbers.
pub fn first_third_fifth(numbers: (i32, i32, i32, i32, i32)) -> (r: (i32, i32, i32))
    ensures
        r == (numbers.0, numbers.2, numbers.4),
{
    match numbers {
        (first, _, third, _, fifth) => (first, third, fifth),
    }
}

/// The first and the last of five numbers.
pub fn first_and_last(numbers: (i32, i32, i32, i32, i32)) -> (r: (i32, i32))
    ensures
        r == (numbers.0, numbers.4),
{
    match numbers {
        (first, .., last) => (first, last),
    }
}

/// What is known of an optional number.
#[derive(Clone, Copy, Debug, PartialEq, Eq, Structural)]
pub enum Parity {
    Even(i32),
    Odd(i32),
    Nothing,
}

/// Tells even numbers from odd ones, and a number from none.
pub fn match_guards(num: Option<i32>) -> (parity: Parity)
    ensures
        parity == match num {
            Some(x) => if x % 2 == 0 {
                Parity::Even(x)
            } else {
                Parity::Odd(x)
            },
            None => Parity::Nothing,
        },
{
    match num {
        Some(x) if x % 2 == 0 => Parity::Even(x),
        Some(x) => Parity::Odd(x),
        None => Parity::Nothing,
    }
}

/// A greeting that carries an identifier.
#[derive(Clone, Copy, Debug, PartialEq, Eq, Structural)]
pub enum Greeting {
    Hello { id: i32 },
}

/// An identifier by the range it falls in.
#[derive(Clone, Copy, Debug, PartialEq, Eq, Structural)]
pub enum IdClass {
    /// Between 3 and 7, and which one.
    InRange(i32),
    /// Between 10 and 12.
    AnotherRange,
    /// Any other identifier, and which one.
    Other(i32),
}

/// The class of the identifier that `msg` carries.
pub fn at_bindings(msg: Greeting) -> (class: IdClass)
    ensures
        class == {
            let id = msg->id;
            if 3 <= id <= 7 {
                IdClass::InRange(id)
            } else if 10 <= id <= 12 {
                IdClass::AnotherRange
            } else {
                IdClass::Other(id)
            }
        },
{
    match msg {
        Greeting::Hello { id: id_variable @ 3..=7 } => IdClass::InRange(id_variable),
        Greeting::Hello { id: 10..=12 } => IdClass::AnotherRange,
        Greeting::Hello { id } => IdClass::Other(id),
    }
}

} // verus!
