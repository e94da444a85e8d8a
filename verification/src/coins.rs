//! Coins and their value, and a successor on optional numbers.
use vstd::prelude::*;

verus! {

/// Some of the states that mint quarters.
#[derive(Clone, Copy, Debug, PartialEq, Eq, Structural)]
pub enum UsState {
    Alabama,
    Alaska,
    Georgia,
    Florida,
    California,
}

/// A coin of the United States.
#[derive(Clone, Copy, Debug, PartialEq, Eq, Structural)]
pub enum Coin {
    Penny,
    Nickel,
    Dime,
    Quarter(UsState),
}

/// The value of a coin in cents.
pub open spec fn spec_value_in_cents(coin: Coin) -> int {
    match coin {
        Coin::Penny => 1,
        Coin::Nickel => 5,
        Coin::Dime => 10,
        Coin::Quarter(_) => 25,
    }
}

/// The value of a coin in cents.
pub fn value_in_cents(coin: Coin) -> (cents: u8)
    ensures
        cents == spec_value_in_cents(coin),
{
    match coin {
        Coin::Penny => 1,
        Coin::Nickel => 5,
        Coin::Dime => 10,
        Coin::Quarter(_) => 25,
    }
}

/// The successor of the number in `x`, if there is one.
pub open spec fn spec_plus_one(x: Option<i32>) -> Option<int> {
    match x {
        None => None,
        Some(i) => Some(i + 1),
    }
}

/// Adds one to the number in `x`, and leaves `None` as it is.
pub fn plus_one(x: Option<i32>) -> (r: Option<i32>)
    requires
        x != Some(i32::MAX),
    ensures
        match r {
            None => x is None,
            Some(j) => spec_plus_one(x) == Some(j as int),
        },
{
    match x {
        None => None,
        Some(i) => Some(i + 1),
    }
}

/// What a roll of the dice asks of the player.
#[derive(Clone, Copy, Debug, PartialEq, Eq, Structural)]
pub enum DiceAction {
    AddFancyHat,
    RemoveFancyHat,
    Nothing,
}

/// A three gives a fancy hat, a seven takes it away, and any other roll
/// changes nothing.
pub open spec fn spec_dice_action(roll: u8) -> DiceAction {
    if roll == 3 {
        DiceAction::AddFancyHat
    } else if roll == 7 {
        DiceAction::RemoveFancyHat
    } else {
        DiceAction::Nothing
    }
}

/// What the roll `dice_roll` asks of the player.
pub fn dice_action(dice_roll: u8) -> (a: DiceAction)
    ensures
        a == spec_dice_action(dice_roll),
{
    match dice_roll {
        3 => DiceAction::AddFancyHat,
        7 => DiceAction::RemoveFancyHat,
        _ => DiceAction::Nothing,
    }
}

} // verus!
