//! A shirt giveaway that falls back on the color most in stock, and a filter
//! on shoes by size.
use vstd::prelude::*;

verus! {

/// The colors in which the shirts come.
#[derive(Clone, Copy, Debug, PartialEq, Eq, Structural)]
pub enum ShirtColor {
    Red,
    Blue,
}

/// The shirts in stock.
pub struct Inventory {
    pub shirts: Vec<ShirtColor>,
}

/// How many of `shirts` have the color `color`.
pub open spec fn count_of(shirts: Seq<ShirtColor>, color: ShirtColor) -> nat
    decreases shirts.len(),
{
    if shirts.len() == 0 {
        0
    } else {
        count_of(shirts.drop_last(), color) + if shirts.last() == color {
            1nat
        } else {
            0nat
        }
    }
}

/// The color most in stock: red where red shirts outnumber blue ones, else
/// blue.
pub open spec fn spec_most_stocked(shirts: Seq<ShirtColor>) -> ShirtColor {
    if count_of(shirts, ShirtColor::Red) > count_of(shirts, ShirtColor::Blue) {
        ShirtColor::Red
    } else {
        ShirtColor::Blue
    }
}

impl Inventory {
    /// The shirt that a user gets: the color they prefer, or the one most in
    /// stock where they have no preference.
    pub fn giveaway(&self, user_preference: Option<ShirtColor>) -> (color: ShirtColor)
        ensures
            color == match user_preference {
                Some(wish) => wish,
                None => spec_most_stocked(self.shirts@),
            },
    {
        match user_preference {
            Some(wish) => wish,
            None => self.most_stocked(),
        }
    }

    /// The color most in stock.
    pub fn most_stocked(&self) -> (color: ShirtColor)
        ensures
            color == spec_most_stocked(self.shirts@),
    {
        let mut num_red: usize = 0;
        let mut num_blue: usize = 0;
        let mut i: usize = 0;
        while i < self.shirts.len()
            invariant
                i <= self.shirts@.len(),
                num_red == count_of(self.shirts@.take(i as int), ShirtColor::Red),
                num_blue == count_of(self.shirts@.take(i as int), ShirtColor::Blue),
                num_red <= i,
                num_blue <= i,
            decreases self.shirts@.len() - i,
        {
            proof {
                assert(self.shirts@.take(i as int + 1).drop_last() =~= self.shirts@.take(i as int));
            }
            match self.shirts[i] {
                ShirtColor::Red => {
                    num_red += 1;
                },
                ShirtColor::Blue => {
                    num_blue += 1;
                },
            }
            i += 1;
        }
        proof {
            assert(self.shirts@.take(i as int) =~= self.shirts@);
        }
        if num_red > num_blue {
            ShirtColor::Red
        } else {
            ShirtColor::Blue
        }
    }
}

/// What to do today.
#[derive(Clone, Copy, Debug, PartialEq, Eq, Structural)]
pub enum Workout {
    /// So many pushups, then so many situps.
    Strength { pushups: u32, situps: u32 },
    /// A day off.
    Rest,
    /// A run of so many minutes.
    Run { minutes: u32 },
}

/// The workout for an intensity and a number drawn at random.
pub open spec fn spec_generate_workout(intensity: u32, random_number: u32) -> Workout {
    if intensity < 25 {
        Workout::Strength { pushups: intensity, situps: intensity }
    } else if random_number == 3 {
        Workout::Rest
    } else {
        Workout::Run { minutes: intensity }
    }
}

/// Plans the day: a low intensity asks for as many pushups and situps as
/// the intensity says; a high one for a run of that many minutes, unless the
/// number drawn is three, which gives a day off.
pub fn generate_workout(intensity: u32, random_number: u32) -> (plan: Workout)
    ensures
        plan == spec_generate_workout(intensity, random_number),
{
    if intensity < 25 {
        Workout::Strength { pushups: intensity, situps: intensity }
    } else {
        if random_number == 3 {
            Workout::Rest
        } else {
            Workout::Run { minutes: intensity }
        }
    }
}

/// A shoe of some size and style.
#[derive(Debug, PartialEq)]
pub struct Shoe {
    pub size: u32,
    pub style: String,
}

/// The mathematical content of a shoe.
pub struct ShoeView {
    pub size: u32,
    pub style: Seq<char>,
}

impl View for Shoe {
    type V = ShoeView;

    open spec fn view(&self) -> ShoeView {
        ShoeView { size: self.size, style: self.style@ }
    }
}

/// The contents of a row of shoes.
pub open spec fn shoe_views(shoes: Seq<Shoe>) -> Seq<ShoeView> {
    shoes.map_values(|s: Shoe| s@)
}

/// The shoes of size `shoe_size` among `shoes`, in their order.
pub open spec fn spec_shoes_in_size(shoes: Seq<ShoeView>, shoe_size: u32) -> Seq<ShoeView> {
    shoes.filter(|s: ShoeView| s.size == shoe_size)
}

/// Keeps the shoes of size `shoe_size`, in their order, and drops the others.
pub fn shoes_in_size(shoes: Vec<Shoe>, shoe_size: u32) -> (fitting: Vec<Shoe>)
    ensures
        shoe_views(fitting@) == spec_shoes_in_size(shoe_views(shoes@), shoe_size),
{
    let ghost pred = |s: ShoeView| s.size == shoe_size;
    let mut fitting: Vec<Shoe> = Vec::new();
    let mut i: usize = 0;
    proof {
        reveal(Seq::filter);
        assert(shoe_views(shoes@).take(0) =~= Seq::<ShoeView>::empty());
        assert(shoe_views(fitting@) =~= Seq::<ShoeView>::empty());
    }
    while i < shoes.len()
        invariant
            i <= shoes@.len(),
            pred == |s: ShoeView| s.size == shoe_size,
            shoe_views(fitting@) == shoe_views(shoes@).take(i as int).filter(pred),
        decreases shoes@.len() - i,
    {
        let ghost before = shoe_views(fitting@);
        proof {
            let all = shoe_views(shoes@);
            assert(all.take(i as int + 1) =~= all.take(i as int).push(all[i as int]));
            all.take(i as int).lemma_filter_push(all[i as int], pred);
        }
        if shoes[i].size == shoe_size {
            let shoe = Shoe { size: shoes[i].size, style: shoes[i].style.clone() };
            fitting.push(shoe);
            proof {
                assert(shoe_views(fitting@) =~= before.push(shoe_views(shoes@)[i as int]));
            }
        }
        i += 1;
    }
    proof {
        assert(shoe_views(shoes@).take(i as int) =~= shoe_views(shoes@));
    }
    fitting
}

} // verus!
