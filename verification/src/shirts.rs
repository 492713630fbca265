//! A promotional shirt giveaway: a winner with a favorite color gets
//! that color; otherwise they get whichever color is most stocked.

use vstd::prelude::*;

verus! {

/// The two shirt colors the company stocks.
#[derive(Debug, Clone, Copy, PartialEq, Eq, Structural)]
pub enum ShirtColor {
    Red,
    Blue,
}

/// The company's current stock, one entry per shirt.
pub struct Inventory {
    pub shirts: Vec<ShirtColor>,
}

/// How many shirts of the given color the sequence holds.
pub open spec fn count_color(s: Seq<ShirtColor>, c: ShirtColor) -> nat
    decreases s.len(),
{
    if s.len() == 0 {
        0
    } else {
        count_color(s.drop_last(), c) + (if s.last() == c {
            1nat
        } else {
            0nat
        })
    }
}

/// The color with the strictly larger count; blue on a tie.
pub open spec fn spec_most_stocked(inv: Inventory) -> ShirtColor {
    if count_color(inv.shirts@, ShirtColor::Red) > count_color(inv.shirts@, ShirtColor::Blue) {
        ShirtColor::Red
    } else {
        ShirtColor::Blue
    }
}

impl Inventory {
    /// The color of which the most shirts are in stock; blue wins a
    /// tie.
    #[verifier::loop_isolation(false)]
    pub fn most_stocked(&self) -> (r: ShirtColor)
        ensures
            r == spec_most_stocked(*self),
    {
        let mut num_red: usize = 0;
        let mut num_blue: usize = 0;
        let n: usize = self.shirts.len();
        let mut i: usize = 0;
        while i < n
            invariant
                n == self.shirts@.len(),
                i <= n,
                num_red == count_color(self.shirts@.take(i as int), ShirtColor::Red),
                num_blue == count_color(self.shirts@.take(i as int), ShirtColor::Blue),
                num_red + num_blue == i,
            decreases n - i,
        {
            match self.shirts[i] {
                ShirtColor::Red => {
                    num_red = num_red + 1;
                },
                ShirtColor::Blue => {
                    num_blue = num_blue + 1;
                },
            }
            i = i + 1;
            proof {
                assert(self.shirts@.take(i as int).drop_last() =~= self.shirts@.take(i - 1));
                assert(self.shirts@.take(i as int).last() == self.shirts@[i - 1]);
            }
        }
        proof {
            assert(self.shirts@.take(n as int) =~= self.shirts@);
        }
        if num_red > num_blue {
            ShirtColor::Red
        } else {
            ShirtColor::Blue
        }
    }

    /// The winner's shirt: their favorite color when they set one, the
    /// most stocked color otherwise.
    pub fn giveaway(&self, user_favorite_color: Option<ShirtColor>) -> (r: ShirtColor)
        ensures
            user_favorite_color matches Some(c) ==> r == c,
            user_favorite_color is None ==> r == spec_most_stocked(*self),
    {
        match user_favorite_color {
            Some(c) => c,
            None => self.most_stocked(),
        }
    }
}

} // verus!
