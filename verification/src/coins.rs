//! Coins and their face value in cents.

use vstd::prelude::*;

verus! {

/// The state stamped on a quarter.
#[derive(Debug, Clone, Copy, PartialEq, Eq, Structural)]
pub enum UsState {
    Alabama,
    Alaska,
}

/// A US coin; quarters carry their state.
#[derive(Debug, Clone, Copy, PartialEq, Eq, Structural)]
pub enum Coin {
    Penny,
    Nickel,
    Dime,
    Quarter(UsState),
}

/// Each coin's face value in cents.
pub open spec fn spec_value_in_cents(c: Coin) -> u8 {
    match c {
        Coin::Penny => 1u8,
        Coin::Nickel => 5u8,
        Coin::Dime => 10u8,
        Coin::Quarter(_) => 25u8,
    }
}

/// The coin's face value in cents.
pub fn value_in_cents(coin: &Coin) -> (r: u8)
    ensures
        r == spec_value_in_cents(*coin),
{
    match coin {
        Coin::Penny => 1,
        Coin::Nickel => 5,
        Coin::Dime => 10,
        Coin::Quarter(_) => 25,
    }
}

/// The state's name, as its debug rendering shows it.
pub open spec fn spec_state_name(s: UsState) -> Seq<char> {
    match s {
        UsState::Alabama => "Alabama"@,
        UsState::Alaska => "Alaska"@,
    }
}

fn state_name(s: &UsState) -> (r: &'static str)
    ensures
        r@ == spec_state_name(*s),
{
    match s {
        UsState::Alabama => "Alabama",
        UsState::Alaska => "Alaska",
    }
}

/// The report for a coin when only quarters are of interest: a line
/// naming the quarter's state, nothing for any other coin. Printing the
/// line is the caller's business.
pub fn match_catch_all(coin: &Coin) -> (r: Option<String>)
    ensures
        *coin matches Coin::Quarter(st) ==> (r matches Some(m) && m@ == "[match_catch_all] - "@
            + spec_state_name(st)),
        !(*coin is Quarter) ==> r is None,
{
    match coin {
        Coin::Quarter(state) => Some(
            String::from_str("[match_catch_all] - ").concat(state_name(state)),
        ),
        _ => None,
    }
}

/// The report for a coin when quarters and dimes get their own lines
/// and everything else a catch-all line. Printing is the caller's
/// business.
pub fn if_let(coin: &Coin) -> (r: String)
    ensures
        *coin matches Coin::Quarter(st) ==> r@ == "[if_let] coin is Quarter - state is "@
            + spec_state_name(st),
        *coin is Dime ==> r@ == "[if_let] coin is Dime"@,
        *coin is Penny || *coin is Nickel ==> r@ == "[if_let] coin is other"@,
{
    if let Coin::Quarter(state) = coin {
        String::from_str("[if_let] coin is Quarter - state is ").concat(state_name(state))
    } else if let Coin::Dime = coin {
        String::from_str("[if_let] coin is Dime")
    } else {
        String::from_str("[if_let] coin is other")
    }
}

} // verus!
