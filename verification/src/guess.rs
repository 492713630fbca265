//! The guessing game's decision rule: how one guess compares to the
//! secret. The interactive loop around it is plain I/O and lives with
//! the caller.

use vstd::prelude::*;

verus! {

/// The verdict on one guess.
#[derive(Debug, Clone, Copy, PartialEq, Eq, Structural)]
pub enum GuessOutcome {
    TooSmall,
    TooBig,
    Win,
}

/// Compares a guess against the secret number.
pub fn evaluate_guess(guess: u32, secret: u32) -> (r: GuessOutcome)
    ensures
        r is TooSmall <==> guess < secret,
        r is TooBig <==> guess > secret,
        r is Win <==> guess == secret,
{
    if guess < secret {
        GuessOutcome::TooSmall
    } else if guess > secret {
        GuessOutcome::TooBig
    } else {
        GuessOutcome::Win
    }
}

} // verus!
