//! A number-guessing game: a secret between 1 and 100 and the verdict on
//! each guess.
use rand::Rng;
use vstd::prelude::*;

verus! {

/// Relies on rand's `thread_rng().gen_range(low..high)`: a number drawn from
/// `low` up to but excluding `high`; it panics on an empty range, which
/// `requires` leaves out.
#[verifier::external_body]
fn random_in(low: u32, high: u32) -> (r: u32)
    requires
        low < high,
    ensures
        low <= r < high,
{
    rand::thread_rng().gen_range(low..high)
}

/// A guess, always between 1 and 100.
pub struct Guess {
    value: u32,
}

impl Guess {
    pub closed spec fn value_spec(&self) -> u32 {
        self.value
    }

    /// A guess of `value`, which must lie between 1 and 100.
    pub fn new(value: u32) -> (g: Guess)
        requires
            1 <= value <= 100,
        ensures
            g.value_spec() == value,
    {
        Guess { value }
    }

    pub fn value(&self) -> (r: u32)
        ensures
            r == self.value_spec(),
    {
        self.value
    }
}

/// How a guess compares with the secret.
#[derive(PartialEq, Eq, Structural, Debug, Clone, Copy)]
pub enum Verdict {
    TooSmall,
    TooBig,
    Win,
}

pub open spec fn verdict_of(guess: u32, secret: u32) -> Verdict {
    if guess < secret {
        Verdict::TooSmall
    } else if guess > secret {
        Verdict::TooBig
    } else {
        Verdict::Win
    }
}

/// One game: a secret number between 1 and 100.
pub struct Game {
    secret: u32,
}

impl Game {
    pub closed spec fn secret_spec(&self) -> u32 {
        self.secret
    }

    /// A game with a secret drawn at random between 1 and 100.
    pub fn new() -> (g: Game)
        ensures
            1 <= g.secret_spec() <= 100,
    {
        Game { secret: random_in(1, 101) }
    }

    /// A game with the given secret.
    pub fn with_secret(secret: u32) -> (g: Game)
        requires
            1 <= secret <= 100,
        ensures
            g.secret_spec() == secret,
    {
        Game { secret }
    }

    /// Compares `guess` with the secret.
    pub fn check(&self, guess: &Guess) -> (v: Verdict)
        ensures
            v == verdict_of(guess.value_spec(), self.secret_spec()),
    {
        if guess.value < self.secret {
            Verdict::TooSmall
        } else if guess.value > self.secret {
            Verdict::TooBig
        } else {
            Verdict::Win
        }
    }
}

} // verus!
