//! Today's workout, chosen from an intensity and a random number, and the
//! verdict on a guess of a secret number.
use vstd::prelude::*;
use crate::cacher::Cacher;

verus! {

/// What to do today.
#[derive(PartialEq, Eq, Structural, Clone, Copy, Debug)]
pub enum Workout {
    /// Push-ups, then sit-ups, so many of each.
    Strength { pushups: u8, situps: u8 },
    /// Rest and drink water.
    Rest,
    /// Run for so many minutes.
    Run { minutes: u8 },
}

/// The workout for `intensity`, where `calculation` turns an intensity into
/// a count and may be slow: it runs at most once. Below 25 it is strength
/// work; otherwise a random number of 3 means rest, and anything else a run.
pub fn generate_workout<F: Fn(u8) -> u8>(intensity: u8, random_number: u8, calculation: F) -> (r: Workout)
    requires
        calculation.requires((intensity,)),
    ensures
        intensity < 25 ==> (r matches Workout::Strength { pushups, situps } && pushups == situps
            && calculation.ensures((intensity,), pushups)),
        intensity >= 25 && random_number == 3 ==> r == Workout::Rest,
        intensity >= 25 && random_number != 3 ==> (r matches Workout::Run { minutes }
            && calculation.ensures((intensity,), minutes)),
{
    let mut expensive = Cacher::new(calculation);
    if intensity < 25 {
        let pushups = expensive.value(intensity);
        let situps = expensive.value(intensity);
        return Workout::Strength { pushups, situps };
    }
    if random_number == 3 {
        return Workout::Rest;
    }
    let minutes = expensive.value(intensity);
    Workout::Run { minutes }
}

/// How a guess compares with the secret.
#[derive(PartialEq, Eq, Structural, Clone, Copy, Debug)]
pub enum Verdict {
    TooSmall,
    TooBig,
    Win,
}

pub fn judge(guess: u32, secret_number: u32) -> (r: Verdict)
    ensures
        guess < secret_number ==> r == Verdict::TooSmall,
        guess > secret_number ==> r == Verdict::TooBig,
        guess == secret_number ==> r == Verdict::Win,
{
    if guess < secret_number {
        Verdict::TooSmall
    } else if guess > secret_number {
        Verdict::TooBig
    } else {
        Verdict::Win
    }
}

} // verus!
