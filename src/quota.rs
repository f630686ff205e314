//! Warnings as a value nears its quota.
use vstd::prelude::*;

verus! {

/// Receives the warnings that a tracker sends.
pub trait Messenger {
    fn send(&self, msg: &str);
}

/// How much of a quota is used.
#[derive(PartialEq, Eq, Structural, Clone, Copy, Debug)]
pub enum QuotaLevel {
    /// Under three quarters.
    Fine,
    /// At least three quarters.
    SeventyFive,
    /// At least nine tenths.
    Ninety,
    /// All of it, or more.
    Exhausted,
}

/// The level of `value` against a quota of `max`. A zero quota is
/// exhausted by any positive value and untouched by zero.
pub open spec fn level_of(value: nat, max: nat) -> QuotaLevel {
    if value == 0 {
        QuotaLevel::Fine
    } else if value >= max {
        QuotaLevel::Exhausted
    } else if 10 * value >= 9 * max {
        QuotaLevel::Ninety
    } else if 4 * value >= 3 * max {
        QuotaLevel::SeventyFive
    } else {
        QuotaLevel::Fine
    }
}

/// Computes `level_of(value, max)`.
pub fn quota_level(value: usize, max: usize) -> (r: QuotaLevel)
    ensures
        r == level_of(value as nat, max as nat),
{
    let v = value as u128;
    let m = max as u128;
    if value == 0 {
        QuotaLevel::Fine
    } else if value >= max {
        QuotaLevel::Exhausted
    } else if 10 * v >= 9 * m {
        QuotaLevel::Ninety
    } else if 4 * v >= 3 * m {
        QuotaLevel::SeventyFive
    } else {
        QuotaLevel::Fine
    }
}

/// Tracks a value against a quota and warns through a messenger.
pub struct Tracker<'a, T: Messenger> {
    messenger: &'a T,
    value: usize,
    max: usize,
}

impl<'a, T> Tracker<'a, T> where T: Messenger {
    pub closed spec fn value(&self) -> nat {
        self.value as nat
    }

    pub closed spec fn max(&self) -> nat {
        self.max as nat
    }

    pub closed spec fn messenger(&self) -> &'a T {
        self.messenger
    }

    /// A tracker at zero against a quota of `max`.
    pub fn new(messenger: &'a T, max: usize) -> (r: Tracker<'a, T>)
        ensures
            r.value() == 0,
            r.max() == max,
            r.messenger() == messenger,
    {
        Tracker { messenger, value: 0, max }
    }

    /// Sets the tracked value and sends one warning for the level reached,
    /// if it is at least three quarters of the quota. Returns that level.
    pub fn set_value(&mut self, value: usize) -> (r: QuotaLevel)
        ensures
            final(self).value() == value,
            final(self).max() == old(self).max(),
            final(self).messenger() == old(self).messenger(),
            r == level_of(value as nat, old(self).max()),
    {
        self.value = value;
        let level = quota_level(self.value, self.max);
        match level {
            QuotaLevel::Exhausted => {
                self.messenger.send(
                    "Warning! You've used all of your quota already! Billing has potentially started",
                );
            },
            QuotaLevel::Ninety => {
                self.messenger.send(
                    "Slight Warning: You've used 90% of your quota already! Consider slowing down.",
                );
            },
            QuotaLevel::SeventyFive => {
                self.messenger.send(
                    "Heads up: You've used 75% of your quota already! Consider slowing down.",
                );
            },
            QuotaLevel::Fine => {},
        }
        level
    }
}

} // verus!
