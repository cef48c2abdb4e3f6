//! The pricing rules, one variant per genre.

use vstd::prelude::*;
use vstd::string::*;

verus! {

/// The pricing rule of a genre. A play whose genre has no variant here cannot
/// be billed.
#[derive(Clone, Copy, Debug, PartialEq, Eq, Structural)]
pub enum PerformanceCalculator {
    Tragedy,
    Comedy,
}

/// The part of an audience above `threshold`: `max(audience - threshold, 0)`.
pub open spec fn excess(audience: nat, threshold: nat) -> nat {
    if audience > threshold {
        (audience - threshold) as nat
    } else {
        0
    }
}

impl PerformanceCalculator {
    /// The rule that a genre name selects, if any. Names are matched exactly.
    pub open spec fn spec_for_genre(genre: Seq<char>) -> Option<PerformanceCalculator> {
        if genre == "tragedy"@ {
            Some(PerformanceCalculator::Tragedy)
        } else if genre == "comedy"@ {
            Some(PerformanceCalculator::Comedy)
        } else {
            None
        }
    }

    /// The charge for one performance before an audience of the given size.
    pub open spec fn spec_amount(self, audience: nat) -> nat {
        match self {
            PerformanceCalculator::Tragedy => 40000 + 1000 * excess(audience, 30),
            PerformanceCalculator::Comedy => 30000 + (if audience > 20 {
                10000 + 500 * excess(audience, 20)
            } else {
                0
            }) + 300 * audience,
        }
    }

    /// The loyalty credits earned by one performance: one for each seat above
    /// thirty, and for a comedy one more for every five seats.
    pub open spec fn spec_volume_credits(self, audience: nat) -> nat {
        excess(audience, 30) + (if self is Comedy {
            audience / 5
        } else {
            0
        })
    }

    /// Whether both figures of a performance fit in 64 bits.
    pub open spec fn fits(self, audience: nat) -> bool {
        self.spec_amount(audience) <= u64::MAX && self.spec_volume_credits(audience) <= u64::MAX
    }

    /// The rule that a genre name selects, if any.
    pub fn for_genre(genre: &String) -> (result: Option<PerformanceCalculator>)
        ensures
            result == Self::spec_for_genre(genre@),
    {
        if *genre == String::from_str("tragedy") {
            Some(PerformanceCalculator::Tragedy)
        } else if *genre == String::from_str("comedy") {
            Some(PerformanceCalculator::Comedy)
        } else {
            None
        }
    }

    /// The charge for one performance, or `None` where it does not fit in 64
    /// bits.
    pub fn checked_amount(&self, audience: u64) -> (result: Option<u64>)
        ensures
            match result {
                Some(amount) => amount == self.spec_amount(audience as nat),
                None => self.spec_amount(audience as nat) > u64::MAX,
            },
    {
        let seats: u128 = audience as u128;
        let amount: u128 = match self {
            PerformanceCalculator::Tragedy => if seats > 30 {
                40000 + 1000 * (seats - 30)
            } else {
                40000
            },
            PerformanceCalculator::Comedy => if seats > 20 {
                30000 + 10000 + 500 * (seats - 20) + 300 * seats
            } else {
                30000 + 300 * seats
            },
        };
        if amount <= u64::MAX as u128 {
            Some(amount as u64)
        } else {
            None
        }
    }

    /// The loyalty credits earned by one performance, or `None` where they do
    /// not fit in 64 bits.
    pub fn checked_volume_credits(&self, audience: u64) -> (result: Option<u64>)
        ensures
            match result {
                Some(credits) => credits == self.spec_volume_credits(audience as nat),
                None => self.spec_volume_credits(audience as nat) > u64::MAX,
            },
    {
        let base: u64 = audience.saturating_sub(30);
        match self {
            PerformanceCalculator::Comedy => base.checked_add(audience / 5),
            PerformanceCalculator::Tragedy => Some(base),
        }
    }

    /// The charge for one performance.
    pub fn amount(&self, audience: u64) -> (result: u64)
        requires
            self.spec_amount(audience as nat) <= u64::MAX,
        ensures
            result == self.spec_amount(audience as nat),
    {
        match self {
            PerformanceCalculator::Tragedy => {
                let mut result: u64 = 40000;
                if audience > 30 {
                    result += 1000 * (audience - 30);
                }
                result
            },
            PerformanceCalculator::Comedy => {
                let mut result: u64 = 30000;
                if audience > 20 {
                    result += 10000 + 500 * (audience - 20);
                }
                result += 300 * audience;
                result
            },
        }
    }

    /// The loyalty credits earned by one performance.
    pub fn volume_credits(&self, audience: u64) -> (result: u64)
        requires
            self.spec_volume_credits(audience as nat) <= u64::MAX,
        ensures
            result == self.spec_volume_credits(audience as nat),
    {
        let mut result: u64 = audience.saturating_sub(30);
        match self {
            PerformanceCalculator::Comedy => {
                result += audience / 5;
            },
            PerformanceCalculator::Tragedy => {},
        }
        result
    }
}

} // verus!
