use vstd::prelude::*;

use crate::trial::Outcome;

verus! {

/// The running totals of heads and tails.
#[derive(Clone, Copy, Debug, PartialEq, Eq, Structural)]
pub struct AggregateCounts {
    pub heads: u64,
    pub tails: u64,
}

impl AggregateCounts {
    /// The number of trials tallied so far.
    pub open spec fn total(&self) -> int {
        self.heads + self.tails
    }

    /// No trial tallied yet.
    pub fn new() -> (r: AggregateCounts)
        ensures
            r.heads == 0,
            r.tails == 0,
    {
        AggregateCounts { heads: 0, tails: 0 }
    }

    /// Tallies one outcome: the matching field grows by one, the other stays.
    pub fn record(&mut self, outcome: Outcome)
        requires
            old(self).total() < u64::MAX,
        ensures
            outcome == Outcome::Heads ==> final(self).heads == old(self).heads + 1
                && final(self).tails == old(self).tails,
            outcome == Outcome::Tails ==> final(self).tails == old(self).tails + 1
                && final(self).heads == old(self).heads,
            final(self).total() == old(self).total() + 1,
    {
        match outcome {
            Outcome::Heads => self.heads = self.heads + 1,
            Outcome::Tails => self.tails = self.tails + 1,
        }
    }

    /// A copy of the totals.
    pub fn snapshot(&self) -> (r: AggregateCounts)
        ensures
            r == *self,
    {
        *self
    }
}

} // verus!
