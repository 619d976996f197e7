use vstd::prelude::*;

use crate::config::{heads_threshold, Config, MAX_BIAS_HUNDREDTHS};
use crate::counts::AggregateCounts;
use crate::schedule::TrialRange;
use crate::trial::{generate, outcome_for, TrialRecord, DRAW_RANGE};

verus! {

/// Hands out, one at a time, the trials of a range: each is drawn when it
/// is handed out.
#[derive(Clone, Copy, Debug, PartialEq, Eq, Structural)]
pub struct TrialCursor {
    /// The index of the last trial handed out, or the range's start.
    pub position: u64,
    /// The index of the range's last trial.
    pub end: u64,
    pub bias_hundredths: u32,
}

impl TrialCursor {
    /// The number of trials still to be handed out.
    pub open spec fn remaining(&self) -> int {
        if self.position <= self.end {
            self.end - self.position
        } else {
            0
        }
    }

    /// A cursor over the trials of `range`, drawn with the given bias.
    pub fn new(range: TrialRange, bias_hundredths: u32) -> (r: TrialCursor)
        ensures
            r.position == range.start,
            r.end == range.end,
            r.bias_hundredths == bias_hundredths,
            r.remaining() == range.len(),
    {
        TrialCursor { position: range.start, end: range.end, bias_hundredths }
    }

    /// Draws the next trial of the range and numbers it, or returns `None`
    /// once the range is used up.
    pub fn next_trial(&mut self) -> (r: Option<TrialRecord>)
        ensures
            old(self).position < old(self).end <==> r is Some,
            r matches Some(rec) ==> {
                &&& rec.index == old(self).position + 1
                &&& rec.raw_value < DRAW_RANGE
                &&& rec.outcome == outcome_for(rec.raw_value, heads_threshold(old(self).bias_hundredths))
                &&& final(self).position == old(self).position + 1
                &&& final(self).end == old(self).end
                &&& final(self).bias_hundredths == old(self).bias_hundredths
            },
            r is None ==> *final(self) == *old(self),
            final(self).remaining() == old(self).remaining() - if r is Some {
                1int
            } else {
                0int
            },
    {
        if self.position < self.end {
            let draw = generate(self.bias_hundredths);
            self.position = self.position + 1;
            Some(TrialRecord::new(self.position, draw))
        } else {
            None
        }
    }
}

/// Runs every trial of `config` on the calling thread, with no record
/// file, and returns the totals.
pub fn run_sequential(config: &Config) -> (r: AggregateCounts)
    ensures
        r.total() == config.trial_count,
        config.bias_hundredths >= MAX_BIAS_HUNDREDTHS ==> r.heads == config.trial_count,
        heads_threshold(config.bias_hundredths) == 0 ==> r.tails == config.trial_count,
{
    let mut counts = AggregateCounts::new();
    let mut cursor = TrialCursor::new(
        TrialRange { start: 0, end: config.trial_count },
        config.bias_hundredths,
    );
    loop
        invariant
            cursor.end == config.trial_count,
            cursor.bias_hundredths == config.bias_hundredths,
            cursor.position <= cursor.end,
            counts.total() == cursor.position,
            config.bias_hundredths >= MAX_BIAS_HUNDREDTHS ==> counts.heads == cursor.position,
            heads_threshold(config.bias_hundredths) == 0 ==> counts.tails == cursor.position,
        ensures
            counts.total() == config.trial_count,
            config.bias_hundredths >= MAX_BIAS_HUNDREDTHS ==> counts.heads == config.trial_count,
            heads_threshold(config.bias_hundredths) == 0 ==> counts.tails == config.trial_count,
        decreases cursor.remaining(),
    {
        match cursor.next_trial() {
            Some(rec) => counts.record(rec.outcome),
            None => break,
        }
    }
    counts
}

} // verus!
