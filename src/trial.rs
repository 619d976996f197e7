use vstd::prelude::*;
use vstd::string::StringSliceAdditionalSpecFns;

use crate::config::{heads_threshold, threshold_of, MAX_BIAS_HUNDREDTHS};
use crate::text::{dec_digits, push_decimal, push_str_bytes};

verus! {

/// The side a coin lands on.
#[derive(Clone, Copy, Debug, PartialEq, Eq, Structural)]
pub enum Outcome {
    Heads,
    Tails,
}

/// One draw before it is numbered: the outcome and the value it came from.
#[derive(Clone, Copy, Debug, PartialEq, Eq, Structural)]
pub struct TrialDraw {
    pub outcome: Outcome,
    pub raw_value: u32,
}

/// One numbered trial, as the record file holds it.
#[derive(Clone, Copy, Debug, PartialEq, Eq, Structural)]
pub struct TrialRecord {
    pub index: u64,
    pub outcome: Outcome,
    pub raw_value: u32,
}

/// The number of values a draw ranges over: `0..100`.
pub const DRAW_RANGE: u32 = 100;

/// The outcome of the draw `raw` when draws below `threshold` are heads.
pub open spec fn outcome_for(raw: u32, threshold: int) -> Outcome {
    if raw < threshold {
        Outcome::Heads
    } else {
        Outcome::Tails
    }
}

/// The code of an outcome in the record file.
pub open spec fn outcome_code(o: Outcome) -> Seq<u8> {
    match o {
        Outcome::Heads => "H".spec_bytes(),
        Outcome::Tails => "T".spec_bytes(),
    }
}

/// One line of the record file: `index,code,raw_value` and a newline.
pub open spec fn record_line(r: TrialRecord) -> Seq<u8> {
    dec_digits(r.index as nat) + ",".spec_bytes() + outcome_code(r.outcome) + ",".spec_bytes()
        + dec_digits(r.raw_value as nat) + "\n".spec_bytes()
}

/// Relies on rand::random_range: over `0..100` it returns a value of that
/// range, drawn from the calling thread's own generator.
#[verifier::external_body]
fn draw_percent() -> (r: u32)
    ensures
        r < DRAW_RANGE,
{
    rand::random_range(0u32..100u32)
}

impl Outcome {
    /// The outcome's code in the record file, `H` or `T`.
    pub fn code(&self) -> (r: &'static str)
        ensures
            r.spec_bytes() == outcome_code(*self),
    {
        match self {
            Outcome::Heads => "H",
            Outcome::Tails => "T",
        }
    }
}

/// The outcome of the draw `raw` when draws below `threshold` are heads.
pub fn classify(raw: u32, threshold: u32) -> (r: Outcome)
    ensures
        r == outcome_for(raw, threshold as int),
{
    if raw < threshold {
        Outcome::Heads
    } else {
        Outcome::Tails
    }
}

/// Draws one trial: a value uniform over `0..100`, heads when it lies below
/// the bias rounded to a whole percent.
pub fn generate(bias_hundredths: u32) -> (r: TrialDraw)
    ensures
        r.raw_value < DRAW_RANGE,
        r.outcome == outcome_for(r.raw_value, heads_threshold(bias_hundredths)),
{
    let raw_value = draw_percent();
    let outcome = classify(raw_value, threshold_of(bias_hundredths));
    TrialDraw { outcome, raw_value }
}

/// At a bias of 100.00% every draw is heads, and at 0.00% every draw is
/// tails, whatever value was drawn.
pub proof fn lemma_boundary_bias(raw: u32)
    requires
        raw < DRAW_RANGE,
    ensures
        outcome_for(raw, heads_threshold(MAX_BIAS_HUNDREDTHS)) == Outcome::Heads,
        outcome_for(raw, heads_threshold(0)) == Outcome::Tails,
{
}

impl TrialRecord {
    /// Numbers a draw.
    pub fn new(index: u64, draw: TrialDraw) -> (r: TrialRecord)
        ensures
            r.index == index,
            r.outcome == draw.outcome,
            r.raw_value == draw.raw_value,
    {
        TrialRecord { index, outcome: draw.outcome, raw_value: draw.raw_value }
    }

    /// The record's line in the record file, newline included.
    pub fn to_line(&self) -> (r: Vec<u8>)
        ensures
            r@ == record_line(*self),
    {
        let mut out: Vec<u8> = Vec::new();
        push_decimal(&mut out, self.index as u128);
        push_str_bytes(&mut out, ",");
        push_str_bytes(&mut out, self.outcome.code());
        push_str_bytes(&mut out, ",");
        push_decimal(&mut out, self.raw_value as u128);
        push_str_bytes(&mut out, "\n");
        proof {
            assert(out@ =~= record_line(*self));
        }
        out
    }
}

} // verus!
