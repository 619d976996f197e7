use vstd::prelude::*;
use vstd::string::StringSliceAdditionalSpecFns;

use crate::counts::AggregateCounts;
use crate::text::{dec_digits, push_decimal, push_str_bytes};

verus! {

/// The width of the console bar chart, in cells.
pub const CHART_WIDTH: u64 = 40;

/// `100 * part / total` in hundredths of a percent, rounded to the nearest
/// hundredth, halves up.
pub open spec fn pct_hundredths(part: nat, total: nat) -> nat
    recommends
        total > 0,
{
    (20000 * part + total) / (2 * total)
}

/// A number of hundredths written with two decimals (`7000` is `70.00`).
pub open spec fn fixed2(h: nat) -> Seq<u8> {
    dec_digits(h / 100) + ".".spec_bytes() + seq![(48 + (h % 100) / 10) as u8, (48 + h % 10) as u8]
}

/// `label`, the count, and its share of `total` as a percentage in
/// parentheses: `Heads: 700 (70.00%)`, with no newline.
pub open spec fn count_text(label: Seq<u8>, count: nat, total: nat) -> Seq<u8> {
    label + dec_digits(count) + " (".spec_bytes() + fixed2(pct_hundredths(count, total))
        + "%)".spec_bytes()
}

/// The first four lines of a summary: title, rule, trial count and bias.
pub open spec fn summary_head(total: nat, bias_hundredths: nat) -> Seq<u8> {
    "Summary Report\n==============\nTotal Trials: ".spec_bytes() + dec_digits(total)
        + "\nBias: ".spec_bytes() + fixed2(bias_hundredths) + "%\n".spec_bytes()
}

/// The summary report file: the four head lines, then one line for heads
/// and one for tails.
pub open spec fn summary_text(counts: AggregateCounts, total: nat, bias_hundredths: nat) -> Seq<
    u8,
> {
    summary_head(total, bias_hundredths) + count_text("Heads: ".spec_bytes(), counts.heads as nat, total)
        + "\n".spec_bytes() + count_text("Tails: ".spec_bytes(), counts.tails as nat, total)
        + "\n".spec_bytes()
}

/// `s` repeated `k` times.
pub open spec fn repeat(s: Seq<u8>, k: nat) -> Seq<u8>
    decreases k,
{
    if k == 0 {
        Seq::empty()
    } else {
        repeat(s, (k - 1) as nat) + s
    }
}

/// The number of chart cells for heads: the heads' share of the chart's
/// width, rounded to the nearest cell, halves up.
pub open spec fn head_cells(heads: nat, total: nat) -> nat
    recommends
        total > 0,
{
    (2 * (CHART_WIDTH as nat) * heads + total) / (2 * total)
}

/// The console chart: a blank line, then the heads cells and the tails
/// cells between brackets.
pub open spec fn chart_text(heads: nat, total: nat) -> Seq<u8> {
    "\n[".spec_bytes() + repeat("\u{1F7E9}".spec_bytes(), head_cells(heads, total)) + repeat(
        "\u{1F7E5}".spec_bytes(),
        (CHART_WIDTH - head_cells(heads, total)) as nat,
    ) + "]\n".spec_bytes()
}

/// The heads and tails lines of the console summary, green and red when
/// `color` is set.
pub open spec fn count_lines(counts: AggregateCounts, total: nat, color: bool) -> Seq<u8> {
    let heads = count_text("Heads: ".spec_bytes(), counts.heads as nat, total);
    let tails = count_text("Tails: ".spec_bytes(), counts.tails as nat, total);
    if color {
        "\u{1b}[32m".spec_bytes() + heads + "\u{1b}[0m\n".spec_bytes() + "\u{1b}[31m".spec_bytes()
            + tails + "\u{1b}[0m\n".spec_bytes()
    } else {
        heads + "\n".spec_bytes() + tails + "\n".spec_bytes()
    }
}

/// The console summary: a blank line, the head lines, the heads and tails
/// lines, and the chart when `chart` is set.
pub open spec fn console_text(
    counts: AggregateCounts,
    total: nat,
    bias_hundredths: nat,
    color: bool,
    chart: bool,
) -> Seq<u8> {
    "\n".spec_bytes() + summary_head(total, bias_hundredths) + count_lines(counts, total, color)
        + if chart {
        chart_text(counts.heads as nat, total)
    } else {
        Seq::empty()
    }
}

/// The header line of the record file.
pub open spec fn record_header() -> Seq<u8> {
    "Trial,Outcome,RandomValue\n".spec_bytes()
}

/// The header line of the record file, newline included.
pub fn csv_header() -> (r: Vec<u8>)
    ensures
        r@ == record_header(),
{
    let mut out: Vec<u8> = Vec::new();
    push_str_bytes(&mut out, "Trial,Outcome,RandomValue\n");
    out
}

/// `100 * part / total` in hundredths of a percent, rounded to the nearest
/// hundredth, halves up.
pub fn percent_hundredths(part: u64, total: u64) -> (r: u128)
    requires
        total > 0,
    ensures
        r == pct_hundredths(part as nat, total as nat),
{
    (20000u128 * part as u128 + total as u128) / (2u128 * total as u128)
}

fn push_fixed2(out: &mut Vec<u8>, h: u128)
    ensures
        final(out)@ == old(out)@ + fixed2(h as nat),
{
    push_decimal(out, h / 100);
    push_str_bytes(out, ".");
    out.push(48u8 + ((h % 100) / 10) as u8);
    out.push(48u8 + (h % 10) as u8);
    proof {
        assert(out@ =~= old(out)@ + fixed2(h as nat));
    }
}

fn push_count(out: &mut Vec<u8>, label: &str, count: u64, total: u64)
    requires
        total > 0,
    ensures
        final(out)@ == old(out)@ + count_text(label.spec_bytes(), count as nat, total as nat),
{
    push_str_bytes(out, label);
    push_decimal(out, count as u128);
    push_str_bytes(out, " (");
    push_fixed2(out, percent_hundredths(count, total));
    push_str_bytes(out, "%)");
    proof {
        assert(out@ =~= old(out)@ + count_text(label.spec_bytes(), count as nat, total as nat));
    }
}

fn push_head(out: &mut Vec<u8>, total: u64, bias_hundredths: u32)
    ensures
        final(out)@ == old(out)@ + summary_head(total as nat, bias_hundredths as nat),
{
    push_str_bytes(out, "Summary Report\n==============\nTotal Trials: ");
    push_decimal(out, total as u128);
    push_str_bytes(out, "\nBias: ");
    push_fixed2(out, bias_hundredths as u128);
    push_str_bytes(out, "%\n");
    proof {
        assert(out@ =~= old(out)@ + summary_head(total as nat, bias_hundredths as nat));
    }
}

/// The summary report file for the final totals of a run of `trial_count`
/// trials at the given bias.
pub fn render_summary(counts: &AggregateCounts, trial_count: u64, bias_hundredths: u32) -> (r:
    Vec<u8>)
    requires
        trial_count > 0,
    ensures
        r@ == summary_text(*counts, trial_count as nat, bias_hundredths as nat),
{
    let mut out: Vec<u8> = Vec::new();
    push_head(&mut out, trial_count, bias_hundredths);
    push_count(&mut out, "Heads: ", counts.heads, trial_count);
    push_str_bytes(&mut out, "\n");
    push_count(&mut out, "Tails: ", counts.tails, trial_count);
    push_str_bytes(&mut out, "\n");
    proof {
        assert(out@ =~= summary_text(*counts, trial_count as nat, bias_hundredths as nat));
    }
    out
}

fn push_repeat(out: &mut Vec<u8>, s: &str, k: u64)
    ensures
        final(out)@ == old(out)@ + repeat(s.spec_bytes(), k as nat),
{
    let mut i: u64 = 0;
    while i < k
        invariant
            i <= k,
            out@ == old(out)@ + repeat(s.spec_bytes(), i as nat),
        decreases k - i,
    {
        push_str_bytes(out, s);
        i = i + 1;
        proof {
            assert(out@ =~= old(out)@ + repeat(s.spec_bytes(), i as nat));
        }
    }
}

/// The number of chart cells for heads.
pub fn chart_head_cells(heads: u64, total: u64) -> (r: u64)
    requires
        total > 0,
        heads <= total,
    ensures
        r == head_cells(heads as nat, total as nat),
        r <= CHART_WIDTH,
{
    let h = heads as u128;
    let t = total as u128;
    let r = (80 * h + t) / (2 * t);
    assert(r <= CHART_WIDTH) by (nonlinear_arith)
        requires
            r == (80 * h + t) / (2 * t),
            h == heads,
            t == total,
            heads <= total,
            total > 0,
    {
        assert(80 * h + t < 82 * t);
    }
    r as u64
}

/// The summary as printed on the console.
pub fn render_console(
    counts: &AggregateCounts,
    trial_count: u64,
    bias_hundredths: u32,
    color: bool,
    chart: bool,
) -> (r: Vec<u8>)
    requires
        trial_count > 0,
        chart ==> counts.heads <= trial_count,
    ensures
        r@ == console_text(*counts, trial_count as nat, bias_hundredths as nat, color, chart),
{
    let mut out: Vec<u8> = Vec::new();
    push_str_bytes(&mut out, "\n");
    push_head(&mut out, trial_count, bias_hundredths);
    push_count_lines(&mut out, counts, trial_count, color);
    if chart {
        push_chart(&mut out, counts.heads, trial_count);
    }
    proof {
        assert(out@ =~= console_text(
            *counts,
            trial_count as nat,
            bias_hundredths as nat,
            color,
            chart,
        ));
    }
    out
}

fn push_count_lines(out: &mut Vec<u8>, counts: &AggregateCounts, total: u64, color: bool)
    requires
        total > 0,
    ensures
        final(out)@ == old(out)@ + count_lines(*counts, total as nat, color),
{
    if color {
        push_str_bytes(out, "\u{1b}[32m");
        push_count(out, "Heads: ", counts.heads, total);
        push_str_bytes(out, "\u{1b}[0m\n");
        push_str_bytes(out, "\u{1b}[31m");
        push_count(out, "Tails: ", counts.tails, total);
        push_str_bytes(out, "\u{1b}[0m\n");
    } else {
        push_count(out, "Heads: ", counts.heads, total);
        push_str_bytes(out, "\n");
        push_count(out, "Tails: ", counts.tails, total);
        push_str_bytes(out, "\n");
    }
    proof {
        assert(out@ =~= old(out)@ + count_lines(*counts, total as nat, color));
    }
}

fn push_chart(out: &mut Vec<u8>, heads: u64, total: u64)
    requires
        total > 0,
        heads <= total,
    ensures
        final(out)@ == old(out)@ + chart_text(heads as nat, total as nat),
{
    let cells = chart_head_cells(heads, total);
    push_str_bytes(out, "\n[");
    push_repeat(out, "\u{1F7E9}", cells);
    push_repeat(out, "\u{1F7E5}", CHART_WIDTH - cells);
    push_str_bytes(out, "]\n");
    proof {
        assert(out@ =~= old(out)@ + chart_text(heads as nat, total as nat));
    }
}

} // verus!
