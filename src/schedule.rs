use vstd::arithmetic::div_mod::lemma_fundamental_div_mod;
use vstd::arithmetic::mul::{lemma_mul_basics, lemma_mul_is_commutative, lemma_mul_is_distributive_add_other_way};
use vstd::prelude::*;

verus! {

/// The trials with indices in `start + 1 ..= end`, handed to one worker.
#[derive(Clone, Copy, Debug, PartialEq, Eq, Structural)]
pub struct TrialRange {
    pub start: u64,
    pub end: u64,
}

impl TrialRange {
    /// Whether the trial with index `i` belongs to this range.
    pub open spec fn holds(&self, i: int) -> bool {
        self.start < i <= self.end
    }

    /// The number of trials in this range.
    pub open spec fn len(&self) -> int {
        if self.start <= self.end {
            self.end - self.start
        } else {
            0
        }
    }
}

/// Where worker `k` of `w` begins when `n` trials are split among them: the
/// first `n % w` workers take one trial more than the others.
pub open spec fn split_point(n: nat, w: nat, k: nat) -> int {
    k * (n / w) + if k < n % w {
        k as int
    } else {
        (n % w) as int
    }
}

/// `ranges` is the split of `n` trials among `w` workers.
pub open spec fn is_split(ranges: Seq<TrialRange>, n: nat, w: nat) -> bool {
    &&& ranges.len() == w
    &&& forall|k: int|
        0 <= k < w ==> (#[trigger] ranges[k]).start == split_point(n, w, k as nat) && ranges[k].end
            == split_point(n, w, (k + 1) as nat)
}

/// Some range of `ranges` holds the trial with index `i`.
pub open spec fn in_some_range(ranges: Seq<TrialRange>, i: int) -> bool {
    exists|k: int| 0 <= k < ranges.len() && #[trigger] ranges[k].holds(i)
}

/// The number of trials in all of `ranges`.
pub open spec fn total_len(ranges: Seq<TrialRange>) -> int
    decreases ranges.len(),
{
    if ranges.len() == 0 {
        0
    } else {
        total_len(ranges.drop_last()) + ranges.last().len()
    }
}

proof fn lemma_split_step(n: nat, w: nat, k: nat)
    requires
        w > 0,
        k < w,
    ensures
        split_point(n, w, k + 1) == split_point(n, w, k) + n / w + if k < n % w {
            1int
        } else {
            0int
        },
{
    lemma_mul_is_distributive_add_other_way((n / w) as int, k as int, 1);
}

proof fn lemma_split_ends(n: nat, w: nat)
    requires
        w > 0,
    ensures
        split_point(n, w, 0) == 0,
        split_point(n, w, w) == n,
{
    lemma_fundamental_div_mod(n as int, w as int);
    lemma_mul_is_commutative(w as int, (n / w) as int);
    lemma_mul_basics((n / w) as int);
}

proof fn lemma_split_monotone(n: nat, w: nat, j: nat, k: nat)
    requires
        w > 0,
        j <= k <= w,
    ensures
        split_point(n, w, j) <= split_point(n, w, k),
    decreases k - j,
{
    if j < k {
        lemma_split_step(n, w, j);
        lemma_split_monotone(n, w, j + 1, k);
    }
}

/// Splits the trial indices `1..=trial_count` into `worker_count` contiguous
/// ranges, in order, whose sizes differ by at most one.
pub fn partition(trial_count: u64, worker_count: usize) -> (r: Vec<TrialRange>)
    requires
        worker_count >= 1,
    ensures
        is_split(r@, trial_count as nat, worker_count as nat),
{
    let ghost n = trial_count as nat;
    let ghost w = worker_count as nat;
    let wc = worker_count as u64;
    let q = trial_count / wc;
    let extra = trial_count % wc;
    let mut ranges: Vec<TrialRange> = Vec::new();
    let mut start: u64 = 0;
    let mut k: usize = 0;
    proof {
        lemma_split_ends(n, w);
    }
    while k < worker_count
        invariant
            k <= worker_count,
            n == trial_count,
            w == worker_count,
            w >= 1,
            wc == w,
            q == n / w,
            extra == n % w,
            start == split_point(n, w, k as nat),
            ranges@.len() == k,
            forall|i: int|
                0 <= i < k ==> (#[trigger] ranges@[i]).start == split_point(n, w, i as nat)
                    && ranges@[i].end == split_point(n, w, (i + 1) as nat),
        decreases worker_count - k,
    {
        proof {
            lemma_split_step(n, w, k as nat);
            lemma_split_monotone(n, w, (k + 1) as nat, w);
            lemma_split_ends(n, w);
        }
        let step: u64 = if (k as u64) < extra { q + 1 } else { q };
        let end = start + step;
        ranges.push(TrialRange { start, end });
        start = end;
        k = k + 1;
    }
    ranges
}

/// The split covers every trial index exactly once: each index in
/// `1..=n` lies in exactly one range, no range holds an index outside
/// `1..=n`, and the ranges hold `n` trials in all.
pub proof fn lemma_split_covers(ranges: Seq<TrialRange>, n: nat, w: nat)
    requires
        w >= 1,
        is_split(ranges, n, w),
    ensures
        forall|i: int| 1 <= i <= n ==> #[trigger] in_some_range(ranges, i),
        forall|i: int, j: int, k: int|
            0 <= j < w && 0 <= k < w && #[trigger] ranges[j].holds(i) && #[trigger] ranges[k].holds(
                i,
            ) ==> j == k,
        forall|i: int, k: int| 0 <= k < w && #[trigger] ranges[k].holds(i) ==> 1 <= i <= n,
        total_len(ranges) == n,
{
    lemma_split_ends(n, w);
    assert forall|i: int| 1 <= i <= n implies #[trigger] in_some_range(ranges, i) by {
        lemma_find_range(ranges, n, w, w, i);
    }
    assert forall|i: int, j: int, k: int|
        0 <= j < w && 0 <= k < w && #[trigger] ranges[j].holds(i) && #[trigger] ranges[k].holds(
            i,
        ) implies j == k by {
        if j < k {
            lemma_split_monotone(n, w, (j + 1) as nat, k as nat);
        } else if k < j {
            lemma_split_monotone(n, w, (k + 1) as nat, j as nat);
        }
    }
    assert forall|i: int, k: int| 0 <= k < w && #[trigger] ranges[k].holds(i) implies 1 <= i
        <= n by {
        lemma_split_monotone(n, w, 0, k as nat);
        lemma_split_monotone(n, w, (k + 1) as nat, w);
    }
    lemma_total_len_prefix(ranges, n, w, w);
    assert(ranges.subrange(0, w as int) =~= ranges);
}

proof fn lemma_find_range(ranges: Seq<TrialRange>, n: nat, w: nat, m: nat, i: int)
    requires
        w >= 1,
        m <= w,
        is_split(ranges, n, w),
        0 < i <= split_point(n, w, m),
    ensures
        exists|k: int| 0 <= k < m && #[trigger] ranges[k].holds(i),
    decreases m,
{
    lemma_split_ends(n, w);
    if m > 0 {
        let k = (m - 1) as int;
        assert(ranges[k].start == split_point(n, w, k as nat));
        if i <= split_point(n, w, (m - 1) as nat) {
            lemma_find_range(ranges, n, w, (m - 1) as nat, i);
            let k2 = choose|k2: int| 0 <= k2 < m - 1 && #[trigger] ranges[k2].holds(i);
            assert(ranges[k2].holds(i));
        } else {
            assert(ranges[k].holds(i));
        }
    }
}

proof fn lemma_total_len_prefix(ranges: Seq<TrialRange>, n: nat, w: nat, m: nat)
    requires
        w >= 1,
        m <= w,
        is_split(ranges, n, w),
    ensures
        total_len(ranges.subrange(0, m as int)) == split_point(n, w, m),
    decreases m,
{
    lemma_split_ends(n, w);
    if m > 0 {
        let prefix = ranges.subrange(0, m as int);
        lemma_total_len_prefix(ranges, n, w, (m - 1) as nat);
        assert(prefix.drop_last() =~= ranges.subrange(0, m - 1));
        let k = (m - 1) as int;
        assert(ranges[k].start == split_point(n, w, k as nat));
        lemma_split_monotone(n, w, k as nat, m);
    }
}

} // verus!
