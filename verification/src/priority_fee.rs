//! Priority-fee estimation from recent per-account fee observations.
//!
//! The estimator is a pure function of the observation sample the network
//! returned: observations are sorted by slot, most recent first, split into
//! consecutive chunks of [`FEE_CHUNK_SIZE`] observations of which at most
//! the three most recent are considered, and the named levels are the
//! nearest-rank percentiles (70/75/80/85/95) of the fee values in the last
//! chunk considered.  Keeping only the last chunk's percentiles mirrors the
//! established numeric behaviour of this estimator, even though it can
//! under-estimate when congestion is recent.

use vstd::prelude::*;
use vstd::seq_lib::*;
use vstd::multiset::Multiset;
use vstd::assert_seqs_equal;
use crate::config::SmartTxPriorityFeeConfig;

verus! {

/// A requested fee level: a closed set of named percentile levels plus an
/// explicit caller-supplied amount.  `NoFee` means no priority fee at all.
#[derive(Clone, Copy, Debug, PartialEq, Eq, Hash, PartialOrd, Ord, Structural)]
pub enum PriorityFeeLevel {
    NoFee,
    Low,
    Medium,
    High,
    VeryHigh,
    Ultimate,
    Custom(u64),
}

/// One fee observation the network reported for a recent slot.
#[derive(Clone, Copy, Debug, PartialEq, Eq, Structural)]
pub struct FeeObservation {
    /// The slot the observation belongs to.
    pub slot: u64,
    /// The priority fee observed there, in micro-lamports per compute unit.
    pub prioritization_fee: u64,
}

/// The five nearest-rank percentiles of one fee sample.
#[derive(Clone, Copy, Debug, PartialEq, Eq, Structural)]
pub struct FeePercentiles {
    pub p70: u64,
    pub p75: u64,
    pub p80: u64,
    pub p85: u64,
    pub p95: u64,
}

/// Fee estimates for the five named levels.
#[derive(Clone, Copy, Debug, PartialEq, Eq, Structural)]
pub struct PriorityFeeEstimates {
    pub low: u64,
    pub medium: u64,
    pub high: u64,
    pub very_high: u64,
    pub ultimate: u64,
}

impl PriorityFeeEstimates {
    /// All five named levels estimate to zero.
    pub open spec fn all_zero(&self) -> bool {
        self.low == 0 && self.medium == 0 && self.high == 0 && self.very_high == 0
            && self.ultimate == 0
    }
}

/// Observations are grouped into consecutive chunks of this many entries.
pub const FEE_CHUNK_SIZE: usize = 150;

/// At most this many of the most recent chunks are considered.
pub const FEE_CHUNK_COUNT: usize = 3;

// ---------------------------------------------------------------------------
// Sorting, specified as stable insertion sort.
// ---------------------------------------------------------------------------

pub open spec fn sorted_asc(s: Seq<u64>) -> bool {
    forall|i: int, j: int| 0 <= i < j < s.len() ==> s[i] <= s[j]
}

/// Insert `x` into `s` before the first element it is at most equal to.
pub open spec fn insert_asc(s: Seq<u64>, x: u64) -> Seq<u64>
    decreases s.len(),
{
    if s.len() == 0 {
        seq![x]
    } else if x <= s[0] {
        seq![x] + s
    } else {
        seq![s[0]] + insert_asc(s.drop_first(), x)
    }
}

/// Ascending insertion sort, taking the elements left to right.
pub open spec fn sort_asc(s: Seq<u64>) -> Seq<u64>
    decreases s.len(),
{
    if s.len() == 0 {
        Seq::<u64>::empty()
    } else {
        insert_asc(sort_asc(s.drop_last()), s.last())
    }
}

/// Insert an observation behind every at-least-as-recent one, so that
/// repeated insertion sorts by slot descending and stays stable on ties.
pub open spec fn insert_by_slot_desc(s: Seq<FeeObservation>, x: FeeObservation) -> Seq<
    FeeObservation,
>
    decreases s.len(),
{
    if s.len() == 0 {
        seq![x]
    } else if s[0].slot >= x.slot {
        seq![s[0]] + insert_by_slot_desc(s.drop_first(), x)
    } else {
        seq![x] + s
    }
}

/// Stable sort by slot descending, taking the elements left to right.
pub open spec fn sort_by_slot_desc(s: Seq<FeeObservation>) -> Seq<FeeObservation>
    decreases s.len(),
{
    if s.len() == 0 {
        Seq::<FeeObservation>::empty()
    } else {
        insert_by_slot_desc(sort_by_slot_desc(s.drop_last()), s.last())
    }
}

proof fn lemma_insert_asc_split(s: Seq<u64>, x: u64, i: int)
    requires
        0 <= i <= s.len(),
        forall|j: int| 0 <= j < i ==> s[j] < x,
        i < s.len() ==> x <= s[i],
    ensures
        insert_asc(s, x) == s.take(i) + seq![x] + s.skip(i),
    decreases i,
{
    if i == 0 {
        if s.len() == 0 {
            assert_seqs_equal!(insert_asc(s, x), s.take(0) + seq![x] + s.skip(0));
        } else {
            assert_seqs_equal!(seq![x] + s, s.take(0) + seq![x] + s.skip(0));
        }
    } else {
        let t = s.drop_first();
        assert(forall|j: int| 0 <= j < i - 1 ==> t[j] == s[j + 1]);
        lemma_insert_asc_split(t, x, i - 1);
        assert_seqs_equal!(
            seq![s[0]] + (t.take(i - 1) + seq![x] + t.skip(i - 1)),
            s.take(i) + seq![x] + s.skip(i)
        );
    }
}

proof fn lemma_insert_by_slot_desc_split(s: Seq<FeeObservation>, x: FeeObservation, i: int)
    requires
        0 <= i <= s.len(),
        forall|j: int| 0 <= j < i ==> s[j].slot >= x.slot,
        i < s.len() ==> s[i].slot < x.slot,
    ensures
        insert_by_slot_desc(s, x) == s.take(i) + seq![x] + s.skip(i),
    decreases i,
{
    if i == 0 {
        if s.len() == 0 {
            assert_seqs_equal!(insert_by_slot_desc(s, x), s.take(0) + seq![x] + s.skip(0));
        } else {
            assert_seqs_equal!(seq![x] + s, s.take(0) + seq![x] + s.skip(0));
        }
    } else {
        let t = s.drop_first();
        assert(forall|j: int| 0 <= j < i - 1 ==> t[j] == s[j + 1]);
        lemma_insert_by_slot_desc_split(t, x, i - 1);
        assert_seqs_equal!(
            seq![s[0]] + (t.take(i - 1) + seq![x] + t.skip(i - 1)),
            s.take(i) + seq![x] + s.skip(i)
        );
    }
}

/// Inserting into an ascending sequence keeps it ascending.
proof fn lemma_insert_asc_sorted(s: Seq<u64>, x: u64)
    requires
        sorted_asc(s),
    ensures
        sorted_asc(insert_asc(s, x)),
    decreases s.len(),
{
    if s.len() == 0 {
    } else if x <= s[0] {
        assert(forall|k: int| 0 <= k < s.len() ==> (seq![x] + s)[k + 1] == s[k]);
    } else {
        let t = s.drop_first();
        assert(forall|i: int, j: int| 0 <= i < j < t.len() ==> t[i] <= t[j]);
        lemma_insert_asc_sorted(t, x);
        let r = seq![s[0]] + insert_asc(t, x);
        assert(forall|k: int| 0 <= k < insert_asc(t, x).len() ==> r[k + 1] == insert_asc(t, x)[k]);
        assert forall|i: int, j: int| 0 <= i < j < r.len() implies r[i] <= r[j] by {
            if i == 0 {
                lemma_insert_asc_members(t, x, j - 1);
            }
        }
    }
}

/// Every element of `insert_asc(s, x)` is `x` or an element of `s`.
proof fn lemma_insert_asc_members(s: Seq<u64>, x: u64, k: int)
    requires
        0 <= k < insert_asc(s, x).len(),
    ensures
        insert_asc(s, x)[k] == x || exists|j: int| 0 <= j < s.len() && insert_asc(s, x)[k] == s[j],
    decreases s.len(),
{
    if s.len() == 0 {
    } else if x <= s[0] {
        if k > 0 {
            assert(insert_asc(s, x)[k] == s[k - 1]);
        }
    } else {
        if k > 0 {
            let t = s.drop_first();
            lemma_insert_asc_members(t, x, k - 1);
            assert(insert_asc(s, x)[k] == insert_asc(t, x)[k - 1]);
            if insert_asc(t, x)[k - 1] != x {
                let j = choose|j: int| 0 <= j < t.len() && insert_asc(t, x)[k - 1] == t[j];
                assert(insert_asc(s, x)[k] == s[j + 1]);
            }
        }
    }
}

/// The ascending sort holds exactly the elements of its input.
pub proof fn lemma_sort_asc_permutes(s: Seq<u64>)
    ensures
        sort_asc(s).to_multiset() == s.to_multiset(),
        sort_asc(s).len() == s.len(),
    decreases s.len(),
{
    broadcast use vstd::seq_lib::group_to_multiset_ensures;

    if s.len() == 0 {
        assert(sort_asc(s).to_multiset() =~= s.to_multiset());
    } else {
        lemma_sort_asc_permutes(s.drop_last());
        lemma_insert_asc_multiset(sort_asc(s.drop_last()), s.last());
        assert(s =~= s.drop_last().push(s.last()));
        assert(s.drop_last().push(s.last()).to_multiset() =~= s.drop_last().to_multiset().insert(
            s.last(),
        ));
    }
}

proof fn lemma_insert_asc_multiset(s: Seq<u64>, x: u64)
    ensures
        insert_asc(s, x).to_multiset() == s.to_multiset().insert(x),
        insert_asc(s, x).len() == s.len() + 1,
    decreases s.len(),
{
    broadcast use vstd::seq_lib::group_to_multiset_ensures;

    if s.len() == 0 {
        assert(insert_asc(s, x) =~= seq![x]);
        assert(seq![x].to_multiset() =~= s.to_multiset().insert(x));
    } else if x <= s[0] {
        assert(seq![x] + s =~= s.insert(0, x));
        vstd::seq_lib::lemma_seq_union_to_multiset_commutative(seq![x], s);
        assert(seq![x].to_multiset() =~= Multiset::<u64>::empty().insert(x));
    } else {
        let t = s.drop_first();
        lemma_insert_asc_multiset(t, x);
        assert(seq![s[0]] + insert_asc(t, x) =~= insert_asc(t, x).insert(0, s[0]));
        assert((seq![s[0]] + insert_asc(t, x)).to_multiset() =~= insert_asc(
            t,
            x,
        ).to_multiset().insert(s[0]));
        assert(s =~= t.insert(0, s[0]));
        assert(s.to_multiset() =~= t.to_multiset().insert(s[0]));
        assert(t.to_multiset().insert(x).insert(s[0]) =~= t.to_multiset().insert(s[0]).insert(x));
    }
}

/// The ascending sort is sorted.
pub proof fn lemma_sort_asc_sorted(s: Seq<u64>)
    ensures
        sorted_asc(sort_asc(s)),
    decreases s.len(),
{
    if s.len() > 0 {
        lemma_sort_asc_sorted(s.drop_last());
        lemma_insert_asc_sorted(sort_asc(s.drop_last()), s.last());
    }
}

/// Insert `x` into an ascending vector, keeping it ascending.
fn push_sorted_asc(v: &mut Vec<u64>, x: u64)
    ensures
        final(v)@ == insert_asc(old(v)@, x),
{
    let ghost s = v@;
    let mut i: usize = 0;
    while i < v.len() && v[i] < x
        invariant
            0 <= i <= v@.len(),
            v@ == s,
            forall|j: int| 0 <= j < i ==> s[j] < x,
        decreases v@.len() - i,
    {
        i = i + 1;
    }
    v.insert(i, x);
    proof {
        lemma_insert_asc_split(s, x, i as int);
        assert_seqs_equal!(s.insert(i as int, x), s.take(i as int) + seq![x] + s.skip(i as int));
    }
}

/// Insert an observation into a slot-descending vector, behind every
/// at-least-as-recent one.
fn push_sorted_by_slot_desc(v: &mut Vec<FeeObservation>, x: FeeObservation)
    ensures
        final(v)@ == insert_by_slot_desc(old(v)@, x),
{
    let ghost s = v@;
    let mut i: usize = 0;
    while i < v.len() && v[i].slot >= x.slot
        invariant
            0 <= i <= v@.len(),
            v@ == s,
            forall|j: int| 0 <= j < i ==> s[j].slot >= x.slot,
        decreases v@.len() - i,
    {
        i = i + 1;
    }
    v.insert(i, x);
    proof {
        lemma_insert_by_slot_desc_split(s, x, i as int);
        assert_seqs_equal!(s.insert(i as int, x), s.take(i as int) + seq![x] + s.skip(i as int));
    }
}

/// A copy of `fees`, sorted ascending.
pub fn sorted_fees_asc(fees: &Vec<u64>) -> (r: Vec<u64>)
    ensures
        r@ == sort_asc(fees@),
{
    let mut r: Vec<u64> = Vec::new();
    let mut i: usize = 0;
    while i < fees.len()
        invariant
            0 <= i <= fees@.len(),
            r@ == sort_asc(fees@.take(i as int)),
        decreases fees@.len() - i,
    {
        push_sorted_asc(&mut r, fees[i]);
        proof {
            assert(fees@.take(i + 1 as int).drop_last() =~= fees@.take(i as int));
            assert(fees@.take(i + 1 as int).last() == fees@[i as int]);
        }
        i = i + 1;
    }
    proof {
        assert(fees@.take(fees@.len() as int) =~= fees@);
    }
    r
}

/// A copy of `observations`, stably sorted by slot descending.
pub fn sorted_observations_desc(observations: &Vec<FeeObservation>) -> (r: Vec<FeeObservation>)
    ensures
        r@ == sort_by_slot_desc(observations@),
{
    let mut r: Vec<FeeObservation> = Vec::new();
    let mut i: usize = 0;
    while i < observations.len()
        invariant
            0 <= i <= observations@.len(),
            r@ == sort_by_slot_desc(observations@.take(i as int)),
        decreases observations@.len() - i,
    {
        push_sorted_by_slot_desc(&mut r, observations[i]);
        proof {
            assert(observations@.take(i + 1 as int).drop_last() =~= observations@.take(i as int));
            assert(observations@.take(i + 1 as int).last() == observations@[i as int]);
        }
        i = i + 1;
    }
    proof {
        assert(observations@.take(observations@.len() as int) =~= observations@);
    }
    r
}

// ---------------------------------------------------------------------------
// Nearest-rank percentiles.
// ---------------------------------------------------------------------------

/// One-based nearest-rank index: `ceil(p * n / 100)`, clamped to `1..=n`.
pub open spec fn nearest_rank_index(p: int, n: int) -> int {
    let raw = (p * n + 99) / 100;
    if raw < 1 {
        1
    } else if raw > n {
        n
    } else {
        raw
    }
}

/// The nearest-rank `p`-th percentile of a non-empty ascending sequence.
pub open spec fn percentile_of_sorted(sorted: Seq<u64>, p: int) -> u64 {
    sorted[nearest_rank_index(p, sorted.len() as int) - 1]
}

/// The five percentiles of a non-empty fee sample.
pub open spec fn spec_percentiles(fees: Seq<u64>) -> FeePercentiles {
    let sorted = sort_asc(fees);
    FeePercentiles {
        p70: percentile_of_sorted(sorted, 70),
        p75: percentile_of_sorted(sorted, 75),
        p80: percentile_of_sorted(sorted, 80),
        p85: percentile_of_sorted(sorted, 85),
        p95: percentile_of_sorted(sorted, 95),
    }
}

/// Nearest-rank percentile lookup in an ascending vector.
fn percentile_entry(sorted: &Vec<u64>, p: usize) -> (r: u64)
    requires
        sorted@.len() > 0,
        1 <= p <= 100,
        sorted@.len() <= 0x20_0000,
    ensures
        r == percentile_of_sorted(sorted@, p as int),
{
    let n = sorted.len();
    proof {
        assert(p * n <= 100 * 0x20_0000) by (nonlinear_arith)
            requires
                p <= 100,
                n <= 0x20_0000,
        ;
    }
    let raw = (p * n + 99) / 100;
    let index = if raw < 1 {
        1
    } else if raw > n {
        n
    } else {
        raw
    };
    sorted[index - 1]
}

/// The 70th/75th/80th/85th/95th nearest-rank percentiles of `fees`.
///
/// The index of the `p`-th percentile is `ceil(p/100 * n)` clamped to
/// `1..=n`, one-based into the ascending-sorted sample.
pub fn calculate_percentiles(fees: &Vec<u64>) -> (r: FeePercentiles)
    requires
        fees@.len() > 0,
        fees@.len() <= 0x20_0000,
    ensures
        r == spec_percentiles(fees@),
{
    let sorted = sorted_fees_asc(fees);
    proof {
        lemma_sort_asc_permutes(fees@);
    }
    FeePercentiles {
        p70: percentile_entry(&sorted, 70),
        p75: percentile_entry(&sorted, 75),
        p80: percentile_entry(&sorted, 80),
        p85: percentile_entry(&sorted, 85),
        p95: percentile_entry(&sorted, 95),
    }
}

// ---------------------------------------------------------------------------
// Chunking and the level estimates.
// ---------------------------------------------------------------------------

/// How many chunks of [`FEE_CHUNK_SIZE`] are considered: at most
/// [`FEE_CHUNK_COUNT`], counted over a non-empty sample of length `n`.
pub open spec fn considered_chunk_count(n: int) -> int {
    if n > 2 * FEE_CHUNK_SIZE {
        3
    } else if n > FEE_CHUNK_SIZE {
        2
    } else {
        1
    }
}

/// The last chunk considered of a non-empty slot-descending sample: the
/// `k`-th chunk of [`FEE_CHUNK_SIZE`] observations, where `k` is
/// [`considered_chunk_count`].
pub open spec fn last_considered_chunk(s: Seq<FeeObservation>) -> Seq<FeeObservation> {
    let k = considered_chunk_count(s.len() as int);
    let start = (k - 1) * FEE_CHUNK_SIZE;
    let end = if s.len() as int <= k * FEE_CHUNK_SIZE {
        s.len() as int
    } else {
        k * FEE_CHUNK_SIZE
    };
    s.subrange(start, end)
}

/// The fee values of a chunk, in order.
pub open spec fn fees_of(s: Seq<FeeObservation>) -> Seq<u64> {
    s.map_values(|o: FeeObservation| o.prioritization_fee)
}

/// What the estimator returns for a given observation sample: all zero for
/// an empty sample, else the percentiles of the last considered chunk of
/// the slot-descending sample, mapped 70→Low, 75→Medium, 80→High,
/// 85→VeryHigh, 95→Ultimate.
pub open spec fn spec_fee_levels(observations: Seq<FeeObservation>) -> PriorityFeeEstimates {
    if observations.len() == 0 {
        PriorityFeeEstimates { low: 0, medium: 0, high: 0, very_high: 0, ultimate: 0 }
    } else {
        let chunk = last_considered_chunk(sort_by_slot_desc(observations));
        let pct = spec_percentiles(fees_of(chunk));
        PriorityFeeEstimates {
            low: pct.p70,
            medium: pct.p75,
            high: pct.p80,
            very_high: pct.p85,
            ultimate: pct.p95,
        }
    }
}

/// Estimate the five named levels from a recent observation sample.
///
/// An empty sample estimates every level to zero.
pub fn get_priority_fee_levels_estimate(observations: &Vec<FeeObservation>) -> (r:
    PriorityFeeEstimates)
    ensures
        r == spec_fee_levels(observations@),
        observations@.len() == 0 ==> r.all_zero(),
{
    if observations.len() == 0 {
        return PriorityFeeEstimates { low: 0, medium: 0, high: 0, very_high: 0, ultimate: 0 };
    }
    let sorted = sorted_observations_desc(observations);
    proof {
        lemma_sort_by_slot_desc_len(observations@);
    }
    let n = sorted.len();
    let k: usize = if n > 2 * FEE_CHUNK_SIZE {
        FEE_CHUNK_COUNT
    } else if n > FEE_CHUNK_SIZE {
        2
    } else {
        1
    };
    let start = (k - 1) * FEE_CHUNK_SIZE;
    let end = if n <= k * FEE_CHUNK_SIZE {
        n
    } else {
        k * FEE_CHUNK_SIZE
    };
    let mut chunk_fees: Vec<u64> = Vec::new();
    let mut i: usize = start;
    while i < end
        invariant
            start <= i <= end,
            end <= sorted@.len(),
            chunk_fees@ == fees_of(sorted@.subrange(start as int, i as int)),
        decreases end - i,
    {
        chunk_fees.push(sorted[i].prioritization_fee);
        proof {
            assert(sorted@.subrange(start as int, i + 1 as int).drop_last() =~= sorted@.subrange(
                start as int,
                i as int,
            ));
            assert(fees_of(sorted@.subrange(start as int, i + 1 as int)) =~= fees_of(
                sorted@.subrange(start as int, i as int),
            ).push(sorted@[i as int].prioritization_fee));
        }
        i = i + 1;
    }
    proof {
        assert(sorted@.subrange(start as int, end as int) =~= last_considered_chunk(sorted@));
    }
    let pct = calculate_percentiles(&chunk_fees);
    PriorityFeeEstimates {
        low: pct.p70,
        medium: pct.p75,
        high: pct.p80,
        very_high: pct.p85,
        ultimate: pct.p95,
    }
}

/// Sorting keeps the sample length.
proof fn lemma_sort_by_slot_desc_len(s: Seq<FeeObservation>)
    ensures
        sort_by_slot_desc(s).len() == s.len(),
    decreases s.len(),
{
    if s.len() > 0 {
        lemma_sort_by_slot_desc_len(s.drop_last());
        lemma_insert_by_slot_desc_len(sort_by_slot_desc(s.drop_last()), s.last());
    }
}

proof fn lemma_insert_by_slot_desc_len(s: Seq<FeeObservation>, x: FeeObservation)
    ensures
        insert_by_slot_desc(s, x).len() == s.len() + 1,
    decreases s.len(),
{
    if s.len() > 0 && s[0].slot >= x.slot {
        lemma_insert_by_slot_desc_len(s.drop_first(), x);
    }
}

// ---------------------------------------------------------------------------
// Level selection.
// ---------------------------------------------------------------------------

/// The fee a level selects from the estimates: `None` selects zero and
/// `Custom` selects its own amount; both ignore the estimates entirely.
pub open spec fn spec_level_value(levels: PriorityFeeEstimates, level: PriorityFeeLevel) -> u64 {
    match level {
        PriorityFeeLevel::NoFee => 0,
        PriorityFeeLevel::Low => levels.low,
        PriorityFeeLevel::Medium => levels.medium,
        PriorityFeeLevel::High => levels.high,
        PriorityFeeLevel::VeryHigh => levels.very_high,
        PriorityFeeLevel::Ultimate => levels.ultimate,
        PriorityFeeLevel::Custom(x) => x,
    }
}

/// Whether estimating a level needs a fee-observation sample at all.
pub open spec fn level_needs_observations(level: PriorityFeeLevel) -> bool {
    !(level is NoFee || level is Custom)
}

/// Pick the estimate a level asks for.
pub fn get_priority_fee_estimate(levels: &PriorityFeeEstimates, level: PriorityFeeLevel) -> (r:
    u64)
    ensures
        r == spec_level_value(*levels, level),
        level is NoFee ==> r == 0,
        level matches PriorityFeeLevel::Custom(x) ==> r == x,
{
    match level {
        PriorityFeeLevel::NoFee => 0,
        PriorityFeeLevel::Low => levels.low,
        PriorityFeeLevel::Medium => levels.medium,
        PriorityFeeLevel::High => levels.high,
        PriorityFeeLevel::VeryHigh => levels.very_high,
        PriorityFeeLevel::Ultimate => levels.ultimate,
        PriorityFeeLevel::Custom(x) => x,
    }
}

/// `NoFee` and `Custom` levels are estimated without looking at any
/// observation sample: whatever two samples the network could have
/// returned, the selected fee is the same.
pub proof fn lemma_estimate_ignores_observations(
    levels1: PriorityFeeEstimates,
    levels2: PriorityFeeEstimates,
    level: PriorityFeeLevel,
)
    requires
        !level_needs_observations(level),
    ensures
        spec_level_value(levels1, level) == spec_level_value(levels2, level),
{
}

// ---------------------------------------------------------------------------
// Fee policy: clamping and the per-submission fee decision.
// ---------------------------------------------------------------------------

/// The clamp the caller's policy puts on an estimated fee: the fee is
/// first raised to `fee_min`, then lowered to `fee_max`, in that order, so
/// `fee_max` wins when the two cross.
pub open spec fn spec_apply_fee_bounds(fee: u64, fee_min: Option<u64>, fee_max: Option<u64>) -> u64 {
    let raised = match fee_min {
        Some(lo) => if fee < lo { lo } else { fee },
        None => fee,
    };
    match fee_max {
        Some(hi) => if raised > hi { hi } else { raised },
        None => raised,
    }
}

/// Clamp a fee to the caller's `[fee_min, fee_max]` policy.
///
/// Whenever both bounds are set and ordered, the result lies between them.
pub fn apply_fee_bounds(fee: u64, fee_min: Option<u64>, fee_max: Option<u64>) -> (r: u64)
    ensures
        r == spec_apply_fee_bounds(fee, fee_min, fee_max),
        fee_min is Some && fee_max is Some && fee_min.unwrap() <= fee_max.unwrap()
            ==> fee_min.unwrap() <= r <= fee_max.unwrap(),
        fee_max is Some ==> r <= fee_max.unwrap(),
        fee_min is Some && fee_max is None ==> r >= fee_min.unwrap(),
        fee_min is None && fee_max is None ==> r == fee,
{
    let mut r = fee;
    if let Some(lo) = fee_min {
        if r < lo {
            r = lo;
        }
    }
    if let Some(hi) = fee_max {
        if r > hi {
            r = hi;
        }
    }
    r
}

/// The fee one submission applies, given the estimates the network would
/// hand back for its accounts: zero when there is no fee policy, when the
/// level is `NoFee`, or when the relay path is in use (relay bundles never
/// carry a fee instruction); otherwise the level's estimate, clamped.
pub open spec fn spec_resolved_priority_fee(
    fee_config: Option<SmartTxPriorityFeeConfig>,
    relay_in_use: bool,
    levels: PriorityFeeEstimates,
) -> u64 {
    match fee_config {
        Some(cfg) => if relay_in_use || cfg.fee_level is NoFee {
            0
        } else {
            spec_apply_fee_bounds(spec_level_value(levels, cfg.fee_level), cfg.fee_min, cfg.fee_max)
        },
        None => 0,
    }
}

/// Resolve the priority fee of one submission from fetched estimates.
pub fn resolve_priority_fee(
    fee_config: &Option<SmartTxPriorityFeeConfig>,
    relay_in_use: bool,
    levels: &PriorityFeeEstimates,
) -> (r: u64)
    ensures
        r == spec_resolved_priority_fee(*fee_config, relay_in_use, *levels),
        relay_in_use ==> r == 0,
{
    match fee_config {
        Some(cfg) => {
            if relay_in_use {
                0
            } else if matches!(cfg.fee_level, PriorityFeeLevel::NoFee) {
                0
            } else {
                let picked = get_priority_fee_estimate(levels, cfg.fee_level);
                apply_fee_bounds(picked, cfg.fee_min, cfg.fee_max)
            }
        },
        None => 0,
    }
}

/// Whenever the fee policy's bounds are set and ordered and the policy is
/// in effect — a named or custom level, no relay — the applied fee lies
/// between them.  A `NoFee` level and the relay path bypass the clamp and
/// apply a fee of zero instead.
pub proof fn lemma_fee_clamped(
    fee_config: SmartTxPriorityFeeConfig,
    levels: PriorityFeeEstimates,
    lo: u64,
    hi: u64,
)
    requires
        fee_config.fee_min == Some(lo),
        fee_config.fee_max == Some(hi),
        lo <= hi,
        !(fee_config.fee_level is NoFee),
    ensures
        lo <= spec_resolved_priority_fee(Some(fee_config), false, levels) <= hi,
{
}

/// What fee estimation has to do for one submission before the fee is
/// known: either the fee follows from the configuration alone, or a recent
/// fee-observation sample must be fetched for the transaction's accounts.
#[derive(Clone, Copy, Debug, PartialEq, Eq, Structural)]
pub enum FeeQueryPlan {
    /// No network call: this is already the resolved fee.
    Immediate(u64),
    /// Fetch recent observations, then resolve through the estimator.
    FetchObservations,
}

/// Decide whether resolving the fee needs a network fetch.
///
/// `NoFee` and `Custom` levels, a missing fee policy and the relay path
/// are all resolved immediately, with zero network calls; only the five
/// named estimate levels ask for an observation sample.
pub fn plan_fee_query(fee_config: &Option<SmartTxPriorityFeeConfig>, relay_in_use: bool) -> (r:
    FeeQueryPlan)
    ensures
        r matches FeeQueryPlan::Immediate(fee) ==> forall|levels: PriorityFeeEstimates|
            spec_resolved_priority_fee(*fee_config, relay_in_use, levels) == fee,
        r is FetchObservations <==> (fee_config matches Some(cfg) && !relay_in_use
            && level_needs_observations(cfg.fee_level)),
{
    match fee_config {
        Some(cfg) => {
            if relay_in_use {
                FeeQueryPlan::Immediate(0)
            } else {
                match cfg.fee_level {
                    PriorityFeeLevel::NoFee => FeeQueryPlan::Immediate(0),
                    PriorityFeeLevel::Custom(x) => FeeQueryPlan::Immediate(
                        apply_fee_bounds(x, cfg.fee_min, cfg.fee_max),
                    ),
                    _ => FeeQueryPlan::FetchObservations,
                }
            }
        },
        None => FeeQueryPlan::Immediate(0),
    }
}

/// The estimator has no hidden state: identical observation samples give
/// identical estimates.
pub proof fn lemma_fee_estimator_deterministic(
    observations1: Seq<FeeObservation>,
    observations2: Seq<FeeObservation>,
)
    requires
        observations1 == observations2,
    ensures
        spec_fee_levels(observations1) == spec_fee_levels(observations2),
{
}

} // verus!
