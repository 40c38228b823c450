//! The loudness scale and the rolling-baseline arithmetic.
//!
//! A loudness value is a decibel-like scalar in fixed point: thousandths of a
//! decibel, as an `i64`. True silence (an all-zero sample block) has no finite
//! decibel value; it is the distinct value `Silence`, which compares below
//! every finite loudness. Division rounds toward zero.

use vstd::prelude::*;

verus! {

/// Largest magnitude, in thousandths of a decibel, that a finite loudness
/// value may carry. Real signals stay far inside this bound; the caller clamps
/// anything wilder before handing it in.
pub const MAX_ABS_MILLI_DB: i64 = 10_000_000;

/// Number of blocks over which the baseline is an exact arithmetic mean.
/// From then on the baseline is a moving average with this effective window.
pub const BASELINE_WINDOW: u64 = 50;

/// A loudness value: thousandths of a decibel, or true silence.
#[derive(Clone, Copy, PartialEq, Eq, Structural, Debug)]
pub enum Loudness {
    /// The loudness of an all-zero sample block: below every finite value.
    Silence,
    /// A finite loudness, in thousandths of a decibel.
    Fin(i64),
}

/// Integer division rounding toward zero.
pub open spec fn div_trunc(v: int, n: int) -> int
    recommends
        n > 0,
{
    if v >= 0 {
        v / n
    } else {
        -((-v) / n)
    }
}

/// Truncating division never grows a value's magnitude.
pub proof fn lemma_div_trunc_abs(v: int, n: int)
    requires
        n >= 1,
    ensures
        v >= 0 ==> 0 <= div_trunc(v, n) <= v,
        v < 0 ==> v <= div_trunc(v, n) <= 0,
{
    if v >= 0 {
        assert(0 <= v / n <= v) by (nonlinear_arith)
            requires
                n >= 1,
                v >= 0,
        ;
    } else {
        assert(0 <= (-v) / n <= -v) by (nonlinear_arith)
            requires
                n >= 1,
                v < 0,
        ;
    }
}

/// A value no larger in magnitude than `n` times a bound divides by `n` to a
/// value within that bound.
pub proof fn lemma_div_trunc_within(v: int, n: int, bound: int)
    requires
        n >= 1,
        bound >= 0,
        -n * bound <= v <= n * bound,
    ensures
        -bound <= div_trunc(v, n) <= bound,
{
    lemma_div_trunc_abs(v, n);
    if v >= 0 {
        assert(v / n <= bound) by (nonlinear_arith)
            requires
                n >= 1,
                bound >= 0,
                0 <= v <= n * bound,
        ;
    } else {
        assert((-v) / n <= bound) by (nonlinear_arith)
            requires
                n >= 1,
                bound >= 0,
                v < 0,
                -n * bound <= v,
        ;
    }
}

/// Division of an `i64` by a positive count, rounding toward zero.
pub(crate) fn div_trunc_i64(v: i64, n: u64) -> (r: i64)
    requires
        0 < n,
        i64::MIN < v,
    ensures
        r as int == div_trunc(v as int, n as int),
{
    proof {
        lemma_div_trunc_abs(v as int, n as int);
    }
    if v >= 0 {
        ((v as u64) / n) as i64
    } else {
        let neg: u64 = (-v) as u64;
        -((neg / n) as i64)
    }
}

impl Loudness {
    /// The finite value carried, meaningful only when the loudness is finite.
    pub open spec fn fin(self) -> int {
        match self {
            Loudness::Silence => 0,
            Loudness::Fin(v) => v as int,
        }
    }

    /// A finite loudness within the given magnitude; silence is within every
    /// bound.
    pub open spec fn within(self, bound: int) -> bool {
        self is Fin ==> -bound <= self.fin() <= bound
    }

    /// Strict order: silence is below every finite value and not below itself.
    pub open spec fn spec_lt(self, other: Loudness) -> bool {
        match (self, other) {
            (Loudness::Silence, Loudness::Fin(_)) => true,
            (Loudness::Silence, Loudness::Silence) => false,
            (Loudness::Fin(_), Loudness::Silence) => false,
            (Loudness::Fin(a), Loudness::Fin(b)) => a < b,
        }
    }

    /// Non-strict order on the same scale.
    pub open spec fn spec_le(self, other: Loudness) -> bool {
        self == other || self.spec_lt(other)
    }

    /// Whether this loudness is strictly above the other.
    pub fn gt(self, other: Loudness) -> (r: bool)
        ensures
            r == other.spec_lt(self),
    {
        match (self, other) {
            (Loudness::Fin(_), Loudness::Silence) => true,
            (Loudness::Fin(a), Loudness::Fin(b)) => a > b,
            (Loudness::Silence, _) => false,
        }
    }

    /// Whether this loudness is strictly below the other.
    pub fn lt(self, other: Loudness) -> (r: bool)
        ensures
            r == self.spec_lt(other),
    {
        other.gt(self)
    }

    /// This loudness shifted by a fixed finite offset; silence stays silence.
    pub open spec fn spec_plus(self, d: int) -> Loudness {
        match self {
            Loudness::Silence => Loudness::Silence,
            Loudness::Fin(v) => Loudness::Fin((v + d) as i64),
        }
    }

    /// Shift by a fixed offset, e.g. a threshold margin above the baseline.
    pub fn plus(self, d: i64) -> (r: Loudness)
        requires
            self.within(MAX_ABS_MILLI_DB as int),
            -MAX_ABS_MILLI_DB <= d <= MAX_ABS_MILLI_DB,
        ensures
            r == self.spec_plus(d as int),
    {
        match self {
            Loudness::Silence => Loudness::Silence,
            Loudness::Fin(v) => Loudness::Fin(v + d),
        }
    }
}

/// Sum of two loudness values; a silent summand makes the sum silent, so a
/// silent block leaves its mark on the running sum for good.
pub open spec fn spec_add(a: Loudness, b: Loudness) -> Loudness {
    match (a, b) {
        (Loudness::Fin(x), Loudness::Fin(y)) => Loudness::Fin((x + y) as i64),
        _ => Loudness::Silence,
    }
}

/// Add a block's loudness to a running sum.
pub fn loud_add(a: Loudness, b: Loudness) -> (r: Loudness)
    requires
        a.within(BASELINE_WINDOW as int * MAX_ABS_MILLI_DB as int),
        b.within(MAX_ABS_MILLI_DB as int),
    ensures
        r == spec_add(a, b),
{
    match (a, b) {
        (Loudness::Fin(x), Loudness::Fin(y)) => Loudness::Fin(x + y),
        _ => Loudness::Silence,
    }
}

/// Arithmetic mean of a sum of `n` loudness values; a silent sum stays silent.
pub open spec fn spec_mean(sum: Loudness, n: int) -> Loudness
    recommends
        n > 0,
{
    match sum {
        Loudness::Silence => Loudness::Silence,
        Loudness::Fin(v) => Loudness::Fin(div_trunc(v as int, n) as i64),
    }
}

/// Mean of a running sum over a positive count of blocks.
pub fn loud_mean(sum: Loudness, n: u64) -> (r: Loudness)
    requires
        0 < n <= BASELINE_WINDOW,
        sum.within(n as int * MAX_ABS_MILLI_DB as int),
    ensures
        r == spec_mean(sum, n as int),
        r.within(MAX_ABS_MILLI_DB as int),
{
    match sum {
        Loudness::Silence => Loudness::Silence,
        Loudness::Fin(v) => {
            proof {
                lemma_div_trunc_within(v as int, n as int, MAX_ABS_MILLI_DB as int);
            }
            Loudness::Fin(div_trunc_i64(v, n))
        },
    }
}

/// One step of the moving average: the old baseline weighted by the window
/// less one, plus the newest loudness, over the window. Silence on either
/// side makes the baseline silent, as a silent summand does to a sum.
pub open spec fn spec_ewma(b: Loudness, x: Loudness) -> Loudness {
    match (b, x) {
        (Loudness::Fin(bv), Loudness::Fin(xv)) => Loudness::Fin(
            div_trunc(bv * (BASELINE_WINDOW - 1) + xv, BASELINE_WINDOW as int) as i64,
        ),
        _ => Loudness::Silence,
    }
}

/// Fold the newest loudness into a warmed-up baseline.
pub fn loud_ewma(b: Loudness, x: Loudness) -> (r: Loudness)
    requires
        b.within(MAX_ABS_MILLI_DB as int),
        x.within(MAX_ABS_MILLI_DB as int),
    ensures
        r == spec_ewma(b, x),
        r.within(MAX_ABS_MILLI_DB as int),
{
    match (b, x) {
        (Loudness::Fin(bv), Loudness::Fin(xv)) => {
            let w1: i64 = (BASELINE_WINDOW as i64) - 1;
            proof {
                assert((BASELINE_WINDOW as int - 1) * -MAX_ABS_MILLI_DB <= bv * w1 <= (
                BASELINE_WINDOW as int - 1) * MAX_ABS_MILLI_DB) by (nonlinear_arith)
                    requires
                        w1 == BASELINE_WINDOW as int - 1,
                        w1 >= 1,
                        -MAX_ABS_MILLI_DB <= bv <= MAX_ABS_MILLI_DB,
                ;
            }
            let t: i64 = bv * w1 + xv;
            proof {
                lemma_div_trunc_within(t as int, BASELINE_WINDOW as int, MAX_ABS_MILLI_DB as int);
            }
            Loudness::Fin(div_trunc_i64(t, BASELINE_WINDOW))
        },
        _ => Loudness::Silence,
    }
}

/// Sum of a sequence of loudness values.
pub open spec fn loud_sum(vals: Seq<Loudness>) -> Loudness
    decreases vals.len(),
{
    if vals.len() == 0 {
        Loudness::Fin(0)
    } else {
        spec_add(loud_sum(vals.drop_last()), vals.last())
    }
}

pub proof fn lemma_loud_sum_within(vals: Seq<Loudness>)
    requires
        vals.len() <= BASELINE_WINDOW,
        forall|i: int|
            0 <= i < vals.len() ==> #[trigger] vals[i].within(MAX_ABS_MILLI_DB as int),
    ensures
        loud_sum(vals).within(vals.len() as int * MAX_ABS_MILLI_DB as int),
    decreases vals.len(),
{
    if vals.len() > 0 {
        lemma_loud_sum_within(vals.drop_last());
        assert(vals.last().within(MAX_ABS_MILLI_DB as int));
    }
}

/// The baseline after ingesting a sequence of loudness values, one per audio
/// block: the exact arithmetic mean while the warm-up window is filling, and
/// from then on a moving average with weight one over the window on the
/// newest value. The two phases meet without a discontinuity: the mean of the
/// full window is the starting value of the moving average.
pub open spec fn fold_baseline(vals: Seq<Loudness>) -> Loudness
    decreases vals.len(),
{
    if vals.len() == 0 {
        Loudness::Fin(0)
    } else if vals.len() <= BASELINE_WINDOW {
        spec_mean(loud_sum(vals), vals.len() as int)
    } else {
        spec_ewma(fold_baseline(vals.drop_last()), vals.last())
    }
}


/// A sample block is silent when every sample in it is zero; an empty block
/// counts as silent.
pub open spec fn block_is_silent(samples: Seq<i64>) -> bool {
    forall|i: int| 0 <= i < samples.len() ==> samples[i] == 0
}

/// The loudness of a sample block: silence exactly when every sample is zero,
/// otherwise the finite decibel value the caller measured for the block.
pub fn loudness_of_block(samples: &Vec<i64>, db_if_audible: i64) -> (r: Loudness)
    requires
        -MAX_ABS_MILLI_DB <= db_if_audible <= MAX_ABS_MILLI_DB,
    ensures
        block_is_silent(samples@) ==> r == Loudness::Silence,
        !block_is_silent(samples@) ==> r == Loudness::Fin(db_if_audible),
        r.within(MAX_ABS_MILLI_DB as int),
{
    let n = samples.len();
    let mut i: usize = 0;
    while i < n
        invariant
            0 <= i <= n,
            n == samples@.len(),
            -MAX_ABS_MILLI_DB <= db_if_audible <= MAX_ABS_MILLI_DB,
            forall|j: int| 0 <= j < i ==> samples@[j] == 0,
        decreases n - i,
    {
        if samples[i] != 0 {
            return Loudness::Fin(db_if_audible);
        }
        i = i + 1;
    }
    Loudness::Silence
}

} // verus!
