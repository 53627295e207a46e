//! Estimation of the pole-pair count and of the encoder offset from the samples
//! of a shaft calibration run.
//!
//! For every assumed pole-pair count `p` (clockwise `p`, counter-clockwise
//! `-p`) a sample contributes the sine and cosine of the phase error between
//! the commanded electrical angle and the electrical angle that the mechanical
//! reading gives under that assumption. When the assumption is right the errors
//! agree and the averaged (sin, cos) vector keeps a length close to one; when
//! it is wrong they cancel out. The estimate is the count whose averaged vector
//! is the strongest.
use vstd::prelude::*;
use crate::fixed_point::{
    fx48_add, fx48_div, fx48_div_bits, fx48_from_i16, fx48_from_usize, fx48_mul, fx48_mul_bits,
    fx48_sqrt, fx48_sqrt_bits, fx48_to_i1f15_bits, lemma_fx48_sqrt_unique, trunc_div, abs, i3f29_add,
    i3f29_pi,
    I16F48_TO_I1F15_SHIFT, ONE48_BITS,
};

verus! {

/// Sine and cosine (`I16F48` bits) of the phase error of one sample for one
/// assumed pole-pair count, taken clockwise and counter-clockwise.
#[derive(Debug, Clone, Copy, PartialEq, Eq, Structural)]
pub struct PhaseErrorTrig {
    pub sin_cw: i64,
    pub cos_cw: i64,
    pub sin_ccw: i64,
    pub cos_ccw: i64,
}

/// A sine or cosine: within `[-1, 1]`.
pub open spec fn unit_bounded(x: int) -> bool {
    -(ONE48_BITS as int) <= x <= ONE48_BITS as int
}

pub open spec fn trig_in_range(t: PhaseErrorTrig) -> bool {
    &&& unit_bounded(t.sin_cw as int)
    &&& unit_bounded(t.cos_cw as int)
    &&& unit_bounded(t.sin_ccw as int)
    &&& unit_bounded(t.cos_ccw as int)
}

/// What an accumulator holds: for each assumed count (index `p - 1`) the sums
/// of the sines and cosines clockwise and counter-clockwise, and the number of
/// samples.
pub struct SumsView {
    pub cw: Seq<(int, int)>,
    pub ccw: Seq<(int, int)>,
    pub count: nat,
}

/// An averaged (sin, cos) vector (`I16F48` bits).
#[derive(Debug, Clone, Copy, PartialEq, Eq, Structural)]
pub struct Direction2 {
    pub sin: i64,
    pub cos: i64,
}

/// The result of the estimation.
#[derive(Debug, Clone, Copy, PartialEq, Eq, Structural)]
pub struct CalibrationResult {
    /// The estimated pole-pair count, negative for counter-clockwise; `0` when
    /// no assumption gave a vector of positive strength.
    pub pole_pairs: i16,
    /// The averaged (sin, cos) (`I16F48` bits) whose `atan2` is the offset
    /// angle: the clockwise vector of the selected count, in either direction;
    /// `None` when no count was selected, the offset then being zero.
    pub offset_direction: Option<Direction2>,
    /// The strength of the selected vector divided by the number of samples
    /// (`I1F15` bits).
    pub coherence: i16,
}

/// The sum of a sine or cosine over `count` samples of the unit range.
pub open spec fn sum_bounded(s: (int, int), count: int) -> bool {
    &&& -count * ONE48_BITS <= s.0 <= count * ONE48_BITS
    &&& -count * ONE48_BITS <= s.1 <= count * ONE48_BITS
}

/// The average of a sum over `count` samples, as the `I16F48` division gives it.
pub open spec fn spec_avg(sum: int, count: nat) -> int {
    fx48_div(sum, count * ONE48_BITS)
}

/// The squared length of a (sin, cos) vector in `I16F48`.
pub open spec fn spec_magnitude(s: int, c: int) -> int {
    fx48_mul(s, s) + fx48_mul(c, c)
}

/// The averaged clockwise vector of the assumed count `i + 1`.
pub open spec fn cw_direction(v: SumsView, i: int) -> (int, int) {
    (spec_avg(v.cw[i].0, v.count), spec_avg(v.cw[i].1, v.count))
}

/// The strength of the clockwise assumption `i + 1`: the length of its
/// averaged vector.
pub open spec fn cw_strength(v: SumsView, i: int) -> int {
    fx48_sqrt(spec_magnitude(cw_direction(v, i).0, cw_direction(v, i).1))
}

/// The strength of the counter-clockwise assumption `-(i + 1)`: the squared
/// length of its averaged vector. Unlike the clockwise strength it is not
/// square-rooted; both are compared as they are, so the rule "pick the
/// strongest vector" is applied to lengths in one direction and to squared
/// lengths in the other. Since both lie in `[0, 2]` and a squared length
/// below one is smaller than the length, this favours clockwise counts.
pub open spec fn ccw_strength(v: SumsView, i: int) -> int {
    spec_magnitude(spec_avg(v.ccw[i].0, v.count), spec_avg(v.ccw[i].1, v.count))
}

/// The selection after the first `k` counts: the best strength, its signed
/// count and the vector whose angle gives the offset. The counts are visited
/// in order, clockwise before counter-clockwise, and a candidate replaces the
/// best one only when it is strictly stronger. The offset vector is always the
/// clockwise one of the selected count, also when the counter-clockwise
/// assumption of that count wins: the offset of a counter-clockwise winner is
/// taken from its clockwise sums, not from its own.
pub open spec fn spec_scan(v: SumsView, k: nat) -> (int, int, Option<(int, int)>)
    decreases k,
{
    if k == 0 {
        (0, 0, None)
    } else {
        let i = k - 1;
        let prev = spec_scan(v, (k - 1) as nat);
        let after_cw = if cw_strength(v, i) > prev.0 {
            (cw_strength(v, i), i + 1, Some(cw_direction(v, i)))
        } else {
            prev
        };
        if ccw_strength(v, i) > after_cw.0 {
            (ccw_strength(v, i), -(i + 1), Some(cw_direction(v, i)))
        } else {
            after_cw
        }
    }
}

/// The coherence of a selection of strength `strength` over `count` samples,
/// before it is narrowed to `I1F15`: strength / count, then the surplus
/// fractional bits dropped.
pub open spec fn spec_coherence(strength: int, count: nat) -> int {
    fx48_div(strength, count * ONE48_BITS) / (I16F48_TO_I1F15_SHIFT as int)
}

/// The coherence of the selection fits in `I1F15` (`[-1, 1)`).
pub open spec fn coherence_fits(v: SumsView, max_pole_pairs: nat) -> bool {
    i16::MIN <= spec_coherence(spec_scan(v, max_pole_pairs).0, v.count) <= i16::MAX
}

pub open spec fn direction_view(d: Option<Direction2>) -> Option<(int, int)> {
    match d {
        Some(v) => Some((v.sin as int, v.cos as int)),
        None => None,
    }
}

/// Accumulates the phase-error sines and cosines of the samples for the
/// assumed pole-pair counts `1..=P_MAX` in both directions.
pub struct CalibrationAccumulator<const P_MAX: usize> {
    sums_cw: Vec<(i64, i64)>,
    sums_ccw: Vec<(i64, i64)>,
    count: usize,
}

pub open spec fn pairs_view(s: Seq<(i64, i64)>) -> Seq<(int, int)> {
    Seq::new(s.len(), |i: int| (s[i].0 as int, s[i].1 as int))
}

impl<const P_MAX: usize> View for CalibrationAccumulator<P_MAX> {
    type V = SumsView;

    closed spec fn view(&self) -> SumsView {
        SumsView { cw: pairs_view(self.sums_cw@), ccw: pairs_view(self.sums_ccw@), count: self.count as nat }
    }
}

/// The sums after one more sample: each count's sums grow by that count's
/// sine and cosine.
pub open spec fn sums_after_cw(sums: Seq<(int, int)>, errors: Seq<PhaseErrorTrig>) -> Seq<(int, int)> {
    Seq::new(sums.len(), |i: int| (sums[i].0 + errors[i].sin_cw, sums[i].1 + errors[i].cos_cw))
}

pub open spec fn sums_after_ccw(sums: Seq<(int, int)>, errors: Seq<PhaseErrorTrig>) -> Seq<
    (int, int),
> {
    Seq::new(sums.len(), |i: int| (sums[i].0 + errors[i].sin_ccw, sums[i].1 + errors[i].cos_ccw))
}

proof fn lemma_scaled_avg_bound(sum: int, count: int)
    requires
        count > 0,
        -count * ONE48_BITS <= sum <= count * ONE48_BITS,
    ensures
        -(ONE48_BITS as int) <= fx48_div(sum, count * ONE48_BITS) <= ONE48_BITS as int,
{
    let one = ONE48_BITS as int;
    let a = sum * one;
    let d = count * one;
    assert(d > 0) by (nonlinear_arith)
        requires
            count > 0,
            one > 0,
            d == count * one,
    ;
    assert(abs(a) <= d * one) by (nonlinear_arith)
        requires
            -count * one <= sum <= count * one,
            one > 0,
            a == sum * one,
            d == count * one,
    ;
    assert(abs(a) / d <= one) by (nonlinear_arith)
        requires
            abs(a) <= d * one,
            d > 0,
            abs(a) >= 0,
    ;
    assert(abs(a) / d >= 0) by (nonlinear_arith)
        requires
            d > 0,
            abs(a) >= 0,
    ;
}

proof fn lemma_magnitude_bound(s: int, c: int)
    requires
        unit_bounded(s),
        unit_bounded(c),
    ensures
        0 <= fx48_mul(s, s) <= ONE48_BITS,
        0 <= fx48_mul(c, c) <= ONE48_BITS,
        0 <= spec_magnitude(s, c) <= 2 * ONE48_BITS,
        -0x8000_0000_0000_0000_0000_0000_0000 <= s * s < 0x8000_0000_0000_0000_0000_0000_0000,
        -0x8000_0000_0000_0000_0000_0000_0000 <= c * c < 0x8000_0000_0000_0000_0000_0000_0000,
{
    let one = ONE48_BITS as int;
    assert(0 <= s * s <= one * one) by (nonlinear_arith)
        requires
            -one <= s <= one,
    ;
    assert(0 <= c * c <= one * one) by (nonlinear_arith)
        requires
            -one <= c <= one,
    ;
    assert((s * s) / one <= one) by (nonlinear_arith)
        requires
            0 <= s * s <= one * one,
            one > 0,
    ;
    assert((c * c) / one <= one) by (nonlinear_arith)
        requires
            0 <= c * c <= one * one,
            one > 0,
    ;
    assert((s * s) / one >= 0) by (nonlinear_arith)
        requires
            0 <= s * s,
            one > 0,
    ;
    assert((c * c) / one >= 0) by (nonlinear_arith)
        requires
            0 <= c * c,
            one > 0,
    ;
}

proof fn lemma_sqrt_bound(m: int, r: int)
    requires
        0 <= m <= 2 * ONE48_BITS,
        r * r <= m * ONE48_BITS,
        0 <= r,
    ensures
        r <= 2 * ONE48_BITS,
{
    let one = ONE48_BITS as int;
    if r > 2 * one {
        let x = one * one;
        assert(r * r > 4 * x) by (nonlinear_arith)
            requires
                r > 2 * one,
                one > 0,
                x == one * one,
        ;
        assert(m * one <= 2 * x) by (nonlinear_arith)
            requires
                m <= 2 * one,
                one > 0,
                x == one * one,
        ;
        assert(x > 0) by (nonlinear_arith)
            requires
                one > 0,
                x == one * one,
        ;
    }
}

/// Dividing a non-negative value by a count of at least one does not make it
/// larger.
proof fn lemma_div_by_count(s: int, count: int)
    requires
        0 <= s,
        count >= 1,
    ensures
        0 <= fx48_div(s, count * ONE48_BITS) <= s,
{
    let one = ONE48_BITS as int;
    let a = s * one;
    let d = count * one;
    assert(a >= 0 && d >= one) by (nonlinear_arith)
        requires
            s >= 0,
            count >= 1,
            one > 0,
            a == s * one,
            d == count * one,
    ;
    vstd::arithmetic::div_mod::lemma_div_is_ordered_by_denominator(a, one, d);
    vstd::arithmetic::div_mod::lemma_div_by_multiple(s, one);
    vstd::arithmetic::div_mod::lemma_div_pos_is_pos(a, d);
}

/// Every strength of a candidate lies in `[0, 2]`.
proof fn lemma_strength_bounds(v: SumsView, i: int)
    requires
        v.count > 0,
        0 <= i < v.cw.len(),
        0 <= i < v.ccw.len(),
        sum_bounded(v.cw[i], v.count as int),
        sum_bounded(v.ccw[i], v.count as int),
    ensures
        0 <= cw_strength(v, i) <= 2 * ONE48_BITS,
        0 <= ccw_strength(v, i) <= 2 * ONE48_BITS,
        unit_bounded(cw_direction(v, i).0),
        unit_bounded(cw_direction(v, i).1),
{
    lemma_scaled_avg_bound(v.cw[i].0, v.count as int);
    lemma_scaled_avg_bound(v.cw[i].1, v.count as int);
    lemma_scaled_avg_bound(v.ccw[i].0, v.count as int);
    lemma_scaled_avg_bound(v.ccw[i].1, v.count as int);
    let d = cw_direction(v, i);
    lemma_magnitude_bound(d.0, d.1);
    lemma_magnitude_bound(spec_avg(v.ccw[i].0, v.count), spec_avg(v.ccw[i].1, v.count));
    let m = spec_magnitude(d.0, d.1);
    let r = fx48_sqrt(m);
    assert(is_fx48_sqrt_witness(m)) by {
        lemma_sqrt_exists(m);
    }
    lemma_sqrt_bound(m, r);
}

spec fn is_fx48_sqrt_witness(m: int) -> bool {
    crate::fixed_point::is_fx48_sqrt(m, fx48_sqrt(m))
}

/// A non-negative value has a rounded-down square root.
proof fn lemma_sqrt_exists(m: int)
    requires
        0 <= m,
    ensures
        crate::fixed_point::is_fx48_sqrt(m, fx48_sqrt(m)),
{
    let n = m * ONE48_BITS;
    assert(n >= 0) by (nonlinear_arith)
        requires
            m >= 0,
            n == m * ONE48_BITS,
    ;
    let r = lemma_isqrt_witness(n);
    assert(crate::fixed_point::is_fx48_sqrt(m, r));
}

/// Some `r >= 0` has `r² <= n < (r+1)²`.
proof fn lemma_isqrt_witness(n: int) -> (r: int)
    requires
        n >= 0,
    ensures
        0 <= r,
        r * r <= n < (r + 1) * (r + 1),
    decreases n,
{
    if n == 0 {
        0
    } else {
        let q = lemma_isqrt_witness(n - 1);
        if (q + 1) * (q + 1) <= n {
            assert(n < (q + 2) * (q + 2)) by (nonlinear_arith)
                requires
                    n - 1 < (q + 1) * (q + 1),
                    q >= 0,
            ;
            q + 1
        } else {
            q
        }
    }
}

/// The strength of the selection lies in `[0, 2]`.
proof fn lemma_scan_bounds(v: SumsView, k: nat)
    requires
        v.count > 0,
        k <= v.cw.len(),
        k <= v.ccw.len(),
        forall|i: int|
            0 <= i < v.cw.len() ==> sum_bounded(#[trigger] v.cw[i], v.count as int) && sum_bounded(
                v.ccw[i],
                v.count as int,
            ),
    ensures
        0 <= spec_scan(v, k).0 <= 2 * ONE48_BITS,
        spec_scan(v, k).2 matches Some(d) ==> unit_bounded(d.0) && unit_bounded(d.1),
        -(k as int) <= spec_scan(v, k).1 <= k,
    decreases k,
{
    if k > 0 {
        lemma_scan_bounds(v, (k - 1) as nat);
        lemma_strength_bounds(v, k - 1);
    }
}

/// The selection is the first strongest candidate: no assumed count among
/// the first `k`, in either direction, is stronger than the selected one;
/// every candidate visited before it (smaller counts in both directions, and
/// the clockwise one of the same count) is strictly weaker; a selected count
/// has exactly the selected strength; and no count is selected (`0`) only
/// when no candidate has a positive strength.
pub proof fn lemma_scan_selects_strongest(v: SumsView, k: nat)
    requires
        k <= v.cw.len(),
        k <= v.ccw.len(),
    ensures
        forall|i: int|
            0 <= i < k ==> #[trigger] cw_strength(v, i) <= spec_scan(v, k).0 && ccw_strength(v, i)
                <= spec_scan(v, k).0,
        spec_scan(v, k).1 > 0 ==> spec_scan(v, k).0 == cw_strength(v, spec_scan(v, k).1 - 1)
            && spec_scan(v, k).2 == Some(cw_direction(v, spec_scan(v, k).1 - 1)),
        spec_scan(v, k).1 < 0 ==> spec_scan(v, k).0 == ccw_strength(v, -spec_scan(v, k).1 - 1)
            && spec_scan(v, k).2 == Some(cw_direction(v, -spec_scan(v, k).1 - 1)),
        spec_scan(v, k).1 == 0 ==> spec_scan(v, k).0 == 0 && spec_scan(v, k).2 is None,
        -(k as int) <= spec_scan(v, k).1 <= k,
        spec_scan(v, k).1 > 0 ==> forall|i: int|
            0 <= i < spec_scan(v, k).1 - 1 ==> #[trigger] cw_strength(v, i) < spec_scan(v, k).0
                && ccw_strength(v, i) < spec_scan(v, k).0,
        spec_scan(v, k).1 < 0 ==> forall|i: int|
            0 <= i < -spec_scan(v, k).1 - 1 ==> #[trigger] cw_strength(v, i) < spec_scan(v, k).0
                && ccw_strength(v, i) < spec_scan(v, k).0,
        spec_scan(v, k).1 < 0 ==> cw_strength(v, -spec_scan(v, k).1 - 1) < spec_scan(v, k).0,
    decreases k,
{
    if k > 0 {
        lemma_scan_selects_strongest(v, (k - 1) as nat);
    }
}

/// The invariant of an accumulator with `p` counts per direction: every sum
/// is one of `count` unit-range values, and there are fewer than `2^15`
/// samples.
pub open spec fn sums_wf(v: SumsView, p: nat) -> bool {
    &&& v.cw.len() == p
    &&& v.ccw.len() == p
    &&& v.count <= 32767
    &&& forall|i: int|
        0 <= i < p ==> sum_bounded(#[trigger] v.cw[i], v.count as int) && sum_bounded(
            v.ccw[i],
            v.count as int,
        )
}

impl<const P_MAX: usize> CalibrationAccumulator<P_MAX> {
    #[verifier::type_invariant]
    spec fn inv(self) -> bool {
        &&& self.sums_cw@.len() == P_MAX
        &&& self.sums_ccw@.len() == P_MAX
        &&& sums_wf(self@, P_MAX as nat)
    }

    /// An accumulator without samples: every sum is zero.
    pub fn new() -> (r: Self)
        ensures
            r@.cw == Seq::new(P_MAX as nat, |i: int| (0int, 0int)),
            r@.ccw == Seq::new(P_MAX as nat, |i: int| (0int, 0int)),
            r@.count == 0,
    {
        let mut cw: Vec<(i64, i64)> = Vec::new();
        let mut ccw: Vec<(i64, i64)> = Vec::new();
        let mut i: usize = 0;
        while i < P_MAX
            invariant
                i <= P_MAX,
                cw@ == Seq::new(i as nat, |j: int| (0i64, 0i64)),
                ccw@ == Seq::new(i as nat, |j: int| (0i64, 0i64)),
            decreases P_MAX - i,
        {
            cw.push((0, 0));
            ccw.push((0, 0));
            i = i + 1;
        }
        proof {
            assert(pairs_view(cw@) =~= Seq::new(P_MAX as nat, |i: int| (0int, 0int)));
            assert(pairs_view(ccw@) =~= Seq::new(P_MAX as nat, |i: int| (0int, 0int)));
        }
        CalibrationAccumulator { sums_cw: cw, sums_ccw: ccw, count: 0 }
    }

    /// Adds one sample: `errors[p - 1]` holds the sines and cosines of the
    /// sample's phase errors for the assumed count `p`. Each sum grows by its
    /// value and the sample count by one. The sums are `I16F48` values, which
    /// stay in range while there are fewer than `2^15` samples.
    pub fn add_sample(&mut self, errors: &Vec<PhaseErrorTrig>)
        requires
            errors@.len() == P_MAX,
            forall|i: int| 0 <= i < P_MAX ==> trig_in_range(#[trigger] errors@[i]),
            old(self)@.count < 32767,
        ensures
            final(self)@.count == old(self)@.count + 1,
            final(self)@.cw == sums_after_cw(old(self)@.cw, errors@),
            final(self)@.ccw == sums_after_ccw(old(self)@.ccw, errors@),
    {
        proof {
            use_type_invariant(&*self);
        }
        let ghost v = self@;
        let count = self.count + 1;
        let mut cw: Vec<(i64, i64)> = Vec::new();
        let mut ccw: Vec<(i64, i64)> = Vec::new();
        let mut i: usize = 0;
        while i < P_MAX
            invariant
                i <= P_MAX,
                errors@.len() == P_MAX,
                forall|j: int| 0 <= j < P_MAX ==> trig_in_range(#[trigger] errors@[j]),
                self.sums_cw@.len() == P_MAX,
                self.sums_ccw@.len() == P_MAX,
                v == self@,
                sums_wf(v, P_MAX as nat),
                count == v.count + 1,
                count <= 32767,
                cw@.len() == i,
                ccw@.len() == i,
                forall|j: int|
                    0 <= j < i ==> #[trigger] pairs_view(cw@)[j] == sums_after_cw(v.cw, errors@)[j],
                forall|j: int|
                    0 <= j < i ==> #[trigger] pairs_view(ccw@)[j] == sums_after_ccw(v.ccw, errors@)[j],
            decreases P_MAX - i,
        {
            let e = errors[i];
            let (s_cw, c_cw) = self.sums_cw[i];
            let (s_ccw, c_ccw) = self.sums_ccw[i];
            proof {
                assert(trig_in_range(errors@[i as int]));
                assert(v.cw[i as int] == (s_cw as int, c_cw as int));
                assert(v.ccw[i as int] == (s_ccw as int, c_ccw as int));
                assert(sum_bounded(v.cw[i as int], v.count as int));
                assert(v.count * ONE48_BITS <= 32766 * ONE48_BITS) by (nonlinear_arith)
                    requires
                        v.count <= 32766,
                ;
            }
            let ghost prev_cw = cw@;
            let ghost prev_ccw = ccw@;
            cw.push((fx48_add(s_cw, e.sin_cw), fx48_add(c_cw, e.cos_cw)));
            ccw.push((fx48_add(s_ccw, e.sin_ccw), fx48_add(c_ccw, e.cos_ccw)));
            proof {
                assert forall|j: int| 0 <= j < i + 1 implies #[trigger] pairs_view(cw@)[j]
                    == sums_after_cw(v.cw, errors@)[j] by {
                    if j < i {
                        assert(pairs_view(cw@)[j] == pairs_view(prev_cw)[j]);
                    }
                }
                assert forall|j: int| 0 <= j < i + 1 implies #[trigger] pairs_view(ccw@)[j]
                    == sums_after_ccw(v.ccw, errors@)[j] by {
                    if j < i {
                        assert(pairs_view(ccw@)[j] == pairs_view(prev_ccw)[j]);
                    }
                }
            }
            i = i + 1;
        }
        let ghost new_view = SumsView {
            cw: sums_after_cw(v.cw, errors@),
            ccw: sums_after_ccw(v.ccw, errors@),
            count: count as nat,
        };
        proof {
            assert(pairs_view(cw@) =~= new_view.cw);
            assert(pairs_view(ccw@) =~= new_view.ccw);
            assert(count * ONE48_BITS == v.count * ONE48_BITS + ONE48_BITS) by (nonlinear_arith)
                requires
                    count == v.count + 1,
            ;
            assert forall|j: int| 0 <= j < P_MAX implies sum_bounded(
                #[trigger] new_view.cw[j],
                count as int,
            ) && sum_bounded(new_view.ccw[j], count as int) by {
                assert(trig_in_range(errors@[j]));
                assert(sum_bounded(v.cw[j], v.count as int));
            }
        }
        *self = CalibrationAccumulator { sums_cw: cw, sums_ccw: ccw, count };
    }

    /// Visits the assumed counts as `spec_scan` describes and returns the best
    /// strength, its signed count and its offset vector.
    fn select(&self) -> (r: (i64, i16, Option<Direction2>))
        requires
            self@.count > 0,
            P_MAX <= 32767,
        ensures
            r.0 == spec_scan(self@, P_MAX as nat).0,
            r.1 == spec_scan(self@, P_MAX as nat).1,
            direction_view(r.2) == spec_scan(self@, P_MAX as nat).2,
    {
        proof {
            use_type_invariant(self);
        }
        let ghost v = self@;
        let count_fx = fx48_from_i16(self.count as i16);
        let mut best_strength: i64 = 0;
        let mut best_pp: i16 = 0;
        let mut best_direction: Option<Direction2> = None;
        let mut i: usize = 0;
        while i < P_MAX
            invariant
                i <= P_MAX,
                P_MAX <= 32767,
                v == self@,
                v.count > 0,
                sums_wf(v, P_MAX as nat),
                self.sums_cw@.len() == P_MAX,
                self.sums_ccw@.len() == P_MAX,
                count_fx == v.count * ONE48_BITS,
                best_strength == spec_scan(v, i as nat).0,
                best_pp == spec_scan(v, i as nat).1,
                direction_view(best_direction) == spec_scan(v, i as nat).2,
            decreases P_MAX - i,
        {
            proof {
                lemma_scan_bounds(v, i as nat);
                lemma_strength_bounds(v, i as int);
                lemma_scaled_avg_bound(v.cw[i as int].0, v.count as int);
                lemma_scaled_avg_bound(v.cw[i as int].1, v.count as int);
                lemma_scaled_avg_bound(v.ccw[i as int].0, v.count as int);
                lemma_scaled_avg_bound(v.ccw[i as int].1, v.count as int);
                assert(v.count * ONE48_BITS > 0) by (nonlinear_arith)
                    requires
                        v.count > 0,
                ;
            }
            let (sin_cw, cos_cw) = self.sums_cw[i];
            let (sin_ccw, cos_ccw) = self.sums_ccw[i];
            proof {
                assert(v.cw[i as int] == (sin_cw as int, cos_cw as int));
                assert(v.ccw[i as int] == (sin_ccw as int, cos_ccw as int));
            }
            let avg_sin_cw = fx48_div_bits(sin_cw, count_fx);
            let avg_cos_cw = fx48_div_bits(cos_cw, count_fx);
            proof {
                lemma_magnitude_bound(avg_sin_cw as int, avg_cos_cw as int);
            }
            let mag_cw = fx48_add(
                fx48_mul_bits(avg_sin_cw, avg_sin_cw),
                fx48_mul_bits(avg_cos_cw, avg_cos_cw),
            );
            let mag_cw = fx48_sqrt_bits(mag_cw);
            proof {
                lemma_fx48_sqrt_unique(
                    spec_magnitude(avg_sin_cw as int, avg_cos_cw as int),
                    mag_cw as int,
                );
            }
            if mag_cw > best_strength {
                best_strength = mag_cw;
                best_pp = i as i16 + 1;
                best_direction = Some(Direction2 { sin: avg_sin_cw, cos: avg_cos_cw });
            }
            let avg_sin_ccw = fx48_div_bits(sin_ccw, count_fx);
            let avg_cos_ccw = fx48_div_bits(cos_ccw, count_fx);
            proof {
                lemma_magnitude_bound(avg_sin_ccw as int, avg_cos_ccw as int);
            }
            let mag_ccw = fx48_add(
                fx48_mul_bits(avg_sin_ccw, avg_sin_ccw),
                fx48_mul_bits(avg_cos_ccw, avg_cos_ccw),
            );
            if mag_ccw > best_strength {
                best_strength = mag_ccw;
                best_pp = -(i as i16 + 1);
                best_direction = Some(Direction2 { sin: avg_sin_cw, cos: avg_cos_cw });
            }
            i = i + 1;
        }
        (best_strength, best_pp, best_direction)
    }

    /// Selects the pole-pair count whose averaged phase-error vector is the
    /// strongest (see `spec_scan`), with the vector that gives the offset and
    /// the coherence of the selection. Without samples the averages divide by
    /// zero, and when the coherence reaches `1` it does not fit in `I1F15`;
    /// both panic and are excluded (`try_finalize` checks for them).
    pub fn finalize(&self) -> (r: CalibrationResult)
        requires
            self@.count > 0,
            P_MAX <= 32767,
            coherence_fits(self@, P_MAX as nat),
        ensures
            r.pole_pairs == spec_scan(self@, P_MAX as nat).1,
            direction_view(r.offset_direction) == spec_scan(self@, P_MAX as nat).2,
            r.coherence == spec_coherence(spec_scan(self@, P_MAX as nat).0, self@.count),
    {
        proof {
            use_type_invariant(self);
            lemma_scan_bounds(self@, P_MAX as nat);
        }
        let (best_strength, best_pp, best_direction) = self.select();
        let count_fx = fx48_from_usize(self.count);
        proof {
            lemma_div_by_count(best_strength as int, self.count as int);
        }
        let coherence = if self.count > 0 {
            fx48_to_i1f15_bits(fx48_div_bits(best_strength, count_fx))
        } else {
            0
        };
        CalibrationResult { pole_pairs: best_pp, offset_direction: best_direction, coherence }
    }

    /// `finalize` where it is defined: `None` when there are no samples or
    /// when the coherence does not fit in `I1F15`.
    pub fn try_finalize(&self) -> (r: Option<CalibrationResult>)
        requires
            P_MAX <= 32767,
        ensures
            r is None <==> (self@.count == 0 || !coherence_fits(self@, P_MAX as nat)),
            r matches Some(res) ==> res.pole_pairs == spec_scan(self@, P_MAX as nat).1
                && direction_view(res.offset_direction) == spec_scan(self@, P_MAX as nat).2
                && res.coherence == spec_coherence(spec_scan(self@, P_MAX as nat).0, self@.count),
    {
        proof {
            use_type_invariant(self);
        }
        if self.count == 0 {
            return None;
        }
        proof {
            lemma_scan_bounds(self@, P_MAX as nat);
        }
        let (best_strength, best_pp, best_direction) = self.select();
        let count_fx = fx48_from_usize(self.count);
        proof {
            lemma_div_by_count(best_strength as int, self.count as int);
        }
        let q = fx48_div_bits(best_strength, count_fx);
        if q < -281474976710656 || q >= 281474976710656 {
            return None;
        }
        let coherence = fx48_to_i1f15_bits(q);
        Some(CalibrationResult { pole_pairs: best_pp, offset_direction: best_direction, coherence })
    }
}

/// `π` in `I3F29` bits, as the `fixed` crate's constant converts.
pub const PI_I3F29: i32 = 1686629713;

/// Brings the offset angle (`I3F29` radians, as `atan2` of the offset vector
/// gives it) into the positive range by adding `2π` to a negative angle; a
/// non-negative angle is kept. `I3F29` holds values below `4`, so the sum
/// overflows for a negative angle above `4 - 2π` (about `-2.28`); that
/// overflow panics in debug builds and is excluded.
pub fn normalize_offset_rad(angle: i32) -> (r: i32)
    requires
        angle >= 0 || angle + 2 * PI_I3F29 <= i32::MAX,
    ensures
        r == (if angle < 0 {
            angle + 2 * PI_I3F29
        } else {
            angle as int
        }),
{
    if angle < 0 {
        let pi = i3f29_pi();
        i3f29_add(i3f29_add(angle, pi), pi)
    } else {
        angle
    }
}

} // verus!
