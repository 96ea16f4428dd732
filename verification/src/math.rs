//! Integer arithmetic on lanes, stated over mathematical integers.
//!
//! A vector is modelled as the sequence of its lanes, each an `int`. The
//! functions here say what the lane-wise and horizontal operations compute, and
//! when a machine integer of a given range can hold the result.

use vstd::prelude::*;

verus! {

/// `v` lies in the closed range from `lo` to `hi`.
pub open spec fn fits(v: int, lo: int, hi: int) -> bool {
    lo <= v <= hi
}

/// The value in `lo..=hi` that is congruent to `v` modulo the size of the range:
/// what two's-complement arithmetic keeps of `v`.
pub open spec fn wrap(v: int, lo: int, hi: int) -> int {
    lo + (v - lo) % (hi - lo + 1)
}

/// `v` moved to the nearest end of `lo..=hi` when it lies outside.
pub open spec fn saturate(v: int, lo: int, hi: int) -> int {
    if v < lo {
        lo
    } else if v > hi {
        hi
    } else {
        v
    }
}

/// `v` is a value of `i8`.
pub open spec fn fits_i8(v: int) -> bool {
    fits(v, i8::MIN as int, i8::MAX as int)
}

/// `v` wrapped into the range of `i8`: what `i8` keeps of `v` where it
/// overflows.
pub open spec fn wrap_i8(v: int) -> int {
    wrap(v, i8::MIN as int, i8::MAX as int)
}

/// `v` saturated to the range of `i8`.
pub open spec fn sat_i8(v: int) -> int {
    saturate(v, i8::MIN as int, i8::MAX as int)
}

/// `v` is a value of `u8`.
pub open spec fn fits_u8(v: int) -> bool {
    fits(v, u8::MIN as int, u8::MAX as int)
}

/// `v` wrapped into the range of `u8`: what `u8` keeps of `v` where it
/// overflows.
pub open spec fn wrap_u8(v: int) -> int {
    wrap(v, u8::MIN as int, u8::MAX as int)
}

/// `v` saturated to the range of `u8`.
pub open spec fn sat_u8(v: int) -> int {
    saturate(v, u8::MIN as int, u8::MAX as int)
}

/// `v` is a value of `i16`.
pub open spec fn fits_i16(v: int) -> bool {
    fits(v, i16::MIN as int, i16::MAX as int)
}

/// `v` wrapped into the range of `i16`: what `i16` keeps of `v` where it
/// overflows.
pub open spec fn wrap_i16(v: int) -> int {
    wrap(v, i16::MIN as int, i16::MAX as int)
}

/// `v` saturated to the range of `i16`.
pub open spec fn sat_i16(v: int) -> int {
    saturate(v, i16::MIN as int, i16::MAX as int)
}

/// `v` is a value of `u16`.
pub open spec fn fits_u16(v: int) -> bool {
    fits(v, u16::MIN as int, u16::MAX as int)
}

/// `v` wrapped into the range of `u16`: what `u16` keeps of `v` where it
/// overflows.
pub open spec fn wrap_u16(v: int) -> int {
    wrap(v, u16::MIN as int, u16::MAX as int)
}

/// `v` saturated to the range of `u16`.
pub open spec fn sat_u16(v: int) -> int {
    saturate(v, u16::MIN as int, u16::MAX as int)
}

/// `v` is a value of `i32`.
pub open spec fn fits_i32(v: int) -> bool {
    fits(v, i32::MIN as int, i32::MAX as int)
}

/// `v` wrapped into the range of `i32`: what `i32` keeps of `v` where it
/// overflows.
pub open spec fn wrap_i32(v: int) -> int {
    wrap(v, i32::MIN as int, i32::MAX as int)
}

/// `v` saturated to the range of `i32`.
pub open spec fn sat_i32(v: int) -> int {
    saturate(v, i32::MIN as int, i32::MAX as int)
}

/// `v` is a value of `u32`.
pub open spec fn fits_u32(v: int) -> bool {
    fits(v, u32::MIN as int, u32::MAX as int)
}

/// `v` wrapped into the range of `u32`: what `u32` keeps of `v` where it
/// overflows.
pub open spec fn wrap_u32(v: int) -> int {
    wrap(v, u32::MIN as int, u32::MAX as int)
}

/// `v` saturated to the range of `u32`.
pub open spec fn sat_u32(v: int) -> int {
    saturate(v, u32::MIN as int, u32::MAX as int)
}

/// `v` is a value of `i64`.
pub open spec fn fits_i64(v: int) -> bool {
    fits(v, i64::MIN as int, i64::MAX as int)
}

/// `v` wrapped into the range of `i64`: what `i64` keeps of `v` where it
/// overflows.
pub open spec fn wrap_i64(v: int) -> int {
    wrap(v, i64::MIN as int, i64::MAX as int)
}

/// `v` saturated to the range of `i64`.
pub open spec fn sat_i64(v: int) -> int {
    saturate(v, i64::MIN as int, i64::MAX as int)
}

/// `v` is a value of `u64`.
pub open spec fn fits_u64(v: int) -> bool {
    fits(v, u64::MIN as int, u64::MAX as int)
}

/// `v` wrapped into the range of `u64`: what `u64` keeps of `v` where it
/// overflows.
pub open spec fn wrap_u64(v: int) -> int {
    wrap(v, u64::MIN as int, u64::MAX as int)
}

/// `v` saturated to the range of `u64`.
pub open spec fn sat_u64(v: int) -> int {
    saturate(v, u64::MIN as int, u64::MAX as int)
}

/// `v` is a value of `usize`.
pub open spec fn fits_usize(v: int) -> bool {
    fits(v, usize::MIN as int, usize::MAX as int)
}

/// `v` wrapped into the range of `usize`: what `usize` keeps of `v` where it
/// overflows.
pub open spec fn wrap_usize(v: int) -> int {
    wrap(v, usize::MIN as int, usize::MAX as int)
}

/// `v` saturated to the range of `usize`.
pub open spec fn sat_usize(v: int) -> int {
    saturate(v, usize::MIN as int, usize::MAX as int)
}

/// The smaller of two integers.
pub open spec fn min2(a: int, b: int) -> int {
    if a < b {
        a
    } else {
        b
    }
}

/// The larger of two integers.
pub open spec fn max2(a: int, b: int) -> int {
    if a > b {
        a
    } else {
        b
    }
}

/// The absolute value.
pub open spec fn magnitude(v: int) -> int {
    if v < 0 {
        -v
    } else {
        v
    }
}

/// `-1`, `0` or `1` by the sign of `v`.
pub open spec fn sign(v: int) -> int {
    if v < 0 {
        -1
    } else if v == 0 {
        0
    } else {
        1
    }
}

/// The distance between two integers.
pub open spec fn gap(a: int, b: int) -> int {
    if a >= b {
        a - b
    } else {
        b - a
    }
}

/// The quotient of `a` by `b` rounded towards zero, for `b != 0`.
pub open spec fn trunc_div(a: int, b: int) -> int {
    if a >= 0 {
        if b > 0 {
            a / b
        } else {
            -(a / (-b))
        }
    } else {
        if b > 0 {
            -((-a) / b)
        } else {
            (-a) / (-b)
        }
    }
}

/// The weight of lane `i` in a bit mask: lane 0 is the lowest bit.
pub open spec fn lane_bit(i: int) -> int {
    if i <= 0 {
        1
    } else if i == 1 {
        2
    } else if i == 2 {
        4
    } else {
        8
    }
}

/// The product of lane `i` of `a` and of `b`.
pub open spec fn lane_product(a: Seq<int>, b: Seq<int>, i: int) -> int {
    a[i] * b[i]
}

/// The lane-wise sum `a + b`.
pub open spec fn lane_sum(a: Seq<int>, b: Seq<int>) -> Seq<int> {
    Seq::new(a.len(), |i: int| a[i] + b[i])
}

/// The lane-wise difference `a - b`.
pub open spec fn lane_diff(a: Seq<int>, b: Seq<int>) -> Seq<int> {
    Seq::new(a.len(), |i: int| a[i] - b[i])
}

/// The lane-wise product of `a` and `b`.
pub open spec fn lane_mul(a: Seq<int>, b: Seq<int>) -> Seq<int> {
    Seq::new(a.len(), |i: int| a[i] * b[i])
}

/// The lane-wise quotient of `a` by `b`, rounded towards zero.
pub open spec fn lane_quot(a: Seq<int>, b: Seq<int>) -> Seq<int> {
    Seq::new(a.len(), |i: int| trunc_div(a[i], b[i]))
}

/// No lane of `a` is zero.
pub open spec fn lanes_nonzero(a: Seq<int>) -> bool {
    forall|i: int| 0 <= i < a.len() ==> #[trigger] a[i] != 0
}

/// The lanes of `a`, each wrapped into `lo..=hi`.
pub open spec fn lanes_wrapped(a: Seq<int>, lo: int, hi: int) -> Seq<int> {
    Seq::new(a.len(), |i: int| wrap(a[i], lo, hi))
}

/// The lanes of `a`, each saturated to `lo..=hi`.
pub open spec fn lanes_saturated(a: Seq<int>, lo: int, hi: int) -> Seq<int> {
    Seq::new(a.len(), |i: int| saturate(a[i], lo, hi))
}

/// Every lane of `a` lies in `lo..=hi`.
pub open spec fn lanes_fit(a: Seq<int>, lo: int, hi: int) -> bool {
    forall|i: int| 0 <= i < a.len() ==> fits(#[trigger] a[i], lo, hi)
}

/// The sum of the first `n` lanes.
pub open spec fn sum_prefix(a: Seq<int>, n: nat) -> int
    decreases n,
{
    if n == 0 {
        0
    } else {
        sum_prefix(a, (n - 1) as nat) + a[n - 1]
    }
}

/// Adding the first `n` lanes from the left never leaves `lo..=hi`.
pub open spec fn sum_fits(a: Seq<int>, n: nat, lo: int, hi: int) -> bool
    decreases n,
{
    n == 0 || (sum_fits(a, (n - 1) as nat, lo, hi) && fits(sum_prefix(a, n), lo, hi))
}

/// The product of the first `n` lanes.
pub open spec fn product_prefix(a: Seq<int>, n: nat) -> int
    decreases n,
{
    if n == 0 {
        1
    } else {
        product_prefix(a, (n - 1) as nat) * a[n - 1]
    }
}

/// Multiplying the first `n` lanes from the left never leaves `lo..=hi`.
pub open spec fn product_fits(a: Seq<int>, n: nat, lo: int, hi: int) -> bool
    decreases n,
{
    n == 0 || (product_fits(a, (n - 1) as nat, lo, hi) && fits(product_prefix(a, n), lo, hi))
}

/// The dot product of the first `n` lanes of `a` and `b`.
pub open spec fn dot_prefix(a: Seq<int>, b: Seq<int>, n: nat) -> int
    decreases n,
{
    if n == 0 {
        0
    } else {
        dot_prefix(a, b, (n - 1) as nat) + lane_product(a, b, n - 1)
    }
}

/// Each lane product of the first `n` lanes, and each sum of them taken from
/// the left, lies in `lo..=hi`.
pub open spec fn dot_fits(a: Seq<int>, b: Seq<int>, n: nat, lo: int, hi: int) -> bool
    decreases n,
{
    n == 0 || (dot_fits(a, b, (n - 1) as nat, lo, hi) && fits(lane_product(a, b, n - 1), lo, hi)
        && fits(dot_prefix(a, b, n), lo, hi))
}

/// The least of the first `n` lanes, for `n >= 1`.
pub open spec fn min_prefix(a: Seq<int>, n: nat) -> int
    decreases n,
{
    if n <= 1 {
        a[0]
    } else {
        min2(min_prefix(a, (n - 1) as nat), a[n - 1])
    }
}

/// The greatest of the first `n` lanes, for `n >= 1`.
pub open spec fn max_prefix(a: Seq<int>, n: nat) -> int
    decreases n,
{
    if n <= 1 {
        a[0]
    } else {
        max2(max_prefix(a, (n - 1) as nat), a[n - 1])
    }
}

/// The sum of the distances between the first `n` lanes of `a` and `b`.
pub open spec fn gap_sum(a: Seq<int>, b: Seq<int>, n: nat) -> int
    decreases n,
{
    if n == 0 {
        0
    } else {
        gap_sum(a, b, (n - 1) as nat) + gap(a[n - 1], b[n - 1])
    }
}

/// The greatest distance between the first `n` lanes of `a` and `b`.
pub open spec fn gap_max(a: Seq<int>, b: Seq<int>, n: nat) -> int
    decreases n,
{
    if n == 0 {
        0
    } else {
        max2(gap_max(a, b, (n - 1) as nat), gap(a[n - 1], b[n - 1]))
    }
}

/// The bit mask of the first `n` lanes of a mask: the bit of lane `i` is set
/// where lane `i` is true.
pub open spec fn true_bits(m: Seq<bool>, n: nat) -> int
    decreases n,
{
    if n == 0 {
        0
    } else {
        true_bits(m, (n - 1) as nat) + if m[n - 1] {
            lane_bit(n - 1)
        } else {
            0
        }
    }
}

/// The bit mask of the signs of the first `n` lanes: the bit of lane `i` is set
/// where lane `i` is negative.
pub open spec fn sign_bits(a: Seq<int>, n: nat) -> int
    decreases n,
{
    if n == 0 {
        0
    } else {
        sign_bits(a, (n - 1) as nat) + if a[n - 1] < 0 {
            lane_bit(n - 1)
        } else {
            0
        }
    }
}

/// Some of the first `n` lanes of the mask is true.
pub open spec fn any_lane(m: Seq<bool>, n: nat) -> bool
    decreases n,
{
    n > 0 && (any_lane(m, (n - 1) as nat) || m[n - 1])
}

/// Each of the first `n` lanes of the mask is true.
pub open spec fn every_lane(m: Seq<bool>, n: nat) -> bool
    decreases n,
{
    n == 0 || (every_lane(m, (n - 1) as nat) && m[n - 1])
}

/// `p` is the first lane of `a` that holds the least value.
pub open spec fn first_min_at(a: Seq<int>, p: int) -> bool {
    &&& 0 <= p < a.len()
    &&& forall|j: int| 0 <= j < a.len() ==> a[p] <= #[trigger] a[j]
    &&& forall|j: int| 0 <= j < p ==> a[p] < #[trigger] a[j]
}

/// `p` is the first lane of `a` that holds the greatest value.
pub open spec fn first_max_at(a: Seq<int>, p: int) -> bool {
    &&& 0 <= p < a.len()
    &&& forall|j: int| 0 <= j < a.len() ==> a[p] >= #[trigger] a[j]
    &&& forall|j: int| 0 <= j < p ==> a[p] > #[trigger] a[j]
}

/// The cross product of two three-lane vectors.
pub open spec fn cross_lanes(a: Seq<int>, b: Seq<int>) -> Seq<int> {
    seq![a[1] * b[2] - b[1] * a[2], a[2] * b[0] - b[2] * a[0], a[0] * b[1] - b[0] * a[1]]
}

/// Every product and every difference of the cross product lies in `lo..=hi`.
pub open spec fn cross_fits(a: Seq<int>, b: Seq<int>, lo: int, hi: int) -> bool {
    &&& fits(a[1] * b[2], lo, hi) && fits(b[1] * a[2], lo, hi)
    &&& fits(a[2] * b[0], lo, hi) && fits(b[2] * a[0], lo, hi)
    &&& fits(a[0] * b[1], lo, hi) && fits(b[0] * a[1], lo, hi)
    &&& lanes_fit(cross_lanes(a, b), lo, hi)
}

/// `b` turned by the angle of `a` and scaled by its length, both read as
/// complex numbers: the product of the two.
pub open spec fn rotate_lanes(a: Seq<int>, b: Seq<int>) -> Seq<int> {
    seq![a[0] * b[0] - a[1] * b[1], a[1] * b[0] + a[0] * b[1]]
}

/// Every product, and the difference and the sum, of `rotate_lanes` lies in
/// `lo..=hi`.
pub open spec fn rotate_fits(a: Seq<int>, b: Seq<int>, lo: int, hi: int) -> bool {
    &&& fits(a[0] * b[0], lo, hi) && fits(a[1] * b[1], lo, hi)
    &&& fits(a[1] * b[0], lo, hi) && fits(a[0] * b[1], lo, hi)
    &&& lanes_fit(rotate_lanes(a, b), lo, hi)
}

/// The perpendicular dot product of two two-lane vectors.
pub open spec fn perp_dot_value(a: Seq<int>, b: Seq<int>) -> int {
    a[0] * b[1] - a[1] * b[0]
}

/// Both products and the difference of `perp_dot_value` lie in `lo..=hi`.
pub open spec fn perp_dot_fits(a: Seq<int>, b: Seq<int>, lo: int, hi: int) -> bool {
    &&& fits(a[0] * b[1], lo, hi)
    &&& fits(a[1] * b[0], lo, hi)
    &&& fits(perp_dot_value(a, b), lo, hi)
}

/// Wrapping gives a value of the range, and leaves a value of the range as
/// it is.
pub proof fn lemma_wrap(v: int, lo: int, hi: int)
    requires
        lo <= hi,
    ensures
        fits(wrap(v, lo, hi), lo, hi),
        (wrap(v, lo, hi) - v) % (hi - lo + 1) == 0,
        fits(v, lo, hi) ==> wrap(v, lo, hi) == v,
{
    let m = hi - lo + 1;
    let q = (v - lo) / m;
    assert(v - lo == m * q + (v - lo) % m) by (nonlinear_arith)
        requires
            m > 0,
            q == (v - lo) / m,
    ;
    assert(0 <= (v - lo) % m < m);
    assert((wrap(v, lo, hi) - v) == m * (-q)) by (nonlinear_arith)
        requires
            wrap(v, lo, hi) - v == (v - lo) % m - (v - lo),
            v - lo == m * q + (v - lo) % m,
    ;
    assert((m * (-q)) % m == 0) by (nonlinear_arith)
        requires
            m > 0,
    ;
    if fits(v, lo, hi) {
        assert((v - lo) % m == v - lo) by (nonlinear_arith)
            requires
                0 <= v - lo < m,
        ;
    }
}

/// Saturating gives a value of the range, and leaves a value of the range as
/// it is.
pub proof fn lemma_saturate(v: int, lo: int, hi: int)
    requires
        lo <= hi,
    ensures
        fits(saturate(v, lo, hi), lo, hi),
        fits(v, lo, hi) ==> saturate(v, lo, hi) == v,
{
}

/// The quotient rounded towards zero: what is left of `a` is smaller than
/// `b`, and has the sign of `a` or is zero.
pub proof fn lemma_trunc_div(a: int, b: int)
    requires
        b != 0,
    ensures
        magnitude(a - trunc_div(a, b) * b) < magnitude(b),
        a >= 0 ==> a - trunc_div(a, b) * b >= 0,
        a <= 0 ==> a - trunc_div(a, b) * b <= 0,
{
    let pa = magnitude(a);
    let pb = magnitude(b);
    let q = pa / pb;
    assert(pa == pb * q + pa % pb && 0 <= pa % pb < pb) by (nonlinear_arith)
        requires
            pb > 0,
            q == pa / pb,
    ;
    if a >= 0 {
        if b > 0 {
            assert(trunc_div(a, b) == q);
            assert(a - q * b == pa % pb) by (nonlinear_arith)
                requires
                    pa == pb * q + pa % pb,
                    a == pa,
                    b == pb,
            ;
        } else {
            assert(trunc_div(a, b) == -q);
            assert(a - (-q) * b == pa % pb) by (nonlinear_arith)
                requires
                    pa == pb * q + pa % pb,
                    a == pa,
                    b == -pb,
            ;
        }
    } else {
        if b > 0 {
            assert(trunc_div(a, b) == -q);
            assert(a - (-q) * b == -(pa % pb)) by (nonlinear_arith)
                requires
                    pa == pb * q + pa % pb,
                    a == -pa,
                    b == pb,
            ;
        } else {
            assert(trunc_div(a, b) == q);
            assert(a - q * b == -(pa % pb)) by (nonlinear_arith)
                requires
                    pa == pb * q + pa % pb,
                    a == -pa,
                    b == -pb,
            ;
        }
    }
}

/// The least of the first `n` lanes is one of them and no greater than any
/// of them.
pub proof fn lemma_min_prefix(a: Seq<int>, n: nat)
    requires
        1 <= n <= a.len(),
    ensures
        exists|i: int| 0 <= i < n && a[i] == min_prefix(a, n),
        forall|i: int| 0 <= i < n ==> min_prefix(a, n) <= #[trigger] a[i],
    decreases n,
{
    if n > 1 {
        lemma_min_prefix(a, (n - 1) as nat);
        let k = choose|i: int| 0 <= i < n - 1 && a[i] == min_prefix(a, (n - 1) as nat);
        if a[n - 1] < min_prefix(a, (n - 1) as nat) {
            assert(a[n - 1] == min_prefix(a, n));
        } else {
            assert(a[k] == min_prefix(a, n));
        }
    } else {
        assert(a[0] == min_prefix(a, n));
    }
}

/// The greatest of the first `n` lanes is one of them and no less than any
/// of them.
pub proof fn lemma_max_prefix(a: Seq<int>, n: nat)
    requires
        1 <= n <= a.len(),
    ensures
        exists|i: int| 0 <= i < n && a[i] == max_prefix(a, n),
        forall|i: int| 0 <= i < n ==> max_prefix(a, n) >= #[trigger] a[i],
    decreases n,
{
    if n > 1 {
        lemma_max_prefix(a, (n - 1) as nat);
        let k = choose|i: int| 0 <= i < n - 1 && a[i] == max_prefix(a, (n - 1) as nat);
        if a[n - 1] > max_prefix(a, (n - 1) as nat) {
            assert(a[n - 1] == max_prefix(a, n));
        } else {
            assert(a[k] == max_prefix(a, n));
        }
    } else {
        assert(a[0] == max_prefix(a, n));
    }
}

/// The first lane that holds the least value holds `min_prefix`.
pub proof fn lemma_first_min(a: Seq<int>, p: int)
    requires
        a.len() >= 1,
        first_min_at(a, p),
    ensures
        a[p] == min_prefix(a, a.len()),
{
    lemma_min_prefix(a, a.len());
}

/// The first lane that holds the greatest value holds `max_prefix`.
pub proof fn lemma_first_max(a: Seq<int>, p: int)
    requires
        a.len() >= 1,
        first_max_at(a, p),
    ensures
        a[p] == max_prefix(a, a.len()),
{
    lemma_max_prefix(a, a.len());
}

/// Some of the first `n` lanes is true exactly when a true lane can be
/// named, and each is true exactly when no false lane can.
pub proof fn lemma_any_every(m: Seq<bool>, n: nat)
    requires
        n <= m.len(),
    ensures
        any_lane(m, n) <==> exists|i: int| 0 <= i < n && #[trigger] m[i],
        every_lane(m, n) <==> forall|i: int| 0 <= i < n ==> #[trigger] m[i],
    decreases n,
{
    if n > 0 {
        lemma_any_every(m, (n - 1) as nat);
        if any_lane(m, n) {
            if m[n - 1] {
                assert(0 <= n - 1 < n && m[n - 1]);
            } else {
                let k = choose|i: int| 0 <= i < n - 1 && #[trigger] m[i];
                assert(0 <= k < n && m[k]);
            }
        }
        if exists|i: int| 0 <= i < n && #[trigger] m[i] {
            let k = choose|i: int| 0 <= i < n && #[trigger] m[i];
            if k < n - 1 {
                assert(0 <= k < n - 1 && m[k]);
            }
        }
    }
}

/// A bit mask of at most four lanes is below sixteen, and it is zero exactly
/// when no lane is true.
pub proof fn lemma_true_bits(m: Seq<bool>, n: nat)
    requires
        n <= 4,
        n <= m.len(),
    ensures
        0 <= true_bits(m, n) < 16,
        true_bits(m, n) != 0 <==> any_lane(m, n),
{
    reveal_with_fuel(true_bits, 5);
    reveal_with_fuel(any_lane, 5);
}

/// Where every lane of the lane-wise sum fits, wrapping and saturating leave
/// it as it is: the checked, the wrapping and the saturating operation agree.
pub proof fn lemma_fitting_lanes(a: Seq<int>, lo: int, hi: int)
    requires
        lo <= hi,
        lanes_fit(a, lo, hi),
    ensures
        lanes_wrapped(a, lo, hi) =~= a,
        lanes_saturated(a, lo, hi) =~= a,
{
    assert forall|i: int| 0 <= i < a.len() implies wrap(#[trigger] a[i], lo, hi) == a[i] by {
        lemma_wrap(a[i], lo, hi);
    }
}

/// The dot product does not depend on the order of its operands.
pub proof fn lemma_dot_commutes(a: Seq<int>, b: Seq<int>, n: nat)
    ensures
        dot_prefix(a, b, n) == dot_prefix(b, a, n),
    decreases n,
{
    if n > 0 {
        lemma_dot_commutes(a, b, (n - 1) as nat);
        assert(lane_product(a, b, n - 1) == lane_product(b, a, n - 1)) by (nonlinear_arith)
            requires
                lane_product(a, b, n - 1) == a[n - 1] * b[n - 1],
                lane_product(b, a, n - 1) == b[n - 1] * a[n - 1],
        ;
    }
}

/// The sum of the distances is no less than the greatest distance, and
/// neither is negative.
pub proof fn lemma_gaps(a: Seq<int>, b: Seq<int>, n: nat)
    ensures
        0 <= gap_max(a, b, n) <= gap_sum(a, b, n),
    decreases n,
{
    if n > 0 {
        lemma_gaps(a, b, (n - 1) as nat);
    }
}


} // verus!
