//! Exact integer geometry: squared distances, the integer square root, and
//! the scaling that clamps the knob to the background's rim.

use vstd::prelude::*;

verus! {

use vstd::arithmetic::div_mod::{
    lemma_div_is_ordered,
    lemma_div_multiples_vanish,
    lemma_div_pos_is_pos,
    lemma_fundamental_div_mod,
    lemma_mod_division_less_than_divisor,
};

/// x squared.
pub open spec fn sq(x: int) -> int {
    x * x
}

/// Squared Euclidean length of the offset (dx, dy).
pub open spec fn dist2(dx: int, dy: int) -> int {
    dx * dx + dy * dy
}

/// The floor of the square root of n (meaningful for n >= 0).
pub open spec fn sqrt_floor(n: int) -> int {
    choose|r: int| 0 <= r && #[trigger] sq(r) <= n && n < sq(r + 1)
}

/// Every nonnegative n has a floor square root; returns a witness.
proof fn lemma_sqrt_witness(n: int) -> (r: int)
    requires
        0 <= n,
    ensures
        0 <= r,
        r * r <= n,
        n < (r + 1) * (r + 1),
    decreases n,
{
    if n == 0 {
        0
    } else {
        let p = lemma_sqrt_witness(n - 1);
        if (p + 1) * (p + 1) <= n {
            assert(n == (p + 1) * (p + 1));
            assert(n < (p + 2) * (p + 2)) by (nonlinear_arith)
                requires
                    0 <= p,
                    n == (p + 1) * (p + 1),
            ;
            p + 1
        } else {
            p
        }
    }
}

/// A value r with r^2 <= n < (r+1)^2 is the floor square root of n.
pub proof fn lemma_sqrt_floor_char(n: int, r: int)
    requires
        0 <= r,
        r * r <= n,
        n < (r + 1) * (r + 1),
    ensures
        sqrt_floor(n) == r,
{
    assert(exists|q: int| 0 <= q && #[trigger] sq(q) <= n && n < sq(q + 1)) by {
        assert(0 <= r && sq(r) <= n && n < sq(r + 1));
    }
    let q = sqrt_floor(n);
    assert(0 <= q && sq(q) <= n && n < sq(q + 1));
    assert(sq(q) == q * q && sq(q + 1) == (q + 1) * (q + 1));
    assert(q == r) by (nonlinear_arith)
        requires
            0 <= q,
            q * q <= n,
            n < (q + 1) * (q + 1),
            0 <= r,
            r * r <= n,
            n < (r + 1) * (r + 1),
    ;
}

/// The integer square root: the floor of the square root of n, found by
/// binary search.
pub fn isqrt(n: i64) -> (root: i64)
    requires
        0 <= n < 0x1000000000000000,
    ensures
        0 <= root,
        root * root <= n,
        n < (root + 1) * (root + 1),
        root == sqrt_floor(n as int),
{
    let mut lo: i64 = 0;
    let mut hi: i64 = 1073741824;
    assert((1073741824int) * (1073741824int) == 0x1000000000000000int);
    while lo + 1 < hi
        invariant
            0 <= lo < hi <= 1073741824,
            lo * lo <= n,
            (n as int) < hi * hi,
        decreases hi - lo,
    {
        let mid: i64 = lo + (hi - lo) / 2;
        assert(lo < mid < hi);
        assert(mid * mid <= 1073741824int * 1073741824int) by (nonlinear_arith)
            requires
                0 <= mid <= 1073741824,
        ;
        if mid * mid <= n {
            lo = mid;
        } else {
            hi = mid;
        }
    }
    proof {
        lemma_sqrt_floor_char(n as int, lo as int);
    }
    lo
}

/// The offset component d scaled by r/len, rounding the magnitude down and
/// keeping the sign: sign(d) * ((|d| * r) / len).
pub open spec fn scale_offset(d: int, r: int, len: int) -> int {
    if d < 0 {
        -((-d) * r / len)
    } else {
        d * r / len
    }
}

/// Division facts for one scaled component, 0 <= a <= len, 0 <= r:
/// the quotient q = (a * r) / len satisfies 0 <= q <= r and
/// q * len <= a * r < (q + 1) * len.
proof fn lemma_scale_component(a: int, r: int, len: int)
    requires
        0 < len,
        0 <= r <= len,
        0 <= a <= len,
    ensures
        0 <= a * r / len <= r,
        (a * r / len) * len <= a * r,
        a * r < (a * r / len + 1) * len,
{
    let p = a * r;
    assert(0 <= p && p <= len * r) by (nonlinear_arith)
        requires
            0 <= a <= len,
            0 <= r,
            p == a * r,
    ;
    lemma_div_pos_is_pos(p, len);
    lemma_div_is_ordered(p, len * r, len);
    lemma_div_multiples_vanish(r, len);
    assert(p / len <= r);
    lemma_fundamental_div_mod(p, len);
    let q = p / len;
    let m = p % len;
    lemma_mod_division_less_than_divisor(p, len);
    assert(q * len <= p) by (nonlinear_arith)
        requires
            p == len * q + m,
            0 <= m,
    ;
    assert(p < (q + 1) * len) by (nonlinear_arith)
        requires
            p == len * q + m,
            m < len,
    ;
}

/// Pulling a drag point back onto the rim keeps the knob within one unit of
/// it: if the point's squared distance d2 from the center satisfies
/// len^2 <= d2 < (len+1)^2 and the rim's radius is r <= len, the scaled
/// offsets have squared length at most r^2 + 2r, which is below (r+1)^2.
pub proof fn lemma_scale_offset_bounds(dx: int, dy: int, r: int, len: int)
    requires
        0 < len,
        0 <= r <= len,
        len * len <= dist2(dx, dy) < (len + 1) * (len + 1),
    ensures
        -r <= scale_offset(dx, r, len) <= r,
        -r <= scale_offset(dy, r, len) <= r,
        dist2(scale_offset(dx, r, len), scale_offset(dy, r, len)) <= r * r + 2 * r,
        dist2(scale_offset(dx, r, len), scale_offset(dy, r, len)) < sq(r + 1),
{
    let ax = if dx < 0 { -dx } else { dx };
    let ay = if dy < 0 { -dy } else { dy };
    assert(ax * ax == dx * dx && ay * ay == dy * dy) by (nonlinear_arith)
        requires
            ax == if dx < 0 { -dx } else { dx },
            ay == if dy < 0 { -dy } else { dy },
    ;
    assert(ax <= len && ay <= len) by (nonlinear_arith)
        requires
            0 <= ax,
            0 <= ay,
            0 < len,
            ax * ax + ay * ay < (len + 1) * (len + 1),
    ;
    lemma_scale_component(ax, r, len);
    lemma_scale_component(ay, r, len);
    let qx = ax * r / len;
    let qy = ay * r / len;
    assert(scale_offset(dx, r, len) == if dx < 0 { -qx } else { qx });
    assert(scale_offset(dy, r, len) == if dy < 0 { -qy } else { qy });
    assert(qx * qx * (len * len) <= (ax * ax) * (r * r)) by (nonlinear_arith)
        requires
            0 <= qx,
            0 <= len,
            0 <= ax,
            0 <= r,
            qx * len <= ax * r,
    ;
    assert(qy * qy * (len * len) <= (ay * ay) * (r * r)) by (nonlinear_arith)
        requires
            0 <= qy,
            0 <= len,
            0 <= ay,
            0 <= r,
            qy * len <= ay * r,
    ;
    let s2 = qx * qx + qy * qy;
    assert(s2 * (len * len) <= (ax * ax + ay * ay) * (r * r) && 0 <= s2) by (nonlinear_arith)
        requires
            s2 == qx * qx + qy * qy,
            0 <= qx,
            0 <= qy,
            qx * qx * (len * len) <= (ax * ax) * (r * r),
            qy * qy * (len * len) <= (ay * ay) * (r * r),
    ;
    assert((ax * ax + ay * ay) * (r * r) <= (len * len + 2 * len) * (r * r)) by (nonlinear_arith)
        requires
            ax * ax + ay * ay < (len + 1) * (len + 1),
            0 <= r,
    ;
    assert(s2 <= r * r + 2 * r) by (nonlinear_arith)
        requires
            0 < len,
            0 <= r <= len,
            0 <= s2,
            s2 * (len * len) <= (len * len + 2 * len) * (r * r),
    ;
    let ox = scale_offset(dx, r, len);
    let oy = scale_offset(dy, r, len);
    assert(ox * ox == qx * qx && oy * oy == qy * qy) by (nonlinear_arith)
        requires
            ox == -qx || ox == qx,
            oy == -qy || oy == qy,
    ;
    assert(dist2(ox, oy) == qx * qx + qy * qy);
    assert(r * r + 2 * r < (r + 1) * (r + 1)) by (nonlinear_arith)
        requires
            0 <= r,
    ;
}

/// The floor square root of a nonnegative n exists and is characterized by
/// sqrt_floor(n)^2 <= n < (sqrt_floor(n) + 1)^2.
pub proof fn lemma_sqrt_floor_props(n: int)
    requires
        0 <= n,
    ensures
        0 <= sqrt_floor(n),
        sq(sqrt_floor(n)) <= n,
        n < sq(sqrt_floor(n) + 1),
{
    let w = lemma_sqrt_witness(n);
    lemma_sqrt_floor_char(n, w);
}

/// The zero offset lies within the rim bound the widget keeps: its squared
/// length is below (r+1)^2 for every radius r >= 0.
pub proof fn lemma_zero_within_rim(r: int)
    requires
        0 <= r,
    ensures
        dist2(0, 0) < sq(r + 1),
{
    assert(0 < (r + 1) * (r + 1)) by (nonlinear_arith)
        requires
            0 <= r,
    ;
}

} // verus!
