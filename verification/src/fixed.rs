//! Saturating fixed-point numbers: the scalar type the renderer computes with.
//!
//! A value is an `i64` holding `value * SCALE` (16 fractional bits).  Every
//! operation clips its result to the symmetric range `[-CLIP, CLIP]`, so all
//! operations are total and overflow-free; the specification functions below
//! state each result exactly.

use vstd::prelude::*;

verus! {

/// One whole unit, in raw steps: 16 fractional bits.
pub const SCALE: i64 = 65536;

/// Largest raw magnitude a number may hold (2^55 raw steps, about 5.5e11 units).
/// Results outside `[-CLIP, CLIP]` saturate to the nearest bound.
pub const CLIP: i64 = 0x0080_0000_0000_0000;

/// A fixed-point number: `v` raw steps of 1/SCALE each.
#[derive(Clone, Copy, Debug, PartialEq, Eq, Structural)]
pub struct Fx {
    pub v: i64,
}

/// Magnitude of a mathematical integer.
pub open spec fn iabs(x: int) -> int {
    if x >= 0 {
        x
    } else {
        -x
    }
}

/// Saturate a nonnegative magnitude at `CLIP`.
pub open spec fn cap_mag(m: int) -> int {
    if m > CLIP {
        CLIP as int
    } else {
        m
    }
}

/// Reattach a sign to a nonnegative magnitude.
pub open spec fn signed(m: int, neg: bool) -> int {
    if neg {
        -m
    } else {
        m
    }
}

/// Saturate a signed result into `[-CLIP, CLIP]`.
pub open spec fn clip(x: int) -> int {
    signed(cap_mag(iabs(x)), x < 0)
}

/// Raw value of the sum.
pub open spec fn add_raw(a: int, b: int) -> int {
    clip(a + b)
}

/// Raw value of the difference.
pub open spec fn sub_raw(a: int, b: int) -> int {
    clip(a - b)
}

/// Raw value of the product: magnitudes multiply, drop the extra SCALE,
/// truncating toward zero, then saturate.
pub open spec fn mul_raw(a: int, b: int) -> int {
    signed(cap_mag((iabs(a) * iabs(b)) / (SCALE as int)), (a < 0) != (b < 0))
}

/// Raw value of the quotient, truncating toward zero.  Division by zero
/// saturates to the bound carrying the dividend's sign, standing in for the
/// infinities of real arithmetic.
pub open spec fn div_raw(a: int, b: int) -> int {
    if b == 0 {
        signed(CLIP as int, a < 0)
    } else {
        signed(cap_mag((iabs(a) * (SCALE as int)) / iabs(b)), (a < 0) != (b < 0))
    }
}

impl Fx {
    /// Every stored number stays inside the saturation range.
    pub open spec fn wf(self) -> bool {
        -CLIP <= self.v <= CLIP
    }

    /// The number `raw / SCALE`, as a spec-level constructor.
    pub open spec fn spec_raw(raw: int) -> Fx {
        Fx { v: clip(raw) as i64 }
    }

    /// The sum, as a value.
    pub open spec fn spec_add(self, o: Fx) -> Fx {
        Fx::spec_raw(self.v + o.v)
    }

    /// The difference, as a value.
    pub open spec fn spec_sub(self, o: Fx) -> Fx {
        Fx::spec_raw(self.v - o.v)
    }

    /// The product, as a value.
    pub open spec fn spec_mul(self, o: Fx) -> Fx {
        Fx { v: mul_raw(self.v as int, o.v as int) as i64 }
    }

    /// The quotient, as a value.
    pub open spec fn spec_div(self, o: Fx) -> Fx {
        Fx { v: div_raw(self.v as int, o.v as int) as i64 }
    }

    /// The square root, as a value.
    pub open spec fn spec_sqrt(self) -> Fx {
        Fx { v: sqrt_raw(self.v as int) as i64 }
    }

    /// The negation, as a value.
    pub open spec fn spec_neg(self) -> Fx {
        Fx { v: (-(self.v as int)) as i64 }
    }

    /// Build a number from a raw step count, saturating.
    pub fn from_raw(raw: i64) -> (r: Fx)
        ensures
            r == Fx::spec_raw(raw as int),
            r.wf(),
    {
        if raw > CLIP {
            Fx { v: CLIP }
        } else if raw < -CLIP {
            Fx { v: -CLIP }
        } else {
            Fx { v: raw }
        }
    }

    /// The whole number `n`, saturating.
    pub fn from_int(n: i32) -> (r: Fx)
        ensures
            r == Fx::spec_raw(n as int * SCALE as int),
            r.wf(),
            r.v == n as int * SCALE as int,
    {
        Fx { v: (n as i64) * SCALE }
    }

    /// Zero.
    pub fn zero() -> (r: Fx)
        ensures
            r.v == 0,
            r.wf(),
    {
        Fx { v: 0 }
    }

    /// One whole unit.
    pub fn one() -> (r: Fx)
        ensures
            r.v == SCALE as int,
            r.wf(),
    {
        Fx { v: SCALE }
    }

    /// The stand-in for positive infinity: the saturation bound itself.
    pub fn infinity() -> (r: Fx)
        ensures
            r.v == CLIP as int,
            r.wf(),
    {
        Fx { v: CLIP }
    }

    /// Sum, saturating.
    pub fn add(self, o: Fx) -> (r: Fx)
        requires
            self.wf(),
            o.wf(),
        ensures
            r == self.spec_add(o),
            r.wf(),
    {
        Fx::from_raw(self.v + o.v)
    }

    /// Difference, saturating.
    pub fn sub(self, o: Fx) -> (r: Fx)
        requires
            self.wf(),
            o.wf(),
        ensures
            r == self.spec_sub(o),
            r.wf(),
    {
        Fx::from_raw(self.v - o.v)
    }

    /// Negation.
    pub fn neg(self) -> (r: Fx)
        requires
            self.wf(),
        ensures
            r == self.spec_neg(),
            r.v == -self.v,
            r.wf(),
    {
        Fx { v: -self.v }
    }

    /// Magnitude.
    pub fn abs(self) -> (r: Fx)
        requires
            self.wf(),
        ensures
            r.v == iabs(self.v as int),
            r.wf(),
    {
        if self.v < 0 {
            Fx { v: -self.v }
        } else {
            self
        }
    }

    /// Strict order on the underlying values.
    pub fn lt(self, o: Fx) -> (r: bool)
        ensures
            r == (self.v < o.v),
    {
        self.v < o.v
    }

    /// Non-strict order on the underlying values.
    pub fn le(self, o: Fx) -> (r: bool)
        ensures
            r == (self.v <= o.v),
    {
        self.v <= o.v
    }
}

impl Fx {
    /// Product, saturating.
    pub fn mul(self, o: Fx) -> (r: Fx)
        requires
            self.wf(),
            o.wf(),
        ensures
            r == self.spec_mul(o),
            r.v == mul_raw(self.v as int, o.v as int),
            r.wf(),
    {
        let neg: bool = (self.v < 0) != (o.v < 0);
        let ua: u64 = if self.v >= 0 {
            self.v as u64
        } else {
            (-self.v) as u64
        };
        let ub: u64 = if o.v >= 0 {
            o.v as u64
        } else {
            (-o.v) as u64
        };
        proof {
            assert((ua as int) * (ub as int) <= (CLIP as int) * (CLIP as int)) by (nonlinear_arith)
                requires
                    0 <= ua as int <= CLIP as int,
                    0 <= ub as int <= CLIP as int,
            ;
        }
        let p: u128 = (ua as u128) * (ub as u128);
        let q: u128 = p / (SCALE as u128);
        let m: i64 = if q > CLIP as u128 {
            CLIP
        } else {
            q as i64
        };
        if neg {
            Fx { v: -m }
        } else {
            Fx { v: m }
        }
    }

    /// Quotient, saturating; a zero divisor saturates to the signed bound.
    pub fn div(self, o: Fx) -> (r: Fx)
        requires
            self.wf(),
            o.wf(),
        ensures
            r == self.spec_div(o),
            r.v == div_raw(self.v as int, o.v as int),
            r.wf(),
    {
        if o.v == 0 {
            if self.v < 0 {
                Fx { v: -CLIP }
            } else {
                Fx { v: CLIP }
            }
        } else {
            let neg: bool = (self.v < 0) != (o.v < 0);
            let ua: u64 = if self.v >= 0 {
                self.v as u64
            } else {
                (-self.v) as u64
            };
            let ub: u64 = if o.v >= 0 {
                o.v as u64
            } else {
                (-o.v) as u64
            };
            let p: u128 = (ua as u128) * (SCALE as u128);
            let q: u128 = p / (ub as u128);
            let m: i64 = if q > CLIP as u128 {
                CLIP
            } else {
                q as i64
            };
            if neg {
                Fx { v: -m }
            } else {
                Fx { v: m }
            }
        }
    }

    /// Square root; negative inputs (which arise only from rounding in
    /// otherwise nonnegative quantities) map to zero.
    pub fn sqrt(self) -> (r: Fx)
        requires
            self.wf(),
        ensures
            r == self.spec_sqrt(),
            r.v == sqrt_raw(self.v as int),
            r.wf(),
            r.v >= 0,
    {
        if self.v <= 0 {
            Fx { v: 0 }
        } else {
            proof {
                assert((self.v as int) * (SCALE as int) < 0x1000000000000000000 as int)
                    by (nonlinear_arith)
                    requires
                        0 <= self.v as int <= CLIP as int,
                ;
            }
            let n: u128 = (self.v as u128) * (SCALE as u128);
            let root: u64 = isqrt_u128(n);
            proof {
                lemma_isqrt_unique(n as int, root as int);
                assert((root as int) * (root as int) <= n as int);
                assert(root as int <= 0x1000000 as int * 0x1000000 as int) by (nonlinear_arith)
                    requires
                        0 <= root,
                        (root as int) * (root as int) <= 0x1000000000000000000 as int,
                ;
            }
            Fx { v: root as i64 }
        }
    }
}

/// `r` is the integer square root of `n`: the largest integer whose square
/// does not exceed `n`.
pub open spec fn is_isqrt(n: int, r: int) -> bool {
    0 <= r && r * r <= n && n < (r + 1) * (r + 1)
}

/// The integer square root, as a function.
pub closed spec fn isqrt(n: int) -> int {
    choose|r: int| is_isqrt(n, r)
}

/// Raw value of the fixed-point square root.
pub open spec fn sqrt_raw(a: int) -> int {
    if a <= 0 {
        0
    } else {
        isqrt(a * (SCALE as int))
    }
}

/// Every nonnegative integer has an integer square root.
pub proof fn lemma_isqrt_exists(n: int)
    requires
        n >= 0,
    ensures
        is_isqrt(n, isqrt(n)),
    decreases n,
{
    if n == 0 {
        assert(is_isqrt(0, 0));
    } else {
        lemma_isqrt_exists(n - 1);
        let r = isqrt(n - 1);
        if (r + 1) * (r + 1) <= n {
            assert(n == (r + 1) * (r + 1));
            assert((r + 1 + 1) * (r + 1 + 1) > n) by (nonlinear_arith)
                requires
                    r >= 0,
                    n == (r + 1) * (r + 1),
            ;
            assert(is_isqrt(n, r + 1));
        } else {
            assert(is_isqrt(n, r));
        }
    }
}

/// The integer square root is unique.
pub proof fn lemma_isqrt_unique(n: int, r: int)
    requires
        is_isqrt(n, r),
    ensures
        r == isqrt(n),
{
    lemma_isqrt_exists(n);
    let s = isqrt(n);
    if r < s {
        assert((r + 1) * (r + 1) <= s * s) by (nonlinear_arith)
            requires
                0 <= r,
                0 <= s,
                r + 1 <= s,
        ;
    }
    if s < r {
        assert((s + 1) * (s + 1) <= r * r) by (nonlinear_arith)
            requires
                0 <= r,
                0 <= s,
                s + 1 <= r,
        ;
    }
}

/// Integer square root by bisection.
fn isqrt_u128(n: u128) -> (r: u64)
    requires
        n < 0x1000000000000000000,
    ensures
        is_isqrt(n as int, r as int),
{
    let mut lo: u64 = 0;
    let mut hi: u64 = 0x1000000000;
    proof {
        assert((0x1000000000 as int) * (0x1000000000 as int) == 0x1000000000000000000 as int)
            by (nonlinear_arith);
    }
    while lo + 1 < hi
        invariant
            lo < hi,
            hi <= 0x1000000000,
            (lo as int) * (lo as int) <= n as int,
            (n as int) < (hi as int) * (hi as int),
        decreases hi - lo,
    {
        let mid: u64 = lo + (hi - lo) / 2;
        proof {
            assert((mid as int) * (mid as int) <= (0x1000000000 as int) * (0x1000000000 as int))
                by (nonlinear_arith)
                requires
                    0 <= mid as int <= 0x1000000000 as int,
            ;
        }
        let sq: u128 = (mid as u128) * (mid as u128);
        if sq <= n {
            lo = mid;
        } else {
            hi = mid;
        }
    }
    lo
}

/// Multiplying by zero gives zero.
pub proof fn lemma_mul_raw_zero(a: int)
    ensures
        mul_raw(a, 0) == 0,
        mul_raw(0, a) == 0,
{
    assert(iabs(0) == 0);
    assert(iabs(a) * 0 == 0);
    assert(0 * iabs(a) == 0);
    assert((0 as int) / (SCALE as int) == 0);
    assert(cap_mag(0) == 0);
}

/// Saturation does not move values already in range.
pub proof fn lemma_clip_id(x: int)
    requires
        -CLIP <= x <= CLIP,
    ensures
        clip(x) == x,
{
}

/// One whole unit is the multiplicative identity, within range.
pub proof fn lemma_mul_raw_one(a: int)
    requires
        -CLIP <= a <= CLIP,
    ensures
        mul_raw(a, SCALE as int) == a,
{
    assert((iabs(a) * (SCALE as int)) / (SCALE as int) == iabs(a)) by (nonlinear_arith)
        requires
            0 <= iabs(a),
    ;
}

/// Every spec-level operation yields a value inside the saturation range.
pub proof fn lemma_spec_ops_wf(a: Fx, b: Fx)
    requires
        a.wf(),
        b.wf(),
    ensures
        a.spec_add(b).wf(),
        a.spec_sub(b).wf(),
        a.spec_mul(b).wf(),
        a.spec_div(b).wf(),
        a.spec_neg().wf(),
        a.spec_sqrt().wf(),
        a.spec_sqrt().v >= 0,
{
    if a.v > 0 {
        let n = (a.v as int) * (SCALE as int);
        assert(n <= (CLIP as int) * (SCALE as int)) by (nonlinear_arith)
            requires
                0 < a.v as int <= CLIP as int,
                n == (a.v as int) * (SCALE as int),
        ;
        lemma_isqrt_exists(n);
        let r = isqrt(n);
        assert(r <= CLIP) by (nonlinear_arith)
            requires
                is_isqrt(n, r),
                0 <= n <= (CLIP as int) * (SCALE as int),
        ;
    }
}

/// Products of factors within `[0, 1]` stay within `[0, 1]`.
pub proof fn lemma_mul_raw_unit(a: int, b: int)
    requires
        0 <= a <= SCALE,
        0 <= b <= SCALE,
    ensures
        0 <= mul_raw(a, b) <= SCALE,
{
    assert(a * b <= (SCALE as int) * (SCALE as int)) by (nonlinear_arith)
        requires
            0 <= a <= SCALE as int,
            0 <= b <= SCALE as int,
    ;
    assert(iabs(a) == a && iabs(b) == b);
    assert((a * b) / (SCALE as int) <= SCALE as int) by (nonlinear_arith)
        requires
            0 <= a * b <= (SCALE as int) * (SCALE as int),
    ;
    assert(0 <= (a * b) / (SCALE as int)) by (nonlinear_arith)
        requires
            0 <= a * b,
    ;
}

/// Saturation is symmetric under negation.
pub proof fn lemma_clip_neg(x: int)
    ensures
        clip(-x) == -clip(x),
{
    assert(iabs(-x) == iabs(x));
}

/// Negating one factor negates the raw product.
pub proof fn lemma_mul_raw_neg(a: int, b: int)
    ensures
        mul_raw(a, -b) == -mul_raw(a, b),
{
    assert(iabs(-b) == iabs(b));
    let p = iabs(a) * iabs(b);
    assert(iabs(a) * iabs(-b) == p);
    assert(p >= 0) by (nonlinear_arith)
        requires
            0 <= iabs(a),
            0 <= iabs(b),
            p == iabs(a) * iabs(b),
    ;
    assert(p / (SCALE as int) >= 0);
    let m = cap_mag(p / (SCALE as int));
    assert(0 <= m <= CLIP);
    if b == 0 {
        assert(iabs(b) == 0);
        assert(p == iabs(a) * 0);
        assert(p == 0);
        assert(m == 0);
    } else {
        assert(((a < 0) != (-b < 0)) == !((a < 0) != (b < 0)));
        assert(signed(m, !((a < 0) != (b < 0))) == -signed(m, (a < 0) != (b < 0)));
    }
}

/// Saturation preserves order.
pub proof fn lemma_clip_monotone(x: int, y: int)
    requires
        x <= y,
    ensures
        clip(x) <= clip(y),
{
}

/// For a nonnegative divisor, the saturating quotient preserves the order of
/// dividends.
pub proof fn lemma_div_raw_monotone(n1: int, n2: int, a: int)
    requires
        n1 <= n2,
        a >= 0,
    ensures
        div_raw(n1, a) <= div_raw(n2, a),
{
    if a == 0 {
    } else if 0 <= n1 {
        vstd::arithmetic::div_mod::lemma_div_is_ordered(
            n1 * (SCALE as int),
            n2 * (SCALE as int),
            a,
        );
        assert(n1 * (SCALE as int) <= n2 * (SCALE as int)) by (nonlinear_arith)
            requires
                n1 <= n2,
        ;
        assert(iabs(n1) * (SCALE as int) == n1 * (SCALE as int));
        assert(iabs(n2) * (SCALE as int) == n2 * (SCALE as int));
        assert(0 <= (iabs(n1) * (SCALE as int)) / a) by (nonlinear_arith)
            requires
                0 <= iabs(n1) * (SCALE as int),
                a > 0,
        ;
    } else if n2 < 0 {
        vstd::arithmetic::div_mod::lemma_div_is_ordered(
            (-n2) * (SCALE as int),
            (-n1) * (SCALE as int),
            a,
        );
        assert((-n2) * (SCALE as int) <= (-n1) * (SCALE as int)) by (nonlinear_arith)
            requires
                n1 <= n2 < 0,
        ;
        assert(iabs(n1) * (SCALE as int) == (-n1) * (SCALE as int));
        assert(iabs(n2) * (SCALE as int) == (-n2) * (SCALE as int));
        assert(0 <= (iabs(n2) * (SCALE as int)) / a) by (nonlinear_arith)
            requires
                0 <= iabs(n2) * (SCALE as int),
                a > 0,
        ;
    } else {
        // n1 < 0 <= n2: the left quotient is nonpositive, the right
        // nonnegative.
        assert(0 <= (iabs(n1) * (SCALE as int)) / a) by (nonlinear_arith)
            requires
                0 <= iabs(n1) * (SCALE as int),
                a > 0,
        ;
        assert(0 <= (iabs(n2) * (SCALE as int)) / a) by (nonlinear_arith)
            requires
                0 <= iabs(n2) * (SCALE as int),
                a > 0,
        ;
    }
}

/// The smaller of two numbers.
pub fn minf(a: Fx, b: Fx) -> (r: Fx)
    ensures
        r.v == if a.v < b.v { a.v } else { b.v },
        r == if a.v < b.v { a } else { b },
{
    if a.v < b.v {
        a
    } else {
        b
    }
}

/// The larger of two numbers.
pub fn maxf(a: Fx, b: Fx) -> (r: Fx)
    ensures
        r.v == if a.v > b.v { a.v } else { b.v },
        r == if a.v > b.v { a } else { b },
{
    if a.v > b.v {
        a
    } else {
        b
    }
}

/// Raw value of clamping `x` into `[lo, hi]` (callers pass `lo <= hi`).
pub open spec fn clamp_raw(x: int, lo: int, hi: int) -> int {
    if x < lo {
        lo
    } else if x > hi {
        hi
    } else {
        x
    }
}

/// Clamp a number into the interval `[lo, hi]`.
pub fn clamp_fx(x: Fx, lo: Fx, hi: Fx) -> (r: Fx)
    ensures
        r.v == clamp_raw(x.v as int, lo.v as int, hi.v as int),
{
    if x.v < lo.v {
        lo
    } else if x.v > hi.v {
        hi
    } else {
        x
    }
}

} // verus!
