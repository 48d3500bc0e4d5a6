//! Saturating fixed-point scalars.
//!
//! A value is stored as a signed 64-bit integer holding `value * SCALE`.
//! Every operation saturates at `±i64::MAX` (the raw value `i64::MIN` never
//! occurs), and multiplication and division truncate toward zero, so each
//! operation's result is pinned down exactly by the spec functions below.

use vstd::prelude::*;

verus! {

/// Raw units per 1.0: the fixed-point scale.
pub const SCALE: i64 = 65536;

/// Largest raw magnitude a scalar may hold (saturation bound, symmetric).
pub const MAX_RAW: i64 = 9223372036854775807;

/// Saturate a mathematical integer into the symmetric raw range.
pub open spec fn sat(x: int) -> int {
    if x > MAX_RAW as int {
        MAX_RAW as int
    } else if x < -(MAX_RAW as int) {
        -(MAX_RAW as int)
    } else {
        x
    }
}

/// Division truncating toward zero (the behavior of hardware division),
/// for a nonzero divisor.
pub open spec fn tdiv(a: int, b: int) -> int {
    let m = abs_i(a) / abs_i(b);
    if (a < 0) != (b < 0) {
        -m
    } else {
        m
    }
}

/// Magnitude of a mathematical integer.
pub open spec fn abs_i(a: int) -> int {
    if a < 0 {
        -a
    } else {
        a
    }
}

/// Raw result of fixed-point addition.
pub open spec fn fx_add(a: int, b: int) -> int {
    sat(a + b)
}

/// Raw result of fixed-point subtraction.
pub open spec fn fx_sub(a: int, b: int) -> int {
    sat(a - b)
}

/// Raw result of fixed-point negation.
pub open spec fn fx_neg(a: int) -> int {
    sat(-a)
}

/// Raw result of fixed-point multiplication: the raw product carries a
/// factor SCALE^2, so it is divided by SCALE once, truncating toward zero.
pub open spec fn fx_mul(a: int, b: int) -> int {
    sat(tdiv(a * b, SCALE as int))
}

/// Raw result of fixed-point division; division by zero yields zero.
pub open spec fn fx_div(a: int, b: int) -> int {
    if b == 0 {
        0
    } else {
        sat(tdiv(a * (SCALE as int), b))
    }
}

/// Raw result of dividing by a small positive integer count (no rescale).
pub open spec fn fx_divi(a: int, k: int) -> int {
    sat(tdiv(a, k))
}

/// Raw magnitude.
pub open spec fn fx_abs(a: int) -> int {
    sat(abs_i(a))
}

/// Sign as a fixed-point scalar: 1.0, -1.0 or 0.0.
pub open spec fn fx_sign(a: int) -> int {
    if a > 0 {
        SCALE as int
    } else if a < 0 {
        -(SCALE as int)
    } else {
        0
    }
}

/// The product of two integers is bounded by the product of their bounds.
proof fn lemma_prod_bound(a: int, b: int, ba: int, bb: int)
    requires
        -ba <= a <= ba,
        -bb <= b <= bb,
        0 <= ba,
        0 <= bb,
    ensures
        -(ba * bb) <= a * b <= ba * bb,
{
    assert(-(ba * bb) <= a * b <= ba * bb) by (nonlinear_arith)
        requires
            -ba <= a <= ba,
            -bb <= b <= bb,
            0 <= ba,
            0 <= bb,
    ;
}

/// Dividing a nonnegative integer by a positive one cannot increase it.
proof fn lemma_div_le(x: int, d: int)
    requires
        0 <= x,
        1 <= d,
    ensures
        0 <= x / d <= x,
{
    assert(0 <= x / d <= x) by (nonlinear_arith)
        requires
            0 <= x,
            1 <= d,
    ;
}

/// A saturating fixed-point scalar.
#[derive(Clone, Copy, Debug, PartialEq, Eq, Structural)]
pub struct Fx {
    pub raw: i64,
}

impl View for Fx {
    type V = int;

    open spec fn view(&self) -> int {
        self.raw as int
    }
}

/// Every scalar the library produces keeps its raw value in the symmetric
/// range, so negation can never overflow.
pub open spec fn fx_wf(a: Fx) -> bool {
    -(MAX_RAW as int) <= a@ <= MAX_RAW as int
}

impl Fx {
    /// The scalar 0.0.
    pub fn zero() -> (r: Fx)
        ensures
            r@ == 0,
            fx_wf(r),
    {
        Fx { raw: 0 }
    }

    /// The scalar 1.0.
    pub fn one() -> (r: Fx)
        ensures
            r@ == SCALE as int,
            fx_wf(r),
    {
        Fx { raw: SCALE }
    }

    /// Build a scalar from its raw representation, keeping it in range.
    pub fn from_raw(raw: i64) -> (r: Fx)
        ensures
            r@ == sat(raw as int),
            fx_wf(r),
    {
        if raw == i64::MIN {
            Fx { raw: -MAX_RAW }
        } else {
            Fx { raw }
        }
    }

    /// Build the scalar `units` (a whole number), saturating.
    pub fn from_int(units: i64) -> (r: Fx)
        ensures
            r@ == sat(units * (SCALE as int)),
            fx_wf(r),
    {
        proof {
            lemma_prod_bound(units as int, SCALE as int, 0x8000_0000_0000_0000, SCALE as int);
        }
        let wide: i128 = (units as i128) * (SCALE as i128);
        clamp_i128(wide)
    }

    pub fn add(self, o: Fx) -> (r: Fx)
        ensures
            r@ == fx_add(self@, o@),
            fx_wf(r),
    {
        let wide: i128 = (self.raw as i128) + (o.raw as i128);
        clamp_i128(wide)
    }

    pub fn sub(self, o: Fx) -> (r: Fx)
        ensures
            r@ == fx_sub(self@, o@),
            fx_wf(r),
    {
        let wide: i128 = (self.raw as i128) - (o.raw as i128);
        clamp_i128(wide)
    }

    pub fn neg(self) -> (r: Fx)
        ensures
            r@ == fx_neg(self@),
            fx_wf(r),
    {
        let wide: i128 = -(self.raw as i128);
        clamp_i128(wide)
    }

    pub fn mul(self, o: Fx) -> (r: Fx)
        ensures
            r@ == fx_mul(self@, o@),
            fx_wf(r),
    {
        proof {
            lemma_prod_bound(self@, o@, 0x8000_0000_0000_0000, 0x8000_0000_0000_0000);
        }
        let p: i128 = (self.raw as i128) * (o.raw as i128);
        let neg: bool = p < 0;
        let mag: u128 = if neg {
            (-p) as u128
        } else {
            p as u128
        };
        let q: u128 = mag / (SCALE as u128);
        proof {
            assert(q == abs_i(self@ * o@) / (SCALE as int));
            lemma_div_le(mag as int, SCALE as int);
        }
        from_mag(q, neg)
    }

    pub fn div(self, o: Fx) -> (r: Fx)
        ensures
            r@ == fx_div(self@, o@),
            fx_wf(r),
    {
        if o.raw == 0 {
            Fx { raw: 0 }
        } else {
            proof {
                lemma_prod_bound(self@, SCALE as int, 0x8000_0000_0000_0000, SCALE as int);
            }
            let p: i128 = (self.raw as i128) * (SCALE as i128);
            let neg: bool = (p < 0) != (o.raw < 0);
            let mag_p: u128 = if p < 0 {
                (-p) as u128
            } else {
                p as u128
            };
            let mag_b: u128 = if o.raw < 0 {
                (-(o.raw as i128)) as u128
            } else {
                o.raw as u128
            };
            let q: u128 = mag_p / mag_b;
            proof {
                assert(q == abs_i(self@ * (SCALE as int)) / abs_i(o@));
                lemma_div_le(mag_p as int, mag_b as int);
            }
            from_mag(q, neg)
        }
    }

    /// Divide by a small positive whole number (no rescale): used for the
    /// fixed fractions of the integrator and the series coefficients.
    pub fn divi(self, k: i64) -> (r: Fx)
        requires
            0 < k,
        ensures
            r@ == fx_divi(self@, k as int),
            fx_wf(r),
    {
        let neg: bool = self.raw < 0;
        let mag: u128 = if neg {
            (-(self.raw as i128)) as u128
        } else {
            self.raw as u128
        };
        let q: u128 = mag / (k as u128);
        proof {
            assert(q == abs_i(self@) / abs_i(k as int));
            lemma_div_le(mag as int, k as int);
            assert(tdiv(self@, k as int) == if neg { -(q as int) } else { q as int });
        }
        from_mag(q, neg)
    }

    pub fn abs(self) -> (r: Fx)
        ensures
            r@ == fx_abs(self@),
            fx_wf(r),
    {
        if self.raw < 0 {
            self.neg()
        } else {
            self
        }
    }

    pub fn min(self, o: Fx) -> (r: Fx)
        ensures
            r@ == if self@ <= o@ { self@ } else { o@ },
    {
        if self.raw <= o.raw {
            self
        } else {
            o
        }
    }

    pub fn max(self, o: Fx) -> (r: Fx)
        ensures
            r@ == if self@ >= o@ { self@ } else { o@ },
    {
        if self.raw >= o.raw {
            self
        } else {
            o
        }
    }

    /// Sign as a scalar: 1.0 for positive, -1.0 for negative, 0.0 for zero.
    pub fn sign(self) -> (r: Fx)
        ensures
            r@ == fx_sign(self@),
            fx_wf(r),
    {
        if self.raw > 0 {
            Fx { raw: SCALE }
        } else if self.raw < 0 {
            Fx { raw: -SCALE }
        } else {
            Fx { raw: 0 }
        }
    }

    pub fn is_neg(self) -> (r: bool)
        ensures
            r == (self@ < 0),
    {
        self.raw < 0
    }

    pub fn lt(self, o: Fx) -> (r: bool)
        ensures
            r == (self@ < o@),
    {
        self.raw < o.raw
    }
}

/// Negating one factor negates a fixed-point product exactly: truncation
/// toward zero and the symmetric saturation bound are both odd.
pub proof fn lemma_mul_neg(a: int, b: int)
    requires
        -(MAX_RAW as int) <= b <= MAX_RAW as int,
    ensures
        fx_mul(a, fx_neg(b)) == fx_neg(fx_mul(a, b)),
{
    assert(a * (-b) == -(a * b)) by (nonlinear_arith);
    assert(abs_i(-(a * b)) == abs_i(a * b));
    assert(tdiv(-(a * b), SCALE as int) == -tdiv(a * b, SCALE as int));
}

/// Raw result of the fixed-point floor square root: the unique nonnegative
/// integer whose square brackets `a * SCALE`; nonpositive inputs map to zero.
pub open spec fn fx_sqrt(a: int) -> int {
    if a <= 0 {
        0
    } else {
        choose|r: int|
            0 <= r && #[trigger] (r * r) <= a * (SCALE as int) && a * (SCALE as int) < (r + 1) * (
            r + 1)
    }
}

/// The floor square root is unique.
proof fn lemma_sqrt_unique(x: int, r1: int, r2: int)
    requires
        0 <= r1,
        r1 * r1 <= x < (r1 + 1) * (r1 + 1),
        0 <= r2,
        r2 * r2 <= x < (r2 + 1) * (r2 + 1),
    ensures
        r1 == r2,
{
    assert(r1 == r2) by (nonlinear_arith)
        requires
            0 <= r1,
            r1 * r1 <= x < (r1 + 1) * (r1 + 1),
            0 <= r2,
            r2 * r2 <= x < (r2 + 1) * (r2 + 1),
    ;
}

/// Raw value of pi/4.
pub const QUARTER_PI_RAW: i64 = 51472;

/// Raw value of pi/2.
pub const HALF_PI_RAW: i64 = 102944;

/// Raw value of pi.
pub const PI_RAW: i64 = 205887;

/// Raw value of 2*pi, the period used for angle reduction.
pub const TWO_PI_RAW: i64 = 411775;

/// Clamp a raw value into [-1.0, 1.0].
pub open spec fn clamp_one(x: int) -> int {
    if x > SCALE as int {
        SCALE as int
    } else if x < -(SCALE as int) {
        -(SCALE as int)
    } else {
        x
    }
}

/// Truncated series for cosine on [0, pi/4], in fixed-point steps.
pub open spec fn cos_poly_v(t: int) -> int {
    let t2 = fx_mul(t, t);
    let t4 = fx_mul(t2, t2);
    let t6 = fx_mul(t4, t2);
    fx_sub(fx_add(fx_sub(SCALE as int, fx_divi(t2, 2)), fx_divi(t4, 24)), fx_divi(t6, 720))
}

/// Truncated series for sine on [0, pi/4], in fixed-point steps.
pub open spec fn sin_poly_v(t: int) -> int {
    let t2 = fx_mul(t, t);
    let t3 = fx_mul(t2, t);
    let t5 = fx_mul(t3, t2);
    fx_add(fx_sub(t, fx_divi(t3, 6)), fx_divi(t5, 120))
}

/// Cosine and sine of a raw angle: reduce the magnitude by the period,
/// fold into [0, pi/4] with the usual symmetries, evaluate the series,
/// and clamp into [-1.0, 1.0]. Cosine is even and sine odd by construction.
pub open spec fn cos_sin_v(a: int) -> (int, int) {
    let mag = abs_i(a);
    let m = mag % (TWO_PI_RAW as int);
    let fold = if m > PI_RAW as int {
        ((TWO_PI_RAW as int - m), true)
    } else {
        (m, false)
    };
    let half = if fold.0 > HALF_PI_RAW as int {
        ((PI_RAW as int - fold.0), true)
    } else {
        (fold.0, false)
    };
    let quarter = if half.0 > QUARTER_PI_RAW as int {
        ((HALF_PI_RAW as int - half.0), true)
    } else {
        (half.0, false)
    };
    let cb = if quarter.1 {
        sin_poly_v(quarter.0)
    } else {
        cos_poly_v(quarter.0)
    };
    let sb = if quarter.1 {
        cos_poly_v(quarter.0)
    } else {
        sin_poly_v(quarter.0)
    };
    let c = if half.1 {
        fx_neg(cb)
    } else {
        cb
    };
    let s = if fold.1 != (a < 0) {
        fx_neg(sb)
    } else {
        sb
    };
    (clamp_one(c), clamp_one(s))
}

/// Floor integer square root by bisection.
fn isqrt_u128(x: u128) -> (r: u128)
    requires
        x < 0x1_0000_0000_0000_0000_0000,
    ensures
        r * r <= x,
        x < (r + 1) * (r + 1),
        r < 0x100_0000_0000,
{
    let mut lo: u128 = 0;
    let mut hi: u128 = 0x100_0000_0000;
    proof {
        assert((0x100_0000_0000 as int) * (0x100_0000_0000 as int)
            == 0x1_0000_0000_0000_0000_0000);
    }
    while lo + 1 < hi
        invariant
            lo < hi,
            hi <= 0x100_0000_0000,
            lo * lo <= x,
            x < hi * hi,
        decreases hi - lo,
    {
        let mid: u128 = lo + (hi - lo) / 2;
        proof {
            lemma_prod_bound(mid as int, mid as int, 0x100_0000_0000, 0x100_0000_0000);
        }
        if mid * mid <= x {
            lo = mid;
        } else {
            hi = mid;
        }
    }
    lo
}

impl Fx {
    /// Floor square root in fixed point: for a positive scalar `v`, the
    /// result `r` is the largest representable scalar with `r * r <= v`
    /// at raw precision; nonpositive inputs map to zero.
    pub fn sqrt(self) -> (r: Fx)
        ensures
            fx_wf(r),
            r@ == fx_sqrt(self@),
            self@ <= 0 ==> r@ == 0,
            self@ > 0 ==> 0 <= r@ && r@ * r@ <= self@ * (SCALE as int) < (r@ + 1) * (r@ + 1),
    {
        if self.raw <= 0 {
            Fx { raw: 0 }
        } else {
            proof {
                lemma_prod_bound(self@, SCALE as int, 0x8000_0000_0000_0000, SCALE as int);
            }
            let x: u128 = (self.raw as u128) * (SCALE as u128);
            let r: u128 = isqrt_u128(x);
            proof {
                let xv = self@ * (SCALE as int);
                assert(0 <= r as int && (r as int) * (r as int) <= xv
                    && xv < (r as int + 1) * (r as int + 1));
                let rc = fx_sqrt(self@);
                assert(0 <= rc && rc * rc <= xv && xv < (rc + 1) * (rc + 1)) by {
                    assert(exists|rv: int|
                        0 <= rv && #[trigger] (rv * rv) <= xv && xv < (rv + 1) * (rv + 1)) by {
                        assert(0 <= r as int && (r as int) * (r as int) <= xv
                            && xv < (r as int + 1) * (r as int + 1));
                    }
                }
                lemma_sqrt_unique(xv, r as int, rc);
            }
            Fx { raw: r as i64 }
        }
    }

    /// Cosine and sine of this scalar, read as an angle in radians.
    pub fn cos_sin(self) -> (r: (Fx, Fx))
        ensures
            fx_wf(r.0),
            fx_wf(r.1),
            r.0@ == cos_sin_v(self@).0,
            r.1@ == cos_sin_v(self@).1,
            -(SCALE as int) <= r.0@ <= SCALE as int,
            -(SCALE as int) <= r.1@ <= SCALE as int,
    {
        let neg_in: bool = self.raw < 0;
        let mag: u64 = if self.raw < 0 {
            ((-(self.raw as i128)) as u64)
        } else {
            self.raw as u64
        };
        let m: u64 = mag % (TWO_PI_RAW as u64);
        let sflip: bool = m > PI_RAW as u64;
        let m2: u64 = if sflip {
            (TWO_PI_RAW as u64) - m
        } else {
            m
        };
        let cneg: bool = m2 > HALF_PI_RAW as u64;
        let m3: u64 = if cneg {
            (PI_RAW as u64) - m2
        } else {
            m2
        };
        let use_co: bool = m3 > QUARTER_PI_RAW as u64;
        let m4: u64 = if use_co {
            (HALF_PI_RAW as u64) - m3
        } else {
            m3
        };
        let t = Fx { raw: m4 as i64 };
        let cp = cos_poly(t);
        let sp = sin_poly(t);
        let cb: Fx = if use_co {
            sp
        } else {
            cp
        };
        let sb: Fx = if use_co {
            cp
        } else {
            sp
        };
        let c0: Fx = if cneg {
            cb.neg()
        } else {
            cb
        };
        let s0: Fx = if sflip != neg_in {
            sb.neg()
        } else {
            sb
        };
        let c = clamp_one_exec(c0);
        let s = clamp_one_exec(s0);
        (c, s)
    }
}

fn cos_poly(t: Fx) -> (r: Fx)
    requires
        0 <= t@ <= QUARTER_PI_RAW as int,
    ensures
        fx_wf(r),
        r@ == cos_poly_v(t@),
{
    let t2 = t.mul(t);
    let t4 = t2.mul(t2);
    let t6 = t4.mul(t2);
    Fx::one().sub(t2.divi(2)).add(t4.divi(24)).sub(t6.divi(720))
}

fn sin_poly(t: Fx) -> (r: Fx)
    requires
        0 <= t@ <= QUARTER_PI_RAW as int,
    ensures
        fx_wf(r),
        r@ == sin_poly_v(t@),
{
    let t2 = t.mul(t);
    let t3 = t2.mul(t);
    let t5 = t3.mul(t2);
    t.sub(t3.divi(6)).add(t5.divi(120))
}

fn clamp_one_exec(x: Fx) -> (r: Fx)
    ensures
        r@ == clamp_one(x@),
        fx_wf(r),
        -(SCALE as int) <= r@ <= SCALE as int,
{
    if x.raw > SCALE {
        Fx { raw: SCALE }
    } else if x.raw < -SCALE {
        Fx { raw: -SCALE }
    } else {
        x
    }
}

/// Clamp a wide intermediate into the raw range: the exec twin of `sat`.
fn clamp_i128(wide: i128) -> (r: Fx)
    requires
        -0x4000_0000_0000_0000_0000_0000_0000_0000 <= wide
            < 0x4000_0000_0000_0000_0000_0000_0000_0000,
    ensures
        r@ == sat(wide as int),
        fx_wf(r),
{
    if wide > MAX_RAW as i128 {
        Fx { raw: MAX_RAW }
    } else if wide < -(MAX_RAW as i128) {
        Fx { raw: -MAX_RAW }
    } else {
        Fx { raw: wide as i64 }
    }
}

/// Rebuild a scalar from an unsigned magnitude and a sign, saturating.
fn from_mag(mag: u128, neg: bool) -> (r: Fx)
    ensures
        r@ == sat(if neg { -(mag as int) } else { mag as int }),
        fx_wf(r),
{
    if mag > MAX_RAW as u128 {
        if neg {
            Fx { raw: -MAX_RAW }
        } else {
            Fx { raw: MAX_RAW }
        }
    } else {
        if neg {
            Fx { raw: -(mag as i64) }
        } else {
            Fx { raw: mag as i64 }
        }
    }
}

} // verus!
