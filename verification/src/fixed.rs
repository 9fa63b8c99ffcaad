//! Saturating fixed-point scalars and two-dimensional vectors.
//!
//! A scalar is an `i64` that stands for the quantity `value / SCALE`.
//! Sums saturate at the ends of the `i64` range, which therefore act as
//! "no limit" values in configuration. Quotients round toward zero.

use vstd::prelude::*;

verus! {

/// The fixed-point representation of the quantity one.
pub const SCALE: i64 = 1_000_000;

/// `x` limited to the range of `i64`.
pub open spec fn saturate(x: int) -> i64 {
    if x < i64::MIN {
        i64::MIN
    } else if x > i64::MAX {
        i64::MAX
    } else {
        x as i64
    }
}

/// The quotient of `a` by a positive `b`, rounded toward zero.
pub open spec fn quotient(a: int, b: int) -> int
    recommends
        b > 0,
{
    if a >= 0 {
        a / b
    } else {
        -((-a) / b)
    }
}

/// The fixed-point product of two scalars, before saturation.
pub open spec fn scaled_product(a: int, b: int) -> int {
    quotient(a * b, SCALE as int)
}

/// `x` limited to `[lower, upper]`.
pub open spec fn clamp_between(x: int, lower: int, upper: int) -> int {
    if x < lower {
        lower
    } else if x > upper {
        upper
    } else {
        x
    }
}

/// Narrows a wide intermediate value to a scalar.
pub fn saturated(x: i128) -> (r: i64)
    ensures
        r == saturate(x as int),
{
    if x < i64::MIN as i128 {
        i64::MIN
    } else if x > i64::MAX as i128 {
        i64::MAX
    } else {
        x as i64
    }
}

/// Saturating sum of two scalars.
pub fn plus(a: i64, b: i64) -> (r: i64)
    ensures
        r == saturate(a + b),
{
    saturated(a as i128 + b as i128)
}

/// Saturating difference of two scalars.
pub fn minus(a: i64, b: i64) -> (r: i64)
    ensures
        r == saturate(a - b),
{
    saturated(a as i128 - b as i128)
}

/// A bound on the magnitude of any `scaled_product` of two scalars.
pub const PRODUCT_LIMIT: i128 = 0x800_0000_0000_0000_0000_0000_0000;

/// The exact fixed-point product of two scalars, as a wide value.
pub fn product(a: i64, b: i64) -> (r: i128)
    ensures
        r == scaled_product(a as int, b as int),
        -PRODUCT_LIMIT <= r <= PRODUCT_LIMIT,
{
    assert(-0x4000_0000_0000_0000_0000_0000_0000_0000 <= a * b
        <= 0x4000_0000_0000_0000_0000_0000_0000_0000) by (nonlinear_arith)
        requires
            -0x8000_0000_0000_0000 <= a <= 0x7fff_ffff_ffff_ffff,
            -0x8000_0000_0000_0000 <= b <= 0x7fff_ffff_ffff_ffff,
    ;
    let p: i128 = (a as i128) * (b as i128);
    if p >= 0 {
        p / (SCALE as i128)
    } else {
        -((-p) / (SCALE as i128))
    }
}

/// Saturating fixed-point product of two scalars.
pub fn times(a: i64, b: i64) -> (r: i64)
    ensures
        r == saturate(scaled_product(a as int, b as int)),
{
    saturated(product(a, b))
}

/// Half of `x` with its sign reversed, rounded toward zero.
pub open spec fn bounce(x: int) -> int {
    -quotient(x, 2)
}

/// The response of one velocity component to a blocked move.
pub fn bounced(x: i64) -> (r: i64)
    ensures
        r == bounce(x as int),
{
    if x >= 0 {
        -(x / 2)
    } else {
        let m: i128 = -(x as i128);
        (m / 2) as i64
    }
}

/// `vek::ops::Clamp::clamped` on `i64`: the argument limited to
/// `[lower, upper]`. The outside function panics when `lower > upper`.
#[verifier::external_body]
fn vek_clamped(x: i64, lower: i64, upper: i64) -> (r: i64)
    requires
        lower <= upper,
    ensures
        r == clamp_between(x as int, lower as int, upper as int),
{
    vek::ops::Clamp::clamped(x, lower, upper)
}

/// `x` limited to `[lower, upper]`.
pub fn clamped(x: i64, lower: i64, upper: i64) -> (r: i64)
    requires
        lower <= upper,
    ensures
        r == clamp_between(x as int, lower as int, upper as int),
{
    vek_clamped(x, lower, upper)
}

/// `x` limited to `[-limit, limit]`; a negative `limit` counts as zero.
pub open spec fn limit_magnitude(x: int, limit: int) -> int {
    if limit < 0 {
        0
    } else {
        clamp_between(x, -limit, limit)
    }
}

/// `x` limited to `[-limit, limit]`. With `limit == i64::MAX` nothing is
/// cut off but `i64::MIN`.
pub fn limited(x: i64, limit: i64) -> (r: i64)
    ensures
        r == limit_magnitude(x as int, limit as int),
{
    if limit < 0 {
        0
    } else {
        clamped(x, -limit, limit)
    }
}

/// Whether `r` is the whole part of the square root of `n`.
pub open spec fn is_root(n: int, r: int) -> bool {
    r >= 0 && r * r <= n < (r + 1) * (r + 1)
}

/// The whole part of the square root of `n`.
pub open spec fn root(n: int) -> int {
    choose|r: int| is_root(n, r)
}

/// A number has one whole root at most.
pub proof fn lemma_root_unique(n: int, a: int, b: int)
    requires
        is_root(n, a),
        is_root(n, b),
    ensures
        a == b,
{
    if a < b {
        assert((a + 1) * (a + 1) <= b * b) by (nonlinear_arith)
            requires
                0 <= a + 1 <= b,
        ;
    }
    if b < a {
        assert((b + 1) * (b + 1) <= a * a) by (nonlinear_arith)
            requires
                0 <= b + 1 <= a,
        ;
    }
}

/// The whole part of the square root of `n`.
pub fn integer_root(n: u128) -> (r: u64)
    ensures
        is_root(n as int, r as int),
        r == root(n as int),
{
    let mut lo: u128 = 0;
    let mut hi: u128 = 0x1_0000_0000_0000_0000;
    assert(hi * hi > n) by (nonlinear_arith)
        requires
            hi == 0x1_0000_0000_0000_0000,
            n <= 0xffff_ffff_ffff_ffff_ffff_ffff_ffff_ffff,
    ;
    while hi - lo > 1
        invariant
            lo < hi <= 0x1_0000_0000_0000_0000,
            lo * lo <= n,
            n < hi * hi,
        decreases hi - lo,
    {
        let mid: u128 = lo + (hi - lo) / 2;
        assert(mid * mid <= 0xffff_ffff_ffff_ffff_ffff_ffff_ffff_ffff) by (nonlinear_arith)
            requires
                0 <= mid <= 0xffff_ffff_ffff_ffff,
        ;
        if mid * mid <= n {
            lo = mid;
        } else {
            hi = mid;
        }
    }
    proof {
        assert(is_root(n as int, lo as int));
        lemma_root_unique(n as int, lo as int, root(n as int));
    }
    lo as u64
}

/// `x` moved toward zero by `amount`, but not beyond.
pub open spec fn slowed(x: i64, amount: i64) -> i64 {
    if x >= 0 {
        if saturate(x - amount) < 0 {
            0
        } else {
            saturate(x - amount)
        }
    } else {
        if saturate(x + amount) > 0 {
            0
        } else {
            saturate(x + amount)
        }
    }
}

/// `x` moved toward zero by `amount`, but not beyond: friction that is
/// the same at every speed.
pub fn slow_down(x: i64, amount: i64) -> (r: i64)
    ensures
        r == slowed(x, amount),
{
    if x >= 0 {
        let y = minus(x, amount);
        if y < 0 {
            0
        } else {
            y
        }
    } else {
        let y = plus(x, amount);
        if y > 0 {
            0
        } else {
            y
        }
    }
}

/// `x` in the direction of `axis`: `x` itself for a positive axis, its
/// opposite for a negative one, zero for none.
pub open spec fn toward(axis: int, x: int) -> int {
    if axis > 0 {
        x
    } else if axis < 0 {
        -x
    } else {
        0
    }
}

/// `x` in the direction of `axis`.
pub fn directed(axis: i64, x: i64) -> (r: i64)
    ensures
        r == saturate(toward(axis as int, x as int)),
{
    if axis > 0 {
        x
    } else if axis < 0 {
        minus(0, x)
    } else {
        0
    }
}

/// `x` times `SCALE`, divided by a positive `m`.
pub fn ratio(x: i64, m: u64) -> (r: i64)
    requires
        m > 0,
    ensures
        r == saturate(quotient(x * SCALE, m as int)),
{
    assert(-0x8000_0000_0000_0000 * 1_000_000 <= x * SCALE <= 0x8000_0000_0000_0000
        * 1_000_000) by (nonlinear_arith)
        requires
            -0x8000_0000_0000_0000 <= x <= 0x7fff_ffff_ffff_ffff,
            SCALE == 1_000_000,
    ;
    let p: i128 = (x as i128) * (SCALE as i128);
    if p >= 0 {
        saturated(p / (m as i128))
    } else {
        saturated(-((-p) / (m as i128)))
    }
}

/// A point or a displacement of the plane.
#[derive(Clone, Copy, Debug, PartialEq, Eq, Structural)]
pub struct Vec2 {
    pub x: i64,
    pub y: i64,
}

/// A rotation of the plane, given by the cosine and sine of its angle as
/// fixed-point scalars.
#[derive(Clone, Copy, Debug, PartialEq, Eq, Structural)]
pub struct Rotation {
    pub cos: i64,
    pub sin: i64,
}

impl Rotation {
    /// The rotation by no angle.
    pub open spec fn spec_identity() -> Rotation {
        Rotation { cos: SCALE, sin: 0 }
    }

    /// The rotation by no angle.
    pub fn identity() -> (r: Rotation)
        ensures
            r == Self::spec_identity(),
    {
        Rotation { cos: SCALE, sin: 0 }
    }
}

impl Vec2 {
    pub open spec fn spec_new(x: i64, y: i64) -> Vec2 {
        Vec2 { x, y }
    }

    pub fn new(x: i64, y: i64) -> (v: Vec2)
        ensures
            v == Self::spec_new(x, y),
    {
        Vec2 { x, y }
    }

    pub open spec fn spec_zero() -> Vec2 {
        Vec2 { x: 0, y: 0 }
    }

    pub fn zero() -> (v: Vec2)
        ensures
            v == Self::spec_zero(),
    {
        Vec2 { x: 0, y: 0 }
    }

    /// The componentwise saturating sum.
    pub open spec fn spec_plus(self, other: Vec2) -> Vec2 {
        Vec2 { x: saturate(self.x + other.x), y: saturate(self.y + other.y) }
    }

    pub fn plus(self, other: Vec2) -> (v: Vec2)
        ensures
            v == self.spec_plus(other),
    {
        Vec2 { x: self::plus(self.x, other.x), y: self::plus(self.y, other.y) }
    }

    /// The componentwise saturating difference.
    pub open spec fn spec_minus(self, other: Vec2) -> Vec2 {
        Vec2 { x: saturate(self.x - other.x), y: saturate(self.y - other.y) }
    }

    pub fn minus(self, other: Vec2) -> (v: Vec2)
        ensures
            v == self.spec_minus(other),
    {
        Vec2 { x: self::minus(self.x, other.x), y: self::minus(self.y, other.y) }
    }

    /// This vector times the scalar `k`.
    pub open spec fn spec_scaled(self, k: i64) -> Vec2 {
        Vec2 {
            x: saturate(scaled_product(self.x as int, k as int)),
            y: saturate(scaled_product(self.y as int, k as int)),
        }
    }

    pub fn scaled(self, k: i64) -> (v: Vec2)
        ensures
            v == self.spec_scaled(k),
    {
        Vec2 { x: times(self.x, k), y: times(self.y, k) }
    }

    /// This vector turned by `r`: each of the four products is rounded
    /// toward zero on its own, and the two sums saturate.
    pub open spec fn spec_rotated(self, r: Rotation) -> Vec2 {
        Vec2 {
            x: saturate(
                scaled_product(self.x as int, r.cos as int) - scaled_product(
                    self.y as int,
                    r.sin as int,
                ),
            ),
            y: saturate(
                scaled_product(self.x as int, r.sin as int) + scaled_product(
                    self.y as int,
                    r.cos as int,
                ),
            ),
        }
    }

    pub fn rotated(self, r: Rotation) -> (v: Vec2)
        ensures
            v == self.spec_rotated(r),
    {
        let xc: i128 = product(self.x, r.cos);
        let ys: i128 = product(self.y, r.sin);
        let xs: i128 = product(self.x, r.sin);
        let yc: i128 = product(self.y, r.cos);
        Vec2 { x: saturated(xc - ys), y: saturated(xs + yc) }
    }

    /// Both components bounced.
    pub open spec fn spec_bounced(self) -> Vec2 {
        Vec2 { x: bounce(self.x as int) as i64, y: bounce(self.y as int) as i64 }
    }

    pub fn bounced(self) -> (v: Vec2)
        ensures
            v == self.spec_bounced(),
    {
        Vec2 { x: self::bounced(self.x), y: self::bounced(self.y) }
    }

    /// The square of this vector's length.
    pub open spec fn spec_magnitude_squared(self) -> int {
        self.x * self.x + self.y * self.y
    }

    pub fn magnitude_squared(self) -> (r: u128)
        ensures
            r == self.spec_magnitude_squared(),
    {
        assert(0 <= self.x * self.x <= 0x4000_0000_0000_0000_0000_0000_0000_0000 && 0 <= self.y
            * self.y <= 0x4000_0000_0000_0000_0000_0000_0000_0000) by (nonlinear_arith)
            requires
                -0x8000_0000_0000_0000 <= self.x <= 0x7fff_ffff_ffff_ffff,
                -0x8000_0000_0000_0000 <= self.y <= 0x7fff_ffff_ffff_ffff,
        ;
        let x: i128 = self.x as i128;
        let y: i128 = self.y as i128;
        let x2: u128 = (x * x) as u128;
        let y2: u128 = (y * y) as u128;
        x2 + y2
    }

    /// This vector's length, rounded down.
    pub open spec fn spec_magnitude(self) -> int {
        root(self.spec_magnitude_squared())
    }

    pub fn magnitude(self) -> (r: u64)
        ensures
            r == self.spec_magnitude(),
    {
        integer_root(self.magnitude_squared())
    }

    /// The vector of length one in this vector's direction: each
    /// component times `SCALE`, divided by the length. A vector whose
    /// length rounds down to zero gives the zero vector.
    pub open spec fn spec_normalized(self) -> Vec2 {
        if self.spec_magnitude() == 0 {
            Vec2 { x: 0, y: 0 }
        } else {
            Vec2 {
                x: saturate(quotient(self.x * SCALE, self.spec_magnitude())),
                y: saturate(quotient(self.y * SCALE, self.spec_magnitude())),
            }
        }
    }

    pub fn normalized(self) -> (v: Vec2)
        ensures
            v == self.spec_normalized(),
    {
        let m = self.magnitude();
        if m == 0 {
            return Vec2 { x: 0, y: 0 };
        }
        Vec2 { x: ratio(self.x, m), y: ratio(self.y, m) }
    }

    /// Whether `other` lies within `radius` of this point, border included.
    /// A negative radius holds no point.
    pub open spec fn spec_within(self, other: Vec2, radius: i64) -> bool {
        radius >= 0 && (self.x - other.x) * (self.x - other.x) + (self.y - other.y) * (self.y
            - other.y) <= radius * radius
    }

    pub fn within(self, other: Vec2, radius: i64) -> (b: bool)
        ensures
            b == self.spec_within(other, radius),
    {
        if radius < 0 {
            return false;
        }
        let r: i128 = radius as i128;
        let dx: i128 = self.x as i128 - other.x as i128;
        let dy: i128 = self.y as i128 - other.y as i128;
        if dx > r || dx < -r || dy > r || dy < -r {
            assert(dx * dx > r * r || dy * dy > r * r) by (nonlinear_arith)
                requires
                    r >= 0,
                    dx > r || dx < -r || dy > r || dy < -r,
            ;
            assert(dx * dx >= 0 && dy * dy >= 0) by (nonlinear_arith);
            return false;
        }
        assert(0 <= dx * dx <= r * r && 0 <= dy * dy <= r * r && r * r
            <= 0x4000_0000_0000_0000_0000_0000_0000_0000) by (nonlinear_arith)
            requires
                0 <= r <= 0x7fff_ffff_ffff_ffff,
                -r <= dx <= r,
                -r <= dy <= r,
        ;
        let dx2: u128 = (dx * dx) as u128;
        let dy2: u128 = (dy * dy) as u128;
        let r2: u128 = (r * r) as u128;
        dx2 + dy2 <= r2
    }
}

} // verus!
