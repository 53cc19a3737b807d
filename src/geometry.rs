//! Axis-aligned rectangles in arena space: containment, overlap and linear
//! interpolation.

use vstd::arithmetic::div_mod::{lemma_div_is_ordered, lemma_div_multiples_vanish};
use vstd::arithmetic::mul::lemma_mul_inequality;
use vstd::prelude::*;

verus! {

/// A point in arena space (or, for a grab point, in panel-local space).
#[derive(Clone, Copy, Debug, PartialEq, Eq, Structural)]
pub struct PointData {
    pub x: i64,
    pub y: i64,
}

/// The extent of a rectangle; both dimensions are non-negative by type.
#[derive(Clone, Copy, Debug, PartialEq, Eq, Structural)]
pub struct SizeData {
    pub width: u64,
    pub height: u64,
}

/// An axis-aligned rectangle: its top-left corner and its size.
#[derive(Clone, Copy, Debug, PartialEq, Eq, Structural)]
pub struct RectData {
    pub origin: PointData,
    pub size: SizeData,
}

/// `v` clamped into the range of `i64`.
pub open spec fn clamp_i64(v: int) -> i64 {
    if v < i64::MIN {
        i64::MIN
    } else if v > i64::MAX {
        i64::MAX
    } else {
        v as i64
    }
}

/// Linear interpolation from `a` towards `b` by the fraction `num / den`,
/// rounded towards `a`.
pub open spec fn lerp(a: int, b: int, num: int, den: int) -> int {
    if a <= b {
        a + (b - a) * num / den
    } else {
        a - (a - b) * num / den
    }
}

/// `k * num / den` lies between 0 and `k` when `num <= den`.
pub proof fn lemma_scaled_bounded(k: int, num: int, den: int)
    requires
        0 <= k,
        0 <= num <= den,
        0 < den,
    ensures
        0 <= k * num / den <= k,
{
    assert(0 <= k * num) by (nonlinear_arith)
        requires
            0 <= k,
            0 <= num,
    ;
    lemma_mul_inequality(num, den, k);
    lemma_div_is_ordered(0, k * num, den);
    lemma_div_is_ordered(k * num, den * k, den);
    lemma_div_multiples_vanish(k, den);
    assert(den * k == k * den) by (nonlinear_arith);
}

/// `k * num / den` grows with `num`.
pub proof fn lemma_scaled_monotone(k: int, n1: int, n2: int, den: int)
    requires
        0 <= k,
        0 <= n1 <= n2,
        0 < den,
    ensures
        k * n1 / den <= k * n2 / den,
{
    lemma_mul_inequality(n1, n2, k);
    assert(n1 * k == k * n1 && n2 * k == k * n2) by (nonlinear_arith);
    lemma_div_is_ordered(k * n1, k * n2, den);
}

/// Interpolation stays between its end points, and reaches `b` at `num == den`.
pub proof fn lemma_lerp_bounds(a: int, b: int, num: int, den: int)
    requires
        0 <= num <= den,
        0 < den,
    ensures
        a <= b ==> a <= lerp(a, b, num, den) <= b,
        b < a ==> b <= lerp(a, b, num, den) <= a,
        num == den ==> lerp(a, b, num, den) == b,
{
    if a <= b {
        lemma_scaled_bounded(b - a, num, den);
    } else {
        lemma_scaled_bounded(a - b, num, den);
    }
    if num == den {
        if a <= b {
            lemma_div_multiples_vanish(b - a, den);
            assert((b - a) * den == den * (b - a)) by (nonlinear_arith);
        } else {
            lemma_div_multiples_vanish(a - b, den);
            assert((a - b) * den == den * (a - b)) by (nonlinear_arith);
        }
    }
}

/// A later fraction is never farther from `b` than an earlier one.
pub proof fn lemma_lerp_monotone(a: int, b: int, n1: int, n2: int, den: int)
    requires
        0 <= n1 <= n2 <= den,
        0 < den,
    ensures
        a <= b ==> lerp(a, b, n1, den) <= lerp(a, b, n2, den) <= b,
        b < a ==> b <= lerp(a, b, n2, den) <= lerp(a, b, n1, den),
{
    lemma_lerp_bounds(a, b, n2, den);
    if a <= b {
        lemma_scaled_monotone(b - a, n1, n2, den);
    } else {
        lemma_scaled_monotone(a - b, n1, n2, den);
    }
}

fn lerp_i64(a: i64, b: i64, num: u64, den: u64) -> (r: i64)
    requires
        0 < den,
        num <= den,
    ensures
        r == lerp(a as int, b as int, num as int, den as int),
{
    proof {
        lemma_lerp_bounds(a as int, b as int, num as int, den as int);
    }
    if a <= b {
        let diff: u128 = (b as i128 - a as i128) as u128;
        proof {
            assert(diff * (num as u128) <= u128::MAX) by (nonlinear_arith)
                requires
                    diff < 0x1_0000_0000_0000_0000,
                    num < 0x1_0000_0000_0000_0000,
            ;
        }
        let step: u128 = diff * (num as u128) / (den as u128);
        (a as i128 + step as i128) as i64
    } else {
        let diff: u128 = (a as i128 - b as i128) as u128;
        proof {
            assert(diff * (num as u128) <= u128::MAX) by (nonlinear_arith)
                requires
                    diff < 0x1_0000_0000_0000_0000,
                    num < 0x1_0000_0000_0000_0000,
            ;
        }
        let step: u128 = diff * (num as u128) / (den as u128);
        (a as i128 - step as i128) as i64
    }
}

fn lerp_u64(a: u64, b: u64, num: u64, den: u64) -> (r: u64)
    requires
        0 < den,
        num <= den,
    ensures
        r == lerp(a as int, b as int, num as int, den as int),
{
    proof {
        lemma_lerp_bounds(a as int, b as int, num as int, den as int);
    }
    if a <= b {
        let diff: u128 = (b - a) as u128;
        proof {
            assert(diff * (num as u128) <= u128::MAX) by (nonlinear_arith)
                requires
                    diff < 0x1_0000_0000_0000_0000,
                    num < 0x1_0000_0000_0000_0000,
            ;
        }
        let step: u128 = diff * (num as u128) / (den as u128);
        a + step as u64
    } else {
        let diff: u128 = (a - b) as u128;
        proof {
            assert(diff * (num as u128) <= u128::MAX) by (nonlinear_arith)
                requires
                    diff < 0x1_0000_0000_0000_0000,
                    num < 0x1_0000_0000_0000_0000,
            ;
        }
        let step: u128 = diff * (num as u128) / (den as u128);
        a - step as u64
    }
}

fn clamp_to_i64(v: i128) -> (r: i64)
    ensures
        r == clamp_i64(v as int),
{
    if v < i64::MIN as i128 {
        i64::MIN
    } else if v > i64::MAX as i128 {
        i64::MAX
    } else {
        v as i64
    }
}

impl RectData {
    /// Right edge, exclusive.
    pub open spec fn max_x(self) -> int {
        self.origin.x + self.size.width
    }

    /// Bottom edge, exclusive.
    pub open spec fn max_y(self) -> int {
        self.origin.y + self.size.height
    }

    /// Half-open containment: the top and left edges are inside, the bottom
    /// and right edges are not.
    pub open spec fn spec_contains(self, p: PointData) -> bool {
        &&& self.origin.x <= p.x < self.max_x()
        &&& self.origin.y <= p.y < self.max_y()
    }

    /// Closed containment: all four edges are inside.
    pub open spec fn spec_within_bounds(self, p: PointData) -> bool {
        &&& self.origin.x <= p.x <= self.max_x()
        &&& self.origin.y <= p.y <= self.max_y()
    }

    /// The two rectangles share an area of positive size.
    pub open spec fn spec_intersects(self, other: RectData) -> bool {
        &&& self.origin.x < other.max_x()
        &&& other.origin.x < self.max_x()
        &&& self.origin.y < other.max_y()
        &&& other.origin.y < self.max_y()
    }

    /// The rectangle reached from `from` towards `to` at fraction `num / den`,
    /// each coordinate and each dimension interpolated on its own.
    pub open spec fn spec_interpolate(from: RectData, to: RectData, num: int, den: int) -> RectData {
        RectData {
            origin: PointData {
                x: lerp(from.origin.x as int, to.origin.x as int, num, den) as i64,
                y: lerp(from.origin.y as int, to.origin.y as int, num, den) as i64,
            },
            size: SizeData {
                width: lerp(from.size.width as int, to.size.width as int, num, den) as u64,
                height: lerp(from.size.height as int, to.size.height as int, num, den) as u64,
            },
        }
    }

    pub fn new(x: i64, y: i64, width: u64, height: u64) -> (r: RectData)
        ensures
            r.origin.x == x,
            r.origin.y == y,
            r.size.width == width,
            r.size.height == height,
    {
        RectData { origin: PointData { x, y }, size: SizeData { width, height } }
    }

    /// `a - b` per coordinate, saturating at the bounds of `i64`.
    pub open spec fn spec_point_subtract(a: PointData, b: PointData) -> PointData {
        PointData { x: clamp_i64(a.x - b.x), y: clamp_i64(a.y - b.y) }
    }

    /// `point_a - point_b` per coordinate, saturating at the bounds of `i64`.
    pub fn point_subtract(point_a: PointData, point_b: PointData) -> (r: PointData)
        ensures
            r == RectData::spec_point_subtract(point_a, point_b),
    {
        PointData {
            x: clamp_to_i64(point_a.x as i128 - point_b.x as i128),
            y: clamp_to_i64(point_a.y as i128 - point_b.y as i128),
        }
    }

    /// Whether `p` lies in the rectangle, bottom and right edges excluded.
    pub fn contains(&self, p: PointData) -> (r: bool)
        ensures
            r == self.spec_contains(p),
    {
        let max_x: i128 = self.origin.x as i128 + self.size.width as i128;
        let max_y: i128 = self.origin.y as i128 + self.size.height as i128;
        self.origin.x <= p.x && (p.x as i128) < max_x && self.origin.y <= p.y && (p.y as i128)
            < max_y
    }

    /// Whether `point` lies in the rectangle, all edges included.
    pub fn get_is_within_bounds(&self, point: PointData) -> (r: bool)
        ensures
            r == self.spec_within_bounds(point),
    {
        let max_x: i128 = self.origin.x as i128 + self.size.width as i128;
        let max_y: i128 = self.origin.y as i128 + self.size.height as i128;
        self.origin.x <= point.x && (point.x as i128) <= max_x && self.origin.y <= point.y && (
        point.y as i128) <= max_y
    }

    /// Whether the origin of `other` lies in this rectangle, edges included.
    pub fn is_overlapping(&self, other: RectData) -> (r: bool)
        ensures
            r == self.spec_within_bounds(other.origin),
    {
        self.get_is_within_bounds(other.origin)
    }

    /// Whether the two rectangles share an area of positive size.
    pub fn intersects(&self, other: &RectData) -> (r: bool)
        ensures
            r == self.spec_intersects(*other),
    {
        let self_max_x: i128 = self.origin.x as i128 + self.size.width as i128;
        let self_max_y: i128 = self.origin.y as i128 + self.size.height as i128;
        let other_max_x: i128 = other.origin.x as i128 + other.size.width as i128;
        let other_max_y: i128 = other.origin.y as i128 + other.size.height as i128;
        (self.origin.x as i128) < other_max_x && (other.origin.x as i128) < self_max_x && (
        self.origin.y as i128) < other_max_y && (other.origin.y as i128) < self_max_y
    }

    /// The rectangle `num / den` of the way from `from` to `self`.
    pub fn percent_transition(&self, from: RectData, num: u64, den: u64) -> (r: RectData)
        requires
            0 < den,
            num <= den,
        ensures
            r == RectData::spec_interpolate(from, *self, num as int, den as int),
    {
        RectData {
            origin: PointData {
                x: lerp_i64(from.origin.x, self.origin.x, num, den),
                y: lerp_i64(from.origin.y, self.origin.y, num, den),
            },
            size: SizeData {
                width: lerp_u64(from.size.width, self.size.width, num, den),
                height: lerp_u64(from.size.height, self.size.height, num, den),
            },
        }
    }
}

} // verus!
