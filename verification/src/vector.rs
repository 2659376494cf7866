//! Three-dimensional integer vectors: sums, dot products, projection onto a
//! basis, the split into a parallel and a perpendicular part, and unit
//! directions of a fixed length.
//!
//! A projection is a vector of fractions. It is handed out exactly, as a
//! [`Ratio`]: a vector of numerators over one denominator, the squared
//! length of the basis. A unit direction is rounded, each component away
//! from zero, so that it is never shorter than `UNIT`.

use vstd::prelude::*;
use crate::arith::lemma_product_bound;
use crate::fixed::{abs, divide_up, floor_sqrt, isqrt, quot_up, shrunk};
use crate::vector_laws::{
    law_decompose, law_rejected_is_perpendicular, law_unit_components, law_unit_length,
    lemma_dot_bound, lemma_norm_sq_positive, lemma_scaled_within,
};

verus! {

/// Length of a unit direction: a direction is a vector whose components are
/// in units of one part in `UNIT`.
pub const UNIT: i64 = 4096;

/// Largest coordinate, in absolute value, that sums, dot products and squared
/// lengths accept.
pub const SUM_LIMIT: i64 = 0x2000_0000_0000_0000;

/// Largest coordinate, in absolute value, that projection accepts.
pub const PROJECT_LIMIT: i64 = 0x10_0000;

/// Largest coordinate, in absolute value, that normalisation accepts.
pub const NORMALIZE_LIMIT: i64 = 0x8_0000_0000_0000;

/// A vector of three mathematical integers: what a [`Vec3`] stands for.
pub struct Vector {
    pub x: int,
    pub y: int,
    pub z: int,
}

impl Vector {
    /// Componentwise sum.
    pub open spec fn plus(self, other: Vector) -> Vector {
        Vector { x: self.x + other.x, y: self.y + other.y, z: self.z + other.z }
    }

    /// Componentwise difference.
    pub open spec fn minus(self, other: Vector) -> Vector {
        Vector { x: self.x - other.x, y: self.y - other.y, z: self.z - other.z }
    }

    /// Every component multiplied by `k`.
    pub open spec fn scaled(self, k: int) -> Vector {
        Vector { x: k * self.x, y: k * self.y, z: k * self.z }
    }

    /// Every component divided by `d`, rounded away from zero.
    pub open spec fn divided_up(self, d: int) -> Vector {
        Vector { x: quot_up(self.x, d), y: quot_up(self.y, d), z: quot_up(self.z, d) }
    }

    /// Every component moved one step toward zero.
    pub open spec fn shrunk(self) -> Vector {
        Vector { x: shrunk(self.x), y: shrunk(self.y), z: shrunk(self.z) }
    }

    /// Dot product.
    pub open spec fn dot(self, other: Vector) -> int {
        self.x * other.x + self.y * other.y + self.z * other.z
    }

    /// Squared Euclidean length.
    pub open spec fn norm_sq(self) -> int {
        self.dot(self)
    }

    /// Sum of the absolute values of the components.
    pub open spec fn norm_one(self) -> int {
        abs(self.x) + abs(self.y) + abs(self.z)
    }

    /// All three components are zero.
    pub open spec fn is_zero(self) -> bool {
        self.x == 0 && self.y == 0 && self.z == 0
    }

    /// No component exceeds `limit` in absolute value.
    pub open spec fn within(self, limit: int) -> bool {
        &&& -limit <= self.x <= limit
        &&& -limit <= self.y <= limit
        &&& -limit <= self.z <= limit
    }

    /// The part of `self` along `onto`, multiplied by the squared length of
    /// `onto`: the dot product of the two, times `onto`.
    pub open spec fn projected(self, onto: Vector) -> Vector {
        onto.scaled(onto.dot(self))
    }

    /// The part of `self` across `basis`, multiplied by the squared length
    /// of `basis`: `self` times that squared length, less the part along
    /// `basis`.
    pub open spec fn rejected(self, basis: Vector) -> Vector {
        self.scaled(basis.norm_sq()).minus(basis.scaled(basis.dot(self)))
    }

    /// The direction of `self` as a vector of length `UNIT`: each component
    /// times `UNIT` over the length of `self`, where the length times `UNIT`
    /// is rounded down and the quotient is rounded away from zero.
    pub open spec fn unit(self) -> Vector
        recommends
            !self.is_zero(),
    {
        self.scaled(UNIT * UNIT).divided_up(floor_sqrt(self.norm_sq() * (UNIT * UNIT)))
    }
}

/// A vector of three machine integers.
#[derive(Clone, Copy, Debug, PartialEq, Eq, Structural)]
pub struct Vec3 {
    pub x: i64,
    pub y: i64,
    pub z: i64,
}

impl View for Vec3 {
    type V = Vector;

    open spec fn view(&self) -> Vector {
        Vector { x: self.x as int, y: self.y as int, z: self.z as int }
    }
}

/// A vector of fractions with one denominator: each component of the
/// numerator over the denominator.
#[derive(Clone, Copy, Debug, PartialEq, Eq, Structural)]
pub struct Ratio {
    pub numerator: Vec3,
    pub denominator: i64,
}

/// What an optional vector stands for.
pub open spec fn view_of(v: Option<Vec3>) -> Option<Vector> {
    match v {
        Some(p) => Some(p@),
        None => None,
    }
}

impl Vec3 {
    /// The vector with the given components.
    pub fn new(x: i64, y: i64, z: i64) -> (r: Vec3)
        ensures
            r.x == x,
            r.y == y,
            r.z == z,
    {
        Vec3 { x, y, z }
    }

    /// Componentwise sum.
    pub fn plus(&self, other: &Vec3) -> (r: Vec3)
        requires
            self@.within(SUM_LIMIT as int),
            other@.within(SUM_LIMIT as int),
        ensures
            r@ == self@.plus(other@),
    {
        Vec3 { x: self.x + other.x, y: self.y + other.y, z: self.z + other.z }
    }

    /// Componentwise difference.
    pub fn minus(&self, other: &Vec3) -> (r: Vec3)
        requires
            self@.within(SUM_LIMIT as int),
            other@.within(SUM_LIMIT as int),
        ensures
            r@ == self@.minus(other@),
    {
        Vec3 { x: self.x - other.x, y: self.y - other.y, z: self.z - other.z }
    }

    /// Every component multiplied by `k`.
    pub fn scaled(&self, k: i64) -> (r: Vec3)
        requires
            self@.scaled(k as int).within(SUM_LIMIT as int),
        ensures
            r@ == self@.scaled(k as int),
    {
        let x: i128 = (k as i128) * (self.x as i128);
        let y: i128 = (k as i128) * (self.y as i128);
        let z: i128 = (k as i128) * (self.z as i128);
        Vec3 { x: x as i64, y: y as i64, z: z as i64 }
    }

    /// Every component divided by `d`, rounded away from zero.
    pub fn divided_up(&self, d: i64) -> (r: Vec3)
        requires
            d > 0,
        ensures
            r@ == self@.divided_up(d as int),
    {
        let x: i128 = divide_up(self.x as i128, d as i128);
        let y: i128 = divide_up(self.y as i128, d as i128);
        let z: i128 = divide_up(self.z as i128, d as i128);
        Vec3 { x: x as i64, y: y as i64, z: z as i64 }
    }

    /// Dot product.
    pub fn dot(&self, other: &Vec3) -> (r: i128)
        requires
            self@.within(SUM_LIMIT as int),
            other@.within(SUM_LIMIT as int),
        ensures
            r == self@.dot(other@),
    {
        proof {
            lemma_product_bound(self.x as int, other.x as int, SUM_LIMIT as int, SUM_LIMIT as int);
            lemma_product_bound(self.y as int, other.y as int, SUM_LIMIT as int, SUM_LIMIT as int);
            lemma_product_bound(self.z as int, other.z as int, SUM_LIMIT as int, SUM_LIMIT as int);
        }
        (self.x as i128) * (other.x as i128) + (self.y as i128) * (other.y as i128) + (
        self.z as i128) * (other.z as i128)
    }

    /// Squared Euclidean length.
    pub fn norm_sq(&self) -> (r: i128)
        requires
            self@.within(SUM_LIMIT as int),
        ensures
            r == self@.norm_sq(),
            r >= 0,
    {
        proof {
            lemma_norm_sq_positive(self@);
        }
        self.dot(self)
    }

    /// Whether all three components are zero.
    pub fn is_zero(&self) -> (r: bool)
        ensures
            r == self@.is_zero(),
    {
        self.x == 0 && self.y == 0 && self.z == 0
    }

    /// The direction of this vector as a vector of length `UNIT`, or nothing
    /// for the zero vector, which has no direction.
    pub fn normalize_checked(&self) -> (r: Option<Vec3>)
        requires
            self@.within(NORMALIZE_LIMIT as int),
        ensures
            r.is_none() <==> self@.is_zero(),
            r matches Some(u) ==> u@ == self@.unit() && u@.within(UNIT as int),
            r matches Some(u) ==> UNIT * UNIT <= u@.norm_sq() < (UNIT + 3) * (UNIT + 3),
    {
        if self.is_zero() {
            return None;
        }
        proof {
            law_unit_length(self@);
            lemma_norm_sq_positive(self@);
            lemma_dot_bound(self@, self@, NORMALIZE_LIMIT as int, NORMALIZE_LIMIT as int);
            law_unit_components(self@);
        }
        let n: i128 = self.norm_sq();
        let scaled: u128 = (n as u128) * ((UNIT * UNIT) as u128);
        let root: u64 = isqrt(scaled);
        let r: i128 = root as i128;
        let k: i128 = (UNIT * UNIT) as i128;
        proof {
            lemma_product_bound(k as int, self.x as int, k as int, NORMALIZE_LIMIT as int);
            lemma_product_bound(k as int, self.y as int, k as int, NORMALIZE_LIMIT as int);
            lemma_product_bound(k as int, self.z as int, k as int, NORMALIZE_LIMIT as int);
        }
        let x: i128 = divide_up(k * (self.x as i128), r);
        let y: i128 = divide_up(k * (self.y as i128), r);
        let z: i128 = divide_up(k * (self.z as i128), r);
        Some(Vec3 { x: x as i64, y: y as i64, z: z as i64 })
    }

    /// Whether no component exceeds `limit` in absolute value.
    pub fn is_within(&self, limit: i64) -> (r: bool)
        requires
            limit >= 0,
        ensures
            r == self@.within(limit as int),
    {
        -limit <= self.x && self.x <= limit && -limit <= self.y && self.y <= limit && -limit
            <= self.z && self.z <= limit
    }
}

/// The part of `v` along `onto`, exactly: the dot product of the two times
/// `onto`, over the squared length of `onto`.
pub fn project(v: &Vec3, onto: &Vec3) -> (r: Ratio)
    requires
        !onto@.is_zero(),
        v@.within(PROJECT_LIMIT as int),
        onto@.within(PROJECT_LIMIT as int),
    ensures
        r.numerator@ == v@.projected(onto@),
        r.denominator == onto@.norm_sq(),
        r.denominator > 0,
{
    let d: i128 = onto.dot(v);
    let n: i128 = onto.norm_sq();
    proof {
        lemma_norm_sq_positive(onto@);
        lemma_dot_bound(onto@, v@, PROJECT_LIMIT as int, PROJECT_LIMIT as int);
        lemma_dot_bound(onto@, onto@, PROJECT_LIMIT as int, PROJECT_LIMIT as int);
        let bound = 3 * (PROJECT_LIMIT * PROJECT_LIMIT);
        lemma_scaled_within(onto@, d as int, PROJECT_LIMIT as int, bound);
        assert(bound * PROJECT_LIMIT == 3_458_764_513_820_540_928);
    }
    let x: i128 = d * (onto.x as i128);
    let y: i128 = d * (onto.y as i128);
    let z: i128 = d * (onto.z as i128);
    Ratio { numerator: Vec3 { x: x as i64, y: y as i64, z: z as i64 }, denominator: n as i64 }
}

/// The part of `v` across `basis`, multiplied by the squared length of
/// `basis`.
pub fn reject(v: &Vec3, basis: &Vec3) -> (r: Vec3)
    requires
        v@.within(PROJECT_LIMIT as int),
        basis@.within(PROJECT_LIMIT as int),
    ensures
        r@ == v@.rejected(basis@),
        r@.dot(basis@) == 0,
{
    let d: i128 = basis.dot(v);
    let n: i128 = basis.norm_sq();
    proof {
        lemma_dot_bound(basis@, v@, PROJECT_LIMIT as int, PROJECT_LIMIT as int);
        lemma_dot_bound(basis@, basis@, PROJECT_LIMIT as int, PROJECT_LIMIT as int);
        let bound = 3 * (PROJECT_LIMIT * PROJECT_LIMIT);
        lemma_scaled_within(v@, n as int, PROJECT_LIMIT as int, bound);
        lemma_scaled_within(basis@, d as int, PROJECT_LIMIT as int, bound);
        law_rejected_is_perpendicular(v@, basis@);
    }
    let x: i128 = n * (v.x as i128) - d * (basis.x as i128);
    let y: i128 = n * (v.y as i128) - d * (basis.y as i128);
    let z: i128 = n * (v.z as i128) - d * (basis.z as i128);
    Vec3 { x: x as i64, y: y as i64, z: z as i64 }
}

/// The split of `v` into the part along `basis` and the part across it,
/// both exactly, over the squared length of `basis`.
pub fn decompose(basis: &Vec3, v: &Vec3) -> (r: (Ratio, Ratio))
    requires
        !basis@.is_zero(),
        v@.within(PROJECT_LIMIT as int),
        basis@.within(PROJECT_LIMIT as int),
    ensures
        r.0.numerator@ == v@.projected(basis@),
        r.1.numerator@ == v@.rejected(basis@),
        r.0.denominator == basis@.norm_sq(),
        r.1.denominator == basis@.norm_sq(),
        r.0.denominator > 0,
        r.0.numerator@.plus(r.1.numerator@) == v@.scaled(basis@.norm_sq()),
        r.1.numerator@.dot(basis@) == 0,
        r.0.numerator@.norm_sq() + r.1.numerator@.norm_sq() == basis@.norm_sq() * basis@.norm_sq()
            * v@.norm_sq(),
{
    proof {
        law_decompose(basis@, v@);
    }
    let parallel = project(v, basis);
    let perpendicular = Ratio { numerator: reject(v, basis), denominator: parallel.denominator };
    (parallel, perpendicular)
}

} // verus!
