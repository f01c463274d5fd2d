//! Three-component vectors of fixed-point scalars and block positions.
use crate::fixed::{
    checked_product, product, representable, scaled_product, square_of, within, UNITS_PER_BLOCK,
};
use vstd::prelude::*;

verus! {

/// The mathematical vector that a [`Vector3`] stands for: three unbounded
/// integers, each a number of units.
pub struct VectorModel {
    pub x: int,
    pub y: int,
    pub z: int,
}

impl VectorModel {
    /// The zero vector.
    pub open spec fn zero() -> VectorModel {
        VectorModel { x: 0, y: 0, z: 0 }
    }

    /// Componentwise sum.
    pub open spec fn plus(self, other: VectorModel) -> VectorModel {
        VectorModel { x: self.x + other.x, y: self.y + other.y, z: self.z + other.z }
    }

    /// Componentwise difference.
    pub open spec fn minus(self, other: VectorModel) -> VectorModel {
        VectorModel { x: self.x - other.x, y: self.y - other.y, z: self.z - other.z }
    }

    /// Componentwise fixed-point product.
    pub open spec fn times(self, other: VectorModel) -> VectorModel {
        VectorModel {
            x: product(self.x, other.x),
            y: product(self.y, other.y),
            z: product(self.z, other.z),
        }
    }

    /// Every component multiplied by the scalar `k`.
    pub open spec fn scaled(self, k: int) -> VectorModel {
        VectorModel { x: product(self.x, k), y: product(self.y, k), z: product(self.z, k) }
    }

    /// The squared length, in square units.
    pub open spec fn length_squared(self) -> int {
        self.x * self.x + self.y * self.y + self.z * self.z
    }

    /// The squared length of the horizontal part, in square units.
    pub open spec fn horizontal_length_squared(self) -> int {
        self.x * self.x + self.z * self.z
    }

    /// Every component lies in `[-bound, bound]`.
    pub open spec fn within(self, bound: int) -> bool {
        within(self.x, bound) && within(self.y, bound) && within(self.z, bound)
    }

    /// Every component can be held by an `i64`.
    pub open spec fn representable(self) -> bool {
        representable(self.x) && representable(self.y) && representable(self.z)
    }

    /// All three components are zero.
    pub open spec fn is_zero(self) -> bool {
        self.x == 0 && self.y == 0 && self.z == 0
    }
}

/// A vector of three fixed-point scalars.
#[derive(Clone, Copy, Debug, PartialEq, Eq)]
pub struct Vector3 {
    pub x: i64,
    pub y: i64,
    pub z: i64,
}

impl View for Vector3 {
    type V = VectorModel;

    open spec fn view(&self) -> VectorModel {
        VectorModel { x: self.x as int, y: self.y as int, z: self.z as int }
    }
}

impl Vector3 {
    /// The vector with the given components.
    pub fn new(x: i64, y: i64, z: i64) -> (v: Vector3)
        ensures
            v.x == x,
            v.y == y,
            v.z == z,
    {
        Vector3 { x, y, z }
    }

    /// The zero vector.
    pub fn zero() -> (v: Vector3)
        ensures
            v@ == VectorModel::zero(),
    {
        Vector3 { x: 0, y: 0, z: 0 }
    }

    /// The vector of whole blocks `(x, y, z)`.
    pub fn from_blocks(x: i32, y: i32, z: i32) -> (v: Vector3)
        ensures
            v.x == x * UNITS_PER_BLOCK,
            v.y == y * UNITS_PER_BLOCK,
            v.z == z * UNITS_PER_BLOCK,
    {
        Vector3 {
            x: (x as i64) * UNITS_PER_BLOCK,
            y: (y as i64) * UNITS_PER_BLOCK,
            z: (z as i64) * UNITS_PER_BLOCK,
        }
    }

    /// Tells whether every component lies in `[-bound, bound]`.
    pub fn is_within(&self, bound: i64) -> (b: bool)
        requires
            bound >= 0,
        ensures
            b == self@.within(bound as int),
    {
        -bound <= self.x && self.x <= bound && -bound <= self.y && self.y <= bound && -bound
            <= self.z && self.z <= bound
    }

    /// Tells whether all three components are zero.
    pub fn is_zero(&self) -> (b: bool)
        ensures
            b == self@.is_zero(),
    {
        self.x == 0 && self.y == 0 && self.z == 0
    }

    /// Componentwise sum.
    pub fn add(&self, other: &Vector3) -> (v: Vector3)
        requires
            self@.plus(other@).representable(),
        ensures
            v@ == self@.plus(other@),
    {
        Vector3 { x: self.x + other.x, y: self.y + other.y, z: self.z + other.z }
    }

    /// Componentwise difference.
    pub fn sub(&self, other: &Vector3) -> (v: Vector3)
        requires
            self@.minus(other@).representable(),
        ensures
            v@ == self@.minus(other@),
    {
        Vector3 { x: self.x - other.x, y: self.y - other.y, z: self.z - other.z }
    }

    /// Componentwise fixed-point product.
    pub fn multiply(&self, other: &Vector3) -> (v: Vector3)
        requires
            self@.times(other@).representable(),
        ensures
            v@ == self@.times(other@),
    {
        Vector3 {
            x: scaled_product(self.x, other.x),
            y: scaled_product(self.y, other.y),
            z: scaled_product(self.z, other.z),
        }
    }

    /// Componentwise fixed-point product, or `None` when a component of it
    /// cannot be held.
    pub fn checked_multiply(&self, other: &Vector3) -> (r: Option<Vector3>)
        ensures
            self@.times(other@).representable() ==> r.is_some() && r.unwrap()@ == self@.times(
                other@,
            ),
            !self@.times(other@).representable() ==> r.is_none(),
    {
        let x = checked_product(self.x, other.x);
        let y = checked_product(self.y, other.y);
        let z = checked_product(self.z, other.z);
        match (x, y, z) {
            (Some(x), Some(y), Some(z)) => Some(Vector3 { x, y, z }),
            _ => None,
        }
    }

    /// Every component multiplied by the scalar `k`.
    pub fn scale(&self, k: i64) -> (v: Vector3)
        requires
            self@.scaled(k as int).representable(),
        ensures
            v@ == self@.scaled(k as int),
    {
        Vector3 {
            x: scaled_product(self.x, k),
            y: scaled_product(self.y, k),
            z: scaled_product(self.z, k),
        }
    }

    /// The squared length, in square units. It is exact for every vector.
    pub fn length_squared(&self) -> (s: u128)
        ensures
            s == self@.length_squared(),
    {
        let xx: u128 = square_of(self.x);
        let yy: u128 = square_of(self.y);
        let zz: u128 = square_of(self.z);
        xx + yy + zz
    }

    /// The squared length of the horizontal part, in square units.
    pub fn horizontal_length_squared(&self) -> (s: u128)
        ensures
            s == self@.horizontal_length_squared(),
    {
        let xx: u128 = square_of(self.x);
        let zz: u128 = square_of(self.z);
        xx + zz
    }
}

/// The position of a block on the integer grid.
#[derive(Clone, Copy, Debug, PartialEq, Eq)]
pub struct BlockPos {
    pub x: i32,
    pub y: i32,
    pub z: i32,
}

impl BlockPos {
    /// The block at grid coordinates `(x, y, z)`.
    pub fn new(x: i32, y: i32, z: i32) -> (p: BlockPos)
        ensures
            p.x == x,
            p.y == y,
            p.z == z,
    {
        BlockPos { x, y, z }
    }

    /// The corner of the block with the smallest coordinates, in units.
    pub open spec fn origin(self) -> VectorModel {
        VectorModel {
            x: self.x * UNITS_PER_BLOCK,
            y: self.y * UNITS_PER_BLOCK,
            z: self.z * UNITS_PER_BLOCK,
        }
    }

    /// The corner of the block with the smallest coordinates, in units.
    pub fn to_units(&self) -> (v: Vector3)
        ensures
            v@ == self.origin(),
    {
        Vector3::from_blocks(self.x, self.y, self.z)
    }
}

} // verus!
