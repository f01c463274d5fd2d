//! Axis-aligned bounding boxes.
use crate::fixed::{half, half_of, representable, COORD_LIMIT};
use crate::vector3::{BlockPos, Vector3, VectorModel};
use vstd::prelude::*;

verus! {

/// The mathematical box that a [`BoundingBox`] stands for.
pub struct BoxModel {
    pub min: VectorModel,
    pub max: VectorModel,
}

impl BoxModel {
    /// `min <= max` on every axis.
    pub open spec fn ordered(self) -> bool {
        self.min.x <= self.max.x && self.min.y <= self.max.y && self.min.z <= self.max.z
    }

    /// Every corner coordinate lies in `[-bound, bound]`.
    pub open spec fn within(self, bound: int) -> bool {
        self.min.within(bound) && self.max.within(bound)
    }

    /// Every corner coordinate can be held by an `i64`.
    pub open spec fn representable(self) -> bool {
        self.min.representable() && self.max.representable()
    }

    /// The two boxes overlap on all three axes. Boxes that only touch do
    /// not overlap.
    pub open spec fn intersects(self, other: BoxModel) -> bool {
        &&& self.min.x < other.max.x
        &&& self.max.x > other.min.x
        &&& self.min.y < other.max.y
        &&& self.max.y > other.min.y
        &&& self.min.z < other.max.z
        &&& self.max.z > other.min.z
    }

    /// The box moved by `(dx, dy, dz)`.
    pub open spec fn offset(self, dx: int, dy: int, dz: int) -> BoxModel {
        let d = VectorModel { x: dx, y: dy, z: dz };
        BoxModel { min: self.min.plus(d), max: self.max.plus(d) }
    }

    /// The box grown toward `(dx, dy, dz)`: on each axis a positive delta
    /// moves the upper face out, a negative delta moves the lower face out.
    pub open spec fn expand_towards(self, dx: int, dy: int, dz: int) -> BoxModel {
        BoxModel {
            min: VectorModel {
                x: if dx < 0 {
                    self.min.x + dx
                } else {
                    self.min.x
                },
                y: if dy < 0 {
                    self.min.y + dy
                } else {
                    self.min.y
                },
                z: if dz < 0 {
                    self.min.z + dz
                } else {
                    self.min.z
                },
            },
            max: VectorModel {
                x: if dx > 0 {
                    self.max.x + dx
                } else {
                    self.max.x
                },
                y: if dy > 0 {
                    self.max.y + dy
                } else {
                    self.max.y
                },
                z: if dz > 0 {
                    self.max.z + dz
                } else {
                    self.max.z
                },
            },
        }
    }

    /// The slab below the box that a fall of `dy` passes through.
    pub open spec fn cut_downwards(self, dy: int) -> BoxModel {
        BoxModel {
            min: VectorModel { x: self.min.x, y: self.min.y + dy, z: self.min.z },
            max: VectorModel { x: self.max.x, y: self.min.y, z: self.max.z },
        }
    }

    /// The slab above the box that a rise of `dy` passes through.
    pub open spec fn cut_upwards(self, dy: int) -> BoxModel {
        BoxModel {
            min: VectorModel { x: self.min.x, y: self.max.y, z: self.min.z },
            max: VectorModel { x: self.max.x, y: self.max.y + dy, z: self.max.z },
        }
    }

    /// The box of an entity standing at `(x, y, z)`: centred on the point
    /// horizontally, resting on it vertically.
    pub open spec fn from_center_dims(x: int, y: int, z: int, width: int, height: int) -> BoxModel {
        BoxModel {
            min: VectorModel { x: x - half(width), y: y, z: z - half(width) },
            max: VectorModel { x: x + half(width), y: y + height, z: z + half(width) },
        }
    }
}

/// Why a pair of corners was refused as a bounding box.
#[derive(Clone, Copy, Debug, PartialEq, Eq)]
pub enum BoxError {
    /// A coordinate has a magnitude above [`COORD_LIMIT`].
    OutOfRange,
    /// On some axis the lower corner lies above the upper corner.
    Inverted,
}

/// Width and height of an entity kind, in units.
#[derive(Clone, Copy, Debug, PartialEq, Eq)]
pub struct EntityDimensions {
    pub width: i64,
    pub height: i64,
}

/// An axis-aligned box given by its two extreme corners.
#[derive(Clone, Copy, Debug, PartialEq, Eq)]
pub struct BoundingBox {
    pub min: Vector3,
    pub max: Vector3,
}

impl View for BoundingBox {
    type V = BoxModel;

    open spec fn view(&self) -> BoxModel {
        BoxModel { min: self.min@, max: self.max@ }
    }
}

impl BoundingBox {
    /// The box is ordered and every coordinate lies within [`COORD_LIMIT`].
    pub open spec fn well_formed(&self) -> bool {
        self@.ordered() && self@.within(COORD_LIMIT as int)
    }

    /// The box with the given corners, taken as they are.
    pub fn new(min: Vector3, max: Vector3) -> (b: BoundingBox)
        ensures
            b.min == min,
            b.max == max,
    {
        BoundingBox { min, max }
    }

    /// The box with the given corners, if they form one: every coordinate
    /// within [`COORD_LIMIT`], and `min <= max` on every axis.
    pub fn try_new(min: Vector3, max: Vector3) -> (r: Result<BoundingBox, BoxError>)
        ensures
            match r {
                Ok(b) => b.min == min && b.max == max && b.well_formed(),
                Err(BoxError::OutOfRange) => !(BoundingBox { min, max })@.within(
                    COORD_LIMIT as int,
                ),
                Err(BoxError::Inverted) => (BoundingBox { min, max })@.within(COORD_LIMIT as int)
                    && !(BoundingBox { min, max })@.ordered(),
            },
    {
        if !min.is_within(COORD_LIMIT) || !max.is_within(COORD_LIMIT) {
            Err(BoxError::OutOfRange)
        } else if min.x > max.x || min.y > max.y || min.z > max.z {
            Err(BoxError::Inverted)
        } else {
            Ok(BoundingBox { min, max })
        }
    }

    /// The box with corners `min` and `max` given as arrays of coordinates.
    pub fn new_array(min: [i64; 3], max: [i64; 3]) -> (b: BoundingBox)
        ensures
            b.min@ == (VectorModel { x: min[0] as int, y: min[1] as int, z: min[2] as int }),
            b.max@ == (VectorModel { x: max[0] as int, y: max[1] as int, z: max[2] as int }),
    {
        BoundingBox {
            min: Vector3 { x: min[0], y: min[1], z: min[2] },
            max: Vector3 { x: max[0], y: max[1], z: max[2] },
        }
    }

    /// The box of an entity of the given size standing at `(x, y, z)`.
    pub fn from_center_dims(x: i64, y: i64, z: i64, width: i64, height: i64) -> (b: BoundingBox)
        requires
            BoxModel::from_center_dims(
                x as int,
                y as int,
                z as int,
                width as int,
                height as int,
            ).representable(),
        ensures
            b@ == BoxModel::from_center_dims(
                x as int,
                y as int,
                z as int,
                width as int,
                height as int,
            ),
            width >= 0 && height >= 0 ==> b@.ordered(),
    {
        let f: i64 = half_of(width);
        BoundingBox {
            min: Vector3 { x: x - f, y, z: z - f },
            max: Vector3 { x: x + f, y: y + height, z: z + f },
        }
    }

    /// Tells whether the box is ordered and within [`COORD_LIMIT`].
    pub fn is_well_formed(&self) -> (b: bool)
        ensures
            b == self.well_formed(),
    {
        self.min.is_within(COORD_LIMIT) && self.max.is_within(COORD_LIMIT) && self.min.x
            <= self.max.x && self.min.y <= self.max.y && self.min.z <= self.max.z
    }

    /// Tells whether every coordinate lies in `[-bound, bound]`.
    pub fn is_within(&self, bound: i64) -> (b: bool)
        requires
            bound >= 0,
        ensures
            b == self@.within(bound as int),
    {
        self.min.is_within(bound) && self.max.is_within(bound)
    }

    /// Tells whether the two boxes overlap on all three axes.
    pub fn intersects(&self, other: &BoundingBox) -> (b: bool)
        ensures
            b == self@.intersects(other@),
    {
        self.min.x < other.max.x && self.max.x > other.min.x && self.min.y < other.max.y
            && self.max.y > other.min.y && self.min.z < other.max.z && self.max.z > other.min.z
    }

    /// The box grown toward `(dx, dy, dz)`; the volume that the box sweeps
    /// when it moves by that much.
    pub fn expand_towards(&self, dx: i64, dy: i64, dz: i64) -> (b: BoundingBox)
        requires
            self@.expand_towards(dx as int, dy as int, dz as int).representable(),
        ensures
            b@ == self@.expand_towards(dx as int, dy as int, dz as int),
    {
        let mut min = self.min;
        let mut max = self.max;
        if dx < 0 {
            min.x = min.x + dx;
        } else if dx > 0 {
            max.x = max.x + dx;
        }
        if dy < 0 {
            min.y = min.y + dy;
        } else if dy > 0 {
            max.y = max.y + dy;
        }
        if dz < 0 {
            min.z = min.z + dz;
        } else if dz > 0 {
            max.z = max.z + dz;
        }
        BoundingBox { min, max }
    }

    /// The box moved by `(dx, dy, dz)`, its size unchanged.
    pub fn offset_raw(&self, dx: i64, dy: i64, dz: i64) -> (b: BoundingBox)
        requires
            self@.offset(dx as int, dy as int, dz as int).representable(),
        ensures
            b@ == self@.offset(dx as int, dy as int, dz as int),
    {
        BoundingBox {
            min: Vector3 { x: self.min.x + dx, y: self.min.y + dy, z: self.min.z + dz },
            max: Vector3 { x: self.max.x + dx, y: self.max.y + dy, z: self.max.z + dz },
        }
    }

    /// The box moved to the block at `pos`: a box given relative to a
    /// block's corner becomes a box in world coordinates.
    pub fn at_block(&self, pos: &BlockPos) -> (b: BoundingBox)
        requires
            self@.offset(pos.origin().x, pos.origin().y, pos.origin().z).representable(),
        ensures
            b@ == self@.offset(pos.origin().x, pos.origin().y, pos.origin().z),
    {
        let o = pos.to_units();
        self.offset_raw(o.x, o.y, o.z)
    }
}

/// Moving keeps overlap: two boxes moved by the same amount overlap
/// exactly when they did before.
pub proof fn lemma_offset_keeps_intersection(a: BoxModel, b: BoxModel, dx: int, dy: int, dz: int)
    ensures
        a.offset(dx, dy, dz).intersects(b.offset(dx, dy, dz)) == a.intersects(b),
{
}

/// Overlap is symmetric.
pub proof fn lemma_intersects_symmetric(a: BoxModel, b: BoxModel)
    ensures
        a.intersects(b) == b.intersects(a),
{
}

/// The swept volume of an ordered box contains the box before and after
/// the move: any box that overlaps either overlaps the swept volume.
pub proof fn lemma_sweep_covers_path(a: BoxModel, other: BoxModel, dx: int, dy: int, dz: int)
    requires
        a.ordered(),
        other.intersects(a) || other.intersects(a.offset(dx, dy, dz)),
    ensures
        other.intersects(a.expand_towards(dx, dy, dz)),
{
}

} // verus!
