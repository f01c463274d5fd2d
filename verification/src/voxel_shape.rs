//! Collision geometry of one block or entity: a union of boxes, and the
//! axis-by-axis clamp of a movement against it.
use crate::boundingbox::{BoundingBox, BoxModel};
use crate::fixed::{
    greater, lesser, snap, snap_to_zero, within, COORD_LIMIT, EPSILON, NEGLIGIBLE_SQUARED,
    UNITS_PER_BLOCK,
};
use crate::vector3::{BlockPos, Vector3, VectorModel};
use vstd::prelude::*;

verus! {

/// How much of its cell a shape fills.
#[derive(Clone, Copy, Debug, PartialEq, Eq)]
pub enum CollisionType {
    /// No collision
    Empty,
    /// Partial collision
    Partial,
    /// Full collision
    Full,
}

/// One of the three coordinate axes.
#[derive(Clone, Copy, Debug, PartialEq, Eq)]
pub enum Axis {
    X,
    Y,
    Z,
}

impl VectorModel {
    /// The component along `axis`.
    pub open spec fn along(self, axis: Axis) -> int {
        match axis {
            Axis::X => self.x,
            Axis::Y => self.y,
            Axis::Z => self.z,
        }
    }
}

impl BoxModel {
    /// The volume swept by the box when it moves by `delta` along `axis`.
    pub open spec fn sweep(self, axis: Axis, delta: int) -> BoxModel {
        match axis {
            Axis::X => self.expand_towards(delta, 0, 0),
            Axis::Y => self.expand_towards(0, delta, 0),
            Axis::Z => self.expand_towards(0, 0, delta),
        }
    }

    /// The free distance along `axis` between the moving box `self` and
    /// `obstruction`, signed like the movement `desired`: the displacement
    /// that brings the leading face of the box flush against the
    /// obstruction.
    pub open spec fn gap(self, obstruction: BoxModel, axis: Axis, desired: int) -> int {
        if desired > 0 {
            obstruction.min.along(axis) - self.max.along(axis)
        } else {
            obstruction.max.along(axis) - self.min.along(axis)
        }
    }
}

/// The movement along one axis after one more obstruction has been taken
/// into account: `so_far` clamped toward zero by the gap, then snapped.
pub open spec fn clamp_step(so_far: int, desired: int, gap: int) -> int {
    snap(
        if desired > 0 {
            lesser(so_far, gap)
        } else {
            greater(so_far, gap)
        },
    )
}

/// The movement along `axis` that the box `moving` can make against the
/// first `n` of `boxes`, when it wants to move by `desired`. Every box that
/// overlaps the swept volume clamps the movement in turn.
pub open spec fn resolve_axis(
    boxes: Seq<BoxModel>,
    n: int,
    axis: Axis,
    moving: BoxModel,
    desired: int,
) -> int
    decreases n,
{
    if n <= 0 {
        desired
    } else {
        let so_far = resolve_axis(boxes, n - 1, axis, moving, desired);
        if boxes[n - 1].intersects(moving.sweep(axis, desired)) {
            clamp_step(so_far, desired, moving.gap(boxes[n - 1], axis, desired))
        } else {
            so_far
        }
    }
}

/// The movement along `axis` against all of `boxes`; an axis without
/// desired movement is left alone.
pub open spec fn resolve_along(
    boxes: Seq<BoxModel>,
    axis: Axis,
    moving: BoxModel,
    desired: int,
) -> int {
    if desired != 0 {
        resolve_axis(boxes, boxes.len() as int, axis, moving, desired)
    } else {
        0
    }
}

/// The movement that the box `moving` can make against `boxes` when it
/// wants to move by `movement`.
///
/// A negligible movement, or one against no boxes, is returned as it is.
/// Otherwise the axes are resolved in the order X, Y, Z, each against the
/// box as displaced by the axes resolved before it.
pub open spec fn collision_offset(
    boxes: Seq<BoxModel>,
    moving: BoxModel,
    movement: VectorModel,
) -> VectorModel {
    if boxes.len() == 0 || movement.length_squared() < NEGLIGIBLE_SQUARED {
        movement
    } else {
        let x = resolve_along(boxes, Axis::X, moving, movement.x);
        let y = resolve_along(boxes, Axis::Y, moving.offset(x, 0, 0), movement.y);
        let z = resolve_along(boxes, Axis::Z, moving.offset(x, y, 0), movement.z);
        VectorModel { x, y, z }
    }
}

/// `resolved` keeps the direction of `desired` and is no longer than it.
pub open spec fn shortened(resolved: int, desired: int) -> bool {
    if desired >= 0 {
        0 <= resolved <= desired
    } else {
        desired <= resolved <= 0
    }
}

/// The box `moving` cannot move along `axis` at all: `obstruction` lies in
/// the volume that the desired movement sweeps, and is flush against the
/// leading face of the box, up to the tolerance.
pub open spec fn blocked_along(
    obstruction: BoxModel,
    moving: BoxModel,
    axis: Axis,
    desired: int,
) -> bool {
    &&& obstruction.intersects(moving.sweep(axis, desired))
    &&& -EPSILON < moving.gap(obstruction, axis, desired) < EPSILON
}

/// A single obstruction that does not overlap the moving box only ever
/// shortens the movement: on every axis the resolved movement points the
/// way of the desired one and is no longer. A component that was desired
/// comes out as zero only when the box is blocked along that axis from the
/// start; for a movement that is not negligible, exactly then, and the box
/// still does not overlap the obstruction after the move.
pub proof fn lemma_single_obstruction_shortens(
    obstruction: BoxModel,
    moving: BoxModel,
    movement: VectorModel,
)
    requires
        !obstruction.intersects(moving),
    ensures
        ({
            let r = collision_offset(seq![obstruction], moving, movement);
            let negligible = movement.length_squared() < NEGLIGIBLE_SQUARED;
            &&& shortened(r.x, movement.x)
            &&& shortened(r.y, movement.y)
            &&& shortened(r.z, movement.z)
            &&& movement.x != 0 && r.x == 0 ==> blocked_along(
                obstruction,
                moving,
                Axis::X,
                movement.x,
            )
            &&& movement.y != 0 && r.y == 0 ==> blocked_along(
                obstruction,
                moving.offset(r.x, 0, 0),
                Axis::Y,
                movement.y,
            )
            &&& movement.z != 0 && r.z == 0 ==> blocked_along(
                obstruction,
                moving.offset(r.x, r.y, 0),
                Axis::Z,
                movement.z,
            )
            &&& !negligible && blocked_along(obstruction, moving, Axis::X, movement.x) ==> r.x == 0
            &&& !negligible && blocked_along(
                obstruction,
                moving.offset(r.x, 0, 0),
                Axis::Y,
                movement.y,
            ) ==> r.y == 0
            &&& !negligible && blocked_along(
                obstruction,
                moving.offset(r.x, r.y, 0),
                Axis::Z,
                movement.z,
            ) ==> r.z == 0
            &&& !negligible ==> !obstruction.intersects(moving.offset(r.x, r.y, r.z))
        }),
{
    reveal_with_fuel(resolve_axis, 3);
}

/// The movement along `axis` that the nearest of the first `n` boxes
/// leaves: the desired movement, cut down to the gap of every box that
/// overlaps the swept volume. No tolerance is applied.
pub open spec fn nearest_gap(
    boxes: Seq<BoxModel>,
    n: int,
    axis: Axis,
    moving: BoxModel,
    desired: int,
) -> int
    decreases n,
{
    if n <= 0 {
        desired
    } else {
        let so_far = nearest_gap(boxes, n - 1, axis, moving, desired);
        let gap = moving.gap(boxes[n - 1], axis, desired);
        if !boxes[n - 1].intersects(moving.sweep(axis, desired)) {
            so_far
        } else if desired > 0 {
            lesser(so_far, gap)
        } else {
            greater(so_far, gap)
        }
    }
}

/// One of the first `n` boxes overlaps the volume that the desired movement
/// sweeps.
pub open spec fn obstructed(
    boxes: Seq<BoxModel>,
    n: int,
    axis: Axis,
    moving: BoxModel,
    desired: int,
) -> bool {
    exists|i: int| 0 <= i < n && (#[trigger] boxes[i]).intersects(moving.sweep(axis, desired))
}

/// The nearest gap is the least of the desired movement and the gaps of
/// the boxes in the way (the greatest, for a movement in the negative
/// direction), and it is one of them.
pub proof fn lemma_nearest_gap_is_least(
    boxes: Seq<BoxModel>,
    n: int,
    axis: Axis,
    moving: BoxModel,
    desired: int,
)
    requires
        0 <= n <= boxes.len(),
    ensures
        ({
            let nearest = nearest_gap(boxes, n, axis, moving, desired);
            let sweep = moving.sweep(axis, desired);
            &&& desired > 0 ==> nearest <= desired
            &&& desired <= 0 ==> nearest >= desired
            &&& forall|i: int|
                0 <= i < n && (#[trigger] boxes[i]).intersects(sweep) ==> if desired > 0 {
                    nearest <= moving.gap(boxes[i], axis, desired)
                } else {
                    nearest >= moving.gap(boxes[i], axis, desired)
                }
            &&& nearest == desired || exists|i: int|
                0 <= i < n && (#[trigger] boxes[i]).intersects(sweep) && nearest == moving.gap(
                    boxes[i],
                    axis,
                    desired,
                )
        }),
    decreases n,
{
    if n > 0 {
        lemma_nearest_gap_is_least(boxes, n - 1, axis, moving, desired);
    }
}

/// Where nothing is in the way, the nearest gap is the desired movement.
pub proof fn lemma_unobstructed_gap(
    boxes: Seq<BoxModel>,
    n: int,
    axis: Axis,
    moving: BoxModel,
    desired: int,
)
    requires
        0 <= n <= boxes.len(),
        !obstructed(boxes, n, axis, moving, desired),
    ensures
        nearest_gap(boxes, n, axis, moving, desired) == desired,
    decreases n,
{
    if n > 0 {
        let sweep = moving.sweep(axis, desired);
        assert(!obstructed(boxes, n - 1, axis, moving, desired)) by {
            if obstructed(boxes, n - 1, axis, moving, desired) {
                let i = choose|i: int| 0 <= i < n - 1 && (#[trigger] boxes[i]).intersects(sweep);
            }
        }
        lemma_unobstructed_gap(boxes, n - 1, axis, moving, desired);
    }
}

/// The clamp along one axis in closed form: an unobstructed movement is
/// made in full; an obstructed one goes as far as the nearest obstruction
/// lets it, within the tolerance. The order of the boxes plays no part.
pub proof fn lemma_resolve_axis_closed_form(
    boxes: Seq<BoxModel>,
    n: int,
    axis: Axis,
    moving: BoxModel,
    desired: int,
)
    requires
        0 <= n <= boxes.len(),
    ensures
        resolve_axis(boxes, n, axis, moving, desired) == if obstructed(
            boxes,
            n,
            axis,
            moving,
            desired,
        ) {
            snap(nearest_gap(boxes, n, axis, moving, desired))
        } else {
            desired
        },
    decreases n,
{
    if n > 0 {
        lemma_resolve_axis_closed_form(boxes, n - 1, axis, moving, desired);
        let sweep = moving.sweep(axis, desired);
        if boxes[n - 1].intersects(sweep) {
            if !obstructed(boxes, n - 1, axis, moving, desired) {
                lemma_unobstructed_gap(boxes, n - 1, axis, moving, desired);
            }
        } else if obstructed(boxes, n - 1, axis, moving, desired) {
            let i = choose|i: int| 0 <= i < n - 1 && (#[trigger] boxes[i]).intersects(sweep);
        }
    }
}

/// No box of `boxes` overlaps `b`.
pub open spec fn clear_of(boxes: Seq<BoxModel>, b: BoxModel) -> bool {
    forall|i: int| 0 <= i < boxes.len() ==> !(#[trigger] boxes[i]).intersects(b)
}

/// Along one axis, boxes that do not overlap the moving box only shorten
/// the movement, and the volume that the resolved movement sweeps stays
/// clear of them.
pub proof fn lemma_axis_shortens(
    boxes: Seq<BoxModel>,
    n: int,
    axis: Axis,
    moving: BoxModel,
    desired: int,
)
    requires
        0 <= n <= boxes.len(),
        clear_of(boxes, moving),
    ensures
        shortened(resolve_axis(boxes, n, axis, moving, desired), desired),
        forall|i: int|
            0 <= i < n ==> !(#[trigger] boxes[i]).intersects(
                moving.sweep(axis, resolve_axis(boxes, n, axis, moving, desired)),
            ),
    decreases n,
{
    if n > 0 {
        lemma_axis_shortens(boxes, n - 1, axis, moving, desired);
    }
}

/// A shape whose boxes do not overlap the moving box only ever shortens
/// the movement, on every axis; and unless the movement is negligible, the
/// box does not overlap the shape after the move either.
pub proof fn lemma_clear_shape_shortens(
    boxes: Seq<BoxModel>,
    moving: BoxModel,
    movement: VectorModel,
)
    requires
        clear_of(boxes, moving),
    ensures
        ({
            let r = collision_offset(boxes, moving, movement);
            &&& shortened(r.x, movement.x)
            &&& shortened(r.y, movement.y)
            &&& shortened(r.z, movement.z)
            &&& movement.length_squared() >= NEGLIGIBLE_SQUARED ==> clear_of(
                boxes,
                moving.offset(r.x, r.y, r.z),
            )
        }),
{
    let n = boxes.len() as int;
    if n > 0 && movement.length_squared() >= NEGLIGIBLE_SQUARED {
        let x = resolve_along(boxes, Axis::X, moving, movement.x);
        lemma_axis_shortens(boxes, n, Axis::X, moving, movement.x);
        let moved_x = moving.offset(x, 0, 0);
        let y = resolve_along(boxes, Axis::Y, moved_x, movement.y);
        lemma_axis_shortens(boxes, n, Axis::Y, moved_x, movement.y);
        let moved_xy = moving.offset(x, y, 0);
        lemma_axis_shortens(boxes, n, Axis::Z, moved_xy, movement.z);
    }
}

/// The boxes, each moved by `(dx, dy, dz)`.
pub open spec fn moved_boxes(boxes: Seq<BoxModel>, dx: int, dy: int, dz: int) -> Seq<BoxModel> {
    Seq::new(boxes.len(), |i: int| boxes[i].offset(dx, dy, dz))
}

/// Along one axis, the clamp does not depend on where in the world it
/// happens: moving the boxes and the moving box by the same amount leaves
/// it as it is.
pub proof fn lemma_resolve_axis_anywhere(
    boxes: Seq<BoxModel>,
    n: int,
    axis: Axis,
    moving: BoxModel,
    desired: int,
    dx: int,
    dy: int,
    dz: int,
)
    requires
        0 <= n <= boxes.len(),
    ensures
        resolve_axis(moved_boxes(boxes, dx, dy, dz), n, axis, moving.offset(dx, dy, dz), desired)
            == resolve_axis(boxes, n, axis, moving, desired),
    decreases n,
{
    if n > 0 {
        lemma_resolve_axis_anywhere(boxes, n - 1, axis, moving, desired, dx, dy, dz);
    }
}

/// The collision offset does not depend on where in the world the
/// collision happens: a shape and a box that are both moved by the same
/// amount collide as before. Clamping against a block's shape at its block
/// is the same as clamping against the shape as it is given, with the box
/// brought to the block's corner.
pub proof fn lemma_collision_offset_anywhere(
    boxes: Seq<BoxModel>,
    moving: BoxModel,
    movement: VectorModel,
    dx: int,
    dy: int,
    dz: int,
)
    ensures
        collision_offset(moved_boxes(boxes, dx, dy, dz), moving.offset(dx, dy, dz), movement)
            == collision_offset(boxes, moving, movement),
{
    let n = boxes.len() as int;
    if n > 0 && movement.length_squared() >= NEGLIGIBLE_SQUARED {
        lemma_resolve_axis_anywhere(boxes, n, Axis::X, moving, movement.x, dx, dy, dz);
        let x = resolve_along(boxes, Axis::X, moving, movement.x);
        let moved_x = moving.offset(x, 0, 0);
        lemma_resolve_axis_anywhere(boxes, n, Axis::Y, moved_x, movement.y, dx, dy, dz);
        let y = resolve_along(boxes, Axis::Y, moved_x, movement.y);
        let moved_xy = moving.offset(x, y, 0);
        lemma_resolve_axis_anywhere(boxes, n, Axis::Z, moved_xy, movement.z, dx, dy, dz);
    }
}

/// A movement of negligible length is never changed, whatever the shape.
pub proof fn lemma_negligible_movement_is_free(
    boxes: Seq<BoxModel>,
    moving: BoxModel,
    movement: VectorModel,
)
    requires
        movement.length_squared() < NEGLIGIBLE_SQUARED,
    ensures
        collision_offset(boxes, moving, movement) == movement,
{
}

/// The whole unit cube: the cell of a block, relative to the block's corner.
pub open spec fn unit_cube() -> BoxModel {
    BoxModel {
        min: VectorModel::zero(),
        max: VectorModel {
            x: UNITS_PER_BLOCK as int,
            y: UNITS_PER_BLOCK as int,
            z: UNITS_PER_BLOCK as int,
        },
    }
}

/// The classification of a shape of the single box `b`: full for the whole
/// unit cube, partial for any other box.
pub open spec fn classify_single(b: BoxModel) -> CollisionType {
    if b == unit_cube() {
        CollisionType::Full
    } else {
        CollisionType::Partial
    }
}

/// The mathematical shape that a [`VoxelShape`] stands for.
pub struct ShapeModel {
    pub boxes: Seq<BoxModel>,
    pub collision_type: CollisionType,
}

impl ShapeModel {
    /// Some box of the shape overlaps `b`.
    pub open spec fn collides_with(self, b: BoxModel) -> bool {
        exists|i: int| 0 <= i < self.boxes.len() && (#[trigger] self.boxes[i]).intersects(b)
    }

    /// Every box of the shape lies within `bound`.
    pub open spec fn within(self, bound: int) -> bool {
        forall|i: int| 0 <= i < self.boxes.len() ==> (#[trigger] self.boxes[i]).within(bound)
    }

    /// The classification that a list of `n` boxes without further
    /// knowledge gets.
    pub open spec fn classify(n: nat) -> CollisionType {
        if n == 0 {
            CollisionType::Empty
        } else {
            CollisionType::Partial
        }
    }

    /// The shape with every box moved by `(dx, dy, dz)`.
    pub open spec fn offset(self, dx: int, dy: int, dz: int) -> ShapeModel {
        ShapeModel {
            boxes: moved_boxes(self.boxes, dx, dy, dz),
            collision_type: self.collision_type,
        }
    }
}

/// The collision geometry of one block or entity.
#[derive(Debug)]
pub struct VoxelShape {
    pub boxes: Vec<BoundingBox>,
    pub collision_type: CollisionType,
}

impl View for VoxelShape {
    type V = ShapeModel;

    open spec fn view(&self) -> ShapeModel {
        ShapeModel {
            boxes: Seq::new(self.boxes@.len(), |i: int| self.boxes@[i]@),
            collision_type: self.collision_type,
        }
    }
}

impl Clone for VoxelShape {
    fn clone(&self) -> (s: VoxelShape)
        ensures
            s.boxes@ == self.boxes@,
            s.collision_type == self.collision_type,
    {
        VoxelShape { boxes: copy_boxes(&self.boxes), collision_type: self.collision_type }
    }
}

/// A copy of a list of boxes.
pub fn copy_boxes(boxes: &Vec<BoundingBox>) -> (copy: Vec<BoundingBox>)
    ensures
        copy@ == boxes@,
{
    let mut copy: Vec<BoundingBox> = Vec::new();
    let mut i: usize = 0;
    while i < boxes.len()
        invariant
            i <= boxes@.len(),
            copy@ == boxes@.subrange(0, i as int),
        decreases boxes@.len() - i,
    {
        copy.push(boxes[i]);
        i += 1;
    }
    copy
}

impl VoxelShape {
    /// The classification agrees with the boxes: `Empty` exactly for a
    /// shape without boxes, `Full` only for the whole unit cube alone.
    pub open spec fn well_formed(&self) -> bool {
        &&& (self.collision_type is Empty) <==> self.boxes@.len() == 0
        &&& (self.collision_type is Full) ==> self@.boxes == seq![unit_cube()]
    }

    /// The shape that is the single box `bbox`. It is full when the box is
    /// the whole unit cube, and partial for any other box.
    pub fn new(bbox: BoundingBox) -> (s: VoxelShape)
        ensures
            s@.boxes == seq![bbox@],
            s.collision_type == classify_single(bbox@),
            s.well_formed(),
    {
        let whole = bbox.min.x == 0 && bbox.min.y == 0 && bbox.min.z == 0 && bbox.max.x
            == UNITS_PER_BLOCK && bbox.max.y == UNITS_PER_BLOCK && bbox.max.z == UNITS_PER_BLOCK;
        let mut boxes: Vec<BoundingBox> = Vec::new();
        boxes.push(bbox);
        let s = VoxelShape {
            boxes,
            collision_type: if whole {
                CollisionType::Full
            } else {
                CollisionType::Partial
            },
        };
        assert(s@.boxes =~= seq![bbox@]);
        s
    }

    /// The shape made of `boxes`: partial, or empty for an empty list.
    pub fn from_boxes(boxes: Vec<BoundingBox>) -> (s: VoxelShape)
        ensures
            s.boxes == boxes,
            s.collision_type == ShapeModel::classify(boxes@.len()),
            s.well_formed(),
    {
        if boxes.len() == 0 {
            return VoxelShape { boxes, collision_type: CollisionType::Empty };
        }
        VoxelShape { boxes, collision_type: CollisionType::Partial }
    }

    /// The shape without boxes.
    pub fn empty() -> (s: VoxelShape)
        ensures
            s@.boxes.len() == 0,
            s.collision_type is Empty,
            s.well_formed(),
    {
        VoxelShape { boxes: Vec::new(), collision_type: CollisionType::Empty }
    }

    /// The shape that is the single box from `(min_x, min_y, min_z)` to
    /// `(max_x, max_y, max_z)`: full for the whole unit cube, partial for
    /// any other box.
    pub fn cube(min_x: i64, min_y: i64, min_z: i64, max_x: i64, max_y: i64, max_z: i64) -> (s:
        VoxelShape)
        ensures
            s@.boxes == seq![
                BoxModel {
                    min: VectorModel { x: min_x as int, y: min_y as int, z: min_z as int },
                    max: VectorModel { x: max_x as int, y: max_y as int, z: max_z as int },
                },
            ],
            s.collision_type == classify_single(
                BoxModel {
                    min: VectorModel { x: min_x as int, y: min_y as int, z: min_z as int },
                    max: VectorModel { x: max_x as int, y: max_y as int, z: max_z as int },
                },
            ),
            s.well_formed(),
    {
        VoxelShape::new(
            BoundingBox::new(Vector3::new(min_x, min_y, min_z), Vector3::new(max_x, max_y, max_z)),
        )
    }

    /// Creates a cubic VoxelShape that cover the entire block
    pub fn full_cube() -> (s: VoxelShape)
        ensures
            s@.boxes == seq![unit_cube()],
            s.collision_type is Full,
            s.well_formed(),
    {
        VoxelShape::cube(0, 0, 0, UNITS_PER_BLOCK, UNITS_PER_BLOCK, UNITS_PER_BLOCK)
    }

    /// Tells whether the shape is classified as empty.
    pub fn is_empty(&self) -> (b: bool)
        ensures
            b == (self.collision_type is Empty),
            self.well_formed() ==> b == (self@.boxes.len() == 0),
    {
        match self.collision_type {
            CollisionType::Empty => true,
            _ => false,
        }
    }

    /// Tells whether every box of the shape lies in `[-bound, bound]`.
    pub fn is_within(&self, bound: i64) -> (b: bool)
        requires
            bound >= 0,
        ensures
            b == self@.within(bound as int),
    {
        let mut i: usize = 0;
        while i < self.boxes.len()
            invariant
                bound >= 0,
                i <= self.boxes@.len(),
                forall|j: int| 0 <= j < i ==> (#[trigger] self@.boxes[j]).within(bound as int),
            decreases self.boxes@.len() - i,
        {
            if !self.boxes[i].is_within(bound) {
                assert(!self@.boxes[i as int].within(bound as int));
                return false;
            }
            i += 1;
        }
        true
    }

    /// Tells whether some box of the shape overlaps `bbox`.
    pub fn collides_with(&self, bbox: &BoundingBox) -> (b: bool)
        ensures
            b == self@.collides_with(bbox@),
    {
        let mut i: usize = 0;
        while i < self.boxes.len()
            invariant
                i <= self.boxes@.len(),
                forall|j: int| 0 <= j < i ==> !(#[trigger] self@.boxes[j]).intersects(bbox@),
            decreases self.boxes@.len() - i,
        {
            if self.boxes[i].intersects(bbox) {
                assert(self@.boxes[i as int].intersects(bbox@));
                return true;
            }
            i += 1;
        }
        false
    }

    /// The shape whose boxes are those of `self` followed by those of
    /// `other`. It is partial unless it has no boxes.
    pub fn union(&self, other: &VoxelShape) -> (s: VoxelShape)
        ensures
            s@.boxes == self@.boxes + other@.boxes,
            s@.boxes.len() == self@.boxes.len() + other@.boxes.len(),
            s.collision_type == ShapeModel::classify(s@.boxes.len()),
            s.well_formed(),
            self.well_formed() && other.well_formed() ==> ((s.collision_type is Partial) <==> !(
            self.collision_type is Empty && other.collision_type is Empty)),
    {
        let mut boxes = copy_boxes(&self.boxes);
        let mut j: usize = 0;
        while j < other.boxes.len()
            invariant
                j <= other.boxes@.len(),
                boxes@ == self.boxes@ + other.boxes@.subrange(0, j as int),
            decreases other.boxes@.len() - j,
        {
            boxes.push(other.boxes[j]);
            j += 1;
        }
        let s = VoxelShape::from_boxes(boxes);
        s
    }

    /// The shape with every box moved to the block at `pos`: geometry
    /// given relative to a block's corner becomes geometry in the world.
    pub fn at_block(&self, pos: &BlockPos) -> (s: VoxelShape)
        requires
            self@.within(COORD_LIMIT as int),
        ensures
            s@ == self@.offset(pos.origin().x, pos.origin().y, pos.origin().z),
    {
        let mut boxes: Vec<BoundingBox> = Vec::new();
        let mut i: usize = 0;
        while i < self.boxes.len()
            invariant
                i <= self.boxes@.len(),
                self@.within(COORD_LIMIT as int),
                boxes@.len() == i,
                forall|j: int|
                    0 <= j < i ==> (#[trigger] boxes@[j])@ == self@.boxes[j].offset(
                        pos.origin().x,
                        pos.origin().y,
                        pos.origin().z,
                    ),
            decreases self.boxes@.len() - i,
        {
            assert(self@.boxes[i as int].within(COORD_LIMIT as int));
            boxes.push(self.boxes[i].at_block(pos));
            i += 1;
        }
        let s = VoxelShape { boxes, collision_type: self.collision_type };
        assert(s@.boxes =~= self@.offset(pos.origin().x, pos.origin().y, pos.origin().z).boxes);
        s
    }

    /// The movement along `axis` that `moving` can make against this
    /// shape, when it wants to move by `desired`.
    fn resolve_axis(&self, axis: Axis, moving: &BoundingBox, desired: i64) -> (r: i64)
        requires
            self@.within(COORD_LIMIT as int),
            within(desired as int, 2 * COORD_LIMIT),
            within(moving@.min.along(axis), COORD_LIMIT as int),
            within(moving@.max.along(axis), COORD_LIMIT as int),
        ensures
            r == resolve_axis(self@.boxes, self@.boxes.len() as int, axis, moving@, desired as int),
            within(r as int, 2 * COORD_LIMIT),
    {
        let sweep = match axis {
            Axis::X => moving.expand_towards(desired, 0, 0),
            Axis::Y => moving.expand_towards(0, desired, 0),
            Axis::Z => moving.expand_towards(0, 0, desired),
        };
        let (lo, hi) = match axis {
            Axis::X => (moving.min.x, moving.max.x),
            Axis::Y => (moving.min.y, moving.max.y),
            Axis::Z => (moving.min.z, moving.max.z),
        };
        let mut result: i64 = desired;
        let mut i: usize = 0;
        while i < self.boxes.len()
            invariant
                i <= self.boxes@.len(),
                self@.within(COORD_LIMIT as int),
                within(desired as int, 2 * COORD_LIMIT),
                within(lo as int, COORD_LIMIT as int),
                within(hi as int, COORD_LIMIT as int),
                lo == moving@.min.along(axis),
                hi == moving@.max.along(axis),
                sweep@ == moving@.sweep(axis, desired as int),
                within(result as int, 2 * COORD_LIMIT),
                result == resolve_axis(self@.boxes, i as int, axis, moving@, desired as int),
            decreases self.boxes@.len() - i,
        {
            let shape_box = &self.boxes[i];
            assert(shape_box@ == self@.boxes[i as int]);
            if shape_box.intersects(&sweep) {
                let (obstruction_lo, obstruction_hi) = match axis {
                    Axis::X => (shape_box.min.x, shape_box.max.x),
                    Axis::Y => (shape_box.min.y, shape_box.max.y),
                    Axis::Z => (shape_box.min.z, shape_box.max.z),
                };
                if desired > 0 {
                    let gap: i64 = obstruction_lo - hi;
                    if gap < result {
                        result = gap;
                    }
                } else {
                    let gap: i64 = obstruction_hi - lo;
                    if gap > result {
                        result = gap;
                    }
                }
                result = snap_to_zero(result);
            }
            i += 1;
        }
        result
    }

    /// Calculate the resulting movement after a collision with this shape.
    ///
    /// `entity_box` wants to move by `movement`; the result is the movement
    /// it can make. A movement of negligible length, and any movement
    /// against a shape without boxes, is returned unchanged. Otherwise the
    /// X axis is resolved first, then Y, then Z, each axis against the box
    /// as the axes before it have displaced it.
    pub fn calculate_collision_offset(&self, entity_box: &BoundingBox, movement: Vector3) -> (r:
        Vector3)
        requires
            self@.within(COORD_LIMIT as int),
            entity_box@.within(COORD_LIMIT as int),
            movement@.within(2 * COORD_LIMIT),
        ensures
            r@ == collision_offset(self@.boxes, entity_box@, movement@),
            self@.boxes.len() == 0 || movement@.length_squared() < NEGLIGIBLE_SQUARED ==> r
                == movement,
            r@.within(2 * COORD_LIMIT),
    {
        if self.boxes.len() == 0 || movement.length_squared() < NEGLIGIBLE_SQUARED {
            return movement;
        }
        let mut result = movement;

        // Verify the collision on the X axis
        if movement.x != 0 {
            result.x = self.resolve_axis(Axis::X, entity_box, movement.x);
        }
        // Then verify the collision on the Y axis
        if movement.y != 0 {
            let moved_x_box = entity_box.offset_raw(result.x, 0, 0);
            result.y = self.resolve_axis(Axis::Y, &moved_x_box, movement.y);
        }
        // Finally, verify the collision on the Z axis
        if movement.z != 0 {
            let moved_xy_box = entity_box.offset_raw(result.x, result.y, 0);
            result.z = self.resolve_axis(Axis::Z, &moved_xy_box, movement.z);
        }
        result
    }
}

} // verus!
