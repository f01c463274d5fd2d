//! The movement resolver: one entity's displacement for one tick.
//!
//! A proposed movement passes through the stuck-speed override, the edge
//! adjustment of the entity's kind, the clamp against blocks and the clamp
//! against other entities, and is then committed to the kinetic state.
//!
//! Block geometry is given relative to the block's corner; the resolver
//! moves each shape to its block before it clamps against it.
use crate::boundingbox::{BoundingBox, BoxModel};
use crate::collision_util::CollisionUtil;
use crate::fixed::COORD_LIMIT;
use crate::vector3::{BlockPos, Vector3, VectorModel};
use crate::voxel_shape::{
    clear_of, collision_offset, lemma_clear_shape_shortens, shortened, ShapeModel, VoxelShape,
};
use vstd::prelude::*;

verus! {

/// The box against which a movement is clamped. A movement without a
/// horizontal part takes the slab below or above the box that the vertical
/// movement passes through; any other movement takes the swept volume.
pub open spec fn probe_of(entity_box: BoxModel, movement: VectorModel) -> BoxModel {
    if movement.x == 0 && movement.z == 0 {
        if movement.y < 0 {
            entity_box.cut_downwards(movement.y)
        } else {
            entity_box.cut_upwards(movement.y)
        }
    } else {
        entity_box.expand_towards(movement.x, movement.y, movement.z)
    }
}

/// The boxes of a block's shape in world coordinates.
pub open spec fn placed_boxes(placed: (BlockPos, ShapeModel)) -> Seq<BoxModel> {
    placed.1.offset(placed.0.origin().x, placed.0.origin().y, placed.0.origin().z).boxes
}

/// `movement` clamped against the first `n` block shapes, one after the
/// other.
pub open spec fn clamp_by_blocks(
    shapes: Seq<(BlockPos, ShapeModel)>,
    n: int,
    probe: BoxModel,
    movement: VectorModel,
) -> VectorModel
    decreases n,
{
    if n <= 0 {
        movement
    } else {
        collision_offset(
            placed_boxes(shapes[n - 1]),
            probe,
            clamp_by_blocks(shapes, n - 1, probe, movement),
        )
    }
}

/// `movement` clamped against the first `n` entity boxes, one after the
/// other, each taken as a shape of one box.
pub open spec fn clamp_by_entities(
    boxes: Seq<BoxModel>,
    n: int,
    probe: BoxModel,
    movement: VectorModel,
) -> VectorModel
    decreases n,
{
    if n <= 0 {
        movement
    } else {
        collision_offset(
            seq![boxes[n - 1]],
            probe,
            clamp_by_entities(boxes, n - 1, probe, movement),
        )
    }
}

/// The movement that `entity_box` can make when it wants to move by
/// `movement`: clamped against every block shape, then against every
/// entity box, with the probe box standing for the entity.
pub open spec fn resolved_movement(
    entity_box: BoxModel,
    movement: VectorModel,
    shapes: Seq<(BlockPos, ShapeModel)>,
    entity_boxes: Seq<BoxModel>,
) -> VectorModel {
    let probe = probe_of(entity_box, movement);
    clamp_by_entities(
        entity_boxes,
        entity_boxes.len() as int,
        probe,
        clamp_by_blocks(shapes, shapes.len() as int, probe, movement),
    )
}

/// The shapes as mathematical shapes, each with its block.
pub open spec fn shape_models(shapes: Seq<(BlockPos, VoxelShape)>) -> Seq<(BlockPos, ShapeModel)> {
    Seq::new(shapes.len(), |i: int| (shapes[i].0, shapes[i].1@))
}

/// The boxes as mathematical boxes.
pub open spec fn box_models(boxes: Seq<BoundingBox>) -> Seq<BoxModel> {
    Seq::new(boxes.len(), |i: int| boxes[i]@)
}

/// The shape lies within [`COORD_LIMIT`], before and after it is placed at
/// its block.
pub open spec fn shape_in_range(placed: (BlockPos, ShapeModel)) -> bool {
    &&& placed.1.within(COORD_LIMIT as int)
    &&& placed.1.offset(placed.0.origin().x, placed.0.origin().y, placed.0.origin().z).within(
        COORD_LIMIT as int,
    )
}

/// Every shape lies within [`COORD_LIMIT`], before and after it is placed
/// at its block.
pub open spec fn shapes_in_range(shapes: Seq<(BlockPos, ShapeModel)>) -> bool {
    forall|i: int| 0 <= i < shapes.len() ==> shape_in_range(#[trigger] shapes[i])
}

/// Every box lies within [`COORD_LIMIT`].
pub open spec fn boxes_in_range(boxes: Seq<BoxModel>) -> bool {
    forall|i: int| 0 <= i < boxes.len() ==> (#[trigger] boxes[i]).within(COORD_LIMIT as int)
}

/// A movement that has come to a halt stays halted: no shape changes the
/// zero movement.
pub proof fn lemma_zero_stays_zero(boxes: Seq<BoxModel>, probe: BoxModel)
    ensures
        collision_offset(boxes, probe, VectorModel::zero()) == VectorModel::zero(),
{
}

/// Once the clamp against blocks has reached zero it stays there.
pub proof fn lemma_blocks_keep_zero(
    shapes: Seq<(BlockPos, ShapeModel)>,
    i: int,
    n: int,
    probe: BoxModel,
    movement: VectorModel,
)
    requires
        0 <= i <= n,
        clamp_by_blocks(shapes, i, probe, movement).is_zero(),
    ensures
        clamp_by_blocks(shapes, n, probe, movement).is_zero(),
    decreases n - i,
{
    if i < n {
        lemma_blocks_keep_zero(shapes, i, n - 1, probe, movement);
        lemma_zero_stays_zero(placed_boxes(shapes[n - 1]), probe);
    }
}

/// Once the clamp against entities has reached zero it stays there.
pub proof fn lemma_entities_keep_zero(
    boxes: Seq<BoxModel>,
    i: int,
    n: int,
    probe: BoxModel,
    movement: VectorModel,
)
    requires
        0 <= i <= n,
        clamp_by_entities(boxes, i, probe, movement).is_zero(),
    ensures
        clamp_by_entities(boxes, n, probe, movement).is_zero(),
    decreases n - i,
{
    if i < n {
        lemma_entities_keep_zero(boxes, i, n - 1, probe, movement);
        lemma_zero_stays_zero(seq![boxes[n - 1]], probe);
    }
}

/// `resolved` keeps the direction of `desired` on every axis and is no
/// longer than it on any.
pub open spec fn shortened_on_every_axis(resolved: VectorModel, desired: VectorModel) -> bool {
    &&& shortened(resolved.x, desired.x)
    &&& shortened(resolved.y, desired.y)
    &&& shortened(resolved.z, desired.z)
}

/// Block shapes that do not overlap the probe box only shorten the
/// movement.
pub proof fn lemma_blocks_shorten(
    shapes: Seq<(BlockPos, ShapeModel)>,
    n: int,
    probe: BoxModel,
    movement: VectorModel,
)
    requires
        0 <= n <= shapes.len(),
        forall|i: int| 0 <= i < shapes.len() ==> clear_of(placed_boxes(#[trigger] shapes[i]), probe),
    ensures
        shortened_on_every_axis(clamp_by_blocks(shapes, n, probe, movement), movement),
    decreases n,
{
    if n > 0 {
        lemma_blocks_shorten(shapes, n - 1, probe, movement);
        lemma_clear_shape_shortens(
            placed_boxes(shapes[n - 1]),
            probe,
            clamp_by_blocks(shapes, n - 1, probe, movement),
        );
    }
}

/// Entity boxes that do not overlap the probe box only shorten the
/// movement.
pub proof fn lemma_entities_shorten(
    boxes: Seq<BoxModel>,
    n: int,
    probe: BoxModel,
    movement: VectorModel,
)
    requires
        0 <= n <= boxes.len(),
        clear_of(boxes, probe),
    ensures
        shortened_on_every_axis(clamp_by_entities(boxes, n, probe, movement), movement),
    decreases n,
{
    if n > 0 {
        lemma_entities_shorten(boxes, n - 1, probe, movement);
        let single = seq![boxes[n - 1]];
        assert(clear_of(single, probe));
        lemma_clear_shape_shortens(
            single,
            probe,
            clamp_by_entities(boxes, n - 1, probe, movement),
        );
    }
}

/// Resolved movement never exceeds desired movement: when no obstruction
/// overlaps the probe box, the resolved movement points, on every axis, the
/// way of the desired one and is no longer.
pub proof fn lemma_resolved_movement_shortens(
    entity_box: BoxModel,
    movement: VectorModel,
    shapes: Seq<(BlockPos, ShapeModel)>,
    entity_boxes: Seq<BoxModel>,
)
    requires
        forall|i: int|
            0 <= i < shapes.len() ==> clear_of(
                placed_boxes(#[trigger] shapes[i]),
                probe_of(entity_box, movement),
            ),
        clear_of(entity_boxes, probe_of(entity_box, movement)),
    ensures
        shortened_on_every_axis(
            resolved_movement(entity_box, movement, shapes, entity_boxes),
            movement,
        ),
{
    let probe = probe_of(entity_box, movement);
    let after_blocks = clamp_by_blocks(shapes, shapes.len() as int, probe, movement);
    lemma_blocks_shorten(shapes, shapes.len() as int, probe, movement);
    lemma_entities_shorten(entity_boxes, entity_boxes.len() as int, probe, after_blocks);
}

/// A shorter movement stays in range: where a movement can be resolved,
/// every movement can that points, on every axis, the same way and is no
/// longer.
pub proof fn lemma_shorter_movement_is_resolvable(
    entity_box: BoxModel,
    movement: VectorModel,
    shorter: VectorModel,
    shapes: Seq<(BlockPos, ShapeModel)>,
    entity_boxes: Seq<BoxModel>,
)
    requires
        resolvable(entity_box, movement, shapes, entity_boxes),
        shortened_on_every_axis(shorter, movement),
    ensures
        resolvable(entity_box, shorter, shapes, entity_boxes),
{
}

/// The box against which `movement` is clamped, for an entity with the box
/// `entity_box`.
pub fn probe_box(entity_box: &BoundingBox, movement: &Vector3) -> (probe: BoundingBox)
    requires
        entity_box@.within(COORD_LIMIT as int),
        movement@.within(COORD_LIMIT as int),
    ensures
        probe@ == probe_of(entity_box@, movement@),
{
    if movement.x == 0 && movement.z == 0 {
        if movement.y < 0 {
            CollisionUtil::cut_dawnwards(entity_box, movement.y)
        } else {
            CollisionUtil::cut_upwards(entity_box, movement.y)
        }
    } else {
        entity_box.expand_towards(movement.x, movement.y, movement.z)
    }
}

/// Tells whether [`resolve_collision`] can take these arguments: the box,
/// the movement, the probe box, every shape before and after it is placed,
/// and every entity box lie within [`COORD_LIMIT`].
pub fn can_resolve(
    entity_box: &BoundingBox,
    movement: &Vector3,
    block_shapes: &Vec<(BlockPos, VoxelShape)>,
    entity_boxes: &Vec<BoundingBox>,
) -> (ok: bool)
    ensures
        ok == resolvable(
            entity_box@,
            movement@,
            shape_models(block_shapes@),
            box_models(entity_boxes@),
        ),
{
    if !entity_box.is_within(COORD_LIMIT) || !movement.is_within(COORD_LIMIT) {
        return false;
    }
    let probe = probe_box(entity_box, movement);
    if !probe.is_within(COORD_LIMIT) {
        return false;
    }
    let ghost shapes = shape_models(block_shapes@);
    let mut i: usize = 0;
    while i < block_shapes.len()
        invariant
            i <= block_shapes@.len(),
            shapes == shape_models(block_shapes@),
            forall|j: int| 0 <= j < i ==> shape_in_range(#[trigger] shapes[j]),
        decreases block_shapes@.len() - i,
    {
        let shape = &block_shapes[i].1;
        if !shape.is_within(COORD_LIMIT) {
            assert(!shape_in_range(shapes[i as int]));
            return false;
        }
        let placed = shape.at_block(&block_shapes[i].0);
        if !placed.is_within(COORD_LIMIT) {
            assert(!shape_in_range(shapes[i as int]));
            return false;
        }
        i += 1;
    }
    let mut k: usize = 0;
    while k < entity_boxes.len()
        invariant
            k <= entity_boxes@.len(),
            forall|j: int|
                0 <= j < k ==> (#[trigger] box_models(entity_boxes@)[j]).within(COORD_LIMIT as int),
        decreases entity_boxes@.len() - k,
    {
        if !entity_boxes[k].is_within(COORD_LIMIT) {
            assert(!box_models(entity_boxes@)[k as int].within(COORD_LIMIT as int));
            return false;
        }
        k += 1;
    }
    true
}

/// The arguments on which [`resolve_collision`] is free of overflow.
pub open spec fn resolvable(
    entity_box: BoxModel,
    movement: VectorModel,
    shapes: Seq<(BlockPos, ShapeModel)>,
    entity_boxes: Seq<BoxModel>,
) -> bool {
    &&& entity_box.within(COORD_LIMIT as int)
    &&& movement.within(COORD_LIMIT as int)
    &&& probe_of(entity_box, movement).within(COORD_LIMIT as int)
    &&& shapes_in_range(shapes)
    &&& boxes_in_range(entity_boxes)
}

/// The movement that an entity with the box `entity_box` can make when it
/// wants to move by `movement`, against the given block shapes and the
/// boxes of the given entities.
///
/// The movement is clamped against each block shape in turn, then against
/// each entity box. As soon as nothing is left of it, the clamping stops.
pub fn resolve_collision(
    entity_box: &BoundingBox,
    movement: Vector3,
    block_shapes: &Vec<(BlockPos, VoxelShape)>,
    entity_boxes: &Vec<BoundingBox>,
) -> (resolved: Vector3)
    requires
        resolvable(
            entity_box@,
            movement@,
            shape_models(block_shapes@),
            box_models(entity_boxes@),
        ),
    ensures
        resolved@ == resolved_movement(
            entity_box@,
            movement@,
            shape_models(block_shapes@),
            box_models(entity_boxes@),
        ),
        resolved@.within(2 * COORD_LIMIT),
{
    let probe = probe_box(entity_box, &movement);
    let ghost shapes = shape_models(block_shapes@);
    let ghost boxes = box_models(entity_boxes@);
    let mut current = movement;
    let mut i: usize = 0;
    while i < block_shapes.len()
        invariant
            i <= block_shapes@.len(),
            shapes == shape_models(block_shapes@),
            shapes_in_range(shapes),
            probe@.within(COORD_LIMIT as int),
            current@.within(2 * COORD_LIMIT),
            current@ == clamp_by_blocks(shapes, i as int, probe@, movement@),
            boxes == box_models(entity_boxes@),
            probe@ == probe_of(entity_box@, movement@),
        decreases block_shapes@.len() - i,
    {
        assert(shapes[i as int].1 == block_shapes@[i as int].1@);
        let placed = block_shapes[i].1.at_block(&block_shapes[i].0);
        assert(placed@.within(COORD_LIMIT as int));
        current = placed.calculate_collision_offset(&probe, current);
        i += 1;
        if current.is_zero() {
            proof {
                lemma_blocks_keep_zero(shapes, i as int, shapes.len() as int, probe@, movement@);
                let after = clamp_by_blocks(shapes, shapes.len() as int, probe@, movement@);
                lemma_entities_keep_zero(boxes, 0, boxes.len() as int, probe@, after);
            }
            return Vector3::zero();
        }
    }
    let ghost after_blocks = current@;
    let mut k: usize = 0;
    while k < entity_boxes.len()
        invariant
            k <= entity_boxes@.len(),
            shapes == shape_models(block_shapes@),
            boxes == box_models(entity_boxes@),
            boxes_in_range(boxes),
            probe@.within(COORD_LIMIT as int),
            current@.within(2 * COORD_LIMIT),
            current@ == clamp_by_entities(boxes, k as int, probe@, after_blocks),
            after_blocks == clamp_by_blocks(shapes, shapes.len() as int, probe@, movement@),
            probe@ == probe_of(entity_box@, movement@),
        decreases entity_boxes@.len() - k,
    {
        assert(boxes[k as int] == entity_boxes@[k as int]@);
        let single = VoxelShape::new(entity_boxes[k]);
        current = single.calculate_collision_offset(&probe, current);
        k += 1;
        if current.is_zero() {
            proof {
                lemma_entities_keep_zero(boxes, k as int, boxes.len() as int, probe@, after_blocks);
            }
            return Vector3::zero();
        }
    }
    current
}

} // verus!
