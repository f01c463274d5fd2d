//! The collision query: which blocks and which entities can obstruct a
//! proposed movement.
//!
//! The world itself is not held here. The caller looks up the blocks at
//! the positions that [`CollisionUtil::search_positions`] lists, and the
//! entities near the box, and hands over what it found; the functions of
//! this file decide what of it obstructs.
use crate::boundingbox::{BoundingBox, BoxModel};
use crate::fixed::{
    block_ceil, block_floor, ceil_blocks, floor_blocks, saturate_i32, COORD_LIMIT, UNITS_PER_BLOCK,
};
use crate::vector3::{BlockPos, Vector3, VectorModel};
use crate::voxel_shape::{copy_boxes, unit_cube, ShapeModel, VoxelShape};
use vstd::prelude::*;

verus! {

/// What the collision query reads of a block's state.
#[derive(Debug)]
pub struct BlockState {
    /// The block obstructs movement.
    pub is_solid: bool,
    /// The sub-boxes of the block, relative to its corner; none for a block
    /// that fills its whole cell.
    pub collision_shapes: Vec<BoundingBox>,
}

/// The outcome of looking up one block: its position and, where the world
/// had the block at hand, its state.
#[derive(Debug)]
pub struct BlockSample {
    pub pos: BlockPos,
    pub state: Option<BlockState>,
}

/// A box of block positions: on each axis the coordinates from `min`
/// up to, but not including, `max`.
#[derive(Clone, Copy, Debug, PartialEq, Eq)]
pub struct BlockRange {
    pub min: BlockPos,
    pub max: BlockPos,
}

/// An entity as the collision query sees it.
#[derive(Clone, Copy, Debug, PartialEq, Eq)]
pub struct EntityHandle {
    pub entity_id: i32,
    pub bounding_box: BoundingBox,
}

impl BlockRange {
    /// `pos` lies in the range.
    pub open spec fn contains(self, pos: BlockPos) -> bool {
        &&& self.min.x <= pos.x < self.max.x
        &&& self.min.y <= pos.y < self.max.y
        &&& self.min.z <= pos.z < self.max.z
    }

    /// The range holds no position.
    pub open spec fn is_void(self) -> bool {
        self.min.x >= self.max.x || self.min.y >= self.max.y || self.min.z >= self.max.z
    }

    /// The position that is visited after `pos` when the range is walked
    /// layer by layer: `x` runs fastest, then `z`, then `y`.
    pub open spec fn successor(self, pos: BlockPos) -> Option<BlockPos> {
        if pos.x + 1 < self.max.x {
            Some(BlockPos { x: (pos.x + 1) as i32, y: pos.y, z: pos.z })
        } else if pos.z + 1 < self.max.z {
            Some(BlockPos { x: self.min.x, y: pos.y, z: (pos.z + 1) as i32 })
        } else if pos.y + 1 < self.max.y {
            Some(BlockPos { x: self.min.x, y: (pos.y + 1) as i32, z: self.min.z })
        } else {
            None
        }
    }

    /// Tells whether `pos` lies in the range.
    pub fn has(&self, pos: &BlockPos) -> (b: bool)
        ensures
            b == self.contains(*pos),
    {
        self.min.x <= pos.x && pos.x < self.max.x && self.min.y <= pos.y && pos.y < self.max.y
            && self.min.z <= pos.z && pos.z < self.max.z
    }

    /// The first position of the walk through the range, if the range
    /// holds any.
    pub fn first(&self) -> (r: Option<BlockPos>)
        ensures
            r == if self.is_void() {
                None
            } else {
                Some(self.min)
            },
    {
        if self.min.x >= self.max.x || self.min.y >= self.max.y || self.min.z >= self.max.z {
            None
        } else {
            Some(self.min)
        }
    }

    /// The position of the walk that follows `pos`, or `None` after the
    /// last one.
    pub fn next_after(&self, pos: &BlockPos) -> (r: Option<BlockPos>)
        ensures
            r == self.successor(*pos),
    {
        if pos.x < i32::MAX && pos.x + 1 < self.max.x {
            Some(BlockPos { x: pos.x + 1, y: pos.y, z: pos.z })
        } else if pos.z < i32::MAX && pos.z + 1 < self.max.z {
            Some(BlockPos { x: self.min.x, y: pos.y, z: pos.z + 1 })
        } else if pos.y < i32::MAX && pos.y + 1 < self.max.y {
            Some(BlockPos { x: self.min.x, y: pos.y + 1, z: self.min.z })
        } else {
            None
        }
    }
}

/// `a` is visited before `b` in the walk through a range: its layer is
/// lower, or in the same layer its row, or in the same row its column.
pub open spec fn visited_before(a: BlockPos, b: BlockPos) -> bool {
    a.y < b.y || (a.y == b.y && (a.z < b.z || (a.z == b.z && a.x < b.x)))
}

/// The walk through a range visits every position once: the successor of a
/// position of the range is the very next position of the range in the
/// order of the walk, and the position without successor is the last.
pub proof fn lemma_walk_is_complete(range: BlockRange, pos: BlockPos, other: BlockPos)
    requires
        range.contains(pos),
        range.contains(other),
    ensures
        match range.successor(pos) {
            Some(next) => {
                &&& range.contains(next)
                &&& visited_before(pos, next)
                &&& visited_before(pos, other) ==> other == next || visited_before(next, other)
            },
            None => !visited_before(pos, other),
        },
{
}

/// `a` is `b` or is visited before it.
pub open spec fn visited_no_later(a: BlockPos, b: BlockPos) -> bool {
    a == b || visited_before(a, b)
}

impl BlockRange {
    /// The positions of the walk through the range from `pos` on.
    pub open spec fn walk_from(self, pos: BlockPos) -> Seq<BlockPos>
        decreases self.max.y - pos.y, self.max.z - pos.z, self.max.x - pos.x,
    {
        if !self.contains(pos) {
            Seq::empty()
        } else {
            match self.successor(pos) {
                Some(next) => seq![pos] + self.walk_from(next),
                None => seq![pos],
            }
        }
    }

    /// The positions of the range in the order of the walk: layer by layer
    /// from the lowest, in each layer row by row, in each row block by
    /// block.
    pub open spec fn walk(self) -> Seq<BlockPos> {
        if self.is_void() {
            Seq::empty()
        } else {
            self.walk_from(self.min)
        }
    }

    /// The positions of the range in the order of the walk.
    pub fn positions(&self) -> (list: Vec<BlockPos>)
        ensures
            list@ == self.walk(),
    {
        let mut list: Vec<BlockPos> = Vec::new();
        let mut next = self.first();
        while next.is_some()
            invariant
                match next {
                    Some(pos) => self.contains(pos) && list@ + self.walk_from(pos) == self.walk(),
                    None => list@ == self.walk(),
                },
            decreases
                    (match next {
                        Some(pos) => self.max.y - pos.y + 1,
                        None => 0,
                    }),
                    (match next {
                        Some(pos) => self.max.z - pos.z,
                        None => 0,
                    }),
                    (match next {
                        Some(pos) => self.max.x - pos.x,
                        None => 0,
                    }),
        {
            let pos = next.unwrap();
            let ghost before = list@;
            list.push(pos);
            next = self.next_after(&pos);
            proof {
                match next {
                    Some(n) => {
                        assert(list@ + self.walk_from(n) =~= before + self.walk_from(pos));
                    },
                    None => {
                        assert(list@ =~= before + self.walk_from(pos));
                    },
                }
            }
        }
        list
    }
}

/// The walk from a position of the range starts there, stays in the range,
/// and never comes back to where it started.
pub proof fn lemma_walk_from_ascends(range: BlockRange, pos: BlockPos)
    requires
        range.contains(pos),
    ensures
        range.walk_from(pos).len() >= 1,
        range.walk_from(pos)[0] == pos,
        forall|i: int|
            0 <= i < range.walk_from(pos).len() ==> range.contains(
                #[trigger] range.walk_from(pos)[i],
            ),
        forall|i: int|
            0 < i < range.walk_from(pos).len() ==> visited_before(
                pos,
                #[trigger] range.walk_from(pos)[i],
            ),
        forall|i: int, j: int|
            0 <= i < j < range.walk_from(pos).len() ==> visited_before(
                #[trigger] range.walk_from(pos)[i],
                #[trigger] range.walk_from(pos)[j],
            ),
    decreases range.max.y - pos.y, range.max.z - pos.z, range.max.x - pos.x,
{
    match range.successor(pos) {
        Some(next) => {
            lemma_walk_from_ascends(range, next);
            let rest = range.walk_from(next);
            let all = range.walk_from(pos);
            assert(all =~= seq![pos] + rest);
            assert forall|i: int| 0 < i < all.len() implies visited_before(
                pos,
                #[trigger] all[i],
            ) by {
                assert(all[i] == rest[i - 1]);
                assert(visited_no_later(next, rest[i - 1]));
            }
            assert forall|i: int, j: int| 0 <= i < j < all.len() implies visited_before(
                #[trigger] all[i],
                #[trigger] all[j],
            ) by {
                assert(all[j] == rest[j - 1]);
                if i > 0 {
                    assert(all[i] == rest[i - 1]);
                }
            }
        },
        None => {},
    }
}

/// The walk from a position of the range comes to every position of the
/// range that is not visited before it.
pub proof fn lemma_walk_from_reaches(range: BlockRange, pos: BlockPos, target: BlockPos)
    requires
        range.contains(pos),
        range.contains(target),
        visited_no_later(pos, target),
    ensures
        range.walk_from(pos).contains(target),
    decreases range.max.y - pos.y, range.max.z - pos.z, range.max.x - pos.x,
{
    let all = range.walk_from(pos);
    if pos == target {
        lemma_walk_from_ascends(range, pos);
        assert(all[0] == target);
    } else {
        lemma_walk_is_complete(range, pos, target);
        let next = range.successor(pos).unwrap();
        lemma_walk_from_reaches(range, next, target);
        let rest = range.walk_from(next);
        let k = choose|k: int| 0 <= k < rest.len() && rest[k] == target;
        assert(all =~= seq![pos] + rest);
        assert(all[k + 1] == target);
    }
}

/// The walk through a range visits every position of the range, each once,
/// and no other position.
pub proof fn lemma_walk_visits_the_range(range: BlockRange)
    ensures
        forall|i: int| 0 <= i < range.walk().len() ==> range.contains(#[trigger] range.walk()[i]),
        forall|i: int, j: int|
            0 <= i < j < range.walk().len() ==> visited_before(
                #[trigger] range.walk()[i],
                #[trigger] range.walk()[j],
            ) && range.walk()[i] != range.walk()[j],
        forall|pos: BlockPos| range.contains(pos) ==> #[trigger] range.walk().contains(pos),
{
    if !range.is_void() {
        lemma_walk_from_ascends(range, range.min);
        assert forall|pos: BlockPos| range.contains(pos) implies #[trigger] range.walk().contains(
            pos,
        ) by {
            lemma_walk_from_reaches(range, range.min, pos);
        }
    }
}

/// The block range to search for a box that wants to move: the swept
/// volume, padded by one block on every face and widened to whole blocks.
pub open spec fn search_range_of(entity_box: BoxModel, movement: VectorModel) -> BlockRange {
    let swept = entity_box.expand_towards(movement.x, movement.y, movement.z);
    BlockRange {
        min: BlockPos {
            x: saturate_i32(floor_blocks(swept.min.x - UNITS_PER_BLOCK)) as i32,
            y: saturate_i32(floor_blocks(swept.min.y - UNITS_PER_BLOCK)) as i32,
            z: saturate_i32(floor_blocks(swept.min.z - UNITS_PER_BLOCK)) as i32,
        },
        max: BlockPos {
            x: saturate_i32(ceil_blocks(swept.max.x + UNITS_PER_BLOCK)) as i32,
            y: saturate_i32(ceil_blocks(swept.max.y + UNITS_PER_BLOCK)) as i32,
            z: saturate_i32(ceil_blocks(swept.max.z + UNITS_PER_BLOCK)) as i32,
        },
    }
}

/// The unit cube of the block at `pos`, in world coordinates.
pub open spec fn cell_of(pos: BlockPos) -> BoxModel {
    BoxModel {
        min: pos.origin(),
        max: VectorModel {
            x: pos.origin().x + UNITS_PER_BLOCK,
            y: pos.origin().y + UNITS_PER_BLOCK,
            z: pos.origin().z + UNITS_PER_BLOCK,
        },
    }
}

/// The search range misses nothing: a block whose cell overlaps the volume
/// that the movement sweeps lies in the range, as long as the swept volume
/// stays within the block grid.
pub proof fn lemma_search_range_covers(entity_box: BoxModel, movement: VectorModel, pos: BlockPos)
    requires
        cell_of(pos).intersects(entity_box.expand_towards(movement.x, movement.y, movement.z)),
        entity_box.expand_towards(movement.x, movement.y, movement.z).within(
            (i32::MAX - 1) * UNITS_PER_BLOCK,
        ),
    ensures
        search_range_of(entity_box, movement).contains(pos),
{
}

/// The search range is no wider than needed: every block in it lies within
/// two blocks of the swept volume, as long as the swept volume stays within
/// the block grid.
pub proof fn lemma_search_range_is_tight(entity_box: BoxModel, movement: VectorModel, pos: BlockPos)
    requires
        search_range_of(entity_box, movement).contains(pos),
        entity_box.expand_towards(movement.x, movement.y, movement.z).within(
            (i32::MAX - 1) * UNITS_PER_BLOCK,
        ),
    ensures
        ({
            let swept = entity_box.expand_towards(movement.x, movement.y, movement.z);
            let padded = BoxModel {
                min: VectorModel {
                    x: swept.min.x - 2 * UNITS_PER_BLOCK,
                    y: swept.min.y - 2 * UNITS_PER_BLOCK,
                    z: swept.min.z - 2 * UNITS_PER_BLOCK,
                },
                max: VectorModel {
                    x: swept.max.x + 2 * UNITS_PER_BLOCK,
                    y: swept.max.y + 2 * UNITS_PER_BLOCK,
                    z: swept.max.z + 2 * UNITS_PER_BLOCK,
                },
            };
            cell_of(pos).intersects(padded)
        }),
{
}

/// `b` is the box of one of the first `n` entities other than the entity
/// `entity_id`.
pub open spec fn is_candidate_box(
    entities: Seq<EntityHandle>,
    n: int,
    entity_id: i32,
    b: BoundingBox,
) -> bool {
    exists|i: int|
        0 <= i < n && is_candidate(#[trigger] entities[i], entity_id) && entities[i].bounding_box
            == b
}

/// Every box that the entity query returns is the box of an entity other
/// than the entity itself, and there are no more boxes than entities.
pub proof fn lemma_entity_collisions_are_candidates(
    entities: Seq<EntityHandle>,
    n: int,
    entity_id: i32,
)
    requires
        0 <= n <= entities.len(),
    ensures
        forall|k: int|
            0 <= k < entity_collisions(entities, n, entity_id).len() ==> is_candidate_box(
                entities,
                n,
                entity_id,
                #[trigger] entity_collisions(entities, n, entity_id)[k],
            ),
        entity_collisions(entities, n, entity_id).len() <= n,
    decreases n,
{
    if n > 0 {
        lemma_entity_collisions_are_candidates(entities, n - 1, entity_id);
        let before = entity_collisions(entities, n - 1, entity_id);
        let now = entity_collisions(entities, n, entity_id);
        assert forall|k: int| 0 <= k < now.len() implies is_candidate_box(
            entities,
            n,
            entity_id,
            #[trigger] now[k],
        ) by {
            if k < before.len() {
                let i = choose|i: int|
                    0 <= i < n - 1 && is_candidate(#[trigger] entities[i], entity_id)
                        && entities[i].bounding_box == before[k];
                assert(is_candidate(entities[i], entity_id));
            } else {
                assert(is_candidate(entities[n - 1], entity_id));
            }
        }
    }
}

/// The boxes of a block state, as mathematical boxes.
pub open spec fn state_boxes(state: BlockState) -> Seq<BoxModel> {
    Seq::new(state.collision_shapes@.len(), |i: int| state.collision_shapes@[i]@)
}

/// The shape with which a looked-up block obstructs, if it does: nothing
/// for a block that is missing or not solid, the full cube for a solid
/// block without sub-boxes, else the partial shape of its sub-boxes.
pub open spec fn obstruction_of(state: Option<BlockState>) -> Option<ShapeModel> {
    match state {
        None => None,
        Some(s) => if !s.is_solid {
            None
        } else if s.collision_shapes@.len() == 0 {
            Some(full_cube_model())
        } else {
            Some(
                ShapeModel {
                    boxes: state_boxes(s),
                    collision_type: crate::voxel_shape::CollisionType::Partial,
                },
            )
        },
    }
}

/// The shape of a block that fills its whole cell.
pub open spec fn full_cube_model() -> ShapeModel {
    ShapeModel { boxes: seq![unit_cube()], collision_type: crate::voxel_shape::CollisionType::Full }
}

/// The obstructing blocks among the first `n` samples, in their order, each
/// with its position.
pub open spec fn potential_shapes(samples: Seq<BlockSample>, n: int) -> Seq<(BlockPos, ShapeModel)>
    decreases n,
{
    if n <= 0 {
        Seq::empty()
    } else {
        let before = potential_shapes(samples, n - 1);
        match obstruction_of(samples[n - 1].state) {
            Some(shape) => before.push((samples[n - 1].pos, shape)),
            None => before,
        }
    }
}

/// The blocks at `positions` as they were looked up: each with what
/// `states` holds for it, and unavailable where `states` holds nothing.
pub open spec fn sampled(positions: Seq<BlockPos>, states: Seq<Option<BlockState>>) -> Seq<
    BlockSample,
> {
    Seq::new(
        positions.len(),
        |i: int|
            BlockSample {
                pos: positions[i],
                state: if i < states.len() {
                    states[i]
                } else {
                    None
                },
            },
    )
}

/// The positions and shapes that a list of placed shapes stands for.
pub open spec fn placed_models(shapes: Seq<(BlockPos, VoxelShape)>) -> Seq<(BlockPos, ShapeModel)> {
    Seq::new(shapes.len(), |i: int| (shapes[i].0, shapes[i].1@))
}

/// An entity is a candidate for a collision with the entity `entity_id`
/// when it is not that entity itself.
pub open spec fn is_candidate(e: EntityHandle, entity_id: i32) -> bool {
    e.entity_id != entity_id
}

/// The boxes of the candidates among the first `n` of `entities`, in their
/// order.
pub open spec fn entity_collisions(
    entities: Seq<EntityHandle>,
    n: int,
    entity_id: i32,
) -> Seq<BoundingBox>
    decreases n,
{
    if n <= 0 {
        Seq::empty()
    } else {
        let before = entity_collisions(entities, n - 1, entity_id);
        if is_candidate(entities[n - 1], entity_id) {
            before.push(entities[n - 1].bounding_box)
        } else {
            before
        }
    }
}

pub struct CollisionUtil;

impl CollisionUtil {
    /// The slab below `bounding_box` through which a fall of `dy` passes,
    /// for a negative `dy`.
    pub fn cut_dawnwards(bounding_box: &BoundingBox, dy: i64) -> (b: BoundingBox)
        requires
            bounding_box@.cut_downwards(dy as int).representable(),
        ensures
            b@ == bounding_box@.cut_downwards(dy as int),
    {
        BoundingBox::new(
            Vector3::new(
                bounding_box.min.x,
                bounding_box.min.y + dy,  // dy is negative
                bounding_box.min.z,
            ),
            Vector3::new(bounding_box.max.x, bounding_box.min.y, bounding_box.max.z),
        )
    }

    /// The slab above `bounding_box` through which a rise of `dy` passes,
    /// for a positive `dy`.
    pub fn cut_upwards(bounding_box: &BoundingBox, dy: i64) -> (b: BoundingBox)
        requires
            bounding_box@.cut_upwards(dy as int).representable(),
        ensures
            b@ == bounding_box@.cut_upwards(dy as int),
    {
        BoundingBox::new(
            Vector3::new(bounding_box.min.x, bounding_box.max.y, bounding_box.min.z),
            Vector3::new(
                bounding_box.max.x,
                bounding_box.max.y + dy,  // dy is positive
                bounding_box.max.z,
            ),
        )
    }

    /// The block range in which blocks can obstruct `entity_box` on its
    /// way by `movement`. Coordinates beyond the `i32` range are limited to
    /// it.
    pub fn search_range(entity_box: &BoundingBox, movement: &Vector3) -> (r: BlockRange)
        requires
            entity_box@.within(COORD_LIMIT as int),
            movement@.within(COORD_LIMIT as int),
        ensures
            r == search_range_of(entity_box@, movement@),
    {
        let expanded_box = entity_box.expand_towards(movement.x, movement.y, movement.z);
        let min_block_x = block_floor(expanded_box.min.x - UNITS_PER_BLOCK);
        let min_block_y = block_floor(expanded_box.min.y - UNITS_PER_BLOCK);
        let min_block_z = block_floor(expanded_box.min.z - UNITS_PER_BLOCK);
        let max_block_x = block_ceil(expanded_box.max.x + UNITS_PER_BLOCK);
        let max_block_y = block_ceil(expanded_box.max.y + UNITS_PER_BLOCK);
        let max_block_z = block_ceil(expanded_box.max.z + UNITS_PER_BLOCK);
        BlockRange {
            min: BlockPos::new(min_block_x, min_block_y, min_block_z),
            max: BlockPos::new(max_block_x, max_block_y, max_block_z),
        }
    }

    /// The shape with which one looked-up block obstructs, if it does.
    pub fn shape_of(state: &Option<BlockState>) -> (r: Option<VoxelShape>)
        ensures
            match r {
                Some(shape) => obstruction_of(*state) == Some(shape@) && shape.well_formed(),
                None => obstruction_of(*state).is_none(),
            },
    {
        match state {
            None => None,
            Some(block_state) => {
                if !block_state.is_solid {
                    None
                } else if block_state.collision_shapes.len() == 0 {
                    // If there aren't any collision shapes, we can add a full cube
                    let shape = VoxelShape::full_cube();
                    Some(shape)
                } else {
                    let collision_boxes = copy_boxes(&block_state.collision_shapes);
                    let shape = VoxelShape::from_boxes(collision_boxes);
                    Some(shape)
                }
            },
        }
    }

    /// The positions of the blocks that can obstruct `entity_box` on its way
    /// by `movement`: those of the search range, in the order of the walk.
    pub fn search_positions(entity_box: &BoundingBox, movement: &Vector3) -> (list: Vec<BlockPos>)
        requires
            entity_box@.within(COORD_LIMIT as int),
            movement@.within(COORD_LIMIT as int),
        ensures
            list@ == search_range_of(entity_box@, movement@).walk(),
    {
        CollisionUtil::search_range(entity_box, movement).positions()
    }

    /// The blocks that obstruct `entity_box` on its way by `movement`, each
    /// with its position and its shape relative to the block's corner.
    ///
    /// `states` holds what the world knows of the blocks of the search
    /// range, in the order of [`CollisionUtil::search_positions`]; a block
    /// for which it holds nothing counts as unavailable. The positions of
    /// the result are positions of the search range, in the order of the
    /// walk, none twice. A block that is unavailable or not solid
    /// contributes nothing; no shape of the result is empty.
    pub fn get_potential_shapes(
        entity_box: &BoundingBox,
        movement: &Vector3,
        states: &Vec<Option<BlockState>>,
    ) -> (shapes: Vec<(BlockPos, VoxelShape)>)
        requires
            entity_box@.within(COORD_LIMIT as int),
            movement@.within(COORD_LIMIT as int),
        ensures
            placed_models(shapes@) == potential_shapes(
                sampled(search_range_of(entity_box@, movement@).walk(), states@),
                search_range_of(entity_box@, movement@).walk().len() as int,
            ),
            forall|k: int|
                0 <= k < shapes@.len() ==> {
                    &&& search_range_of(entity_box@, movement@).contains((#[trigger] shapes@[k]).0)
                    &&& shapes@[k].1.well_formed()
                    &&& !(shapes@[k].1.collision_type is Empty)
                },
            forall|k: int, l: int|
                0 <= k < l < shapes@.len() ==> visited_before(
                    (#[trigger] shapes@[k]).0,
                    (#[trigger] shapes@[l]).0,
                ),
    {
        let positions = CollisionUtil::search_positions(entity_box, movement);
        let ghost range = search_range_of(entity_box@, movement@);
        let ghost samples = sampled(range.walk(), states@);
        proof {
            lemma_walk_visits_the_range(range);
        }
        let mut shapes: Vec<(BlockPos, VoxelShape)> = Vec::new();
        let mut i: usize = 0;
        while i < positions.len()
            invariant
                i <= positions@.len(),
                positions@ == range.walk(),
                samples == sampled(range.walk(), states@),
                placed_models(shapes@) == potential_shapes(samples, i as int),
                forall|k: int, l: int|
                    0 <= k < l < positions@.len() ==> visited_before(
                        #[trigger] positions@[k],
                        #[trigger] positions@[l],
                    ),
                forall|k: int| 0 <= k < positions@.len() ==> range.contains(#[trigger] positions@[k]),
                forall|k: int|
                    0 <= k < shapes@.len() ==> {
                        &&& range.contains((#[trigger] shapes@[k]).0)
                        &&& shapes@[k].1.well_formed()
                        &&& !(shapes@[k].1.collision_type is Empty)
                        &&& i < positions@.len() ==> visited_before(
                            shapes@[k].0,
                            positions@[i as int],
                        )
                    },
                forall|k: int, l: int|
                    0 <= k < l < shapes@.len() ==> visited_before(
                        (#[trigger] shapes@[k]).0,
                        (#[trigger] shapes@[l]).0,
                    ),
            decreases positions@.len() - i,
        {
            let pos = positions[i];
            let found = if i < states.len() {
                CollisionUtil::shape_of(&states[i])
            } else {
                None
            };
            assert(samples[i as int].pos == pos);
            assert(samples[i as int].state == if i < states@.len() {
                states@[i as int]
            } else {
                None
            });
            if let Some(shape) = found {
                let ghost before = shapes@;
                shapes.push((pos, shape));
                assert(placed_models(shapes@) =~= placed_models(before).push((pos, shape@)));
            }
            i += 1;
        }
        shapes
    }

    /// The boxes of the entities that can obstruct the entity `entity_id`.
    /// `entities` are the entities that the world has found to overlap the
    /// box of the entity; all of them but the entity itself obstruct, and
    /// their boxes are returned in their order.
    pub fn get_entity_collisions(entities: &Vec<EntityHandle>, entity_id: i32) -> (boxes: Vec<
        BoundingBox,
    >)
        ensures
            boxes@ == entity_collisions(entities@, entities@.len() as int, entity_id),
    {
        let mut boxes: Vec<BoundingBox> = Vec::new();
        let mut i: usize = 0;
        while i < entities.len()
            invariant
                i <= entities@.len(),
                boxes@ == entity_collisions(entities@, i as int, entity_id),
            decreases entities@.len() - i,
        {
            let entity = &entities[i];
            if entity.entity_id != entity_id {
                boxes.push(entity.bounding_box);
            }
            i += 1;
        }
        boxes
    }
}

} // verus!
