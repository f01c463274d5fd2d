//! The kinetic state of an entity and the operations that a tick applies to
//! it: the stuck-speed override, the committed move with its ground and fall
//! accounting, gravity and fluid drag, and knockback.
use crate::boundingbox::{BoundingBox, BoxModel, EntityDimensions};
use crate::fixed::{
    block_floor, ceil_blocks, ceil_to_blocks, floor_blocks, floor_sqrt, floor_sqrt_of,
    lemma_floor_sqrt_exists,
    floor_to_blocks, half, half_of, lemma_product_shrinks, lesser, magnitude, product, ratio,
    representable, saturate_i32, scaled_product, unit_ratio, within, COORD_LIMIT,
    DEGENERATE_SQUARED, NEGLIGIBLE_SQUARED, UNITS_PER_BLOCK,
};
use crate::movement::{
    box_models, can_resolve, lemma_shorter_movement_is_resolvable, resolvable, resolve_collision,
    resolved_movement, shape_models, shortened_on_every_axis,
};
use crate::vector3::{BlockPos, Vector3, VectorModel};
use crate::voxel_shape::{ShapeModel, VoxelShape};
use vstd::prelude::*;

verus! {

/// A fall of up to this many units (3 blocks) does no damage.
pub const SAFE_FALL_DISTANCE: i64 = 3_000_000_000;

/// A landing after a fall of more than this many whole blocks sounds heavy.
pub const HEAVY_FALL_BLOCKS: i64 = 4;

/// Largest width or height of an entity, in units.
pub const DIMENSION_LIMIT: i64 = 100_000_000_000_000_000;

/// Knockback never lifts an entity on the ground faster than this many
/// units per tick (0.4 blocks).
pub const KNOCKBACK_MAX_RISE: i64 = 400_000_000;

/// Each component of the direction that replaces a degenerate knockback
/// direction has a magnitude below this many units (0.01 blocks).
pub const SUBSTITUTE_BOUND: i64 = 10_000_000;

/// The most directions that are drawn in search of a substitute.
pub const SUBSTITUTE_DRAWS: u32 = 64;

/// Horizontal drag in water, per tick (0.99).
pub const WATER_DRAG: i64 = 990_000_000;

/// Horizontal drag in lava, per tick (0.95).
pub const LAVA_DRAG: i64 = 950_000_000;

/// An entity in a fluid that rises more slowly than this many units per
/// tick (0.06 blocks) is sinking.
pub const SINKING_SPEED: i64 = 60_000_000;

/// The upward nudge that a sinking entity gets in a fluid, per tick
/// (0.0005 blocks).
pub const BUOYANCY: i64 = 500_000;

/// What the block at an entity's feet is, as far as movement cares.
#[derive(Clone, Copy, Debug, PartialEq, Eq)]
pub enum Medium {
    Air,
    Water,
    Lava,
}

/// The sound of a landing.
#[derive(Clone, Copy, Debug, PartialEq, Eq)]
pub enum LandingSound {
    SmallFall,
    BigFall,
}

/// Why a movement was not made.
#[derive(Clone, Copy, Debug, PartialEq, Eq)]
pub enum MovementError {
    /// A position, a movement or an obstruction lies beyond the range in
    /// which the arithmetic is exact.
    OutOfRange,
}

/// A landing that hurts: the fall damage to apply, in units of health, and
/// the sound to play if the entity takes the damage.
#[derive(Clone, Copy, Debug, PartialEq, Eq)]
pub struct Landing {
    pub damage: i64,
    pub sound: LandingSound,
}

/// The damage of a fall over `distance` units: one point of health for
/// every block, or part of a block, beyond the safe distance.
pub open spec fn fall_damage(distance: int) -> int {
    if distance > SAFE_FALL_DISTANCE {
        ceil_blocks(distance - SAFE_FALL_DISTANCE) * UNITS_PER_BLOCK
    } else {
        0
    }
}

/// The sound of a landing after a fall over `distance` units.
pub open spec fn landing_sound(distance: int) -> LandingSound {
    if floor_blocks(distance) > HEAVY_FALL_BLOCKS {
        LandingSound::BigFall
    } else {
        LandingSound::SmallFall
    }
}

/// What a landing after a fall over `distance` units asks for: nothing for
/// an exempt entity or a fall within the safe distance.
pub open spec fn landing_after(distance: int, exempt: bool) -> Option<Landing> {
    if distance > 0 && !exempt && distance > SAFE_FALL_DISTANCE {
        Some(Landing { damage: fall_damage(distance) as i64, sound: landing_sound(distance) })
    } else {
        None
    }
}

/// The movement after the stuck-speed override: multiplied componentwise by
/// a multiplier that is not negligible, else unchanged.
pub open spec fn stuck_adjusted(multiplier: VectorModel, movement: VectorModel) -> VectorModel {
    if multiplier.length_squared() >= NEGLIGIBLE_SQUARED {
        movement.times(multiplier)
    } else {
        movement
    }
}

/// The horizontal unit vector along `(dx, dz)`, as a pair of fixed-point
/// scalars. The direction without length has the unit vector zero.
pub open spec fn horizontal_unit(dx: int, dz: int) -> (int, int) {
    let length = floor_sqrt(dx * dx + dz * dz);
    if length == 0 {
        (0, 0)
    } else {
        (ratio(dx, length), ratio(dz, length))
    }
}

/// The velocity after a knockback of the given strength along `(dx, dz)`:
/// the horizontal velocity is halved and pushed against the direction; an
/// entity on the ground is also lifted, up to a cap.
pub open spec fn knocked_back(
    velocity: VectorModel,
    on_ground: bool,
    strength: int,
    dx: int,
    dz: int,
) -> VectorModel {
    let unit = horizontal_unit(dx, dz);
    VectorModel {
        x: half(velocity.x) - product(unit.0, strength),
        y: if on_ground {
            lesser(half(velocity.y) + strength, KNOCKBACK_MAX_RISE as int)
        } else {
            velocity.y
        },
        z: half(velocity.z) - product(unit.1, strength),
    }
}

/// A knockback direction is degenerate when it is too short to normalise.
pub open spec fn degenerate(dx: int, dz: int) -> bool {
    dx * dx + dz * dz < DEGENERATE_SQUARED
}

/// The direction `(sx, sz)` can stand in for a degenerate one: each
/// component is below the bound in magnitude, and the direction is not
/// degenerate itself, so it is not zero.
pub open spec fn is_substitute(sx: int, sz: int) -> bool {
    &&& -SUBSTITUTE_BOUND < sx < SUBSTITUTE_BOUND
    &&& -SUBSTITUTE_BOUND < sz < SUBSTITUTE_BOUND
    &&& !degenerate(sx, sz)
}

/// One component of the direction that stands in for a degenerate one,
/// from two draws of a random source.
pub open spec fn substitute_component(a: u32, b: u32) -> int {
    (a as int % SUBSTITUTE_BOUND as int) - (b as int % SUBSTITUTE_BOUND as int)
}

/// The velocity after a tick in the given medium: drag and buoyancy in a
/// fluid, gravity elsewhere.
pub open spec fn medium_applied(velocity: VectorModel, medium: Medium, gravity: int) -> VectorModel {
    match medium {
        Medium::Air => VectorModel { x: velocity.x, y: velocity.y - gravity, z: velocity.z },
        Medium::Water => fluid_applied(velocity, WATER_DRAG as int),
        Medium::Lava => fluid_applied(velocity, LAVA_DRAG as int),
    }
}

/// The velocity after a tick in a fluid with the given horizontal drag.
pub open spec fn fluid_applied(velocity: VectorModel, multiplier: int) -> VectorModel {
    VectorModel {
        x: product(velocity.x, multiplier),
        y: velocity.y + if velocity.y < SINKING_SPEED {
            BUOYANCY as int
        } else {
            0
        },
        z: product(velocity.z, multiplier),
    }
}

/// Draws a number from the thread-local generator with `rand::random`.
/// Nothing is claimed of the value: every `u32` can come back.
#[verifier::external_body]
fn random_draw() -> u32 {
    rand::random::<u32>()
}

/// Tells whether the direction `(dx, dz)` is degenerate.
pub fn is_degenerate(dx: i64, dz: i64) -> (b: bool)
    ensures
        b == degenerate(dx as int, dz as int),
{
    let xx: u128 = crate::fixed::square_of(dx);
    let zz: u128 = crate::fixed::square_of(dz);
    xx + zz < DEGENERATE_SQUARED
}

/// The direction that two drawn components give, if it can stand in for a
/// degenerate direction: a drawn direction that is itself degenerate cannot.
pub fn usable_substitute(x: i64, z: i64) -> (d: Option<(i64, i64)>)
    requires
        -SUBSTITUTE_BOUND < x < SUBSTITUTE_BOUND,
        -SUBSTITUTE_BOUND < z < SUBSTITUTE_BOUND,
    ensures
        d == if degenerate(x as int, z as int) {
            None
        } else {
            Some((x, z))
        },
        d matches Some(s) ==> is_substitute(s.0 as int, s.1 as int),
{
    if is_degenerate(x, z) {
        None
    } else {
        Some((x, z))
    }
}

/// The direction that stands in where no draw gave a usable one.
pub fn last_resort() -> (d: (i64, i64))
    ensures
        d.0 == SUBSTITUTE_BOUND - 1,
        d.1 == 0,
        is_substitute(d.0 as int, d.1 as int),
{
    assert((SUBSTITUTE_BOUND - 1) * (SUBSTITUTE_BOUND - 1) + 0 * 0 >= DEGENERATE_SQUARED)
        by (nonlinear_arith);
    (SUBSTITUTE_BOUND - 1, 0)
}

/// Draws a direction to stand in for a degenerate one. Directions are drawn
/// until one is no degenerate direction itself, at most
/// [`SUBSTITUTE_DRAWS`] times; should every draw fail, the last resort
/// stands in.
pub fn draw_substitute() -> (d: (i64, i64))
    ensures
        is_substitute(d.0 as int, d.1 as int),
{
    let mut attempts: u32 = 0;
    while attempts < SUBSTITUTE_DRAWS
        invariant
            attempts <= SUBSTITUTE_DRAWS,
        decreases SUBSTITUTE_DRAWS - attempts,
    {
        let x = substitute_from(random_draw(), random_draw());
        let z = substitute_from(random_draw(), random_draw());
        match usable_substitute(x, z) {
            Some(d) => {
                return d;
            },
            None => {},
        }
        attempts += 1;
    }
    last_resort()
}

/// One component of a substitute direction from two draws; its magnitude
/// is below [`SUBSTITUTE_BOUND`].
pub fn substitute_from(a: u32, b: u32) -> (c: i64)
    ensures
        c == substitute_component(a, b),
        -SUBSTITUTE_BOUND < c < SUBSTITUTE_BOUND,
{
    let bound: u32 = 10_000_000;
    ((a % bound) as i64) - ((b % bound) as i64)
}

/// The horizontal unit vector along `(dx, dz)`.
pub fn horizontal_unit_of(dx: i64, dz: i64) -> (unit: (i64, i64))
    ensures
        unit.0 == horizontal_unit(dx as int, dz as int).0,
        unit.1 == horizontal_unit(dx as int, dz as int).1,
        within(unit.0 as int, UNITS_PER_BLOCK as int),
        within(unit.1 as int, UNITS_PER_BLOCK as int),
{
    let xx: u128 = crate::fixed::square_of(dx);
    let zz: u128 = crate::fixed::square_of(dz);
    let length: u64 = floor_sqrt_of(xx + zz);
    if length == 0 {
        (0, 0)
    } else {
        proof {
            let l = length as int;
            let mx = magnitude(dx as int);
            let mz = magnitude(dz as int);
            assert(mx * mx == dx * dx) by (nonlinear_arith)
                requires
                    mx == dx || mx == -dx,
            ;
            assert(mz * mz == dz * dz) by (nonlinear_arith)
                requires
                    mz == dz || mz == -dz,
            ;
            if mx > l {
                assert(mx * mx >= (l + 1) * (l + 1)) by (nonlinear_arith)
                    requires
                        mx >= l + 1,
                        l >= 0,
                ;
            }
            if mz > l {
                assert(mz * mz >= (l + 1) * (l + 1)) by (nonlinear_arith)
                    requires
                        mz >= l + 1,
                        l >= 0,
                ;
            }
        }
        (unit_ratio(dx, length), unit_ratio(dz, length))
    }
}

/// The mathematical state that a [`KineticState`] stands for.
pub struct KineticModel {
    pub entity_id: i32,
    pub pos: VectorModel,
    pub velocity: VectorModel,
    pub on_ground: bool,
    pub stuck_speed_multiplier: VectorModel,
    pub fall_distance: int,
    pub bounding_box: BoxModel,
    pub width: int,
    pub height: int,
}

impl KineticModel {
    /// The box of the entity when it stands at `pos`.
    pub open spec fn box_at(self, pos: VectorModel) -> BoxModel {
        BoxModel::from_center_dims(pos.x, pos.y, pos.z, self.width, self.height)
    }

    /// The dimensions are not negative, nothing has been fallen backwards,
    /// and the bounding box is the one that the position and the dimensions
    /// give.
    pub open spec fn consistent(self) -> bool {
        &&& 0 <= self.width <= DIMENSION_LIMIT
        &&& 0 <= self.height <= DIMENSION_LIMIT
        &&& 0 <= self.fall_distance
        &&& self.bounding_box == self.box_at(self.pos)
    }

    /// The state is consistent and every quantity lies within
    /// [`COORD_LIMIT`], so that one tick cannot overflow.
    pub open spec fn well_formed(self) -> bool {
        &&& self.consistent()
        &&& self.pos.within(COORD_LIMIT as int)
        &&& self.velocity.within(COORD_LIMIT as int)
        &&& self.stuck_speed_multiplier.within(COORD_LIMIT as int)
        &&& self.fall_distance <= COORD_LIMIT
    }

    /// The state with the entity moved to `pos` and its bounding box
    /// derived anew.
    pub open spec fn at(self, pos: VectorModel) -> KineticModel {
        KineticModel { pos, bounding_box: self.box_at(pos), ..self }
    }

    /// The state with the velocity `velocity`.
    pub open spec fn with_velocity(self, velocity: VectorModel) -> KineticModel {
        KineticModel { velocity, ..self }
    }

    /// The stuck-speed multiplier takes effect.
    pub open spec fn is_stuck(self) -> bool {
        self.stuck_speed_multiplier.length_squared() >= NEGLIGIBLE_SQUARED
    }

    /// The state after the stuck-speed override: a multiplier that takes
    /// effect is cleared, and the velocity with it.
    pub open spec fn stuck_consumed(self) -> KineticModel {
        if self.is_stuck() {
            KineticModel {
                stuck_speed_multiplier: VectorModel::zero(),
                velocity: VectorModel::zero(),
                ..self
            }
        } else {
            self
        }
    }

    /// The entity lands: a downward movement was blocked.
    pub open spec fn lands(desired: VectorModel, resolved: VectorModel) -> bool {
        resolved.y != desired.y && desired.y < 0
    }

    /// The state after the movement `resolved` has been committed, when
    /// `desired` was asked for. A collision absorbs the velocity along each
    /// blocked axis; the position advances by the resolved movement; the
    /// entity is on the ground exactly when it lands; a landing resets the
    /// fall distance, and a descent in the air adds to it.
    pub open spec fn committed(self, desired: VectorModel, resolved: VectorModel) -> KineticModel {
        KineticModel {
            velocity: VectorModel {
                x: if resolved.x != desired.x {
                    0
                } else {
                    self.velocity.x
                },
                y: if resolved.y != desired.y {
                    0
                } else {
                    self.velocity.y
                },
                z: if resolved.z != desired.z {
                    0
                } else {
                    self.velocity.z
                },
            },
            on_ground: Self::lands(desired, resolved),
            fall_distance: if Self::lands(desired, resolved) {
                0
            } else if desired.y < 0 {
                self.fall_distance - desired.y
            } else {
                self.fall_distance
            },
            ..self.at(self.pos.plus(resolved))
        }
    }

    /// What the landing asks for when the movement `resolved` is committed:
    /// the damage of the fall so far, if the entity lands.
    pub open spec fn landing(
        self,
        desired: VectorModel,
        resolved: VectorModel,
        exempt: bool,
    ) -> Option<Landing> {
        if Self::lands(desired, resolved) {
            landing_after(self.fall_distance, exempt)
        } else {
            None
        }
    }

    /// The movement that is handed to the collision resolution when
    /// `movement` is proposed.
    pub open spec fn desired(self, movement: VectorModel) -> VectorModel {
        stuck_adjusted(self.stuck_speed_multiplier, movement)
    }

    /// The movement that the entity makes when `movement` is proposed,
    /// against the given obstructions.
    pub open spec fn resolved(
        self,
        movement: VectorModel,
        shapes: Seq<(BlockPos, ShapeModel)>,
        entity_boxes: Seq<BoxModel>,
    ) -> VectorModel {
        resolved_movement(self.bounding_box, self.desired(movement), shapes, entity_boxes)
    }

    /// The state after one tick's movement: the stuck-speed override, the
    /// collision resolution, and the commit.
    pub open spec fn advanced(
        self,
        movement: VectorModel,
        shapes: Seq<(BlockPos, ShapeModel)>,
        entity_boxes: Seq<BoxModel>,
    ) -> KineticModel {
        self.stuck_consumed().committed(
            self.desired(movement),
            self.resolved(movement, shapes, entity_boxes),
        )
    }

    /// The movement that an entity of the kind `kind` hands to the collision
    /// resolution when `movement` is proposed: the stuck-speed override
    /// first, then the edge adjustment of the kind.
    pub open spec fn desired_as<K: EntityKind>(self, kind: &K, movement: VectorModel) -> VectorModel {
        kind.edge_adjusted(self.stuck_consumed(), self.desired(movement))
    }

    /// The movement that an entity of the kind `kind` makes when `movement`
    /// is proposed, against the given obstructions.
    pub open spec fn resolved_as<K: EntityKind>(
        self,
        kind: &K,
        movement: VectorModel,
        shapes: Seq<(BlockPos, ShapeModel)>,
        entity_boxes: Seq<BoxModel>,
    ) -> VectorModel {
        resolved_movement(self.bounding_box, self.desired_as(kind, movement), shapes, entity_boxes)
    }

    /// The state of an entity of the kind `kind` after one tick's movement:
    /// the stuck-speed override, the edge adjustment of the kind, the
    /// collision resolution, and the commit.
    pub open spec fn advanced_as<K: EntityKind>(
        self,
        kind: &K,
        movement: VectorModel,
        shapes: Seq<(BlockPos, ShapeModel)>,
        entity_boxes: Seq<BoxModel>,
    ) -> KineticModel {
        self.stuck_consumed().committed(
            self.desired_as(kind, movement),
            self.resolved_as(kind, movement, shapes, entity_boxes),
        )
    }

    /// The arguments on which one tick's movement is free of overflow.
    pub open spec fn can_advance(
        self,
        movement: VectorModel,
        shapes: Seq<(BlockPos, ShapeModel)>,
        entity_boxes: Seq<BoxModel>,
    ) -> bool {
        &&& self.well_formed()
        &&& self.desired(movement).representable()
        &&& resolvable(self.bounding_box, self.desired(movement), shapes, entity_boxes)
    }
}

/// What the kind of an entity decides about its movement.
pub trait EntityKind {
    /// The movement that an entity of this kind in the state `state` makes
    /// of `movement` so as not to leave an edge. A kind that says nothing
    /// else leaves the movement as it is.
    open spec fn edge_adjusted(&self, state: KineticModel, movement: VectorModel) -> VectorModel {
        movement
    }

    /// The movement that an entity of this kind makes of `movement` so as not
    /// to leave an edge. It is applied after the stuck-speed override and
    /// before the movement is clamped.
    ///
    /// A kind only ever shrinks the movement: on every axis the adjusted
    /// movement points the way of the given one and is no longer. Most
    /// kinds leave the movement as it is.
    fn adjust_movement_for_edges(&self, state: &KineticState, movement: Vector3) -> (adjusted:
        Vector3)
        ensures
            adjusted@ == self.edge_adjusted(state@, movement@),
            shortened_on_every_axis(adjusted@, movement@),
    ;
}

/// The kind of most entities: it adjusts nothing.
#[derive(Clone, Copy, Debug, PartialEq, Eq)]
pub struct PlainKind;

impl EntityKind for PlainKind {
    /// The plain kind leaves the movement as it is.
    fn adjust_movement_for_edges(&self, state: &KineticState, movement: Vector3) -> (adjusted:
        Vector3)
        ensures
            adjusted == movement,
    {
        movement
    }
}

/// The position, velocity and contact state of one entity. It belongs to
/// the entity alone and changes only in the entity's own tick.
#[derive(Clone, Copy, Debug, PartialEq, Eq)]
pub struct KineticState {
    pub entity_id: i32,
    pub pos: Vector3,
    pub velocity: Vector3,
    pub on_ground: bool,
    /// One-shot override of the next movement; zero when there is none.
    pub stuck_speed_multiplier: Vector3,
    /// Distance fallen since the last contact with the ground, in units.
    pub fall_distance: i64,
    /// The entity's box at `pos`.
    pub bounding_box: BoundingBox,
    pub dimensions: EntityDimensions,
}

impl View for KineticState {
    type V = KineticModel;

    open spec fn view(&self) -> KineticModel {
        KineticModel {
            entity_id: self.entity_id,
            pos: self.pos@,
            velocity: self.velocity@,
            on_ground: self.on_ground,
            stuck_speed_multiplier: self.stuck_speed_multiplier@,
            fall_distance: self.fall_distance as int,
            bounding_box: self.bounding_box@,
            width: self.dimensions.width as int,
            height: self.dimensions.height as int,
        }
    }
}

impl KineticState {
    /// Tells whether the state is well formed.
    pub fn is_well_formed(&self) -> (b: bool)
        ensures
            b == self@.well_formed(),
    {
        if !(0 <= self.dimensions.width && self.dimensions.width <= DIMENSION_LIMIT && 0
            <= self.dimensions.height && self.dimensions.height <= DIMENSION_LIMIT && 0
            <= self.fall_distance && self.fall_distance <= COORD_LIMIT) {
            return false;
        }
        if !(self.pos.is_within(COORD_LIMIT) && self.velocity.is_within(COORD_LIMIT)
            && self.stuck_speed_multiplier.is_within(COORD_LIMIT)) {
            return false;
        }
        let expected = BoundingBox::from_center_dims(
            self.pos.x,
            self.pos.y,
            self.pos.z,
            self.dimensions.width,
            self.dimensions.height,
        );
        self.bounding_box.min.x == expected.min.x && self.bounding_box.min.y == expected.min.y
            && self.bounding_box.min.z == expected.min.z && self.bounding_box.max.x
            == expected.max.x && self.bounding_box.max.y == expected.max.y
            && self.bounding_box.max.z == expected.max.z
    }

    /// A resting entity of the given size at `pos`: no velocity, not on
    /// the ground, nothing fallen.
    pub fn new(entity_id: i32, pos: Vector3, dimensions: EntityDimensions) -> (s: KineticState)
        requires
            pos@.within(COORD_LIMIT as int),
            0 <= dimensions.width <= DIMENSION_LIMIT,
            0 <= dimensions.height <= DIMENSION_LIMIT,
        ensures
            s@.well_formed(),
            s.entity_id == entity_id,
            s.pos == pos,
            s.dimensions == dimensions,
            s.velocity@.is_zero(),
            s.stuck_speed_multiplier@.is_zero(),
            !s.on_ground,
            s.fall_distance == 0,
    {
        KineticState {
            entity_id,
            pos,
            velocity: Vector3::zero(),
            on_ground: false,
            stuck_speed_multiplier: Vector3::zero(),
            fall_distance: 0,
            bounding_box: BoundingBox::from_center_dims(
                pos.x,
                pos.y,
                pos.z,
                dimensions.width,
                dimensions.height,
            ),
            dimensions,
        }
    }

    /// The block in which the entity's feet are.
    pub fn block_pos(&self) -> (p: BlockPos)
        ensures
            p.x == saturate_i32(floor_blocks(self.pos.x as int)),
            p.y == saturate_i32(floor_blocks(self.pos.y as int)),
            p.z == saturate_i32(floor_blocks(self.pos.z as int)),
    {
        BlockPos::new(block_floor(self.pos.x), block_floor(self.pos.y), block_floor(self.pos.z))
    }

    /// The block on which the entity stands: the block in the column of
    /// its feet that lies `offset` below them.
    pub fn get_on_pos(&self, offset: i64) -> (p: BlockPos)
        requires
            representable(self.pos.y - offset),
        ensures
            p.x == saturate_i32(floor_blocks(self.pos.x as int)),
            p.y == saturate_i32(floor_blocks(self.pos.y - offset)),
            p.z == saturate_i32(floor_blocks(self.pos.z as int)),
    {
        BlockPos::new(
            block_floor(self.pos.x),
            block_floor(self.pos.y - offset),
            block_floor(self.pos.z),
        )
    }

    /// Moves the entity to `position` and derives its bounding box anew.
    pub fn set_pos(&mut self, position: Vector3)
        requires
            old(self)@.box_at(position@).representable(),
        ensures
            final(self)@ == old(self)@.at(position@),
    {
        self.pos = position;
        self.bounding_box =
        BoundingBox::from_center_dims(
            position.x,
            position.y,
            position.z,
            self.dimensions.width,
            self.dimensions.height,
        );
    }

    /// The stuck-speed override. A multiplier that is not negligible is
    /// consumed: the movement is multiplied by it componentwise, the
    /// multiplier is cleared and the stored velocity is zeroed. Returns the
    /// movement to go on with.
    pub fn consume_stuck_speed(&mut self, movement: Vector3) -> (adjusted: Vector3)
        requires
            old(self)@.desired(movement@).representable(),
        ensures
            adjusted@ == old(self)@.desired(movement@),
            final(self)@ == old(self)@.stuck_consumed(),
    {
        if self.stuck_speed_multiplier.length_squared() >= NEGLIGIBLE_SQUARED {
            let adjusted = movement.multiply(&self.stuck_speed_multiplier);
            self.stuck_speed_multiplier = Vector3 { x: 0, y: 0, z: 0 };
            self.velocity = Vector3 { x: 0, y: 0, z: 0 };
            adjusted
        } else {
            movement
        }
    }

    /// What a landing after a fall over `distance` units asks for.
    pub fn landing(distance: i64, exempt: bool) -> (r: Option<Landing>)
        ensures
            r == landing_after(distance as int, exempt),
    {
        if distance > 0 && !exempt && distance > SAFE_FALL_DISTANCE {
            let damage: i64 = ceil_to_blocks(distance - SAFE_FALL_DISTANCE) * UNITS_PER_BLOCK;
            let sound = if floor_to_blocks(distance) > HEAVY_FALL_BLOCKS {
                LandingSound::BigFall
            } else {
                LandingSound::SmallFall
            };
            Some(Landing { damage, sound })
        } else {
            None
        }
    }

    /// Commits a resolved movement. `desired` is the movement that was
    /// handed to the collision resolution, `resolved` what came back.
    ///
    /// A collision absorbs the velocity along each blocked axis. The
    /// position advances by the resolved movement. The entity is on the
    /// ground exactly when a downward movement was blocked. On the ground
    /// the fall distance is taken and reset, and the landing that it asks
    /// for is returned; in a fall the distance grows by the desired descent.
    pub fn commit_move(&mut self, desired: Vector3, resolved: Vector3, exempt: bool) -> (landing:
        Option<Landing>)
        requires
            old(self)@.well_formed(),
            desired@.within(2 * COORD_LIMIT),
            resolved@.within(2 * COORD_LIMIT),
        ensures
            final(self)@ == old(self)@.committed(desired@, resolved@),
            landing == old(self)@.landing(desired@, resolved@, exempt),
            final(self)@.consistent(),
    {
        if resolved.x != desired.x {
            self.velocity.x = 0;
        }
        if resolved.y != desired.y {
            self.velocity.y = 0;
        }
        if resolved.z != desired.z {
            self.velocity.z = 0;
        }
        let new_pos = self.pos.add(&resolved);
        self.set_pos(new_pos);
        self.on_ground = resolved.y != desired.y && desired.y < 0;
        if self.on_ground {
            let fallen = self.fall_distance;
            self.fall_distance = 0;
            KineticState::landing(fallen, exempt)
        } else {
            if desired.y < 0 {
                self.fall_distance = self.fall_distance - desired.y;
            }
            None
        }
    }

    /// Tells whether [`KineticState::advance_entity_tick`] can take these
    /// arguments.
    pub fn check_advance(
        &self,
        movement: &Vector3,
        block_shapes: &Vec<(BlockPos, VoxelShape)>,
        entity_boxes: &Vec<BoundingBox>,
    ) -> (ok: bool)
        ensures
            ok == self@.can_advance(
                movement@,
                shape_models(block_shapes@),
                box_models(entity_boxes@),
            ),
    {
        if !self.is_well_formed() {
            return false;
        }
        let adjusted = if self.stuck_speed_multiplier.length_squared() >= NEGLIGIBLE_SQUARED {
            match movement.checked_multiply(&self.stuck_speed_multiplier) {
                Some(v) => v,
                None => {
                    return false;
                },
            }
        } else {
            *movement
        };
        can_resolve(&self.bounding_box, &adjusted, block_shapes, entity_boxes)
    }

    /// The second half of a tick's movement, after the stuck-speed override
    /// and the edge adjustment of the entity's kind: resolves `movement`
    /// against the given obstructions and commits the result.
    pub fn finish_move(
        &mut self,
        movement: Vector3,
        block_shapes: &Vec<(BlockPos, VoxelShape)>,
        entity_boxes: &Vec<BoundingBox>,
        exempt: bool,
    ) -> (landing: Option<Landing>)
        requires
            old(self)@.well_formed(),
            resolvable(
                old(self)@.bounding_box,
                movement@,
                shape_models(block_shapes@),
                box_models(entity_boxes@),
            ),
        ensures
            ({
                let resolved = resolved_movement(
                    old(self)@.bounding_box,
                    movement@,
                    shape_models(block_shapes@),
                    box_models(entity_boxes@),
                );
                &&& final(self)@ == old(self)@.committed(movement@, resolved)
                &&& landing == old(self)@.landing(movement@, resolved, exempt)
            }),
            final(self)@.consistent(),
    {
        let resolved = resolve_collision(&self.bounding_box, movement, block_shapes, entity_boxes);
        self.commit_move(movement, resolved, exempt)
    }

    /// One tick's movement for an entity that does not adjust its movement
    /// at edges: the stuck-speed override, the collision resolution against
    /// the given obstructions, and the commit. Returns the landing that the
    /// movement ends in, if it hurts.
    pub fn advance_entity_tick(
        &mut self,
        movement: Vector3,
        block_shapes: &Vec<(BlockPos, VoxelShape)>,
        entity_boxes: &Vec<BoundingBox>,
        exempt: bool,
    ) -> (landing: Option<Landing>)
        requires
            old(self)@.can_advance(
                movement@,
                shape_models(block_shapes@),
                box_models(entity_boxes@),
            ),
        ensures
            final(self)@ == old(self)@.advanced(
                movement@,
                shape_models(block_shapes@),
                box_models(entity_boxes@),
            ),
            landing == old(self)@.stuck_consumed().landing(
                old(self)@.desired(movement@),
                old(self)@.resolved(
                    movement@,
                    shape_models(block_shapes@),
                    box_models(entity_boxes@),
                ),
                exempt,
            ),
            final(self)@.consistent(),
    {
        let adjusted = self.consume_stuck_speed(movement);
        self.finish_move(adjusted, block_shapes, entity_boxes, exempt)
    }

    /// One tick's movement as [`KineticState::advance_entity_tick`] makes
    /// it, for any arguments: where a quantity is out of range the state is
    /// left untouched and the error says so.
    pub fn try_advance_entity_tick(
        &mut self,
        movement: Vector3,
        block_shapes: &Vec<(BlockPos, VoxelShape)>,
        entity_boxes: &Vec<BoundingBox>,
        exempt: bool,
    ) -> (r: Result<Option<Landing>, MovementError>)
        ensures
            r.is_ok() == old(self)@.can_advance(
                movement@,
                shape_models(block_shapes@),
                box_models(entity_boxes@),
            ),
            r.is_err() ==> *final(self) == *old(self),
            r.is_ok() ==> final(self)@ == old(self)@.advanced(
                movement@,
                shape_models(block_shapes@),
                box_models(entity_boxes@),
            ) && r == Ok::<Option<Landing>, MovementError>(
                old(self)@.stuck_consumed().landing(
                    old(self)@.desired(movement@),
                    old(self)@.resolved(
                        movement@,
                        shape_models(block_shapes@),
                        box_models(entity_boxes@),
                    ),
                    exempt,
                ),
            ),
    {
        if !self.check_advance(&movement, block_shapes, entity_boxes) {
            return Err(MovementError::OutOfRange);
        }
        Ok(self.advance_entity_tick(movement, block_shapes, entity_boxes, exempt))
    }

    /// One tick's movement for an entity of the kind `kind`: the stuck-speed
    /// override, the edge adjustment of the kind, the collision resolution
    /// against the given obstructions, and the commit. Returns the landing
    /// that the movement ends in, if it hurts.
    ///
    /// The tick is made exactly when the tick of an entity without edge
    /// adjustment could be made: a kind only shrinks the movement, and a
    /// shorter movement stays in range. What the kind makes of the movement
    /// is what is resolved and committed. Where a quantity is out of range
    /// the state is left untouched and the error says so.
    pub fn try_advance_entity_tick_as<K: EntityKind>(
        &mut self,
        kind: &K,
        movement: Vector3,
        block_shapes: &Vec<(BlockPos, VoxelShape)>,
        entity_boxes: &Vec<BoundingBox>,
        exempt: bool,
    ) -> (r: Result<Option<Landing>, MovementError>)
        ensures
            r.is_ok() == old(self)@.can_advance(
                movement@,
                shape_models(block_shapes@),
                box_models(entity_boxes@),
            ),
            r.is_err() ==> *final(self) == *old(self),
            r matches Ok(landing) ==> {
                &&& final(self)@ == old(self)@.advanced_as(
                    kind,
                    movement@,
                    shape_models(block_shapes@),
                    box_models(entity_boxes@),
                )
                &&& landing == old(self)@.stuck_consumed().landing(
                    old(self)@.desired_as(kind, movement@),
                    old(self)@.resolved_as(
                        kind,
                        movement@,
                        shape_models(block_shapes@),
                        box_models(entity_boxes@),
                    ),
                    exempt,
                )
                &&& shortened_on_every_axis(
                    old(self)@.desired_as(kind, movement@),
                    old(self)@.desired(movement@),
                )
            },
    {
        if !self.check_advance(&movement, block_shapes, entity_boxes) {
            return Err(MovementError::OutOfRange);
        }
        let before = *self;
        let unstuck = self.consume_stuck_speed(movement);
        let adjusted = kind.adjust_movement_for_edges(self, unstuck);
        proof {
            lemma_shorter_movement_is_resolvable(
                before@.bounding_box,
                unstuck@,
                adjusted@,
                shape_models(block_shapes@),
                box_models(entity_boxes@),
            );
        }
        // A kind that nobody has held to its contract may still lengthen the
        // movement; what it then asks for is refused, not trusted.
        if !can_resolve(&self.bounding_box, &adjusted, block_shapes, entity_boxes) {
            *self = before;
            return Err(MovementError::OutOfRange);
        }
        Ok(self.finish_move(adjusted, block_shapes, entity_boxes, exempt))
    }

    /// One tick of the entity moving by itself: the movement that it wants
    /// to make is its velocity, and it is made as
    /// [`KineticState::advance_entity_tick`] makes any movement, against
    /// the given obstructions. The position advances by what is left of the
    /// velocity after the clamp, not by the velocity. Returns the landing
    /// that the movement ends in, if it hurts.
    pub fn global_tick(
        &mut self,
        block_shapes: &Vec<(BlockPos, VoxelShape)>,
        entity_boxes: &Vec<BoundingBox>,
        exempt: bool,
    ) -> (landing: Option<Landing>)
        requires
            old(self)@.can_advance(
                old(self)@.velocity,
                shape_models(block_shapes@),
                box_models(entity_boxes@),
            ),
        ensures
            final(self)@ == old(self)@.advanced(
                old(self)@.velocity,
                shape_models(block_shapes@),
                box_models(entity_boxes@),
            ),
            landing == old(self)@.stuck_consumed().landing(
                old(self)@.desired(old(self)@.velocity),
                old(self)@.resolved(
                    old(self)@.velocity,
                    shape_models(block_shapes@),
                    box_models(entity_boxes@),
                ),
                exempt,
            ),
            final(self)@.consistent(),
    {
        let velocity = self.velocity;
        self.advance_entity_tick(velocity, block_shapes, entity_boxes, exempt)
    }

    /// Gravity: the vertical velocity drops by `gravity`.
    pub fn apply_gravity(&mut self, gravity: i64)
        requires
            representable(old(self).velocity.y - gravity),
        ensures
            final(self)@ == old(self)@.with_velocity(
                medium_applied(old(self)@.velocity, Medium::Air, gravity as int),
            ),
    {
        self.velocity.y = self.velocity.y - gravity;
    }

    /// Movement in a fluid: the horizontal velocity is multiplied by
    /// `multiplier`, and a sinking entity is nudged upward.
    pub fn set_fluid_movement(&mut self, multiplier: i64)
        requires
            fluid_applied(old(self)@.velocity, multiplier as int).representable(),
        ensures
            final(self)@ == old(self)@.with_velocity(
                fluid_applied(old(self)@.velocity, multiplier as int),
            ),
    {
        let mut velocity = self.velocity;
        velocity.x = scaled_product(velocity.x, multiplier);
        velocity.y = velocity.y + if velocity.y < SINKING_SPEED {
            BUOYANCY
        } else {
            0
        };
        velocity.z = scaled_product(velocity.z, multiplier);
        self.velocity = velocity;
    }

    /// The velocity change of one tick in the medium at the entity's feet:
    /// drag and buoyancy in water or lava, gravity elsewhere.
    pub fn integrate_medium(&mut self, medium: Medium, gravity: i64)
        requires
            medium is Air ==> representable(old(self).velocity.y - gravity),
        ensures
            final(self)@ == old(self)@.with_velocity(
                medium_applied(old(self)@.velocity, medium, gravity as int),
            ),
    {
        proof {
            lemma_drag_fits(self.velocity@, WATER_DRAG as int);
            lemma_drag_fits(self.velocity@, LAVA_DRAG as int);
        }
        match medium {
            Medium::Water => self.set_fluid_movement(WATER_DRAG),
            Medium::Lava => self.set_fluid_movement(LAVA_DRAG),
            Medium::Air => self.apply_gravity(gravity),
        }
    }

    /// Knockback of the given strength along the horizontal direction
    /// `(dx, dz)`, whatever the direction is. A direction without length
    /// pushes nowhere.
    pub fn knockback_along(&mut self, strength: i64, dx: i64, dz: i64)
        requires
            old(self)@.velocity.within(COORD_LIMIT as int),
            within(strength as int, COORD_LIMIT as int),
        ensures
            final(self)@ == old(self)@.with_velocity(
                knocked_back(
                    old(self)@.velocity,
                    old(self).on_ground,
                    strength as int,
                    dx as int,
                    dz as int,
                ),
            ),
    {
        let unit = horizontal_unit_of(dx, dz);
        proof {
            lemma_unit_push_bounded(unit.0 as int, strength as int);
            lemma_unit_push_bounded(unit.1 as int, strength as int);
        }
        let push_x: i64 = scaled_product(unit.0, strength);
        let push_z: i64 = scaled_product(unit.1, strength);
        let velocity = self.velocity;
        let y: i64 = if self.on_ground {
            let lifted: i64 = half_of(velocity.y) + strength;
            if lifted < KNOCKBACK_MAX_RISE {
                lifted
            } else {
                KNOCKBACK_MAX_RISE
            }
        } else {
            velocity.y
        };
        self.velocity = Vector3 {
            x: half_of(velocity.x) - push_x,
            y,
            z: half_of(velocity.z) - push_z,
        };
    }

    /// Knockback of the given strength along the horizontal direction
    /// `(direction_x, direction_z)`. A degenerate direction is replaced by a
    /// small random one: each of its components stays below
    /// [`SUBSTITUTE_BOUND`] in magnitude, and it is itself no degenerate
    /// direction, so that the push has a direction.
    pub fn apply_knockback(&mut self, strength: i64, direction_x: i64, direction_z: i64)
        requires
            old(self)@.velocity.within(COORD_LIMIT as int),
            within(strength as int, COORD_LIMIT as int),
        ensures
            !degenerate(direction_x as int, direction_z as int) ==> final(self)@ == old(
                self,
            )@.with_velocity(
                knocked_back(
                    old(self)@.velocity,
                    old(self).on_ground,
                    strength as int,
                    direction_x as int,
                    direction_z as int,
                ),
            ),
            degenerate(direction_x as int, direction_z as int) ==> exists|sx: int, sz: int|
                is_substitute(sx, sz) && final(self)@ == old(self)@.with_velocity(
                    #[trigger] knocked_back(
                        old(self)@.velocity,
                        old(self).on_ground,
                        strength as int,
                        sx,
                        sz,
                    ),
                ),
    {
        if is_degenerate(direction_x, direction_z) {
            let (x, z) = draw_substitute();
            self.knockback_along(strength, x, z);
        } else {
            self.knockback_along(strength, direction_x, direction_z);
        }
    }
}

/// For the plain kind the edge adjustment changes nothing: its tick is the
/// tick without adjustment.
pub proof fn lemma_plain_kind_is_unadjusted(
    state: KineticModel,
    movement: VectorModel,
    shapes: Seq<(BlockPos, ShapeModel)>,
    entity_boxes: Seq<BoxModel>,
)
    ensures
        state.desired_as(&PlainKind, movement) == state.desired(movement),
        state.advanced_as(&PlainKind, movement, shapes, entity_boxes) == state.advanced(
            movement,
            shapes,
            entity_boxes,
        ),
{
}

/// A landing always resets the fall distance and stops the fall: after a
/// commit that lands, the entity is on the ground, has fallen nothing and
/// has no vertical velocity; and what the landing asks for depends on the
/// distance fallen before alone.
pub proof fn lemma_landing_resets(
    state: KineticModel,
    desired: VectorModel,
    resolved: VectorModel,
    exempt: bool,
)
    requires
        KineticModel::lands(desired, resolved),
    ensures
        state.committed(desired, resolved).on_ground,
        state.committed(desired, resolved).fall_distance == 0,
        state.committed(desired, resolved).velocity.y == 0,
        state.landing(desired, resolved, exempt) == landing_after(state.fall_distance, exempt),
{
}

/// A fall within the safe distance costs nothing, and neither does the
/// fall of an exempt entity: the landing asks for no damage and no sound.
pub proof fn lemma_safe_fall_costs_nothing(distance: int, exempt: bool)
    requires
        distance <= SAFE_FALL_DISTANCE || exempt,
    ensures
        landing_after(distance, exempt).is_none(),
{
}

/// A fall beyond the safe distance costs an entity that is not exempt one
/// point of health for each block, whole or in part, beyond it: a fall of
/// five blocks costs two points.
pub proof fn lemma_hard_fall_costs(distance: int)
    requires
        distance > SAFE_FALL_DISTANCE,
        representable(fall_damage(distance)),
    ensures
        landing_after(distance, false) matches Some(landing) && landing.damage == ceil_blocks(
            distance - SAFE_FALL_DISTANCE,
        ) * UNITS_PER_BLOCK && landing.sound == landing_sound(distance),
        distance == 5 * UNITS_PER_BLOCK ==> fall_damage(distance) == 2 * UNITS_PER_BLOCK,
{
}

/// The damage of a landing is a whole number of health points: one for each
/// block, whole or in part, fallen beyond the safe distance; and a fall
/// within the safe distance, or of an exempt entity, costs nothing.
pub proof fn lemma_fall_damage(distance: int, exempt: bool)
    ensures
        match landing_after(distance, exempt) {
            Some(landing) => {
                &&& !exempt
                &&& distance > SAFE_FALL_DISTANCE
                &&& representable(fall_damage(distance)) ==> landing.damage == fall_damage(distance)
                &&& fall_damage(distance) % (UNITS_PER_BLOCK as int) == 0
                &&& distance - SAFE_FALL_DISTANCE <= fall_damage(distance) < distance
                    - SAFE_FALL_DISTANCE + UNITS_PER_BLOCK
            },
            None => exempt || distance <= SAFE_FALL_DISTANCE,
        },
{
    if distance > SAFE_FALL_DISTANCE {
        let s = UNITS_PER_BLOCK as int;
        let over = distance - SAFE_FALL_DISTANCE;
        let c = ceil_blocks(over);
        assert((c * s) % s == 0) by (nonlinear_arith)
            requires
                s > 0,
        ;
    }
}

/// Without a collision a commit keeps the velocity and moves the entity by
/// the desired movement; the entity is then not on the ground.
pub proof fn lemma_free_move(state: KineticModel, desired: VectorModel)
    ensures
        state.committed(desired, desired).velocity == state.velocity,
        state.committed(desired, desired).pos == state.pos.plus(desired),
        !state.committed(desired, desired).on_ground,
{
}

/// A commit keeps a state consistent: the bounding box follows the
/// position.
pub proof fn lemma_commit_keeps_consistent(
    state: KineticModel,
    desired: VectorModel,
    resolved: VectorModel,
)
    requires
        state.consistent(),
    ensures
        state.committed(desired, resolved).consistent(),
{
}

/// A drag between zero and one never lengthens the velocity, so what a
/// fluid makes of a velocity can always be held.
pub proof fn lemma_drag_fits(velocity: VectorModel, multiplier: int)
    requires
        velocity.representable(),
        0 <= multiplier <= UNITS_PER_BLOCK,
    ensures
        fluid_applied(velocity, multiplier).representable(),
{
    lemma_product_shrinks(velocity.x, multiplier);
    lemma_product_shrinks(velocity.z, multiplier);
}

/// The magnitude of one component of a unit vector: the share `a` of the
/// length `l`, in fixed-point scalars. Its square, times the square of the
/// length, lies between the square of the scaled share, less the rounding,
/// and that square itself.
pub proof fn lemma_share_squared(a: int, l: int)
    requires
        0 <= a <= l,
        l > 0,
    ensures
        ({
            let s = UNITS_PER_BLOCK as int;
            let p = (a * s) / l;
            &&& 0 <= p
            &&& p * p * l * l <= a * a * s * s
            &&& p * p * l * l >= a * a * s * s - 2 * a * s * l
        }),
{
    let s = UNITS_PER_BLOCK as int;
    let t = a * s;
    let p = t / l;
    assert(0 <= t) by (nonlinear_arith)
        requires
            0 <= a,
            t == a * s,
            s > 0,
    ;
    assert(0 <= p && p * l <= t && t < p * l + l) by (nonlinear_arith)
        requires
            p == t / l,
            l > 0,
            0 <= t,
    ;
    let m = p * l;
    assert(m * m <= t * t) by (nonlinear_arith)
        requires
            0 <= m <= t,
    ;
    assert(m * m >= t * t - 2 * t * l) by (nonlinear_arith)
        requires
            0 <= m,
            m <= t,
            t < m + l,
            l > 0,
    ;
    assert(m * m == p * p * l * l) by (nonlinear_arith)
        requires
            m == p * l,
    ;
    assert(t * t == a * a * s * s) by (nonlinear_arith)
        requires
            t == a * s,
    ;
    assert(2 * t * l == 2 * a * s * l) by (nonlinear_arith)
        requires
            t == a * s,
    ;
}

/// The unit vector along a direction that is not degenerate has, up to
/// rounding, the length one: its squared length misses the square of one
/// by less than a millionth of it.
pub proof fn lemma_unit_is_nearly_one(dx: int, dz: int)
    requires
        !degenerate(dx, dz),
    ensures
        ({
            let unit = horizontal_unit(dx, dz);
            let s = UNITS_PER_BLOCK as int;
            s * s - 4 * s <= unit.0 * unit.0 + unit.1 * unit.1 <= s * s + s * s / 1_000_000
        }),
{
    let s = UNITS_PER_BLOCK as int;
    let a = magnitude(dx);
    let b = magnitude(dz);
    let n = dx * dx + dz * dz;
    assert(a * a == dx * dx) by (nonlinear_arith)
        requires
            a == dx || a == -dx,
    ;
    assert(b * b == dz * dz) by (nonlinear_arith)
        requires
            b == dz || b == -dz,
    ;
    assert(n >= 0) by (nonlinear_arith)
        requires
            n == dx * dx + dz * dz,
    ;
    lemma_floor_sqrt_exists(n);
    let l = floor_sqrt(n);
    assert(l >= 3_162_277) by (nonlinear_arith)
        requires
            (l + 1) * (l + 1) > n,
            n >= 10_000_000_000_000,
            l >= 0,
    ;
    assert(a <= l) by (nonlinear_arith)
        requires
            a * a <= n,
            n < (l + 1) * (l + 1),
            a >= 0,
            l >= 0,
    ;
    assert(b <= l) by (nonlinear_arith)
        requires
            b * b <= n,
            n < (l + 1) * (l + 1),
            b >= 0,
            l >= 0,
    ;
    lemma_share_squared(a, l);
    lemma_share_squared(b, l);
    let p = (a * s) / l;
    let q = (b * s) / l;
    let unit = horizontal_unit(dx, dz);
    assert(unit.0 == p || unit.0 == -p) by {
        if dx < 0 {
            assert(-(dx * s) == a * s) by (nonlinear_arith)
                requires
                    a == -dx,
            ;
            assert(dx * s < 0) by (nonlinear_arith)
                requires
                    dx < 0,
                    s > 0,
            ;
        } else {
            assert(dx * s >= 0) by (nonlinear_arith)
                requires
                    dx >= 0,
                    s > 0,
            ;
        }
    }
    assert(unit.1 == q || unit.1 == -q) by {
        if dz < 0 {
            assert(-(dz * s) == b * s) by (nonlinear_arith)
                requires
                    b == -dz,
            ;
            assert(dz * s < 0) by (nonlinear_arith)
                requires
                    dz < 0,
                    s > 0,
            ;
        } else {
            assert(dz * s >= 0) by (nonlinear_arith)
                requires
                    dz >= 0,
                    s > 0,
            ;
        }
    }
    assert(unit.0 * unit.0 == p * p) by (nonlinear_arith)
        requires
            unit.0 == p || unit.0 == -p,
    ;
    assert(unit.1 * unit.1 == q * q) by (nonlinear_arith)
        requires
            unit.1 == q || unit.1 == -q,
    ;
    let u = p * p + q * q;
    let ll = l * l;
    let ss = s * s;
    // the squared length, times the squared length of the direction
    assert(u * ll == p * p * l * l + q * q * l * l) by (nonlinear_arith)
        requires
            u == p * p + q * q,
            ll == l * l,
    ;
    assert(a * a * s * s + b * b * s * s == n * ss) by (nonlinear_arith)
        requires
            n == a * a + b * b,
            ss == s * s,
    ;
    assert(u * ll <= n * ss);
    assert(2 * a * s * l + 2 * b * s * l <= 4 * s * ll) by (nonlinear_arith)
        requires
            0 <= a <= l,
            0 <= b <= l,
            s > 0,
            ll == l * l,
    ;
    assert(u * ll >= n * ss - 4 * s * ll);
    assert(ll > 0) by (nonlinear_arith)
        requires
            ll == l * l,
            l >= 3_162_277,
    ;
    // from above: n < (l + 1)^2 <= (1 + 1/1000000) l^2
    assert(n * ss <= (ss + ss / 1_000_000) * ll) by (nonlinear_arith)
        requires
            n < (l + 1) * (l + 1),
            l >= 3_162_277,
            ll == l * l,
            ss == 1_000_000_000_000_000_000,
    ;
    assert(u <= ss + ss / 1_000_000) by (nonlinear_arith)
        requires
            u * ll <= (ss + ss / 1_000_000) * ll,
            ll > 0,
    ;
    // from below: n >= l^2
    assert(n * ss >= ll * ss) by (nonlinear_arith)
        requires
            n >= ll,
            ss > 0,
    ;
    assert(u >= ss - 4 * s) by (nonlinear_arith)
        requires
            u * ll >= ll * ss - 4 * s * ll,
            ll > 0,
    ;
}

/// A push along a unit vector is no stronger than the strength.
pub proof fn lemma_unit_push_bounded(unit: int, strength: int)
    requires
        within(unit, UNITS_PER_BLOCK as int),
    ensures
        within(product(unit, strength), magnitude(strength)),
{
    let s = UNITS_PER_BLOCK as int;
    let u = magnitude(unit);
    let m = magnitude(strength);
    assert(magnitude(unit * strength) == u * m) by (nonlinear_arith)
        requires
            u == magnitude(unit),
            m == magnitude(strength),
    ;
    assert(0 <= u * m <= s * m) by (nonlinear_arith)
        requires
            0 <= u <= s,
            0 <= m,
    ;
    assert((s * m) / s == m) by (nonlinear_arith)
        requires
            s > 0,
    ;
    assert((u * m) / s <= (s * m) / s) by (nonlinear_arith)
        requires
            u * m <= s * m,
            s > 0,
    ;
    assert(0 <= (u * m) / s) by (nonlinear_arith)
        requires
            0 <= u * m,
            s > 0,
    ;
}

} // verus!
