//! The rules of item entities: pickup delay, merging of stacks, pickup by
//! a player, friction and despawning.
use crate::boundingbox::BoundingBox;
use crate::entity::{
    fluid_applied, lemma_drag_fits, medium_applied, KineticState, Medium, LAVA_DRAG, WATER_DRAG,
};
use crate::fixed::{
    floor_blocks, lesser, product, representable, saturate_i32, scaled_product, UNITS_PER_BLOCK,
};
use crate::vector3::{BlockPos, Vector3, VectorModel};
use vstd::prelude::*;

verus! {

/// An item entity that has lain for this many ticks despawns.
pub const DEFAULT_ITEM_DESPAWN_RATE: u32 = 6000;

/// Item entities merge with others within this many units (0.5 blocks).
pub const DEFAULT_ITEM_MERGE_RADIUS: i64 = 500_000_000;

/// A fresh item entity can be picked up after this many ticks.
pub const DEFAULT_PICKUP_DELAY: u16 = 40;

/// The pickup delay of an item entity that can never be picked up.
pub const NO_PICKUP: u16 = 32767;

/// The share of its speed that an item keeps each tick (0.98).
pub const AIR_FRICTION: i64 = 980_000_000;

/// The share of its falling speed with which an item on the ground bounces
/// back (0.5).
pub const BOUNCE: i64 = 500_000_000;

/// The gravity of an item entity, in units per tick (0.04 blocks).
pub const ITEM_GRAVITY: i64 = 40_000_000;

/// The block that an item stands on is looked for this many units below
/// its feet (0.999999 blocks).
pub const SUPPORT_OFFSET: i64 = 999_999_000;

/// An item whose squared horizontal speed is above this many square units
/// (1e-5 square blocks) per tick is in motion.
pub const RESTING_SPEED_SQUARED: u128 = 10_000_000_000_000;

/// An item entity merges with its neighbours every this many ticks.
pub const MERGE_INTERVAL: i32 = 40;

/// The number of items that a stored stack without a count holds.
pub fn default_count() -> (count: i32)
    ensures
        count == 1,
{
    1
}

/// A number of items of one kind.
#[derive(Clone, Copy, Debug, PartialEq, Eq)]
pub struct ItemStack {
    pub item_count: u8,
    /// The kind of the items.
    pub item_id: u16,
    /// The number of items of this kind that one stack can hold.
    pub max_stack_size: u8,
}

impl ItemStack {
    pub fn new(item_count: u8, item_id: u16, max_stack_size: u8) -> (stack: ItemStack)
        ensures
            stack.item_count == item_count,
            stack.item_id == item_id,
            stack.max_stack_size == max_stack_size,
    {
        ItemStack { item_count, item_id, max_stack_size }
    }
}

/// A stack of items that lies in the world.
#[derive(Clone, Copy, Debug, PartialEq, Eq)]
pub struct ItemEntity {
    pub entity: KineticState,
    pub item_age: u32,
    pub item_stack: ItemStack,
    pub pickup_delay: u16,
}

/// What merging with one neighbour came to.
#[derive(Clone, Copy, Debug, PartialEq, Eq)]
pub enum MergeOutcome {
    /// Nothing was moved.
    Skipped,
    /// Items were moved and the neighbour keeps some.
    Merged,
    /// The neighbour is left without items: it is to be removed.
    Absorbed,
}

/// One step of a player's picking up a stack.
#[derive(Clone, Copy, Debug, PartialEq, Eq)]
pub struct PickupStep {
    /// The number of items that go into the slot.
    pub added: u8,
    /// The number of items of the stack that the slot is updated with.
    pub slot_count: u8,
    /// The number of items that are left on the ground.
    pub remaining: u8,
}

/// The stack can take part in a merge: it can be picked up at all, has not
/// despawned, and is not full.
pub open spec fn mergable(item: ItemEntity) -> bool {
    &&& item.pickup_delay != NO_PICKUP
    &&& item.item_age < DEFAULT_ITEM_DESPAWN_RATE
    &&& item.item_stack.item_count < item.item_stack.max_stack_size
}

/// The stack `current` merges with its neighbour `other`: the neighbour is
/// another entity, can merge, holds the same item, and `current` has room.
pub open spec fn merge_applies(current: ItemEntity, other: ItemEntity) -> bool {
    &&& other.entity.entity_id != current.entity.entity_id
    &&& mergable(other)
    &&& other.item_stack.item_id == current.item_stack.item_id
    &&& current.item_stack.item_count < current.item_stack.max_stack_size
}

/// The number of items that `current` takes over from `other`: as many as
/// `other` has and `current` has room for, where the two merge.
pub open spec fn transfer_amount(current: ItemEntity, other: ItemEntity) -> int {
    if merge_applies(current, other) {
        lesser(
            other.item_stack.item_count as int,
            current.item_stack.max_stack_size - current.item_stack.item_count,
        )
    } else {
        0
    }
}

/// The item entity with `count` items in its stack and all else as in
/// `item`.
pub open spec fn with_count(item: ItemEntity, count: int) -> ItemEntity {
    ItemEntity {
        item_stack: ItemStack { item_count: count as u8, ..item.item_stack },
        ..item
    }
}

/// The stack `current` after it has merged with `other`.
pub open spec fn merged(current: ItemEntity, other: ItemEntity) -> ItemEntity {
    with_count(current, current.item_stack.item_count + transfer_amount(current, other))
}

/// The neighbour `other` after `current` has merged with it.
pub open spec fn drained(current: ItemEntity, other: ItemEntity) -> ItemEntity {
    with_count(other, other.item_stack.item_count - transfer_amount(current, other))
}

/// What merging `current` with `other` comes to.
pub open spec fn merge_outcome(current: ItemEntity, other: ItemEntity) -> MergeOutcome {
    if !merge_applies(current, other) {
        MergeOutcome::Skipped
    } else if drained(current, other).item_stack.item_count == 0 {
        MergeOutcome::Absorbed
    } else {
        MergeOutcome::Merged
    }
}

/// The stack `current` after it has merged with the first `n` of its
/// neighbours, one after the other.
pub open spec fn merged_through(current: ItemEntity, neighbours: Seq<ItemEntity>, n: int) -> ItemEntity
    decreases n,
{
    if n <= 0 {
        current
    } else {
        merged(merged_through(current, neighbours, n - 1), neighbours[n - 1])
    }
}

/// The number of items in the first `n` of the stacks.
pub open spec fn total_count(stacks: Seq<ItemEntity>, n: int) -> int
    decreases n,
{
    if n <= 0 {
        0
    } else {
        total_count(stacks, n - 1) + stacks[n - 1].item_stack.item_count
    }
}

/// The items of the first `n` stacks are counted the same in two lists
/// that agree on those stacks.
pub proof fn lemma_total_count_prefix(a: Seq<ItemEntity>, b: Seq<ItemEntity>, n: int)
    requires
        0 <= n <= a.len(),
        n <= b.len(),
        forall|j: int| 0 <= j < n ==> a[j] == b[j],
    ensures
        total_count(a, n) == total_count(b, n),
    decreases n,
{
    if n > 0 {
        lemma_total_count_prefix(a, b, n - 1);
    }
}

/// The velocity of an item after friction: the horizontal speed is scaled
/// by the air friction, on the ground also by the slipperiness of the block
/// below; the vertical speed by the air friction; and an item that falls
/// onto the ground bounces back with half its speed.
pub open spec fn friction_applied(
    velocity: VectorModel,
    on_ground: bool,
    slipperiness: int,
) -> VectorModel {
    let f = if on_ground {
        product(slipperiness, AIR_FRICTION as int)
    } else {
        AIR_FRICTION as int
    };
    let slowed = VectorModel {
        x: product(velocity.x, f),
        y: product(velocity.y, AIR_FRICTION as int),
        z: product(velocity.z, f),
    };
    if on_ground && slowed.y < 0 {
        VectorModel { x: slowed.x, y: product(slowed.y, -BOUNCE), z: slowed.z }
    } else {
        slowed
    }
}

/// The pickup delay after one more tick: it runs down to zero, unless it
/// says that the item can never be picked up.
pub open spec fn delay_after_tick(delay: u16) -> u16 {
    if delay > 0 && delay != NO_PICKUP {
        (delay - 1) as u16
    } else {
        delay
    }
}

/// Whether an item in the given state of motion is moved in the tick
/// `tick_count`: an item in the air or in horizontal motion always, a
/// resting item every fourth tick.
pub open spec fn moves_this_tick(entity: KineticState, tick_count: int) -> bool {
    ||| !entity.on_ground
    ||| entity.velocity@.horizontal_length_squared() > RESTING_SPEED_SQUARED
    ||| (tick_count + entity.entity_id) % 4 == 0
}

impl ItemEntity {
    /// A fresh stack of `count` items of the kind `item_id`, which stacks
    /// up to `max_stack_size`, as the entity `entity`. Only the low eight
    /// bits of the count are kept.
    pub fn new(entity: KineticState, item_id: u16, count: u32, max_stack_size: u8) -> (item:
        ItemEntity)
        ensures
            item == (ItemEntity {
                entity,
                item_age: 0,
                item_stack: ItemStack {
                    item_count: (count % 256) as u8,
                    item_id,
                    max_stack_size,
                },
                pickup_delay: DEFAULT_PICKUP_DELAY,
            }),
    {
        ItemEntity {
            entity,
            item_stack: ItemStack::new((count % 256) as u8, item_id, max_stack_size),
            item_age: 0,
            pickup_delay: DEFAULT_PICKUP_DELAY,  // Vanilla pickup delay is 40 ticks
        }
    }

    /// Sets the number of ticks until the item can be picked up.
    pub fn set_pickup_delay(&mut self, delay: u16)
        ensures
            *final(self) == (ItemEntity { pickup_delay: delay, ..*old(self) }),
    {
        self.pickup_delay = delay;
    }

    /// Movement under water.
    pub fn set_underwater_movement(&mut self)
        ensures
            final(self).entity@ == old(self).entity@.with_velocity(
                fluid_applied(old(self).entity@.velocity, WATER_DRAG as int),
            ),
            *final(self) == (ItemEntity { entity: final(self).entity, ..*old(self) }),
    {
        proof {
            lemma_drag_fits(self.entity.velocity@, WATER_DRAG as int);
        }
        self.set_fluid_movement(WATER_DRAG);
    }

    /// Movement in lava.
    pub fn set_lava_movement(&mut self)
        ensures
            final(self).entity@ == old(self).entity@.with_velocity(
                fluid_applied(old(self).entity@.velocity, LAVA_DRAG as int),
            ),
            *final(self) == (ItemEntity { entity: final(self).entity, ..*old(self) }),
    {
        proof {
            lemma_drag_fits(self.entity.velocity@, LAVA_DRAG as int);
        }
        self.set_fluid_movement(LAVA_DRAG);
    }

    /// Movement in a fluid with the given horizontal drag.
    pub fn set_fluid_movement(&mut self, multiplier: i64)
        requires
            fluid_applied(old(self).entity@.velocity, multiplier as int).representable(),
        ensures
            final(self).entity@ == old(self).entity@.with_velocity(
                fluid_applied(old(self).entity@.velocity, multiplier as int),
            ),
            *final(self) == (ItemEntity { entity: final(self).entity, ..*old(self) }),
    {
        self.entity.set_fluid_movement(multiplier);
    }

    /// Tells whether the stack can take part in a merge.
    pub fn is_mergable(&self) -> (b: bool)
        ensures
            b == mergable(*self),
    {
        self.pickup_delay != NO_PICKUP && self.item_age < DEFAULT_ITEM_DESPAWN_RATE
            && self.item_stack.item_count < self.item_stack.max_stack_size
    }

    /// The box around the item in which neighbours to merge with are
    /// looked for.
    pub fn merge_search_box(&self) -> (b: BoundingBox)
        requires
            self.entity.pos@.within(i64::MAX - DEFAULT_ITEM_MERGE_RADIUS),
        ensures
            b.min@ == self.entity.pos@.minus(merge_reach()),
            b.max@ == self.entity.pos@.plus(merge_reach()),
    {
        let radius = DEFAULT_ITEM_MERGE_RADIUS;
        let current_pos = self.entity.pos;
        BoundingBox::new(
            Vector3::new(current_pos.x - radius, current_pos.y - radius, current_pos.z - radius),
            Vector3::new(current_pos.x + radius, current_pos.y + radius, current_pos.z + radius),
        )
    }

    /// Merges the neighbour `other` into this stack as far as there is
    /// room. An entity never merges with itself. A neighbour that is left
    /// without items is absorbed, also when it had none to begin with.
    pub fn merge_with(&mut self, other: &mut ItemEntity) -> (outcome: MergeOutcome)
        requires
            old(self).item_stack.item_count <= old(self).item_stack.max_stack_size,
        ensures
            *final(self) == merged(*old(self), *old(other)),
            *final(other) == drained(*old(self), *old(other)),
            outcome == merge_outcome(*old(self), *old(other)),
            final(self).item_stack.item_count <= final(self).item_stack.max_stack_size,
            final(self).item_stack.item_count + final(other).item_stack.item_count
                == old(self).item_stack.item_count + old(other).item_stack.item_count,
    {
        if other.entity.entity_id == self.entity.entity_id {
            return MergeOutcome::Skipped;
        }
        if !other.is_mergable() {
            return MergeOutcome::Skipped;
        }
        if other.item_stack.item_id != self.item_stack.item_id {
            return MergeOutcome::Skipped;
        }
        let max_stack_size = self.item_stack.max_stack_size;
        let space_left: u8 = max_stack_size - self.item_stack.item_count;
        if space_left == 0 {
            return MergeOutcome::Skipped;
        }
        let transfer_amount: u8 = if other.item_stack.item_count < space_left {
            other.item_stack.item_count
        } else {
            space_left
        };
        self.item_stack.item_count = self.item_stack.item_count + transfer_amount;
        other.item_stack.item_count = other.item_stack.item_count - transfer_amount;
        if other.item_stack.item_count == 0 {
            MergeOutcome::Absorbed
        } else {
            MergeOutcome::Merged
        }
    }

    /// Merges the neighbours into this stack, one after the other, as far
    /// as there is room. Returns what became of each neighbour, in their
    /// order. No item is lost or made.
    pub fn merge_with_neighbours(&mut self, nearby_entities: &mut Vec<ItemEntity>) -> (outcomes:
        Vec<MergeOutcome>)
        requires
            old(self).item_stack.item_count <= old(self).item_stack.max_stack_size,
        ensures
            *final(self) == merged_through(
                *old(self),
                old(nearby_entities)@,
                old(nearby_entities)@.len() as int,
            ),
            final(nearby_entities)@.len() == old(nearby_entities)@.len(),
            outcomes@.len() == old(nearby_entities)@.len(),
            forall|i: int|
                #![trigger final(nearby_entities)@[i]]
                #![trigger outcomes@[i]]
                0 <= i < old(nearby_entities)@.len() ==> {
                    let before = merged_through(*old(self), old(nearby_entities)@, i);
                    &&& final(nearby_entities)@[i] == drained(before, old(nearby_entities)@[i])
                    &&& outcomes@[i] == merge_outcome(before, old(nearby_entities)@[i])
                },
            final(self).item_stack.item_count <= final(self).item_stack.max_stack_size,
            final(self).item_stack.item_count + total_count(
                final(nearby_entities)@,
                final(nearby_entities)@.len() as int,
            ) == old(self).item_stack.item_count + total_count(
                old(nearby_entities)@,
                old(nearby_entities)@.len() as int,
            ),
    {
        let mut outcomes: Vec<MergeOutcome> = Vec::new();
        let ghost start = *self;
        let ghost given = nearby_entities@;
        let mut i: usize = 0;
        while i < nearby_entities.len()
            invariant
                i <= nearby_entities@.len(),
                nearby_entities@.len() == given.len(),
                outcomes@.len() == i,
                self.item_stack.item_count <= self.item_stack.max_stack_size,
                *self == merged_through(start, given, i as int),
                forall|j: int| i <= j < given.len() ==> nearby_entities@[j] == given[j],
                forall|j: int|
                    #![trigger nearby_entities@[j]]
                    #![trigger outcomes@[j]]
                    0 <= j < i ==> {
                        let before = merged_through(start, given, j);
                        &&& nearby_entities@[j] == drained(before, given[j])
                        &&& outcomes@[j] == merge_outcome(before, given[j])
                    },
                self.item_stack.item_count + total_count(nearby_entities@, i as int)
                    == start.item_stack.item_count + total_count(given, i as int),
            decreases nearby_entities@.len() - i,
        {
            let ghost before_set = nearby_entities@;
            let mut item_entity = nearby_entities[i];
            let outcome = self.merge_with(&mut item_entity);
            nearby_entities.set(i, item_entity);
            outcomes.push(outcome);
            proof {
                lemma_total_count_prefix(nearby_entities@, before_set, i as int);
            }
            i += 1;
        }
        outcomes
    }

    /// One tick of the pickup delay.
    pub fn tick_pickup_delay(&mut self)
        ensures
            *final(self) == (ItemEntity {
                pickup_delay: delay_after_tick(old(self).pickup_delay),
                ..*old(self)
            }),
    {
        // 32767 in Vanilla is implemented as "no delay"
        if self.pickup_delay > 0 && self.pickup_delay != NO_PICKUP {
            self.pickup_delay = self.pickup_delay - 1;
        }
    }

    /// The velocity change of one tick in the medium around the item.
    pub fn tick_medium(&mut self, medium: Medium)
        requires
            medium is Air ==> representable(old(self).entity.velocity.y - ITEM_GRAVITY),
        ensures
            final(self).entity@ == old(self).entity@.with_velocity(
                medium_applied(old(self).entity@.velocity, medium, ITEM_GRAVITY as int),
            ),
            *final(self) == (ItemEntity { entity: final(self).entity, ..*old(self) }),
    {
        match medium {
            Medium::Water => self.set_underwater_movement(),
            Medium::Lava => self.set_lava_movement(),
            Medium::Air => {
                let gravity = self.get_default_gravity();
                self.entity.apply_gravity(gravity)
            },
        }
    }

    /// Tells whether the item is moved in the tick `tick_count`.
    pub fn wants_to_move(&self, tick_count: i32) -> (b: bool)
        ensures
            b == moves_this_tick(self.entity, tick_count as int),
    {
        let on_ground = self.entity.on_ground;
        let velocity = self.entity.velocity;
        !on_ground || velocity.horizontal_length_squared() > RESTING_SPEED_SQUARED || (tick_count as i64
            + self.entity.entity_id as i64) % 4 == 0
    }

    /// The friction of one tick. `on_ground` says whether the item was on
    /// the ground before it moved; `slipperiness` is that of the block
    /// below and counts on the ground only.
    pub fn apply_friction(&mut self, on_ground: bool, slipperiness: i64)
        requires
            on_ground ==> representable(product(slipperiness as int, AIR_FRICTION as int)),
            friction_applied(
                old(self).entity.velocity@,
                on_ground,
                slipperiness as int,
            ).representable(),
        ensures
            final(self).entity@ == old(self).entity@.with_velocity(
                friction_applied(old(self).entity@.velocity, on_ground, slipperiness as int),
            ),
            *final(self) == (ItemEntity { entity: final(self).entity, ..*old(self) }),
    {
        // slipperiness is friction of the block
        let mut f: i64 = AIR_FRICTION;
        if on_ground {
            f = scaled_product(slipperiness, AIR_FRICTION);
        }
        let velocity = self.entity.velocity;
        proof {
            crate::fixed::lemma_product_shrinks(velocity.y as int, AIR_FRICTION as int);
        }
        let x: i64 = scaled_product(velocity.x, f);
        let y: i64 = scaled_product(velocity.y, AIR_FRICTION);
        let z: i64 = scaled_product(velocity.z, f);
        if on_ground && y < 0 {
            proof {
                lemma_bounce_fits(y as int);
            }
            self.entity.velocity = Vector3 { x, y: scaled_product(y, -BOUNCE), z };
        } else {
            self.entity.velocity = Vector3 { x, y, z };
        }
    }

    /// Tells whether the item looks for neighbours to merge with in the
    /// tick `tick_count`.
    pub fn merges_this_tick(&self, tick_count: i32) -> (b: bool)
        ensures
            b == (tick_count % MERGE_INTERVAL == 0 && mergable(*self)),
    {
        let r: i32 = tick_count % MERGE_INTERVAL;
        r == 0 && self.is_mergable()
    }

    /// The item grows one tick older. Returns whether it despawns: it does
    /// when it was already of the age to despawn.
    pub fn grow_older(&mut self) -> (despawn: bool)
        ensures
            despawn == (old(self).item_age >= DEFAULT_ITEM_DESPAWN_RATE),
            *final(self) == (ItemEntity {
                item_age: if old(self).item_age == u32::MAX {
                    0u32
                } else {
                    (old(self).item_age + 1) as u32
                },
                ..*old(self)
            }),
    {
        let age = self.item_age;
        self.item_age = if age == u32::MAX {
            0
        } else {
            age + 1
        };
        age >= DEFAULT_ITEM_DESPAWN_RATE
    }

    /// An item entity takes no damage.
    pub fn damage(&self, _amount: i64) -> (damaged: bool)
        ensures
            !damaged,
    {
        false
    }

    /// The gravity of an item entity, in units per tick.
    pub fn get_default_gravity(&self) -> (g: i64)
        ensures
            g == ITEM_GRAVITY,
    {
        ITEM_GRAVITY
    }

    /// The block that governs the friction of the item: the one just under
    /// its feet.
    pub fn get_block_pos_below_that_affects_my_movement(&self) -> (p: BlockPos)
        requires
            representable(self.entity.pos.y - SUPPORT_OFFSET),
        ensures
            p.x == saturate_i32(floor_blocks(self.entity.pos.x as int)),
            p.y == saturate_i32(floor_blocks(self.entity.pos.y - SUPPORT_OFFSET)),
            p.z == saturate_i32(floor_blocks(self.entity.pos.z as int)),
    {
        self.entity.get_on_pos(SUPPORT_OFFSET)
    }

    pub fn get_entity(&self) -> (e: &KineticState)
        ensures
            *e == self.entity,
    {
        &self.entity
    }

    /// Tells whether a player who touches the item can pick it up.
    pub fn can_pickup(&self) -> (b: bool)
        ensures
            b == (self.pickup_delay == 0),
    {
        self.pickup_delay == 0
    }

    /// One step of a pickup: `stack_size` items are still on the ground and
    /// the inventory offers a slot that holds `existing` items of the kind,
    /// or an empty slot. A slot in use is filled up to `max_stack`; an
    /// empty slot takes up to `max_stack` and is updated with the stack as
    /// it lay, of `whole_stack` items.
    pub fn pickup_step(max_stack: u8, existing: Option<u8>, stack_size: u8, whole_stack: u8) -> (step:
        PickupStep)
        requires
            existing matches Some(e) ==> e <= max_stack,
        ensures
            step.added == match existing {
                Some(e) => lesser(max_stack - e, stack_size as int),
                None => lesser(max_stack as int, stack_size as int),
            },
            step.slot_count == match existing {
                Some(e) => e + step.added,
                None => whole_stack as int,
            },
            step.remaining == stack_size - step.added,
    {
        match existing {
            Some(existing_count) => {
                // We have the item in this stack already
                let amount_to_fill: u8 = max_stack - existing_count;
                let amount_to_add: u8 = if amount_to_fill < stack_size {
                    amount_to_fill
                } else {
                    stack_size
                };
                PickupStep {
                    added: amount_to_add,
                    slot_count: existing_count + amount_to_add,
                    remaining: stack_size - amount_to_add,
                }
            },
            None => {
                // A new stack
                let amount_to_add: u8 = if max_stack < stack_size {
                    max_stack
                } else {
                    stack_size
                };
                PickupStep {
                    added: amount_to_add,
                    slot_count: whole_stack,
                    remaining: stack_size - amount_to_add,
                }
            },
        }
    }
}

/// How far the search for neighbours to merge with reaches on each axis.
pub open spec fn merge_reach() -> VectorModel {
    VectorModel {
        x: DEFAULT_ITEM_MERGE_RADIUS as int,
        y: DEFAULT_ITEM_MERGE_RADIUS as int,
        z: DEFAULT_ITEM_MERGE_RADIUS as int,
    }
}

/// Half of a downward speed, turned upward, always fits.
pub proof fn lemma_bounce_fits(y: int)
    requires
        i64::MIN <= y < 0,
    ensures
        0 <= product(y, -BOUNCE) <= -y,
{
    let s = UNITS_PER_BLOCK as int;
    let b = BOUNCE as int;
    let m = -y;
    assert(y * (-b) == m * b) by (nonlinear_arith)
        requires
            m == -y,
    ;
    assert(0 <= m * b <= m * s) by (nonlinear_arith)
        requires
            0 <= m,
            0 <= b <= s,
    ;
    assert((m * s) / s == m) by (nonlinear_arith)
        requires
            s > 0,
    ;
    assert((m * b) / s <= (m * s) / s) by (nonlinear_arith)
        requires
            m * b <= m * s,
            s > 0,
    ;
    assert(0 <= (m * b) / s) by (nonlinear_arith)
        requires
            0 <= m * b,
            s > 0,
    ;
}

} // verus!
