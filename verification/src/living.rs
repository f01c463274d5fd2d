//! The vital state of a living entity: health, the grace period after a
//! hit, the dying countdown, and the effects that act on it.
use crate::boundingbox::BoundingBox;
use crate::entity::{KineticState, LandingSound, SAFE_FALL_DISTANCE};
use crate::fixed::{greater, representable, COORD_LIMIT};
use crate::movement::{box_models, shape_models};
use crate::vector3::{BlockPos, Vector3};
use crate::voxel_shape::VoxelShape;
use std::collections::HashMap;
use vstd::prelude::*;
use vstd::std_specs::hash::*;

verus! {

broadcast use vstd::std_specs::hash::group_hash_axioms;

/// The health with which a living entity starts (20 points).
pub const FULL_HEALTH: i64 = 20_000_000_000;

/// The grace period that a hit starts, in ticks.
pub const REGEN_TICKS: i32 = 20;

/// While more than this many ticks of the grace period are left, only a
/// stronger hit than the last one counts.
pub const GRACE_TICKS: i32 = 10;

/// A dying entity is removed when its death timer shows this many ticks.
pub const DEATH_TICKS: u8 = 20;

/// An item is dropped this far below the eyes (0.3 blocks).
pub const DROP_BELOW_EYES: i64 = 300_000_000;

/// How an effect acts on an entity.
#[derive(Debug, PartialEq, Eq, Hash, Clone, Copy)]
pub struct EffectData {
    pub duration: i32,
    pub amplifier: i8,
    pub ambient: bool,
    pub show_particles: bool,
    pub show_icon: bool,
    pub blend: bool,
}

/// What became of an attempt to damage an entity.
#[derive(Clone, Copy, Debug, PartialEq, Eq)]
pub enum DamageOutcome {
    /// The entity took no damage.
    Ignored,
    /// The entity lost health and lives.
    Hurt,
    /// The entity lost its last health.
    Killed,
}

impl DamageOutcome {
    /// Tells whether the entity was damaged.
    pub fn was_damaged(&self) -> (b: bool)
        ensures
            b == !(self is Ignored),
    {
        match self {
            DamageOutcome::Ignored => false,
            _ => true,
        }
    }
}

/// Whether a hit of `amount` counts for an entity with `regen` ticks of
/// grace left whose last hit was `last_damage`: during the first half of
/// the grace period only a stronger hit counts.
pub open spec fn hit_counts(regen: int, last_damage: int, amount: int) -> bool {
    regen > GRACE_TICKS ==> amount > last_damage
}

/// The grace period after a hit: a hit in its first half leaves it as it
/// is, any other hit starts it anew.
pub open spec fn regen_after_hit(regen: i32) -> i32 {
    if regen > GRACE_TICKS {
        regen
    } else {
        REGEN_TICKS
    }
}

/// What a hit of `amount` does to an entity with the given health.
pub open spec fn damage_outcome(health: int, amount: int, invulnerable: bool) -> DamageOutcome {
    if invulnerable {
        DamageOutcome::Ignored
    } else if health_after(health, amount) == 0 {
        DamageOutcome::Killed
    } else {
        DamageOutcome::Hurt
    }
}

/// The health that is left of `health` after a hit of `amount`.
pub open spec fn health_after(health: int, amount: int) -> int {
    greater(health - amount, 0)
}

/// Represents a living entity within the game world.
///
/// This struct encapsulates the core properties and behaviors of living
/// entities, including players, mobs, and other creatures.
pub struct LivingEntity {
    /// The underlying entity object, providing basic entity information and functionality.
    pub entity: KineticState,
    /// The last known position of the entity.
    pub last_pos: Vector3,
    /// Tracks the remaining time until the entity can regenerate health.
    pub time_until_regen: i32,
    /// Stores the amount of damage the entity last received.
    pub last_damage_taken: i64,
    /// The current health level of the entity.
    pub health: i64,
    pub death_time: u8,
    /// The effects that act on the entity, by the number of their kind.
    pub active_effects: HashMap<i32, EffectData>,
}

impl LivingEntity {
    /// The living entity that `entity` is: in full health, without effects.
    pub fn new(entity: KineticState) -> (s: LivingEntity)
        ensures
            s.entity == entity,
            s.last_pos@.is_zero(),
            s.time_until_regen == 0,
            s.last_damage_taken == 0,
            s.health == FULL_HEALTH,
            s.death_time == 0,
            s.active_effects@ == Map::<i32, EffectData>::empty(),
    {
        LivingEntity {
            entity,
            last_pos: Vector3::new(0, 0, 0),
            time_until_regen: 0,
            last_damage_taken: 0,
            health: FULL_HEALTH,
            death_time: 0,
            active_effects: HashMap::new(),
        }
    }

    /// Moves the entity to `position` and remembers where it was.
    pub fn set_pos(&mut self, position: Vector3)
        requires
            old(self).entity@.box_at(position@).representable(),
        ensures
            final(self).entity@ == old(self).entity@.at(position@),
            *final(self) == (LivingEntity {
                last_pos: old(self).entity.pos,
                entity: final(self).entity,
                ..*old(self)
            }),
    {
        self.last_pos = self.entity.pos;
        self.entity.set_pos(position);
    }

    /// Gives the entity `additional_health`, which must be positive.
    pub fn heal(&mut self, additional_health: i64)
        requires
            additional_health > 0,
            representable(old(self).health + additional_health),
        ensures
            *final(self) == (LivingEntity {
                health: (old(self).health + additional_health) as i64,
                ..*old(self)
            }),
    {
        self.set_health(self.health + additional_health);
    }

    /// Sets the health of the entity.
    pub fn set_health(&mut self, health: i64)
        ensures
            *final(self) == (LivingEntity { health, ..*old(self) }),
    {
        self.health = health;
    }

    pub fn get_entity(&self) -> (e: &KineticState)
        ensures
            *e == self.entity,
    {
        &self.entity
    }

    pub fn entity_id(&self) -> (id: i32)
        ensures
            id == self.entity.entity_id,
    {
        self.entity.entity_id
    }

    /// Takes `amount` of health from an entity that is not invulnerable to
    /// the damage; health never drops below zero, and an entity without
    /// health is killed.
    pub fn damage_with_context(&mut self, amount: i64, invulnerable: bool) -> (outcome:
        DamageOutcome)
        requires
            representable(old(self).health - amount),
        ensures
            outcome == damage_outcome(old(self).health as int, amount as int, invulnerable),
            *final(self) == (LivingEntity {
                health: if invulnerable {
                    old(self).health
                } else {
                    health_after(old(self).health as int, amount as int) as i64
                },
                ..*old(self)
            }),
    {
        // Check invulnerability before applying damage
        if invulnerable {
            return DamageOutcome::Ignored;
        }
        let left: i64 = self.health - amount;
        let new_health: i64 = if left > 0 {
            left
        } else {
            0
        };
        if new_health == 0 {
            self.kill();
            DamageOutcome::Killed
        } else {
            self.set_health(new_health);
            DamageOutcome::Hurt
        }
    }

    /// Starts the effect `effect` of the kind `kind`, in place of any
    /// effect of that kind.
    pub fn add_effect(&mut self, kind: i32, effect: EffectData)
        ensures
            final(self).active_effects@ == old(self).active_effects@.insert(kind, effect),
            *final(self) == (LivingEntity {
                active_effects: final(self).active_effects,
                ..*old(self)
            }),
    {
        self.active_effects.insert(kind, effect);
    }

    /// Ends the effect of the kind `kind`, if there is one.
    pub fn remove_effect(&mut self, kind: i32)
        ensures
            final(self).active_effects@ == old(self).active_effects@.remove(kind),
            *final(self) == (LivingEntity {
                active_effects: final(self).active_effects,
                ..*old(self)
            }),
    {
        self.active_effects.remove(&kind);
    }

    /// Tells whether an effect of the kind `kind` acts on the entity.
    pub fn has_effect(&self, kind: i32) -> (b: bool)
        ensures
            b == self.active_effects@.contains_key(kind),
    {
        self.active_effects.contains_key(&kind)
    }

    /// The effect of the kind `kind` that acts on the entity, if any.
    pub fn get_effect(&self, kind: i32) -> (r: Option<EffectData>)
        ensures
            r == if self.active_effects@.contains_key(kind) {
                Some(self.active_effects@[kind])
            } else {
                None
            },
    {
        match self.active_effects.get(&kind) {
            Some(effect) => Some(*effect),
            None => None,
        }
    }

    /// Returns if the entity was damaged or not
    ///
    /// A hit outside the first half of the grace period starts the period
    /// anew; one inside it counts only if it is stronger than the last.
    /// A hit that counts is remembered, and damages if it is positive.
    pub fn check_damage(&mut self, amount: i64) -> (damaged: bool)
        ensures
            damaged == (hit_counts(
                old(self).time_until_regen as int,
                old(self).last_damage_taken as int,
                amount as int,
            ) && amount > 0),
            *final(self) == (LivingEntity {
                time_until_regen: regen_after_hit(old(self).time_until_regen),
                last_damage_taken: if hit_counts(
                    old(self).time_until_regen as int,
                    old(self).last_damage_taken as int,
                    amount as int,
                ) {
                    amount
                } else {
                    old(self).last_damage_taken
                },
                ..*old(self)
            }),
    {
        let regen = self.time_until_regen;
        let last_damage = self.last_damage_taken;
        if regen > GRACE_TICKS {
            if amount <= last_damage {
                return false;
            }
        } else {
            self.time_until_regen = REGEN_TICKS;
        }
        self.last_damage_taken = amount;
        amount > 0
    }

    /// Kills the Entity
    pub fn kill(&mut self)
        ensures
            *final(self) == (LivingEntity { health: 0, ..*old(self) }),
    {
        self.set_health(0);
    }

    /// Where the entity, with its eyes `standing_eye_height` above its
    /// feet, drops `count` items: a little below the eyes, or nowhere when
    /// there is nothing to drop.
    pub fn create_item_to_drop(&self, standing_eye_height: i64, count: u32) -> (r: Option<Vector3>)
        requires
            representable(self.entity.pos.y + standing_eye_height - DROP_BELOW_EYES),
            representable(self.entity.pos.y + standing_eye_height),
        ensures
            count == 0 ==> r.is_none(),
            count != 0 ==> r == Some(
                Vector3 {
                    x: self.entity.pos.x,
                    y: (self.entity.pos.y + standing_eye_height - DROP_BELOW_EYES) as i64,
                    z: self.entity.pos.z,
                },
            ),
    {
        if count == 0 {
            None
        } else {
            let position = self.entity.pos;
            let height: i64 = position.y + standing_eye_height - DROP_BELOW_EYES;
            let location = Vector3::new(position.x, height, position.z);
            Some(location)
        }
    }

    /// One tick of the vital state: the grace period runs down, and an
    /// entity without health counts its death timer up. Returns whether
    /// the entity is to be removed from the world now, which is the case
    /// once, when the timer showed [`DEATH_TICKS`].
    pub fn tick(&mut self) -> (remove: bool)
        ensures
            remove == (old(self).health <= 0 && old(self).death_time == DEATH_TICKS),
            *final(self) == (LivingEntity {
                time_until_regen: if old(self).time_until_regen > 0 {
                    (old(self).time_until_regen - 1) as i32
                } else {
                    old(self).time_until_regen
                },
                death_time: if old(self).health > 0 {
                    old(self).death_time
                } else if old(self).death_time == u8::MAX {
                    0u8
                } else {
                    (old(self).death_time + 1) as u8
                },
                ..*old(self)
            }),
    {
        if self.time_until_regen > 0 {
            self.time_until_regen = self.time_until_regen - 1;
        }
        if self.health <= 0 {
            let time = self.death_time;
            self.death_time = if time == u8::MAX {
                0
            } else {
                time + 1
            };
            // Only remove entity and send remove packets once
            if time == DEATH_TICKS {
                return true;
            }
        }
        false
    }

    /// The hit of `amount` counts against the grace period of the entity.
    pub open spec fn counts(self, amount: i64) -> bool {
        hit_counts(self.time_until_regen as int, self.last_damage_taken as int, amount as int)
    }

    /// The hit of `amount` takes health from the entity.
    pub open spec fn takes(self, amount: i64, invulnerable: bool) -> bool {
        self.counts(amount) && amount > 0 && !invulnerable
    }

    /// The entity after a hit of `amount`.
    pub open spec fn after_damage(self, amount: i64, invulnerable: bool) -> LivingEntity {
        LivingEntity {
            time_until_regen: regen_after_hit(self.time_until_regen),
            last_damage_taken: if self.counts(amount) {
                amount
            } else {
                self.last_damage_taken
            },
            health: if self.takes(amount, invulnerable) {
                health_after(self.health as int, amount as int) as i64
            } else {
                self.health
            },
            ..self
        }
    }

    /// What a hit of `amount` comes to.
    pub open spec fn outcome_of(self, amount: i64, invulnerable: bool) -> DamageOutcome {
        if self.takes(amount, invulnerable) {
            damage_outcome(self.health as int, amount as int, false)
        } else {
            DamageOutcome::Ignored
        }
    }

    /// A hit of `amount`: it is first held against the grace period, then
    /// against the entity's invulnerability, and then taken from the
    /// health.
    pub fn damage(&mut self, amount: i64, invulnerable: bool) -> (outcome: DamageOutcome)
        requires
            representable(old(self).health - amount),
        ensures
            outcome == old(self).outcome_of(amount, invulnerable),
            *final(self) == old(self).after_damage(amount, invulnerable),
    {
        if !self.check_damage(amount) {
            return DamageOutcome::Ignored;
        }
        self.damage_with_context(amount, invulnerable)
    }

    /// One tick's movement of a living entity: the entity moves as
    /// [`KineticState::advance_entity_tick`] says, and a landing that hurts
    /// is taken as a hit of the fall's damage. An entity in a liquid, and
    /// one that is `excused`, lands without damage. Returns the sound to
    /// play: that of the landing, if the entity was damaged by it.
    pub fn tick_move(
        &mut self,
        movement: Vector3,
        block_shapes: &Vec<(BlockPos, VoxelShape)>,
        entity_boxes: &Vec<BoundingBox>,
        excused: bool,
        in_liquid: bool,
        invulnerable: bool,
    ) -> (sound: Option<LandingSound>)
        requires
            old(self).entity@.can_advance(
                movement@,
                shape_models(block_shapes@),
                box_models(entity_boxes@),
            ),
            old(self).health >= -COORD_LIMIT,
        ensures
            final(self).entity@ == old(self).entity@.advanced(
                movement@,
                shape_models(block_shapes@),
                box_models(entity_boxes@),
            ),
            ({
                let landing = old(self).entity@.stuck_consumed().landing(
                    old(self).entity@.desired(movement@),
                    old(self).entity@.resolved(
                        movement@,
                        shape_models(block_shapes@),
                        box_models(entity_boxes@),
                    ),
                    excused || in_liquid,
                );
                match landing {
                    Some(l) => {
                        &&& *final(self) == (LivingEntity {
                            entity: final(self).entity,
                            ..old(self).after_damage(l.damage, invulnerable)
                        })
                        &&& sound == if old(self).takes(l.damage, invulnerable) {
                            Some(l.sound)
                        } else {
                            None
                        }
                    },
                    None => {
                        &&& *final(self) == (LivingEntity {
                            entity: final(self).entity,
                            ..*old(self)
                        })
                        &&& sound.is_none()
                    },
                }
            }),
            old(self).entity.fall_distance <= SAFE_FALL_DISTANCE || excused || in_liquid ==> {
                &&& sound.is_none()
                &&& *final(self) == (LivingEntity { entity: final(self).entity, ..*old(self) })
            },
    {
        let exempt = excused || in_liquid;
        let landing = self.entity.advance_entity_tick(movement, block_shapes, entity_boxes, exempt);
        match landing {
            Some(l) => {
                proof {
                    crate::entity::lemma_fall_damage(old(self).entity@.fall_distance, exempt);
                }
                let outcome = self.damage(l.damage, invulnerable);
                if outcome.was_damaged() {
                    Some(l.sound)
                } else {
                    None
                }
            },
            None => None,
        }
    }

    /// One tick of the living entity moving by itself: the movement that
    /// it wants to make is its velocity, and it is made as
    /// [`LivingEntity::tick_move`] makes any movement, with the fall damage
    /// of its landing. Returns the sound to play.
    pub fn global_tick(
        &mut self,
        block_shapes: &Vec<(BlockPos, VoxelShape)>,
        entity_boxes: &Vec<BoundingBox>,
        excused: bool,
        in_liquid: bool,
        invulnerable: bool,
    ) -> (sound: Option<LandingSound>)
        requires
            old(self).entity@.can_advance(
                old(self).entity@.velocity,
                shape_models(block_shapes@),
                box_models(entity_boxes@),
            ),
            old(self).health >= -COORD_LIMIT,
        ensures
            final(self).entity@ == old(self).entity@.advanced(
                old(self).entity@.velocity,
                shape_models(block_shapes@),
                box_models(entity_boxes@),
            ),
            ({
                let landing = old(self).entity@.stuck_consumed().landing(
                    old(self).entity@.desired(old(self).entity@.velocity),
                    old(self).entity@.resolved(
                        old(self).entity@.velocity,
                        shape_models(block_shapes@),
                        box_models(entity_boxes@),
                    ),
                    excused || in_liquid,
                );
                match landing {
                    Some(l) => {
                        &&& *final(self) == (LivingEntity {
                            entity: final(self).entity,
                            ..old(self).after_damage(l.damage, invulnerable)
                        })
                        &&& sound == if old(self).takes(l.damage, invulnerable) {
                            Some(l.sound)
                        } else {
                            None
                        }
                    },
                    None => {
                        &&& *final(self) == (LivingEntity {
                            entity: final(self).entity,
                            ..*old(self)
                        })
                        &&& sound.is_none()
                    },
                }
            }),
            old(self).entity.fall_distance <= SAFE_FALL_DISTANCE || excused || in_liquid ==> {
                &&& sound.is_none()
                &&& *final(self) == (LivingEntity { entity: final(self).entity, ..*old(self) })
            },
    {
        let velocity = self.entity.velocity;
        self.tick_move(velocity, block_shapes, entity_boxes, excused, in_liquid, invulnerable)
    }

    /// The health to store for the entity.
    pub fn write_nbt(&self) -> (health: i64)
        ensures
            health == self.health,
    {
        self.health
    }

    /// The health that a stored entity comes back with: the stored health,
    /// or none at all where nothing was stored.
    pub fn read_nbt(&mut self, stored_health: Option<i64>)
        ensures
            *final(self) == (LivingEntity {
                health: match stored_health {
                    Some(h) => h,
                    None => 0,
                },
                ..*old(self)
            }),
    {
        self.health = match stored_health {
            Some(h) => h,
            None => 0,
        };
    }
}

} // verus!
