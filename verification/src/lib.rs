//! The simulation core of a voxel-world game server: how an entity moves in
//! one tick, and what stops it.
//!
//! A proposed movement is clamped against the collision geometry of blocks
//! and against other entities, axis by axis; from the outcome follow ground
//! contact, fall damage, and the velocity that is left. Around this core
//! stand the rules of living entities, item entities and redstone
//! repeaters, the properties of the dimensions, and the stored forms of
//! entity data.
//!
//! Every quantity is an exact fixed-point number (see [`fixed`]), and every
//! function states in its contract what it computes; the contracts are
//! proved.

pub mod boundingbox;
pub mod collision_util;
pub mod dimension;
pub mod direction;
pub mod entity;
pub mod entity_data;
pub mod fixed;
pub mod item;
pub mod living;
pub mod movement;
pub mod nbt;
pub mod registry;
pub mod repeater;
pub mod stored_entity;
pub mod vector3;
pub mod voxel_shape;
