//! The records in which entities are stored, and the access to the fields
//! that every entity has.
use crate::entity_data::{
    stored_uuid_bits, uuid_bits, uuid_from_stored, EntityCommon, EntityId, LivingCommon,
};
use crate::item::ItemStack;
use crate::nbt::{stored_vector, vector_from_stored, vector_to_stored};
use crate::vector3::Vector3;
use vstd::prelude::*;

verus! {

/// The fields of every stored entity that is not a player.
#[derive(Debug)]
pub struct NonPlayerCommon {
    pub common: EntityCommon,
    /// The custom name of the entity, as the text of its JSON form.
    pub custom_name: Option<String>,
    pub custom_name_visible: bool,
}

/// The fields of every stored mob.
#[derive(Debug)]
pub struct MobCommon {
    pub living_common: LivingCommon,
    pub non_player_common: NonPlayerCommon,
}

/// The fields of every stored zombie.
#[derive(Debug)]
pub struct ZombieCommon {
    pub mob_common: MobCommon,
    pub is_baby: bool,
}

/// The fields of every stored projectile.
#[derive(Debug)]
pub struct ProjectileCommon {
    pub common: NonPlayerCommon,
}

/// A stored experience orb.
#[derive(Debug)]
pub struct ExpOrb {
    pub common: NonPlayerCommon,
    pub age_ticks: i16,
    pub merge_count: i32,
    pub health: i16,
    pub value: i16,
}

/// A stored item entity.
#[derive(Debug)]
pub struct Item {
    pub common: NonPlayerCommon,
    pub age_ticks: i16,
    pub pickup_delay_ticks: i16,
    pub health: i16,
    pub stack: ItemStack,
}

/// Stored primed TNT.
#[derive(Debug)]
pub struct Tnt {
    pub common: NonPlayerCommon,
    pub fuse_ticks: i16,
    pub explosion_power: i64,
}

/// What is read of the data of an entity of an unknown kind: the lists that
/// are stored under `UUID`, `Pos` and `Motion`, where they are there.
#[derive(Debug)]
pub struct GenericData {
    pub uuid: Option<Vec<i32>>,
    pub pos: Option<Vec<i64>>,
    pub motion: Option<Vec<i64>>,
}

/// A stored entity of an unknown kind.
#[derive(Debug)]
pub struct GenericEntity {
    pub id: EntityId,
    pub data: GenericData,
}

impl ExpOrb {
    /// The record with the common fields `common` and all else as it is.
    pub open spec fn with_common(self, common: EntityCommon) -> ExpOrb {
        ExpOrb { common: NonPlayerCommon { common, ..self.common }, ..self }
    }

    pub fn uuid(&self) -> (uuid: uuid::Uuid)
        ensures
            uuid == self.common.common.uuid,
    {
        self.common.common.uuid()
    }

    pub fn id(&self) -> (id: EntityId)
        ensures
            id == self.common.common.id,
    {
        self.common.common.id()
    }

    pub fn pos(&self) -> (pos: Vector3)
        ensures
            pos == self.common.common.pos,
    {
        self.common.common.pos
    }

    pub fn set_pos(&mut self, pos: Vector3)
        ensures
            final(self).common.common == (EntityCommon { pos, ..old(self).common.common }),
            *final(self) == old(self).with_common(final(self).common.common),
    {
        self.common.common.pos = pos;
    }

    pub fn set_velocity(&mut self, velocity: Vector3)
        ensures
            final(self).common.common == (EntityCommon { velocity, ..old(self).common.common }),
            *final(self) == old(self).with_common(final(self).common.common),
    {
        self.common.common.velocity = velocity;
    }

    pub fn get_velocity(&self) -> (velocity: Vector3)
        ensures
            velocity == self.common.common.velocity,
    {
        self.common.common.velocity
    }
}

impl Item {
    /// The record with the common fields `common` and all else as it is.
    pub open spec fn with_common(self, common: EntityCommon) -> Item {
        Item { common: NonPlayerCommon { common, ..self.common }, ..self }
    }

    pub fn uuid(&self) -> (uuid: uuid::Uuid)
        ensures
            uuid == self.common.common.uuid,
    {
        self.common.common.uuid()
    }

    pub fn id(&self) -> (id: EntityId)
        ensures
            id == self.common.common.id,
    {
        self.common.common.id()
    }

    pub fn pos(&self) -> (pos: Vector3)
        ensures
            pos == self.common.common.pos,
    {
        self.common.common.pos
    }

    pub fn set_pos(&mut self, pos: Vector3)
        ensures
            final(self).common.common == (EntityCommon { pos, ..old(self).common.common }),
            *final(self) == old(self).with_common(final(self).common.common),
    {
        self.common.common.pos = pos;
    }

    pub fn set_velocity(&mut self, velocity: Vector3)
        ensures
            final(self).common.common == (EntityCommon { velocity, ..old(self).common.common }),
            *final(self) == old(self).with_common(final(self).common.common),
    {
        self.common.common.velocity = velocity;
    }

    pub fn get_velocity(&self) -> (velocity: Vector3)
        ensures
            velocity == self.common.common.velocity,
    {
        self.common.common.velocity
    }
}

impl Tnt {
    /// The record with the common fields `common` and all else as it is.
    pub open spec fn with_common(self, common: EntityCommon) -> Tnt {
        Tnt { common: NonPlayerCommon { common, ..self.common }, ..self }
    }

    pub fn uuid(&self) -> (uuid: uuid::Uuid)
        ensures
            uuid == self.common.common.uuid,
    {
        self.common.common.uuid()
    }

    pub fn id(&self) -> (id: EntityId)
        ensures
            id == self.common.common.id,
    {
        self.common.common.id()
    }

    pub fn pos(&self) -> (pos: Vector3)
        ensures
            pos == self.common.common.pos,
    {
        self.common.common.pos
    }

    pub fn set_pos(&mut self, pos: Vector3)
        ensures
            final(self).common.common == (EntityCommon { pos, ..old(self).common.common }),
            *final(self) == old(self).with_common(final(self).common.common),
    {
        self.common.common.pos = pos;
    }

    pub fn set_velocity(&mut self, velocity: Vector3)
        ensures
            final(self).common.common == (EntityCommon { velocity, ..old(self).common.common }),
            *final(self) == old(self).with_common(final(self).common.common),
    {
        self.common.common.velocity = velocity;
    }

    pub fn get_velocity(&self) -> (velocity: Vector3)
        ensures
            velocity == self.common.common.velocity,
    {
        self.common.common.velocity
    }

    /// One tick of the fuse. Returns whether the TNT explodes now: it does
    /// when one tick of the fuse is left.
    pub fn tick(&self) -> (explode: bool)
        ensures
            explode == (self.fuse_ticks == 1),
    {
        let fuse: i32 = self.fuse_ticks as i32 - 1;
        fuse == 0
    }

    /// Primed TNT takes no damage.
    pub fn damage(&self, _amount: i64) -> (damaged: bool)
        ensures
            !damaged,
    {
        false
    }
}

/// The list as which a vector is stored.
pub open spec fn stored_list(v: Vector3) -> Seq<i64> {
    seq![v.x, v.y, v.z]
}

impl GenericEntity {
    pub fn id(&self) -> (id: EntityId)
        ensures
            id == self.id,
    {
        self.id
    }

    /// The UUID of the entity: the one stored under `UUID`, or the nil UUID
    /// where none is stored.
    pub fn uuid(&self) -> (uuid: uuid::Uuid)
        ensures
            uuid_bits(uuid) == stored_uuid_bits(self.data.uuid),
    {
        uuid_from_stored(&self.data.uuid)
    }

    /// The position of the entity: the one stored under `Pos`, or the
    /// origin where none is stored.
    pub fn pos(&self) -> (pos: Vector3)
        ensures
            pos == stored_vector(self.data.pos),
    {
        vector_from_stored(&self.data.pos)
    }

    /// Stores `pos` under `Pos`.
    pub fn set_pos(&mut self, pos: Vector3)
        ensures
            final(self).data.pos matches Some(raw) && raw@ == stored_list(pos),
            stored_vector(final(self).data.pos) == pos,
            final(self).id == old(self).id,
            final(self).data.uuid == old(self).data.uuid,
            final(self).data.motion == old(self).data.motion,
    {
        self.data.pos = Some(list_of(&pos));
    }

    /// The velocity of the entity: the one stored under `Motion`, or none
    /// at all where none is stored.
    pub fn get_velocity(&self) -> (velocity: Vector3)
        ensures
            velocity == stored_vector(self.data.motion),
    {
        vector_from_stored(&self.data.motion)
    }

    /// Stores `velocity` under `Motion`.
    pub fn set_velocity(&mut self, velocity: Vector3)
        ensures
            final(self).data.motion matches Some(raw) && raw@ == stored_list(velocity),
            stored_vector(final(self).data.motion) == velocity,
            final(self).id == old(self).id,
            final(self).data.uuid == old(self).data.uuid,
            final(self).data.pos == old(self).data.pos,
    {
        self.data.motion = Some(list_of(&velocity));
    }
}

/// The list as which a vector is stored.
pub fn list_of(v: &Vector3) -> (list: Vec<i64>)
    ensures
        list@ == stored_list(*v),
{
    let raw = vector_to_stored(v);
    let mut list: Vec<i64> = Vec::new();
    list.push(raw[0]);
    list.push(raw[1]);
    list.push(raw[2]);
    list
}

} // verus!
