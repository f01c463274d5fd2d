//! The stored data of entities: identity, the common fields of every
//! entity, and the form in which a UUID is written as four integers.
use crate::living::{EffectData, FULL_HEALTH};
use crate::vector3::Vector3;
use std::collections::HashMap;
use vstd::prelude::*;
use vstd::std_specs::hash::*;

verus! {

broadcast use vstd::std_specs::hash::group_hash_axioms;

/// Unique identifier for an entity. Transient.
pub type EntityId = i32;

/// The source of entity ids of one world: it hands out consecutive ids.
#[derive(Clone, Copy, Debug, PartialEq, Eq)]
pub struct EntityIdCounter {
    pub next: EntityId,
}

/// The id that follows `id`; after the largest id the smallest comes.
pub open spec fn id_after(id: EntityId) -> EntityId {
    if id == i32::MAX {
        i32::MIN
    } else {
        (id + 1) as i32
    }
}

/// The id that is handed out `n` ids after `id`.
pub open spec fn id_after_many(id: EntityId, n: nat) -> EntityId
    decreases n,
{
    if n == 0 {
        id
    } else {
        id_after(id_after_many(id, (n - 1) as nat))
    }
}

impl EntityIdCounter {
    /// A counter whose first id is zero.
    pub fn new() -> (c: EntityIdCounter)
        ensures
            c.next == 0,
    {
        EntityIdCounter { next: 0 }
    }
}

/// Takes the next id from the counter.
pub fn assign_entity_id(counter: &mut EntityIdCounter) -> (id: EntityId)
    ensures
        id == old(counter).next,
        final(counter).next == id_after(old(counter).next),
{
    let id = counter.next;
    counter.next = if id == i32::MAX {
        i32::MIN
    } else {
        id + 1
    };
    id
}

/// Ids that are handed out fewer than 2^32 ids apart differ.
pub proof fn lemma_ids_differ(id: EntityId, m: nat, n: nat)
    requires
        m < n,
        n - m < 0x1_0000_0000,
    ensures
        id_after_many(id, m) != id_after_many(id, n),
{
    lemma_id_after_many(id, m);
    lemma_id_after_many(id, n);
}

/// The id `n` steps after `id` is `id + n`, wrapped into the range of ids.
pub proof fn lemma_id_after_many(id: EntityId, n: nat)
    ensures
        (id_after_many(id, n) - id - n) % 0x1_0000_0000 == 0,
    decreases n,
{
    if n > 0 {
        lemma_id_after_many(id, (n - 1) as nat);
    }
}

/// Represents various entity flags that are sent in entity metadata.
///
/// These flags are used by the client to modify the rendering of entities
/// based on their current state.
#[derive(Clone, Copy, Debug, PartialEq, Eq)]
pub enum Flag {
    /// Indicates if the entity is on fire.
    OnFire,
    /// Indicates if the entity is sneaking.
    Sneaking,
    /// Indicates if the entity is sprinting.
    Sprinting,
    /// Indicates if the entity is swimming.
    Swimming,
    /// Indicates if the entity is invisible.
    Invisible,
    /// Indicates if the entity is glowing.
    Glowing,
    /// Indicates if the entity is flying due to a fall.
    FallFlying,
}

impl Flag {
    /// The number of the bit that stands for the flag.
    pub open spec fn bit(self) -> int {
        match self {
            Flag::OnFire => 0,
            Flag::Sneaking => 1,
            Flag::Sprinting => 3,
            Flag::Swimming => 4,
            Flag::Invisible => 5,
            Flag::Glowing => 6,
            Flag::FallFlying => 7,
        }
    }

    /// The number of the bit that stands for the flag.
    pub fn index(&self) -> (i: u8)
        ensures
            i == self.bit(),
            i < 8,
    {
        match self {
            Flag::OnFire => 0,
            Flag::Sneaking => 1,
            Flag::Sprinting => 3,
            Flag::Swimming => 4,
            Flag::Invisible => 5,
            Flag::Glowing => 6,
            Flag::FallFlying => 7,
        }
    }
}

/// No two flags share a bit.
pub proof fn lemma_flag_bits_differ(a: Flag, b: Flag)
    requires
        a != b,
    ensures
        a.bit() != b.bit(),
{
}

/// The UUID type of the `uuid` crate. Nothing inside it is visible here.
#[verifier::external_type_specification]
#[verifier::external_body]
pub struct ExUuid(uuid::Uuid);

/// The 128 bits of a UUID: the 64 most significant bits and the 64 least
/// significant.
pub uninterp spec fn uuid_bits(uuid: uuid::Uuid) -> (u64, u64);

/// Calls `Uuid::as_u64_pair`, which splits the 128 bits of the UUID into
/// the 64 most significant and the 64 least significant bits. The contract
/// names that pair.
#[verifier::external_body]
fn as_u64_pair(uuid: &uuid::Uuid) -> (pair: (u64, u64))
    ensures
        pair == uuid_bits(*uuid),
{
    uuid.as_u64_pair()
}

/// Calls `Uuid::from_u64_pair`, which makes the UUID whose 64 most
/// significant bits are `high_bits` and whose 64 least significant bits are
/// `low_bits`.
#[verifier::external_body]
fn from_u64_pair(high_bits: u64, low_bits: u64) -> (uuid: uuid::Uuid)
    ensures
        uuid_bits(uuid) == (high_bits, low_bits),
{
    uuid::Uuid::from_u64_pair(high_bits, low_bits)
}

/// The four integers as which a UUID is stored, the most significant
/// first.
pub fn uuid_to_int_array(uuid: &uuid::Uuid) -> (words: [i32; 4])
    ensures
        words[0] == upper_word(uuid_bits(*uuid).0),
        words[1] == lower_word(uuid_bits(*uuid).0),
        words[2] == upper_word(uuid_bits(*uuid).1),
        words[3] == lower_word(uuid_bits(*uuid).1),
{
    let (hi, lo) = as_u64_pair(uuid);
    EntityUuid { hi, lo }.to_int_array()
}

/// The UUID that four stored integers stand for.
pub fn uuid_from_int_array(words: [i32; 4]) -> (uuid: uuid::Uuid)
    ensures
        uuid_bits(uuid) == (joined(words[0], words[1]), joined(words[2], words[3])),
{
    let bits = EntityUuid::from_int_array(words);
    from_u64_pair(bits.hi, bits.lo)
}

/// The bits of the UUID that a stored list of integers stands for; all
/// zero where the list is missing or has fewer than four integers.
pub open spec fn stored_uuid_bits(stored: Option<Vec<i32>>) -> (u64, u64) {
    match stored {
        Some(raw) if raw@.len() >= 4 => (joined(raw@[0], raw@[1]), joined(raw@[2], raw@[3])),
        _ => (0u64, 0u64),
    }
}

/// The UUID that a stored list of integers stands for; the nil UUID, all
/// of whose bits are zero, where the list is missing or has fewer than four
/// integers.
pub fn uuid_from_stored(stored: &Option<Vec<i32>>) -> (uuid: uuid::Uuid)
    ensures
        uuid_bits(uuid) == stored_uuid_bits(*stored),
{
    let bits = EntityUuid::from_stored(stored);
    from_u64_pair(bits.hi, bits.lo)
}

/// The 128 bits of a UUID as two plain halves.
#[derive(Clone, Copy, Debug, PartialEq, Eq)]
pub struct EntityUuid {
    pub hi: u64,
    pub lo: u64,
}

/// The upper 32 bits of `v`, as a signed integer.
pub open spec fn upper_word(v: u64) -> i32 {
    (v >> 32) as i32
}

/// The lower 32 bits of `v`, as a signed integer.
pub open spec fn lower_word(v: u64) -> i32 {
    v as i32
}

/// The 64 bits that two stored words stand for: the first word moved up
/// by 32 bits, joined bit by bit with the second word, each word widened
/// with its sign.
pub open spec fn joined(upper: i32, lower: i32) -> u64 {
    ((upper as u64) << 32) | (lower as u64)
}

impl EntityUuid {
    /// The four integers as which the UUID is stored, the most significant
    /// first.
    pub fn to_int_array(&self) -> (words: [i32; 4])
        ensures
            words[0] == upper_word(self.hi),
            words[1] == lower_word(self.hi),
            words[2] == upper_word(self.lo),
            words[3] == lower_word(self.lo),
    {
        let hi_hi = #[verifier::truncate]
        ((self.hi >> 32) as i32);
        let hi_lo = #[verifier::truncate]
        (self.hi as i32);
        let lo_hi = #[verifier::truncate]
        ((self.lo >> 32) as i32);
        let lo_lo = #[verifier::truncate]
        (self.lo as i32);
        [hi_hi, hi_lo, lo_hi, lo_lo]
    }

    /// The UUID that four stored integers stand for.
    pub fn from_int_array(words: [i32; 4]) -> (uuid: EntityUuid)
        ensures
            uuid.hi == joined(words[0], words[1]),
            uuid.lo == joined(words[2], words[3]),
    {
        let hi = ((#[verifier::truncate]
        (words[0] as u64)) << 32) | #[verifier::truncate]
        (words[1] as u64);
        let lo = ((#[verifier::truncate]
        (words[2] as u64)) << 32) | #[verifier::truncate]
        (words[3] as u64);
        EntityUuid { hi, lo }
    }

    /// The UUID that a stored list of integers stands for; the nil UUID
    /// where the list is missing or has fewer than four integers.
    pub fn from_stored(stored: &Option<Vec<i32>>) -> (uuid: EntityUuid)
        ensures
            (uuid.hi, uuid.lo) == stored_uuid_bits(*stored),
    {
        match stored {
            Some(raw) => {
                if raw.len() >= 4 {
                    EntityUuid::from_int_array([raw[0], raw[1], raw[2], raw[3]])
                } else {
                    EntityUuid { hi: 0, lo: 0 }
                }
            },
            None => EntityUuid { hi: 0, lo: 0 },
        }
    }
}

/// Half of a UUID comes back from its two stored words as it was written
/// when its lower word is not negative; the sign of a negative lower word
/// spills into the upper half.
pub proof fn lemma_words_round_trip(v: u64)
    ensures
        lower_word(v) >= 0 ==> joined(upper_word(v), lower_word(v)) == v,
        lower_word(v) < 0 ==> joined(upper_word(v), lower_word(v)) == v | 0xffff_ffff_0000_0000,
{
    assert(((v as i32) >= 0) ==> (((((v >> 32) as i32) as u64) << 32) | ((v as i32) as u64)) == v)
        by (bit_vector);
    assert(((v as i32) < 0) ==> (((((v >> 32) as i32) as u64) << 32) | ((v as i32) as u64)) == (v
        | 0xffff_ffff_0000_0000)) by (bit_vector);
}

/// The direction in which an entity looks, in degrees as fixed-point
/// scalars.
#[derive(Debug, Clone, Copy, PartialEq, Eq)]
pub struct Rotation {
    pub yaw: i64,
    pub pitch: i64,
}

/// The fields that every stored entity has.
#[derive(Debug, Clone, Copy, PartialEq, Eq)]
pub struct EntityCommon {
    pub id: EntityId,
    pub uuid: uuid::Uuid,
    pub air_ticks: i16,
    pub fall_distance: i64,
    pub fire_ticks: i16,
    pub glowing: bool,
    pub visual_fire: bool,
    pub invulnerable: bool,
    pub velocity: Vector3,
    pub no_gravity: bool,
    pub on_ground: bool,
    pub portal_cooldown_ticks: i32,
    pub pos: Vector3,
    pub rotation: Rotation,
    pub silent: bool,
}

impl EntityCommon {
    pub fn id(&self) -> (id: EntityId)
        ensures
            id == self.id,
    {
        self.id
    }

    pub fn uuid(&self) -> (uuid: uuid::Uuid)
        ensures
            uuid == self.uuid,
    {
        self.uuid
    }

    /// The common fields of a new player: at rest at the origin, on the
    /// ground, with the next id of the counter.
    pub fn new_player(uuid: uuid::Uuid, counter: &mut EntityIdCounter) -> (e: EntityCommon)
        ensures
            final(counter).next == id_after(old(counter).next),
            e == (EntityCommon {
                id: old(counter).next,
                uuid,
                air_ticks: 0,
                fall_distance: 0,
                fire_ticks: 0,
                glowing: false,
                visual_fire: false,
                invulnerable: false,
                velocity: Vector3 { x: 0, y: 0, z: 0 },
                no_gravity: false,
                on_ground: true,
                portal_cooldown_ticks: 0,
                pos: Vector3 { x: 0, y: 0, z: 0 },
                rotation: Rotation { yaw: 0, pitch: 0 },
                silent: false,
            }),
    {
        EntityCommon {
            id: assign_entity_id(counter),
            uuid,
            air_ticks: 0,
            fall_distance: 0,
            fire_ticks: 0,
            glowing: false,
            visual_fire: false,
            invulnerable: false,
            velocity: Vector3::new(0, 0, 0),
            no_gravity: false,
            on_ground: true,
            portal_cooldown_ticks: 0,
            pos: Vector3::new(0, 0, 0),
            rotation: Rotation { yaw: 0, pitch: 0 },
            silent: false,
        }
    }

    pub fn pos(&self) -> (p: Vector3)
        ensures
            p == self.pos,
    {
        self.pos
    }

    pub fn set_pos(&mut self, pos: Vector3)
        ensures
            *final(self) == (EntityCommon { pos, ..*old(self) }),
    {
        self.pos = pos;
    }

    pub fn get_velocity(&self) -> (v: Vector3)
        ensures
            v == self.velocity,
    {
        self.velocity
    }

    pub fn set_velocity(&mut self, velocity: Vector3)
        ensures
            *final(self) == (EntityCommon { velocity, ..*old(self) }),
    {
        self.velocity = velocity;
    }
}

/// The fields that every stored living entity has.
#[derive(Debug)]
pub struct LivingCommon {
    pub absorption: i64,
    pub active_effects: HashMap<i32, EffectData>,
    pub can_pick_up_items: bool,
    pub death_ticks: i16,
    pub fall_flying: bool,
    pub health: i64,
}

impl LivingCommon {
    /// The living fields of a new player: full health, no effects, and
    /// able to pick up items.
    pub fn new_player() -> (l: LivingCommon)
        ensures
            l.absorption == 0,
            l.active_effects@ == Map::<i32, EffectData>::empty(),
            l.can_pick_up_items,
            l.death_ticks == 0,
            !l.fall_flying,
            l.health == FULL_HEALTH,
    {
        LivingCommon {
            absorption: 0,
            active_effects: HashMap::new(),
            can_pick_up_items: true,
            death_ticks: 0,
            fall_flying: false,
            health: FULL_HEALTH,
        }
    }
}

/// The bytes of an entity's metadata as they are sent: the encoded entries
/// one after the other, closed by the byte 255.
pub open spec fn framed(parts: Seq<Vec<u8>>, n: int) -> Seq<u8>
    decreases n,
{
    if n <= 0 {
        Seq::empty()
    } else {
        framed(parts, n - 1) + parts[n - 1]@
    }
}

/// The byte that closes the metadata of an entity.
pub const METADATA_END: u8 = 255;

/// The bytes of an entity's metadata as they are sent: the encoded entries
/// in their order, closed by [`METADATA_END`].
pub fn send_meta_data(meta: &Vec<Vec<u8>>) -> (buf: Vec<u8>)
    ensures
        buf@ == framed(meta@, meta@.len() as int).push(METADATA_END),
{
    let mut buf: Vec<u8> = Vec::new();
    let mut i: usize = 0;
    while i < meta.len()
        invariant
            i <= meta@.len(),
            buf@ == framed(meta@, i as int),
        decreases meta@.len() - i,
    {
        let serializer_buf = &meta[i];
        let mut k: usize = 0;
        while k < serializer_buf.len()
            invariant
                i < meta@.len(),
                serializer_buf == &meta@[i as int],
                k <= serializer_buf@.len(),
                buf@ == framed(meta@, i as int) + serializer_buf@.subrange(0, k as int),
            decreases serializer_buf@.len() - k,
        {
            buf.push(serializer_buf[k]);
            k += 1;
        }
        i += 1;
    }
    buf.push(METADATA_END);
    buf
}

} // verus!
