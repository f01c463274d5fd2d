//! The stored form of resource names and of the values that are kept under
//! them.
//!
//! Names are handled as the bytes of their text; turning text into bytes
//! and looking a key up in a registry is the caller's work.
use crate::item::ItemStack;
use crate::vector3::Vector3;
use vstd::prelude::*;

verus! {

/// Why a stored value was refused.
#[derive(Clone, Copy, Debug, PartialEq, Eq)]
pub enum NbtError {
    /// The name does not begin with the vanilla namespace.
    InvalidResourceId,
    /// No resource of that name is known.
    UnknownResourceId,
}

/// The bytes of `minecraft:`, the prefix of every vanilla resource name.
pub open spec fn vanilla_prefix() -> Seq<u8> {
    seq![0x6d, 0x69, 0x6e, 0x65, 0x63, 0x72, 0x61, 0x66, 0x74, 0x3a]
}

/// `id` begins with the vanilla prefix.
pub open spec fn is_vanilla(id: Seq<u8>) -> bool {
    id.len() >= 10 && id.subrange(0, 10) == vanilla_prefix()
}

/// The count of a stack as it is stored.
pub open spec fn stored_count(count: i32) -> u8 {
    (count as int % 256) as u8
}

/// The bytes of `minecraft:`.
pub fn vanilla_prefix_bytes() -> (prefix: [u8; 10])
    ensures
        prefix@ == vanilla_prefix(),
{
    let prefix: [u8; 10] = [0x6d, 0x69, 0x6e, 0x65, 0x63, 0x72, 0x61, 0x66, 0x74, 0x3a];
    prefix
}

/// The name of the vanilla resource with the key `key`: the key behind the
/// vanilla prefix.
pub fn resource_id(key: &Vec<u8>) -> (id: Vec<u8>)
    ensures
        id@ == vanilla_prefix() + key@,
        is_vanilla(id@),
{
    let prefix = vanilla_prefix_bytes();
    let mut id: Vec<u8> = Vec::new();
    let mut i: usize = 0;
    while i < 10
        invariant
            i <= 10,
            prefix@ == vanilla_prefix(),
            id@ == vanilla_prefix().subrange(0, i as int),
        decreases 10 - i,
    {
        id.push(prefix[i]);
        i += 1;
    }
    let mut k: usize = 0;
    while k < key.len()
        invariant
            k <= key@.len(),
            id@ == vanilla_prefix() + key@.subrange(0, k as int),
        decreases key@.len() - k,
    {
        id.push(key[k]);
        k += 1;
    }
    assert(id@.subrange(0, 10) =~= vanilla_prefix());
    id
}

/// The key of the vanilla resource with the name `id`: what follows the
/// vanilla prefix. A name without the prefix is refused.
pub fn resource_key(id: &Vec<u8>) -> (key: Result<Vec<u8>, NbtError>)
    ensures
        match key {
            Ok(k) => id@ == vanilla_prefix() + k@,
            Err(e) => e == NbtError::InvalidResourceId && !is_vanilla(id@),
        },
{
    let prefix = vanilla_prefix_bytes();
    if id.len() < 10 {
        return Err(NbtError::InvalidResourceId);
    }
    let mut i: usize = 0;
    while i < 10
        invariant
            i <= 10,
            id@.len() >= 10,
            prefix@ == vanilla_prefix(),
            forall|j: int| 0 <= j < i ==> id@[j] == vanilla_prefix()[j],
        decreases 10 - i,
    {
        if id[i] != prefix[i] {
            return Err(NbtError::InvalidResourceId);
        }
        i += 1;
    }
    let mut key: Vec<u8> = Vec::new();
    let mut k: usize = 10;
    while k < id.len()
        invariant
            10 <= k <= id@.len(),
            key@ == id@.subrange(10, k as int),
        decreases id@.len() - k,
    {
        key.push(id[k]);
        k += 1;
    }
    Ok(key)
}

/// Writing a key as a name and reading the name back gives the key.
pub proof fn lemma_resource_key_round_trip(key: Seq<u8>)
    ensures
        is_vanilla(vanilla_prefix() + key),
        (vanilla_prefix() + key).subrange(10, (vanilla_prefix() + key).len() as int) == key,
{
    assert((vanilla_prefix() + key).subrange(0, 10) =~= vanilla_prefix());
}

/// The stack that is stored as `count` items of a resource. `item` is what
/// the registry knows of the resource, its id and its stack size, or `None`
/// for a resource that it does not know, which is refused. Only the low
/// eight bits of the count are kept.
pub fn item_stack_from_stored(count: i32, item: Option<(u16, u8)>) -> (stack: Result<
    ItemStack,
    NbtError,
>)
    ensures
        stack == match item {
            Some((item_id, max_stack_size)) => Ok::<ItemStack, NbtError>(
                ItemStack { item_count: stored_count(count), item_id, max_stack_size },
            ),
            None => Err(NbtError::UnknownResourceId),
        },
{
    match item {
        Some((item_id, max_stack_size)) => {
            let r: i32 = count % 256;
            let low: i32 = if r < 0 {
                r + 256
            } else {
                r
            };
            Ok(ItemStack::new(low as u8, item_id, max_stack_size))
        },
        None => Err(NbtError::UnknownResourceId),
    }
}

/// The vector that a stored list of numbers stands for: its first three
/// entries; the zero vector where the list is missing or shorter.
pub open spec fn stored_vector(stored: Option<Vec<i64>>) -> Vector3 {
    match stored {
        Some(raw) if raw@.len() >= 3 => Vector3 { x: raw@[0], y: raw@[1], z: raw@[2] },
        _ => Vector3 { x: 0, y: 0, z: 0 },
    }
}

/// The vector that a stored list of numbers stands for: its first three
/// entries; the zero vector where the list is missing or shorter.
pub fn vector_from_stored(stored: &Option<Vec<i64>>) -> (v: Vector3)
    ensures
        v == stored_vector(*stored),
{
    match stored {
        Some(raw) => {
            if raw.len() >= 3 {
                Vector3::new(raw[0], raw[1], raw[2])
            } else {
                Vector3::new(0, 0, 0)
            }
        },
        None => Vector3::new(0, 0, 0),
    }
}

/// The list of numbers as which a vector is stored.
pub fn vector_to_stored(v: &Vector3) -> (raw: [i64; 3])
    ensures
        raw@ == seq![v.x, v.y, v.z],
{
    let raw: [i64; 3] = [v.x, v.y, v.z];
    raw
}

} // verus!
