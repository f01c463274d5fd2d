//! The registries that a client is sent when it joins, and their order.
//!
//! The entries come from data files; reading and encoding them is the
//! caller's work. What is decided here is which registries are sent, under
//! which names, in which order, and what is added to them.
use crate::dimension::Identifier;
use vstd::prelude::*;

verus! {

/// One entry of a registry: its name and its encoded data.
#[derive(Debug)]
pub struct RegistryEntry {
    pub entry_id: Identifier,
    pub data: Option<Vec<u8>>,
}

#[derive(Debug)]
pub struct Registry {
    pub registry_id: Identifier,
    pub registry_entries: Vec<RegistryEntry>,
}

/// The entries of every registry that the data files hold, each list in the
/// order of its file.
#[derive(Debug)]
pub struct SyncedRegistry {
    pub biome: Vec<RegistryEntry>,
    pub chat_type: Vec<RegistryEntry>,
    pub trim_pattern: Vec<RegistryEntry>,
    pub trim_material: Vec<RegistryEntry>,
    pub wolf_variant: Vec<RegistryEntry>,
    pub painting_variant: Vec<RegistryEntry>,
    pub dimension_type: Vec<RegistryEntry>,
    pub damage_type: Vec<RegistryEntry>,
    pub cat_variant: Vec<RegistryEntry>,
    pub chicken_variant: Vec<RegistryEntry>,
    pub cow_variant: Vec<RegistryEntry>,
    pub frog_variant: Vec<RegistryEntry>,
    pub pig_variant: Vec<RegistryEntry>,
    pub wolf_sound_variant: Vec<RegistryEntry>,
    pub banner_pattern: Vec<RegistryEntry>,
    pub enchantment: Vec<RegistryEntry>,
    pub jukebox_song: Vec<RegistryEntry>,
    pub instrument: Vec<RegistryEntry>,
}

/// How a part of a chat message is laid out.
#[derive(Debug)]
pub struct Decoration {
    pub translation_key: String,
    pub parameters: Vec<String>,
}

/// How a kind of chat message is shown and narrated.
#[derive(Debug)]
pub struct ChatType {
    pub chat: Decoration,
    pub narration: Decoration,
}

/// The names of the registries that are sent, in the order in which they
/// are sent.
pub open spec fn synced_names() -> Seq<Seq<char>> {
    seq![
        "cat_variant"@,
        "chicken_variant"@,
        "cow_variant"@,
        "frog_variant"@,
        "pig_variant"@,
        "worldgen/biome"@,
        "chat_type"@,
        "wolf_variant"@,
        "painting_variant"@,
        "wolf_sound_variant"@,
        "dimension_type"@,
        "damage_type"@,
        "banner_pattern"@,
        "jukebox_song"@,
    ]
}

/// The entries of the registries that are sent, in the order in which they
/// are sent. The chat types are followed by the raw chat type.
pub open spec fn synced_entries(synced: SyncedRegistry, raw_chat_type: RegistryEntry) -> Seq<
    Seq<RegistryEntry>,
> {
    seq![
        synced.cat_variant@,
        synced.chicken_variant@,
        synced.cow_variant@,
        synced.frog_variant@,
        synced.pig_variant@,
        synced.biome@,
        synced.chat_type@.push(raw_chat_type),
        synced.wolf_variant@,
        synced.painting_variant@,
        synced.wolf_sound_variant@,
        synced.dimension_type@,
        synced.damage_type@,
        synced.banner_pattern@,
        synced.jukebox_song@,
    ]
}

impl ChatType {
    /// Custom RAW registry type that removes the vanilla sender name. Allows custom formatting.
    pub fn raw() -> (t: ChatType)
        ensures
            t.chat.translation_key@ == "%s"@,
            t.chat.parameters@.len() == 1,
            t.chat.parameters@[0]@ == "content"@,
            t.narration.translation_key@ == "%s says %s"@,
            t.narration.parameters@.len() == 2,
            t.narration.parameters@[0]@ == "sender"@,
            t.narration.parameters@[1]@ == "content"@,
    {
        let mut chat_parameters: Vec<String> = Vec::new();
        chat_parameters.push("content".to_owned());
        let mut narration_parameters: Vec<String> = Vec::new();
        narration_parameters.push("sender".to_owned());
        narration_parameters.push("content".to_owned());
        ChatType {
            chat: Decoration { translation_key: "%s".to_owned(), parameters: chat_parameters },
            narration: Decoration {
                translation_key: "%s says %s".to_owned(),
                parameters: narration_parameters,
            },
        }
    }
}

impl Registry {
    /// The registry with the vanilla name `path` and the given entries.
    fn named(path: &str, registry_entries: Vec<RegistryEntry>) -> (r: Registry)
        ensures
            r.registry_id.namespace@ == "minecraft"@,
            r.registry_id.path@ == path@,
            r.registry_entries == registry_entries,
    {
        Registry { registry_id: Identifier::vanilla(path), registry_entries }
    }

    /// The registries that are sent to a client, in the order in which they
    /// are sent. Trim patterns, trim materials, enchantments and
    /// instruments are not sent. `raw_chat_type` is the encoded entry of
    /// [`ChatType::raw`], which is added after the chat types of the files.
    pub fn get_synced(synced: SyncedRegistry, raw_chat_type: RegistryEntry) -> (registries: Vec<
        Registry,
    >)
        ensures
            registries@.len() == 14,
            forall|i: int|
                0 <= i < 14 ==> {
                    &&& (#[trigger] registries@[i]).registry_id.namespace@ == "minecraft"@
                    &&& registries@[i].registry_id.path@ == synced_names()[i]
                    &&& registries@[i].registry_entries@ == synced_entries(
                        synced,
                        raw_chat_type,
                    )[i]
                },
    {
        let ghost names = synced_names();
        let ghost entries = synced_entries(synced, raw_chat_type);
        let biome = Registry::named("worldgen/biome", synced.biome);

        let mut registry_entries = synced.chat_type;
        registry_entries.push(raw_chat_type);
        let chat_type = Registry::named("chat_type", registry_entries);

        let wolf_variant = Registry::named("wolf_variant", synced.wolf_variant);
        let cat_variant = Registry::named("cat_variant", synced.cat_variant);
        let chicken_variant = Registry::named("chicken_variant", synced.chicken_variant);
        let cow_variant = Registry::named("cow_variant", synced.cow_variant);
        let frog_variant = Registry::named("frog_variant", synced.frog_variant);
        let pig_variant = Registry::named("pig_variant", synced.pig_variant);
        let wolf_sound_variant = Registry::named("wolf_sound_variant", synced.wolf_sound_variant);
        let painting_variant = Registry::named("painting_variant", synced.painting_variant);
        let dimension_type = Registry::named("dimension_type", synced.dimension_type);
        let damage_type = Registry::named("damage_type", synced.damage_type);
        let banner_pattern = Registry::named("banner_pattern", synced.banner_pattern);
        let jukebox_song = Registry::named("jukebox_song", synced.jukebox_song);

        let mut registries: Vec<Registry> = Vec::new();
        registries.push(cat_variant);
        registries.push(chicken_variant);
        registries.push(cow_variant);
        registries.push(frog_variant);
        registries.push(pig_variant);
        registries.push(biome);
        registries.push(chat_type);
        // trim_pattern,
        // trim_material,
        registries.push(wolf_variant);
        registries.push(painting_variant);
        registries.push(wolf_sound_variant);
        registries.push(dimension_type);
        registries.push(damage_type);
        registries.push(banner_pattern);
        // enchantment,
        registries.push(jukebox_song);
        // instrument,
        registries
    }
}

} // verus!
