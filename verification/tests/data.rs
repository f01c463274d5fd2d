use pumpkin_sim::dimension::Identifier;
use pumpkin_sim::entity_data::send_meta_data;
use pumpkin_sim::item::ItemStack;
use pumpkin_sim::nbt::{
    item_stack_from_stored, resource_id, resource_key, vanilla_prefix_bytes, vector_from_stored,
    vector_to_stored, NbtError,
};
use pumpkin_sim::registry::{ChatType, Registry, RegistryEntry, SyncedRegistry};
use pumpkin_sim::vector3::Vector3;

fn entries(names: &[&str]) -> Vec<RegistryEntry> {
    names
        .iter()
        .map(|n| RegistryEntry { entry_id: Identifier::vanilla(n), data: Some(n.as_bytes().to_vec()) })
        .collect()
}

fn entry_names(r: &Registry) -> Vec<String> {
    r.registry_entries.iter().map(|e| e.entry_id.path.clone()).collect()
}

#[test]
fn the_synced_registries_come_in_their_order() {
    let synced = SyncedRegistry {
        biome: entries(&["plains", "desert"]),
        chat_type: entries(&["chat", "say_command"]),
        trim_pattern: entries(&["trim_pattern"]),
        trim_material: entries(&["trim_material"]),
        wolf_variant: entries(&["wolf"]),
        painting_variant: entries(&["painting"]),
        dimension_type: entries(&["overworld", "the_nether"]),
        damage_type: entries(&["fall"]),
        cat_variant: entries(&["cat"]),
        chicken_variant: entries(&["chicken"]),
        cow_variant: entries(&["cow"]),
        frog_variant: entries(&["frog"]),
        pig_variant: entries(&["pig"]),
        wolf_sound_variant: entries(&["wolf_sound"]),
        banner_pattern: entries(&["banner"]),
        enchantment: entries(&["enchantment"]),
        jukebox_song: entries(&["song"]),
        instrument: entries(&["instrument"]),
    };
    let raw = RegistryEntry { entry_id: Identifier::vanilla("raw"), data: None };
    let registries = Registry::get_synced(synced, raw);
    let ids: Vec<String> = registries
        .iter()
        .map(|r| format!("{}:{}", r.registry_id.namespace, r.registry_id.path))
        .collect();
    assert_eq!(
        ids,
        vec![
            "minecraft:cat_variant",
            "minecraft:chicken_variant",
            "minecraft:cow_variant",
            "minecraft:frog_variant",
            "minecraft:pig_variant",
            "minecraft:worldgen/biome",
            "minecraft:chat_type",
            "minecraft:wolf_variant",
            "minecraft:painting_variant",
            "minecraft:wolf_sound_variant",
            "minecraft:dimension_type",
            "minecraft:damage_type",
            "minecraft:banner_pattern",
            "minecraft:jukebox_song",
        ]
    );
    assert_eq!(entry_names(&registries[0]), vec!["cat"]);
    assert_eq!(entry_names(&registries[5]), vec!["plains", "desert"]);
    assert_eq!(entry_names(&registries[6]), vec!["chat", "say_command", "raw"]);
    assert_eq!(registries[6].registry_entries[2].data, None);
    assert_eq!(registries[6].registry_entries[0].data, Some(b"chat".to_vec()));
    assert_eq!(entry_names(&registries[10]), vec!["overworld", "the_nether"]);
    assert_eq!(entry_names(&registries[13]), vec!["song"]);
}

#[test]
fn the_raw_chat_type_shows_the_content_alone() {
    let raw = ChatType::raw();
    assert_eq!(raw.chat.translation_key, "%s");
    assert_eq!(raw.chat.parameters, vec!["content"]);
    assert_eq!(raw.narration.translation_key, "%s says %s");
    assert_eq!(raw.narration.parameters, vec!["sender", "content"]);
}

#[test]
fn metadata_is_closed_by_the_end_byte() {
    assert_eq!(send_meta_data(&Vec::new()), vec![255]);
    assert_eq!(send_meta_data(&vec![vec![8, 1, 40]]), vec![8, 1, 40, 255]);
    assert_eq!(
        send_meta_data(&vec![vec![16, 8, 1], Vec::new(), vec![18, 8, 0]]),
        vec![16, 8, 1, 18, 8, 0, 255]
    );
}

#[test]
fn a_resource_name_is_its_key_behind_the_vanilla_prefix() {
    assert_eq!(vanilla_prefix_bytes().to_vec(), b"minecraft:".to_vec());
    assert_eq!(resource_id(&b"stone".to_vec()), b"minecraft:stone".to_vec());
    assert_eq!(resource_id(&Vec::new()), b"minecraft:".to_vec());
}

#[test]
fn a_resource_key_is_what_follows_the_vanilla_prefix() {
    assert_eq!(resource_key(&b"minecraft:stone".to_vec()), Ok(b"stone".to_vec()));
    assert_eq!(resource_key(&b"minecraft:".to_vec()), Ok(Vec::new()));
    assert_eq!(resource_key(&b"minecraft:a:b".to_vec()), Ok(b"a:b".to_vec()));
    assert_eq!(resource_key(&resource_id(&b"speed".to_vec())), Ok(b"speed".to_vec()));
}

#[test]
fn a_resource_name_without_the_vanilla_prefix_is_invalid() {
    assert_eq!(resource_key(&b"stone".to_vec()), Err(NbtError::InvalidResourceId));
    assert_eq!(resource_key(&b"minecraft".to_vec()), Err(NbtError::InvalidResourceId));
    assert_eq!(resource_key(&b"Minecraft:stone".to_vec()), Err(NbtError::InvalidResourceId));
    assert_eq!(resource_key(&b"minecrafX:stone".to_vec()), Err(NbtError::InvalidResourceId));
    assert_eq!(resource_key(&b"minecraft;stone".to_vec()), Err(NbtError::InvalidResourceId));
    assert_eq!(resource_key(&Vec::new()), Err(NbtError::InvalidResourceId));
}

#[test]
fn a_stored_stack_of_an_unknown_resource_is_refused() {
    assert_eq!(item_stack_from_stored(5, None), Err(NbtError::UnknownResourceId));
}

#[test]
fn a_stored_stack_keeps_the_low_bits_of_its_count() {
    assert_eq!(
        item_stack_from_stored(5, Some((17, 64))),
        Ok(ItemStack { item_count: 5, item_id: 17, max_stack_size: 64 })
    );
    assert_eq!(item_stack_from_stored(256, Some((17, 64))).map(|s| s.item_count), Ok(0));
    assert_eq!(item_stack_from_stored(300, Some((17, 64))).map(|s| s.item_count), Ok(44));
    assert_eq!(item_stack_from_stored(-1, Some((17, 64))).map(|s| s.item_count), Ok(255));
    assert_eq!(item_stack_from_stored(-256, Some((17, 64))).map(|s| s.item_count), Ok(0));
    assert_eq!(item_stack_from_stored(i32::MIN, Some((17, 64))).map(|s| s.item_count), Ok(0));
    assert_eq!(item_stack_from_stored(i32::MAX, Some((17, 64))).map(|s| s.item_count), Ok(255));
}

#[test]
fn a_stored_vector_is_its_first_three_numbers() {
    assert_eq!(vector_from_stored(&Some(vec![1, -2, 3])), Vector3::new(1, -2, 3));
    assert_eq!(vector_from_stored(&Some(vec![1, -2, 3, 4])), Vector3::new(1, -2, 3));
    assert_eq!(vector_from_stored(&Some(vec![1, -2])), Vector3::new(0, 0, 0));
    assert_eq!(vector_from_stored(&None), Vector3::new(0, 0, 0));
    assert_eq!(vector_to_stored(&Vector3::new(1, -2, 3)), [1, -2, 3]);
}
