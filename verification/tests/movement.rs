use pumpkin_sim::boundingbox::{BoundingBox, EntityDimensions};
use pumpkin_sim::collision_util::{BlockRange, BlockState, CollisionUtil, EntityHandle};
use pumpkin_sim::entity::{
    draw_substitute, horizontal_unit_of, is_degenerate, last_resort, substitute_from,
    usable_substitute, EntityKind, KineticState, Landing, LandingSound, Medium, MovementError,
    PlainKind, SUBSTITUTE_BOUND,
};
use pumpkin_sim::fixed::{COORD_LIMIT, UNITS_PER_BLOCK};
use pumpkin_sim::movement::{can_resolve, probe_box, resolve_collision};
use pumpkin_sim::vector3::{BlockPos, Vector3};
use pumpkin_sim::voxel_shape::{CollisionType, VoxelShape};
use rand::rngs::StdRng;
use rand::{RngCore, SeedableRng};

const ONE: i64 = UNITS_PER_BLOCK;

fn cube(x0: i64, y0: i64, z0: i64, x1: i64, y1: i64, z1: i64) -> BoundingBox {
    BoundingBox::new(
        Vector3::new(x0 * ONE, y0 * ONE, z0 * ONE),
        Vector3::new(x1 * ONE, y1 * ONE, z1 * ONE),
    )
}

fn player_at(x: i64, y: i64, z: i64) -> KineticState {
    KineticState::new(
        1,
        Vector3::new(x, y, z),
        EntityDimensions { width: 600_000_000, height: 1_800_000_000 },
    )
}

fn solid(boxes: Vec<BoundingBox>) -> Option<BlockState> {
    Some(BlockState { is_solid: true, collision_shapes: boxes })
}

#[test]
fn cut_dawnwards_is_the_slab_below() {
    let b = cube(0, 10, 0, 1, 12, 1);
    let slab = CollisionUtil::cut_dawnwards(&b, -3 * ONE);
    assert_eq!(slab, cube(0, 7, 0, 1, 10, 1));
}

#[test]
fn cut_upwards_is_the_slab_above() {
    let b = cube(0, 10, 0, 1, 12, 1);
    let slab = CollisionUtil::cut_upwards(&b, 3 * ONE);
    assert_eq!(slab, cube(0, 12, 0, 1, 15, 1));
}

#[test]
fn probe_box_of_a_vertical_movement_is_a_slab() {
    let b = cube(0, 10, 0, 1, 12, 1);
    assert_eq!(probe_box(&b, &Vector3::new(0, -2 * ONE, 0)), cube(0, 8, 0, 1, 10, 1));
    assert_eq!(probe_box(&b, &Vector3::new(0, 2 * ONE, 0)), cube(0, 12, 0, 1, 14, 1));
    // no movement at all: the flat slab on top
    assert_eq!(probe_box(&b, &Vector3::new(0, 0, 0)), cube(0, 12, 0, 1, 12, 1));
}

#[test]
fn probe_box_of_any_other_movement_is_the_swept_volume() {
    let b = cube(0, 10, 0, 1, 12, 1);
    assert_eq!(probe_box(&b, &Vector3::new(ONE, -2 * ONE, 0)), cube(0, 8, 0, 2, 12, 1));
    assert_eq!(probe_box(&b, &Vector3::new(0, 0, -ONE)), cube(0, 10, -1, 1, 12, 1));
}

#[test]
fn search_range_pads_by_one_block_and_widens_to_the_grid() {
    let b = BoundingBox::new(
        Vector3::new(ONE / 2, 64 * ONE, -ONE / 4),
        Vector3::new(ONE + ONE / 10, 65 * ONE + ONE * 8 / 10, ONE / 3),
    );
    let r = CollisionUtil::search_range(&b, &Vector3::new(2 * ONE, -ONE / 2, 0));
    // swept: x 0.5 .. 3.1, y 63.5 .. 65.8, z -0.25 .. 0.333
    assert_eq!(r.min, BlockPos::new(-1, 62, -2));
    assert_eq!(r.max, BlockPos::new(5, 67, 2));
}

#[test]
fn search_range_of_a_box_on_the_grid() {
    let r = CollisionUtil::search_range(&cube(0, 0, 0, 1, 1, 1), &Vector3::new(0, 0, 0));
    assert_eq!(r.min, BlockPos::new(-1, -1, -1));
    assert_eq!(r.max, BlockPos::new(2, 2, 2));
}

#[test]
fn search_range_is_limited_to_the_block_grid() {
    let far = BoundingBox::new(
        Vector3::new(-COORD_LIMIT, 0, 0),
        Vector3::new(COORD_LIMIT, ONE, ONE),
    );
    let r = CollisionUtil::search_range(&far, &Vector3::new(0, 0, 0));
    assert_eq!(r.min.x, i32::MIN);
    assert_eq!(r.max.x, i32::MAX);
}

#[test]
fn range_walk_runs_x_fastest_then_z_then_y() {
    let r = BlockRange { min: BlockPos::new(0, 10, -1), max: BlockPos::new(2, 12, 1) };
    let mut seen: Vec<BlockPos> = Vec::new();
    let mut next = r.first();
    while let Some(pos) = next {
        assert!(r.has(&pos));
        seen.push(pos);
        next = r.next_after(&pos);
    }
    assert_eq!(
        seen,
        vec![
            BlockPos::new(0, 10, -1),
            BlockPos::new(1, 10, -1),
            BlockPos::new(0, 10, 0),
            BlockPos::new(1, 10, 0),
            BlockPos::new(0, 11, -1),
            BlockPos::new(1, 11, -1),
            BlockPos::new(0, 11, 0),
            BlockPos::new(1, 11, 0),
        ]
    );
}

#[test]
fn range_walk_of_a_void_range_is_empty() {
    let r = BlockRange { min: BlockPos::new(0, 0, 0), max: BlockPos::new(0, 5, 5) };
    assert_eq!(r.first(), None);
    let r = BlockRange { min: BlockPos::new(3, 0, 0), max: BlockPos::new(1, 5, 5) };
    assert_eq!(r.first(), None);
    assert!(!r.has(&BlockPos::new(2, 1, 1)));
}

#[test]
fn range_walk_ends_at_the_edge_of_the_grid() {
    let r = BlockRange {
        min: BlockPos::new(i32::MAX - 1, 0, 0),
        max: BlockPos::new(i32::MAX, 1, 1),
    };
    let first = r.first();
    assert_eq!(first, Some(BlockPos::new(i32::MAX - 1, 0, 0)));
    assert_eq!(r.next_after(&BlockPos::new(i32::MAX - 1, 0, 0)), None);
}

#[test]
fn shape_of_a_missing_block_is_nothing() {
    assert!(CollisionUtil::shape_of(&None).is_none());
}

#[test]
fn shape_of_a_block_that_is_not_solid_is_nothing() {
    let state = Some(BlockState { is_solid: false, collision_shapes: vec![cube(0, 0, 0, 1, 1, 1)] });
    assert!(CollisionUtil::shape_of(&state).is_none());
}

#[test]
fn shape_of_a_solid_block_without_boxes_is_the_full_cube() {
    let shape = CollisionUtil::shape_of(&solid(Vec::new()));
    let shape = match shape {
        Some(s) => s,
        None => panic!("a solid block obstructs"),
    };
    assert_eq!(shape.boxes, vec![cube(0, 0, 0, 1, 1, 1)]);
    assert_eq!(shape.collision_type, CollisionType::Full);
}

#[test]
fn shape_of_a_solid_block_with_boxes_is_partial() {
    let slab = BoundingBox::new(Vector3::new(0, 0, 0), Vector3::new(ONE, ONE / 2, ONE));
    let shape = CollisionUtil::shape_of(&solid(vec![slab]));
    let shape = match shape {
        Some(s) => s,
        None => panic!("a solid block obstructs"),
    };
    assert_eq!(shape.boxes, vec![slab]);
    assert_eq!(shape.collision_type, CollisionType::Partial);
}

fn index_in_small_range(x: i32, y: i32, z: i32) -> usize {
    // the range from (-1, -1, -1) up to, not including, (2, 2, 2)
    ((y + 1) * 9 + (z + 1) * 3 + (x + 1)) as usize
}

fn unknown_states(n: usize) -> Vec<Option<BlockState>> {
    let mut states = Vec::new();
    while states.len() < n {
        states.push(None);
    }
    states
}

#[test]
fn search_positions_are_the_walk_through_the_search_range() {
    let b = cube(0, 0, 0, 1, 1, 1);
    let still = Vector3::new(0, 0, 0);
    let positions = CollisionUtil::search_positions(&b, &still);
    let range = CollisionUtil::search_range(&b, &still);
    assert_eq!(positions, range.positions());
    assert_eq!(positions.len(), 27);
    assert_eq!(positions[0], BlockPos::new(-1, -1, -1));
    assert_eq!(positions[1], BlockPos::new(0, -1, -1));
    assert_eq!(positions[3], BlockPos::new(-1, -1, 0));
    assert_eq!(positions[9], BlockPos::new(-1, 0, -1));
    assert_eq!(positions[26], BlockPos::new(1, 1, 1));
    for y in -1..2 {
        for z in -1..2 {
            for x in -1..2 {
                assert_eq!(positions[index_in_small_range(x, y, z)], BlockPos::new(x, y, z));
            }
        }
    }
    let void = BlockRange { min: BlockPos::new(0, 0, 0), max: BlockPos::new(0, 5, 5) };
    assert!(void.positions().is_empty());
}

#[test]
fn get_potential_shapes_keeps_order_and_skips_what_does_not_obstruct() {
    let b = cube(0, 0, 0, 1, 1, 1);
    let still = Vector3::new(0, 0, 0);
    let slab = BoundingBox::new(Vector3::new(0, 0, 0), Vector3::new(ONE, ONE / 2, ONE));
    let mut states = unknown_states(27);
    states[index_in_small_range(1, 1, 0)] = solid(vec![slab]);
    states[index_in_small_range(0, -1, 0)] = solid(Vec::new());
    states[index_in_small_range(1, -1, 0)] =
        Some(BlockState { is_solid: false, collision_shapes: vec![slab] });
    states[index_in_small_range(-1, 0, 1)] = solid(vec![slab, cube(0, 0, 0, 1, 1, 1)]);
    let shapes = CollisionUtil::get_potential_shapes(&b, &still, &states);
    assert_eq!(shapes.len(), 3);
    assert_eq!(shapes[0].0, BlockPos::new(0, -1, 0));
    assert_eq!(shapes[0].1.collision_type, CollisionType::Full);
    assert_eq!(shapes[0].1.boxes, vec![cube(0, 0, 0, 1, 1, 1)]);
    assert_eq!(shapes[1].0, BlockPos::new(-1, 0, 1));
    assert_eq!(shapes[1].1.collision_type, CollisionType::Partial);
    assert_eq!(shapes[1].1.boxes, vec![slab, cube(0, 0, 0, 1, 1, 1)]);
    assert_eq!(shapes[2].0, BlockPos::new(1, 1, 0));
    assert_eq!(shapes[2].1.collision_type, CollisionType::Partial);
    assert_eq!(shapes[2].1.boxes, vec![slab]);
    let range = CollisionUtil::search_range(&b, &still);
    for (pos, shape) in &shapes {
        assert!(range.has(pos));
        assert!(!shape.is_empty());
    }
}

#[test]
fn get_potential_shapes_takes_a_block_without_a_state_as_unavailable() {
    let b = cube(0, 0, 0, 1, 1, 1);
    let still = Vector3::new(0, 0, 0);
    assert!(CollisionUtil::get_potential_shapes(&b, &still, &Vec::new()).is_empty());
    // states for the first two positions only, and states beyond the range
    let short = vec![None, solid(Vec::new())];
    let shapes = CollisionUtil::get_potential_shapes(&b, &still, &short);
    assert_eq!(shapes.len(), 1);
    assert_eq!(shapes[0].0, BlockPos::new(0, -1, -1));
    let mut long = unknown_states(40);
    long[26] = solid(Vec::new());
    long[27] = solid(Vec::new());
    long[39] = solid(Vec::new());
    let shapes = CollisionUtil::get_potential_shapes(&b, &still, &long);
    assert_eq!(shapes.len(), 1);
    assert_eq!(shapes[0].0, BlockPos::new(1, 1, 1));
}

#[test]
fn get_entity_collisions_leaves_out_the_entity_itself() {
    let me = cube(0, 0, 0, 1, 2, 1);
    let entities = vec![
        EntityHandle { entity_id: 7, bounding_box: me },
        EntityHandle { entity_id: 8, bounding_box: cube(0, 1, 0, 1, 3, 1) },
        EntityHandle { entity_id: 9, bounding_box: cube(5, 0, 0, 6, 2, 1) },
        EntityHandle { entity_id: 7, bounding_box: cube(9, 9, 9, 10, 10, 10) },
        EntityHandle { entity_id: 10, bounding_box: cube(1, 0, 0, 2, 2, 1) },
    ];
    let boxes = CollisionUtil::get_entity_collisions(&entities, 7);
    assert_eq!(
        boxes,
        vec![entities[1].bounding_box, entities[2].bounding_box, entities[4].bounding_box]
    );
    assert!(CollisionUtil::get_entity_collisions(&Vec::new(), 7).is_empty());
}

#[test]
fn resolve_collision_without_obstructions_is_the_movement() {
    let b = cube(0, 0, 0, 1, 2, 1);
    let movement = Vector3::new(ONE, -ONE, 3);
    assert_eq!(resolve_collision(&b, movement, &Vec::new(), &Vec::new()), movement);
}

#[test]
fn resolve_collision_places_block_shapes_at_their_blocks() {
    // a full block at (3, 0, 0); the probe box of the move reaches x = 2, one block short of it
    let b = cube(0, 0, 0, 1, 1, 1);
    let blocks = vec![(BlockPos::new(3, 0, 0), VoxelShape::full_cube())];
    let resolved = resolve_collision(&b, Vector3::new(2 * ONE, 0, 0), &blocks, &Vec::new());
    // probe box x 0..3, swept once more to 5, meets the block at 3: gap 3 - 3 = 0
    assert_eq!(resolved, Vector3::new(0, 0, 0));
    // the same block taken where it is given, at the origin, would overlap the probe box
    let unplaced = vec![(BlockPos::new(0, 0, 0), VoxelShape::full_cube())];
    let pushed = resolve_collision(&b, Vector3::new(2 * ONE, 0, 0), &unplaced, &Vec::new());
    assert_eq!(pushed, Vector3::new(-3 * ONE, 0, 0));
}

#[test]
fn resolve_collision_clamps_against_the_probe_box() {
    // falling 2 from y = 10 onto a floor whose top is at y = 7: the slab below
    // the box spans y 8..10 and is clamped as the moving box
    let b = cube(0, 10, 0, 1, 12, 1);
    let blocks = vec![(BlockPos::new(0, 6, 0), VoxelShape::full_cube())];
    let resolved = resolve_collision(&b, Vector3::new(0, -2 * ONE, 0), &blocks, &Vec::new());
    assert_eq!(resolved, Vector3::new(0, -ONE, 0));
}

#[test]
fn resolve_collision_clamps_against_entities_after_blocks() {
    let b = cube(0, 10, 0, 1, 12, 1);
    let blocks = vec![(BlockPos::new(0, 6, 0), VoxelShape::full_cube())];
    let entities = vec![BoundingBox::new(
        Vector3::new(0, 7 * ONE, 0),
        Vector3::new(ONE, 7 * ONE + ONE / 2, ONE),
    )];
    let resolved = resolve_collision(&b, Vector3::new(0, -2 * ONE, 0), &blocks, &entities);
    assert_eq!(resolved, Vector3::new(0, -ONE / 2, 0));
}

#[test]
fn resolve_collision_stops_at_zero() {
    let b = cube(0, 10, 0, 1, 12, 1);
    // the first block takes all of the movement; the second would push back
    let blocks = vec![
        (BlockPos::new(0, 7, 0), VoxelShape::full_cube()),
        (BlockPos::new(0, 8, 0), VoxelShape::full_cube()),
    ];
    let resolved = resolve_collision(&b, Vector3::new(0, -2 * ONE, 0), &blocks, &Vec::new());
    assert_eq!(resolved, Vector3::new(0, 0, 0));
}

#[test]
fn can_resolve_accepts_what_is_in_range() {
    let b = cube(0, 0, 0, 1, 2, 1);
    let blocks = vec![(BlockPos::new(3, 0, 0), VoxelShape::full_cube())];
    assert!(can_resolve(&b, &Vector3::new(ONE, 0, 0), &blocks, &vec![cube(5, 5, 5, 6, 6, 6)]));
}

#[test]
fn can_resolve_refuses_what_is_out_of_range() {
    let b = cube(0, 0, 0, 1, 2, 1);
    let none: Vec<(BlockPos, VoxelShape)> = Vec::new();
    assert!(!can_resolve(&b, &Vector3::new(COORD_LIMIT + 1, 0, 0), &none, &Vec::new()));
    let far = BoundingBox::new(Vector3::new(0, 0, 0), Vector3::new(COORD_LIMIT, ONE, ONE));
    // the box is in range, its swept volume is not
    assert!(!can_resolve(&far, &Vector3::new(ONE, 0, ONE), &none, &Vec::new()));
    let blocks = vec![(BlockPos::new(i32::MAX, 0, 0), VoxelShape::cube(0, 0, 0, COORD_LIMIT, 1, 1))];
    assert!(!can_resolve(&b, &Vector3::new(ONE, 0, 0), &blocks, &Vec::new()));
    let out = vec![BoundingBox::new(Vector3::new(0, 0, 0), Vector3::new(COORD_LIMIT + 1, 1, 1))];
    assert!(!can_resolve(&b, &Vector3::new(ONE, 0, 0), &none, &out));
}

#[test]
fn new_state_rests_at_its_position() {
    let s = player_at(10 * ONE, 64 * ONE, -4 * ONE);
    assert_eq!(s.entity_id, 1);
    assert_eq!(s.velocity, Vector3::new(0, 0, 0));
    assert_eq!(s.stuck_speed_multiplier, Vector3::new(0, 0, 0));
    assert!(!s.on_ground);
    assert_eq!(s.fall_distance, 0);
    assert_eq!(s.bounding_box.min, Vector3::new(9_700_000_000, 64 * ONE, -4_300_000_000));
    assert_eq!(s.bounding_box.max, Vector3::new(10_300_000_000, 65_800_000_000, -3_700_000_000));
    assert!(s.is_well_formed());
}

#[test]
fn set_pos_derives_the_bounding_box_anew() {
    let mut s = player_at(0, 0, 0);
    s.set_pos(Vector3::new(ONE, 2 * ONE, 3 * ONE));
    assert_eq!(s.pos, Vector3::new(ONE, 2 * ONE, 3 * ONE));
    assert_eq!(s.bounding_box.min, Vector3::new(700_000_000, 2 * ONE, 2_700_000_000));
    assert_eq!(s.bounding_box.max, Vector3::new(1_300_000_000, 3_800_000_000, 3_300_000_000));
    assert!(s.is_well_formed());
}

#[test]
fn a_state_with_a_stale_box_is_not_well_formed() {
    let mut s = player_at(0, 0, 0);
    s.pos = Vector3::new(ONE, 0, 0);
    assert!(!s.is_well_formed());
    let mut t = player_at(0, 0, 0);
    t.fall_distance = -1;
    assert!(!t.is_well_formed());
}

#[test]
fn block_pos_is_the_block_of_the_feet() {
    let s = player_at(ONE + 1, -1, -ONE);
    assert_eq!(s.block_pos(), BlockPos::new(1, -1, -1));
    assert_eq!(s.get_on_pos(999_999_000), BlockPos::new(1, -1, -1));
    let t = player_at(0, ONE / 2, 0);
    assert_eq!(t.block_pos(), BlockPos::new(0, 0, 0));
    assert_eq!(t.get_on_pos(999_999_000), BlockPos::new(0, -1, 0));
}

#[test]
fn stuck_speed_is_consumed_once() {
    let mut s = player_at(0, 0, 0);
    s.velocity = Vector3::new(ONE, ONE, ONE);
    s.stuck_speed_multiplier = Vector3::new(250_000_000, 50_000_000, 250_000_000);
    let adjusted = s.consume_stuck_speed(Vector3::new(ONE, -2 * ONE, 3));
    assert_eq!(adjusted, Vector3::new(250_000_000, -100_000_000, 0));
    assert_eq!(s.stuck_speed_multiplier, Vector3::new(0, 0, 0));
    assert_eq!(s.velocity, Vector3::new(0, 0, 0));
    // the second time there is nothing to consume
    s.velocity = Vector3::new(5, 6, 7);
    let again = s.consume_stuck_speed(Vector3::new(ONE, -2 * ONE, 3));
    assert_eq!(again, Vector3::new(ONE, -2 * ONE, 3));
    assert_eq!(s.velocity, Vector3::new(5, 6, 7));
}

#[test]
fn a_negligible_stuck_speed_is_left_alone() {
    let mut s = player_at(0, 0, 0);
    s.velocity = Vector3::new(1, 2, 3);
    s.stuck_speed_multiplier = Vector3::new(316_227, 0, 0);
    let before = s;
    let adjusted = s.consume_stuck_speed(Vector3::new(ONE, ONE, ONE));
    assert_eq!(adjusted, Vector3::new(ONE, ONE, ONE));
    assert_eq!(s, before);
    s.stuck_speed_multiplier = Vector3::new(316_228, 0, 0);
    let adjusted = s.consume_stuck_speed(Vector3::new(ONE, ONE, ONE));
    assert_eq!(adjusted, Vector3::new(316_228, 0, 0));
    assert_eq!(s.velocity, Vector3::new(0, 0, 0));
}

#[test]
fn landing_after_five_blocks_costs_two_points() {
    let mut s = player_at(0, 10 * ONE, 0);
    s.fall_distance = 5 * ONE;
    s.velocity = Vector3::new(7, -ONE, 9);
    let landing = s.commit_move(Vector3::new(0, -ONE, 0), Vector3::new(0, -ONE / 2, 0), false);
    assert_eq!(landing, Some(Landing { damage: 2 * ONE, sound: LandingSound::BigFall }));
    assert_eq!(s.fall_distance, 0);
    assert!(s.on_ground);
    assert_eq!(s.velocity, Vector3::new(7, 0, 9));
    assert_eq!(s.pos, Vector3::new(0, 10 * ONE - ONE / 2, 0));
}

#[test]
fn landing_after_two_blocks_costs_nothing() {
    let mut s = player_at(0, 10 * ONE, 0);
    s.fall_distance = 2 * ONE;
    let landing = s.commit_move(Vector3::new(0, -ONE, 0), Vector3::new(0, 0, 0), false);
    assert_eq!(landing, None);
    assert_eq!(s.fall_distance, 0);
    assert!(s.on_ground);
}

#[test]
fn landing_at_the_safe_distance_costs_nothing_and_just_beyond_costs_one() {
    assert_eq!(KineticState::landing(3 * ONE, false), None);
    assert_eq!(
        KineticState::landing(3 * ONE + 1, false),
        Some(Landing { damage: ONE, sound: LandingSound::SmallFall })
    );
    assert_eq!(
        KineticState::landing(4 * ONE, false),
        Some(Landing { damage: ONE, sound: LandingSound::SmallFall })
    );
    assert_eq!(
        KineticState::landing(5 * ONE - 1, false),
        Some(Landing { damage: 2 * ONE, sound: LandingSound::SmallFall })
    );
    assert_eq!(
        KineticState::landing(7 * ONE + 1, false),
        Some(Landing { damage: 5 * ONE, sound: LandingSound::BigFall })
    );
}

#[test]
fn an_exempt_entity_lands_without_damage() {
    let mut s = player_at(0, 10 * ONE, 0);
    s.fall_distance = 50 * ONE;
    let landing = s.commit_move(Vector3::new(0, -ONE, 0), Vector3::new(0, 0, 0), true);
    assert_eq!(landing, None);
    assert_eq!(s.fall_distance, 0);
    assert_eq!(KineticState::landing(0, false), None);
    assert_eq!(KineticState::landing(-5 * ONE, false), None);
}

#[test]
fn a_fall_accumulates_the_desired_descent() {
    let mut s = player_at(0, 10 * ONE, 0);
    s.fall_distance = ONE;
    let landing = s.commit_move(Vector3::new(0, -ONE / 2, 0), Vector3::new(0, -ONE / 2, 0), false);
    assert_eq!(landing, None);
    assert!(!s.on_ground);
    assert_eq!(s.fall_distance, ONE + ONE / 2);
    assert_eq!(s.pos, Vector3::new(0, 10 * ONE - ONE / 2, 0));
}

#[test]
fn a_rise_accumulates_nothing_and_a_blocked_rise_is_no_landing() {
    let mut s = player_at(0, 10 * ONE, 0);
    s.fall_distance = ONE;
    s.velocity = Vector3::new(0, ONE, 0);
    let landing = s.commit_move(Vector3::new(0, ONE, 0), Vector3::new(0, ONE / 4, 0), false);
    assert_eq!(landing, None);
    assert!(!s.on_ground);
    assert_eq!(s.fall_distance, ONE);
    assert_eq!(s.velocity, Vector3::new(0, 0, 0));
}

#[test]
fn a_collision_absorbs_velocity_on_the_blocked_axes_only() {
    let mut s = player_at(0, 10 * ONE, 0);
    s.velocity = Vector3::new(11, 22, 33);
    s.commit_move(Vector3::new(ONE, 0, ONE), Vector3::new(ONE / 2, 0, ONE), false);
    assert_eq!(s.velocity, Vector3::new(0, 22, 33));
    assert_eq!(s.pos, Vector3::new(ONE / 2, 10 * ONE, ONE));
    assert!(s.is_well_formed());
}

#[test]
fn advance_entity_tick_falls_freely() {
    let mut s = player_at(0, 10 * ONE, 0);
    s.velocity = Vector3::new(0, -ONE / 2, 0);
    let landing = s.advance_entity_tick(Vector3::new(0, -ONE / 2, 0), &Vec::new(), &Vec::new(), false);
    assert_eq!(landing, None);
    assert_eq!(s.pos, Vector3::new(0, 10 * ONE - ONE / 2, 0));
    assert_eq!(s.velocity, Vector3::new(0, -ONE / 2, 0));
    assert_eq!(s.fall_distance, ONE / 2);
    assert!(!s.on_ground);
}

#[test]
fn advance_entity_tick_applies_the_stuck_speed_first() {
    let mut s = player_at(0, 10 * ONE, 0);
    s.velocity = Vector3::new(ONE, 0, 0);
    s.stuck_speed_multiplier = Vector3::new(250_000_000, 50_000_000, 250_000_000);
    s.advance_entity_tick(Vector3::new(ONE, -ONE, 0), &Vec::new(), &Vec::new(), false);
    assert_eq!(s.pos, Vector3::new(250_000_000, 10 * ONE - 50_000_000, 0));
    assert_eq!(s.velocity, Vector3::new(0, 0, 0));
    assert_eq!(s.stuck_speed_multiplier, Vector3::new(0, 0, 0));
    assert_eq!(s.fall_distance, 50_000_000);
}

#[test]
fn advance_entity_tick_lands_on_a_block() {
    // feet at y = 10, falling 2; the block's top at y = 9 lies in the slab below
    let mut s = player_at(ONE / 2, 10 * ONE, ONE / 2);
    s.fall_distance = 4 * ONE;
    s.velocity = Vector3::new(0, -2 * ONE, 0);
    let blocks = vec![(BlockPos::new(0, 8, 0), VoxelShape::full_cube())];
    let landing = s.advance_entity_tick(Vector3::new(0, -2 * ONE, 0), &blocks, &Vec::new(), false);
    // the slab spans y 8..10; the block top is 9: the clamp is 9 - 8 = +1, which is not the
    // desired -2, so the entity is on the ground
    assert!(s.on_ground);
    assert_eq!(s.velocity, Vector3::new(0, 0, 0));
    assert_eq!(s.fall_distance, 0);
    assert_eq!(landing, Some(Landing { damage: ONE, sound: LandingSound::SmallFall }));
    assert_eq!(s.pos, Vector3::new(ONE / 2, 11 * ONE, ONE / 2));
}

#[test]
fn try_advance_entity_tick_refuses_a_state_out_of_range() {
    let mut s = player_at(0, 0, 0);
    s.velocity = Vector3::new(COORD_LIMIT + 1, 0, 0);
    let before = s;
    let r = s.try_advance_entity_tick(Vector3::new(ONE, 0, 0), &Vec::new(), &Vec::new(), false);
    assert_eq!(r, Err(MovementError::OutOfRange));
    assert_eq!(s, before);
}

#[test]
fn try_advance_entity_tick_refuses_a_product_that_cannot_be_held() {
    let mut s = player_at(0, 0, 0);
    s.stuck_speed_multiplier = Vector3::new(COORD_LIMIT, 0, 0);
    let before = s;
    let r = s.try_advance_entity_tick(Vector3::new(COORD_LIMIT, 0, 0), &Vec::new(), &Vec::new(), false);
    assert_eq!(r, Err(MovementError::OutOfRange));
    assert_eq!(s, before);
    assert!(!s.check_advance(&Vector3::new(COORD_LIMIT, 0, 0), &Vec::new(), &Vec::new()));
}

#[test]
fn try_advance_entity_tick_moves_like_advance_entity_tick() {
    let mut a = player_at(0, 10 * ONE, 0);
    let mut b = a;
    let blocks = vec![(BlockPos::new(2, 10, 0), VoxelShape::full_cube())];
    let movement = Vector3::new(ONE, 0, ONE / 3);
    assert!(a.check_advance(&movement, &blocks, &Vec::new()));
    let r = a.try_advance_entity_tick(movement, &blocks, &Vec::new(), false);
    let l = b.advance_entity_tick(movement, &blocks, &Vec::new(), false);
    assert_eq!(r, Ok(l));
    assert_eq!(a, b);
}

#[test]
fn gravity_pulls_the_vertical_velocity_down() {
    let mut s = player_at(0, 0, 0);
    s.velocity = Vector3::new(1, 2, 3);
    s.apply_gravity(80_000_000);
    assert_eq!(s.velocity, Vector3::new(1, 2 - 80_000_000, 3));
    s.integrate_medium(Medium::Air, 40_000_000);
    assert_eq!(s.velocity, Vector3::new(1, 2 - 120_000_000, 3));
}

#[test]
fn water_drags_and_lifts_a_sinking_entity() {
    let mut s = player_at(0, 0, 0);
    s.velocity = Vector3::new(ONE, -80_000_000, -2_000_000_001);
    s.integrate_medium(Medium::Water, 40_000_000);
    assert_eq!(s.velocity, Vector3::new(990_000_000, -79_500_000, -1_980_000_000));
}

#[test]
fn lava_drags_more_and_does_not_lift_a_rising_entity() {
    let mut s = player_at(0, 0, 0);
    s.velocity = Vector3::new(ONE, 60_000_000, -2_000_000_001);
    s.integrate_medium(Medium::Lava, 40_000_000);
    assert_eq!(s.velocity, Vector3::new(950_000_000, 60_000_000, -1_900_000_000));
    s.velocity = Vector3::new(0, 59_999_999, 0);
    s.set_fluid_movement(950_000_000);
    assert_eq!(s.velocity, Vector3::new(0, 60_499_999, 0));
}

#[test]
fn horizontal_unit_of_a_three_four_five_triangle() {
    assert_eq!(horizontal_unit_of(3 * ONE, 4 * ONE), (600_000_000, 800_000_000));
    assert_eq!(horizontal_unit_of(-3, 4), (-600_000_000, 800_000_000));
    assert_eq!(horizontal_unit_of(ONE, ONE), (707_106_781, 707_106_781));
    assert_eq!(horizontal_unit_of(0, -7), (0, -ONE));
    assert_eq!(horizontal_unit_of(0, 0), (0, 0));
    assert_eq!(horizontal_unit_of(i64::MIN, i64::MIN), (-707_106_781, -707_106_781));
}

#[test]
fn knockback_on_the_ground_halves_pushes_and_lifts() {
    let mut s = player_at(0, 0, 0);
    s.on_ground = true;
    s.velocity = Vector3::new(200_000_000, -100_000_000, -300_000_000);
    s.apply_knockback(400_000_000, 3 * ONE, 4 * ONE);
    assert_eq!(s.velocity, Vector3::new(-140_000_000, 350_000_000, -470_000_000));
}

#[test]
fn knockback_in_the_air_leaves_the_vertical_velocity() {
    let mut s = player_at(0, 0, 0);
    s.velocity = Vector3::new(200_000_000, -100_000_000, -300_000_000);
    s.apply_knockback(400_000_000, 3 * ONE, 4 * ONE);
    assert_eq!(s.velocity, Vector3::new(-140_000_000, -100_000_000, -470_000_000));
}

#[test]
fn knockback_lifts_no_higher_than_the_cap() {
    let mut s = player_at(0, 0, 0);
    s.on_ground = true;
    s.velocity = Vector3::new(0, 500_000_000, 0);
    s.apply_knockback(400_000_000, ONE, 0);
    assert_eq!(s.velocity, Vector3::new(-400_000_000, 400_000_000, 0));
}

#[test]
fn knockback_changes_the_velocity_only() {
    let mut s = player_at(ONE, 2 * ONE, 3 * ONE);
    s.fall_distance = 17;
    let before = s;
    s.apply_knockback(400_000_000, ONE, ONE);
    assert_eq!(s, KineticState { velocity: s.velocity, ..before });
    assert_eq!(s.velocity, Vector3::new(-282_842_712, 0, -282_842_712));
}

#[test]
fn knockback_along_the_direction_without_length_only_halves() {
    let mut s = player_at(0, 0, 0);
    s.on_ground = true;
    s.velocity = Vector3::new(3, -3, -5);
    s.knockback_along(0, 0, 0);
    assert_eq!(s.velocity, Vector3::new(1, -1, -2));
    s.velocity = Vector3::new(ONE, 0, ONE);
    s.knockback_along(400_000_000, 0, 0);
    assert_eq!(s.velocity, Vector3::new(ONE / 2, 400_000_000, ONE / 2));
}

#[test]
fn substitute_direction_stays_within_its_bound_for_a_fixed_seed() {
    let mut rng = StdRng::seed_from_u64(0x5eed);
    let mut i: u32 = 0;
    while i < 10_000 {
        let a = rng.next_u32();
        let b = rng.next_u32();
        let c = substitute_from(a, b);
        assert!(-SUBSTITUTE_BOUND < c && c < SUBSTITUTE_BOUND);
        assert_eq!(c, (a % 10_000_000) as i64 - (b % 10_000_000) as i64);
        i += 1;
    }
    assert_eq!(substitute_from(0, 9_999_999), -9_999_999);
    assert_eq!(substitute_from(19_999_999, 10_000_000), 9_999_999);
    assert_eq!(substitute_from(u32::MAX, u32::MAX), 0);
}

#[test]
fn knockback_with_a_degenerate_direction_stays_bounded() {
    let strength: i64 = 400_000_000;
    let mut i: u32 = 0;
    while i < 1_000 {
        let mut s = player_at(0, 0, 0);
        s.on_ground = true;
        s.velocity = Vector3::new(200_000_000, -100_000_000, -300_000_000);
        s.apply_knockback(strength, 0, 0);
        // the push is no stronger than the strength on either axis
        assert!((s.velocity.x - 100_000_000).abs() <= strength);
        assert!((s.velocity.z + 150_000_000).abs() <= strength);
        assert_eq!(s.velocity.y, 350_000_000);
        i += 1;
    }
}

#[test]
fn a_direction_just_below_the_threshold_is_degenerate() {
    // 3_162_277^2 < 1e13 <= 3_162_278^2: the first is replaced, the second is kept
    let mut kept = player_at(0, 0, 0);
    kept.apply_knockback(ONE, 3_162_278, 0);
    assert_eq!(kept.velocity, Vector3::new(-ONE, 0, 0));
    let mut i: u32 = 0;
    let mut replaced_once = false;
    while i < 64 {
        let mut s = player_at(0, 0, 0);
        s.apply_knockback(ONE, 3_162_277, 0);
        if s.velocity != Vector3::new(-ONE, 0, 0) {
            replaced_once = true;
        }
        i += 1;
    }
    assert!(replaced_once);
}

#[test]
fn the_search_range_holds_every_block_that_the_swept_volume_touches() {
    let b = BoundingBox::new(
        Vector3::new(ONE / 2, 64 * ONE, -ONE / 4),
        Vector3::new(ONE + ONE / 10, 65 * ONE + ONE * 8 / 10, ONE / 3),
    );
    let movement = Vector3::new(2 * ONE, -ONE / 2, -3 * ONE - 1);
    let swept = b.expand_towards(movement.x, movement.y, movement.z);
    let range = CollisionUtil::search_range(&b, &movement);
    let mut touched: u32 = 0;
    for x in -8..12 {
        for y in 58..72 {
            for z in -10..8 {
                let pos = BlockPos::new(x, y, z);
                let cell = cube(0, 0, 0, 1, 1, 1).at_block(&pos);
                if cell.intersects(&swept) {
                    assert!(range.has(&pos));
                    touched += 1;
                }
                if range.has(&pos) {
                    // no block of the range is further than two blocks from the swept volume
                    let padded = BoundingBox::new(
                        Vector3::new(swept.min.x - 2 * ONE, swept.min.y - 2 * ONE, swept.min.z - 2 * ONE),
                        Vector3::new(swept.max.x + 2 * ONE, swept.max.y + 2 * ONE, swept.max.z + 2 * ONE),
                    );
                    assert!(cell.intersects(&padded));
                }
            }
        }
    }
    assert_eq!(touched, 4 * 3 * 5);
}

struct Cautious;

impl EntityKind for Cautious {
    fn adjust_movement_for_edges(&self, state: &KineticState, movement: Vector3) -> Vector3 {
        if state.on_ground {
            Vector3::new(movement.x / 2, movement.y, movement.z / 2)
        } else {
            movement
        }
    }
}

#[test]
fn the_plain_kind_moves_like_the_tick_without_a_kind() {
    let mut a = player_at(0, 10 * ONE, 0);
    a.stuck_speed_multiplier = Vector3::new(ONE / 2, ONE, ONE / 2);
    let mut b = a;
    let blocks = vec![(BlockPos::new(2, 10, 0), VoxelShape::full_cube())];
    let movement = Vector3::new(ONE, -ONE / 4, ONE / 3);
    let la = a.try_advance_entity_tick_as(&PlainKind, movement, &blocks, &Vec::new(), false);
    let lb = b.advance_entity_tick(movement, &blocks, &Vec::new(), false);
    assert_eq!(la, Ok(lb));
    assert_eq!(a, b);
    assert_eq!(PlainKind.adjust_movement_for_edges(&a, movement), movement);
}

#[test]
fn the_edge_adjustment_of_a_kind_comes_after_the_stuck_speed_and_before_the_clamp() {
    let mut s = player_at(0, 10 * ONE, 0);
    s.on_ground = true;
    s.velocity = Vector3::new(ONE, 0, 0);
    s.stuck_speed_multiplier = Vector3::new(ONE / 2, ONE, ONE / 2);
    let r = s.try_advance_entity_tick_as(
        &Cautious,
        Vector3::new(ONE, 0, 2 * ONE),
        &Vec::new(),
        &Vec::new(),
        false,
    );
    assert_eq!(r, Ok(None));
    // halved by the stuck speed, halved again by the kind
    assert_eq!(s.pos, Vector3::new(ONE / 4, 10 * ONE, ONE / 2));
    assert_eq!(s.stuck_speed_multiplier, Vector3::new(0, 0, 0));
    assert_eq!(s.velocity, Vector3::new(0, 0, 0));
    assert!(!s.on_ground);
}

// A kind that breaks the rule of its trait: it lengthens the movement.
struct Reckless;

impl EntityKind for Reckless {
    fn adjust_movement_for_edges(&self, _state: &KineticState, _movement: Vector3) -> Vector3 {
        Vector3::new(i64::MAX, 0, 0)
    }
}

#[test]
fn a_tick_of_a_kind_is_made_exactly_when_the_plain_tick_can_be_made() {
    let blocks = vec![(BlockPos::new(2, 10, 0), VoxelShape::full_cube())];
    let movement = Vector3::new(ONE, -ONE / 4, ONE / 3);
    let mut good = player_at(0, 10 * ONE, 0);
    good.on_ground = true;
    assert!(good.check_advance(&movement, &blocks, &Vec::new()));
    assert!(good.try_advance_entity_tick_as(&Cautious, movement, &blocks, &Vec::new(), false).is_ok());
    // halved on the ground by the kind, and short of the block at x = 2
    assert_eq!(good.pos, Vector3::new(ONE / 2, 10 * ONE - ONE / 4, ONE / 6));

    let mut bad = player_at(0, 10 * ONE, 0);
    bad.on_ground = true;
    bad.velocity = Vector3::new(COORD_LIMIT + 1, 0, 0);
    let before = bad;
    assert!(!bad.check_advance(&movement, &blocks, &Vec::new()));
    assert_eq!(
        bad.try_advance_entity_tick_as(&Cautious, movement, &blocks, &Vec::new(), false),
        Err(MovementError::OutOfRange)
    );
    assert_eq!(bad, before);
    // a movement that is out of range is refused although the kind would halve it
    let mut far = player_at(0, 10 * ONE, 0);
    far.on_ground = true;
    let long = Vector3::new(COORD_LIMIT + 1, 0, 0);
    assert_eq!(
        far.try_advance_entity_tick_as(&Cautious, long, &Vec::new(), &Vec::new(), false),
        Err(MovementError::OutOfRange)
    );
    assert_eq!(far, player_at_ground(0, 10 * ONE, 0));
}

fn player_at_ground(x: i64, y: i64, z: i64) -> KineticState {
    let mut s = player_at(x, y, z);
    s.on_ground = true;
    s
}

#[test]
fn a_kind_that_asks_for_too_much_leaves_the_state_untouched() {
    let mut s = player_at(0, 10 * ONE, 0);
    s.velocity = Vector3::new(ONE, 0, 0);
    s.stuck_speed_multiplier = Vector3::new(ONE / 2, ONE, ONE / 2);
    let before = s;
    let r = s.try_advance_entity_tick_as(&Reckless, Vector3::new(ONE, 0, 0), &Vec::new(), &Vec::new(), false);
    assert_eq!(r, Err(MovementError::OutOfRange));
    assert_eq!(s, before);
}

#[test]
fn global_tick_moves_by_what_is_left_of_the_velocity() {
    // free: the entity moves by its velocity, and a descent is counted
    let mut free = player_at(0, 10 * ONE, 0);
    free.on_ground = true;
    free.velocity = Vector3::new(ONE / 4, -ONE / 2, 0);
    let landing = free.global_tick(&Vec::new(), &Vec::new(), false);
    assert_eq!(landing, None);
    assert_eq!(free.pos, Vector3::new(ONE / 4, 10 * ONE - ONE / 2, 0));
    assert_eq!(free.velocity, Vector3::new(ONE / 4, -ONE / 2, 0));
    assert!(!free.on_ground);
    assert_eq!(free.fall_distance, ONE / 2);

    // fully blocked: the entity stays where it is and loses the velocity on the blocked axis
    let mut blocked = player_at(0, 10 * ONE, 0);
    blocked.velocity = Vector3::new(0, -2 * ONE, 0);
    blocked.fall_distance = 5 * ONE;
    let floor = vec![(BlockPos::new(-1, 7, -1), VoxelShape::cube(0, 0, 0, 3 * ONE, ONE, 3 * ONE))];
    let landing = blocked.global_tick(&floor, &Vec::new(), false);
    assert_eq!(blocked.pos, Vector3::new(0, 10 * ONE, 0));
    assert_eq!(blocked.velocity, Vector3::new(0, 0, 0));
    assert!(blocked.on_ground);
    assert_eq!(blocked.fall_distance, 0);
    assert_eq!(landing, Some(Landing { damage: 2 * ONE, sound: LandingSound::BigFall }));
}

#[test]
fn global_tick_recomputes_the_ground_contact() {
    // on the ground and rising freely: no longer on the ground
    let mut rising = player_at(0, 10 * ONE, 0);
    rising.on_ground = true;
    rising.fall_distance = ONE;
    rising.velocity = Vector3::new(0, ONE / 2, 0);
    assert_eq!(rising.global_tick(&Vec::new(), &Vec::new(), false), None);
    assert!(!rising.on_ground);
    assert_eq!(rising.fall_distance, ONE);
    assert_eq!(rising.pos, Vector3::new(0, 10 * ONE + ONE / 2, 0));
    // a landing after two blocks costs nothing and resets the distance
    let mut soft = player_at(0, 10 * ONE, 0);
    soft.velocity = Vector3::new(0, -2 * ONE, 0);
    soft.fall_distance = 2 * ONE;
    let floor = vec![(BlockPos::new(-1, 7, -1), VoxelShape::cube(0, 0, 0, 3 * ONE, ONE, 3 * ONE))];
    assert_eq!(soft.global_tick(&floor, &Vec::new(), false), None);
    assert!(soft.on_ground);
    assert_eq!(soft.fall_distance, 0);
}

#[test]
fn a_substitute_direction_is_never_degenerate() {
    assert_eq!(usable_substitute(0, 0), None);
    assert_eq!(usable_substitute(3_162_277, 0), None);
    assert_eq!(usable_substitute(3_162_278, 0), Some((3_162_278, 0)));
    assert_eq!(usable_substitute(-9_999_999, 9_999_999), Some((-9_999_999, 9_999_999)));
    assert_eq!(last_resort(), (9_999_999, 0));
    assert!(!is_degenerate(9_999_999, 0));
    assert!(is_degenerate(0, 0));
    let mut i: u32 = 0;
    while i < 1_000 {
        let (x, z) = draw_substitute();
        assert!(x.abs() < SUBSTITUTE_BOUND && z.abs() < SUBSTITUTE_BOUND);
        assert!(!is_degenerate(x, z));
        assert!((x, z) != (0, 0));
        i += 1;
    }
}

#[test]
fn knockback_with_a_degenerate_direction_pushes_with_the_strength() {
    let strength: i64 = 400_000_000;
    let mut i: u32 = 0;
    while i < 1_000 {
        let mut s = player_at(0, 0, 0);
        s.apply_knockback(strength, 0, 0);
        // the velocity was zero: what is there now is the push, turned round
        let pushed = s.velocity.horizontal_length_squared();
        let wanted = (strength as u128) * (strength as u128);
        assert!(pushed <= wanted + wanted / 1_000_000);
        assert!(pushed + wanted / 1_000_000 >= wanted);
        i += 1;
    }
}
