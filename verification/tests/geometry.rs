use pumpkin_sim::boundingbox::{BoundingBox, BoxError};
use pumpkin_sim::fixed::{COORD_LIMIT, UNITS_PER_BLOCK};
use pumpkin_sim::vector3::{BlockPos, Vector3};
use pumpkin_sim::voxel_shape::{CollisionType, VoxelShape};

const ONE: i64 = UNITS_PER_BLOCK;

fn cube(x0: i64, y0: i64, z0: i64, x1: i64, y1: i64, z1: i64) -> BoundingBox {
    BoundingBox::new(
        Vector3::new(x0 * ONE, y0 * ONE, z0 * ONE),
        Vector3::new(x1 * ONE, y1 * ONE, z1 * ONE),
    )
}

#[test]
fn intersects_overlapping_boxes() {
    let a = cube(0, 0, 0, 2, 2, 2);
    let b = cube(1, 1, 1, 3, 3, 3);
    assert!(a.intersects(&b));
    assert!(b.intersects(&a));
}

#[test]
fn intersects_is_false_for_touching_boxes() {
    let a = cube(0, 0, 0, 1, 1, 1);
    let b = cube(1, 0, 0, 2, 1, 1);
    assert!(!a.intersects(&b));
    assert!(!b.intersects(&a));
}

#[test]
fn intersects_needs_all_three_axes() {
    let a = cube(0, 0, 0, 2, 2, 2);
    let above = cube(0, 5, 0, 2, 6, 2);
    let beside = cube(0, 0, 5, 2, 2, 6);
    assert!(!a.intersects(&above));
    assert!(!a.intersects(&beside));
}

#[test]
fn expand_towards_moves_the_face_on_the_side_of_the_delta() {
    let a = cube(0, 0, 0, 1, 1, 1);
    let grown = a.expand_towards(2 * ONE, -3 * ONE, 0);
    assert_eq!(grown.min, Vector3::new(0, -3 * ONE, 0));
    assert_eq!(grown.max, Vector3::new(3 * ONE, ONE, ONE));
}

#[test]
fn expand_towards_zero_changes_nothing() {
    let a = cube(-1, 2, 3, 4, 5, 6);
    assert_eq!(a.expand_towards(0, 0, 0), a);
}

#[test]
fn offset_raw_moves_without_resizing() {
    let a = cube(0, 0, 0, 1, 2, 3);
    let moved = a.offset_raw(5 * ONE, -ONE, 7);
    assert_eq!(moved.min, Vector3::new(5 * ONE, -ONE, 7));
    assert_eq!(moved.max, Vector3::new(6 * ONE, ONE, 3 * ONE + 7));
}

#[test]
fn from_center_dims_centres_horizontally_and_rests_on_y() {
    let b = BoundingBox::from_center_dims(10 * ONE, 64 * ONE, -4 * ONE, 600_000_000, 1_800_000_000);
    assert_eq!(b.min, Vector3::new(9_700_000_000, 64 * ONE, -4_300_000_000));
    assert_eq!(b.max, Vector3::new(10_300_000_000, 65_800_000_000, -3_700_000_000));
}

#[test]
fn from_center_dims_rounds_half_of_an_odd_width_toward_zero() {
    let b = BoundingBox::from_center_dims(0, 0, 0, 3, 10);
    assert_eq!(b.min, Vector3::new(-1, 0, -1));
    assert_eq!(b.max, Vector3::new(1, 10, 1));
}

#[test]
fn at_block_moves_by_whole_blocks() {
    let local = cube(0, 0, 0, 1, 1, 1);
    let placed = local.at_block(&BlockPos::new(3, -2, 7));
    assert_eq!(placed, cube(3, -2, 7, 4, -1, 8));
}

#[test]
fn try_new_accepts_an_ordered_box() {
    let r = BoundingBox::try_new(Vector3::new(0, 0, 0), Vector3::new(ONE, ONE, ONE));
    assert_eq!(r, Ok(cube(0, 0, 0, 1, 1, 1)));
}

#[test]
fn try_new_accepts_a_flat_box() {
    let r = BoundingBox::try_new(Vector3::new(5, 5, 5), Vector3::new(5, 5, 5));
    assert!(r.is_ok());
}

#[test]
fn try_new_refuses_an_inverted_box() {
    let r = BoundingBox::try_new(Vector3::new(0, 2, 0), Vector3::new(1, 1, 1));
    assert_eq!(r, Err(BoxError::Inverted));
}

#[test]
fn try_new_refuses_a_coordinate_out_of_range() {
    let r = BoundingBox::try_new(Vector3::new(0, 0, 0), Vector3::new(COORD_LIMIT + 1, 1, 1));
    assert_eq!(r, Err(BoxError::OutOfRange));
    let r = BoundingBox::try_new(Vector3::new(-COORD_LIMIT - 1, 0, 0), Vector3::new(0, 0, 0));
    assert_eq!(r, Err(BoxError::OutOfRange));
}

#[test]
fn try_new_reports_range_before_order() {
    let r = BoundingBox::try_new(Vector3::new(COORD_LIMIT + 1, 0, 0), Vector3::new(0, 0, 0));
    assert_eq!(r, Err(BoxError::OutOfRange));
}

#[test]
fn new_array_takes_corners_as_arrays() {
    let b = BoundingBox::new_array([1, 2, 3], [4, 5, 6]);
    assert_eq!(b.min, Vector3::new(1, 2, 3));
    assert_eq!(b.max, Vector3::new(4, 5, 6));
}

#[test]
fn well_formed_check_matches_try_new() {
    assert!(cube(0, 0, 0, 1, 1, 1).is_well_formed());
    assert!(!cube(0, 2, 0, 1, 1, 1).is_well_formed());
}

#[test]
fn full_cube_is_the_unit_cube_and_full() {
    let s = VoxelShape::full_cube();
    assert_eq!(s.boxes, vec![cube(0, 0, 0, 1, 1, 1)]);
    assert_eq!(s.collision_type, CollisionType::Full);
    assert!(!s.is_empty());
}

#[test]
fn new_is_full_for_the_whole_unit_cube_only() {
    let s = VoxelShape::new(cube(0, 0, 0, 1, 1, 1));
    assert_eq!(s.boxes, vec![cube(0, 0, 0, 1, 1, 1)]);
    assert_eq!(s.collision_type, CollisionType::Full);
}

#[test]
fn new_is_partial_for_any_other_box() {
    let s = VoxelShape::new(cube(1, 2, 3, 4, 5, 6));
    assert_eq!(s.boxes, vec![cube(1, 2, 3, 4, 5, 6)]);
    assert_eq!(s.collision_type, CollisionType::Partial);
    // the unit cube elsewhere, and the unit cube but for one unit
    assert_eq!(VoxelShape::new(cube(1, 0, 0, 2, 1, 1)).collision_type, CollisionType::Partial);
    let nearly = BoundingBox::new(Vector3::new(0, 0, 0), Vector3::new(ONE, ONE - 1, ONE));
    assert_eq!(VoxelShape::new(nearly).collision_type, CollisionType::Partial);
    let flat = BoundingBox::new(Vector3::new(0, 0, 0), Vector3::new(0, 0, 0));
    assert_eq!(VoxelShape::new(flat).collision_type, CollisionType::Partial);
}

#[test]
fn cube_builds_the_box_from_six_coordinates() {
    let s = VoxelShape::cube(1, 2, 3, 4, 5, 6);
    assert_eq!(s.boxes, vec![BoundingBox::new(Vector3::new(1, 2, 3), Vector3::new(4, 5, 6))]);
    assert_eq!(s.collision_type, CollisionType::Partial);
    let whole = VoxelShape::cube(0, 0, 0, ONE, ONE, ONE);
    assert_eq!(whole.boxes, VoxelShape::full_cube().boxes);
    assert_eq!(whole.collision_type, CollisionType::Full);
}

#[test]
fn from_boxes_of_nothing_is_empty() {
    let s = VoxelShape::from_boxes(Vec::new());
    assert_eq!(s.collision_type, CollisionType::Empty);
    assert!(s.is_empty());
    assert!(s.boxes.is_empty());
}

#[test]
fn from_boxes_is_partial_even_for_one_box() {
    let s = VoxelShape::from_boxes(vec![cube(0, 0, 0, 1, 1, 1)]);
    assert_eq!(s.collision_type, CollisionType::Partial);
    assert!(!s.is_empty());
}

#[test]
fn empty_has_no_boxes() {
    let s = VoxelShape::empty();
    assert!(s.boxes.is_empty());
    assert_eq!(s.collision_type, CollisionType::Empty);
    assert!(s.is_empty());
}

#[test]
fn collides_with_finds_any_sub_box() {
    let s = VoxelShape::from_boxes(vec![cube(0, 0, 0, 1, 1, 1), cube(5, 5, 5, 6, 6, 6)]);
    assert!(s.collides_with(&BoundingBox::new(
        Vector3::new(5 * ONE + 1, 5 * ONE + 1, 5 * ONE + 1),
        Vector3::new(7 * ONE, 7 * ONE, 7 * ONE),
    )));
    assert!(!s.collides_with(&cube(2, 2, 2, 4, 4, 4)));
    assert!(!VoxelShape::empty().collides_with(&cube(0, 0, 0, 1, 1, 1)));
}

#[test]
fn union_concatenates_and_is_partial() {
    let a = VoxelShape::from_boxes(vec![cube(0, 0, 0, 1, 1, 1), cube(1, 0, 0, 2, 1, 1)]);
    let b = VoxelShape::from_boxes(vec![
        cube(0, 1, 0, 1, 2, 1),
        cube(0, 2, 0, 1, 3, 1),
        cube(0, 3, 0, 1, 4, 1),
    ]);
    let u = a.union(&b);
    assert_eq!(u.boxes.len(), 5);
    assert_eq!(u.collision_type, CollisionType::Partial);
    assert_eq!(&u.boxes[..2], &a.boxes[..]);
    assert_eq!(&u.boxes[2..], &b.boxes[..]);
}

#[test]
fn union_of_full_shapes_is_partial() {
    let u = VoxelShape::full_cube().union(&VoxelShape::full_cube());
    assert_eq!(u.boxes.len(), 2);
    assert_eq!(u.collision_type, CollisionType::Partial);
}

#[test]
fn union_with_empty_keeps_the_boxes() {
    let a = VoxelShape::full_cube();
    let u = a.union(&VoxelShape::empty());
    assert_eq!(u.boxes, a.boxes);
    assert_eq!(u.collision_type, CollisionType::Partial);
    let v = VoxelShape::empty().union(&a);
    assert_eq!(v.boxes, a.boxes);
    assert_eq!(v.collision_type, CollisionType::Partial);
}

#[test]
fn union_of_two_empty_shapes_is_empty() {
    let u = VoxelShape::empty().union(&VoxelShape::empty());
    assert!(u.boxes.is_empty());
    assert_eq!(u.collision_type, CollisionType::Empty);
    assert!(u.is_empty());
}

#[test]
fn shape_at_block_moves_every_box() {
    let s = VoxelShape::from_boxes(vec![cube(0, 0, 0, 1, 1, 1), cube(0, 1, 0, 1, 2, 1)]);
    let placed = s.at_block(&BlockPos::new(10, 0, -1));
    assert_eq!(placed.boxes, vec![cube(10, 0, -1, 11, 1, 0), cube(10, 1, -1, 11, 2, 0)]);
    assert_eq!(placed.collision_type, CollisionType::Partial);
}

#[test]
fn offset_moves_right_against_a_wall() {
    // the box from (0,0,0) to (1,1,1) wants to go 2 along +X; the wall starts at x = 2
    let wall = VoxelShape::new(cube(2, 0, 0, 3, 1, 1));
    let entity = cube(0, 0, 0, 1, 1, 1);
    let resolved = wall.calculate_collision_offset(&entity, Vector3::new(2 * ONE, 0, 0));
    assert_eq!(resolved, Vector3::new(ONE, 0, 0));
}

#[test]
fn offset_moves_left_against_a_wall() {
    let wall = VoxelShape::new(cube(-3, 0, 0, -2, 1, 1));
    let entity = cube(0, 0, 0, 1, 1, 1);
    let resolved = wall.calculate_collision_offset(&entity, Vector3::new(-5 * ONE, 0, 0));
    assert_eq!(resolved, Vector3::new(-2 * ONE, 0, 0));
}

#[test]
fn offset_is_free_when_nothing_is_in_the_way() {
    let wall = VoxelShape::new(cube(2, 5, 0, 3, 6, 1));
    let entity = cube(0, 0, 0, 1, 1, 1);
    let movement = Vector3::new(2 * ONE, 0, 0);
    assert_eq!(wall.calculate_collision_offset(&entity, movement), movement);
}

#[test]
fn offset_against_an_empty_shape_is_the_movement() {
    let entity = cube(0, 0, 0, 1, 1, 1);
    let movement = Vector3::new(7 * ONE, -3 * ONE, 11);
    assert_eq!(VoxelShape::empty().calculate_collision_offset(&entity, movement), movement);
}

#[test]
fn negligible_movement_is_returned_unchanged() {
    // squared length 3 * 100_000^2 = 3e10 < 1e11, although the wall overlaps the path
    let wall = VoxelShape::new(cube(1, 0, 0, 2, 1, 1));
    let entity = cube(0, 0, 0, 1, 1, 1);
    let movement = Vector3::new(100_000, 100_000, 100_000);
    assert_eq!(wall.calculate_collision_offset(&entity, movement), movement);
}

#[test]
fn movement_at_the_negligible_threshold_is_clamped() {
    // squared length 316_228^2 = 100_000_147_984 >= 1e11: not negligible
    let wall = VoxelShape::new(cube(1, 0, 0, 2, 1, 1));
    let entity = cube(0, 0, 0, 1, 1, 1);
    let resolved = wall.calculate_collision_offset(&entity, Vector3::new(316_228, 0, 0));
    assert_eq!(resolved, Vector3::new(0, 0, 0));
    // squared length 316_227^2 = 99_999_515_529 < 1e11: negligible
    let movement = Vector3::new(316_227, 0, 0);
    assert_eq!(wall.calculate_collision_offset(&entity, movement), movement);
}

#[test]
fn a_gap_below_the_tolerance_snaps_to_zero() {
    // the wall is 99 units away
    let wall = VoxelShape::new(BoundingBox::new(
        Vector3::new(ONE + 99, 0, 0),
        Vector3::new(2 * ONE, ONE, ONE),
    ));
    let entity = cube(0, 0, 0, 1, 1, 1);
    let resolved = wall.calculate_collision_offset(&entity, Vector3::new(ONE, 0, 0));
    assert_eq!(resolved, Vector3::new(0, 0, 0));
}

#[test]
fn a_gap_at_the_tolerance_is_kept() {
    let wall = VoxelShape::new(BoundingBox::new(
        Vector3::new(ONE + 100, 0, 0),
        Vector3::new(2 * ONE, ONE, ONE),
    ));
    let entity = cube(0, 0, 0, 1, 1, 1);
    let resolved = wall.calculate_collision_offset(&entity, Vector3::new(ONE, 0, 0));
    assert_eq!(resolved, Vector3::new(100, 0, 0));
}

#[test]
fn the_nearest_of_several_boxes_wins() {
    let shape = VoxelShape::from_boxes(vec![
        cube(5, 0, 0, 6, 1, 1),
        cube(3, 0, 0, 4, 1, 1),
        cube(4, 0, 0, 5, 1, 1),
    ]);
    let entity = cube(0, 0, 0, 1, 1, 1);
    let resolved = shape.calculate_collision_offset(&entity, Vector3::new(10 * ONE, 0, 0));
    assert_eq!(resolved, Vector3::new(2 * ONE, 0, 0));
}

#[test]
fn falling_onto_a_floor_stops_at_its_top() {
    let floor = VoxelShape::new(cube(-5, -1, -5, 5, 0, 5));
    let entity = BoundingBox::new(
        Vector3::new(0, ONE / 2, 0),
        Vector3::new(ONE, 2 * ONE, ONE),
    );
    let resolved = floor.calculate_collision_offset(&entity, Vector3::new(0, -3 * ONE, 0));
    assert_eq!(resolved, Vector3::new(0, -ONE / 2, 0));
}

#[test]
fn axis_order_x_first_fixture() {
    // An L of two boxes up and to the right of the entity. Going diagonally,
    // X is resolved first and is free; Y is then blocked from the start.
    let l_shape = VoxelShape::from_boxes(vec![cube(2, 1, 0, 3, 3, 1), cube(3, 1, 0, 5, 2, 1)]);
    let entity = cube(0, 0, 0, 1, 1, 1);
    let resolved = l_shape.calculate_collision_offset(&entity, Vector3::new(2 * ONE, 2 * ONE, 0));
    assert_eq!(resolved, Vector3::new(2 * ONE, 0, 0));

    // Resolving Y before X by hand ends elsewhere.
    let up = l_shape.calculate_collision_offset(&entity, Vector3::new(0, 2 * ONE, 0));
    assert_eq!(up, Vector3::new(0, 2 * ONE, 0));
    let raised = entity.offset_raw(up.x, up.y, up.z);
    let right = l_shape.calculate_collision_offset(&raised, Vector3::new(2 * ONE, 0, 0));
    assert_eq!(right, Vector3::new(ONE, 0, 0));
    let y_first = Vector3::new(right.x, up.y, 0);
    assert_ne!(resolved, y_first);
}

#[test]
fn each_axis_uses_the_box_displaced_by_the_axes_before_it() {
    // Z is blocked only where X and Y have taken the box.
    let pillar = VoxelShape::new(cube(2, 2, 2, 3, 3, 3));
    let entity = cube(0, 0, 0, 1, 1, 1);
    let resolved =
        pillar.calculate_collision_offset(&entity, Vector3::new(2 * ONE, 2 * ONE, 2 * ONE));
    assert_eq!(resolved, Vector3::new(2 * ONE, 2 * ONE, ONE));
}

#[test]
fn an_overlapping_obstruction_pushes_back() {
    // the obstruction already overlaps the box on X: the clamp is negative
    let wall = VoxelShape::new(BoundingBox::new(
        Vector3::new(ONE / 2, 0, 0),
        Vector3::new(2 * ONE, ONE, ONE),
    ));
    let entity = cube(0, 0, 0, 1, 1, 1);
    let resolved = wall.calculate_collision_offset(&entity, Vector3::new(ONE, 0, 0));
    assert_eq!(resolved, Vector3::new(-ONE / 2, 0, 0));
}

fn shortened(resolved: i64, desired: i64) -> bool {
    if desired >= 0 {
        0 <= resolved && resolved <= desired
    } else {
        desired <= resolved && resolved <= 0
    }
}

#[test]
fn a_single_obstruction_clear_of_the_box_only_shortens() {
    let entity = cube(0, 0, 0, 1, 1, 1);
    let steps: [i64; 7] = [-3 * ONE, -ONE, -50, 0, 50, ONE, 3 * ONE];
    let places: [i64; 6] = [-3 * ONE, -ONE - 50, -ONE, ONE, ONE + 50, 3 * ONE];
    let mut checked: u32 = 0;
    for ox in places {
        for oy in places {
            for oz in [-ONE / 2, 0, 2 * ONE] {
                let obstruction = BoundingBox::new(
                    Vector3::new(ox, oy, oz),
                    Vector3::new(ox + ONE, oy + ONE, oz + ONE),
                );
                if obstruction.intersects(&entity) {
                    continue;
                }
                let shape = VoxelShape::new(obstruction);
                for dx in steps {
                    for dy in steps {
                        for dz in steps {
                            let desired = Vector3::new(dx, dy, dz);
                            let r = shape.calculate_collision_offset(&entity, desired);
                            assert!(shortened(r.x, dx) && shortened(r.y, dy) && shortened(r.z, dz));
                            if desired.length_squared() >= 100_000_000_000 {
                                assert!(!obstruction.intersects(&entity.offset_raw(r.x, r.y, r.z)));
                                if dx != 0 && r.x == 0 {
                                    // blocked from the start: the obstruction is flush against the face
                                    let gap = if dx > 0 { ox - ONE } else { ox + ONE };
                                    assert!(gap.abs() < 100);
                                }
                            } else {
                                assert_eq!(r, desired);
                            }
                            checked += 1;
                        }
                    }
                }
            }
        }
    }
    assert!(checked > 30_000);
}

#[test]
fn the_order_of_the_boxes_plays_no_part() {
    let entity = cube(0, 0, 0, 1, 1, 1);
    let a = cube(3, 0, 0, 4, 1, 1);
    let b = BoundingBox::new(Vector3::new(ONE + 60, 0, 0), Vector3::new(2 * ONE, ONE, ONE));
    let c = cube(2, 5, 0, 3, 6, 1);
    let movement = Vector3::new(5 * ONE, 0, 0);
    let orders = [[a, b, c], [a, c, b], [b, a, c], [b, c, a], [c, a, b], [c, b, a]];
    for order in orders {
        let shape = VoxelShape::from_boxes(order.to_vec());
        assert_eq!(shape.calculate_collision_offset(&entity, movement), Vector3::new(0, 0, 0));
    }
}

#[test]
fn a_collision_is_the_same_anywhere() {
    let shape = VoxelShape::from_boxes(vec![cube(2, 1, 0, 3, 3, 1), cube(3, 1, 0, 5, 2, 1)]);
    let entity = cube(0, 0, 0, 1, 1, 1);
    let movements = [
        Vector3::new(2 * ONE, 2 * ONE, 0),
        Vector3::new(3 * ONE, ONE / 2, -ONE),
        Vector3::new(-ONE, 5 * ONE, 7),
    ];
    for m in movements {
        let here = shape.calculate_collision_offset(&entity, m);
        for pos in [BlockPos::new(10, -3, 7), BlockPos::new(-1_000_000, 64, 1_000_000)] {
            let there = shape.at_block(&pos).calculate_collision_offset(&entity.at_block(&pos), m);
            assert_eq!(there, here);
        }
    }
}
