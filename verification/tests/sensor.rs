use evosim::reading::{pattern_of, reading_of};
use evosim::sensor::{greater, lesser, nearest, ray_intersects_aabb, sense, Crossings};

fn reading(x: f32) -> Option<i32> {
    reading_of(x.to_bits())
}

fn value(reading: i32) -> f32 {
    f32::from_bits(pattern_of(reading))
}

/// Readings at which the ray from `start` along `dir` crosses the sides of
/// the box around `center` with the given half extent.
fn crossings(start: (f32, f32), dir: (f32, f32), center: (f32, f32), half: (f32, f32)) -> Crossings {
    let inv = (1.0 / dir.0, 1.0 / dir.1);
    Crossings {
        x_low: reading((center.0 - half.0 - start.0) * inv.0),
        x_high: reading((center.0 + half.0 - start.0) * inv.0),
        y_low: reading((center.1 - half.1 - start.1) * inv.1),
        y_high: reading((center.1 + half.1 - start.1) * inv.1),
    }
}

#[test]
fn lesser_and_greater_pick_by_order() {
    assert_eq!(lesser(Some(3), Some(-4)), Some(-4));
    assert_eq!(lesser(Some(-4), Some(3)), Some(-4));
    assert_eq!(greater(Some(3), Some(-4)), Some(3));
    assert_eq!(greater(Some(-4), Some(3)), Some(3));
    assert_eq!(lesser(Some(7), Some(7)), Some(7));
    assert_eq!(greater(Some(7), Some(7)), Some(7));
}

#[test]
fn undefined_reading_gives_way_to_the_other() {
    assert_eq!(lesser(None, Some(5)), Some(5));
    assert_eq!(lesser(Some(5), None), Some(5));
    assert_eq!(greater(None, Some(5)), Some(5));
    assert_eq!(greater(Some(5), None), Some(5));
    assert_eq!(lesser(None, None), None);
    assert_eq!(greater(None, None), None);
}

#[test]
fn ray_straight_ahead_hits_box_at_distance_four() {
    // Heading 0, direction (0, 1); box centred at (0, 5) with half extent (1, 1).
    let c = crossings((0.0, 0.0), (0.0, 1.0), (0.0, 5.0), (1.0, 1.0));
    let hit = ray_intersects_aabb(c).unwrap();
    assert_eq!(value(hit), 4.0);
}

#[test]
fn ray_over_its_full_range_hits_at_the_fraction_of_the_range() {
    // The same ray as a segment of length 10: the box is entered at 4 / 10.
    let c = crossings((0.0, 0.0), (0.0, 10.0), (0.0, 5.0), (1.0, 1.0));
    let hit = ray_intersects_aabb(c).unwrap();
    assert_eq!(value(hit), 4.0 * (1.0 / 10.0));
    assert_eq!(value(hit) * 10.0, 4.0);
}

#[test]
fn ray_from_inside_the_box_hits_at_zero() {
    let c = crossings((0.25, 4.5), (0.6, 0.8), (0.0, 5.0), (1.0, 1.0));
    assert_eq!(ray_intersects_aabb(c), Some(0));
    let axis = crossings((0.25, 4.5), (0.0, 1.0), (0.0, 5.0), (1.0, 1.0));
    assert_eq!(ray_intersects_aabb(axis), Some(0));
}

#[test]
fn ray_that_points_away_misses() {
    let c = crossings((0.0, 0.0), (0.0, -1.0), (0.0, 5.0), (1.0, 1.0));
    assert_eq!(ray_intersects_aabb(c), None);
}

#[test]
fn ray_that_passes_beside_the_box_misses() {
    let c = crossings((0.0, 0.0), (1.0, 1.0), (0.0, 5.0), (1.0, 1.0));
    assert_eq!(ray_intersects_aabb(c), None);
}

#[test]
fn ray_parallel_to_an_axis_outside_the_slab_misses() {
    let c = crossings((3.0, 0.0), (0.0, 1.0), (0.0, 5.0), (1.0, 1.0));
    assert_eq!(ray_intersects_aabb(c), None);
    let d = crossings((-3.0, 0.0), (0.0, 1.0), (0.0, 5.0), (1.0, 1.0));
    assert_eq!(ray_intersects_aabb(d), None);
}

#[test]
fn ray_parallel_to_an_axis_on_the_side_of_the_box_gives_a_definite_result() {
    // The origin lies on the line of a side: one reading is undefined.
    let c = crossings((1.0, 0.0), (0.0, 1.0), (0.0, 5.0), (1.0, 1.0));
    assert_eq!(c.x_high, None);
    assert_eq!(ray_intersects_aabb(c), None);
    let d = crossings((-1.0, 0.0), (0.0, 1.0), (0.0, 5.0), (1.0, 1.0));
    assert_eq!(d.x_low, None);
    assert_eq!(ray_intersects_aabb(d), None);
}

#[test]
fn ray_of_no_length_gives_a_definite_result() {
    // Beside the box in one slab only: the box is met infinitely far away.
    let ahead = crossings((0.0, 0.0), (0.0, 0.0), (0.0, 5.0), (1.0, 1.0));
    assert_eq!(ray_intersects_aabb(ahead).map(value), Some(f32::INFINITY));
    let behind = crossings((0.0, 9.0), (0.0, 0.0), (0.0, 5.0), (1.0, 1.0));
    assert_eq!(ray_intersects_aabb(behind), None);
    let inside = crossings((0.0, 5.0), (0.0, 0.0), (0.0, 5.0), (1.0, 1.0));
    assert_eq!(ray_intersects_aabb(inside), Some(0));
}

#[test]
fn crossings_without_any_reading_hit_at_zero() {
    let c = Crossings { x_low: None, x_high: None, y_low: None, y_high: None };
    assert_eq!(ray_intersects_aabb(c), Some(0));
}

#[test]
fn hit_is_the_later_entry() {
    let c = Crossings { x_low: Some(2), x_high: Some(9), y_low: Some(5), y_high: Some(7) };
    assert_eq!(ray_intersects_aabb(c), Some(5));
    let swapped = Crossings { x_low: Some(9), x_high: Some(2), y_low: Some(7), y_high: Some(5) };
    assert_eq!(ray_intersects_aabb(swapped), Some(5));
}

#[test]
fn slabs_that_only_touch_are_hit() {
    let c = Crossings { x_low: Some(1), x_high: Some(4), y_low: Some(4), y_high: Some(8) };
    assert_eq!(ray_intersects_aabb(c), Some(4));
    let behind = Crossings { x_low: Some(-6), x_high: Some(0), y_low: Some(-3), y_high: Some(2) };
    assert_eq!(ray_intersects_aabb(behind), Some(0));
}

#[test]
fn box_behind_the_origin_is_missed() {
    let c = Crossings { x_low: Some(-9), x_high: Some(-2), y_low: Some(-7), y_high: Some(-1) };
    assert_eq!(ray_intersects_aabb(c), None);
}

#[test]
fn nearest_of_no_hits_is_the_maximum_range() {
    assert_eq!(nearest(&vec![], 300), 300);
    assert_eq!(nearest(&vec![None, None], 300), 300);
}

#[test]
fn nearest_is_the_least_hit() {
    assert_eq!(nearest(&vec![Some(40), None, Some(7), Some(19)], 300), 7);
    assert_eq!(nearest(&vec![None, Some(0)], 300), 0);
    assert_eq!(nearest(&vec![Some(500)], 300), 500);
}

#[test]
fn nearest_food_by_distance_with_range_as_default() {
    let range = reading(10000.0).unwrap();
    let distances = vec![reading(220.5), reading(13.25), reading(9000.0)];
    assert_eq!(value(nearest(&distances, range)), 13.25);
    assert_eq!(value(nearest(&vec![], range)), 10000.0);
}

#[test]
fn sense_gives_one_reading_for_each_ray() {
    let hits = vec![vec![Some(5), None], vec![None, None], vec![Some(9), Some(3)]];
    assert_eq!(sense(&hits, 100), vec![5, 100, 3]);
}

#[test]
fn sense_without_targets_reads_the_maximum_range_on_every_ray() {
    let hits: Vec<Vec<Option<i32>>> = vec![vec![]; 20];
    assert_eq!(sense(&hits, 300), vec![300; 20]);
}

#[test]
fn sense_without_rays_reads_nothing() {
    assert_eq!(sense(&vec![], 300), Vec::<i32>::new());
}

#[test]
fn sense_of_a_fan_of_rays_over_one_box() {
    // Ten rays over a quarter turn from the origin, one box straight ahead:
    // only the two rays next to the heading meet it.
    let rays = 10usize;
    let range = 100.0f32;
    let mut hits = Vec::new();
    for i in 0..rays {
        let angle = (-45.0 + i as f32 * 90.0 / (rays - 1) as f32).to_radians();
        let dir = (-angle.sin() * range, angle.cos() * range);
        hits.push(vec![ray_intersects_aabb(crossings((0.0, 0.0), dir, (0.0, 50.0), (5.0, 5.0)))]);
    }
    let sight = sense(&hits, reading(range).unwrap());
    assert_eq!(sight.len(), rays);
    let seen: Vec<bool> = sight.iter().map(|r| value(*r) < range).collect();
    assert_eq!(
        seen,
        vec![false, false, false, false, true, true, false, false, false, false]
    );
    // The box is entered at its near side, 45 ahead, after 45 / (100 cos 5).
    assert!((value(sight[4]) - 0.4517).abs() < 0.0001);
    assert!((value(sight[5]) - 0.4517).abs() < 0.0001);
}

#[test]
fn box_ahead_but_beyond_the_range_is_met_past_the_end_of_the_segment() {
    // The segment ends at 10, the box is entered at 49: 4.9 segments away.
    let c = crossings((0.0, 0.0), (0.0, 10.0), (0.0, 50.0), (1.0, 1.0));
    let hit = ray_intersects_aabb(c).unwrap();
    assert!(value(hit) > 1.0);
    assert!((value(hit) - 4.9).abs() < 0.0001);
    // Beside a nearer hit it is not the one that is sensed.
    let near = reading(0.4);
    assert_eq!(value(nearest(&vec![Some(hit), near], reading(10.0).unwrap())), 0.4);
}
