use wanderball::components::ball::initialize_ball;
use wanderball::components::shapes::circle::Circle;
use wanderball::components::shapes::rectangle::Rectangle;
use wanderball::components::transform::Transform;
use wanderball::components::wanderdata::{Coordinate, Pedometer};
use wanderball::config::WanderballConfig;
use wanderball::resources::save::{BallRecord, PathSegmentRecord, PedometerRecord};
use wanderball::systems::ball::BallSystem;
use wanderball::systems::wanderdata::CoordinateSystem;

fn tile(x: i32, y: i32, width: u32, height: u32) -> PathSegmentRecord {
    PathSegmentRecord {
        transform: Transform { x, y, z: 0, quarter_turn: false },
        rectangle: Rectangle::new(width, height),
    }
}

fn ball(x: i32, y: i32, radius: u32) -> BallRecord {
    BallRecord { transform: Transform::at(x, y, 1), circle: Circle::new(radius) }
}

fn position(b: &BallRecord) -> (i32, i32) {
    (b.transform.x, b.transform.y)
}

#[test]
fn a_move_off_the_only_tile_is_rejected() {
    let path = vec![tile(10, 10, 24, 8)];
    let mut b = ball(10, 10, 2);
    let mut p = Pedometer::new();
    // the tile reaches to x = 10 + 12 = 22; 10 + 20 = 30 lies beyond
    let stepped = BallSystem.run(&mut b, &mut p, &path, 20, 0, 1);
    assert_eq!(position(&b), (10, 10));
    assert!(!stepped);
    assert_eq!(p.steps, 0);
    assert!(p.visited.is_empty());
}

#[test]
fn a_move_onto_the_edge_of_a_tile_is_taken() {
    let path = vec![tile(10, 10, 24, 8)];
    let mut b = ball(10, 10, 2);
    let mut p = Pedometer::new();
    assert!(BallSystem.run(&mut b, &mut p, &path, 12, 0, 1));
    assert_eq!(position(&b), (22, 10));
    assert_eq!(p.steps, 1);
    // one more grid unit leaves the tile
    assert!(!BallSystem.run(&mut b, &mut p, &path, 1, 0, 1));
    assert_eq!(position(&b), (22, 10));
    assert!(!BallSystem.run(&mut b, &mut p, &path, 0, 4, 1));
    assert_eq!(position(&b), (22, 14));
    assert!(!BallSystem.run(&mut b, &mut p, &path, 0, 1, 1));
    assert_eq!(position(&b), (22, 14));
    assert!(!BallSystem.run(&mut b, &mut p, &path, -24, -8, 1));
    assert_eq!(position(&b), (-2, 6));
    assert!(!BallSystem.run(&mut b, &mut p, &path, -1, -1, 1));
    assert_eq!(position(&b), (-2, 6));
    assert_eq!(p.steps, 1);
}

#[test]
fn the_radius_of_the_ball_does_not_narrow_the_tile() {
    let path = vec![tile(0, 0, 24, 8)];
    let mut b = ball(0, 0, 100);
    let mut p = Pedometer::new();
    BallSystem.run(&mut b, &mut p, &path, 12, 4, 1);
    assert_eq!(position(&b), (12, 4));
    assert_eq!(b.circle.radius, 100);
    assert_eq!(b.transform.z, 1);
}

#[test]
fn the_move_is_the_input_times_the_speed() {
    let path = vec![tile(0, 0, 100, 100)];
    let mut b = ball(0, 0, 2);
    let mut p = Pedometer::new();
    BallSystem.run(&mut b, &mut p, &path, 3, -2, 5);
    assert_eq!(position(&b), (15, -10));
    BallSystem.run(&mut b, &mut p, &path, -1, 1, 7);
    assert_eq!(position(&b), (8, -3));
    // a speed of nothing moves nothing, but the tile is entered
    let mut p = Pedometer::new();
    assert!(BallSystem.run(&mut b, &mut p, &path, 1, 0, 0));
    assert_eq!(position(&b), (8, -3));
    assert_eq!(p.steps, 1);
}

#[test]
fn the_axes_are_tried_one_after_the_other() {
    // an L of two tiles: the ball can go right and then up, but not up first
    let path = vec![tile(0, 0, 24, 8), tile(8, 16, 8, 24)];
    let mut b = ball(0, 0, 2);
    let mut p = Pedometer::new();
    BallSystem.run(&mut b, &mut p, &path, 8, 8, 1);
    // x first: (8, 0) is on the first tile; then y from there: (8, 8) on the second
    assert_eq!(position(&b), (8, 8));
    let mut b = ball(0, 0, 2);
    BallSystem.run(&mut b, &mut p, &path, 0, 8, 1);
    assert_eq!(position(&b), (0, 0));
    // x is rejected, y is taken
    let mut b = ball(8, 4, 2);
    BallSystem.run(&mut b, &mut p, &path, 10, 10, 1);
    assert_eq!(position(&b), (8, 14));
}

#[test]
fn no_input_is_no_move() {
    let path = vec![tile(0, 0, 24, 8)];
    let mut b = ball(3, 1, 2);
    let mut p = Pedometer::new();
    assert!(!BallSystem.run(&mut b, &mut p, &path, 0, 0, 5));
    assert_eq!(position(&b), (3, 1));
    assert_eq!(p.steps, 0);
    assert!(p.visited.is_empty());
}

#[test]
fn a_ball_off_the_path_stays_where_it_is() {
    let path = vec![tile(0, 0, 24, 8)];
    let mut b = ball(500, 500, 2);
    let mut p = Pedometer::new();
    assert!(!BallSystem.run(&mut b, &mut p, &path, 1, 1, 1));
    assert_eq!(position(&b), (500, 500));
    let mut b = ball(0, 0, 2);
    assert!(!BallSystem.run(&mut b, &mut p, &Vec::new(), 1, 1, 1));
    assert_eq!(position(&b), (0, 0));
}

#[test]
fn each_tile_counts_once() {
    let path = vec![tile(0, 0, 24, 8), tile(24, 0, 24, 8)];
    let mut b = ball(0, 0, 2);
    let mut p = Pedometer::new();
    assert!(BallSystem.run(&mut b, &mut p, &path, 1, 0, 1));
    assert_eq!(p.steps, 1);
    assert!(!BallSystem.run(&mut b, &mut p, &path, 1, 0, 1));
    assert_eq!(p.steps, 1);
    // onto the second tile
    assert!(BallSystem.run(&mut b, &mut p, &path, 11, 0, 1));
    assert_eq!(position(&b), (13, 0));
    assert_eq!(p.steps, 2);
    // and back and forth: nothing is counted again
    let mut last = p.steps;
    for _ in 0..10 {
        assert!(!BallSystem.run(&mut b, &mut p, &path, -13, 0, 1));
        assert!(p.steps >= last);
        last = p.steps;
        assert!(!BallSystem.run(&mut b, &mut p, &path, 13, 0, 1));
        assert!(p.steps >= last);
        last = p.steps;
    }
    assert_eq!(p.steps, 2);
    assert_eq!(p.visited.len(), 2);
    assert!(p.has_visited(path[0].identity()));
    assert!(p.has_visited(path[1].identity()));
}

#[test]
fn on_a_shared_edge_the_first_tile_in_walking_order_is_entered() {
    let path = vec![tile(0, 0, 24, 8), tile(24, 0, 24, 8)];
    let mut b = ball(20, 0, 2);
    let mut p = Pedometer::new();
    // x = 12 lies on both tiles
    assert!(BallSystem.run(&mut b, &mut p, &path, -8, 0, 1));
    assert_eq!(position(&b), (12, 0));
    assert!(p.has_visited(path[0].identity()));
    assert!(!p.has_visited(path[1].identity()));
    assert_eq!(BallSystem::find_segment(&path, 12, 0), Some(0));
    assert_eq!(BallSystem::find_segment(&path, 13, 0), Some(1));
    assert_eq!(BallSystem::find_segment(&path, 37, 0), None);
    assert_eq!(BallSystem::find_segment(&path, 12, 5), None);
}

#[test]
fn both_axes_can_enter_a_tile_in_one_tick() {
    let path = vec![tile(0, 0, 24, 8), tile(24, 0, 24, 8), tile(24, 8, 24, 8)];
    let mut b = ball(12, 4, 2);
    let mut p = Pedometer::new();
    // x: (13, 4) lies on the second tile first; y: (13, 5) on the third only
    assert!(BallSystem.run(&mut b, &mut p, &path, 1, 1, 1));
    assert_eq!(position(&b), (13, 5));
    assert_eq!(p.steps, 2);
    assert!(!p.has_visited(path[0].identity()));
    assert!(p.has_visited(path[1].identity()));
    assert!(p.has_visited(path[2].identity()));
}

#[test]
fn tiles_with_the_same_centre_count_as_one() {
    let path = vec![tile(0, 0, 8, 8), tile(0, 0, 24, 24)];
    let mut b = ball(0, 0, 2);
    let mut p = Pedometer::new();
    assert!(BallSystem.run(&mut b, &mut p, &path, 1, 0, 1));
    assert!(!BallSystem.run(&mut b, &mut p, &path, 9, 0, 1));
    assert_eq!(position(&b), (10, 0));
    assert_eq!(p.steps, 1);
}

#[test]
fn a_move_along_one_axis() {
    let path = vec![tile(0, 0, 24, 8)];
    let mut b = ball(0, 0, 2);
    let mut p = Pedometer::new();
    assert!(BallSystem.move_along(true, &mut b, &mut p, &path, 2, 3));
    assert_eq!(position(&b), (6, 0));
    assert!(!BallSystem.move_along(false, &mut b, &mut p, &path, 2, 2));
    assert_eq!(position(&b), (6, 4));
    assert!(!BallSystem.move_along(false, &mut b, &mut p, &path, 1, 1));
    assert_eq!(position(&b), (6, 4));
    assert!(!BallSystem.move_along(true, &mut b, &mut p, &path, 0, 1));
    assert_eq!(position(&b), (6, 4));
}

#[test]
fn a_move_out_of_the_range_is_rejected() {
    let path = vec![tile(i32::MAX, 0, 24, 8), tile(i32::MIN, 0, 24, 8)];
    let mut b = ball(i32::MAX - 1, 0, 2);
    let mut p = Pedometer::new();
    assert!(BallSystem.run(&mut b, &mut p, &path, 1, 0, 1));
    assert_eq!(position(&b), (i32::MAX, 0));
    // the tile reaches beyond the range, the ball cannot follow
    assert!(!BallSystem.run(&mut b, &mut p, &path, 1, 0, 1));
    assert_eq!(position(&b), (i32::MAX, 0));
    assert!(!BallSystem.run(&mut b, &mut p, &path, i32::MAX, 0, i32::MAX));
    assert_eq!(position(&b), (i32::MAX, 0));
    assert!(!BallSystem.run(&mut b, &mut p, &path, i32::MIN, 0, i32::MIN));
    assert_eq!(position(&b), (i32::MAX, 0));
    // all the way across
    assert!(BallSystem.run(&mut b, &mut p, &path, -2, 0, i32::MAX));
    assert_eq!(position(&b), (i32::MIN + 1, 0));
    assert_eq!(p.steps, 2);
}

#[test]
fn segments_contain_their_edges() {
    let t = tile(10, 10, 24, 8);
    assert!(t.contains(10, 10));
    assert!(t.contains(-2, 6));
    assert!(t.contains(22, 14));
    assert!(!t.contains(23, 10));
    assert!(!t.contains(-3, 10));
    assert!(!t.contains(10, 15));
    assert!(!t.contains(10, 5));
    // an odd size: the grid points within half of it
    let t = tile(0, 0, 3, 5);
    assert!(t.contains(1, 2));
    assert!(t.contains(-1, -2));
    assert!(!t.contains(2, 0));
    assert!(!t.contains(0, 3));
    let t = tile(i32::MAX, i32::MIN, u32::MAX, u32::MAX);
    assert!(t.contains(i32::MAX as i64 + 2147483647, i32::MIN as i64 - 2147483647));
    assert!(!t.contains(i32::MAX as i64 + 2147483648, i32::MIN as i64));
}

#[test]
fn identities_tell_centres_apart() {
    assert_eq!(tile(i32::MIN, i32::MIN, 1, 1).identity(), 0);
    assert_eq!(tile(i32::MIN, i32::MIN + 1, 1, 1).identity(), 1);
    assert_eq!(tile(i32::MIN + 1, i32::MIN, 1, 1).identity(), 1 << 32);
    assert_eq!(tile(0, 0, 1, 1).identity(), (1 << 63) + (1 << 31));
    assert_eq!(tile(i32::MAX, i32::MAX, 1, 1).identity(), u64::MAX);
    assert_eq!(tile(3, 4, 24, 8).identity(), tile(3, 4, 8, 24).identity());
    // centres that read alike when written one after the other
    assert_ne!(tile(1, 23, 1, 1).identity(), tile(12, 3, 1, 1).identity());
    assert_ne!(tile(1, -1, 1, 1).identity(), tile(-1, 1, 1, 1).identity());
    assert_ne!(tile(0, 1, 1, 1).identity(), tile(1, 0, 1, 1).identity());
}

#[test]
fn a_pedometer_counts_what_is_new() {
    let mut p = Pedometer::new();
    assert_eq!(p.steps, 0);
    assert!(!p.has_visited(5));
    assert!(p.visit(5));
    assert!(p.has_visited(5));
    assert_eq!(p.steps, 1);
    assert!(!p.visit(5));
    assert_eq!(p.steps, 1);
    assert!(p.visit(6));
    assert_eq!(p.steps, 2);
    assert_eq!(p.visited.len(), 2);
    let d = Pedometer::default();
    assert_eq!(d.steps, 0);
    assert!(d.visited.is_empty());
}

#[test]
fn a_pedometer_stops_at_the_largest_count() {
    let mut p = Pedometer::new();
    p.steps = u64::MAX - 1;
    assert!(p.visit(1));
    assert_eq!(p.steps, u64::MAX);
    assert!(p.visit(2));
    assert_eq!(p.steps, u64::MAX);
    assert!(p.has_visited(2));
}

#[test]
fn a_pedometer_is_saved_and_loaded_as_it_is() {
    let mut p = Pedometer::new();
    p.visit(9);
    p.visit(10);
    p.steps = 40;
    let record = PedometerRecord::from(p);
    assert_eq!(record.steps, 40);
    assert_eq!(record.visited.len(), 2);
    assert!(record.visited.contains_key(&9));
    let mut back = Pedometer::from(record.clone());
    assert_eq!(back.steps, 40);
    assert!(back.has_visited(9));
    assert!(back.has_visited(10));
    assert!(!back.visit(10));
    assert!(back.visit(11));
    assert_eq!(back.steps, 41);
    assert_eq!(record.visited.len(), 2);
    let empty = PedometerRecord::default();
    assert_eq!(empty.steps, 0);
    assert!(empty.visited.is_empty());
}

#[test]
fn the_ball_starts_at_the_start() {
    let mut c = WanderballConfig::default();
    c.start_x = 12;
    c.start_y = -7;
    c.start_ball_z = 3;
    c.ball_radius = 5;
    let b = initialize_ball(&c);
    assert_eq!(b.transform, Transform { x: 12, y: -7, z: 3, quarter_turn: false });
    assert_eq!(b.circle, Circle::new(5));
}

#[test]
fn the_shown_position_follows_the_ball() {
    let mut shown = Coordinate::default();
    assert_eq!((shown.x, shown.y), (0, 0));
    CoordinateSystem.run(&ball(14, -3, 2), &mut shown);
    assert_eq!((shown.x, shown.y), (14, -3));
}

#[test]
fn placements() {
    assert_eq!(Transform::default(), Transform::at(0, 0, 0));
    assert_eq!(Transform::at(1, 2, 3), Transform { x: 1, y: 2, z: 3, quarter_turn: false });
}
