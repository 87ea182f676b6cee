use rust_game::entities::{Obstacle, ObstacleType, Player};
use rust_game::physics::Physics;

fn obstacle_at(x: i32, y: i32, width: i32, height: i32, damage: u32) -> Obstacle {
    Obstacle { x, y, width, height, damage, obstacle_type: ObstacleType::WideTower }
}

#[test]
fn overlap_test_matches_the_four_inequalities() {
    let p = Player::new(); // box (750, 1100) to (1150, 1300)

    // Clearly overlapping.
    assert!(Physics::check_collision(&p, &obstacle_at(800, 1150, 200, 200, 4)));
    // Entirely to the right.
    assert!(!Physics::check_collision(&p, &obstacle_at(2000, 1150, 200, 200, 4)));
    // Entirely below.
    assert!(!Physics::check_collision(&p, &obstacle_at(800, 1300, 200, 200, 4)));
    // Entirely above.
    assert!(!Physics::check_collision(&p, &obstacle_at(800, 0, 200, 900, 4)));
}

#[test]
fn right_edge_carries_two_unit_forgiveness_inset() {
    let p = Player::new(); // right edge at 1150
    // Obstacle starting exactly at the inset edge: 400 + 750 - 20 == 1130,
    // so an obstacle at x == 1130 is NOT hit ...
    assert!(!Physics::check_collision(&p, &obstacle_at(1130, 1150, 200, 200, 4)));
    // ... but one 1 closer is.
    assert!(Physics::check_collision(&p, &obstacle_at(1129, 1150, 200, 200, 4)));
}

#[test]
fn response_is_chosen_by_strict_relative_position() {
    // Obstacle strictly below (its top is below the player's top).
    let mut p = Player::new();
    Physics::handle_collision(&mut p, &obstacle_at(750, 1200, 400, 100, 8));
    assert_eq!(p.y, 1000);
    assert_eq!(p.x, 750);
    assert_eq!(p.damage, 2);

    // Obstacle strictly above.
    let mut p = Player::new();
    Physics::handle_collision(&mut p, &obstacle_at(750, 1000, 400, 100, 8));
    assert_eq!(p.x, 550);
    assert_eq!(p.y, 1150);
    assert_eq!(p.damage, 2);

    // Same row, obstacle to the right.
    let mut p = Player::new();
    Physics::handle_collision(&mut p, &obstacle_at(1000, 1100, 400, 100, 8));
    assert_eq!(p.x, -250);
    assert_eq!(p.damage, 8);

    // Same row, obstacle to the left.
    let mut p = Player::new();
    Physics::handle_collision(&mut p, &obstacle_at(100, 1100, 400, 100, 8));
    assert_eq!(p.x, 850);
    assert_eq!(p.damage, 4);
}

#[test]
fn exact_position_tie_produces_no_response() {
    let mut p = Player::new();
    let before = p.clone();
    Physics::handle_collision(&mut p, &obstacle_at(750, 1100, 400, 100, 8));
    assert_eq!(p, before);
}

#[test]
fn game_over_when_player_falls_below_canvas() {
    let mut p = Player::new();
    assert!(!Physics::check_game_over(&p, 9000, 3300));
    p.y = 3301;
    assert!(Physics::check_game_over(&p, 9000, 3300));
}

#[test]
fn game_over_when_centre_leaves_horizontal_bounds() {
    let mut p = Player::new();
    // Centre at x + width/2; leaves on the left when centre < 0.
    p.x = -201; // centre at -1
    assert!(Physics::check_game_over(&p, 9000, 3300));
    p.x = -200; // centre exactly at 0
    assert!(!Physics::check_game_over(&p, 9000, 3300));
    // Leaves on the right when centre > canvas width.
    p.x = 8801; // centre at 9001
    assert!(Physics::check_game_over(&p, 9000, 3300));
    p.x = 8800; // centre exactly at the edge
    assert!(!Physics::check_game_over(&p, 9000, 3300));
}

#[test]
fn game_over_only_above_damage_threshold() {
    let mut p = Player::new();
    p.damage = 36; // exactly 9.0 points: not yet over
    assert!(!Physics::check_game_over(&p, 9000, 3300));
    p.damage = 37;
    assert!(Physics::check_game_over(&p, 9000, 3300));
}
