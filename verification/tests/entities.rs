use rust_game::entities::{InputState, Obstacle, ObstacleType, Player};
use rust_game::rng::GameRng;

#[test]
fn player_spawns_at_default_position() {
    let p = Player::new();
    assert_eq!(p.x, 750);
    assert_eq!(p.y, 1100);
    assert_eq!(p.width, 400);
    assert_eq!(p.height, 200);
    assert_eq!(p.damage, 0);
    assert_eq!(p.velocity_x, 0);
    assert_eq!(p.velocity_y, 0);
    assert_eq!(p.collision_cooldown, 0);
}

#[test]
fn input_state_starts_released() {
    let i = InputState::new();
    assert!(!i.right && !i.left && !i.up && !i.down);
}

#[test]
fn player_velocity_recomputed_from_flags() {
    let mut p = Player::new();
    let mut input = InputState::new();

    input.right = true;
    p.update(&input);
    assert_eq!(p.velocity_x, 40);
    assert_eq!(p.velocity_y, 0);
    assert_eq!(p.x, 790);
    assert_eq!(p.y, 1100);

    input.right = false;
    input.left = true;
    input.up = true;
    p.update(&input);
    assert_eq!(p.velocity_x, -25);
    assert_eq!(p.velocity_y, -25);
    assert_eq!(p.x, 765);
    assert_eq!(p.y, 1075);

    input.left = false;
    input.up = false;
    input.down = true;
    p.update(&input);
    assert_eq!(p.velocity_x, 0);
    assert_eq!(p.velocity_y, 40);
    assert_eq!(p.x, 765);
    assert_eq!(p.y, 1115);
}

#[test]
fn player_with_no_input_stays_put() {
    let mut p = Player::new();
    let input = InputState::new();
    for _ in 0..100 {
        p.update(&input);
    }
    assert_eq!(p.x, 750);
    assert_eq!(p.y, 1100);
    assert_eq!(p.damage, 0);
}

#[test]
fn bounce_responses_apply_fixed_displacement_and_damage_fraction() {
    let mut rng = GameRng::new(1);
    let o = Obstacle::new(ObstacleType::WideTower, 5000, &mut rng);
    assert_eq!(o.damage, 32);

    let mut p = Player::new();
    p.bounce_up(&o);
    assert_eq!(p.y, 1000);
    assert_eq!(p.damage, 8); // a quarter of 8.0 points

    let mut p = Player::new();
    p.bounce_down(&o);
    assert_eq!(p.x, 550);
    assert_eq!(p.y, 1150);
    assert_eq!(p.damage, 8);

    let mut p = Player::new();
    p.bounce_left(&o);
    assert_eq!(p.x, -250);
    assert_eq!(p.damage, 32); // the full 8.0 points

    let mut p = Player::new();
    p.bounce_right(&o);
    assert_eq!(p.x, 850);
    assert_eq!(p.damage, 16); // half of 8.0 points
}

#[test]
fn collision_cooldown_runs_down_tick_by_tick() {
    let mut p = Player::new();
    assert!(p.can_take_damage());
    p.apply_collision_cooldown();
    assert!(!p.can_take_damage());
    let input = InputState::new();
    for _ in 0..29 {
        p.update(&input);
        assert!(!p.can_take_damage());
    }
    p.update(&input);
    assert!(p.can_take_damage());
}

#[test]
fn obstacle_catalogue_has_fixed_dimensions() {
    let mut rng = GameRng::new(2);
    let cases = [
        (ObstacleType::WideTower, 2500, 1000, 800, 32),
        (ObstacleType::TallTower, 1500, 600, 1800, 24),
        (ObstacleType::FloatingPlatform, 1300, 800, 200, 16),
        (ObstacleType::Train, 2000, 1200, 400, 40),
        (ObstacleType::VehicleLeft, 1800, 400, 200, 20),
        (ObstacleType::VehicleRight, 1800, 400, 200, 20),
        (ObstacleType::DeliveryLeft, 1700, 500, 300, 28),
        (ObstacleType::DeliveryRight, 1700, 500, 300, 28),
        (ObstacleType::Billboard, 800, 600, 400, 12),
        (ObstacleType::BuildingTop, 2000, 800, 1300, 24),
    ];
    for (t, y, w, h, d) in cases {
        let o = Obstacle::new(t, 4321, &mut rng);
        assert_eq!(o.x, 4321);
        assert_eq!(o.y, y);
        assert_eq!(o.width, w);
        assert_eq!(o.height, h);
        assert_eq!(o.damage, d);
        assert_eq!(o.obstacle_type, t);
    }
}

#[test]
fn orb_floats_at_a_random_height_in_band() {
    for seed in 0..50u64 {
        let mut rng = GameRng::new(seed);
        let o = Obstacle::new(ObstacleType::Orb, 0, &mut rng);
        assert!(o.y >= 1200 && o.y <= 1790);
        assert_eq!((o.y - 1200) % 10, 0);
        assert_eq!(o.width, 150);
        assert_eq!(o.height, 150);
        assert_eq!(o.damage, 8);
    }
}
