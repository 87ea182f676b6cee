use rust_game::background::BackgroundVehicle;
use rust_game::background::VehicleType;
use rust_game::entities::{Obstacle, ObstacleType};
use rust_game::game_state::GameState;

#[test]
fn fresh_state_has_documented_initial_values() {
    let s = GameState::new();
    assert_eq!(s.player.x, 750);
    assert_eq!(s.player.y, 1100);
    assert_eq!(s.player.damage, 0);
    assert_eq!(s.score, 0);
    assert_eq!(s.score_multiplier, 2);
    assert_eq!(s.timer, 0);
    assert!(!s.game_over);
    assert!(!s.paused);
    assert_eq!(s.canvas_width, 9000);
    assert_eq!(s.canvas_height, 3300);
    assert_eq!(s.obstacle_spawn_timer, 100);
    assert_eq!(s.obstacles.len(), 10);
    for o in &s.obstacles {
        assert!(o.x >= 9000);
        assert!(matches!(
            o.obstacle_type,
            ObstacleType::WideTower | ObstacleType::TallTower | ObstacleType::BuildingTop
        ));
    }
    assert_eq!(s.background.far_buildings.len(), 15);
    assert_eq!(s.background.billboards.len(), 3);
    assert_eq!(s.background.traffic_vehicles.len(), 0);
}

#[test]
fn same_seed_reproduces_the_same_run() {
    let mut a = GameState::new_seeded(77);
    let mut b = GameState::new_seeded(77);
    assert_eq!(a, b);
    a.set_input("down", true);
    b.set_input("down", true);
    for _ in 0..300 {
        a.update();
        b.update();
        assert_eq!(a, b);
    }
}

#[test]
fn update_is_a_no_op_when_paused_or_over() {
    let mut s = GameState::new_seeded(5);
    for _ in 0..10 {
        s.update();
    }

    s.paused = true;
    let before = s.clone();
    for _ in 0..50 {
        s.update();
        assert_eq!(s, before);
    }
    s.paused = false;

    s.game_over = true;
    let before = s.clone();
    for _ in 0..50 {
        s.update();
        assert_eq!(s, before);
    }
}

#[test]
fn damage_never_decreases_until_reset() {
    let mut s = GameState::new_seeded(3);
    s.set_input("down", true); // dive into the obstacle band
    let mut last = s.player.damage;
    for _ in 0..2000 {
        s.update();
        assert!(s.player.damage >= last);
        last = s.player.damage;
    }
    s.reset();
    assert_eq!(s.player.damage, 0);
}

#[test]
fn score_grows_monotonically_while_running() {
    let mut s = GameState::new_seeded(9);
    let mut last = s.score;
    for _ in 0..1500 {
        let was_over = s.game_over;
        s.update();
        assert!(s.score >= last);
        if !was_over {
            assert!(s.score_multiplier == 2 || s.score_multiplier == 4);
        }
        last = s.score;
    }
}

#[test]
fn multiplier_doubles_exactly_at_the_timer_boundary() {
    let mut s = GameState::new_seeded(1);

    s.score = 0;
    s.score_multiplier = 2;
    s.timer = 999;
    s.update_score();
    assert_eq!(s.score_multiplier, 2); // not yet at the boundary
    assert_eq!(s.score, 2);
    assert_eq!(s.timer, 1000);

    s.update_score();
    assert_eq!(s.score_multiplier, 4); // doubled exactly once
    assert_eq!(s.score, 6); // the new multiplier is what accrues
    assert_eq!(s.timer, 1);

    s.update_score();
    assert_eq!(s.score_multiplier, 4);
    assert_eq!(s.score, 10);
}

#[test]
fn long_seeded_run_ends_only_when_a_terminal_condition_holds() {
    // With no input the player sits still; the run ends only once enough
    // traffic damage has accumulated or the player was shoved out of
    // bounds.  Check, across a family of seeds, that the flag never rises
    // early, and that at least one run does end.
    let mut any_over = false;
    for seed in 0..12u64 {
        let mut s = GameState::new_seeded(seed);
        for _ in 0..2000 {
            s.update();
            if !s.game_over {
                // No terminal condition may hold while the flag is down.
                assert!(s.player.damage <= 36);
                assert!(s.player.y <= 3300);
                let centre_gap = 9000 - s.player.x - s.player.width / 2;
                assert!(centre_gap >= 0 && centre_gap <= 9000);
            }
        }
        if s.game_over {
            any_over = true;
            // Once over, the state is frozen.
            let frozen = s.clone();
            s.update();
            assert_eq!(s, frozen);
        }
    }
    assert!(any_over);
}

#[test]
fn obstacles_advance_and_cull_past_the_margin() {
    let mut s = GameState::new_seeded(2);
    s.obstacles.clear();
    // After the 2-unit advance this one sits exactly at the cull bound.
    s.obstacles.push(Obstacle {
        x: -1080,
        y: 2500,
        width: 100,
        height: 800,
        damage: 32,
        obstacle_type: ObstacleType::WideTower,
    });
    // This one stays just inside.
    s.obstacles.push(Obstacle {
        x: -1079,
        y: 2500,
        width: 100,
        height: 800,
        damage: 32,
        obstacle_type: ObstacleType::WideTower,
    });
    s.update_obstacles();
    assert_eq!(s.obstacles.len(), 1);
    assert_eq!(s.obstacles[0].x, -1099);
}

#[test]
fn spawn_countdown_fires_and_reseeds() {
    let mut s = GameState::new_seeded(4);
    s.obstacles.clear();
    s.obstacle_spawn_timer = 1;
    s.spawn_obstacles();
    assert_eq!(s.obstacles.len(), 1);
    let o = &s.obstacles[0];
    assert!(o.x >= 9000);
    assert!(matches!(
        o.obstacle_type,
        ObstacleType::WideTower | ObstacleType::TallTower | ObstacleType::BuildingTop
    ));
    assert!(s.obstacle_spawn_timer >= 50 && s.obstacle_spawn_timer <= 149);

    // While the countdown is still running nothing spawns.
    let count = s.obstacles.len();
    s.spawn_obstacles();
    assert_eq!(s.obstacles.len(), count);
}

#[test]
fn spawn_goes_behind_the_rightmost_obstacle() {
    let mut s = GameState::new_seeded(6);
    s.obstacles.clear();
    s.obstacles.push(Obstacle {
        x: 20000,
        y: 2500,
        width: 1000,
        height: 800,
        damage: 32,
        obstacle_type: ObstacleType::WideTower,
    });
    s.obstacle_spawn_timer = 1;
    s.spawn_obstacles();
    assert_eq!(s.obstacles.len(), 2);
    // Placed at or beyond the rightmost edge, never on top of the course.
    assert!(s.obstacles[1].x >= 21000);
}

#[test]
fn every_contacting_obstacle_responds_in_one_static_pass() {
    let mut s = GameState::new_seeded(8);
    s.obstacles.clear();
    // Both obstacles overlap the player and sit strictly below its top
    // edge, so each applies one upward bounce: the second still overlaps
    // after the first bounce.
    s.obstacles.push(Obstacle {
        x: 600,
        y: 1150,
        width: 1000,
        height: 800,
        damage: 32,
        obstacle_type: ObstacleType::WideTower,
    });
    s.obstacles.push(Obstacle {
        x: 600,
        y: 1050,
        width: 1000,
        height: 2000,
        damage: 16,
        obstacle_type: ObstacleType::TallTower,
    });
    s.check_collisions();
    assert_eq!(s.player.y, 900); // two upward bounces of 10 units
    assert_eq!(s.player.damage, 8 + 4); // a quarter of each, compounded
}

#[test]
fn traffic_pass_resolves_only_the_first_hit_and_starts_cooldown() {
    let mut s = GameState::new_seeded(10);
    let hit = BackgroundVehicle {
        x: 700,
        y: 1150,
        width: 400,
        height: 200,
        speed: 30,
        vehicle_type: VehicleType::Taxi,
        moving_right: true,
        base_y: 500,
        avoiding: false,
        avoid_timer: 0,
        damage: 8,
        is_being_chased: false,
        is_chasing: false,
    };
    let mut second = hit;
    second.damage = 6;
    s.background.traffic_vehicles.clear();
    s.background.traffic_vehicles.push(hit);
    s.background.traffic_vehicles.push(second);

    s.check_traffic_collisions();
    // Only the first vehicle's damage lands; the player is pushed up
    // since it sits above the vehicle's top.
    assert_eq!(s.player.damage, 8);
    assert_eq!(s.player.y, 1000);
    assert!(s.player.collision_cooldown > 0);

    // During the cooldown the pass does nothing at all.
    let before = s.clone();
    s.check_traffic_collisions();
    assert_eq!(s, before);
}

#[test]
fn billboard_pass_pushes_away_and_down() {
    let mut s = GameState::new_seeded(12);
    s.background.billboards.clear();
    s.background.billboards.push(rust_game::background::Billboard {
        x: 700,
        y: 1000,
        width: 1400,
        height: 800,
        billboard_type: rust_game::background::BillboardType::FirstBreak,
    });
    // The player's left edge (750) is left of the billboard centre (1400).
    s.check_billboard_collisions();
    assert_eq!(s.player.damage, 20); // a flat 5.0 points
    assert_eq!(s.player.x, 750 - 200);
    assert_eq!(s.player.y, 1100 + 150);
    assert!(s.player.collision_cooldown > 0);
}

#[test]
fn set_input_recognizes_the_four_directions_and_ignores_others() {
    let mut s = GameState::new();
    s.set_input("right", true);
    assert!(s.input.right);
    s.set_input("left", true);
    assert!(s.input.left);
    s.set_input("up", true);
    assert!(s.input.up);
    s.set_input("down", true);
    assert!(s.input.down);

    s.set_input("right", false);
    assert!(!s.input.right);

    let before = s.clone();
    s.set_input("diagonal", true);
    s.set_input("", true);
    s.set_input("Down", true);
    assert_eq!(s, before);
}

#[test]
fn reset_rebuilds_everything_but_the_random_draws() {
    let mut s = GameState::new_seeded(21);
    s.set_input("down", true);
    for _ in 0..500 {
        s.update();
    }
    s.paused = true;
    s.reset();

    let fresh = GameState::new_seeded(99);
    // Deterministic fields match a fresh construction exactly.
    assert_eq!(s.player, fresh.player);
    assert_eq!(s.score, fresh.score);
    assert_eq!(s.score_multiplier, fresh.score_multiplier);
    assert_eq!(s.timer, fresh.timer);
    assert_eq!(s.game_over, fresh.game_over);
    assert_eq!(s.paused, fresh.paused);
    assert_eq!(s.input, fresh.input);
    assert_eq!(s.canvas_width, fresh.canvas_width);
    assert_eq!(s.canvas_height, fresh.canvas_height);
    assert_eq!(s.obstacle_spawn_timer, fresh.obstacle_spawn_timer);
    // Population shapes match; their random contents may differ.
    assert_eq!(s.obstacles.len(), fresh.obstacles.len());
    assert_eq!(s.background.far_buildings.len(), fresh.background.far_buildings.len());
    assert_eq!(s.background.billboards.len(), fresh.background.billboards.len());
    assert_eq!(s.background.traffic_vehicles.len(), fresh.background.traffic_vehicles.len());
    assert_eq!(s.background.spawn_timer, fresh.background.spawn_timer);
    assert_eq!(s.background.far_building_offset, fresh.background.far_building_offset);
}

#[test]
fn accessors_read_the_flags_and_score() {
    let mut s = GameState::new_seeded(14);
    assert!(!s.is_game_over());
    assert_eq!(s.get_score(), 0);
    s.update();
    assert_eq!(s.get_score(), 2);
    s.game_over = true;
    assert!(s.is_game_over());
}
