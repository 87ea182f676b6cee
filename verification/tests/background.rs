use rust_game::background::{
    billboard_spawn_allowed, BackgroundManager, BackgroundVehicle, Billboard, BillboardType,
    Building, VehicleType,
};
use rust_game::rng::GameRng;

fn cruiser(x: i32, speed: i32, vehicle_type: VehicleType) -> BackgroundVehicle {
    BackgroundVehicle {
        x,
        y: 500,
        width: 400,
        height: 200,
        speed,
        vehicle_type,
        moving_right: true,
        base_y: 500,
        avoiding: false,
        avoid_timer: 0,
        damage: 8,
        is_being_chased: false,
        is_chasing: false,
    }
}

/// Advance a two-vehicle population the way the manager does: both
/// vehicles step against the same start-of-tick snapshot.
fn step_pair(a: &mut BackgroundVehicle, b: &mut BackgroundVehicle) {
    let snapshot = vec![*a, *b];
    a.update(&snapshot);
    b.update(&snapshot);
}

#[test]
fn rng_streams_are_reproducible_from_the_seed() {
    let mut a = GameRng::new(42);
    let mut b = GameRng::new(42);
    for _ in 0..1000 {
        assert_eq!(a.next_below(1000), b.next_below(1000));
    }
    let mut c = GameRng::new(43);
    let mut any_diff = false;
    for _ in 0..100 {
        if a.next_below(1000) != c.next_below(1000) {
            any_diff = true;
        }
    }
    assert!(any_diff);
}

#[test]
fn draws_stay_below_their_bound() {
    let mut rng = GameRng::new(7);
    for n in 1..200u32 {
        let d = rng.next_below(n);
        assert!(d < n);
    }
}

#[test]
fn trailing_faster_vehicle_overtakes_through_the_avoidance_band() {
    // A slower lead vehicle 40 units ahead of a faster one, same lane.
    let mut lead = cruiser(1400, 20, VehicleType::Civil);
    let mut trail = cruiser(1000, 40, VehicleType::Taxi);

    let mut saw_avoiding = false;
    for _ in 0..400 {
        step_pair(&mut lead, &mut trail);
        if trail.avoiding {
            saw_avoiding = true;
        }
        // The lateral deviation stays clamped to the band around the lane.
        assert!(trail.y >= 300 && trail.y <= 700);
        // The lead vehicle has no reason to dodge anything.
        assert!(!lead.avoiding);
    }

    assert!(saw_avoiding);
    // Long since past: the trailing vehicle is ahead, cruising again, and
    // back on its home lane.
    assert!(trail.x > lead.x + 400);
    assert!(!trail.avoiding);
    assert!((trail.y - 500).abs() <= 10);
}

#[test]
fn trains_are_avoided_at_extended_range_regardless_of_speed() {
    let train = BackgroundVehicle {
        x: 1900,
        y: 500,
        width: 1200,
        height: 250,
        speed: 15,
        vehicle_type: VehicleType::Train,
        moving_right: true,
        base_y: 500,
        avoiding: false,
        avoid_timer: 0,
        damage: 32,
        is_being_chased: false,
        is_chasing: false,
    };
    // 90 units behind the train's front: outside the regular window (70)
    // but inside the train window (70 * 1.5 = 105).
    let mut slowpoke = cruiser(1000, 10, VehicleType::Civil);
    assert!(slowpoke.speed < train.speed);
    let snapshot = vec![slowpoke, train];
    slowpoke.update(&snapshot);
    assert!(slowpoke.avoiding);

    // A regular vehicle at the same distance is not avoided.
    let lead = cruiser(1900, 5, VehicleType::Civil);
    let mut trail = cruiser(1000, 10, VehicleType::Taxi);
    let snapshot = vec![trail, lead];
    trail.update(&snapshot);
    assert!(!trail.avoiding);
}

#[test]
fn vehicles_leave_on_their_trailing_side() {
    let mut v = cruiser(10050, 30, VehicleType::Taxi);
    assert!(v.is_off_screen(9000)); // 10050 > 9000 + 1000
    v.x = 9900;
    assert!(!v.is_off_screen(9000));
    v.moving_right = false;
    v.x = -1001;
    assert!(v.is_off_screen(9000));
    v.x = -900;
    assert!(!v.is_off_screen(9000));
}

#[test]
fn buildings_and_billboards_cull_past_their_margin() {
    let mut rng = GameRng::new(5);
    let mut b = Building::new(0, &mut rng);
    b.x = -b.width - 501;
    assert!(b.is_off_screen());
    b.x = -b.width - 500;
    assert!(!b.is_off_screen());

    let mut bb = Billboard::new(0, &mut rng);
    assert_eq!(bb.width, 1400);
    assert_eq!(bb.height, 800);
    assert_eq!(bb.y, -100);
    bb.x = -1901;
    assert!(bb.is_off_screen());
    bb.x = -1900;
    assert!(!bb.is_off_screen());
}

#[test]
fn billboard_faces_cover_the_catalogue() {
    let mut seen = [false; 5];
    for seed in 0..200u64 {
        let mut rng = GameRng::new(seed);
        let bb = Billboard::new(0, &mut rng);
        let idx = match bb.billboard_type {
            BillboardType::FirstBreak => 0,
            BillboardType::SecondBreak => 1,
            BillboardType::Security => 2,
            BillboardType::Security2 => 3,
            BillboardType::SharkMovie => 4,
        };
        seen[idx] = true;
    }
    assert!(seen.iter().all(|s| *s));
}

fn plain_billboard(x: i32) -> Billboard {
    Billboard { x, y: -100, width: 1400, height: 800, billboard_type: BillboardType::Security }
}

#[test]
fn billboard_spawn_rejected_within_minimum_spacing() {
    // One billboard with its right edge at 1400.
    let existing = vec![plain_billboard(0)];
    // 160 units from the edge: too close (the minimum spacing is 250).
    assert!(!billboard_spawn_allowed(&existing, 3000));
    // Exactly at the spacing boundary: still too close.
    assert!(!billboard_spawn_allowed(&existing, 3900));
    // Beyond it: allowed.
    assert!(billboard_spawn_allowed(&existing, 3901));
}

#[test]
fn billboard_spawn_requires_spacing_from_every_billboard() {
    let existing = vec![plain_billboard(0), plain_billboard(6000)];
    // Far enough from the first, too close to the second.
    assert!(!billboard_spawn_allowed(&existing, 5000));
    // A spot clear of both.
    assert!(billboard_spawn_allowed(&existing, 12000));
}

#[test]
fn billboard_far_off_screen_no_longer_blocks_spawning() {
    let existing = vec![plain_billboard(-2100)];
    // Its right edge is at -700, within 250 units of 0, but it is far
    // enough off screen to be ignored.
    assert!(billboard_spawn_allowed(&existing, 0));
}

#[test]
fn fresh_background_has_seeded_populations() {
    let mut rng = GameRng::new(9);
    let m = BackgroundManager::new(9000, &mut rng);
    assert_eq!(m.far_buildings.len(), 15);
    assert_eq!(m.billboards.len(), 3);
    assert_eq!(m.traffic_vehicles.len(), 0);
    assert_eq!(m.far_building_offset, 0);
    assert_eq!(m.spawn_timer, 0);
    assert_eq!(m.canvas_width, 9000);
    // The row runs left to right from the edge, with gaps of 20 to 70
    // units between neighbours.
    assert_eq!(m.far_buildings[0].x, 0);
    for w in m.far_buildings.windows(2) {
        let gap = w[1].x - (w[0].x + w[0].width);
        assert!(gap >= 200 && gap <= 699);
    }
    // The billboards sit in consecutive 400-unit bands.
    for (i, bb) in m.billboards.iter().enumerate() {
        let base = (i as i32) * 4000;
        assert!(bb.x >= base && bb.x < base + 1000);
    }
}

#[test]
fn populations_stay_bounded_over_a_long_run() {
    let mut rng = GameRng::new(11);
    let mut m = BackgroundManager::new(9000, &mut rng);
    let mut saw_traffic = false;
    for _ in 0..4000 {
        m.update(&mut rng);
        assert!(m.spawn_timer < 3600);
        for b in &m.far_buildings {
            assert!(b.x >= -b.width - 500);
        }
        for bb in &m.billboards {
            assert!(bb.x >= -bb.width - 500);
        }
        for v in &m.traffic_vehicles {
            if v.moving_right {
                assert!(v.x <= 9000 + 1000);
            } else {
                assert!(v.x >= -1000);
            }
        }
        if !m.traffic_vehicles.is_empty() {
            saw_traffic = true;
        }
    }
    // The spawn gates fire often enough that a 4000-tick run sees traffic.
    assert!(saw_traffic);
    // The building row is never allowed to run dry.
    assert!(!m.far_buildings.is_empty());
}

#[test]
fn traffic_gates_fire_on_their_periods() {
    // A tick whose timer matches no gate spawns nothing.
    let mut rng = GameRng::new(1);
    let mut m = BackgroundManager::new(9000, &mut rng);
    m.spawn_timer = 0; // the tick advances it to 1: no gate matches
    m.update(&mut rng);
    assert!(m.traffic_vehicles.is_empty());

    // On a right-gate tick the 80% gate fires for most seeds; across a
    // small seed family at least one vehicle must appear.
    let mut any_spawned = false;
    for seed in 0..10u64 {
        let mut rng = GameRng::new(seed);
        let mut m = BackgroundManager::new(9000, &mut rng);
        m.spawn_timer = 89; // the tick advances it to 90
        m.update(&mut rng);
        if !m.traffic_vehicles.is_empty() {
            any_spawned = true;
        }
    }
    assert!(any_spawned);
}

#[test]
fn chase_pairs_are_linked_and_ordered() {
    let mut rng = GameRng::new(13);
    let (target, police) = BackgroundVehicle::new_chase_pair(0, &mut rng);
    assert!(target.is_being_chased && !target.is_chasing);
    assert!(police.is_chasing && !police.is_being_chased);
    assert_eq!(police.vehicle_type, VehicleType::PoliceChase);
    assert_eq!(police.x, -800); // 80 units behind the target
    assert_eq!(police.speed, target.speed + 8);
    assert!(target.moving_right && police.moving_right);
}
