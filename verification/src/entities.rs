//! Player, obstacles and buffered input.
//!
//! Positions, sizes and velocities are in tenths of a game unit; damage is
//! in quarter points (so a damage value of `32` here is 8.0 points).

use vstd::prelude::*;
use crate::units::{cadd, sadd, coord_add, sat_add};
use crate::rng::{GameRng, lcg_next, lcg_draw};

verus! {

/// Ticks of collision cooldown granted after a traffic or billboard hit,
/// so one brush with a vehicle cannot drain damage on consecutive ticks.
pub const COLLISION_COOLDOWN_TICKS: u32 = 30;

/// Four independent directional flags, set and cleared by the host from key
/// events and read by `Player::update` each tick.
#[derive(Clone, Copy, Debug, PartialEq, Eq, Structural)]
pub struct InputState {
    pub right: bool,
    pub left: bool,
    pub up: bool,
    pub down: bool,
}

impl InputState {
    /// All flags released.
    pub fn new() -> (r: InputState)
        ensures
            r == (InputState { right: false, left: false, up: false, down: false }),
    {
        InputState { right: false, left: false, up: false, down: false }
    }
}

/// The player craft.
#[derive(Clone, Copy, Debug, PartialEq, Eq, Structural)]
pub struct Player {
    pub x: i32,
    pub y: i32,
    pub width: i32,
    pub height: i32,
    /// Cumulative damage in quarter points; only ever grows until a reset.
    pub damage: u32,
    pub velocity_x: i32,
    pub velocity_y: i32,
    /// Ticks left before the player can take traffic or billboard damage again.
    pub collision_cooldown: u32,
}

/// Horizontal velocity recomputed each tick purely from the input flags.
pub open spec fn input_vx(i: InputState) -> int {
    (if i.right { 40int } else { 0int }) + (if i.left { -25int } else { 0int })
}

/// Vertical velocity recomputed each tick purely from the input flags.
pub open spec fn input_vy(i: InputState) -> int {
    (if i.up { -25int } else { 0int }) + (if i.down { 40int } else { 0int })
}

/// One cooldown tick elapsing.
pub open spec fn cooldown_step(c: u32) -> u32 {
    if c > 0 {
        (c - 1) as u32
    } else {
        0
    }
}

/// The player state after one tick of movement under input `i`: velocity is
/// reset and recomputed from the flags alone, position advances by it, and
/// the collision cooldown runs down by one.
pub open spec fn spec_player_step(p: Player, i: InputState) -> Player {
    Player {
        x: cadd(p.x as int, input_vx(i)) as i32,
        y: cadd(p.y as int, input_vy(i)) as i32,
        velocity_x: input_vx(i) as i32,
        velocity_y: input_vy(i) as i32,
        collision_cooldown: cooldown_step(p.collision_cooldown),
        ..p
    }
}

impl Player {
    /// The player at the default spawn position with no damage.
    pub fn new() -> (r: Player)
        ensures
            r == (Player {
                x: 750,
                y: 1100,
                width: 400,
                height: 200,
                damage: 0,
                velocity_x: 0,
                velocity_y: 0,
                collision_cooldown: 0,
            }),
    {
        Player {
            x: 750,
            y: 1100,
            width: 400,
            height: 200,
            damage: 0,
            velocity_x: 0,
            velocity_y: 0,
            collision_cooldown: 0,
        }
    }

    /// Advance one tick of movement from the current input flags.
    pub fn update(&mut self, input: &InputState)
        ensures
            *final(self) == spec_player_step(*old(self), *input),
    {
        self.velocity_x = 0;
        self.velocity_y = 0;

        if input.right {
            self.velocity_x = self.velocity_x + 40;
        }
        if input.left {
            self.velocity_x = self.velocity_x - 25;
        }
        if input.up {
            self.velocity_y = self.velocity_y - 25;
        }
        if input.down {
            self.velocity_y = self.velocity_y + 40;
        }

        self.x = coord_add(self.x, self.velocity_x);
        self.y = coord_add(self.y, self.velocity_y);

        if self.collision_cooldown > 0 {
            self.collision_cooldown = self.collision_cooldown - 1;
        }
    }

    /// Bounce off an obstacle that sits below: move up, take a quarter of
    /// the obstacle's damage.
    pub fn bounce_up(&mut self, obstacle: &Obstacle)
        ensures
            *final(self) == spec_bounce_up(*old(self), *obstacle),
    {
        self.y = coord_add(self.y, -100);
        self.damage = sat_add(self.damage, obstacle.damage / 4);
    }

    /// Bounce off an obstacle that sits above: move down and back, take a
    /// quarter of the obstacle's damage.
    pub fn bounce_down(&mut self, obstacle: &Obstacle)
        ensures
            *final(self) == spec_bounce_down(*old(self), *obstacle),
    {
        self.x = coord_add(self.x, -200);
        self.y = coord_add(self.y, 50);
        self.damage = sat_add(self.damage, obstacle.damage / 4);
    }

    /// Bounce off an obstacle to the right: thrown far back, take the
    /// obstacle's full damage.
    pub fn bounce_left(&mut self, obstacle: &Obstacle)
        ensures
            *final(self) == spec_bounce_left(*old(self), *obstacle),
    {
        self.x = coord_add(self.x, -1000);
        self.damage = sat_add(self.damage, obstacle.damage);
    }

    /// Bounce off an obstacle to the left: pushed forward, take half of the
    /// obstacle's damage.
    pub fn bounce_right(&mut self, obstacle: &Obstacle)
        ensures
            *final(self) == spec_bounce_right(*old(self), *obstacle),
    {
        self.x = coord_add(self.x, 100);
        self.damage = sat_add(self.damage, obstacle.damage / 2);
    }

    /// Whether the collision cooldown has fully elapsed.
    pub fn can_take_damage(&self) -> (r: bool)
        ensures
            r == (self.collision_cooldown == 0),
    {
        self.collision_cooldown == 0
    }

    /// Start a fresh collision cooldown window.
    pub fn apply_collision_cooldown(&mut self)
        ensures
            *final(self) == (Player {
                collision_cooldown: COLLISION_COOLDOWN_TICKS,
                ..*old(self)
            }),
    {
        self.collision_cooldown = COLLISION_COOLDOWN_TICKS;
    }
}

/// Effect of `Player::bounce_up`.
pub open spec fn spec_bounce_up(p: Player, o: Obstacle) -> Player {
    Player {
        y: cadd(p.y as int, -100) as i32,
        damage: sadd(p.damage, o.damage / 4),
        ..p
    }
}

/// Effect of `Player::bounce_down`.
pub open spec fn spec_bounce_down(p: Player, o: Obstacle) -> Player {
    Player {
        x: cadd(p.x as int, -200) as i32,
        y: cadd(p.y as int, 50) as i32,
        damage: sadd(p.damage, o.damage / 4),
        ..p
    }
}

/// Effect of `Player::bounce_left`.
pub open spec fn spec_bounce_left(p: Player, o: Obstacle) -> Player {
    Player { x: cadd(p.x as int, -1000) as i32, damage: sadd(p.damage, o.damage), ..p }
}

/// Effect of `Player::bounce_right`.
pub open spec fn spec_bounce_right(p: Player, o: Obstacle) -> Player {
    Player { x: cadd(p.x as int, 100) as i32, damage: sadd(p.damage, o.damage / 2), ..p }
}

/// The fixed catalogue of obstacle variants.
#[derive(Clone, Copy, Debug, PartialEq, Eq, Structural)]
pub enum ObstacleType {
    WideTower,
    TallTower,
    FloatingPlatform,
    Train,
    VehicleLeft,
    VehicleRight,
    DeliveryLeft,
    DeliveryRight,
    Billboard,
    BuildingTop,
    Orb,
}

/// A course obstacle.  Immutable except for `x`, which decreases every tick
/// until the obstacle leaves on the left and is culled.
#[derive(Clone, Copy, Debug, PartialEq, Eq, Structural)]
pub struct Obstacle {
    pub x: i32,
    pub y: i32,
    pub width: i32,
    pub height: i32,
    /// Damage dealt on contact, in quarter points.
    pub damage: u32,
    pub obstacle_type: ObstacleType,
}

/// The fixed (y, width, height, damage) of each obstacle variant; for an
/// orb, `y` is the lowest of its random floating heights.
pub open spec fn obstacle_dims(t: ObstacleType) -> (int, int, int, u32) {
    match t {
        ObstacleType::WideTower => (2500int, 1000int, 800int, 32u32),
        ObstacleType::TallTower => (1500int, 600int, 1800int, 24u32),
        ObstacleType::FloatingPlatform => (1300int, 800int, 200int, 16u32),
        ObstacleType::Train => (2000int, 1200int, 400int, 40u32),
        ObstacleType::VehicleLeft => (1800int, 400int, 200int, 20u32),
        ObstacleType::VehicleRight => (1800int, 400int, 200int, 20u32),
        ObstacleType::DeliveryLeft => (1700int, 500int, 300int, 28u32),
        ObstacleType::DeliveryRight => (1700int, 500int, 300int, 28u32),
        ObstacleType::Billboard => (800int, 600int, 400int, 12u32),
        ObstacleType::BuildingTop => (2000int, 800int, 1300int, 24u32),
        ObstacleType::Orb => (1200int, 150int, 150int, 8u32),
    }
}

/// What `Obstacle::new` builds: the variant's fixed dimensions and damage
/// at the given `x`, with an orb floating `10 * orb_draw` above its lowest
/// height (`orb_draw` is the random draw below 60 made for an orb).
pub open spec fn is_new_obstacle(r: Obstacle, t: ObstacleType, x: i32, orb_draw: u32) -> bool {
    &&& r.obstacle_type == t
    &&& r.x == x
    &&& r.y as int == obstacle_dims(t).0 + (if t is Orb { 10 * orb_draw as int } else { 0int })
    &&& r.width as int == obstacle_dims(t).1
    &&& r.height as int == obstacle_dims(t).2
    &&& r.damage == obstacle_dims(t).3
}

impl Obstacle {
    /// Build an obstacle of the given variant at horizontal position `x`.
    /// Every variant has fixed dimensions and damage; an orb additionally
    /// draws a random floating height from `rng`.
    pub fn new(obstacle_type: ObstacleType, x: i32, rng: &mut GameRng) -> (r: Obstacle)
        ensures
            is_new_obstacle(r, obstacle_type, x, lcg_draw(old(rng).state, 60)),
            obstacle_type is Orb ==> final(rng).state == lcg_next(old(rng).state),
            !(obstacle_type is Orb) ==> *final(rng) == *old(rng),
    {
        match obstacle_type {
            ObstacleType::WideTower => Obstacle {
                x,
                y: 2500,
                width: 1000,
                height: 800,
                damage: 32,
                obstacle_type,
            },
            ObstacleType::TallTower => Obstacle {
                x,
                y: 1500,
                width: 600,
                height: 1800,
                damage: 24,
                obstacle_type,
            },
            ObstacleType::FloatingPlatform => Obstacle {
                x,
                y: 1300,
                width: 800,
                height: 200,
                damage: 16,
                obstacle_type,
            },
            ObstacleType::Train => Obstacle {
                x,
                y: 2000,
                width: 1200,
                height: 400,
                damage: 40,
                obstacle_type,
            },
            ObstacleType::VehicleLeft => Obstacle {
                x,
                y: 1800,
                width: 400,
                height: 200,
                damage: 20,
                obstacle_type,
            },
            ObstacleType::VehicleRight => Obstacle {
                x,
                y: 1800,
                width: 400,
                height: 200,
                damage: 20,
                obstacle_type,
            },
            ObstacleType::DeliveryLeft => Obstacle {
                x,
                y: 1700,
                width: 500,
                height: 300,
                damage: 28,
                obstacle_type,
            },
            ObstacleType::DeliveryRight => Obstacle {
                x,
                y: 1700,
                width: 500,
                height: 300,
                damage: 28,
                obstacle_type,
            },
            ObstacleType::Billboard => Obstacle {
                x,
                y: 800,
                width: 600,
                height: 400,
                damage: 12,
                obstacle_type,
            },
            ObstacleType::BuildingTop => Obstacle {
                x,
                y: 2000,
                width: 800,
                height: 1300,
                damage: 24,
                obstacle_type,
            },
            ObstacleType::Orb => {
                let lift: u32 = rng.next_below(60);
                Obstacle {
                    x,
                    y: 1200 + 10 * lift as i32,
                    width: 150,
                    height: 150,
                    damage: 8,
                    obstacle_type,
                }
            },
        }
    }
}

} // verus!
