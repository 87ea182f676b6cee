//! The layered background: parallax buildings, autonomous traffic vehicles
//! with collision avoidance, and billboards.
//!
//! Each traffic vehicle is a two-state machine (cruising or avoiding).  A
//! vehicle starts avoiding when another vehicle ahead in its lane band and
//! direction is slower than it — or is a train, which is always avoided,
//! with a larger detection range measured to the nearer of the train's two
//! ends.  While avoiding it nudges toward the outer edge of its lane,
//! clamped to a fixed band around the home lane, and moves with an
//! overtaking speed boost; afterwards it drifts slowly back to the home
//! lane.

use vstd::prelude::*;
use vstd::math::abs;
use vstd::math::min;
use crate::units::{cadd, clip, coord_add, coord_sub, coord_clip, floor_div};
use crate::rng::{GameRng, lcg_next, lcg_draw};
use crate::entities::cooldown_step;

verus! {

broadcast use crate::rng::lemma_lcg_draw_bound;

/// Home lane of right-moving traffic, in tenths of a unit.
pub const RIGHT_LANE_Y: i32 = 500;

/// Home lane of left-moving traffic, in tenths of a unit.
pub const LEFT_LANE_Y: i32 = 900;

/// The catalogue of traffic vehicle variants.
#[derive(Clone, Copy, Debug, PartialEq, Eq, Structural)]
pub enum VehicleType {
    Taxi,
    Police,
    Civil,
    Delivery,
    Train,
    PoliceChase,
    TrafficOrb,
}

/// An autonomous background vehicle.
#[derive(Clone, Copy, Debug, PartialEq, Eq, Structural)]
pub struct BackgroundVehicle {
    pub x: i32,
    pub y: i32,
    pub width: i32,
    pub height: i32,
    pub speed: i32,
    pub vehicle_type: VehicleType,
    pub moving_right: bool,
    /// Home lane this vehicle drifts back to when not avoiding.
    pub base_y: i32,
    /// Whether the vehicle is in its avoidance manoeuvre.
    pub avoiding: bool,
    /// Remaining ticks of the current avoidance manoeuvre.
    pub avoid_timer: u32,
    /// Damage dealt to the player on contact, in quarter points.
    pub damage: u32,
    pub is_being_chased: bool,
    pub is_chasing: bool,
}

/// Fixed (width, height, damage) of each vehicle variant.
pub open spec fn vehicle_dims(t: VehicleType) -> (int, int, u32) {
    match t {
        VehicleType::Taxi => (400int, 200int, 8u32),
        VehicleType::Police => (400int, 200int, 24u32),
        VehicleType::Civil => (380int, 200int, 6u32),
        VehicleType::Delivery => (450int, 220int, 16u32),
        VehicleType::Train => (1200int, 250int, 32u32),
        VehicleType::PoliceChase => (400int, 200int, 24u32),
        VehicleType::TrafficOrb => (200int, 200int, 12u32),
    }
}

/// (base speed, random speed range) of a variant spawned in the
/// right-moving lane.
pub open spec fn right_speed_profile(t: VehicleType) -> (int, u32) {
    match t {
        VehicleType::Train => (15int, 5u32),
        VehicleType::TrafficOrb => (20int, 15u32),
        VehicleType::Delivery => (25int, 10u32),
        VehicleType::Taxi => (30int, 20u32),
        VehicleType::Civil => (30int, 20u32),
        VehicleType::Police => (60int, 10u32),
        VehicleType::PoliceChase => (60int, 10u32),
    }
}

/// (base speed, random speed range) of a variant spawned in the
/// left-moving lane.  Only orbs and regular road vehicles spawn there.
pub open spec fn left_speed_profile(t: VehicleType) -> (int, u32) {
    match t {
        VehicleType::TrafficOrb => (18int, 12u32),
        VehicleType::Delivery => (20int, 10u32),
        VehicleType::Taxi => (25int, 15u32),
        VehicleType::Civil => (25int, 15u32),
        VehicleType::Police => (1int, 1u32),
        VehicleType::PoliceChase => (1int, 1u32),
        VehicleType::Train => (1int, 1u32),
    }
}

/// (base speed, random speed range) of a chase-pair target, which flees
/// faster than regular traffic.
pub open spec fn chase_speed_profile(t: VehicleType) -> (int, u32) {
    match t {
        VehicleType::Delivery => (45int, 5u32),
        VehicleType::Taxi => (42int, 5u32),
        VehicleType::Civil => (40int, 5u32),
        VehicleType::Police => (1int, 1u32),
        VehicleType::PoliceChase => (1int, 1u32),
        VehicleType::Train => (1int, 1u32),
        VehicleType::TrafficOrb => (1int, 1u32),
    }
}

/// The right-lane variant selected by a draw below 10000: trains 5%, orbs
/// 8%, the rest regular road vehicles in equal bands.
pub open spec fn right_type_of(d: u32) -> VehicleType {
    if d < 500 {
        VehicleType::Train
    } else if d < 1300 {
        VehicleType::TrafficOrb
    } else {
        let idx = (d - 1300) as int * 3 / 8700;
        if idx == 0 {
            VehicleType::Taxi
        } else if idx == 1 {
            VehicleType::Civil
        } else {
            VehicleType::Delivery
        }
    }
}

/// The left-lane variant selected by a draw below 10000: orbs 15%, the
/// rest regular road vehicles; no trains or police go left.
pub open spec fn left_type_of(d: u32) -> VehicleType {
    if d < 1500 {
        VehicleType::TrafficOrb
    } else {
        let idx = (d - 1500) as int * 3 / 8500;
        if idx == 0 {
            VehicleType::Taxi
        } else if idx == 1 {
            VehicleType::Civil
        } else {
            VehicleType::Delivery
        }
    }
}

/// The chase-pair target variant selected by a draw below 3.
pub open spec fn chase_type_of(d: u32) -> VehicleType {
    if d == 0 {
        VehicleType::Civil
    } else if d == 1 {
        VehicleType::Taxi
    } else {
        VehicleType::Delivery
    }
}

/// A vehicle freshly spawned at `x` in the lane at `base_y`, with the fixed
/// dimensions of variant `t` and speed `base_speed` plus the random draw
/// `sdraw`, cruising (not avoiding).
pub open spec fn is_spawned_vehicle(
    v: BackgroundVehicle,
    x: i32,
    t: VehicleType,
    base_y: int,
    mr: bool,
    base_speed: int,
    sdraw: u32,
) -> bool {
    &&& v.x == x
    &&& v.y as int == base_y
    &&& v.base_y as int == base_y
    &&& v.width as int == vehicle_dims(t).0
    &&& v.height as int == vehicle_dims(t).1
    &&& v.damage == vehicle_dims(t).2
    &&& v.vehicle_type == t
    &&& v.moving_right == mr
    &&& v.speed as int == base_speed + sdraw
    &&& !v.avoiding
    &&& v.avoid_timer == 0
}

/// Derived identity used for self-exclusion in the neighbour scan: a hash
/// of the position, not a stored id.  Two vehicles that coincide in
/// position are mistaken for one another — a correctness risk inherited
/// from the design, kept deliberately.
pub open spec fn vehicle_key(v: BackgroundVehicle) -> int {
    v.x * 100 + v.y * 100
}

/// Whether `o` makes `v` start (or keep) avoiding: a distinct vehicle in
/// the same direction and lane band, ahead within the avoidance window,
/// that is slower — or is a train, which is always avoided, at 1.5 times
/// the range, with the distance measured to the nearer of its two ends.
pub open spec fn triggers_avoid(v: BackgroundVehicle, o: BackgroundVehicle) -> bool {
    let same_check = if o.vehicle_type is Train {
        v.moving_right == o.moving_right
    } else {
        v.moving_right == o.moving_right && v.speed > o.speed
    };
    let front = if v.moving_right {
        o.x - v.x
    } else {
        v.x - o.x
    };
    let back = if v.moving_right {
        o.x + o.width - v.x
    } else {
        v.x - (o.x + o.width)
    };
    let eff = if o.vehicle_type is Train {
        min(front, back)
    } else {
        front
    };
    let base_window = if v.vehicle_type is Train {
        500int
    } else {
        700int
    };
    let window = if o.vehicle_type is Train {
        base_window * 3 / 2
    } else {
        base_window
    };
    &&& vehicle_key(o) != vehicle_key(v)
    &&& same_check
    &&& abs(v.y - o.y) < 350
    &&& eff > 50
    &&& eff < window
}

/// Whether any of the first `k` vehicles of `others` triggers avoidance
/// for `v`.
pub open spec fn spec_hazard_upto(
    v: BackgroundVehicle,
    others: Seq<BackgroundVehicle>,
    k: int,
) -> bool {
    exists|j: int| 0 <= j < k && triggers_avoid(v, #[trigger] others[j])
}

/// Whether any vehicle of `others` triggers avoidance for `v`.
pub open spec fn spec_hazard(v: BackgroundVehicle, others: Seq<BackgroundVehicle>) -> bool {
    spec_hazard_upto(v, others, others.len() as int)
}

/// The lateral position after an avoidance nudge: clamped to the band of
/// 20 units around the home lane, then into the coordinate range.
pub open spec fn clamp_band(raw: int, base: int) -> int {
    clip(
        if raw < base - 200 {
            base - 200
        } else if raw > base + 200 {
            base + 200
        } else {
            raw
        },
    )
}

/// The slow drift back toward the home lane while cruising.
pub open spec fn drift_toward(y: int, base: int) -> int {
    if abs(y - base) > 10 {
        if y > base {
            cadd(y, -3)
        } else {
            cadd(y, 3)
        }
    } else {
        y
    }
}

/// The overtaking speed boost of 30 percent, in fixed-point arithmetic.
pub open spec fn boosted(s: int) -> int {
    s * 13 / 10
}

/// One tick of a vehicle against the start-of-tick snapshot `others`:
/// enter or renew avoidance from the hazard scan, run the avoidance timer
/// down (never below zero), nudge and clamp laterally or drift home, then
/// move horizontally at the cruising or boosted speed.
pub open spec fn spec_vehicle_step(
    v: BackgroundVehicle,
    others: Seq<BackgroundVehicle>,
) -> BackgroundVehicle {
    let sa = spec_hazard(v, others);
    let avoiding0 = v.avoiding || sa;
    let timer0 = if sa && !v.avoiding {
        120u32
    } else if sa && v.avoiding {
        if v.avoid_timer < 60 {
            60u32
        } else {
            v.avoid_timer
        }
    } else {
        v.avoid_timer
    };
    if avoiding0 {
        let timer1 = cooldown_step(timer0);
        let nudge: int = if v.base_y < 700 {
            -12int
        } else {
            12int
        };
        let y1 = clamp_band(v.y + nudge, v.base_y as int);
        let avoiding1 = !(timer1 == 0 && !sa);
        let speed_eff = if avoiding1 {
            boosted(v.speed as int)
        } else {
            v.speed as int
        };
        BackgroundVehicle {
            x: clip(v.x + (if v.moving_right { speed_eff } else { -speed_eff })) as i32,
            y: y1 as i32,
            avoiding: avoiding1,
            avoid_timer: timer1,
            ..v
        }
    } else {
        BackgroundVehicle {
            x: clip(v.x + (if v.moving_right { v.speed as int } else { -(v.speed as int) })) as i32,
            y: drift_toward(v.y as int, v.base_y as int) as i32,
            ..v
        }
    }
}

/// Overlap between a vehicle and the player's box, with the same 2-unit
/// forgiveness inset on the player's right edge as the obstacle test.
pub open spec fn spec_vehicle_collides(
    v: BackgroundVehicle,
    px: int,
    py: int,
    pw: int,
    ph: int,
) -> bool {
    &&& py + ph > v.y
    &&& py < v.y + v.height
    &&& px < v.x + v.width
    &&& pw + px - 20 > v.x
}

/// Whether a vehicle has fully left the visible region on its trailing
/// side, beyond the 100-unit margin.
pub open spec fn spec_vehicle_off(v: BackgroundVehicle, cw: int) -> bool {
    if v.moving_right {
        v.x > cw + 1000
    } else {
        v.x < -1000
    }
}

/// Decide whether `o` triggers avoidance for `v`.
fn avoid_trigger(v: &BackgroundVehicle, o: &BackgroundVehicle) -> (r: bool)
    ensures
        r == triggers_avoid(*v, *o),
{
    let vkey: i64 = v.x as i64 * 100 + v.y as i64 * 100;
    let okey: i64 = o.x as i64 * 100 + o.y as i64 * 100;
    if vkey == okey {
        return false;
    }

    let same_check = if matches!(o.vehicle_type, VehicleType::Train) {
        v.moving_right == o.moving_right
    } else {
        v.moving_right == o.moving_right && v.speed > o.speed
    };
    if !same_check {
        return false;
    }

    let front: i64 = if v.moving_right {
        o.x as i64 - v.x as i64
    } else {
        v.x as i64 - o.x as i64
    };
    let back: i64 = if v.moving_right {
        o.x as i64 + o.width as i64 - v.x as i64
    } else {
        v.x as i64 - (o.x as i64 + o.width as i64)
    };
    let eff: i64 = if matches!(o.vehicle_type, VehicleType::Train) {
        if front < back {
            front
        } else {
            back
        }
    } else {
        front
    };
    let base_window: i64 = if matches!(v.vehicle_type, VehicleType::Train) {
        500
    } else {
        700
    };
    let window: i64 = if matches!(o.vehicle_type, VehicleType::Train) {
        base_window * 3 / 2
    } else {
        base_window
    };

    let dy: i64 = v.y as i64 - o.y as i64;
    let ady: i64 = if dy < 0 {
        -dy
    } else {
        dy
    };

    ady < 350 && eff > 50 && eff < window
}

impl BackgroundVehicle {
    /// Spawn a right-moving vehicle at `x`: a weighted random variant with
    /// a random speed from that variant's range, cruising in the top lane.
    pub fn new_right_moving(x: i32, rng: &mut GameRng) -> (r: BackgroundVehicle)
        ensures
            ({
                let t = right_type_of(lcg_draw(old(rng).state, 10000));
                let s1 = lcg_next(old(rng).state);
                &&& is_spawned_vehicle(
                    r,
                    x,
                    t,
                    RIGHT_LANE_Y as int,
                    true,
                    right_speed_profile(t).0,
                    lcg_draw(s1, right_speed_profile(t).1),
                )
                &&& !r.is_being_chased
                &&& !r.is_chasing
                &&& final(rng).state == lcg_next(s1)
            }),
    {
        let draw: u32 = rng.next_below(10000);
        let vehicle_type: VehicleType;
        let width: i32;
        let height: i32;
        let damage: u32;
        let speed_base: i32;
        let speed_var: u32;
        if draw < 500 {
            vehicle_type = VehicleType::Train;
            width = 1200;
            height = 250;
            damage = 32;
            speed_base = 15;
            speed_var = 5;
        } else if draw < 1300 {
            vehicle_type = VehicleType::TrafficOrb;
            width = 200;
            height = 200;
            damage = 12;
            speed_base = 20;
            speed_var = 15;
        } else {
            let idx: u32 = (draw - 1300) * 3 / 8700;
            if idx == 0 {
                vehicle_type = VehicleType::Taxi;
                width = 400;
                height = 200;
                damage = 8;
                speed_base = 30;
                speed_var = 20;
            } else if idx == 1 {
                vehicle_type = VehicleType::Civil;
                width = 380;
                height = 200;
                damage = 6;
                speed_base = 30;
                speed_var = 20;
            } else {
                vehicle_type = VehicleType::Delivery;
                width = 450;
                height = 220;
                damage = 16;
                speed_base = 25;
                speed_var = 10;
            }
        }
        let sdraw: u32 = rng.next_below(speed_var);
        BackgroundVehicle {
            x,
            y: RIGHT_LANE_Y,
            width,
            height,
            speed: speed_base + sdraw as i32,
            vehicle_type,
            moving_right: true,
            base_y: RIGHT_LANE_Y,
            avoiding: false,
            avoid_timer: 0,
            damage,
            is_being_chased: false,
            is_chasing: false,
        }
    }

    /// Spawn a left-moving vehicle at `x`: orbs or regular road vehicles
    /// only, cruising in the bottom lane.
    pub fn new_left_moving(x: i32, rng: &mut GameRng) -> (r: BackgroundVehicle)
        ensures
            ({
                let t = left_type_of(lcg_draw(old(rng).state, 10000));
                let s1 = lcg_next(old(rng).state);
                &&& is_spawned_vehicle(
                    r,
                    x,
                    t,
                    LEFT_LANE_Y as int,
                    false,
                    left_speed_profile(t).0,
                    lcg_draw(s1, left_speed_profile(t).1),
                )
                &&& !r.is_being_chased
                &&& !r.is_chasing
                &&& final(rng).state == lcg_next(s1)
            }),
    {
        let draw: u32 = rng.next_below(10000);
        let vehicle_type: VehicleType;
        let width: i32;
        let height: i32;
        let damage: u32;
        let speed_base: i32;
        let speed_var: u32;
        if draw < 1500 {
            vehicle_type = VehicleType::TrafficOrb;
            width = 200;
            height = 200;
            damage = 12;
            speed_base = 18;
            speed_var = 12;
        } else {
            let idx: u32 = (draw - 1500) * 3 / 8500;
            if idx == 0 {
                vehicle_type = VehicleType::Taxi;
                width = 400;
                height = 200;
                damage = 8;
                speed_base = 25;
                speed_var = 15;
            } else if idx == 1 {
                vehicle_type = VehicleType::Civil;
                width = 380;
                height = 200;
                damage = 6;
                speed_base = 25;
                speed_var = 15;
            } else {
                vehicle_type = VehicleType::Delivery;
                width = 450;
                height = 220;
                damage = 16;
                speed_base = 20;
                speed_var = 10;
            }
        }
        let sdraw: u32 = rng.next_below(speed_var);
        BackgroundVehicle {
            x,
            y: LEFT_LANE_Y,
            width,
            height,
            speed: speed_base + sdraw as i32,
            vehicle_type,
            moving_right: false,
            base_y: LEFT_LANE_Y,
            avoiding: false,
            avoid_timer: 0,
            damage,
            is_being_chased: false,
            is_chasing: false,
        }
    }

    /// Spawn a linked chase pair moving right: a fleeing target at `x` and
    /// a slightly faster police pursuer 80 units behind it.
    pub fn new_chase_pair(x: i32, rng: &mut GameRng) -> (pair: (
        BackgroundVehicle,
        BackgroundVehicle,
    ))
        ensures
            ({
                let t = chase_type_of(lcg_draw(old(rng).state, 3));
                let s1 = lcg_next(old(rng).state);
                let target = pair.0;
                let police = pair.1;
                &&& is_spawned_vehicle(
                    target,
                    x,
                    t,
                    RIGHT_LANE_Y as int,
                    true,
                    chase_speed_profile(t).0,
                    lcg_draw(s1, chase_speed_profile(t).1),
                )
                &&& target.is_being_chased
                &&& !target.is_chasing
                &&& police.x as int == cadd(x as int, -800)
                &&& police.y == RIGHT_LANE_Y
                &&& police.base_y == RIGHT_LANE_Y
                &&& police.width as int == vehicle_dims(VehicleType::PoliceChase).0
                &&& police.height as int == vehicle_dims(VehicleType::PoliceChase).1
                &&& police.damage == vehicle_dims(VehicleType::PoliceChase).2
                &&& police.vehicle_type == VehicleType::PoliceChase
                &&& police.moving_right
                &&& police.speed == target.speed + 8
                &&& !police.avoiding
                &&& police.avoid_timer == 0
                &&& !police.is_being_chased
                &&& police.is_chasing
                &&& final(rng).state == lcg_next(s1)
            }),
    {
        let tdraw: u32 = rng.next_below(3);
        let vehicle_type: VehicleType;
        let width: i32;
        let height: i32;
        let damage: u32;
        let speed_base: i32;
        let speed_var: u32;
        if tdraw == 0 {
            vehicle_type = VehicleType::Civil;
            width = 380;
            height = 200;
            damage = 6;
            speed_base = 40;
            speed_var = 5;
        } else if tdraw == 1 {
            vehicle_type = VehicleType::Taxi;
            width = 400;
            height = 200;
            damage = 8;
            speed_base = 42;
            speed_var = 5;
        } else {
            vehicle_type = VehicleType::Delivery;
            width = 450;
            height = 220;
            damage = 16;
            speed_base = 45;
            speed_var = 5;
        }
        let sdraw: u32 = rng.next_below(speed_var);
        let target = BackgroundVehicle {
            x,
            y: RIGHT_LANE_Y,
            width,
            height,
            speed: speed_base + sdraw as i32,
            vehicle_type,
            moving_right: true,
            base_y: RIGHT_LANE_Y,
            avoiding: false,
            avoid_timer: 0,
            damage,
            is_being_chased: true,
            is_chasing: false,
        };
        let police = BackgroundVehicle {
            x: coord_add(x, -800),
            y: RIGHT_LANE_Y,
            width: 400,
            height: 200,
            speed: target.speed + 8,
            vehicle_type: VehicleType::PoliceChase,
            moving_right: true,
            base_y: RIGHT_LANE_Y,
            avoiding: false,
            avoid_timer: 0,
            damage: 24,
            is_being_chased: false,
            is_chasing: true,
        };
        (target, police)
    }

    /// Advance this vehicle one tick against the start-of-tick snapshot of
    /// all vehicles (itself included; it skips itself by its position key).
    pub fn update(&mut self, other_vehicles: &[BackgroundVehicle])
        ensures
            *final(self) == spec_vehicle_step(*old(self), other_vehicles@),
    {
        let mut should_avoid: bool = false;
        let mut i: usize = 0;
        while i < other_vehicles.len()
            invariant
                i <= other_vehicles.len(),
                *self == *old(self),
                should_avoid == spec_hazard_upto(*self, other_vehicles@, i as int),
            decreases other_vehicles.len() - i,
        {
            if avoid_trigger(self, &other_vehicles[i]) {
                should_avoid = true;
                assert(triggers_avoid(*self, other_vehicles@[i as int]));
            }
            i = i + 1;
        }

        if should_avoid && !self.avoiding {
            self.avoiding = true;
            self.avoid_timer = 120;
        } else if should_avoid && self.avoiding {
            if self.avoid_timer < 60 {
                self.avoid_timer = 60;
            }
        }

        if self.avoiding {
            if self.avoid_timer > 0 {
                self.avoid_timer = self.avoid_timer - 1;
            }

            let nudge: i32 = if self.base_y < 700 {
                -12
            } else {
                12
            };
            let moved: i64 = self.y as i64 + nudge as i64;
            let lo: i64 = self.base_y as i64 - 200;
            let hi: i64 = self.base_y as i64 + 200;
            let banded: i64 = if moved < lo {
                lo
            } else if moved > hi {
                hi
            } else {
                moved
            };
            self.y = coord_clip(banded);

            if self.avoid_timer == 0 && !should_avoid {
                self.avoiding = false;
            }
        } else {
            let dy: i64 = self.y as i64 - self.base_y as i64;
            let ady: i64 = if dy < 0 {
                -dy
            } else {
                dy
            };
            if ady > 10 {
                if self.y > self.base_y {
                    self.y = coord_sub(self.y, 3);
                } else {
                    self.y = coord_add(self.y, 3);
                }
            }
        }

        let speed_eff: i64 = if self.avoiding {
            floor_div(self.speed as i64 * 13, 10)
        } else {
            self.speed as i64
        };
        let dx: i64 = if self.moving_right {
            speed_eff
        } else {
            -speed_eff
        };
        self.x = coord_clip(self.x as i64 + dx);
    }

    /// Overlap test against the player's box.
    pub fn check_collision_with_player(
        &self,
        player_x: i32,
        player_y: i32,
        player_width: i32,
        player_height: i32,
    ) -> (r: bool)
        ensures
            r == spec_vehicle_collides(
                *self,
                player_x as int,
                player_y as int,
                player_width as int,
                player_height as int,
            ),
    {
        let below_the_top = player_y as i64 + player_height as i64 > self.y as i64;
        let above_the_bottom = (player_y as i64) < self.y as i64 + self.height as i64;
        let to_the_left_of_right = (player_x as i64) < self.x as i64 + self.width as i64;
        let to_the_right_of_left = player_width as i64 + player_x as i64 - 20 > self.x as i64;

        below_the_top && above_the_bottom && to_the_left_of_right && to_the_right_of_left
    }

    /// Whether this vehicle has fully left on its trailing side.
    pub fn is_off_screen(&self, canvas_width: i32) -> (r: bool)
        ensures
            r == spec_vehicle_off(*self, canvas_width as int),
    {
        if self.moving_right {
            self.x as i64 > canvas_width as i64 + 1000
        } else {
            self.x < -1000
        }
    }
}

/// The catalogue of parallax building variants.
#[derive(Clone, Copy, Debug, PartialEq, Eq, Structural)]
pub enum BuildingType {
    Tall,
    Wide,
    Medium,
}

/// A decorative parallax building.
#[derive(Clone, Copy, Debug, PartialEq, Eq, Structural)]
pub struct Building {
    pub x: i32,
    pub y: i32,
    pub width: i32,
    pub height: i32,
    pub building_type: BuildingType,
}

/// The building variant selected by a draw below 3.
pub open spec fn building_type_of(d: u32) -> BuildingType {
    if d == 0 {
        BuildingType::Tall
    } else if d == 1 {
        BuildingType::Wide
    } else {
        BuildingType::Medium
    }
}

/// Fixed (width, height, y) of each building variant.
pub open spec fn building_dims(t: BuildingType) -> (int, int, int) {
    match t {
        BuildingType::Tall => (400int, 1800int, 1500int),
        BuildingType::Wide => (800int, 1200int, 2100int),
        BuildingType::Medium => (600int, 1400int, 1900int),
    }
}

/// Whether a building has fully left on the trailing side, beyond the
/// 50-unit margin.
pub open spec fn spec_building_off(b: Building) -> bool {
    b.x < -b.width - 500
}

impl Building {
    /// Spawn a random building variant at `x`.
    pub fn new(x: i32, rng: &mut GameRng) -> (r: Building)
        ensures
            ({
                let t = building_type_of(lcg_draw(old(rng).state, 3));
                &&& r.x == x
                &&& r.building_type == t
                &&& r.width as int == building_dims(t).0
                &&& r.height as int == building_dims(t).1
                &&& r.y as int == building_dims(t).2
                &&& final(rng).state == lcg_next(old(rng).state)
            }),
    {
        let draw: u32 = rng.next_below(3);
        let building_type: BuildingType;
        let width: i32;
        let height: i32;
        let y: i32;
        if draw == 0 {
            building_type = BuildingType::Tall;
            width = 400;
            height = 1800;
            y = 1500;
        } else if draw == 1 {
            building_type = BuildingType::Wide;
            width = 800;
            height = 1200;
            y = 2100;
        } else {
            building_type = BuildingType::Medium;
            width = 600;
            height = 1400;
            y = 1900;
        }
        Building { x, y, width, height, building_type }
    }

    /// Move left by the parallax speed.
    pub fn update(&mut self, speed: i32)
        ensures
            *final(self) == (Building {
                x: cadd(old(self).x as int, -(speed as int)) as i32,
                ..*old(self)
            }),
    {
        self.x = coord_sub(self.x, speed);
    }

    /// Whether this building has fully left on the trailing side.
    pub fn is_off_screen(&self) -> (r: bool)
        ensures
            r == spec_building_off(*self),
    {
        (self.x as i64) < -(self.width as i64) - 500
    }
}

/// The catalogue of billboard faces.
#[derive(Clone, Copy, Debug, PartialEq, Eq, Structural)]
pub enum BillboardType {
    FirstBreak,
    SecondBreak,
    Security,
    Security2,
    SharkMovie,
}

/// A billboard hanging from the top of the screen.
#[derive(Clone, Copy, Debug, PartialEq, Eq, Structural)]
pub struct Billboard {
    pub x: i32,
    pub y: i32,
    pub width: i32,
    pub height: i32,
    pub billboard_type: BillboardType,
}

/// The billboard face selected by a draw below 5, clamped defensively into
/// the catalogue.
pub open spec fn billboard_type_of(d: u32) -> BillboardType {
    if d == 0 {
        BillboardType::FirstBreak
    } else if d == 1 {
        BillboardType::SecondBreak
    } else if d == 2 {
        BillboardType::Security
    } else if d == 3 {
        BillboardType::Security2
    } else {
        BillboardType::SharkMovie
    }
}

/// Whether a billboard has fully left on the trailing side, beyond the
/// 50-unit margin.
pub open spec fn spec_billboard_off(b: Billboard) -> bool {
    b.x < -b.width - 500
}

impl Billboard {
    /// Spawn a random billboard face at `x`, hanging at the top.
    pub fn new(x: i32, rng: &mut GameRng) -> (r: Billboard)
        ensures
            r.x == x,
            r.y == -100,
            r.width == 1400,
            r.height == 800,
            r.billboard_type == billboard_type_of(lcg_draw(old(rng).state, 5)),
            final(rng).state == lcg_next(old(rng).state),
    {
        let draw: u32 = rng.next_below(5);
        let billboard_type: BillboardType;
        if draw == 0 {
            billboard_type = BillboardType::FirstBreak;
        } else if draw == 1 {
            billboard_type = BillboardType::SecondBreak;
        } else if draw == 2 {
            billboard_type = BillboardType::Security;
        } else if draw == 3 {
            billboard_type = BillboardType::Security2;
        } else {
            billboard_type = BillboardType::SharkMovie;
        }
        Billboard { x, y: -100, width: 1400, height: 800, billboard_type }
    }

    /// Move left by the billboard parallax speed.
    pub fn update(&mut self, speed: i32)
        ensures
            *final(self) == (Billboard {
                x: cadd(old(self).x as int, -(speed as int)) as i32,
                ..*old(self)
            }),
    {
        self.x = coord_sub(self.x, speed);
    }

    /// Whether this billboard has fully left on the trailing side.
    pub fn is_off_screen(&self) -> (r: bool)
        ensures
            r == spec_billboard_off(*self),
    {
        (self.x as i64) < -(self.width as i64) - 500
    }
}

/// A building after one tick of parallax movement.
pub open spec fn moved_building(b: Building) -> Building {
    Building { x: cadd(b.x as int, -10) as i32, ..b }
}

/// A billboard after one tick of parallax movement.
pub open spec fn moved_billboard(b: Billboard) -> Billboard {
    Billboard { x: cadd(b.x as int, -20) as i32, ..b }
}

/// The buildings that survive the cull.
pub open spec fn live_buildings(s: Seq<Building>) -> Seq<Building> {
    s.filter(|b: Building| !spec_building_off(b))
}

/// The billboards that survive the cull.
pub open spec fn live_billboards(s: Seq<Billboard>) -> Seq<Billboard> {
    s.filter(|b: Billboard| !spec_billboard_off(b))
}

/// The vehicles that survive the cull on a canvas of width `cw`.
pub open spec fn live_vehicles(s: Seq<BackgroundVehicle>, cw: int) -> Seq<BackgroundVehicle> {
    s.filter(|v: BackgroundVehicle| !spec_vehicle_off(v, cw))
}

/// The spawn timer after one tick: it cycles below 3600, the least common
/// multiple of all spawn periods, so the periodic gates repeat unchanged.
pub open spec fn spec_timer_next(t: u32) -> u32 {
    if t >= 3599 {
        0u32
    } else {
        (t + 1) as u32
    }
}

/// The traffic population after one tick: every vehicle steps against
/// the same start-of-tick snapshot of the whole population, so the
/// tick's outcome does not depend on the order in which the vehicles
/// are visited.
pub open spec fn stepped_vehicles(vs: Seq<BackgroundVehicle>) -> Seq<BackgroundVehicle> {
    vs.map_values(|v: BackgroundVehicle| spec_vehicle_step(v, vs))
}

/// Whether the building row needs a new member: the rightmost building
/// has come within the trailing margin of the visible width.
pub open spec fn building_spawn_due(s: Seq<Building>, cw: int) -> bool {
    s.len() > 0 && s.last().x + s.last().width < cw + 2000
}

/// The generator state after the building spawn stage: a due spawn draws
/// the gap and the building variant, otherwise nothing is drawn.
pub open spec fn rng_after_building_stage(s: Seq<Building>, cw: int, r: u64) -> u64 {
    if building_spawn_due(s, cw) {
        lcg_next(lcg_next(r))
    } else {
        r
    }
}

/// Whether the billboard stage hangs a new billboard from generator state
/// `r`: the periodic phase matches, the probability gate passes, and the
/// drawn position keeps the minimum spacing from every billboard of `s`.
pub open spec fn billboard_spawn_happens(s: Seq<Billboard>, t: u32, cw: int, r: u64) -> bool {
    &&& t % 600 == 300
    &&& lcg_draw(r, 100) < 40
    &&& spec_can_place_billboard(s, clip(cw + lcg_draw(lcg_next(r), 2000) + 1000))
}

/// The generator state after the billboard spawn stage: a matching
/// phase costs one roll, a successful roll costs the position draw, and
/// a placed billboard costs its face draw.
pub open spec fn rng_after_billboard_stage(s: Seq<Billboard>, t: u32, cw: int, r: u64) -> u64 {
    if t % 600 == 300 {
        if lcg_draw(r, 100) < 40 {
            if spec_can_place_billboard(s, clip(cw + lcg_draw(lcg_next(r), 2000) + 1000)) {
                lcg_next(lcg_next(lcg_next(r)))
            } else {
                lcg_next(lcg_next(r))
            }
        } else {
            lcg_next(r)
        }
    } else {
        r
    }
}

/// How many vehicles the right-moving gate spawns at tick `t` from
/// generator state `r`: two for the rare chase pair, one otherwise.
pub open spec fn right_gate_spawns(t: u32, r: u64) -> int {
    if t % 90 == 0 && lcg_draw(r, 100) < 80 {
        if lcg_draw(lcg_next(r), 100) < 3 {
            2int
        } else {
            1int
        }
    } else {
        0int
    }
}

/// The generator state after the right-moving stage: when it fires, it
/// consumes the entry roll, the chase-pair roll, and both spawn draws.
pub open spec fn rng_after_right_gate(t: u32, r: u64) -> u64 {
    if t % 90 != 0 {
        r
    } else if lcg_draw(r, 100) < 80 {
        lcg_next(lcg_next(lcg_next(lcg_next(r))))
    } else {
        lcg_next(r)
    }
}

/// How many vehicles the left-moving gate spawns at tick `t` from
/// generator state `r`.
pub open spec fn left_gate_spawns(t: u32, r: u64) -> int {
    if t % 80 == 40 && lcg_draw(r, 100) < 75 {
        1int
    } else {
        0int
    }
}

/// The generator state after the left-moving stage: when it fires, it
/// consumes the entry roll and both spawn draws.
pub open spec fn rng_after_left_gate(t: u32, r: u64) -> u64 {
    if t % 80 != 40 {
        r
    } else if lcg_draw(r, 100) < 75 {
        lcg_next(lcg_next(lcg_next(r)))
    } else {
        lcg_next(r)
    }
}

/// How many vehicles the convoy gate spawns at tick `t` from generator
/// state `r`.
pub open spec fn convoy_gate_spawns(t: u32, r: u64) -> int {
    if t % 300 == 0 && lcg_draw(r, 100) < 30 {
        3int
    } else {
        0int
    }
}

/// How many vehicles the three traffic gates together spawn at tick `t`
/// from generator state `r`.
pub open spec fn spec_traffic_spawn_count(t: u32, r: u64) -> int {
    let r1 = rng_after_right_gate(t, r);
    let r2 = rng_after_left_gate(t, r1);
    right_gate_spawns(t, r) + left_gate_spawns(t, r1) + convoy_gate_spawns(t, r2)
}

/// A building whose dimensions and height match its variant.
pub open spec fn valid_building(b: Building) -> bool {
    &&& b.width as int == building_dims(b.building_type).0
    &&& b.height as int == building_dims(b.building_type).1
    &&& b.y as int == building_dims(b.building_type).2
}

/// A billboard with the fixed billboard dimensions, hanging at the top.
pub open spec fn valid_billboard(b: Billboard) -> bool {
    &&& b.y == -100
    &&& b.width == 1400
    &&& b.height == 800
}

/// Whether a new billboard at `x` keeps the minimum spacing from every
/// billboard of `s` that is not already far off screen.
pub open spec fn spec_can_place_billboard(s: Seq<Billboard>, x: int) -> bool {
    forall|j: int|
        0 <= j < s.len() ==> (abs(x - ((#[trigger] s[j]).x + s[j].width)) > 2500 || s[j].x < -2000)
}

/// A vehicle as traffic spawning leaves it: the dimensions of its variant,
/// cruising, placed just outside the visible region on its entering side.
pub open spec fn traffic_spawn_ok(v: BackgroundVehicle, cw: int) -> bool {
    &&& v.width as int == vehicle_dims(v.vehicle_type).0
    &&& v.height as int == vehicle_dims(v.vehicle_type).1
    &&& v.damage == vehicle_dims(v.vehicle_type).2
    &&& !v.avoiding
    &&& v.avoid_timer == 0
    &&& if v.moving_right {
        &&& v.y == RIGHT_LANE_Y
        &&& v.base_y == RIGHT_LANE_Y
        &&& 0 < v.speed <= 70
        &&& -2900 <= v.x <= -500
        &&& !(v.vehicle_type is Police)
    } else {
        &&& v.y == LEFT_LANE_Y
        &&& v.base_y == LEFT_LANE_Y
        &&& 0 < v.speed <= 40
        &&& cadd(cw, 500) <= v.x <= cadd(cw, 2900)
        &&& (v.vehicle_type is TrafficOrb || v.vehicle_type is Taxi || v.vehicle_type is Civil
            || v.vehicle_type is Delivery)
    }
}

/// One whole background tick, relating the manager after the tick to the
/// manager before it and the generator state `r0` it started from: the
/// parallax offset steps and wraps; each population moves, is culled, and
/// is replenished exactly as its spawn stage dictates — buildings when the
/// row runs short, a billboard when its periodic gate passes and spacing
/// allows, and exactly as many traffic vehicles as the three gates fire
/// for this tick's timer and draws.
pub open spec fn spec_manager_step(
    pre: BackgroundManager,
    post: BackgroundManager,
    r0: u64,
) -> bool {
    let cw = pre.canvas_width as int;
    let live_b = live_buildings(pre.far_buildings@.map_values(|b: Building| moved_building(b)));
    let live_bb = live_billboards(pre.billboards@.map_values(|b: Billboard| moved_billboard(b)));
    let live_v = live_vehicles(stepped_vehicles(pre.traffic_vehicles@), cw);
    let r1 = rng_after_building_stage(live_b, cw, r0);
    let r2 = rng_after_billboard_stage(live_bb, pre.spawn_timer, cw, r1);
    &&& post.canvas_width == pre.canvas_width
    &&& post.spawn_timer == spec_timer_next(pre.spawn_timer)
    &&& post.far_building_offset == ({
        let o1 = cadd(pre.far_building_offset as int, -5);
        if o1 < -1000 {
            0int
        } else {
            o1
        }
    })
    &&& if building_spawn_due(live_b, cw) {
        &&& post.far_buildings@.len() == live_b.len() + 1
        &&& post.far_buildings@.subrange(0, live_b.len() as int) == live_b
        &&& valid_building(post.far_buildings@.last())
        &&& clip(live_b.last().x + live_b.last().width + 200) <= post.far_buildings@.last().x
        &&& post.far_buildings@.last().x <= clip(live_b.last().x + live_b.last().width + 699)
    } else {
        post.far_buildings@ == live_b
    }
    &&& if billboard_spawn_happens(live_bb, pre.spawn_timer, cw, r1) {
        &&& post.billboards@.len() == live_bb.len() + 1
        &&& post.billboards@.subrange(0, live_bb.len() as int) == live_bb
        &&& valid_billboard(post.billboards@.last())
        &&& spec_can_place_billboard(live_bb, post.billboards@.last().x as int)
        &&& post.billboards@.last().x as int == clip(cw + lcg_draw(lcg_next(r1), 2000) + 1000)
    } else {
        post.billboards@ == live_bb
    }
    &&& post.traffic_vehicles@.len() == live_v.len() + spec_traffic_spawn_count(
        spec_timer_next(pre.spawn_timer),
        r2,
    )
    &&& post.traffic_vehicles@.subrange(0, live_v.len() as int) == live_v
    &&& forall|j: int|
        live_v.len() <= j < post.traffic_vehicles@.len() ==> traffic_spawn_ok(
            #[trigger] post.traffic_vehicles@[j],
            cw,
        )
}

/// All three populations inside their trailing-side bounds.
pub open spec fn manager_bounded(m: BackgroundManager) -> bool {
    &&& forall|i: int|
        0 <= i < m.far_buildings@.len() ==> !spec_building_off(#[trigger] m.far_buildings@[i])
    &&& forall|i: int|
        0 <= i < m.billboards@.len() ==> !spec_billboard_off(#[trigger] m.billboards@[i])
    &&& forall|i: int|
        0 <= i < m.traffic_vehicles@.len() ==> !spec_vehicle_off(
            #[trigger] m.traffic_vehicles@[i],
            m.canvas_width as int,
        )
}

/// A freshly constructed background: fifteen buildings from the left edge
/// rightward, three spaced billboards, no traffic yet, timers at zero.
pub open spec fn is_fresh_manager(m: BackgroundManager, cw: i32) -> bool {
    &&& m.canvas_width == cw
    &&& m.far_building_offset == 0
    &&& m.spawn_timer == 0
    &&& m.traffic_vehicles@.len() == 0
    &&& m.far_buildings@.len() == 15
    &&& forall|i: int|
        0 <= i < m.far_buildings@.len() ==> valid_building(#[trigger] m.far_buildings@[i])
            && m.far_buildings@[i].x >= 0
    &&& m.far_buildings@[0].x == 0
    &&& forall|i: int|
        0 <= i && i + 1 < m.far_buildings@.len() ==> (#[trigger] m.far_buildings@[i + 1]).x
            >= m.far_buildings@[i].x + m.far_buildings@[i].width + 200 && m.far_buildings@[i
            + 1].x <= m.far_buildings@[i].x + m.far_buildings@[i].width + 699
    &&& m.billboards@.len() == 3
    &&& forall|i: int|
        0 <= i < m.billboards@.len() ==> valid_billboard(#[trigger] m.billboards@[i])
            && 4000 * i <= m.billboards@[i].x < 4000 * i + 1000
}

/// Copy a vehicle population, for the start-of-tick snapshot.
fn copy_vehicles(vehicles: &Vec<BackgroundVehicle>) -> (r: Vec<BackgroundVehicle>)
    ensures
        r@ == vehicles@,
{
    let mut out: Vec<BackgroundVehicle> = Vec::new();
    let mut i: usize = 0;
    while i < vehicles.len()
        invariant
            i <= vehicles.len(),
            out@ == vehicles@.subrange(0, i as int),
        decreases vehicles.len() - i,
    {
        out.push(vehicles[i]);
        proof {
            assert(vehicles@.subrange(0, i + 1 as int) =~= vehicles@.subrange(0, i as int).push(
                vehicles@[i as int],
            ));
        }
        i = i + 1;
    }
    proof {
        assert(vehicles@.subrange(0, vehicles@.len() as int) =~= vehicles@);
    }
    out
}

/// Advance every building one parallax tick.
fn advance_buildings(buildings: &mut Vec<Building>)
    ensures
        final(buildings)@ == old(buildings)@.map_values(|b: Building| moved_building(b)),
{
    let mut i: usize = 0;
    while i < buildings.len()
        invariant
            i <= buildings.len(),
            buildings@.len() == old(buildings)@.len(),
            forall|j: int| 0 <= j < i ==> buildings@[j] == moved_building(#[trigger] old(
                buildings,
            )@[j]),
            forall|j: int| i <= j < buildings@.len() ==> buildings@[j] == #[trigger] old(
                buildings,
            )@[j],
        decreases buildings.len() - i,
    {
        let mut b = buildings[i];
        b.update(10);
        buildings[i] = b;
        i = i + 1;
    }
    proof {
        assert(buildings@ =~= old(buildings)@.map_values(|b: Building| moved_building(b)));
    }
}

/// Advance every billboard one parallax tick.
fn advance_billboards(billboards: &mut Vec<Billboard>)
    ensures
        final(billboards)@ == old(billboards)@.map_values(|b: Billboard| moved_billboard(b)),
{
    let mut i: usize = 0;
    while i < billboards.len()
        invariant
            i <= billboards.len(),
            billboards@.len() == old(billboards)@.len(),
            forall|j: int| 0 <= j < i ==> billboards@[j] == moved_billboard(#[trigger] old(
                billboards,
            )@[j]),
            forall|j: int| i <= j < billboards@.len() ==> billboards@[j] == #[trigger] old(
                billboards,
            )@[j],
        decreases billboards.len() - i,
    {
        let mut b = billboards[i];
        b.update(20);
        billboards[i] = b;
        i = i + 1;
    }
    proof {
        assert(billboards@ =~= old(billboards)@.map_values(|b: Billboard| moved_billboard(b)));
    }
}

/// `live_buildings` follows a push: the pushed building is kept exactly
/// when it is not off screen.
proof fn lemma_live_buildings_push(s: Seq<Building>, b: Building)
    ensures
        live_buildings(s.push(b)) == if !spec_building_off(b) {
            live_buildings(s).push(b)
        } else {
            live_buildings(s)
        },
{
    reveal(Seq::filter);
    assert(s.push(b).drop_last() =~= s);
    assert(s.push(b).last() == b);
}

/// Every member of `live_buildings` is on screen.
proof fn lemma_live_buildings_pred(s: Seq<Building>)
    ensures
        forall|i: int|
            0 <= i < live_buildings(s).len() ==> !spec_building_off(
                #[trigger] live_buildings(s)[i],
            ),
    decreases s.len(),
{
    if s.len() > 0 {
        lemma_live_buildings_pred(s.drop_last());
        assert(s.drop_last().push(s.last()) =~= s);
        lemma_live_buildings_push(s.drop_last(), s.last());
    } else {
        assert(live_buildings(s).len() == 0);
    }
}

/// Remove the buildings that have fully left the screen.
fn cull_buildings(buildings: &mut Vec<Building>)
    ensures
        final(buildings)@ == live_buildings(old(buildings)@),
        forall|i: int|
            0 <= i < final(buildings)@.len() ==> !spec_building_off(
                #[trigger] final(buildings)@[i],
            ),
{
    let mut kept: Vec<Building> = Vec::new();
    let mut i: usize = 0;
    while i < buildings.len()
        invariant
            i <= buildings.len(),
            *buildings == *old(buildings),
            kept@ == live_buildings(buildings@.subrange(0, i as int)),
            forall|j: int| 0 <= j < kept@.len() ==> !spec_building_off(#[trigger] kept@[j]),
        decreases buildings.len() - i,
    {
        let b = buildings[i];
        if !b.is_off_screen() {
            kept.push(b);
        }
        proof {
            assert(buildings@.subrange(0, i + 1 as int) =~= buildings@.subrange(0, i as int).push(
                buildings@[i as int],
            ));
            lemma_live_buildings_push(buildings@.subrange(0, i as int), buildings@[i as int]);
        }
        i = i + 1;
    }
    proof {
        assert(buildings@.subrange(0, buildings@.len() as int) =~= buildings@);
    }
    *buildings = kept;
}

/// `live_billboards` follows a push: the pushed billboard is kept exactly
/// when it is not off screen.
proof fn lemma_live_billboards_push(s: Seq<Billboard>, b: Billboard)
    ensures
        live_billboards(s.push(b)) == if !spec_billboard_off(b) {
            live_billboards(s).push(b)
        } else {
            live_billboards(s)
        },
{
    reveal(Seq::filter);
    assert(s.push(b).drop_last() =~= s);
    assert(s.push(b).last() == b);
}

/// Remove the billboards that have fully left the screen.
fn cull_billboards(billboards: &mut Vec<Billboard>)
    ensures
        final(billboards)@ == live_billboards(old(billboards)@),
        forall|i: int|
            0 <= i < final(billboards)@.len() ==> !spec_billboard_off(
                #[trigger] final(billboards)@[i],
            ),
{
    let mut kept: Vec<Billboard> = Vec::new();
    let mut i: usize = 0;
    while i < billboards.len()
        invariant
            i <= billboards.len(),
            *billboards == *old(billboards),
            kept@ == live_billboards(billboards@.subrange(0, i as int)),
            forall|j: int| 0 <= j < kept@.len() ==> !spec_billboard_off(#[trigger] kept@[j]),
        decreases billboards.len() - i,
    {
        let b = billboards[i];
        if !b.is_off_screen() {
            kept.push(b);
        }
        proof {
            assert(billboards@.subrange(0, i + 1 as int) =~= billboards@.subrange(
                0,
                i as int,
            ).push(billboards@[i as int]));
            lemma_live_billboards_push(billboards@.subrange(0, i as int), billboards@[i as int]);
        }
        i = i + 1;
    }
    proof {
        assert(billboards@.subrange(0, billboards@.len() as int) =~= billboards@);
    }
    *billboards = kept;
}

/// `live_vehicles` follows a push: the pushed vehicle is kept exactly when
/// it is not off screen.
proof fn lemma_live_vehicles_push(s: Seq<BackgroundVehicle>, v: BackgroundVehicle, cw: int)
    ensures
        live_vehicles(s.push(v), cw) == if !spec_vehicle_off(v, cw) {
            live_vehicles(s, cw).push(v)
        } else {
            live_vehicles(s, cw)
        },
{
    reveal(Seq::filter);
    assert(s.push(v).drop_last() =~= s);
    assert(s.push(v).last() == v);
}

/// Remove the vehicles that have fully left on their trailing side.
fn cull_vehicles(vehicles: &mut Vec<BackgroundVehicle>, canvas_width: i32)
    ensures
        final(vehicles)@ == live_vehicles(old(vehicles)@, canvas_width as int),
        forall|i: int|
            0 <= i < final(vehicles)@.len() ==> !spec_vehicle_off(
                #[trigger] final(vehicles)@[i],
                canvas_width as int,
            ),
{
    let mut kept: Vec<BackgroundVehicle> = Vec::new();
    let mut i: usize = 0;
    while i < vehicles.len()
        invariant
            i <= vehicles.len(),
            *vehicles == *old(vehicles),
            kept@ == live_vehicles(vehicles@.subrange(0, i as int), canvas_width as int),
            forall|j: int|
                0 <= j < kept@.len() ==> !spec_vehicle_off(
                    #[trigger] kept@[j],
                    canvas_width as int,
                ),
        decreases vehicles.len() - i,
    {
        let v = vehicles[i];
        if !v.is_off_screen(canvas_width) {
            kept.push(v);
        }
        proof {
            assert(vehicles@.subrange(0, i + 1 as int) =~= vehicles@.subrange(0, i as int).push(
                vehicles@[i as int],
            ));
            lemma_live_vehicles_push(
                vehicles@.subrange(0, i as int),
                vehicles@[i as int],
                canvas_width as int,
            );
        }
        i = i + 1;
    }
    proof {
        assert(vehicles@.subrange(0, vehicles@.len() as int) =~= vehicles@);
    }
    *vehicles = kept;
}

/// Run the traffic pass: every vehicle steps against one snapshot of the
/// whole population taken at the start of the tick, so no vehicle sees a
/// partially updated neighbour and the outcome is order-independent.
fn advance_vehicles(vehicles: &mut Vec<BackgroundVehicle>)
    ensures
        final(vehicles)@ == stepped_vehicles(old(vehicles)@),
{
    let snapshot = copy_vehicles(vehicles);
    let n: usize = vehicles.len();
    let mut i: usize = 0;
    while i < n
        invariant
            i <= n,
            n == vehicles@.len(),
            snapshot@ == old(vehicles)@,
            forall|j: int| 0 <= j < i ==> vehicles@[j] == spec_vehicle_step(
                #[trigger] old(vehicles)@[j],
                old(vehicles)@,
            ),
            forall|j: int| i <= j < vehicles@.len() ==> vehicles@[j] == #[trigger] old(
                vehicles,
            )@[j],
        decreases n - i,
    {
        let mut v = vehicles[i];
        v.update(snapshot.as_slice());
        vehicles[i] = v;
        i = i + 1;
    }
    proof {
        assert(vehicles@ =~= stepped_vehicles(old(vehicles)@));
    }
}

/// Spawn the `i`-th vehicle of a convoy, on a random side at a random
/// spacing, and append it to the population.
fn spawn_convoy_vehicle(
    vehicles: &mut Vec<BackgroundVehicle>,
    canvas_width: i32,
    i: u32,
    rng: &mut GameRng,
)
    requires
        i < 3,
    ensures
        final(vehicles)@.len() == old(vehicles)@.len() + 1,
        final(vehicles)@.subrange(0, old(vehicles)@.len() as int) == old(vehicles)@,
        traffic_spawn_ok(final(vehicles)@.last(), canvas_width as int),
{
    let spacing: u32 = 800 + rng.next_below(400);
    let side: u32 = rng.next_below(100);
    proof {
        assert((i as int) * (spacing as int) <= 2398) by (nonlinear_arith)
            requires
                i < 3,
                spacing < 1200,
        ;
        assert((i as int) * (spacing as int) >= 0) by (nonlinear_arith)
            requires
                i < 3,
                spacing < 1200,
        ;
    }
    if side < 50 {
        let x: i32 = -500 - (i as i32) * (spacing as i32);
        let v = BackgroundVehicle::new_right_moving(x, rng);
        assert(traffic_spawn_ok(v, canvas_width as int));
        vehicles.push(v);
    } else {
        let x: i32 = coord_clip(canvas_width as i64 + 500 + (i as i64) * (spacing as i64));
        let v = BackgroundVehicle::new_left_moving(x, rng);
        assert(traffic_spawn_ok(v, canvas_width as int));
        vehicles.push(v);
    }
    proof {
        assert(vehicles@.subrange(0, old(vehicles)@.len() as int) =~= old(vehicles)@);
    }
}

/// Whether a new billboard at `spawn_x` keeps the minimum spacing of 250
/// units from all existing billboards that are still near the screen.
pub fn billboard_spawn_allowed(billboards: &Vec<Billboard>, spawn_x: i32) -> (r: bool)
    ensures
        r == spec_can_place_billboard(billboards@, spawn_x as int),
{
    let mut i: usize = 0;
    while i < billboards.len()
        invariant
            i <= billboards.len(),
            forall|j: int|
                0 <= j < i ==> (abs(
                    spawn_x - ((#[trigger] billboards@[j]).x + billboards@[j].width),
                ) > 2500 || billboards@[j].x < -2000),
        decreases billboards.len() - i,
    {
        let b = billboards[i];
        let d: i64 = spawn_x as i64 - (b.x as i64 + b.width as i64);
        let ad: i64 = if d < 0 {
            -d
        } else {
            d
        };
        if !(ad > 2500 || b.x < -2000) {
            return false;
        }
        i = i + 1;
    }
    true
}

/// Owner of the three background populations and their spawn timers.
#[derive(Clone, Debug, PartialEq)]
pub struct BackgroundManager {
    pub far_buildings: Vec<Building>,
    pub traffic_vehicles: Vec<BackgroundVehicle>,
    pub billboards: Vec<Billboard>,
    /// Parallax offset of the farthest building layer.
    pub far_building_offset: i32,
    /// Tick counter driving the periodic spawn gates; cycles below 3600.
    pub spawn_timer: u32,
    pub canvas_width: i32,
}

impl BackgroundManager {
    /// A fresh background for a canvas of the given width: initial
    /// buildings and billboards, no traffic yet.
    pub fn new(canvas_width: i32, rng: &mut GameRng) -> (r: BackgroundManager)
        ensures
            is_fresh_manager(r, canvas_width),
    {
        let mut far_buildings: Vec<Building> = Vec::new();
        let mut spawn_x: i32 = 0;
        let mut i: usize = 0;
        while i < 15
            invariant
                i <= 15,
                far_buildings@.len() == i,
                0 <= spawn_x <= 1499 * i,
                i == 0 ==> spawn_x == 0,
                i > 0 ==> far_buildings@[i - 1].x + far_buildings@[i - 1].width + 200 <= spawn_x
                    <= far_buildings@[i - 1].x + far_buildings@[i - 1].width + 699,
                forall|j: int|
                    0 <= j < i ==> valid_building(#[trigger] far_buildings@[j])
                        && far_buildings@[j].x >= 0,
                i > 0 ==> far_buildings@[0].x == 0,
                forall|j: int|
                    0 <= j && j + 1 < i ==> (#[trigger] far_buildings@[j + 1]).x
                        >= far_buildings@[j].x + far_buildings@[j].width + 200 && far_buildings@[j
                        + 1].x <= far_buildings@[j].x + far_buildings@[j].width + 699,
            decreases 15 - i,
        {
            let b = Building::new(spawn_x, rng);
            let ghost pre = far_buildings@;
            let gap: u32 = rng.next_below(500);
            proof {
                assert(spawn_x as int + b.width as int + gap as int + 200 <= 1499 * (i as int)
                    + 1499);
            }
            spawn_x = coord_clip(spawn_x as i64 + b.width as i64 + gap as i64 + 200);
            far_buildings.push(b);
            proof {
                assert forall|j: int|
                    0 <= j && j + 1 < i + 1 implies (#[trigger] far_buildings@[j + 1]).x
                    >= far_buildings@[j].x + far_buildings@[j].width + 200 && far_buildings@[j
                    + 1].x <= far_buildings@[j].x + far_buildings@[j].width + 699 by {
                    if j + 1 < i as int {
                        assert(far_buildings@[j] == pre[j]);
                        assert(far_buildings@[j + 1] == pre[j + 1]);
                    } else {
                        assert(far_buildings@[j + 1] == b);
                        assert(far_buildings@[j] == pre[j]);
                    }
                }
            }
            i = i + 1;
        }

        let mut billboards: Vec<Billboard> = Vec::new();
        let mut k: usize = 0;
        while k < 3
            invariant
                k <= 3,
                billboards@.len() == k,
                forall|j: int|
                    0 <= j < k ==> valid_billboard(#[trigger] billboards@[j]) && 4000 * j
                        <= billboards@[j].x < 4000 * j + 1000,
            decreases 3 - k,
        {
            let jitter: u32 = rng.next_below(1000);
            let x: i32 = (k as i32) * 4000 + jitter as i32;
            billboards.push(Billboard::new(x, rng));
            k = k + 1;
        }

        BackgroundManager {
            far_buildings,
            traffic_vehicles: Vec::new(),
            billboards,
            far_building_offset: 0,
            spawn_timer: 0,
            canvas_width,
        }
    }

    /// One background tick: parallax offset, building and billboard
    /// movement with culling and respawning, then the traffic pass with
    /// culling and the periodic spawn gates.
    pub fn update(&mut self, rng: &mut GameRng)
        ensures
            spec_manager_step(*old(self), *final(self), old(rng).state),
            old(self).canvas_width >= 0 ==> manager_bounded(*final(self)),
    {
        self.far_building_offset = coord_sub(self.far_building_offset, 5);
        if self.far_building_offset < -1000 {
            self.far_building_offset = 0;
        }

        advance_buildings(&mut self.far_buildings);
        advance_billboards(&mut self.billboards);

        cull_buildings(&mut self.far_buildings);
        let ghost b_culled = self.far_buildings@;
        self.spawn_buildings_if_needed(rng);

        cull_billboards(&mut self.billboards);
        let ghost bb_culled = self.billboards@;
        self.spawn_billboards_if_needed(rng);

        advance_vehicles(&mut self.traffic_vehicles);
        cull_vehicles(&mut self.traffic_vehicles, self.canvas_width);
        let ghost v_culled = self.traffic_vehicles@;
        self.spawn_traffic_if_needed(rng);

        proof {
            let cw = old(self).canvas_width as int;
            if old(self).canvas_width >= 0 {
                assert forall|i: int| 0 <= i < self.far_buildings@.len() implies !spec_building_off(
                    #[trigger] self.far_buildings@[i],
                ) by {
                    if i < b_culled.len() {
                        assert(self.far_buildings@.subrange(0, b_culled.len() as int)[i]
                            == self.far_buildings@[i]);
                    }
                }
                assert forall|i: int|
                    0 <= i < self.billboards@.len() implies !spec_billboard_off(
                    #[trigger] self.billboards@[i],
                ) by {
                    if i < bb_culled.len() {
                        assert(self.billboards@.subrange(0, bb_culled.len() as int)[i]
                            == self.billboards@[i]);
                    }
                }
                assert forall|i: int|
                    0 <= i < self.traffic_vehicles@.len() implies !spec_vehicle_off(
                    #[trigger] self.traffic_vehicles@[i],
                    cw,
                ) by {
                    if i < v_culled.len() {
                        assert(self.traffic_vehicles@.subrange(0, v_culled.len() as int)[i]
                            == self.traffic_vehicles@[i]);
                    } else {
                        assert(traffic_spawn_ok(self.traffic_vehicles@[i], cw));
                    }
                }
            }
        }
    }

    /// Keep the building row filled: once the rightmost building comes
    /// within the trailing margin of the visible width, append another at
    /// a random gap behind it.
    fn spawn_buildings_if_needed(&mut self, rng: &mut GameRng)
        ensures
            *final(self) == (BackgroundManager {
                far_buildings: final(self).far_buildings,
                ..*old(self)
            }),
            ({
                let s = old(self).far_buildings@;
                let nb = final(self).far_buildings@.last();
                if building_spawn_due(s, old(self).canvas_width as int) {
                    &&& final(self).far_buildings@.len() == s.len() + 1
                    &&& final(self).far_buildings@.subrange(0, s.len() as int) == s
                    &&& valid_building(nb)
                    &&& clip(s.last().x + s.last().width + 200) <= nb.x
                    &&& nb.x <= clip(s.last().x + s.last().width + 699)
                } else {
                    final(self).far_buildings@ == s
                }
            }),
            final(rng).state == rng_after_building_stage(
                old(self).far_buildings@,
                old(self).canvas_width as int,
                old(rng).state,
            ),
    {
        let n: usize = self.far_buildings.len();
        if n > 0 {
            let last = self.far_buildings[n - 1];
            if (last.x as i64) + (last.width as i64) < (self.canvas_width as i64) + 2000 {
                let gap: u32 = rng.next_below(500);
                let bx: i32 = coord_clip(
                    last.x as i64 + last.width as i64 + gap as i64 + 200,
                );
                let b = Building::new(bx, rng);
                self.far_buildings.push(b);
            }
        }
    }

    /// Periodically try to hang a new billboard ahead of the screen; the
    /// attempt is rejected unless it keeps the minimum spacing from every
    /// billboard still near the screen.
    fn spawn_billboards_if_needed(&mut self, rng: &mut GameRng)
        ensures
            *final(self) == (BackgroundManager { billboards: final(self).billboards, ..*old(self) }),
            ({
                let s = old(self).billboards@;
                let cw = old(self).canvas_width as int;
                let bb = final(self).billboards@.last();
                if billboard_spawn_happens(s, old(self).spawn_timer, cw, old(rng).state) {
                    &&& final(self).billboards@.len() == s.len() + 1
                    &&& final(self).billboards@.subrange(0, s.len() as int) == s
                    &&& valid_billboard(bb)
                    &&& spec_can_place_billboard(s, bb.x as int)
                    &&& bb.x as int == clip(cw + lcg_draw(lcg_next(old(rng).state), 2000) + 1000)
                    &&& cadd(cw, 1000) <= bb.x <= cadd(cw, 3000)
                } else {
                    final(self).billboards@ == s
                }
            }),
            final(rng).state == rng_after_billboard_stage(
                old(self).billboards@,
                old(self).spawn_timer,
                old(self).canvas_width as int,
                old(rng).state,
            ),
    {
        if self.spawn_timer % 600 == 300 {
            let gate: u32 = rng.next_below(100);
            if gate < 40 {
                let offset: u32 = rng.next_below(2000);
                let spawn_x: i32 = coord_clip(
                    self.canvas_width as i64 + offset as i64 + 1000,
                );
                if billboard_spawn_allowed(&self.billboards, spawn_x) {
                    let b = Billboard::new(spawn_x, rng);
                    self.billboards.push(b);
                }
            }
        }
    }

    /// Advance the spawn timer and run the independent periodic gates for
    /// right-moving traffic (occasionally a chase pair), left-moving
    /// traffic, and rare three-vehicle convoys.
    #[verifier::rlimit(50)]
    fn spawn_traffic_if_needed(&mut self, rng: &mut GameRng)
        ensures
            *final(self) == (BackgroundManager {
                traffic_vehicles: final(self).traffic_vehicles,
                spawn_timer: spec_timer_next(old(self).spawn_timer),
                ..*old(self)
            }),
            ({
                let s = old(self).traffic_vehicles@;
                &&& s.len() <= final(self).traffic_vehicles@.len() <= s.len() + 6
                &&& final(self).traffic_vehicles@.subrange(0, s.len() as int) == s
                &&& forall|j: int|
                    s.len() <= j < final(self).traffic_vehicles@.len() ==> traffic_spawn_ok(
                        #[trigger] final(self).traffic_vehicles@[j],
                        old(self).canvas_width as int,
                    )
            }),
            final(self).traffic_vehicles@.len() == old(self).traffic_vehicles@.len()
                + spec_traffic_spawn_count(spec_timer_next(old(self).spawn_timer), old(rng).state),
            ({
                let t = spec_timer_next(old(self).spawn_timer);
                t % 90 != 0 && t % 80 != 40 && t % 300 != 0 ==> final(self).traffic_vehicles@
                    == old(self).traffic_vehicles@ && *final(rng) == *old(rng)
            }),
    {
        if self.spawn_timer >= 3599 {
            self.spawn_timer = 0;
        } else {
            self.spawn_timer = self.spawn_timer + 1;
        }

        if self.spawn_timer % 90 == 0 {
            let gate: u32 = rng.next_below(100);
            if gate < 80 {
                let pair_gate: u32 = rng.next_below(100);
                if pair_gate < 3 {
                    let (target, police) = BackgroundVehicle::new_chase_pair(-500, rng);
                    assert(traffic_spawn_ok(target, old(self).canvas_width as int));
                    assert(traffic_spawn_ok(police, old(self).canvas_width as int));
                    self.traffic_vehicles.push(target);
                    self.traffic_vehicles.push(police);
                } else {
                    let v = BackgroundVehicle::new_right_moving(-500, rng);
                    assert(traffic_spawn_ok(v, old(self).canvas_width as int));
                    self.traffic_vehicles.push(v);
                }
                proof {
                    assert(self.traffic_vehicles@.subrange(
                        0,
                        old(self).traffic_vehicles@.len() as int,
                    ) =~= old(self).traffic_vehicles@);
                }
            }
        }

        if self.spawn_timer % 80 == 40 {
            let gate: u32 = rng.next_below(100);
            if gate < 75 {
                let x: i32 = coord_clip(self.canvas_width as i64 + 500);
                let v = BackgroundVehicle::new_left_moving(x, rng);
                assert(traffic_spawn_ok(v, old(self).canvas_width as int));
                self.traffic_vehicles.push(v);
                proof {
                    assert(self.traffic_vehicles@.subrange(
                        0,
                        old(self).traffic_vehicles@.len() as int,
                    ) =~= old(self).traffic_vehicles@);
                }
            }
        }

        if self.spawn_timer % 300 == 0 {
            let gate: u32 = rng.next_below(100);
            if gate < 30 {
                let ghost base_len = self.traffic_vehicles@.len();
                let mut i: u32 = 0;
                while i < 3
                    invariant
                        i <= 3,
                        *self == (BackgroundManager {
                            traffic_vehicles: self.traffic_vehicles,
                            spawn_timer: spec_timer_next(old(self).spawn_timer),
                            ..*old(self)
                        }),
                        old(self).traffic_vehicles@.len() <= base_len,
                        self.traffic_vehicles@.len() == base_len + i,
                        self.traffic_vehicles@.subrange(
                            0,
                            old(self).traffic_vehicles@.len() as int,
                        ) == old(self).traffic_vehicles@,
                        forall|j: int|
                            old(self).traffic_vehicles@.len() <= j
                                < self.traffic_vehicles@.len() ==> traffic_spawn_ok(
                                #[trigger] self.traffic_vehicles@[j],
                                old(self).canvas_width as int,
                            ),
                    decreases 3 - i,
                {
                    let ghost prev = self.traffic_vehicles@;
                    spawn_convoy_vehicle(&mut self.traffic_vehicles, self.canvas_width, i, rng);
                    proof {
                        let s = old(self).traffic_vehicles@;
                        assert(self.traffic_vehicles@.subrange(0, s.len() as int) =~= s);
                        assert forall|j: int|
                            s.len() <= j < self.traffic_vehicles@.len() implies traffic_spawn_ok(
                            #[trigger] self.traffic_vehicles@[j],
                            old(self).canvas_width as int,
                        ) by {
                            if j < prev.len() {
                                assert(self.traffic_vehicles@.subrange(0, prev.len() as int)[j]
                                    == self.traffic_vehicles@[j]);
                            } else {
                                assert(self.traffic_vehicles@[j] == self.traffic_vehicles@.last());
                            }
                        }
                    }
                    i = i + 1;
                }
            }
        }
    }
}

} // verus!
