//! The per-tick orchestrator.
//!
//! `GameState::update` advances one tick in a fixed order: background,
//! player movement from the buffered input, obstacle advance and culling,
//! the static-obstacle collision pass (every contacting obstacle responds,
//! so simultaneous hits compound), the traffic and billboard passes (one
//! resolution per tick each, gated by the player's collision cooldown),
//! the terminal check, score accrual, and the obstacle spawn check.

use vstd::prelude::*;
use crate::units::{cadd, clip, sadd, sdouble, coord_add, coord_clip, sat_add, sat_double,
    floor_div};
use crate::rng::{GameRng, lcg_next, lcg_draw};
use crate::entities::{Player, Obstacle, ObstacleType, InputState, spec_player_step,
    COLLISION_COOLDOWN_TICKS, obstacle_dims};
use crate::physics::{Physics, spec_collides, spec_handle, spec_game_over};
use crate::background::{BackgroundManager, BackgroundVehicle, Billboard, spec_vehicle_collides,
    manager_bounded, is_fresh_manager, spec_manager_step};

verus! {

broadcast use crate::rng::lemma_lcg_draw_bound;

/// Canvas width in tenths of a unit (900.0 units).
pub const CANVAS_WIDTH: i32 = 9000;

/// Canvas height in tenths of a unit (330.0 units).
pub const CANVAS_HEIGHT: i32 = 3300;

/// Seed used by the plain constructor; any run can be reproduced by
/// constructing with the same seed.
pub const DEFAULT_SEED: u64 = 0x853c49e6748fea9b;

/// An obstacle still inside the visible region's trailing margin of 100
/// units on the left.
pub open spec fn spec_obstacle_kept(o: Obstacle) -> bool {
    o.x + o.width > -1000
}

/// An obstacle after its fixed leftward advance of 2 units per tick.
pub open spec fn moved_obstacle(o: Obstacle) -> Obstacle {
    Obstacle { x: cadd(o.x as int, -20) as i32, ..o }
}

/// The obstacles that survive the cull.
pub open spec fn live_obstacles(s: Seq<Obstacle>) -> Seq<Obstacle> {
    s.filter(|o: Obstacle| spec_obstacle_kept(o))
}

/// The obstacle variant selected by a draw below 100: equal thirds of
/// wide towers, tall towers and building tops.
pub open spec fn obstacle_type_of(d: u32) -> ObstacleType {
    if d <= 33 {
        ObstacleType::WideTower
    } else if d <= 66 {
        ObstacleType::TallTower
    } else {
        ObstacleType::BuildingTop
    }
}

/// The response to one obstacle in the static collision pass: the single
/// directional bounce if the boxes overlap, nothing otherwise.
pub open spec fn spec_obstacle_hit_step(p: Player, o: Obstacle) -> Player {
    if spec_collides(p, o) {
        spec_handle(p, o)
    } else {
        p
    }
}

/// The static-obstacle pass from index `i` on: every contacting obstacle
/// responds in order, with no early exit.
pub open spec fn collide_from(p: Player, obs: Seq<Obstacle>, i: int) -> Player
    decreases obs.len() - i,
{
    if 0 <= i < obs.len() {
        collide_from(spec_obstacle_hit_step(p, obs[i]), obs, i + 1)
    } else {
        p
    }
}

/// The response to a traffic vehicle: its full damage, a fresh collision
/// cooldown, and a directional push chosen by strict relative position.
pub open spec fn spec_traffic_respond(p: Player, v: BackgroundVehicle) -> Player {
    let p1 = Player {
        damage: sadd(p.damage, v.damage),
        collision_cooldown: COLLISION_COOLDOWN_TICKS,
        ..p
    };
    if p.y < v.y {
        Player { y: cadd(p1.y as int, -100) as i32, ..p1 }
    } else if p.y > v.y {
        Player { y: cadd(p1.y as int, 50) as i32, x: cadd(p1.x as int, -150) as i32, ..p1 }
    } else if p.x < v.x {
        Player { x: cadd(p1.x as int, -250) as i32, ..p1 }
    } else if p.x > v.x {
        Player { x: cadd(p1.x as int, 100) as i32, ..p1 }
    } else {
        p1
    }
}

/// The traffic pass from index `i` on: only the first contacting vehicle
/// responds, so one tick cannot chain traffic damage.
pub open spec fn traffic_pass(p: Player, vs: Seq<BackgroundVehicle>, i: int) -> Player
    decreases vs.len() - i,
{
    if 0 <= i < vs.len() {
        if spec_vehicle_collides(vs[i], p.x as int, p.y as int, p.width as int, p.height as int) {
            spec_traffic_respond(p, vs[i])
        } else {
            traffic_pass(p, vs, i + 1)
        }
    } else {
        p
    }
}

/// Overlap between the player and a billboard, with the same 2-unit
/// forgiveness inset as the obstacle test.
pub open spec fn spec_billboard_hits(p: Player, b: Billboard) -> bool {
    &&& p.y + p.height > b.y
    &&& p.y < b.y + b.height
    &&& p.x < b.x + b.width
    &&& p.width + p.x - 20 > b.x
}

/// The response to a billboard: 5.0 points of damage, a fresh cooldown, a
/// horizontal push away from the billboard's centre, and a push down,
/// since billboards hang from the top.
pub open spec fn spec_billboard_respond(p: Player, b: Billboard) -> Player {
    let p1 = Player { damage: sadd(p.damage, 20), collision_cooldown: COLLISION_COOLDOWN_TICKS, ..p };
    let p2 = if p.x < b.x + b.width / 2 {
        Player { x: cadd(p1.x as int, -200) as i32, ..p1 }
    } else {
        Player { x: cadd(p1.x as int, 200) as i32, ..p1 }
    };
    Player { y: cadd(p2.y as int, 150) as i32, ..p2 }
}

/// The billboard pass from index `i` on: only the first contacting
/// billboard responds.
pub open spec fn billboard_pass(p: Player, bs: Seq<Billboard>, i: int) -> Player
    decreases bs.len() - i,
{
    if 0 <= i < bs.len() {
        if spec_billboard_hits(p, bs[i]) {
            spec_billboard_respond(p, bs[i])
        } else {
            billboard_pass(p, bs, i + 1)
        }
    } else {
        p
    }
}

/// One tick of score accrual: the multiplier doubles exactly when the
/// internal timer reaches its fixed boundary, the score grows by the
/// (new) multiplier, and the timer advances.
pub open spec fn spec_score_step(score: u32, mult: u32, timer: u32) -> (u32, u32, u32) {
    let m1 = if timer == 1000 {
        sdouble(mult)
    } else {
        mult
    };
    let t0: u32 = if timer == 1000 {
        0u32
    } else {
        timer
    };
    (sadd(score, m1), m1, sadd(t0, 1))
}

/// An obstacle as the initial course run leaves it: one of the three
/// tower variants with its fixed dimensions, placed at or beyond the
/// right edge of the default canvas.
pub open spec fn initial_obstacle_ok(o: Obstacle) -> bool {
    &&& (o.obstacle_type is WideTower || o.obstacle_type is TallTower
        || o.obstacle_type is BuildingTop)
    &&& o.y as int == obstacle_dims(o.obstacle_type).0
    &&& o.width as int == obstacle_dims(o.obstacle_type).1
    &&& o.height as int == obstacle_dims(o.obstacle_type).2
    &&& o.damage == obstacle_dims(o.obstacle_type).3
    &&& o.x >= CANVAS_WIDTH
}

/// The right edge of the rightmost of the first `i` obstacles; zero when
/// there are none, matching the fold the spawner computes.
pub open spec fn spec_rightmost_edge(s: Seq<Obstacle>, i: int) -> int
    decreases i,
{
    if i <= 0 {
        0int
    } else {
        let e = s[i - 1].x + s[i - 1].width;
        let r = spec_rightmost_edge(s, i - 1);
        if e > r {
            e
        } else {
            r
        }
    }
}

/// Where a new obstacle run begins: at the right edge of the canvas, or
/// behind the rightmost obstacle when the course already extends past it,
/// so a spawn never lands on top of the existing course.
pub open spec fn spec_spawn_base(s: Seq<Obstacle>, cw: int) -> int {
    if s.len() > 0 && spec_rightmost_edge(s, s.len() as int) > cw {
        spec_rightmost_edge(s, s.len() as int)
    } else {
        cw
    }
}

/// An obstacle as the periodic spawn leaves it, on a canvas of width `cw`.
pub open spec fn spawned_obstacle_ok(o: Obstacle, cw: int) -> bool {
    &&& (o.obstacle_type is WideTower || o.obstacle_type is TallTower
        || o.obstacle_type is BuildingTop)
    &&& o.y as int == obstacle_dims(o.obstacle_type).0
    &&& o.width as int == obstacle_dims(o.obstacle_type).1
    &&& o.height as int == obstacle_dims(o.obstacle_type).2
    &&& o.damage == obstacle_dims(o.obstacle_type).3
    &&& o.x >= clip(cw)
}

/// A state as construction and reset leave it: the player at the default
/// spawn, score and damage cleared, flags down, a fresh background, and
/// an initial run of ten tower obstacles beyond the right edge.
pub open spec fn is_fresh_state(s: GameState) -> bool {
    &&& s.player == (Player {
        x: 750,
        y: 1100,
        width: 400,
        height: 200,
        damage: 0,
        velocity_x: 0,
        velocity_y: 0,
        collision_cooldown: 0,
    })
    &&& s.score == 0
    &&& s.score_multiplier == 2
    &&& s.timer == 0
    &&& !s.game_over
    &&& !s.paused
    &&& s.input == (InputState { right: false, left: false, up: false, down: false })
    &&& s.canvas_width == CANVAS_WIDTH
    &&& s.canvas_height == CANVAS_HEIGHT
    &&& s.obstacle_spawn_timer == 100
    &&& is_fresh_manager(s.background, CANVAS_WIDTH)
    &&& s.obstacles@.len() == 10
    &&& forall|i: int| 0 <= i < s.obstacles@.len() ==> initial_obstacle_ok(#[trigger] s.obstacles@[i])
}

/// All populations inside their trailing-side bounds.
pub open spec fn state_populations_bounded(s: GameState) -> bool {
    &&& forall|i: int| 0 <= i < s.obstacles@.len() ==> spec_obstacle_kept(#[trigger] s.obstacles@[i])
    &&& manager_bounded(s.background)
}

/// The input state after a `set_input` call with direction `d`: a
/// recognized direction sets or clears its flag, anything else is
/// silently ignored.
pub open spec fn spec_set_input(inp: InputState, d: Seq<char>, pressed: bool) -> InputState {
    if d == seq!['r', 'i', 'g', 'h', 't'] {
        InputState { right: pressed, ..inp }
    } else if d == seq!['l', 'e', 'f', 't'] {
        InputState { left: pressed, ..inp }
    } else if d == seq!['u', 'p'] {
        InputState { up: pressed, ..inp }
    } else if d == seq!['d', 'o', 'w', 'n'] {
        InputState { down: pressed, ..inp }
    } else {
        inp
    }
}

/// `live_obstacles` follows a push: the pushed obstacle is kept exactly
/// when it is still inside the trailing margin.
proof fn lemma_live_obstacles_push(s: Seq<Obstacle>, o: Obstacle)
    ensures
        live_obstacles(s.push(o)) == if spec_obstacle_kept(o) {
            live_obstacles(s).push(o)
        } else {
            live_obstacles(s)
        },
{
    reveal(Seq::filter);
    assert(s.push(o).drop_last() =~= s);
    assert(s.push(o).last() == o);
}

/// The static-obstacle pass never decreases cumulative damage.
pub proof fn lemma_collide_from_damage(p: Player, obs: Seq<Obstacle>, i: int)
    ensures
        collide_from(p, obs, i).damage >= p.damage,
    decreases obs.len() - i,
{
    if 0 <= i < obs.len() {
        lemma_collide_from_damage(spec_obstacle_hit_step(p, obs[i]), obs, i + 1);
    }
}

/// The traffic pass never decreases cumulative damage.
pub proof fn lemma_traffic_pass_damage(p: Player, vs: Seq<BackgroundVehicle>, i: int)
    ensures
        traffic_pass(p, vs, i).damage >= p.damage,
    decreases vs.len() - i,
{
    if 0 <= i < vs.len() {
        if !spec_vehicle_collides(vs[i], p.x as int, p.y as int, p.width as int, p.height as int) {
            lemma_traffic_pass_damage(p, vs, i + 1);
        }
    }
}

/// The billboard pass never decreases cumulative damage.
pub proof fn lemma_billboard_pass_damage(p: Player, bs: Seq<Billboard>, i: int)
    ensures
        billboard_pass(p, bs, i).damage >= p.damage,
    decreases bs.len() - i,
{
    if 0 <= i < bs.len() {
        if !spec_billboard_hits(p, bs[i]) {
            lemma_billboard_pass_damage(p, bs, i + 1);
        }
    }
}

/// Advance every obstacle left by the fixed course speed.
fn advance_obstacles(obstacles: &mut Vec<Obstacle>)
    ensures
        final(obstacles)@ == old(obstacles)@.map_values(|o: Obstacle| moved_obstacle(o)),
{
    let mut i: usize = 0;
    while i < obstacles.len()
        invariant
            i <= obstacles.len(),
            obstacles@.len() == old(obstacles)@.len(),
            forall|j: int| 0 <= j < i ==> obstacles@[j] == moved_obstacle(#[trigger] old(
                obstacles,
            )@[j]),
            forall|j: int| i <= j < obstacles@.len() ==> obstacles@[j] == #[trigger] old(
                obstacles,
            )@[j],
        decreases obstacles.len() - i,
    {
        let mut o = obstacles[i];
        o.x = coord_add(o.x, -20);
        obstacles[i] = o;
        i = i + 1;
    }
    proof {
        assert(obstacles@ =~= old(obstacles)@.map_values(|o: Obstacle| moved_obstacle(o)));
    }
}

/// Remove the obstacles that have fully left past the trailing margin.
fn cull_obstacles(obstacles: &mut Vec<Obstacle>)
    ensures
        final(obstacles)@ == live_obstacles(old(obstacles)@),
        forall|i: int|
            0 <= i < final(obstacles)@.len() ==> spec_obstacle_kept(#[trigger] final(obstacles)@[i]),
{
    let mut kept: Vec<Obstacle> = Vec::new();
    let mut i: usize = 0;
    while i < obstacles.len()
        invariant
            i <= obstacles.len(),
            *obstacles == *old(obstacles),
            kept@ == live_obstacles(obstacles@.subrange(0, i as int)),
            forall|j: int| 0 <= j < kept@.len() ==> spec_obstacle_kept(#[trigger] kept@[j]),
        decreases obstacles.len() - i,
    {
        let o = obstacles[i];
        if o.x as i64 + o.width as i64 > -1000 {
            kept.push(o);
        }
        proof {
            assert(obstacles@.subrange(0, i + 1 as int) =~= obstacles@.subrange(0, i as int).push(
                obstacles@[i as int],
            ));
            lemma_live_obstacles_push(obstacles@.subrange(0, i as int), obstacles@[i as int]);
        }
        i = i + 1;
    }
    proof {
        assert(obstacles@.subrange(0, obstacles@.len() as int) =~= obstacles@);
    }
    *obstacles = kept;
}

/// The top-level game state: one `update` call is one tick.
#[derive(Clone, Debug, PartialEq)]
pub struct GameState {
    pub player: Player,
    pub obstacles: Vec<Obstacle>,
    pub background: BackgroundManager,
    pub score: u32,
    /// Score gained per tick; only ever doubles, at the fixed boundary.
    pub score_multiplier: u32,
    /// Internal tick timer for the multiplier boundary.
    pub timer: u32,
    pub game_over: bool,
    pub paused: bool,
    pub input: InputState,
    pub canvas_width: i32,
    pub canvas_height: i32,
    /// Ticks until the next obstacle spawn; reseeded from a random range.
    pub obstacle_spawn_timer: u32,
    /// The seedable generator behind every randomized choice.
    pub rng: GameRng,
}

impl GameState {
    /// A fresh state from the default seed.
    pub fn new() -> (r: GameState)
        ensures
            is_fresh_state(r),
    {
        GameState::new_seeded(DEFAULT_SEED)
    }

    /// A fresh state whose whole run is reproducible from `seed`.
    pub fn new_seeded(seed: u64) -> (r: GameState)
        ensures
            is_fresh_state(r),
    {
        let rng = GameRng::new(seed);
        GameState::fresh_with_rng(rng)
    }

    /// Build a fresh state drawing its random populations from `rng`.
    fn fresh_with_rng(rng: GameRng) -> (r: GameState)
        ensures
            is_fresh_state(r),
    {
        let mut rng = rng;
        let background = BackgroundManager::new(CANVAS_WIDTH, &mut rng);
        let mut state = GameState {
            player: Player::new(),
            obstacles: Vec::new(),
            background,
            score: 0,
            score_multiplier: 2,
            timer: 0,
            game_over: false,
            paused: false,
            input: InputState::new(),
            canvas_width: CANVAS_WIDTH,
            canvas_height: CANVAS_HEIGHT,
            obstacle_spawn_timer: 100,
            rng,
        };
        state.generate_initial_obstacles();
        state
    }

    /// Seed the course with ten obstacles, spaced randomly rightward from
    /// the right edge of the canvas.
    fn generate_initial_obstacles(&mut self)
        requires
            old(self).canvas_width == CANVAS_WIDTH,
            old(self).obstacles@.len() == 0,
        ensures
            *final(self) == (GameState {
                obstacles: final(self).obstacles,
                rng: final(self).rng,
                ..*old(self)
            }),
            final(self).obstacles@.len() == 10,
            forall|i: int|
                0 <= i < final(self).obstacles@.len() ==> initial_obstacle_ok(
                    #[trigger] final(self).obstacles@[i],
                ),
    {
        let mut spawn_x: i64 = CANVAS_WIDTH as i64;
        let mut i: usize = 0;
        while i < 10
            invariant
                i <= 10,
                *self == (GameState {
                    obstacles: self.obstacles,
                    rng: self.rng,
                    ..*old(self)
                }),
                self.obstacles@.len() == i,
                CANVAS_WIDTH as i64 <= spawn_x <= 0x10_0000_0000,
                forall|j: int|
                    0 <= j < i ==> initial_obstacle_ok(#[trigger] self.obstacles@[j]),
            decreases 10 - i,
        {
            let ob = GameState::random_obstacle(spawn_x, &mut self.rng);
            match ob {
                Some(o) => {
                    let gap: u32 = self.rng.next_below(1000);
                    let next_x: i64 = spawn_x + o.width as i64 + gap as i64 + 500;
                    spawn_x = if next_x > 0x10_0000_0000 {
                        0x10_0000_0000
                    } else {
                        next_x
                    };
                    self.obstacles.push(o);
                },
                None => {},
            }
            i = i + 1;
        }
    }

    /// Pick a random tower obstacle near `spawn_x`.  The draw bands cover
    /// the whole range, so this always spawns; the fallback arm mirrors
    /// the out-of-band case of the weighted draw.
    fn random_obstacle(spawn_x: i64, rng: &mut GameRng) -> (r: Option<Obstacle>)
        requires
            -0x10_0000_0000 <= spawn_x <= 0x10_0000_0000,
        ensures
            r is Some,
            ({
                let o = r.unwrap();
                let t = obstacle_type_of(lcg_draw(old(rng).state, 100));
                &&& o.obstacle_type == t
                &&& o.y as int == obstacle_dims(t).0
                &&& o.width as int == obstacle_dims(t).1
                &&& o.height as int == obstacle_dims(t).2
                &&& o.damage == obstacle_dims(t).3
                &&& o.x as int == clip(spawn_x + lcg_draw(lcg_next(old(rng).state), 2000))
                &&& final(rng).state == lcg_next(lcg_next(old(rng).state))
            }),
    {
        let rand_val: u32 = rng.next_below(100);
        let obstacle_type = if rand_val <= 33 {
            ObstacleType::WideTower
        } else if rand_val <= 66 {
            ObstacleType::TallTower
        } else {
            ObstacleType::BuildingTop
        };

        let offset: u32 = rng.next_below(2000);
        let x: i32 = coord_clip(spawn_x + offset as i64);
        Some(Obstacle::new(obstacle_type, x, rng))
    }

    /// One tick.  Does nothing at all when the game is over or paused;
    /// otherwise runs the fixed phase pipeline.
    pub fn update(&mut self)
        ensures
            old(self).game_over || old(self).paused ==> *final(self) == *old(self),
            final(self).paused == old(self).paused,
            final(self).input == old(self).input,
            final(self).canvas_width == old(self).canvas_width,
            final(self).canvas_height == old(self).canvas_height,
            final(self).player.damage >= old(self).player.damage,
            final(self).score >= old(self).score,
            final(self).score_multiplier >= old(self).score_multiplier,
            old(self).game_over ==> final(self).game_over,
            !old(self).game_over && !old(self).paused ==> ({
                let step = spec_score_step(
                    old(self).score,
                    old(self).score_multiplier,
                    old(self).timer,
                );
                &&& final(self).score == step.0
                &&& final(self).score_multiplier == step.1
                &&& final(self).timer == step.2
            }),
            !old(self).game_over && !old(self).paused ==> spec_manager_step(
                old(self).background,
                final(self).background,
                old(self).rng.state,
            ),
            !old(self).game_over && !old(self).paused ==> ({
                let p1 = spec_player_step(old(self).player, old(self).input);
                let obs = live_obstacles(
                    old(self).obstacles@.map_values(|o: Obstacle| moved_obstacle(o)),
                );
                let p2 = collide_from(p1, obs, 0);
                let p3 = if p2.collision_cooldown == 0 {
                    traffic_pass(p2, final(self).background.traffic_vehicles@, 0)
                } else {
                    p2
                };
                let p4 = if p3.collision_cooldown == 0 {
                    billboard_pass(p3, final(self).background.billboards@, 0)
                } else {
                    p3
                };
                &&& final(self).player == p4
                &&& final(self).game_over == spec_game_over(
                    p4,
                    old(self).canvas_width as int,
                    old(self).canvas_height as int,
                )
                &&& obs.len() <= final(self).obstacles@.len() <= obs.len() + 1
                &&& final(self).obstacles@.subrange(0, obs.len() as int) == obs
                &&& final(self).obstacle_spawn_timer >= 1
            }),
            !old(self).game_over && !old(self).paused && old(self).canvas_width >= 0 && old(
                self,
            ).background.canvas_width >= 0 ==> state_populations_bounded(*final(self)),
    {
        if self.game_over || self.paused {
            return ;
        }

        self.background.update(&mut self.rng);

        let input = self.input;
        self.player.update(&input);

        self.update_obstacles();
        self.check_collisions();
        self.check_traffic_collisions();
        self.check_billboard_collisions();

        if Physics::check_game_over(&self.player, self.canvas_width, self.canvas_height) {
            self.game_over = true;
        }

        self.update_score();
        self.spawn_obstacles();

        proof {
            lemma_collide_from_damage(
                spec_player_step(old(self).player, old(self).input),
                live_obstacles(old(self).obstacles@.map_values(|o: Obstacle| moved_obstacle(o))),
                0,
            );
            let p2 = collide_from(
                spec_player_step(old(self).player, old(self).input),
                live_obstacles(old(self).obstacles@.map_values(|o: Obstacle| moved_obstacle(o))),
                0,
            );
            if p2.collision_cooldown == 0 {
                lemma_traffic_pass_damage(p2, self.background.traffic_vehicles@, 0);
            }
            let p3 = if p2.collision_cooldown == 0 {
                traffic_pass(p2, self.background.traffic_vehicles@, 0)
            } else {
                p2
            };
            if p3.collision_cooldown == 0 {
                lemma_billboard_pass_damage(p3, self.background.billboards@, 0);
            }
            if old(self).canvas_width >= 0 && old(self).background.canvas_width >= 0 {
                let obs = live_obstacles(
                    old(self).obstacles@.map_values(|o: Obstacle| moved_obstacle(o)),
                );
                assert forall|i: int|
                    0 <= i < self.obstacles@.len() implies spec_obstacle_kept(
                    #[trigger] self.obstacles@[i],
                ) by {
                    if i < obs.len() {
                        assert(self.obstacles@.subrange(0, obs.len() as int)[i]
                            == self.obstacles@[i]);
                    } else {
                        assert(self.obstacles@[i] == self.obstacles@.last());
                        assert(spawned_obstacle_ok(
                            self.obstacles@.last(),
                            old(self).canvas_width as int,
                        ));
                    }
                }
            }
        }
    }

    /// Advance all obstacles leftward and cull those past the margin.
    pub fn update_obstacles(&mut self)
        ensures
            *final(self) == (GameState { obstacles: final(self).obstacles, ..*old(self) }),
            final(self).obstacles@ == live_obstacles(
                old(self).obstacles@.map_values(|o: Obstacle| moved_obstacle(o)),
            ),
            forall|i: int|
                0 <= i < final(self).obstacles@.len() ==> spec_obstacle_kept(
                    #[trigger] final(self).obstacles@[i],
                ),
    {
        advance_obstacles(&mut self.obstacles);
        cull_obstacles(&mut self.obstacles);
    }

    /// The static-obstacle collision pass: every contacting obstacle
    /// responds, in order, with no early exit.
    pub fn check_collisions(&mut self)
        ensures
            *final(self) == (GameState {
                player: collide_from(old(self).player, old(self).obstacles@, 0),
                ..*old(self)
            }),
    {
        let n: usize = self.obstacles.len();
        let mut i: usize = 0;
        while i < n
            invariant
                i <= n,
                n == self.obstacles@.len(),
                *self == (GameState { player: self.player, ..*old(self) }),
                collide_from(self.player, self.obstacles@, i as int) == collide_from(
                    old(self).player,
                    old(self).obstacles@,
                    0,
                ),
            decreases n - i,
        {
            let o = self.obstacles[i];
            if Physics::check_collision(&self.player, &o) {
                Physics::handle_collision(&mut self.player, &o);
            }
            i = i + 1;
        }
    }

    /// The traffic collision pass: skipped during the player's cooldown;
    /// otherwise the first contacting vehicle responds and the pass ends.
    pub fn check_traffic_collisions(&mut self)
        ensures
            *final(self) == (GameState {
                player: if old(self).player.collision_cooldown == 0 {
                    traffic_pass(old(self).player, old(self).background.traffic_vehicles@, 0)
                } else {
                    old(self).player
                },
                ..*old(self)
            }),
    {
        if !self.player.can_take_damage() {
            return ;
        }

        let n: usize = self.background.traffic_vehicles.len();
        let mut i: usize = 0;
        while i < n
            invariant
                i <= n,
                n == self.background.traffic_vehicles@.len(),
                *self == *old(self),
                old(self).player.collision_cooldown == 0,
                traffic_pass(self.player, self.background.traffic_vehicles@, i as int)
                    == traffic_pass(old(self).player, old(self).background.traffic_vehicles@, 0),
            decreases n - i,
        {
            let v = self.background.traffic_vehicles[i];
            if v.check_collision_with_player(
                self.player.x,
                self.player.y,
                self.player.width,
                self.player.height,
            ) {
                self.player.damage = sat_add(self.player.damage, v.damage);
                self.player.apply_collision_cooldown();

                if self.player.y < v.y {
                    self.player.y = coord_add(self.player.y, -100);
                } else if self.player.y > v.y {
                    self.player.y = coord_add(self.player.y, 50);
                    self.player.x = coord_add(self.player.x, -150);
                } else if self.player.x < v.x {
                    self.player.x = coord_add(self.player.x, -250);
                } else if self.player.x > v.x {
                    self.player.x = coord_add(self.player.x, 100);
                }
                return ;
            }
            i = i + 1;
        }
    }

    /// The billboard collision pass: skipped during the player's cooldown;
    /// otherwise the first contacting billboard responds and the pass ends.
    pub fn check_billboard_collisions(&mut self)
        ensures
            *final(self) == (GameState {
                player: if old(self).player.collision_cooldown == 0 {
                    billboard_pass(old(self).player, old(self).background.billboards@, 0)
                } else {
                    old(self).player
                },
                ..*old(self)
            }),
    {
        if !self.player.can_take_damage() {
            return ;
        }

        let n: usize = self.background.billboards.len();
        let mut i: usize = 0;
        while i < n
            invariant
                i <= n,
                n == self.background.billboards@.len(),
                *self == *old(self),
                old(self).player.collision_cooldown == 0,
                billboard_pass(self.player, self.background.billboards@, i as int)
                    == billboard_pass(old(self).player, old(self).background.billboards@, 0),
            decreases n - i,
        {
            let b = self.background.billboards[i];

            let below_the_top = self.player.y as i64 + self.player.height as i64 > b.y as i64;
            let above_the_bottom = (self.player.y as i64) < b.y as i64 + b.height as i64;
            let to_the_left_of_right = (self.player.x as i64) < b.x as i64 + b.width as i64;
            let to_the_right_of_left = self.player.width as i64 + self.player.x as i64 - 20
                > b.x as i64;

            if below_the_top && above_the_bottom && to_the_left_of_right && to_the_right_of_left {
                self.player.damage = sat_add(self.player.damage, 20);
                self.player.apply_collision_cooldown();

                let half: i64 = floor_div(b.width as i64, 2);
                if (self.player.x as i64) < b.x as i64 + half {
                    self.player.x = coord_add(self.player.x, -200);
                } else {
                    self.player.x = coord_add(self.player.x, 200);
                }

                self.player.y = coord_add(self.player.y, 150);
                return ;
            }
            i = i + 1;
        }
    }

    /// Accrue one tick of score and advance the multiplier timer.
    pub fn update_score(&mut self)
        ensures
            *final(self) == (GameState {
                score: spec_score_step(old(self).score, old(self).score_multiplier, old(self).timer).0,
                score_multiplier: spec_score_step(
                    old(self).score,
                    old(self).score_multiplier,
                    old(self).timer,
                ).1,
                timer: spec_score_step(old(self).score, old(self).score_multiplier, old(self).timer).2,
                ..*old(self)
            }),
    {
        if self.timer == 1000 {
            self.score_multiplier = sat_double(self.score_multiplier);
            self.timer = 0;
        }
        self.score = sat_add(self.score, self.score_multiplier);
        self.timer = sat_add(self.timer, 1);
    }

    /// Run the spawn countdown down; when it fires, spawn one random tower
    /// at the right edge or behind the rightmost obstacle, and reseed the
    /// countdown from a random range.
    pub fn spawn_obstacles(&mut self)
        ensures
            *final(self) == (GameState {
                obstacles: final(self).obstacles,
                obstacle_spawn_timer: final(self).obstacle_spawn_timer,
                rng: final(self).rng,
                ..*old(self)
            }),
            final(self).obstacle_spawn_timer >= 1,
            ({
                let t0: u32 = if old(self).obstacle_spawn_timer > 0 {
                    (old(self).obstacle_spawn_timer - 1) as u32
                } else {
                    0u32
                };
                if t0 == 0 {
                    let base = spec_spawn_base(old(self).obstacles@, old(self).canvas_width as int);
                    &&& final(self).obstacles@.len() == old(self).obstacles@.len() + 1
                    &&& final(self).obstacles@.subrange(0, old(self).obstacles@.len() as int)
                        == old(self).obstacles@
                    &&& spawned_obstacle_ok(
                        final(self).obstacles@.last(),
                        old(self).canvas_width as int,
                    )
                    &&& final(self).obstacles@.last().x as int == clip(
                        base + lcg_draw(lcg_next(old(self).rng.state), 2000),
                    )
                    &&& clip(base) <= final(self).obstacles@.last().x <= clip(base + 1999)
                    &&& final(self).obstacle_spawn_timer == lcg_draw(
                        lcg_next(lcg_next(old(self).rng.state)),
                        100,
                    ) + 50
                    &&& 50 <= final(self).obstacle_spawn_timer <= 149
                } else {
                    &&& final(self).obstacles@ == old(self).obstacles@
                    &&& final(self).obstacle_spawn_timer == t0
                    &&& final(self).rng == old(self).rng
                }
            }),
    {
        if self.obstacle_spawn_timer > 0 {
            self.obstacle_spawn_timer = self.obstacle_spawn_timer - 1;
        }

        if self.obstacle_spawn_timer == 0 {
            let mut spawn_x: i64 = self.canvas_width as i64;

            if self.obstacles.len() > 0 {
                let mut rightmost: i64 = 0;
                let n: usize = self.obstacles.len();
                let mut i: usize = 0;
                while i < n
                    invariant
                        i <= n,
                        n == self.obstacles@.len(),
                        -0x2_0000_0000 <= rightmost <= 0x2_0000_0000,
                        rightmost as int == spec_rightmost_edge(self.obstacles@, i as int),
                    decreases n - i,
                {
                    let o = self.obstacles[i];
                    let edge: i64 = o.x as i64 + o.width as i64;
                    if edge > rightmost {
                        rightmost = edge;
                    }
                    i = i + 1;
                }
                if rightmost > self.canvas_width as i64 {
                    spawn_x = rightmost;
                }
            }
            proof {
                assert(spawn_x as int == spec_spawn_base(
                    self.obstacles@,
                    self.canvas_width as int,
                ));
            }

            let ob = GameState::random_obstacle(spawn_x, &mut self.rng);
            match ob {
                Some(o) => {
                    self.obstacles.push(o);
                },
                None => {},
            }

            let wait: u32 = self.rng.next_below(100);
            self.obstacle_spawn_timer = wait + 50;
            proof {
                assert(self.obstacles@.subrange(0, old(self).obstacles@.len() as int)
                    =~= old(self).obstacles@);
            }
        }
    }

    /// Set or clear one directional input flag; unrecognized direction
    /// strings are silently ignored.
    pub fn set_input(&mut self, direction: &str, pressed: bool)
        ensures
            *final(self) == (GameState {
                input: spec_set_input(old(self).input, direction@, pressed),
                ..*old(self)
            }),
    {
        let len: usize = direction.unicode_len();
        if len == 5 {
            if direction.get_char(0) == 'r' && direction.get_char(1) == 'i' && direction.get_char(2)
                == 'g' && direction.get_char(3) == 'h' && direction.get_char(4) == 't' {
                proof {
                    assert(direction@ =~= seq!['r', 'i', 'g', 'h', 't']);
                }
                self.input.right = pressed;
            } else {
                proof {
                    assert(direction@ != seq!['r', 'i', 'g', 'h', 't']);
                    assert(direction@ != seq!['l', 'e', 'f', 't']);
                    assert(direction@ != seq!['u', 'p']);
                    assert(direction@ != seq!['d', 'o', 'w', 'n']);
                }
            }
        } else if len == 4 {
            if direction.get_char(0) == 'l' && direction.get_char(1) == 'e' && direction.get_char(2)
                == 'f' && direction.get_char(3) == 't' {
                proof {
                    assert(direction@ =~= seq!['l', 'e', 'f', 't']);
                }
                self.input.left = pressed;
            } else if direction.get_char(0) == 'd' && direction.get_char(1) == 'o'
                && direction.get_char(2) == 'w' && direction.get_char(3) == 'n' {
                proof {
                    assert(direction@ =~= seq!['d', 'o', 'w', 'n']);
                }
                self.input.down = pressed;
            } else {
                proof {
                    assert(direction@ != seq!['r', 'i', 'g', 'h', 't']);
                    assert(direction@ != seq!['l', 'e', 'f', 't']);
                    assert(direction@ != seq!['u', 'p']);
                    assert(direction@ != seq!['d', 'o', 'w', 'n']);
                }
            }
        } else if len == 2 {
            if direction.get_char(0) == 'u' && direction.get_char(1) == 'p' {
                proof {
                    assert(direction@ =~= seq!['u', 'p']);
                }
                self.input.up = pressed;
            } else {
                proof {
                    assert(direction@ != seq!['r', 'i', 'g', 'h', 't']);
                    assert(direction@ != seq!['l', 'e', 'f', 't']);
                    assert(direction@ != seq!['u', 'p']);
                    assert(direction@ != seq!['d', 'o', 'w', 'n']);
                }
            }
        } else {
            proof {
                assert(direction@ != seq!['r', 'i', 'g', 'h', 't']);
                assert(direction@ != seq!['l', 'e', 'f', 't']);
                assert(direction@ != seq!['u', 'p']);
                assert(direction@ != seq!['d', 'o', 'w', 'n']);
            }
        }
    }

    /// Discard everything and rebuild as freshly constructed, drawing new
    /// random populations from the generator as it stands.
    pub fn reset(&mut self)
        ensures
            is_fresh_state(*final(self)),
    {
        let rng = self.rng;
        *self = GameState::fresh_with_rng(rng);
    }

    /// Whether the run has ended.
    pub fn is_game_over(&self) -> (r: bool)
        ensures
            r == self.game_over,
    {
        self.game_over
    }

    /// The current score.
    pub fn get_score(&self) -> (r: u32)
        ensures
            r == self.score,
    {
        self.score
    }
}

} // verus!
