//! Laws that relate several functions of the library.

use vstd::prelude::*;
use crate::units::{cadd, sadd};
use crate::entities::{Player, Obstacle};
use crate::physics::spec_collides;
use crate::game_state::{GameState, is_fresh_state, spec_obstacle_hit_step};

verus! {

/// A state rebuilt by `reset` and a freshly constructed state agree on
/// every field that does not come from the random generator: the player,
/// score, multiplier, timers, flags, input, canvas dimensions, and the
/// sizes of the freshly seeded populations.  Only the randomly drawn
/// variants, positions and speeds inside the populations may differ.
pub proof fn lemma_fresh_states_agree(a: GameState, b: GameState)
    requires
        is_fresh_state(a),
        is_fresh_state(b),
    ensures
        a.player == b.player,
        a.score == b.score,
        a.score_multiplier == b.score_multiplier,
        a.timer == b.timer,
        a.game_over == b.game_over,
        a.paused == b.paused,
        a.input == b.input,
        a.canvas_width == b.canvas_width,
        a.canvas_height == b.canvas_height,
        a.obstacle_spawn_timer == b.obstacle_spawn_timer,
        a.background.far_building_offset == b.background.far_building_offset,
        a.background.spawn_timer == b.background.spawn_timer,
        a.background.canvas_width == b.background.canvas_width,
        a.background.traffic_vehicles@.len() == b.background.traffic_vehicles@.len(),
        a.background.far_buildings@.len() == b.background.far_buildings@.len(),
        a.background.billboards@.len() == b.background.billboards@.len(),
        a.obstacles@.len() == b.obstacles@.len(),
{
}

/// The collision response is a pure function of relative position: a
/// player strictly above a contacting obstacle takes exactly the upward
/// bounce — the fixed displacement of 10 units up and a quarter of the
/// obstacle's damage — and nothing else, once for that obstacle.
pub proof fn lemma_bounce_up_response(p: Player, o: Obstacle)
    requires
        spec_collides(p, o),
        p.y < o.y,
    ensures
        spec_obstacle_hit_step(p, o) == (Player {
            y: cadd(p.y as int, -100) as i32,
            damage: sadd(p.damage, o.damage / 4),
            ..p
        }),
{
}

} // verus!
