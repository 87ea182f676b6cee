//! Stateless collision tests and responses between the player and
//! obstacles, and the terminal-state check.

use vstd::prelude::*;
use crate::entities::{Player, Obstacle};
use crate::entities::{spec_bounce_up, spec_bounce_down, spec_bounce_left, spec_bounce_right};

verus! {

/// Cumulative damage above which the game ends, in quarter points
/// (9.0 points).
pub const DAMAGE_LIMIT: u32 = 36;

/// Axis-aligned overlap between player and obstacle.  The player's right
/// edge carries a fixed 2-unit forgiveness inset (20 tenths), deliberately
/// biasing against glancing hits on the obstacle's left side.
pub open spec fn spec_collides(p: Player, o: Obstacle) -> bool {
    &&& p.y + p.height > o.y
    &&& p.y < o.y + o.height
    &&& p.x < o.x + o.width
    &&& p.width + p.x - 20 > o.x
}

/// The one directional response chosen by strict relative position: an
/// obstacle strictly below bounces the player up, strictly above bounces it
/// down, strictly to the right throws it left, strictly to the left pushes
/// it right.  Exact row and column ties produce no response.
pub open spec fn spec_handle(p: Player, o: Obstacle) -> Player {
    if p.y < o.y {
        spec_bounce_up(p, o)
    } else if p.y > o.y {
        spec_bounce_down(p, o)
    } else if p.x < o.x {
        spec_bounce_left(p, o)
    } else if p.x > o.x {
        spec_bounce_right(p, o)
    } else {
        p
    }
}

/// Terminal condition: the player fell below the canvas, its horizontal
/// centre left the canvas bounds (written symmetrically around
/// `cw - p.x - p.width / 2`, as the course scrolls right to left), or its
/// cumulative damage exceeds the fixed threshold.
pub open spec fn spec_game_over(p: Player, cw: int, ch: int) -> bool {
    ||| p.y > ch
    ||| cw - p.x - p.width / 2 > cw
    ||| cw - p.x - p.width / 2 < 0
    ||| p.damage > DAMAGE_LIMIT
}

/// Stateless physics rules.
pub struct Physics;

impl Physics {
    /// Overlap test between the player and an obstacle.
    pub fn check_collision(player: &Player, obstacle: &Obstacle) -> (r: bool)
        ensures
            r == spec_collides(*player, *obstacle),
    {
        let below_the_top = player.y as i64 + player.height as i64 > obstacle.y as i64;
        let above_the_bottom = (player.y as i64) < obstacle.y as i64 + obstacle.height as i64;
        let to_the_left_of_right = (player.x as i64) < obstacle.x as i64 + obstacle.width as i64;
        let to_the_right_of_left = player.width as i64 + player.x as i64 - 20 > obstacle.x as i64;

        below_the_top && above_the_bottom && to_the_left_of_right && to_the_right_of_left
    }

    /// Apply the single directional bounce for this obstacle, if any.
    pub fn handle_collision(player: &mut Player, obstacle: &Obstacle)
        ensures
            *final(player) == spec_handle(*old(player), *obstacle),
    {
        if player.y < obstacle.y {
            player.bounce_up(obstacle);
        } else if player.y > obstacle.y {
            player.bounce_down(obstacle);
        } else if player.x < obstacle.x {
            player.bounce_left(obstacle);
        } else if player.x > obstacle.x {
            player.bounce_right(obstacle);
        }
    }

    /// Whether the run is over for this player on a canvas of the given size.
    pub fn check_game_over(player: &Player, canvas_width: i32, canvas_height: i32) -> (r: bool)
        ensures
            r == spec_game_over(*player, canvas_width as int, canvas_height as int),
    {
        if player.y as i64 > canvas_height as i64 {
            return true;
        }

        let w: i64 = player.width as i64;
        let half: i64 = if w >= 0 {
            w / 2
        } else {
            -((-w + 1) / 2)
        };
        let centre_gap: i64 = canvas_width as i64 - player.x as i64 - half;
        if centre_gap > canvas_width as i64 || centre_gap < 0 {
            return true;
        }

        if player.damage > DAMAGE_LIMIT {
            return true;
        }

        false
    }
}

} // verus!
