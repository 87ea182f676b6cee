//! Deterministic simulation core of a side-scrolling arcade game.
//!
//! One `GameState::update` call advances exactly one logical tick: the
//! layered background (parallax buildings, autonomous traffic with
//! avoidance, billboards) moves, the player moves from the buffered input,
//! obstacles advance and are culled, collision passes run in a fixed order,
//! the terminal condition is checked, the score accrues, and new obstacles
//! spawn.
//!
//! All quantities are fixed-point integers: positions, sizes and speeds are
//! held in tenths of a game unit, damage and the damage threshold in quarter
//! points.  Randomness comes from a seedable generator owned by the state,
//! so a run is reproducible from its seed.

pub mod units;
pub mod rng;
pub mod entities;
pub mod physics;
pub mod background;
pub mod game_state;
pub mod laws;
