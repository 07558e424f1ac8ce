//! A turn-based territory-control game engine on a fixed square grid.
//!
//! Two factions each start with one walled-in city; cities accumulate
//! resources, raise their production and combat levels, destroy obstacles,
//! found new cities and attack each other. This crate holds the verified
//! core: the grid and entity data model, the per-city economic and combat
//! formulas, action validation and application, randomized map generation,
//! and the turn state machine. Terminal rendering and input decoding live
//! outside the engine.

use vstd::prelude::*;

mod city;
mod difficulty;
mod engine;
mod enums;
mod mapgen;
mod rng;
mod structs;
mod turn;

pub use enums::{
    CityState, GameAction, GameActionSkeleton, GameDifficulty, GameError, GameState, InputOutcome,
    RawCommand, StatusNote,
};
pub use city::{lemma_power_pure, lemma_produce_deterministic, lemma_produce_monotonic, sat_add_u32};
pub use engine::{
    action_source, action_target, spec_action_effect, spec_charged, spec_destroyed,
    lemma_no_city_at_source_rejected, roll_in_range, spec_attack_outcome, spec_founded_city,
    spec_replace_city, spec_validate, spec_validate_targeted_prefix,
    CITY_FOUND_COST, RUIN_CLEANUP_COST, WALL_DESTROY_COST,
};
pub use mapgen::{spec_starting_enemy_city, spec_starting_player_city};
pub use structs::{
    cell_index, count_with_state, in_bounds, lemma_count_none, lemma_count_single,
    lemma_count_take_succ, Cell, City, Game, TerminalPos,
};
pub use turn::{
    computer_turn, player_interact, player_turn, spec_action_from_parts, spec_cursor_after,
    spec_input_outcome, spec_interact_result, spec_interact_status, spec_outcome,
};

verus! {

/// Side length of the square grid.
pub const GRID_SIZE: usize = 10;

} // verus!
