//! The four fixed difficulty tiers: pure lookups for the wall density and
//! the starting balance of each faction's first city.

use vstd::prelude::*;

use crate::enums::GameDifficulty;

verus! {

impl GameDifficulty {
    /// The chance, in percent, that map generation walls off a free cell.
    pub fn block_chance(self) -> (p: u32)
        ensures
            p == self.spec_block_chance(),
    {
        match self {
            GameDifficulty::Easy => 5,
            GameDifficulty::Standard => 10,
            GameDifficulty::Hard => 25,
            GameDifficulty::NotEvenRemotelyFair => 30,
        }
    }

    pub open spec fn spec_block_chance(self) -> u32 {
        match self {
            GameDifficulty::Easy => 5,
            GameDifficulty::Standard => 10,
            GameDifficulty::Hard => 25,
            GameDifficulty::NotEvenRemotelyFair => 30,
        }
    }

    /// The resource pool both starting cities begin with.
    pub fn starting_resources(self) -> (r: u32)
        ensures
            r == self.spec_starting_resources(),
    {
        match self {
            GameDifficulty::Easy => 10,
            GameDifficulty::Standard => 3,
            _ => 0,
        }
    }

    pub open spec fn spec_starting_resources(self) -> u32 {
        match self {
            GameDifficulty::Easy => 10,
            GameDifficulty::Standard => 3,
            _ => 0,
        }
    }

    /// The production and combat level the computer's starting city gets.
    pub fn starting_enemy_level(self) -> (l: u32)
        ensures
            l == self.spec_starting_enemy_level(),
    {
        match self {
            GameDifficulty::Hard => 2,
            GameDifficulty::NotEvenRemotelyFair => 5,
            _ => 1,
        }
    }

    pub open spec fn spec_starting_enemy_level(self) -> u32 {
        match self {
            GameDifficulty::Hard => 2,
            GameDifficulty::NotEvenRemotelyFair => 5,
            _ => 1,
        }
    }

    /// The production and combat level the player's starting city gets.
    pub fn starting_player_level(self) -> (l: u32)
        ensures
            l == self.spec_starting_player_level(),
    {
        match self {
            GameDifficulty::Easy => 2,
            _ => 1,
        }
    }

    pub open spec fn spec_starting_player_level(self) -> u32 {
        match self {
            GameDifficulty::Easy => 2,
            _ => 1,
        }
    }
}

impl Default for GameDifficulty {
    /// The standard tier.
    fn default() -> (r: GameDifficulty)
        ensures
            r == GameDifficulty::Standard,
    {
        GameDifficulty::Standard
    }
}

} // verus!
