//! Randomized map generation: two cities at distinct random cells with
//! the difficulty profile's starting balance, then a Bernoulli wall trial
//! for every remaining cell. This is the only place the city-count and
//! wall/city exclusivity invariants are established; all later mutation
//! preserves them.

use vstd::prelude::*;

use crate::enums::{CityState, GameDifficulty};
use crate::rng::{rand_below, rand_ratio};
use crate::structs::{
    cell_index, count_with_state, lemma_count_none, lemma_count_single, Cell, City, Game,
    TerminalPos,
};
use crate::GRID_SIZE;

verus! {

/// The city the player starts the session with.
pub open spec fn spec_starting_player_city(d: GameDifficulty) -> City {
    City {
        state: CityState::OwnedByPlayer,
        generation_level: d.spec_starting_player_level(),
        combat_level: d.spec_starting_player_level(),
        resources: d.spec_starting_resources(),
    }
}

/// The city the computer starts the session with.
pub open spec fn spec_starting_enemy_city(d: GameDifficulty) -> City {
    City {
        state: CityState::OwnedByComputer,
        generation_level: d.spec_starting_enemy_level(),
        combat_level: d.spec_starting_enemy_level(),
        resources: d.spec_starting_resources(),
    }
}

impl Game {
    /// Reset every cell to empty and unblocked.
    pub fn reset_grid(&mut self)
        ensures
            final(self).grid_wf(),
            final(self).grid@.len() == GRID_SIZE * GRID_SIZE,
            forall|i: int|
                0 <= i < final(self).grid@.len() ==> #[trigger] final(self).grid@[i]
                    == Cell::spec_empty(),
            final(self).difficulty == old(self).difficulty,
            final(self).cursor_loc == old(self).cursor_loc,
            final(self).state == old(self).state,
            final(self).status == old(self).status,
    {
        let mut grid: Vec<Cell> = Vec::new();
        let mut i: usize = 0;
        while i < GRID_SIZE * GRID_SIZE
            invariant
                i <= GRID_SIZE * GRID_SIZE,
                grid@.len() == i,
                forall|j: int| 0 <= j < i ==> #[trigger] grid@[j] == Cell::spec_empty(),
            decreases GRID_SIZE * GRID_SIZE - i,
        {
            grid.push(Cell { city: None, blocked: false });
            i = i + 1;
        }
        self.grid = grid;
    }

    /// Populate a fresh map: the player's and the computer's starting
    /// cities land on two distinct uniformly random cells, every other
    /// cell is independently walled off with the profile's block chance,
    /// and the cursor starts on the player's city.
    ///
    /// Exactly one cell ends up owned by each faction, no cell starts
    /// destroyed, and both cities carry the profile's starting levels and
    /// resources.
    pub fn generate_random_map(&mut self)
        ensures
            final(self).wf(),
            final(self).difficulty == old(self).difficulty,
            final(self).state == old(self).state,
            final(self).status == old(self).status,
            count_with_state(final(self).grid@, CityState::OwnedByPlayer) == 1,
            count_with_state(final(self).grid@, CityState::OwnedByComputer) == 1,
            count_with_state(final(self).grid@, CityState::Destroyed) == 0,
            final(self).spec_cell(final(self).cursor_loc).has_city_with_state(
                CityState::OwnedByPlayer,
            ),
            forall|i: int|
                0 <= i < final(self).grid@.len() && (#[trigger] final(self).grid@[i])
                    .has_city_with_state(CityState::OwnedByPlayer) ==> final(self).grid@[i].city
                    == Some(spec_starting_player_city(old(self).difficulty)),
            forall|i: int|
                0 <= i < final(self).grid@.len() && (#[trigger] final(self).grid@[i])
                    .has_city_with_state(CityState::OwnedByComputer) ==> final(self).grid@[i].city
                    == Some(spec_starting_enemy_city(old(self).difficulty)),
    {
        self.reset_grid();

        let cells: u32 = (GRID_SIZE * GRID_SIZE) as u32;
        let pi: u32 = rand_below(cells);
        // A draw over the other cells, skipping the player's, lands
        // uniformly on any one cell distinct from it.
        let draw: u32 = rand_below(cells - 1);
        let ei: u32 = if draw >= pi {
            draw + 1
        } else {
            draw
        };
        assert(ei != pi && ei < 100);

        let player_city = City {
            state: CityState::OwnedByPlayer,
            generation_level: self.difficulty.starting_player_level(),
            combat_level: self.difficulty.starting_player_level(),
            resources: self.difficulty.starting_resources(),
        };
        let enemy_city = City {
            state: CityState::OwnedByComputer,
            generation_level: self.difficulty.starting_enemy_level(),
            combat_level: self.difficulty.starting_enemy_level(),
            resources: self.difficulty.starting_resources(),
        };
        assert(player_city == spec_starting_player_city(self.difficulty));
        assert(enemy_city == spec_starting_enemy_city(self.difficulty));
        self.grid[pi as usize] = Cell { city: Some(player_city), blocked: false };
        self.grid[ei as usize] = Cell { city: Some(enemy_city), blocked: false };

        let chance: u32 = self.difficulty.block_chance();
        assert(chance <= 100);

        let mut i: usize = 0;
        while i < GRID_SIZE * GRID_SIZE
            invariant
                i <= GRID_SIZE * GRID_SIZE,
                self.grid@.len() == GRID_SIZE * GRID_SIZE,
                pi < 100,
                ei < 100,
                ei != pi,
                chance <= 100,
                self.grid@[pi as int] == (Cell { city: Some(player_city), blocked: false }),
                self.grid@[ei as int] == (Cell { city: Some(enemy_city), blocked: false }),
                player_city == spec_starting_player_city(self.difficulty),
                enemy_city == spec_starting_enemy_city(self.difficulty),
                forall|j: int|
                    0 <= j < self.grid@.len() && j != pi && j != ei ==> (
                    #[trigger] self.grid@[j]).city is None,
                forall|j: int| 0 <= j < self.grid@.len() ==> (#[trigger] self.grid@[j]).wf(),
                self.difficulty == old(self).difficulty,
                self.cursor_loc == old(self).cursor_loc,
                self.state == old(self).state,
                self.status == old(self).status,
            decreases GRID_SIZE * GRID_SIZE - i,
        {
            let cell = self.grid[i];
            if cell.city.is_none() {
                if rand_ratio(chance, 100) {
                    self.grid[i] = Cell { city: None, blocked: true };
                }
            }
            i = i + 1;
        }

        let px: u16 = (pi % 10) as u16;
        let py: u16 = (pi / 10) as u16;
        assert(py < 10 && (py as int) * 10 + (px as int) == pi as int) by (nonlinear_arith)
            requires
                pi < 100,
                px == pi % 10,
                py == pi / 10,
        ;
        self.cursor_loc = TerminalPos(px, py);
        assert(cell_index(self.cursor_loc) == pi as int);

        proof {
            lemma_count_single(self.grid@, CityState::OwnedByPlayer, pi as int);
            lemma_count_single(self.grid@, CityState::OwnedByComputer, ei as int);
            lemma_count_none(self.grid@, CityState::Destroyed);
        }
    }
}

} // verus!
