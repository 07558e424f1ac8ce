//! The grid and entity data model: positions, cells, cities and the
//! game session aggregate, with their well-formedness predicates and the
//! city-counting specification the win conditions are stated over.

use vstd::prelude::*;

use crate::enums::{CityState, GameDifficulty, GameState, StatusNote};
use crate::GRID_SIZE;

verus! {

/// A grid coordinate pair `(x, y)`, `0 <= x, y < GRID_SIZE` when in bounds.
#[derive(Copy, Clone, Debug, PartialEq, Eq, Structural)]
pub struct TerminalPos(pub u16, pub u16);

/// One grid location: at most one of a wall or a city, or empty.
#[derive(Copy, Clone, Debug, PartialEq, Eq)]
pub struct Cell {
    pub city: Option<City>,
    /// If blocked, there can be no city here.
    pub blocked: bool,
}

/// A faction-owned entity on one grid cell, with its levels and resources.
#[derive(Copy, Clone, Debug, PartialEq, Eq)]
pub struct City {
    pub state: CityState,
    pub generation_level: u32,
    pub combat_level: u32,
    pub resources: u32,
}

/// The mutable aggregate one play session owns: the grid, the active
/// difficulty, the highlighted cell, the turn state, and a transient
/// status note for the presentation layer.
#[derive(Clone, Debug, PartialEq, Eq)]
pub struct Game {
    /// Row-major: the cell at `(x, y)` sits at index `y * GRID_SIZE + x`.
    pub grid: Vec<Cell>,
    pub difficulty: GameDifficulty,
    pub cursor_loc: TerminalPos,
    pub state: GameState,
    pub status: Option<StatusNote>,
}

/// Whether a position lies on the grid.
pub open spec fn in_bounds(pos: TerminalPos) -> bool {
    (pos.0 as int) < (GRID_SIZE as int) && (pos.1 as int) < (GRID_SIZE as int)
}

/// The row-major grid index of an in-bounds position.
pub open spec fn cell_index(pos: TerminalPos) -> int {
    (pos.1 as int) * (GRID_SIZE as int) + (pos.0 as int)
}

impl City {
    /// A city's levels start at one and only ever grow.
    pub open spec fn wf(self) -> bool {
        self.generation_level >= 1 && self.combat_level >= 1
    }
}

impl Cell {
    /// A blocked cell never holds a city, and any city it does hold is
    /// itself well formed.
    pub open spec fn wf(self) -> bool {
        &&& !(self.blocked && self.city is Some)
        &&& match self.city {
            Some(c) => c.wf(),
            None => true,
        }
    }

    /// Whether this cell holds a city in the given ownership state.
    pub open spec fn has_city_with_state(self, st: CityState) -> bool {
        match self.city {
            Some(c) => c.state == st,
            None => false,
        }
    }

    /// An empty, unblocked cell.
    pub open spec fn spec_empty() -> Cell {
        Cell { city: None, blocked: false }
    }

    /// An unblocked cell holding the given city.
    pub open spec fn spec_with_city(c: City) -> Cell {
        Cell { city: Some(c), blocked: false }
    }
}

impl Game {
    /// The grid is a full square and every cell keeps the wall/city
    /// exclusivity invariant.
    pub open spec fn grid_wf(self) -> bool {
        &&& self.grid@.len() == GRID_SIZE * GRID_SIZE
        &&& forall|i: int|
            0 <= i < self.grid@.len() ==> (#[trigger] self.grid@[i]).wf()
    }

    /// The session invariant: a well-formed grid and an in-bounds cursor.
    pub open spec fn wf(self) -> bool {
        self.grid_wf() && in_bounds(self.cursor_loc)
    }

    /// The cell at an in-bounds position.
    pub open spec fn spec_cell(self, pos: TerminalPos) -> Cell
        recommends
            in_bounds(pos),
            self.grid_wf(),
    {
        self.grid@[cell_index(pos)]
    }
}

/// How many cells of `s` hold a city in ownership state `st`.
pub open spec fn count_with_state(s: Seq<Cell>, st: CityState) -> nat
    decreases s.len(),
{
    if s.len() == 0 {
        0
    } else {
        count_with_state(s.drop_last(), st) + if s.last().has_city_with_state(st) {
            1nat
        } else {
            0nat
        }
    }
}

/// Counting one more cell extends the count by that cell's contribution.
pub proof fn lemma_count_take_succ(s: Seq<Cell>, st: CityState, i: int)
    requires
        0 <= i < s.len(),
    ensures
        count_with_state(s.take(i + 1), st) == count_with_state(s.take(i), st) + if s[i]
            .has_city_with_state(st) {
            1nat
        } else {
            0nat
        },
{
    assert(s.take(i + 1).drop_last() =~= s.take(i));
    assert(s.take(i + 1).last() == s[i]);
}

/// A sequence with no city in state `st` counts zero such cities.
pub proof fn lemma_count_none(s: Seq<Cell>, st: CityState)
    requires
        forall|i: int| 0 <= i < s.len() ==> !(#[trigger] s[i]).has_city_with_state(st),
    ensures
        count_with_state(s, st) == 0,
    decreases s.len(),
{
    if s.len() > 0 {
        lemma_count_none(s.drop_last(), st);
    }
}

/// A sequence whose only city in state `st` sits at index `j` counts
/// exactly one such city.
pub proof fn lemma_count_single(s: Seq<Cell>, st: CityState, j: int)
    requires
        0 <= j < s.len(),
        s[j].has_city_with_state(st),
        forall|i: int|
            0 <= i < s.len() && i != j ==> !(#[trigger] s[i]).has_city_with_state(st),
    ensures
        count_with_state(s, st) == 1,
    decreases s.len(),
{
    if j == s.len() - 1 {
        lemma_count_none(s.drop_last(), st);
    } else {
        lemma_count_single(s.drop_last(), st, j);
    }
}

impl Default for TerminalPos {
    /// The origin coordinate.
    fn default() -> (r: TerminalPos)
        ensures
            r == (TerminalPos(0, 0)),
    {
        TerminalPos(0, 0)
    }
}

impl Default for Cell {
    /// An empty, unblocked cell.
    fn default() -> (r: Cell)
        ensures
            r == Cell::spec_empty(),
    {
        Cell { city: None, blocked: false }
    }
}

impl Default for City {
    /// A fresh player-owned city at the base levels with no resources.
    fn default() -> (r: City)
        ensures
            r == (City {
                state: CityState::OwnedByPlayer,
                generation_level: 1,
                combat_level: 1,
                resources: 0,
            }),
    {
        City { state: CityState::OwnedByPlayer, generation_level: 1, combat_level: 1, resources: 0 }
    }
}

impl Game {
    /// A fresh session: an all-empty grid, standard difficulty, the cursor
    /// at the origin, and the state machine in `Setup`.
    pub fn new() -> (g: Game)
        ensures
            g.wf(),
            g.grid@.len() == GRID_SIZE * GRID_SIZE,
            forall|i: int| 0 <= i < g.grid@.len() ==> #[trigger] g.grid@[i] == Cell::spec_empty(),
            g.difficulty == GameDifficulty::Standard,
            g.cursor_loc == (TerminalPos(0, 0)),
            g.state == GameState::Setup,
            g.status is None,
    {
        let mut grid: Vec<Cell> = Vec::new();
        let mut i: usize = 0;
        while i < GRID_SIZE * GRID_SIZE
            invariant
                i <= GRID_SIZE * GRID_SIZE,
                grid@.len() == i,
                forall|j: int| 0 <= j < i ==> #[trigger] grid@[j] == Cell::spec_empty(),
            decreases GRID_SIZE * GRID_SIZE - i,
        {
            grid.push(Cell { city: None, blocked: false });
            i = i + 1;
        }
        Game {
            grid,
            difficulty: GameDifficulty::Standard,
            cursor_loc: TerminalPos(0, 0),
            state: GameState::Setup,
            status: None,
        }
    }
}

impl Default for Game {
    /// The same fresh session as `Game::new`.
    fn default() -> (g: Game)
        ensures
            g.wf(),
            g.state == GameState::Setup,
    {
        Game::new()
    }
}

} // verus!
