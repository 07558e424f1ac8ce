//! The action engine: cursor movement, grid access, and the validation
//! and application of the six game actions. Every action either applies
//! completely or is rejected with a typed error and no mutation at all.

use vstd::prelude::*;

use crate::enums::{CityState, GameAction, GameError};
use crate::structs::{cell_index, in_bounds, Cell, City, Game, TerminalPos};
use crate::GRID_SIZE;

verus! {

/// Destroying a wall costs this many resources.
pub const WALL_DESTROY_COST: u32 = 10;

/// Cleaning a destroyed city up into an empty cell costs this many
/// resources.
pub const RUIN_CLEANUP_COST: u32 = 5;

/// Founding a new city on an empty cell costs this many resources.
pub const CITY_FOUND_COST: u32 = 10;

/// The position an action acts from.
pub open spec fn action_source(a: GameAction) -> TerminalPos {
    match a {
        GameAction::Produce { source } => source,
        GameAction::UpgradeAttack { source } => source,
        GameAction::UpgradeProduce { source } => source,
        GameAction::DestroyWall { source, target } => source,
        GameAction::AttackCity { source, target } => source,
        GameAction::GenerateCity { source, target } => source,
    }
}

/// The position an action acts upon, for the three variants that carry
/// one.
pub open spec fn action_target(a: GameAction) -> Option<TerminalPos> {
    match a {
        GameAction::Produce { source } => None,
        GameAction::UpgradeAttack { source } => None,
        GameAction::UpgradeProduce { source } => None,
        GameAction::DestroyWall { source, target } => Some(target),
        GameAction::AttackCity { source, target } => Some(target),
        GameAction::GenerateCity { source, target } => Some(target),
    }
}

/// The shared validation of the three target-bearing actions: both
/// positions in bounds, the target distinct from the source, and the
/// source holding a live city of the player's — a source that holds no
/// usable city of one's own is reported as `NoCityAtSource`.
pub open spec fn spec_validate_targeted_prefix(
    g: Game,
    source: TerminalPos,
    target: TerminalPos,
) -> Option<GameError> {
    if !in_bounds(source) || !in_bounds(target) {
        Some(GameError::NotValidPosition)
    } else if target == source {
        Some(GameError::TargetIsSource)
    } else {
        match g.spec_cell(source).city {
            None => Some(GameError::NoCityAtSource),
            Some(c) => if c.state != CityState::OwnedByPlayer {
                Some(GameError::NoCityAtSource)
            } else {
                None
            },
        }
    }
}

/// The error an action is rejected with, or `None` when it goes through.
/// Validation runs in a fixed order: positions first, then the source
/// city, then the variant's own target and resource checks.
pub open spec fn spec_validate(g: Game, a: GameAction) -> Option<GameError>
    recommends
        g.grid_wf(),
{
    match a {
        GameAction::Produce { source } => {
            if !in_bounds(source) {
                Some(GameError::NotValidPosition)
            } else {
                match g.spec_cell(source).city {
                    None => Some(GameError::NoCityAtSource),
                    Some(c) => None,
                }
            }
        },
        GameAction::UpgradeAttack { source } => {
            if !in_bounds(source) {
                Some(GameError::NotValidPosition)
            } else {
                match g.spec_cell(source).city {
                    None => Some(GameError::NoCityAtSource),
                    Some(c) => if c.resources < c.attack_upgrade_cost() {
                        Some(GameError::NotEnoughResources)
                    } else {
                        None
                    },
                }
            }
        },
        GameAction::UpgradeProduce { source } => {
            if !in_bounds(source) {
                Some(GameError::NotValidPosition)
            } else {
                match g.spec_cell(source).city {
                    None => Some(GameError::NoCityAtSource),
                    Some(c) => if c.resources < c.produce_upgrade_cost() {
                        Some(GameError::NotEnoughResources)
                    } else {
                        None
                    },
                }
            }
        },
        GameAction::DestroyWall { source, target } => {
            match spec_validate_targeted_prefix(g, source, target) {
                Some(e) => Some(e),
                None => {
                    let sc = g.spec_cell(source).city.unwrap();
                    let tcell = g.spec_cell(target);
                    if tcell.blocked {
                        if sc.resources < WALL_DESTROY_COST {
                            Some(GameError::NotEnoughResources)
                        } else {
                            None
                        }
                    } else if tcell.has_city_with_state(CityState::Destroyed) {
                        if sc.resources < RUIN_CLEANUP_COST {
                            Some(GameError::NotEnoughResources)
                        } else {
                            None
                        }
                    } else {
                        Some(GameError::NoWallAtTarget)
                    }
                },
            }
        },
        GameAction::AttackCity { source, target } => {
            match spec_validate_targeted_prefix(g, source, target) {
                Some(e) => Some(e),
                None => {
                    if g.spec_cell(target).has_city_with_state(CityState::OwnedByComputer) {
                        None
                    } else {
                        Some(GameError::NoCityAtTarget)
                    }
                },
            }
        },
        GameAction::GenerateCity { source, target } => {
            match spec_validate_targeted_prefix(g, source, target) {
                Some(e) => Some(e),
                None => {
                    let sc = g.spec_cell(source).city.unwrap();
                    let tcell = g.spec_cell(target);
                    if tcell.blocked || tcell.city is Some {
                        Some(GameError::TargetIsOccupied)
                    } else if sc.resources < CITY_FOUND_COST {
                        Some(GameError::NotEnoughResources)
                    } else {
                        None
                    }
                },
            }
        },
    }
}

/// Whatever its kind, an action whose source cell holds no city is
/// rejected as `NoCityAtSource`. The positional checks come first, so
/// this is stated for a source in bounds and, where a target is carried,
/// a target in bounds and distinct from the source.
pub proof fn lemma_no_city_at_source_rejected(g: Game, a: GameAction)
    requires
        g.grid_wf(),
        in_bounds(action_source(a)),
        action_target(a) is Some ==> in_bounds(action_target(a).unwrap()) && action_target(
            a,
        ).unwrap() != action_source(a),
        g.spec_cell(action_source(a)).city is None,
    ensures
        spec_validate(g, a) == Some(GameError::NoCityAtSource),
{
}

/// The given city with its resources lowered by `cost`.
pub open spec fn spec_charged(c: City, cost: int) -> City
    recommends
        cost <= c.resources,
{
    City {
        state: c.state,
        generation_level: c.generation_level,
        combat_level: c.combat_level,
        resources: (c.resources - cost) as u32,
    }
}

/// The given city as a ruin: ownership gone, levels and stock left in
/// place.
pub open spec fn spec_destroyed(c: City) -> City {
    City {
        state: CityState::Destroyed,
        generation_level: c.generation_level,
        combat_level: c.combat_level,
        resources: c.resources,
    }
}

/// The city a freshly founded settlement starts as.
pub open spec fn spec_founded_city() -> City {
    City { state: CityState::OwnedByPlayer, generation_level: 1, combat_level: 1, resources: 0 }
}

/// Whether `r` is a roll the given city's combat window allows.
pub open spec fn roll_in_range(c: City, r: int) -> bool {
    c.spec_roll_min() <= r <= c.spec_roll_max()
}

/// The grid after an attack whose rolls came out as `ar` against `dr`:
/// the defender at index `ti` is razed exactly when the attacker rolled
/// higher.
pub open spec fn spec_attack_outcome(g: Game, ti: int, defender: City, ar: int, dr: int) -> Seq<
    Cell,
> {
    if ar > dr {
        g.grid@.update(ti, spec_replace_city(g.grid@[ti], spec_destroyed(defender)))
    } else {
        g.grid@
    }
}

/// The given cell with its city replaced and its blocked flag kept.
pub open spec fn spec_replace_city(cell: Cell, c: City) -> Cell {
    Cell { city: Some(c), blocked: cell.blocked }
}

/// What a validated action does to the grid: `out` is the grid after the
/// action was applied to `g`. For an attack the outcome hangs on the two
/// combat rolls: the defender is razed exactly when the attacker's roll
/// comes out higher.
pub open spec fn spec_action_effect(g: Game, a: GameAction, out: Seq<Cell>) -> bool
    recommends
        g.grid_wf(),
        spec_validate(g, a) is None,
{
    match a {
        GameAction::Produce { source } => {
            let ci = cell_index(source);
            let cell = g.grid@[ci];
            out == g.grid@.update(ci, spec_replace_city(cell, cell.city.unwrap().after_produce()))
        },
        GameAction::UpgradeAttack { source } => {
            let ci = cell_index(source);
            let cell = g.grid@[ci];
            out == g.grid@.update(
                ci,
                spec_replace_city(cell, cell.city.unwrap().after_upgrade_attack()),
            )
        },
        GameAction::UpgradeProduce { source } => {
            let ci = cell_index(source);
            let cell = g.grid@[ci];
            out == g.grid@.update(
                ci,
                spec_replace_city(cell, cell.city.unwrap().after_upgrade_production()),
            )
        },
        GameAction::DestroyWall { source, target } => {
            let si = cell_index(source);
            let ti = cell_index(target);
            let scell = g.grid@[si];
            let cost = if g.grid@[ti].blocked {
                WALL_DESTROY_COST as int
            } else {
                RUIN_CLEANUP_COST as int
            };
            out == g.grid@.update(
                si,
                spec_replace_city(scell, spec_charged(scell.city.unwrap(), cost)),
            ).update(ti, Cell::spec_empty())
        },
        GameAction::AttackCity { source, target } => {
            let si = cell_index(source);
            let ti = cell_index(target);
            let attacker = g.grid@[si].city.unwrap();
            let defender = g.grid@[ti].city.unwrap();
            exists|ar: int, dr: int|
                roll_in_range(attacker, ar) && roll_in_range(defender, dr) && out
                    == #[trigger] spec_attack_outcome(g, ti, defender, ar, dr)
        },
        GameAction::GenerateCity { source, target } => {
            let si = cell_index(source);
            let ti = cell_index(target);
            let scell = g.grid@[si];
            out == g.grid@.update(
                si,
                spec_replace_city(scell, spec_charged(scell.city.unwrap(), CITY_FOUND_COST as int)),
            ).update(ti, Cell::spec_with_city(spec_founded_city()))
        },
    }
}

impl Game {
    /// Move the highlighted cell up one row, stopping at the edge.
    pub fn cursor_up(&mut self)
        ensures
            final(self).cursor_loc.0 == old(self).cursor_loc.0,
            final(self).cursor_loc.1 as int == if old(self).cursor_loc.1 > 0 {
                old(self).cursor_loc.1 - 1
            } else {
                0
            },
            final(self).grid@ == old(self).grid@,
            final(self).difficulty == old(self).difficulty,
            final(self).state == old(self).state,
            final(self).status == old(self).status,
            old(self).wf() ==> final(self).wf(),
    {
        if self.cursor_loc.1 > 0 {
            self.cursor_loc.1 = self.cursor_loc.1 - 1;
        }
    }

    /// Move the highlighted cell left one column, stopping at the edge.
    pub fn cursor_left(&mut self)
        ensures
            final(self).cursor_loc.1 == old(self).cursor_loc.1,
            final(self).cursor_loc.0 as int == if old(self).cursor_loc.0 > 0 {
                old(self).cursor_loc.0 - 1
            } else {
                0
            },
            final(self).grid@ == old(self).grid@,
            final(self).difficulty == old(self).difficulty,
            final(self).state == old(self).state,
            final(self).status == old(self).status,
            old(self).wf() ==> final(self).wf(),
    {
        if self.cursor_loc.0 > 0 {
            self.cursor_loc.0 = self.cursor_loc.0 - 1;
        }
    }

    /// Move the highlighted cell right one column, stopping at the last
    /// one.
    pub fn cursor_right(&mut self)
        requires
            old(self).wf(),
        ensures
            final(self).cursor_loc.1 == old(self).cursor_loc.1,
            final(self).cursor_loc.0 as int == if old(self).cursor_loc.0 as int + 1 <= GRID_SIZE
                - 1 {
                old(self).cursor_loc.0 + 1
            } else {
                GRID_SIZE - 1
            },
            final(self).grid@ == old(self).grid@,
            final(self).difficulty == old(self).difficulty,
            final(self).state == old(self).state,
            final(self).status == old(self).status,
            final(self).wf(),
    {
        let last: u16 = (GRID_SIZE - 1) as u16;
        if self.cursor_loc.0 < last {
            self.cursor_loc.0 = self.cursor_loc.0 + 1;
        }
    }

    /// Move the highlighted cell down one row, stopping at the last one.
    pub fn cursor_down(&mut self)
        requires
            old(self).wf(),
        ensures
            final(self).cursor_loc.0 == old(self).cursor_loc.0,
            final(self).cursor_loc.1 as int == if old(self).cursor_loc.1 as int + 1 <= GRID_SIZE
                - 1 {
                old(self).cursor_loc.1 + 1
            } else {
                GRID_SIZE - 1
            },
            final(self).grid@ == old(self).grid@,
            final(self).difficulty == old(self).difficulty,
            final(self).state == old(self).state,
            final(self).status == old(self).status,
            final(self).wf(),
    {
        let last: u16 = (GRID_SIZE - 1) as u16;
        if self.cursor_loc.1 < last {
            self.cursor_loc.1 = self.cursor_loc.1 + 1;
        }
    }

    /// Whether a position names a cell of the grid.
    pub fn is_valid_grid_position(&self, pos: TerminalPos) -> (r: Result<(), GameError>)
        ensures
            r == if in_bounds(pos) {
                Ok::<(), GameError>(())
            } else {
                Err::<(), GameError>(GameError::NotValidPosition)
            },
    {
        if (pos.0 as usize) < GRID_SIZE && (pos.1 as usize) < GRID_SIZE {
            Ok(())
        } else {
            Err(GameError::NotValidPosition)
        }
    }

    /// The cell at a position, or `NotValidPosition` off the grid.
    pub fn get_cell_at_pos(&self, pos: TerminalPos) -> (r: Result<Cell, GameError>)
        requires
            self.grid_wf(),
        ensures
            r == if in_bounds(pos) {
                Ok::<Cell, GameError>(self.spec_cell(pos))
            } else {
                Err::<Cell, GameError>(GameError::NotValidPosition)
            },
    {
        if (pos.0 as usize) < GRID_SIZE && (pos.1 as usize) < GRID_SIZE {
            Ok(self.grid[pos.1 as usize * GRID_SIZE + pos.0 as usize])
        } else {
            Err(GameError::NotValidPosition)
        }
    }

    /// The city at a position: `NotValidPosition` off the grid,
    /// `NoCityAtTarget` where the cell holds none.
    pub fn get_city_at_pos(&self, pos: TerminalPos) -> (r: Result<City, GameError>)
        requires
            self.grid_wf(),
        ensures
            r == if !in_bounds(pos) {
                Err::<City, GameError>(GameError::NotValidPosition)
            } else {
                match self.spec_cell(pos).city {
                    Some(c) => Ok::<City, GameError>(c),
                    None => Err::<City, GameError>(GameError::NoCityAtTarget),
                }
            },
    {
        match self.get_cell_at_pos(pos) {
            Ok(cell) => match cell.city {
                Some(c) => Ok(c),
                None => Err(GameError::NoCityAtTarget),
            },
            Err(e) => Err(e),
        }
    }

    /// Replace the cell at a position, or fail with `NotValidPosition`
    /// off the grid. The new cell must keep the wall/city exclusivity
    /// invariant.
    pub fn set_cell_at_pos(&mut self, pos: TerminalPos, cell: Cell) -> (r: Result<(), GameError>)
        requires
            old(self).grid_wf(),
            cell.wf(),
        ensures
            final(self).grid_wf(),
            final(self).difficulty == old(self).difficulty,
            final(self).cursor_loc == old(self).cursor_loc,
            final(self).state == old(self).state,
            final(self).status == old(self).status,
            in_bounds(pos) ==> r == Ok::<(), GameError>(())
                && final(self).grid@ == old(self).grid@.update(cell_index(pos), cell),
            !in_bounds(pos) ==> r == Err::<(), GameError>(GameError::NotValidPosition)
                && final(self).grid@ == old(self).grid@,
    {
        if (pos.0 as usize) < GRID_SIZE && (pos.1 as usize) < GRID_SIZE {
            self.grid[pos.1 as usize * GRID_SIZE + pos.0 as usize] = cell;
            Ok(())
        } else {
            Err(GameError::NotValidPosition)
        }
    }

    /// Validate an action and, when it passes, apply it in full.
    ///
    /// The returned error is exactly `spec_validate`'s answer; on success
    /// the grid changes exactly as `spec_action_effect` describes, and
    /// nothing else of the session moves. A rejected action mutates
    /// nothing.
    #[verifier::rlimit(100)]
    pub fn do_action(&mut self, action: GameAction) -> (r: Result<(), GameError>)
        requires
            old(self).grid_wf(),
        ensures
            final(self).grid_wf(),
            final(self).difficulty == old(self).difficulty,
            final(self).cursor_loc == old(self).cursor_loc,
            final(self).state == old(self).state,
            final(self).status == old(self).status,
            match spec_validate(*old(self), action) {
                Some(e) => r == Err::<(), GameError>(e) && final(self).grid@ == old(self).grid@,
                None => r == Ok::<(), GameError>(()) && spec_action_effect(
                    *old(self),
                    action,
                    final(self).grid@,
                ),
            },
    {
        match action {
            GameAction::Produce { source } => {
                if !((source.0 as usize) < GRID_SIZE && (source.1 as usize) < GRID_SIZE) {
                    return Err(GameError::NotValidPosition);
                }
                let ci = source.1 as usize * GRID_SIZE + source.0 as usize;
                let cell = self.grid[ci];
                match cell.city {
                    None => Err(GameError::NoCityAtSource),
                    Some(c) => {
                        let mut c2 = c;
                        c2.produce();
                        self.grid[ci] = Cell { city: Some(c2), blocked: cell.blocked };
                        Ok(())
                    },
                }
            },
            GameAction::UpgradeAttack { source } => {
                if !((source.0 as usize) < GRID_SIZE && (source.1 as usize) < GRID_SIZE) {
                    return Err(GameError::NotValidPosition);
                }
                let ci = source.1 as usize * GRID_SIZE + source.0 as usize;
                let cell = self.grid[ci];
                match cell.city {
                    None => Err(GameError::NoCityAtSource),
                    Some(c) => {
                        let mut c2 = c;
                        match c2.upgrade_attack() {
                            Ok(()) => {
                                self.grid[ci] = Cell { city: Some(c2), blocked: cell.blocked };
                                Ok(())
                            },
                            Err(e) => Err(e),
                        }
                    },
                }
            },
            GameAction::UpgradeProduce { source } => {
                if !((source.0 as usize) < GRID_SIZE && (source.1 as usize) < GRID_SIZE) {
                    return Err(GameError::NotValidPosition);
                }
                let ci = source.1 as usize * GRID_SIZE + source.0 as usize;
                let cell = self.grid[ci];
                match cell.city {
                    None => Err(GameError::NoCityAtSource),
                    Some(c) => {
                        let mut c2 = c;
                        match c2.upgrade_production() {
                            Ok(()) => {
                                self.grid[ci] = Cell { city: Some(c2), blocked: cell.blocked };
                                Ok(())
                            },
                            Err(e) => Err(e),
                        }
                    },
                }
            },
            GameAction::DestroyWall { source, target } => {
                match self.targeted_prefix(source, target) {
                    Err(e) => Err(e),
                    Ok((si, ti)) => {
                        let scell = self.grid[si];
                        let sc = scell.city.unwrap();
                        let tcell = self.grid[ti];
                        let cost: u32 = if tcell.blocked {
                            WALL_DESTROY_COST
                        } else {
                            RUIN_CLEANUP_COST
                        };
                        if !tcell.blocked && !(match tcell.city {
                            Some(tc) => tc.state == CityState::Destroyed,
                            None => false,
                        }) {
                            return Err(GameError::NoWallAtTarget);
                        }
                        if sc.resources < cost {
                            return Err(GameError::NotEnoughResources);
                        }
                        let sc2 = City {
                            state: sc.state,
                            generation_level: sc.generation_level,
                            combat_level: sc.combat_level,
                            resources: sc.resources - cost,
                        };
                        self.grid[si] = Cell { city: Some(sc2), blocked: scell.blocked };
                        self.grid[ti] = Cell { city: None, blocked: false };
                        Ok(())
                    },
                }
            },
            GameAction::AttackCity { source, target } => {
                match self.targeted_prefix(source, target) {
                    Err(e) => Err(e),
                    Ok((si, ti)) => {
                        let attacker = self.grid[si].city.unwrap();
                        let tcell = self.grid[ti];
                        match tcell.city {
                            Some(defender) => {
                                if !(defender.state == CityState::OwnedByComputer) {
                                    return Err(GameError::NoCityAtTarget);
                                }
                                let ar = attacker.roll_for_attack();
                                let dr = defender.roll_for_attack();
                                if ar > dr {
                                    let razed = City {
                                        state: CityState::Destroyed,
                                        generation_level: defender.generation_level,
                                        combat_level: defender.combat_level,
                                        resources: defender.resources,
                                    };
                                    self.grid[ti] = Cell {
                                        city: Some(razed),
                                        blocked: tcell.blocked,
                                    };
                                }
                                assert(spec_action_effect(*old(self), action, self.grid@)) by {
                                    let att = old(self).grid@[si as int].city.unwrap();
                                    let def = old(self).grid@[ti as int].city.unwrap();
                                    assert(roll_in_range(att, ar as int));
                                    assert(roll_in_range(def, dr as int));
                                    assert(self.grid@ == spec_attack_outcome(
                                        *old(self),
                                        ti as int,
                                        def,
                                        ar as int,
                                        dr as int,
                                    ));
                                }
                                Ok(())
                            },
                            None => Err(GameError::NoCityAtTarget),
                        }
                    },
                }
            },
            GameAction::GenerateCity { source, target } => {
                match self.targeted_prefix(source, target) {
                    Err(e) => Err(e),
                    Ok((si, ti)) => {
                        let scell = self.grid[si];
                        let sc = scell.city.unwrap();
                        let tcell = self.grid[ti];
                        if tcell.blocked || tcell.city.is_some() {
                            return Err(GameError::TargetIsOccupied);
                        }
                        if sc.resources < CITY_FOUND_COST {
                            return Err(GameError::NotEnoughResources);
                        }
                        let sc2 = City {
                            state: sc.state,
                            generation_level: sc.generation_level,
                            combat_level: sc.combat_level,
                            resources: sc.resources - CITY_FOUND_COST,
                        };
                        self.grid[si] = Cell { city: Some(sc2), blocked: scell.blocked };
                        let founded = City {
                            state: CityState::OwnedByPlayer,
                            generation_level: 1,
                            combat_level: 1,
                            resources: 0,
                        };
                        self.grid[ti] = Cell { city: Some(founded), blocked: false };
                        Ok(())
                    },
                }
            },
        }
    }

    /// The shared checks of the target-bearing actions; hands back both
    /// row-major indices when they pass.
    fn targeted_prefix(&self, source: TerminalPos, target: TerminalPos) -> (r: Result<
        (usize, usize),
        GameError,
    >)
        requires
            self.grid_wf(),
        ensures
            match spec_validate_targeted_prefix(*self, source, target) {
                Some(e) => r == Err::<(usize, usize), GameError>(e),
                None => r matches Ok((si, ti)) && si == cell_index(source) && ti == cell_index(
                    target,
                ) && si != ti && si < self.grid@.len() && ti < self.grid@.len() && self.grid@[
                    si as int
                ].city is Some,
            },
    {
        if !((source.0 as usize) < GRID_SIZE && (source.1 as usize) < GRID_SIZE
            && (target.0 as usize) < GRID_SIZE && (target.1 as usize) < GRID_SIZE) {
            return Err(GameError::NotValidPosition);
        }
        if target == source {
            return Err(GameError::TargetIsSource);
        }
        let si = source.1 as usize * GRID_SIZE + source.0 as usize;
        let ti = target.1 as usize * GRID_SIZE + target.0 as usize;
        match self.grid[si].city {
            None => Err(GameError::NoCityAtSource),
            Some(c) => {
                if c.state == CityState::OwnedByPlayer {
                    Ok((si, ti))
                } else {
                    Err(GameError::NoCityAtSource)
                }
            },
        }
    }
}

} // verus!
