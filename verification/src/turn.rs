//! The turn state machine: dispatching decoded commands, the player's
//! interaction with the highlighted cell, the computer's turn, and win
//! detection. The input layer hands these functions plain commands; all
//! decisions are made here.

use vstd::prelude::*;

use crate::enums::{
    CityState, GameAction, GameActionSkeleton, GameError, GameState, InputOutcome, RawCommand,
    StatusNote,
};
use crate::structs::{
    count_with_state, in_bounds, lemma_count_take_succ, Game, TerminalPos,
};
use crate::GRID_SIZE;

verus! {

/// Where the cursor stands after one command: the four move commands
/// step one cell and stop at the edges, every other command leaves it.
pub open spec fn spec_cursor_after(cmd: RawCommand, pos: TerminalPos) -> TerminalPos {
    match cmd {
        RawCommand::MoveUp => TerminalPos(
            pos.0,
            if pos.1 > 0 {
                (pos.1 - 1) as u16
            } else {
                0
            },
        ),
        RawCommand::MoveDown => TerminalPos(
            pos.0,
            if pos.1 as int + 1 <= GRID_SIZE - 1 {
                (pos.1 + 1) as u16
            } else {
                (GRID_SIZE - 1) as u16
            },
        ),
        RawCommand::MoveLeft => TerminalPos(
            if pos.0 > 0 {
                (pos.0 - 1) as u16
            } else {
                0
            },
            pos.1,
        ),
        RawCommand::MoveRight => TerminalPos(
            if pos.0 as int + 1 <= GRID_SIZE - 1 {
                (pos.0 + 1) as u16
            } else {
                (GRID_SIZE - 1) as u16
            },
            pos.1,
        ),
        _ => pos,
    }
}

/// What one command amounts to: a move that changed the cursor asks for
/// a redraw, a move against the edge is idle, and the rest map directly.
pub open spec fn spec_input_outcome(cmd: RawCommand, pos: TerminalPos) -> InputOutcome {
    match cmd {
        RawCommand::MoveUp | RawCommand::MoveDown | RawCommand::MoveLeft | RawCommand::MoveRight =>
            if spec_cursor_after(cmd, pos) != pos {
                InputOutcome::Redraw
            } else {
                InputOutcome::Idle
            },
        RawCommand::Interact => InputOutcome::Interact,
        RawCommand::EndTurn => InputOutcome::EndTurn,
        RawCommand::QuitGame => InputOutcome::QuitGame,
        RawCommand::Idle => InputOutcome::Idle,
    }
}

/// Whether an interaction with the cell at `pos` goes through: only a
/// live city of the player's can be acted on.
pub open spec fn spec_interact_result(g: Game, pos: TerminalPos) -> Result<(), GameError>
    recommends
        g.grid_wf(),
{
    if !in_bounds(pos) {
        Err(GameError::NotValidPosition)
    } else {
        let cell = g.spec_cell(pos);
        if cell.blocked {
            Err(GameError::NoCityAtTarget)
        } else {
            match cell.city {
                None => Err(GameError::NoCityAtTarget),
                Some(c) => match c.state {
                    CityState::OwnedByComputer => Err(GameError::NoCityAtTarget),
                    CityState::Destroyed => Err(GameError::NoCityAtTarget),
                    CityState::OwnedByPlayer => Ok(()),
                },
            }
        }
    }
}

/// The status note an interaction with the cell at `pos` leaves behind:
/// a rejection names its reason, anything else keeps the old note.
pub open spec fn spec_interact_status(g: Game, pos: TerminalPos) -> Option<StatusNote>
    recommends
        g.grid_wf(),
{
    if !in_bounds(pos) {
        g.status
    } else {
        let cell = g.spec_cell(pos);
        if cell.blocked {
            Some(StatusNote::JustAWall)
        } else {
            match cell.city {
                None => Some(StatusNote::NoCityThere),
                Some(c) => match c.state {
                    CityState::OwnedByComputer => Some(StatusNote::OpposingCity),
                    CityState::Destroyed => Some(StatusNote::CityDestroyed),
                    CityState::OwnedByPlayer => g.status,
                },
            }
        }
    }
}

/// The terminal state the board calls for, if any: a faction with no
/// city left to its name has lost; otherwise the state is unchanged.
pub open spec fn spec_outcome(g: Game) -> GameState
    recommends
        g.grid_wf(),
{
    if count_with_state(g.grid@, CityState::OwnedByPlayer) == 0 {
        GameState::ComputerWon
    } else if count_with_state(g.grid@, CityState::OwnedByComputer) == 0 {
        GameState::PlayerWon
    } else {
        g.state
    }
}

/// The action a menu choice and its positions assemble into, or why it
/// cannot be assembled.
pub open spec fn spec_action_from_parts(
    skeleton: GameActionSkeleton,
    source: TerminalPos,
    target: Option<TerminalPos>,
) -> Result<GameAction, GameError> {
    match skeleton {
        GameActionSkeleton::Produce => Ok(GameAction::Produce { source }),
        GameActionSkeleton::UpgradeAttack => Ok(GameAction::UpgradeAttack { source }),
        GameActionSkeleton::UpgradeProduce => Ok(GameAction::UpgradeProduce { source }),
        GameActionSkeleton::DestroyWall => match target {
            None => Err(GameError::NeedTargetPosition),
            Some(t) => if t == source {
                Err(GameError::TargetIsSource)
            } else {
                Ok(GameAction::DestroyWall { source, target: t })
            },
        },
        GameActionSkeleton::AttackCity => match target {
            None => Err(GameError::NeedTargetPosition),
            Some(t) => if t == source {
                Err(GameError::TargetIsSource)
            } else {
                Ok(GameAction::AttackCity { source, target: t })
            },
        },
        GameActionSkeleton::GenerateCity => match target {
            None => Err(GameError::NeedTargetPosition),
            Some(t) => if t == source {
                Err(GameError::TargetIsSource)
            } else {
                Ok(GameAction::GenerateCity { source, target: t })
            },
        },
    }
}

impl GameAction {
    /// Assemble an action from a menu choice, the acting position and an
    /// optional target. The target-bearing kinds demand a target distinct
    /// from the source.
    pub fn from_parts(
        skeleton: GameActionSkeleton,
        source: TerminalPos,
        target: Option<TerminalPos>,
    ) -> (r: Result<GameAction, GameError>)
        ensures
            r == spec_action_from_parts(skeleton, source, target),
    {
        let needs_target = match skeleton {
            GameActionSkeleton::DestroyWall => true,
            GameActionSkeleton::AttackCity => true,
            GameActionSkeleton::GenerateCity => true,
            _ => false,
        };
        if needs_target {
            let t = match target {
                Some(t) => t,
                None => {
                    return Err(GameError::NeedTargetPosition);
                },
            };
            if t == source {
                return Err(GameError::TargetIsSource);
            }
            match skeleton {
                GameActionSkeleton::DestroyWall => Ok(GameAction::DestroyWall { source, target: t }),
                GameActionSkeleton::AttackCity => Ok(GameAction::AttackCity { source, target: t }),
                _ => Ok(GameAction::GenerateCity { source, target: t }),
            }
        } else {
            match skeleton {
                GameActionSkeleton::Produce => Ok(GameAction::Produce { source }),
                GameActionSkeleton::UpgradeAttack => Ok(GameAction::UpgradeAttack { source }),
                _ => Ok(GameAction::UpgradeProduce { source }),
            }
        }
    }
}

impl Game {
    /// How many cells hold a city in the given ownership state.
    pub fn count_cities(&self, st: CityState) -> (n: u32)
        requires
            self.grid_wf(),
        ensures
            n == count_with_state(self.grid@, st),
    {
        let mut n: u32 = 0;
        let mut i: usize = 0;
        while i < GRID_SIZE * GRID_SIZE
            invariant
                self.grid_wf(),
                i <= GRID_SIZE * GRID_SIZE,
                n <= i,
                n == count_with_state(self.grid@.take(i as int), st),
            decreases GRID_SIZE * GRID_SIZE - i,
        {
            let cell = self.grid[i];
            let here = match cell.city {
                Some(c) => c.state == st,
                None => false,
            };
            proof {
                lemma_count_take_succ(self.grid@, st, i as int);
            }
            if here {
                n = n + 1;
            }
            i = i + 1;
        }
        proof {
            assert(self.grid@.take(self.grid@.len() as int) =~= self.grid@);
        }
        n
    }

    /// Check the board for a winner and move to the terminal state it
    /// calls for: the computer wins as soon as the player holds no city,
    /// the player as soon as the computer holds none.
    pub fn update_win_state(&mut self)
        requires
            old(self).grid_wf(),
        ensures
            final(self).grid@ == old(self).grid@,
            final(self).difficulty == old(self).difficulty,
            final(self).cursor_loc == old(self).cursor_loc,
            final(self).status == old(self).status,
            final(self).state == spec_outcome(*old(self)),
    {
        if self.count_cities(CityState::OwnedByPlayer) == 0 {
            self.state = GameState::ComputerWon;
        } else if self.count_cities(CityState::OwnedByComputer) == 0 {
            self.state = GameState::PlayerWon;
        }
    }

    /// Route one decoded command: the move commands step the cursor and
    /// report whether anything changed; the rest pass through as their
    /// outcome. Nothing but the cursor moves.
    pub fn do_input(&mut self, cmd: RawCommand) -> (r: InputOutcome)
        requires
            old(self).wf(),
        ensures
            final(self).wf(),
            final(self).grid@ == old(self).grid@,
            final(self).difficulty == old(self).difficulty,
            final(self).state == old(self).state,
            final(self).status == old(self).status,
            final(self).cursor_loc == spec_cursor_after(cmd, old(self).cursor_loc),
            r == spec_input_outcome(cmd, old(self).cursor_loc),
    {
        match cmd {
            RawCommand::MoveUp => {
                let before = self.cursor_loc;
                self.cursor_up();
                if !(before == self.cursor_loc) {
                    InputOutcome::Redraw
                } else {
                    InputOutcome::Idle
                }
            },
            RawCommand::MoveDown => {
                let before = self.cursor_loc;
                self.cursor_down();
                if !(before == self.cursor_loc) {
                    InputOutcome::Redraw
                } else {
                    InputOutcome::Idle
                }
            },
            RawCommand::MoveLeft => {
                let before = self.cursor_loc;
                self.cursor_left();
                if !(before == self.cursor_loc) {
                    InputOutcome::Redraw
                } else {
                    InputOutcome::Idle
                }
            },
            RawCommand::MoveRight => {
                let before = self.cursor_loc;
                self.cursor_right();
                if !(before == self.cursor_loc) {
                    InputOutcome::Redraw
                } else {
                    InputOutcome::Idle
                }
            },
            RawCommand::Interact => InputOutcome::Interact,
            RawCommand::EndTurn => InputOutcome::EndTurn,
            RawCommand::QuitGame => InputOutcome::QuitGame,
            RawCommand::Idle => InputOutcome::Idle,
        }
    }
}

/// Attempt to open an action at `pos`: only a live city of the player's
/// is accepted; any other cell is rejected with `NoCityAtTarget` (or
/// `NotValidPosition` off the grid) and a status note saying why.
pub fn player_interact(pos: TerminalPos, game: &mut Game) -> (r: Result<(), GameError>)
    requires
        old(game).grid_wf(),
    ensures
        final(game).grid@ == old(game).grid@,
        final(game).difficulty == old(game).difficulty,
        final(game).cursor_loc == old(game).cursor_loc,
        final(game).state == old(game).state,
        r == spec_interact_result(*old(game), pos),
        final(game).status == spec_interact_status(*old(game), pos),
{
    match game.is_valid_grid_position(pos) {
        Err(e) => {
            return Err(e);
        },
        Ok(()) => {},
    }
    let cell = match game.get_cell_at_pos(pos) {
        Ok(c) => c,
        Err(e) => {
            return Err(e);
        },
    };

    if cell.blocked {
        game.status = Some(StatusNote::JustAWall);
        return Err(GameError::NoCityAtTarget);
    }

    let city = match cell.city {
        Some(c) => c,
        None => {
            game.status = Some(StatusNote::NoCityThere);
            return Err(GameError::NoCityAtTarget);
        },
    };

    if city.state == CityState::OwnedByComputer {
        game.status = Some(StatusNote::OpposingCity);
        return Err(GameError::NoCityAtTarget);
    }

    if city.state == CityState::Destroyed {
        game.status = Some(StatusNote::CityDestroyed);
        return Err(GameError::NoCityAtTarget);
    }

    Ok(())
}

/// Handle one resolved input outcome of the player's turn and say
/// whether the turn is over. A redraw clears the status note, an
/// interaction resolves against the highlighted cell, ending the turn
/// hands over to the computer, and quitting abandons the session into
/// `Stalemate`.
pub fn player_turn(game: &mut Game, outcome: InputOutcome) -> (done: bool)
    requires
        old(game).wf(),
    ensures
        final(game).wf(),
        final(game).grid@ == old(game).grid@,
        final(game).difficulty == old(game).difficulty,
        final(game).cursor_loc == old(game).cursor_loc,
        done == (outcome is EndTurn || outcome is QuitGame),
        final(game).state == if outcome is QuitGame {
            GameState::Stalemate
        } else {
            GameState::PlayerTurn
        },
        final(game).status == match outcome {
            InputOutcome::Redraw => None::<StatusNote>,
            InputOutcome::Interact => spec_interact_status(*old(game), old(game).cursor_loc),
            _ => old(game).status,
        },
{
    game.state = GameState::PlayerTurn;
    match outcome {
        InputOutcome::Redraw => {
            game.status = None;
            false
        },
        InputOutcome::Interact => {
            let pos = game.cursor_loc;
            let _ = player_interact(pos, game);
            false
        },
        InputOutcome::EndTurn => true,
        InputOutcome::Idle => false,
        InputOutcome::QuitGame => {
            game.state = GameState::Stalemate;
            true
        },
    }
}

/// The computer's turn. The opponent's decision policy is an injected
/// capability this engine does not define; the stand-in applies no
/// action. Win detection then runs, and an undecided board hands the
/// turn back to the player.
pub fn computer_turn(game: &mut Game)
    requires
        old(game).wf(),
    ensures
        final(game).wf(),
        final(game).grid@ == old(game).grid@,
        final(game).difficulty == old(game).difficulty,
        final(game).cursor_loc == old(game).cursor_loc,
        final(game).status == old(game).status,
        final(game).state == if count_with_state(old(game).grid@, CityState::OwnedByPlayer) == 0 {
            GameState::ComputerWon
        } else if count_with_state(old(game).grid@, CityState::OwnedByComputer) == 0 {
            GameState::PlayerWon
        } else {
            GameState::PlayerTurn
        },
{
    game.state = GameState::ComputerTurn;
    game.update_win_state();
    if game.state == GameState::ComputerTurn {
        game.state = GameState::PlayerTurn;
    }
}

} // verus!
