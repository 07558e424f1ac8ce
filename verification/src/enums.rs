//! The closed sum types of the engine: city ownership, input outcomes,
//! the turn state machine, difficulty tiers, errors, commands and actions.

use vstd::prelude::*;

use crate::structs::TerminalPos;

verus! {

/// Who holds a city. `Destroyed` is terminal: a ruin that still occupies
/// its cell until it is explicitly cleaned up.
#[derive(Copy, Clone, Debug, PartialEq, Eq, Structural)]
pub enum CityState {
    OwnedByPlayer,
    OwnedByComputer,
    Destroyed,
}

/// What one decoded input event amounts to for the turn loop.
#[derive(Copy, Clone, Debug, PartialEq, Eq, Structural)]
pub enum InputOutcome {
    Idle,
    Redraw,
    Interact,
    EndTurn,
    QuitGame,
}

/// The turn state machine. `Setup` is initial; `PlayerWon`, `ComputerWon`
/// and `Stalemate` are terminal.
#[derive(Copy, Clone, Debug, PartialEq, Eq, Structural)]
pub enum GameState {
    Setup,
    PlayerTurn,
    ComputerTurn,
    PlayerWon,
    ComputerWon,
    Stalemate,
}

/// The four fixed difficulty tiers.
#[derive(Copy, Clone, Debug, PartialEq, Eq, Structural)]
pub enum GameDifficulty {
    Easy,
    Standard,
    Hard,
    NotEvenRemotelyFair,
}

/// Every way an action or interaction can be rejected. All are recoverable:
/// a rejected action is simply not applied.
#[derive(Copy, Clone, Debug, PartialEq, Eq, Structural)]
pub enum GameError {
    NotValidPosition,
    NoCityAtTarget,
    NoCityAtSource,
    NoWallAtTarget,
    TargetIsOccupied,
    TargetIsSource,
    NeedTargetPosition,
    NotEnoughResources,
    IO,
}

/// High-level commands the input layer decodes raw events into.
#[derive(Copy, Clone, Debug, PartialEq, Eq, Structural)]
pub enum RawCommand {
    MoveLeft,
    MoveRight,
    MoveUp,
    MoveDown,
    Interact,
    EndTurn,
    QuitGame,
    Idle,
}

/// An action kind without its positions, as offered by an action menu.
#[derive(Copy, Clone, Debug, PartialEq, Eq, Structural)]
pub enum GameActionSkeleton {
    Produce,
    UpgradeAttack,
    UpgradeProduce,
    DestroyWall,
    AttackCity,
    GenerateCity,
}

/// A fully-specified action. Every variant carries a `source` position;
/// the three obstacle/combat/expansion variants also carry a `target`.
#[derive(Copy, Clone, Debug, PartialEq, Eq, Structural)]
pub enum GameAction {
    Produce { source: TerminalPos },
    UpgradeAttack { source: TerminalPos },
    UpgradeProduce { source: TerminalPos },
    DestroyWall { source: TerminalPos, target: TerminalPos },
    AttackCity { source: TerminalPos, target: TerminalPos },
    GenerateCity { source: TerminalPos, target: TerminalPos },
}

/// The short status notes the engine may leave for the presentation layer
/// after a rejected interaction.
#[derive(Copy, Clone, Debug, PartialEq, Eq, Structural)]
pub enum StatusNote {
    JustAWall,
    NoCityThere,
    OpposingCity,
    CityDestroyed,
}

} // verus!
