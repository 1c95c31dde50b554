//! The game's data: players, difficulty, the messages that drive a game and
//! the state that a game keeps between messages.

use vstd::prelude::*;

verus! {

/// One of the two sides of a game: the owner of a turn, or a winner.
#[derive(Debug, Clone, Copy, PartialEq, Eq, Structural)]
pub enum Player {
    User,
    Program,
}

/// How the program chooses its moves. Fixed for the lifetime of one game.
#[derive(Debug, Clone, Copy, PartialEq, Eq, Structural)]
pub enum DifficultyLevel {
    /// A move drawn at random among the allowed ones.
    Easy,
    /// The optimal move of the subtraction game.
    Hard,
}

/// The parameters of a new game.
#[derive(Debug, Clone, Copy, PartialEq, Eq)]
pub struct PebblesInit {
    pub difficulty: DifficultyLevel,
    pub pebbles_count: u32,
    pub max_pebbles_per_turn: u32,
}

/// What the user asks of a running game.
#[derive(Debug, Clone, Copy, PartialEq, Eq)]
pub enum PebblesAction {
    /// Take this many pebbles from the pile.
    Turn(u32),
    /// Concede the game to the program.
    GiveUp,
    /// Drop the current game and begin another.
    Restart { difficulty: DifficultyLevel, pebbles_count: u32, max_pebbles_per_turn: u32 },
}

/// What the engine reports back after an operation.
#[derive(Debug, Clone, Copy, PartialEq, Eq)]
pub enum PebblesEvent {
    /// The pile's size after the program's latest move.
    CounterTurn(u32),
    /// The game is over and this player has won.
    Won(Player),
}

/// Why an operation was refused. A refused operation changes nothing.
#[derive(Debug, Clone, Copy, PartialEq, Eq)]
pub enum GameError {
    /// A game was asked for with an empty pile.
    NoPebbles,
    /// A game was asked for in which no pebble may be taken per turn.
    NoPebblesPerTurn,
    /// A game was asked for whose per-turn limit is larger than its pile.
    TurnLimitExceedsPile,
    /// An action or a read came before any game was begun.
    NotInitialized,
    /// The user asked for no pebbles, or for more than the per-turn limit.
    InvalidTurn,
    /// The user asked for more pebbles than the pile holds.
    TurnExceedsPile,
    /// The program's reply would take more pebbles than the pile holds.
    ProgramMoveExceedsPile,
}

/// Everything a game keeps between two operations.
#[derive(Debug, Clone, Copy, PartialEq, Eq)]
pub struct GameState {
    /// The pile's size when the game began.
    pub pebbles_count: u32,
    /// The most pebbles that one turn may take.
    pub max_pebbles_per_turn: u32,
    /// The pile's size now.
    pub pebbles_remaining: u32,
    pub difficulty: DifficultyLevel,
    /// Who moved first. Informational once the game has begun.
    pub first_player: Player,
    /// `None` while the game is in progress.
    pub winner: Option<Player>,
}

impl GameState {
    /// The bounds that hold of every state the engine stores: the per-turn
    /// limit is at least one and at most the initial pile, and the pile never
    /// exceeds its initial size.
    pub open spec fn wf(&self) -> bool {
        &&& 1 <= self.max_pebbles_per_turn <= self.pebbles_count
        &&& self.pebbles_remaining <= self.pebbles_count
    }

    /// A winner is recorded exactly when the pile is empty.
    pub open spec fn winner_matches_pile(&self) -> bool {
        self.winner.is_some() <==> self.pebbles_remaining == 0
    }

    /// The modulus of the subtraction game: one more than the per-turn limit.
    /// A pile that is a multiple of it is lost for whoever must move, if the
    /// opponent plays well.
    pub open spec fn target(&self) -> int {
        self.max_pebbles_per_turn + 1
    }
}

} // verus!
