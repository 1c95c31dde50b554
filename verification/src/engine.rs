//! The engine: a single slot that holds the current game, and the three
//! operations on it. Each operation is a function of the slot, its arguments
//! and the numbers drawn for it; a refused operation leaves the slot as it
//! was.

use vstd::prelude::*;
use crate::model::{DifficultyLevel, GameError, GameState, PebblesAction, PebblesEvent, PebblesInit, Player};
use crate::strategy::{first_player, first_player_of, program_move, program_turn};

verus! {

/// Why the parameters of a new game are refused, if they are: checked in the
/// order pile, per-turn limit, limit against pile.
pub open spec fn init_error(init: PebblesInit) -> Option<GameError> {
    if init.pebbles_count == 0 {
        Some(GameError::NoPebbles)
    } else if init.max_pebbles_per_turn == 0 {
        Some(GameError::NoPebblesPerTurn)
    } else if init.max_pebbles_per_turn > init.pebbles_count {
        Some(GameError::TurnLimitExceedsPile)
    } else {
        None
    }
}

/// The state of a game that has just been set up and in which nobody has
/// moved: a full pile and no winner.
pub open spec fn untouched(init: PebblesInit, first: Player) -> GameState {
    GameState {
        pebbles_count: init.pebbles_count,
        max_pebbles_per_turn: init.max_pebbles_per_turn,
        pebbles_remaining: init.pebbles_count,
        difficulty: init.difficulty,
        first_player: first,
        winner: None,
    }
}

/// The state in which a new game awaits the user's first action: the
/// untouched game if the user opens it, else the game after the program's
/// opening move. No winner is recorded here.
pub open spec fn opening(init: PebblesInit, first_draw: u32, move_draw: u32) -> GameState
    recommends
        init_error(init) is None,
{
    let fresh = untouched(init, first_player_of(first_draw));
    match fresh.first_player {
        Player::User => fresh,
        Player::Program => GameState {
            pebbles_remaining: (fresh.pebbles_remaining - program_move(fresh, move_draw)) as u32,
            ..fresh
        },
    }
}

/// What beginning the first game yields: the stored state and the event, if
/// any. A program that opens and empties the pile at once has won.
pub open spec fn init_outcome(init: PebblesInit, first_draw: u32, move_draw: u32) -> Result<
    (GameState, Option<PebblesEvent>),
    GameError,
> {
    match init_error(init) {
        Some(error) => Err(error),
        None => {
            let state = opening(init, first_draw, move_draw);
            match state.first_player {
                Player::User => Ok((state, None)),
                Player::Program => if state.pebbles_remaining == 0 {
                    Ok(
                        (
                            GameState { winner: Some(Player::Program), ..state },
                            Some(PebblesEvent::Won(Player::Program)),
                        ),
                    )
                } else {
                    Ok((state, Some(PebblesEvent::CounterTurn(state.pebbles_remaining))))
                },
            }
        },
    }
}

/// What a restart yields. The new game is set up as a first game is, but an
/// opening move that empties the pile is not treated as a win: no winner is
/// recorded and the event is a counter turn in every case.
pub open spec fn restart_outcome(init: PebblesInit, first_draw: u32, move_draw: u32) -> Result<
    (GameState, PebblesEvent),
    GameError,
> {
    match init_error(init) {
        Some(error) => Err(error),
        None => {
            let state = opening(init, first_draw, move_draw);
            Ok((state, PebblesEvent::CounterTurn(state.pebbles_remaining)))
        },
    }
}

/// What a user's turn of `pebbles` yields from `state`, with `move_draw`
/// drawn for the program's reply.
pub open spec fn turn_outcome(state: GameState, pebbles: u32, move_draw: u32) -> Result<
    (GameState, PebblesEvent),
    GameError,
> {
    if pebbles == 0 || pebbles > state.max_pebbles_per_turn {
        Err(GameError::InvalidTurn)
    } else if pebbles > state.pebbles_remaining {
        Err(GameError::TurnExceedsPile)
    } else if pebbles == state.pebbles_remaining {
        Ok(
            (
                GameState { pebbles_remaining: 0, winner: Some(Player::User), ..state },
                PebblesEvent::Won(Player::User),
            ),
        )
    } else {
        let left = (state.pebbles_remaining - pebbles) as u32;
        let reply = program_move(GameState { pebbles_remaining: left, ..state }, move_draw);
        if reply > left {
            Err(GameError::ProgramMoveExceedsPile)
        } else if reply == left {
            Ok(
                (
                    GameState { pebbles_remaining: 0, winner: Some(Player::Program), ..state },
                    PebblesEvent::Won(Player::Program),
                ),
            )
        } else {
            Ok(
                (
                    GameState { pebbles_remaining: (left - reply) as u32, ..state },
                    PebblesEvent::CounterTurn((left - reply) as u32),
                ),
            )
        }
    }
}

/// What conceding yields: the program wins, whatever the state was, and the
/// pile is left as it is.
pub open spec fn give_up_outcome(state: GameState) -> (GameState, PebblesEvent) {
    (GameState { winner: Some(Player::Program), ..state }, PebblesEvent::Won(Player::Program))
}

/// What `action` yields from `state`, with `first_draw` drawn for the choice
/// of who opens a restarted game and `move_draw` for the program's move.
pub open spec fn action_outcome(
    state: GameState,
    action: PebblesAction,
    first_draw: u32,
    move_draw: u32,
) -> Result<(GameState, PebblesEvent), GameError> {
    match action {
        PebblesAction::Turn(pebbles) => turn_outcome(state, pebbles, move_draw),
        PebblesAction::GiveUp => Ok(give_up_outcome(state)),
        PebblesAction::Restart { difficulty, pebbles_count, max_pebbles_per_turn } => restart_outcome(
            PebblesInit { difficulty, pebbles_count, max_pebbles_per_turn },
            first_draw,
            move_draw,
        ),
    }
}

/// Sets up a new game and lets the program make its opening move where it
/// moves first. No winner is recorded.
pub fn open_game(init: PebblesInit, first_draw: u32, move_draw: u32) -> (result: Result<
    GameState,
    GameError,
>)
    ensures
        result == match init_error(init) {
            Some(error) => Err::<GameState, GameError>(error),
            None => Ok(opening(init, first_draw, move_draw)),
        },
        result matches Ok(state) ==> state.wf(),
        1 <= init.max_pebbles_per_turn <= init.pebbles_count ==> result is Ok,
{
    if init.pebbles_count == 0 {
        return Err(GameError::NoPebbles);
    }
    if init.max_pebbles_per_turn == 0 {
        return Err(GameError::NoPebblesPerTurn);
    }
    if init.max_pebbles_per_turn > init.pebbles_count {
        return Err(GameError::TurnLimitExceedsPile);
    }
    let mut state = GameState {
        pebbles_count: init.pebbles_count,
        max_pebbles_per_turn: init.max_pebbles_per_turn,
        pebbles_remaining: init.pebbles_count,
        difficulty: init.difficulty,
        first_player: first_player(first_draw),
        winner: None,
    };
    if state.first_player == Player::Program {
        let taken: u32 = program_turn(&state, move_draw);
        state.pebbles_remaining = state.pebbles_remaining - taken;
    }
    Ok(state)
}

/// Applies a user's turn of `pebbles` to `state` and lets the program reply.
///
/// The turn is refused, and `state` left as it was, when `pebbles` is zero or
/// above the per-turn limit, when it is more than the pile holds, or when the
/// program's reply would take more than the user left.
pub fn take_turn(state: &mut GameState, pebbles: u32, move_draw: u32) -> (result: Result<
    PebblesEvent,
    GameError,
>)
    ensures
        match turn_outcome(*old(state), pebbles, move_draw) {
            Ok((next, event)) => *final(state) == next && result == Ok::<PebblesEvent, GameError>(
                event,
            ),
            Err(error) => *final(state) == *old(state) && result == Err::<PebblesEvent, GameError>(
                error,
            ),
        },
        old(state).wf() ==> final(state).wf(),
        pebbles == 0 || pebbles > old(state).max_pebbles_per_turn ==> result == Err::<
            PebblesEvent,
            GameError,
        >(GameError::InvalidTurn) && *final(state) == *old(state),
        result is Ok && old(state).winner is None ==> final(state).winner_matches_pile(),
        result is Ok ==> final(state).pebbles_remaining < old(state).pebbles_remaining,
        old(state).difficulty == DifficultyLevel::Hard ==> result != Err::<PebblesEvent, GameError>(
            GameError::ProgramMoveExceedsPile,
        ),
{
    if pebbles == 0 || pebbles > state.max_pebbles_per_turn {
        return Err(GameError::InvalidTurn);
    }
    if pebbles > state.pebbles_remaining {
        return Err(GameError::TurnExceedsPile);
    }
    let left: u32 = state.pebbles_remaining - pebbles;
    if left == 0 {
        state.pebbles_remaining = 0;
        state.winner = Some(Player::User);
        return Ok(PebblesEvent::Won(Player::User));
    }
    let after_user = GameState {
        pebbles_count: state.pebbles_count,
        max_pebbles_per_turn: state.max_pebbles_per_turn,
        pebbles_remaining: left,
        difficulty: state.difficulty,
        first_player: state.first_player,
        winner: state.winner,
    };
    let reply: u32 = program_turn(&after_user, move_draw);
    if reply > left {
        return Err(GameError::ProgramMoveExceedsPile);
    }
    state.pebbles_remaining = left - reply;
    if state.pebbles_remaining == 0 {
        state.winner = Some(Player::Program);
        Ok(PebblesEvent::Won(Player::Program))
    } else {
        Ok(PebblesEvent::CounterTurn(state.pebbles_remaining))
    }
}

/// The engine's single slot: empty until a game is begun, and from then on
/// holding the one current game.
pub struct PebblesGame {
    slot: Option<GameState>,
}

impl View for PebblesGame {
    type V = Option<GameState>;

    /// The stored game, if one was begun.
    closed spec fn view(&self) -> Option<GameState> {
        self.slot
    }
}

impl PebblesGame {
    /// Every stored game keeps its bounds.
    #[verifier::type_invariant]
    spec fn bounded(&self) -> bool {
        self.slot matches Some(state) ==> state.wf()
    }

    /// An engine in which no game has been begun.
    pub fn new() -> (game: Self)
        ensures
            game@ is None,
    {
        PebblesGame { slot: None }
    }

    /// Begins a game and stores it as the current one.
    ///
    /// `first_draw` decides who opens the game and `move_draw` decides the
    /// program's opening move on `Easy`. When the user opens, nothing is
    /// reported. When the program opens, its move is made at once: the
    /// result reports the pile it left, or its win if it emptied the pile.
    ///
    /// Parameters with `1 <= max_pebbles_per_turn <= pebbles_count` are always
    /// accepted; any others are refused and the slot is left as it was.
    pub fn init(&mut self, init: PebblesInit, first_draw: u32, move_draw: u32) -> (result: Result<
        Option<PebblesEvent>,
        GameError,
    >)
        ensures
            match init_outcome(init, first_draw, move_draw) {
                Ok((state, event)) => final(self)@ == Some(state) && result == Ok::<
                    Option<PebblesEvent>,
                    GameError,
                >(event),
                Err(error) => final(self)@ == old(self)@ && result == Err::<
                    Option<PebblesEvent>,
                    GameError,
                >(error),
            },
            1 <= init.max_pebbles_per_turn <= init.pebbles_count <==> result is Ok,
            result is Ok ==> {
                &&& final(self)@ is Some
                &&& final(self)@->0.wf()
                &&& final(self)@->0.pebbles_count == init.pebbles_count
                &&& 0 <= final(self)@->0.pebbles_remaining <= init.pebbles_count
                &&& final(self)@->0.winner_matches_pile()
            },
    {
        match open_game(init, first_draw, move_draw) {
            Err(error) => Err(error),
            Ok(opened) => {
                let mut state = opened;
                let event = match state.first_player {
                    Player::User => None,
                    Player::Program => if state.pebbles_remaining == 0 {
                        state.winner = Some(Player::Program);
                        Some(PebblesEvent::Won(Player::Program))
                    } else {
                        Some(PebblesEvent::CounterTurn(state.pebbles_remaining))
                    },
                };
                self.slot = Some(state);
                Ok(event)
            },
        }
    }

    /// Applies a user's action to the current game.
    ///
    /// A turn takes the user's pebbles and then the program's; whoever
    /// empties the pile wins. Giving up hands the win to the program and
    /// leaves the pile alone. A restart replaces the game by a new one, set
    /// up as by `init` except that an opening move which empties the pile is
    /// reported as a counter turn and records no winner.
    ///
    /// `first_draw` is used by a restart only, `move_draw` by a turn and by a
    /// restart. A refused action leaves the slot as it was.
    pub fn handle(&mut self, action: PebblesAction, first_draw: u32, move_draw: u32) -> (result:
        Result<PebblesEvent, GameError>)
        ensures
            match old(self)@ {
                None => final(self)@ is None && result == Err::<PebblesEvent, GameError>(
                    GameError::NotInitialized,
                ),
                Some(state) => match action_outcome(state, action, first_draw, move_draw) {
                    Ok((next, event)) => final(self)@ == Some(next) && result == Ok::<
                        PebblesEvent,
                        GameError,
                    >(event),
                    Err(error) => final(self)@ == old(self)@ && result == Err::<
                        PebblesEvent,
                        GameError,
                    >(error),
                },
            },
            result is Err ==> final(self)@ == old(self)@,
            result is Ok ==> final(self)@ is Some && final(self)@->0.wf(),
            action is GiveUp && old(self)@ is Some ==> {
                &&& result == Ok::<PebblesEvent, GameError>(PebblesEvent::Won(Player::Program))
                &&& final(self)@->0.winner == Some(Player::Program)
                &&& final(self)@->0.pebbles_remaining == old(self)@->0.pebbles_remaining
            },
            action matches PebblesAction::Turn(pebbles) && old(self)@ matches Some(state) && (
            pebbles == 0 || pebbles > state.max_pebbles_per_turn) ==> result == Err::<
                PebblesEvent,
                GameError,
            >(GameError::InvalidTurn),
            result is Ok && action is Turn && old(self)@->0.winner is None
                ==> final(self)@->0.winner_matches_pile(),
            result is Ok && action is Restart && final(self)@->0.pebbles_remaining > 0
                ==> final(self)@->0.winner_matches_pile(),
    {
        proof {
            use_type_invariant(&*self);
        }
        let mut state = match self.slot {
            None => { return Err(GameError::NotInitialized); },
            Some(state) => state,
        };
        let result = match action {
            PebblesAction::Turn(pebbles) => take_turn(&mut state, pebbles, move_draw),
            PebblesAction::GiveUp => {
                state.winner = Some(Player::Program);
                Ok(PebblesEvent::Won(Player::Program))
            },
            PebblesAction::Restart { difficulty, pebbles_count, max_pebbles_per_turn } => {
                let init = PebblesInit { difficulty, pebbles_count, max_pebbles_per_turn };
                match open_game(init, first_draw, move_draw) {
                    Err(error) => Err(error),
                    Ok(opened) => {
                        state = opened;
                        Ok(PebblesEvent::CounterTurn(state.pebbles_remaining))
                    },
                }
            },
        };
        if result.is_ok() {
            self.slot = Some(state);
        }
        result
    }

    /// A snapshot of the current game. Refused before any game was begun.
    pub fn state(&self) -> (result: Result<GameState, GameError>)
        ensures
            result == match self@ {
                Some(state) => Ok::<GameState, GameError>(state),
                None => Err(GameError::NotInitialized),
            },
            result matches Ok(state) ==> state.wf(),
    {
        proof {
            use_type_invariant(self);
        }
        match self.slot {
            Some(state) => Ok(state),
            None => Err(GameError::NotInitialized),
        }
    }
}

} // verus!
