//! What holds of every game, stated over the outcomes that the engine's
//! operations are defined by.

use vstd::prelude::*;
use vstd::arithmetic::div_mod::{
    lemma_fundamental_div_mod, lemma_fundamental_div_mod_converse, lemma_mod_multiples_basic,
    lemma_small_mod,
};
use crate::engine::{action_outcome, init_outcome, restart_outcome, turn_outcome, untouched};
use crate::model::{DifficultyLevel, GameError, GameState, PebblesAction, PebblesEvent, PebblesInit, Player};
use crate::strategy::{first_player_of, lemma_hard_move, program_move};

verus! {

/// The program's move is always a legal amount: at least one pebble and at
/// most the per-turn limit.
pub proof fn lemma_program_move_is_legal(state: GameState, draw: u32)
    requires
        state.max_pebbles_per_turn > 0,
    ensures
        1 <= program_move(state, draw) <= state.max_pebbles_per_turn,
{
    lemma_hard_move(state.pebbles_remaining, state.max_pebbles_per_turn);
}

/// Every game whose per-turn limit is at least one and at most its pile can
/// be begun, whatever is drawn: the stored state keeps its bounds, its pile
/// is at most the initial one, and a winner is recorded exactly when the
/// pile is empty.
pub proof fn lemma_valid_game_begins(init: PebblesInit, first_draw: u32, move_draw: u32)
    requires
        1 <= init.max_pebbles_per_turn <= init.pebbles_count,
    ensures
        init_outcome(init, first_draw, move_draw) is Ok,
        init_outcome(init, first_draw, move_draw)->Ok_0.0.wf(),
        init_outcome(init, first_draw, move_draw)->Ok_0.0.pebbles_count == init.pebbles_count,
        0 <= init_outcome(init, first_draw, move_draw)->Ok_0.0.pebbles_remaining
            <= init.pebbles_count,
        init_outcome(init, first_draw, move_draw)->Ok_0.0.winner_matches_pile(),
{
    let fresh = untouched(init, first_player_of(first_draw));
    lemma_program_move_is_legal(fresh, move_draw);
}

/// Parameters outside `1 <= max_pebbles_per_turn <= pebbles_count` begin no
/// game, neither at first nor on a restart.
pub proof fn lemma_invalid_game_is_refused(init: PebblesInit, first_draw: u32, move_draw: u32)
    requires
        !(1 <= init.max_pebbles_per_turn <= init.pebbles_count),
    ensures
        init_outcome(init, first_draw, move_draw) is Err,
        restart_outcome(init, first_draw, move_draw) is Err,
{
}

/// After an accepted action a winner is recorded exactly when the pile is
/// empty, in all but three situations, which the premises leave out: a turn
/// in a game that already has a winner and does not end with that turn;
/// giving up while pebbles remain; a restart whose opening move empties the
/// pile.
pub proof fn lemma_winner_iff_pile_empty(
    state: GameState,
    action: PebblesAction,
    first_draw: u32,
    move_draw: u32,
)
    requires
        action_outcome(state, action, first_draw, move_draw) matches Ok((next, _event)) && match action {
            PebblesAction::Turn(_) => state.winner is None || next.pebbles_remaining == 0,
            PebblesAction::GiveUp => state.pebbles_remaining == 0,
            PebblesAction::Restart { .. } => next.pebbles_remaining > 0,
        },
    ensures
        action_outcome(state, action, first_draw, move_draw)->Ok_0.0.winner_matches_pile(),
{
}

/// In each of the three situations that the previous law leaves out, the
/// stored state does break the rule.
pub proof fn lemma_winner_and_pile_disagree(
    state: GameState,
    action: PebblesAction,
    first_draw: u32,
    move_draw: u32,
)
    requires
        action_outcome(state, action, first_draw, move_draw) matches Ok((next, _event)) && match action {
            PebblesAction::Turn(_) => state.winner is Some && next.pebbles_remaining > 0,
            PebblesAction::GiveUp => state.pebbles_remaining > 0,
            PebblesAction::Restart { .. } => next.pebbles_remaining == 0,
        },
    ensures
        !action_outcome(state, action, first_draw, move_draw)->Ok_0.0.winner_matches_pile(),
{
}

/// An accepted action keeps the bounds of the state.
pub proof fn lemma_action_keeps_bounds(
    state: GameState,
    action: PebblesAction,
    first_draw: u32,
    move_draw: u32,
)
    requires
        state.wf(),
        action_outcome(state, action, first_draw, move_draw) is Ok,
    ensures
        action_outcome(state, action, first_draw, move_draw)->Ok_0.0.wf(),
{
    match action {
        PebblesAction::Restart { difficulty, pebbles_count, max_pebbles_per_turn } => {
            let init = PebblesInit { difficulty, pebbles_count, max_pebbles_per_turn };
            let fresh = untouched(init, first_player_of(first_draw));
            lemma_program_move_is_legal(fresh, move_draw);
        },
        _ => {},
    }
}

/// Giving up makes the program the winner whatever the state was, and
/// changes nothing else.
pub proof fn lemma_give_up_hands_win_to_program(state: GameState, first_draw: u32, move_draw: u32)
    ensures
        action_outcome(state, PebblesAction::GiveUp, first_draw, move_draw) == Ok::<
            (GameState, PebblesEvent),
            GameError,
        >((GameState { winner: Some(Player::Program), ..state }, PebblesEvent::Won(Player::Program))),
{
}

/// A turn of no pebbles, or of more than the per-turn limit, is refused.
pub proof fn lemma_illegal_turn_is_refused(state: GameState, pebbles: u32, move_draw: u32)
    requires
        pebbles == 0 || pebbles > state.max_pebbles_per_turn,
    ensures
        turn_outcome(state, pebbles, move_draw) == Err::<
            (GameState, PebblesEvent),
            GameError,
        >(GameError::InvalidTurn),
{
}

/// An accepted turn shrinks the pile and touches nothing but the pile and
/// the winner.
pub proof fn lemma_turn_shrinks_pile(state: GameState, pebbles: u32, move_draw: u32)
    requires
        turn_outcome(state, pebbles, move_draw) is Ok,
    ensures
        ({
            let next = turn_outcome(state, pebbles, move_draw)->Ok_0.0;
            &&& next.pebbles_remaining < state.pebbles_remaining
            &&& next.pebbles_remaining <= state.pebbles_remaining - pebbles
            &&& next.pebbles_count == state.pebbles_count
            &&& next.max_pebbles_per_turn == state.max_pebbles_per_turn
            &&& next.difficulty == state.difficulty
            &&& next.first_player == state.first_player
        }),
{
    if 0 < pebbles <= state.max_pebbles_per_turn && pebbles < state.pebbles_remaining {
        let left = (state.pebbles_remaining - pebbles) as u32;
        lemma_program_move_is_legal(GameState { pebbles_remaining: left, ..state }, move_draw);
    }
}

/// On `Hard`, when the program must move from a pile that is no multiple of
/// `max_pebbles_per_turn + 1`, it leaves a pile that is one.
pub proof fn lemma_hard_leaves_multiple(state: GameState, draw: u32)
    requires
        state.max_pebbles_per_turn > 0,
        state.difficulty == DifficultyLevel::Hard,
        state.pebbles_remaining as int % state.target() != 0,
    ensures
        1 <= program_move(state, draw) <= state.pebbles_remaining,
        (state.pebbles_remaining - program_move(state, draw)) % state.target() == 0,
{
    lemma_hard_move(state.pebbles_remaining, state.max_pebbles_per_turn);
    if state.pebbles_remaining == 0 {
        lemma_small_mod(0, state.target() as nat);
    }
}

/// On `Hard`, a user who must move from a pile that is a multiple of
/// `max_pebbles_per_turn + 1` cannot win with that move and gets such a pile
/// back: every legal turn is accepted, and after the program's reply the
/// pile is smaller by exactly `max_pebbles_per_turn + 1`. The program has
/// won if that emptied the pile; else the game goes on.
pub proof fn lemma_hard_holds_multiple(state: GameState, pebbles: u32, move_draw: u32)
    requires
        state.difficulty == DifficultyLevel::Hard,
        state.pebbles_remaining > 0,
        state.pebbles_remaining as int % state.target() == 0,
        0 < pebbles <= state.max_pebbles_per_turn,
    ensures
        turn_outcome(state, pebbles, move_draw) is Ok,
        ({
            let (next, event) = turn_outcome(state, pebbles, move_draw)->Ok_0;
            &&& next.pebbles_remaining == state.pebbles_remaining - state.target()
            &&& next.pebbles_remaining as int % next.target() == 0
            &&& event == if next.pebbles_remaining == 0 {
                PebblesEvent::Won(Player::Program)
            } else {
                PebblesEvent::CounterTurn(next.pebbles_remaining)
            }
            &&& next.winner == if next.pebbles_remaining == 0 {
                Some(Player::Program)
            } else {
                state.winner
            }
        }),
{
    let target = state.target();
    let pile = state.pebbles_remaining as int;
    lemma_fundamental_div_mod(pile, target);
    let rounds = pile / target;
    assert(pile == target * rounds);
    assert(rounds >= 1) by (nonlinear_arith)
        requires
            pile == target * rounds,
            pile > 0,
            target > 0,
    ;
    assert(target * rounds == target * (rounds - 1) + target) by (nonlinear_arith);
    let left = pile - pebbles;
    // What the user leaves lies `target - pebbles` above a multiple of the target.
    assert(left == target * (rounds - 1) + (target - pebbles));
    assert(0 < target - pebbles < target);
    lemma_fundamental_div_mod_converse(
        left,
        target,
        rounds - 1,
        target - pebbles,
    );
    assert(left % target == target - pebbles);
    assert(target * (rounds - 1) == (rounds - 1) * target) by (nonlinear_arith);
    lemma_mod_multiples_basic(rounds - 1, target);
}

} // verus!
