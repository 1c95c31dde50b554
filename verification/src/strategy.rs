//! How drawn numbers become decisions: who opens a game, and how many
//! pebbles the program takes.

use vstd::prelude::*;
use vstd::arithmetic::div_mod::{lemma_fundamental_div_mod, lemma_mod_multiples_basic};
use crate::model::{DifficultyLevel, GameState, Player};

verus! {

/// The number that the first four bytes of a seed spell, least significant
/// byte first.
pub open spec fn seed_value(seed: Seq<u8>) -> int {
    seed[0] + 256 * seed[1] + 65_536 * seed[2] + 16_777_216 * seed[3]
}

/// Reads a 32-bit draw from a 32-byte random seed: its first four bytes,
/// least significant first.
pub fn random_u32(seed: &[u8; 32]) -> (draw: u32)
    ensures
        draw == seed_value(seed@),
{
    let b0: u32 = seed[0] as u32;
    let b1: u32 = seed[1] as u32;
    let b2: u32 = seed[2] as u32;
    let b3: u32 = seed[3] as u32;
    b0 + 256 * b1 + 65_536 * b2 + 16_777_216 * b3
}

/// Who opens a game, given a draw: the user on an even draw, the program on
/// an odd one.
pub open spec fn first_player_of(draw: u32) -> Player {
    if draw % 2 == 0 {
        Player::User
    } else {
        Player::Program
    }
}

/// Picks the player who opens a game from a drawn number. Both players are
/// equally likely when the draw is uniform.
pub fn first_player(draw: u32) -> (player: Player)
    ensures
        player == first_player_of(draw),
{
    if draw % 2 == 0 {
        Player::User
    } else {
        Player::Program
    }
}

/// The easy move: the draw folded into `1 ..= max_pebbles_per_turn`.
pub open spec fn easy_move(max_pebbles_per_turn: u32, draw: u32) -> int
    recommends
        max_pebbles_per_turn > 0,
{
    draw % max_pebbles_per_turn + 1
}

/// The hard move: what the pile holds beyond the nearest multiple of
/// `max_pebbles_per_turn + 1` below it, or, when the pile already is such a
/// multiple and no move can win, the most that a turn may take.
pub open spec fn hard_move(pebbles_remaining: u32, max_pebbles_per_turn: u32) -> int {
    let remainder = pebbles_remaining as int % (max_pebbles_per_turn + 1);
    if remainder == 0 {
        max_pebbles_per_turn as int
    } else {
        remainder
    }
}

/// The number of pebbles that the program takes from `state` when `draw` is
/// the number drawn for it.
pub open spec fn program_move(state: GameState, draw: u32) -> int
    recommends
        state.max_pebbles_per_turn > 0,
{
    match state.difficulty {
        DifficultyLevel::Easy => easy_move(state.max_pebbles_per_turn, draw),
        DifficultyLevel::Hard => hard_move(state.pebbles_remaining, state.max_pebbles_per_turn),
    }
}

/// Taking the hard move from a pile that is no multiple of
/// `max_pebbles_per_turn + 1` leaves one that is, and never takes more than
/// the pile holds unless the pile is empty.
pub proof fn lemma_hard_move(pebbles_remaining: u32, max_pebbles_per_turn: u32)
    requires
        max_pebbles_per_turn > 0,
    ensures
        1 <= hard_move(pebbles_remaining, max_pebbles_per_turn) <= max_pebbles_per_turn,
        pebbles_remaining > 0 ==> hard_move(pebbles_remaining, max_pebbles_per_turn)
            <= pebbles_remaining,
        pebbles_remaining as int % (max_pebbles_per_turn + 1) != 0 ==> (pebbles_remaining
            - hard_move(pebbles_remaining, max_pebbles_per_turn)) % (max_pebbles_per_turn + 1) == 0,
{
    let target = max_pebbles_per_turn + 1;
    let pile = pebbles_remaining as int;
    let remainder = pile % target;
    lemma_fundamental_div_mod(pile, target);
    if remainder != 0 {
        assert(pile - remainder == target * (pile / target));
        lemma_mod_multiples_basic(pile / target, target);
        assert((pile / target) * target == target * (pile / target)) by (nonlinear_arith);
    } else if pile > 0 {
        assert(pile / target >= 1) by (nonlinear_arith)
            requires
                pile == target * (pile / target),
                pile > 0,
                target > 0,
        ;
        assert(target * (pile / target) >= target) by (nonlinear_arith)
            requires
                pile / target >= 1,
                target > 0,
        ;
    }
}

/// Chooses the program's move.
///
/// On `Easy` the move is `draw % max_pebbles_per_turn + 1`, uniform over the
/// allowed moves when the draw is uniform. On `Hard` it is the optimal move:
/// from a pile that is no multiple of `max_pebbles_per_turn + 1` the program
/// leaves one that is; from a multiple, where every move loses against good
/// play, it takes the most it may.
pub fn program_turn(game_state: &GameState, draw: u32) -> (pebbles: u32)
    requires
        game_state.max_pebbles_per_turn > 0,
    ensures
        pebbles == program_move(*game_state, draw),
        1 <= pebbles <= game_state.max_pebbles_per_turn,
        game_state.difficulty == DifficultyLevel::Hard && game_state.pebbles_remaining > 0
            ==> pebbles <= game_state.pebbles_remaining,
        game_state.difficulty == DifficultyLevel::Hard && game_state.pebbles_remaining as int
            % game_state.target() != 0 ==> (game_state.pebbles_remaining - pebbles)
            % game_state.target() == 0,
{
    match game_state.difficulty {
        DifficultyLevel::Easy => draw % game_state.max_pebbles_per_turn + 1,
        DifficultyLevel::Hard => {
            proof {
                lemma_hard_move(game_state.pebbles_remaining, game_state.max_pebbles_per_turn);
            }
            let target: u64 = game_state.max_pebbles_per_turn as u64 + 1;
            let remainder: u64 = game_state.pebbles_remaining as u64 % target;
            if remainder == 0 {
                game_state.max_pebbles_per_turn
            } else {
                remainder as u32
            }
        },
    }
}

} // verus!
