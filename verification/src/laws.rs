//! What holds of every game, stated over the rules and proved.

use crate::io::{DifficultyLevel, GameState, PebblesAction, PebblesEvent, PebblesInit, Player, Reply};
use crate::strategy::{lemma_leaves_multiple_iff, leaves_multiple};
use vstd::arithmetic::div_mod::*;
use vstd::prelude::*;

verus! {

/// One turn as it reaches the game: what the human takes, and the random
/// number drawn for the automated player's answer.
pub struct HumanTurn {
    pub take: u32,
    pub draw: u32,
}

/// The record after the human has submitted `turns` one after another.
pub open spec fn play(state: GameState, turns: Seq<HumanTurn>) -> GameState
    decreases turns.len(),
{
    if turns.len() == 0 {
        state
    } else {
        play(state, turns.drop_last()).after_turn(turns.last().take, turns.last().draw)
    }
}

/// Every one of `turns` reaches a live game and is accepted by it.
pub open spec fn all_accepted(state: GameState, turns: Seq<HumanTurn>) -> bool
    decreases turns.len(),
{
    turns.len() > 0 ==> {
        &&& all_accepted(state, turns.drop_last())
        &&& play(state, turns.drop_last()).live()
        &&& play(state, turns.drop_last()).turn_rejection(turns.last().take) is None
    }
}

/// A turn that exceeds the per-turn limit or the pile changes neither the
/// pile nor the winner, and is answered by a rejection while the game is
/// live.
pub proof fn lemma_rejected_turn_changes_nothing(state: GameState, take: u32, draw: u32)
    requires
        take > state.max_pebbles_per_turn || take > state.pebbles_remaining,
    ensures
        state.after_turn(take, draw) == state,
        state.after_turn(take, draw).pebbles_remaining == state.pebbles_remaining,
        state.after_turn(take, draw).winner == state.winner,
        state.live() ==> state.turn_reply(take, draw) matches Some(Reply::Rejected(_)),
{
}

/// Once a game has a winner, a turn or a forfeit changes nothing and gets no
/// reply.
pub proof fn lemma_finished_game_stays(
    state: GameState,
    action: PebblesAction,
    first_player: Player,
    draw: u32,
)
    requires
        state.winner is Some,
        action is Turn || action is GiveUp,
    ensures
        state.after_action(action, first_player, draw) == state,
        state.action_reply(action, first_player, draw) is None,
{
}

/// A forfeit on a live game makes the automated player the winner, whatever
/// the pile holds, and leaves the rest of the record alone.
pub proof fn lemma_give_up_loses(state: GameState)
    requires
        state.live(),
    ensures
        state.after_give_up().winner == Some(Player::Automated),
        state.after_give_up().pebbles_remaining == state.pebbles_remaining,
        state.give_up_reply() == Some(Reply::Event(PebblesEvent::Won(Player::Automated))),
{
}

/// A forfeit right after a game was set up makes the automated player the
/// winner too.
pub proof fn lemma_give_up_after_setup(init: PebblesInit, first_player: Player, draw: u32)
    ensures
        GameState::initial(init, first_player, draw).after_give_up().winner == Some(
            Player::Automated,
        ),
{
}

/// A restart leaves a live game with a full pile, whatever state the game
/// was in and whoever is drawn to move first.
pub proof fn lemma_restart_resets(
    state: GameState,
    init: PebblesInit,
    first_player: Player,
    draw: u32,
)
    ensures
        ({
            let action = PebblesAction::Restart {
                difficulty: init.difficulty,
                pebbles_count: init.pebbles_count,
                max_pebbles_per_turn: init.max_pebbles_per_turn,
            };
            let next = state.after_action(action, first_player, draw);
            &&& next.pebbles_remaining == init.pebbles_count
            &&& next.pebbles_count == init.pebbles_count
            &&& next.max_pebbles_per_turn == init.max_pebbles_per_turn
            &&& next.difficulty == init.difficulty
            &&& next.first_player == first_player
            &&& next.winner is None
        }),
{
}

/// A request keeps a record well formed; a turn or a forfeit keeps the
/// configuration and never lets the pile grow; and a live game that is left
/// with a full or partly full pile by a turn has no winner.
pub proof fn lemma_request_keeps_invariant(
    state: GameState,
    action: PebblesAction,
    first_player: Player,
    draw: u32,
)
    requires
        state.wf(),
        action.valid(),
    ensures
        state.after_action(action, first_player, draw).wf(),
        !(action is Restart) ==> ({
            let next = state.after_action(action, first_player, draw);
            &&& next.pebbles_count == state.pebbles_count
            &&& next.max_pebbles_per_turn == state.max_pebbles_per_turn
            &&& next.difficulty == state.difficulty
            &&& next.first_player == state.first_player
            &&& next.pebbles_remaining <= state.pebbles_remaining
            &&& state.winner is Some ==> next.winner == state.winner
        }),
        state.live() && action is Turn && state.after_action(
            action,
            first_player,
            draw,
        ).pebbles_remaining > 0 ==> state.after_action(action, first_player, draw).live(),
{
}

/// One round of a hard game in which the human faces a pile that is a
/// multiple of `max_pebbles_per_turn + 1`: whatever the human takes, at
/// least one pebble and within the rules, the automated player takes what
/// is missing to `max_pebbles_per_turn + 1`, and has won where that was the
/// whole pile.
pub proof fn lemma_hard_round(state: GameState, take: u32, draw: u32)
    requires
        state.wf(),
        state.live(),
        state.difficulty == DifficultyLevel::Hard,
        state.pebbles_remaining as int % (state.max_pebbles_per_turn + 1) == 0,
        1 <= take,
        state.turn_rejection(take) is None,
    ensures
        state.pebbles_remaining >= state.max_pebbles_per_turn + 1,
        state.after_turn(take, draw).pebbles_remaining == state.pebbles_remaining - (
        state.max_pebbles_per_turn + 1),
        state.after_turn(take, draw).pebbles_remaining as int % (state.max_pebbles_per_turn + 1)
            == 0,
        state.pebbles_remaining == state.max_pebbles_per_turn + 1 ==> {
            &&& state.after_turn(take, draw).winner == Some(Player::Automated)
            &&& state.turn_reply(take, draw) == Some(
                Reply::Event(PebblesEvent::Won(Player::Automated)),
            )
        },
        state.pebbles_remaining > state.max_pebbles_per_turn + 1 ==> {
            &&& state.after_turn(take, draw).live()
            &&& state.turn_reply(take, draw) == Some(
                Reply::Event(
                    PebblesEvent::CounterTurn((state.max_pebbles_per_turn + 1 - take) as u32),
                ),
            )
        },
{
    let max = state.max_pebbles_per_turn as int;
    let d = max + 1;
    let pile = state.pebbles_remaining as int;
    lemma_mod_is_zero(pile as nat, d as nat);
    let mid = state.after_human_move(take);
    assert(mid.pebbles_remaining == pile - take);
    assert(mid.live());
    let answer = d - take;
    assert(leaves_multiple(pile - take, max, answer)) by {
        lemma_mod_sub_multiples_vanish(pile, d);
    }
    lemma_leaves_multiple_iff(pile - take, max, answer);
    assert(mid.automated_take(draw) == answer);
    lemma_mod_sub_multiples_vanish(pile, d);
}

/// In a hard game in which the human faces a pile that is a multiple of
/// `max_pebbles_per_turn + 1`, the human never wins: whatever turns of at
/// least one pebble are submitted, in whatever number, the human is not the
/// winner afterwards, and while the game is live the human faces such a
/// pile again.
pub proof fn lemma_hard_second_mover_never_loses(state: GameState, turns: Seq<HumanTurn>)
    requires
        state.wf(),
        state.live(),
        state.difficulty == DifficultyLevel::Hard,
        state.pebbles_remaining as int % (state.max_pebbles_per_turn + 1) == 0,
        forall|i: int| 0 <= i < turns.len() ==> (#[trigger] turns[i]).take >= 1,
    ensures
        play(state, turns).winner != Some(Player::Human),
        play(state, turns).live() ==> play(state, turns).pebbles_remaining as int % (
        state.max_pebbles_per_turn + 1) == 0,
        play(state, turns).wf(),
        play(state, turns).difficulty == DifficultyLevel::Hard,
        play(state, turns).max_pebbles_per_turn == state.max_pebbles_per_turn,
    decreases turns.len(),
{
    if turns.len() > 0 {
        let before = play(state, turns.drop_last());
        let last = turns.last();
        assert forall|i: int| 0 <= i < turns.drop_last().len() implies (
        #[trigger] turns.drop_last()[i]).take >= 1 by {
            assert(turns.drop_last()[i] == turns[i]);
        }
        lemma_hard_second_mover_never_loses(state, turns.drop_last());
        if before.live() && before.turn_rejection(last.take) is None {
            lemma_hard_round(before, last.take, last.draw);
        }
    }
}

/// In a hard game in which the human faces a pile that is a multiple of
/// `max_pebbles_per_turn + 1`, every accepted turn of at least one pebble
/// costs the pile exactly `max_pebbles_per_turn + 1` pebbles, and the turn
/// that empties it makes the automated player the winner.
pub proof fn lemma_hard_second_mover_wins(state: GameState, turns: Seq<HumanTurn>)
    requires
        state.wf(),
        state.live(),
        state.difficulty == DifficultyLevel::Hard,
        state.pebbles_remaining as int % (state.max_pebbles_per_turn + 1) == 0,
        forall|i: int| 0 <= i < turns.len() ==> (#[trigger] turns[i]).take >= 1,
        all_accepted(state, turns),
    ensures
        play(state, turns).pebbles_remaining == state.pebbles_remaining - turns.len() * (
        state.max_pebbles_per_turn + 1),
        turns.len() > 0 && play(state, turns).pebbles_remaining == 0 ==> play(
            state,
            turns,
        ).winner == Some(Player::Automated),
        play(state, turns).pebbles_remaining > 0 ==> play(state, turns).live(),
    decreases turns.len(),
{
    let d = state.max_pebbles_per_turn + 1;
    if turns.len() > 0 {
        let front = turns.drop_last();
        let before = play(state, front);
        let last = turns.last();
        assert forall|i: int| 0 <= i < front.len() implies (#[trigger] front[i]).take >= 1 by {
            assert(front[i] == turns[i]);
        }
        lemma_hard_second_mover_wins(state, front);
        lemma_hard_second_mover_never_loses(state, front);
        lemma_hard_round(before, last.take, last.draw);
        assert(front.len() * d + d == turns.len() * d) by (nonlinear_arith)
            requires
                front.len() + 1 == turns.len(),
        ;
    } else {
        assert(turns.len() * d == 0) by (nonlinear_arith)
            requires
                turns.len() == 0,
        ;
    }
}

} // verus!
