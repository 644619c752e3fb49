//! The rules of one game: how it is set up, what a turn, a forfeit and a
//! restart do to its record, and what is replied.
//!
//! Random decisions are made outside. The functions here take them as
//! arguments: the side that was drawn to move first, and a random number
//! from which an easy automated player derives its take. A hard automated
//! player ignores the number.

use crate::io::{
    DifficultyLevel, GameState, PebblesAction, PebblesEvent, PebblesInit, Player, Rejection, Reply,
};
use crate::strategy::{optimal_move, optimal_take, random_move, random_take};
use vstd::prelude::*;

verus! {

/// The winner once `mover` has taken pebbles: `mover` where the pile is now
/// empty, nobody yet where it is not.
pub open spec fn winner_after(pebbles_remaining: u32, mover: Player) -> Option<Player> {
    if pebbles_remaining == 0 {
        Some(mover)
    } else {
        None
    }
}

/// The take that the automated player's strategy names for a pile.
pub open spec fn strategy_take(
    difficulty: DifficultyLevel,
    pebbles_remaining: u32,
    max_pebbles_per_turn: u32,
    draw: u32,
) -> int {
    match difficulty {
        DifficultyLevel::Easy => random_take(draw as int, max_pebbles_per_turn as int),
        DifficultyLevel::Hard => optimal_take(
            pebbles_remaining as int,
            max_pebbles_per_turn as int,
        ),
    }
}

/// Names the winner after a move by `mover`: whoever empties the pile wins.
pub fn check_winner(state: &GameState, mover: Player) -> (winner: Option<Player>)
    ensures
        winner == winner_after(state.pebbles_remaining, mover),
{
    if state.pebbles_remaining == 0 {
        Some(mover)
    } else {
        None
    }
}

/// Computes the take that the automated player's strategy names for a pile.
pub fn choose_take(
    difficulty: DifficultyLevel,
    pebbles_remaining: u32,
    max_pebbles_per_turn: u32,
    draw: u32,
) -> (take: u32)
    requires
        max_pebbles_per_turn >= 1,
    ensures
        take == strategy_take(difficulty, pebbles_remaining, max_pebbles_per_turn, draw),
        1 <= take <= max_pebbles_per_turn,
{
    match difficulty {
        DifficultyLevel::Easy => random_move(draw, max_pebbles_per_turn),
        DifficultyLevel::Hard => optimal_move(pebbles_remaining, max_pebbles_per_turn),
    }
}

impl GameState {
    /// The record of a game in which nobody has moved yet.
    pub open spec fn fresh(init: PebblesInit, first_player: Player) -> GameState {
        GameState {
            pebbles_count: init.pebbles_count,
            max_pebbles_per_turn: init.max_pebbles_per_turn,
            pebbles_remaining: init.pebbles_count,
            difficulty: init.difficulty,
            first_player,
            winner: None,
        }
    }

    /// What the automated player removes from the pile: the take that its
    /// strategy names, or the whole pile where that take exceeds it.
    pub open spec fn automated_take(self, draw: u32) -> u32 {
        let wanted = strategy_take(
            self.difficulty,
            self.pebbles_remaining,
            self.max_pebbles_per_turn,
            draw,
        );
        if wanted <= self.pebbles_remaining {
            wanted as u32
        } else {
            self.pebbles_remaining
        }
    }

    /// The record once the automated player has moved.
    pub open spec fn after_automated_move(self, draw: u32) -> GameState {
        let left = (self.pebbles_remaining - self.automated_take(draw)) as u32;
        GameState {
            pebbles_remaining: left,
            winner: winner_after(left, Player::Automated),
            ..self
        }
    }

    /// The record that a game starts with: fresh where the human moves
    /// first, and with the automated player's opening move made where it
    /// moves first.
    pub open spec fn initial(init: PebblesInit, first_player: Player, draw: u32) -> GameState {
        match first_player {
            Player::Human => Self::fresh(init, first_player),
            Player::Automated => Self::fresh(init, first_player).after_automated_move(draw),
        }
    }

    /// Why a turn is turned down, if it is: the per-turn limit is tested
    /// first, the pile second.
    pub open spec fn turn_rejection(self, take: u32) -> Option<Rejection> {
        if take > self.max_pebbles_per_turn {
            Some(Rejection::ExceedsTurnMaximum)
        } else if take > self.pebbles_remaining {
            Some(Rejection::ExceedsRemaining)
        } else {
            None
        }
    }

    /// The record once the human has taken `take` pebbles, which the rules
    /// allow.
    pub open spec fn after_human_move(self, take: u32) -> GameState {
        let left = (self.pebbles_remaining - take) as u32;
        GameState { pebbles_remaining: left, winner: winner_after(left, Player::Human), ..self }
    }

    /// The record after a turn: unchanged where the game is over or the turn
    /// is turned down; else the human's move is made and, unless it wins the
    /// game, the automated player's answer.
    pub open spec fn after_turn(self, take: u32, draw: u32) -> GameState {
        if !self.live() || self.turn_rejection(take) is Some {
            self
        } else if self.after_human_move(take).live() {
            self.after_human_move(take).after_automated_move(draw)
        } else {
            self.after_human_move(take)
        }
    }

    /// The reply to a turn: none where the game is over; the rejection where
    /// the turn is turned down; else who has won, or what the automated
    /// player took in answer.
    pub open spec fn turn_reply(self, take: u32, draw: u32) -> Option<Reply> {
        if !self.live() {
            None
        } else if self.turn_rejection(take) is Some {
            Some(Reply::Rejected(self.turn_rejection(take)->0))
        } else {
            match self.after_turn(take, draw).winner {
                Some(winner) => Some(Reply::Event(PebblesEvent::Won(winner))),
                None => Some(
                    Reply::Event(
                        PebblesEvent::CounterTurn(
                            self.after_human_move(take).automated_take(draw),
                        ),
                    ),
                ),
            }
        }
    }

    /// The record after a forfeit: the automated player has won, unless the
    /// game was over already.
    pub open spec fn after_give_up(self) -> GameState {
        if self.live() {
            GameState { winner: Some(Player::Automated), ..self }
        } else {
            self
        }
    }

    /// The reply to a forfeit: none where the game was over already.
    pub open spec fn give_up_reply(self) -> Option<Reply> {
        if self.live() {
            Some(Reply::Event(PebblesEvent::Won(Player::Automated)))
        } else {
            None
        }
    }

    /// The reply to a restart: none where the human moves first; where the
    /// automated player does, the take that its strategy names for the full
    /// pile.
    pub open spec fn restart_reply(init: PebblesInit, first_player: Player, draw: u32) -> Option<
        Reply,
    > {
        match first_player {
            Player::Human => None,
            Player::Automated => Some(
                Reply::OpeningMove(
                    strategy_take(
                        init.difficulty,
                        init.pebbles_count,
                        init.max_pebbles_per_turn,
                        draw,
                    ) as u32,
                ),
            ),
        }
    }

    /// The record after a request.
    pub open spec fn after_action(
        self,
        action: PebblesAction,
        first_player: Player,
        draw: u32,
    ) -> GameState {
        match action {
            PebblesAction::Turn(take) => self.after_turn(take, draw),
            PebblesAction::GiveUp => self.after_give_up(),
            PebblesAction::Restart { difficulty, pebbles_count, max_pebbles_per_turn } => Self::fresh(
                PebblesInit { difficulty, pebbles_count, max_pebbles_per_turn },
                first_player,
            ),
        }
    }

    /// The reply to a request.
    pub open spec fn action_reply(
        self,
        action: PebblesAction,
        first_player: Player,
        draw: u32,
    ) -> Option<Reply> {
        match action {
            PebblesAction::Turn(take) => self.turn_reply(take, draw),
            PebblesAction::GiveUp => self.give_up_reply(),
            PebblesAction::Restart {
                difficulty,
                pebbles_count,
                max_pebbles_per_turn,
            } => Self::restart_reply(
                PebblesInit { difficulty, pebbles_count, max_pebbles_per_turn },
                first_player,
                draw,
            ),
        }
    }

    /// Sets up a game. `first_player` is the side drawn to move first. Where
    /// that is the automated player, it makes its opening move at once, and
    /// has won if that move empties the pile.
    pub fn new(init: PebblesInit, first_player: Player, draw: u32) -> (state: GameState)
        requires
            init.valid(),
        ensures
            state == GameState::initial(init, first_player, draw),
            state.wf(),
            state.pebbles_count == init.pebbles_count,
            state.max_pebbles_per_turn == init.max_pebbles_per_turn,
            state.difficulty == init.difficulty,
            state.first_player == first_player,
            first_player == Player::Human ==> state.pebbles_remaining == init.pebbles_count
                && state.live(),
            state.winner != Some(Player::Human),
            state.winner == Some(Player::Automated) <==> first_player == Player::Automated
                && state.pebbles_remaining == 0,
    {
        let mut state = GameState {
            pebbles_count: init.pebbles_count,
            max_pebbles_per_turn: init.max_pebbles_per_turn,
            pebbles_remaining: init.pebbles_count,
            difficulty: init.difficulty,
            first_player,
            winner: None,
        };
        match first_player {
            Player::Human => {},
            Player::Automated => {
                state.automated_move(draw);
            },
        }
        state
    }

    /// Makes the automated player's move on a live game and returns what it
    /// took. The take that the strategy names is cut down to the pile where
    /// it exceeds it, so the pile never goes below zero.
    pub fn automated_move(&mut self, draw: u32) -> (taken: u32)
        requires
            old(self).wf(),
            old(self).live(),
        ensures
            *final(self) == old(self).after_automated_move(draw),
            taken == old(self).automated_take(draw),
            final(self).wf(),
            taken <= old(self).pebbles_remaining,
            taken <= old(self).max_pebbles_per_turn,
            old(self).pebbles_remaining >= 1 ==> taken >= 1,
            final(self).pebbles_remaining == old(self).pebbles_remaining - taken,
    {
        let wanted: u32 = choose_take(
            self.difficulty,
            self.pebbles_remaining,
            self.max_pebbles_per_turn,
            draw,
        );
        let taken: u32 = if wanted <= self.pebbles_remaining {
            wanted
        } else {
            self.pebbles_remaining
        };
        self.pebbles_remaining = self.pebbles_remaining - taken;
        self.winner = check_winner(self, Player::Automated);
        taken
    }

    /// Handles a turn of the human.
    ///
    /// On a game that is over, nothing happens and nothing is replied. A take
    /// above the per-turn limit, or above what the pile holds, is rejected
    /// and the game stays as it was. Else the pebbles are taken. If that
    /// empties the pile the human has won; if not, the automated player
    /// answers, and has won if its answer empties the pile.
    pub fn process_turn(&mut self, take: u32, draw: u32) -> (reply: Option<Reply>)
        requires
            old(self).wf(),
        ensures
            *final(self) == old(self).after_turn(take, draw),
            reply == old(self).turn_reply(take, draw),
            final(self).wf(),
            // a game that is over stays as it is, in silence
            !old(self).live() ==> *final(self) == *old(self) && reply is None,
            // a rejected turn changes nothing
            take > old(self).max_pebbles_per_turn || take > old(self).pebbles_remaining ==> {
                &&& final(self).pebbles_remaining == old(self).pebbles_remaining
                &&& final(self).winner == old(self).winner
                &&& *final(self) == *old(self)
            },
            // on a live game a turn is rejected exactly when it exceeds a bound
            old(self).live() ==> (reply matches Some(Reply::Rejected(_)) <==> take > old(
                self,
            ).max_pebbles_per_turn || take > old(self).pebbles_remaining),
            old(self).live() ==> reply is Some,
            // the configuration stays, the pile never grows
            final(self).pebbles_count == old(self).pebbles_count,
            final(self).max_pebbles_per_turn == old(self).max_pebbles_per_turn,
            final(self).difficulty == old(self).difficulty,
            final(self).first_player == old(self).first_player,
            final(self).pebbles_remaining <= old(self).pebbles_remaining,
            // a live game ends exactly when an accepted turn empties the pile
            old(self).live() ==> (!final(self).live() <==> old(self).turn_rejection(take) is None
                && final(self).pebbles_remaining == 0),
    {
        if self.winner.is_some() {
            return None;
        }
        if take > self.max_pebbles_per_turn {
            return Some(Reply::Rejected(Rejection::ExceedsTurnMaximum));
        }
        if take > self.pebbles_remaining {
            return Some(Reply::Rejected(Rejection::ExceedsRemaining));
        }
        self.pebbles_remaining = self.pebbles_remaining - take;
        if self.pebbles_remaining == 0 {
            self.winner = Some(Player::Human);
            return Some(Reply::Event(PebblesEvent::Won(Player::Human)));
        }
        let taken: u32 = self.automated_move(draw);
        if self.pebbles_remaining == 0 {
            Some(Reply::Event(PebblesEvent::Won(Player::Automated)))
        } else {
            Some(Reply::Event(PebblesEvent::CounterTurn(taken)))
        }
    }

    /// Handles a forfeit of the human: on a live game the automated player
    /// has won, whatever the pile holds. On a game that is over, nothing
    /// happens and nothing is replied.
    pub fn give_up(&mut self) -> (reply: Option<Reply>)
        ensures
            *final(self) == old(self).after_give_up(),
            reply == old(self).give_up_reply(),
            old(self).wf() ==> final(self).wf(),
            old(self).live() ==> final(self).winner == Some(Player::Automated) && reply == Some(
                Reply::Event(PebblesEvent::Won(Player::Automated)),
            ),
            !old(self).live() ==> *final(self) == *old(self) && reply is None,
            final(self).pebbles_count == old(self).pebbles_count,
            final(self).max_pebbles_per_turn == old(self).max_pebbles_per_turn,
            final(self).pebbles_remaining == old(self).pebbles_remaining,
            final(self).difficulty == old(self).difficulty,
            final(self).first_player == old(self).first_player,
    {
        if self.winner.is_some() {
            return None;
        }
        self.winner = Some(Player::Automated);
        Some(Reply::Event(PebblesEvent::Won(Player::Automated)))
    }

    /// Replaces the game by a new one, whatever state it was in.
    ///
    /// The new game is live with a full pile. Where the automated player is
    /// drawn to move first, the take that its strategy names for the full
    /// pile is replied as a bare number; the pile is left full.
    pub fn restart(&mut self, init: PebblesInit, first_player: Player, draw: u32) -> (reply:
        Option<Reply>)
        requires
            init.valid(),
        ensures
            *final(self) == GameState::fresh(init, first_player),
            reply == GameState::restart_reply(init, first_player, draw),
            final(self).wf(),
            final(self).pebbles_remaining == init.pebbles_count,
            final(self).pebbles_remaining == final(self).pebbles_count,
            final(self).winner is None,
            reply is Some <==> first_player == Player::Automated,
            reply matches Some(Reply::OpeningMove(take)) ==> 1 <= take
                <= init.max_pebbles_per_turn,
    {
        let reply = match first_player {
            Player::Human => None,
            Player::Automated => Some(
                Reply::OpeningMove(
                    choose_take(
                        init.difficulty,
                        init.pebbles_count,
                        init.max_pebbles_per_turn,
                        draw,
                    ),
                ),
            ),
        };
        *self = GameState {
            pebbles_count: init.pebbles_count,
            max_pebbles_per_turn: init.max_pebbles_per_turn,
            pebbles_remaining: init.pebbles_count,
            difficulty: init.difficulty,
            first_player,
            winner: None,
        };
        reply
    }

    /// Handles one request. `first_player` and `draw` are the random
    /// decisions made for it; a request that needs none ignores them.
    pub fn handle(&mut self, action: PebblesAction, first_player: Player, draw: u32) -> (reply:
        Option<Reply>)
        requires
            old(self).wf(),
            action.valid(),
        ensures
            *final(self) == old(self).after_action(action, first_player, draw),
            reply == old(self).action_reply(action, first_player, draw),
            final(self).wf(),
            // once a game is over, only a restart changes it or is answered
            !old(self).live() && !(action is Restart) ==> *final(self) == *old(self)
                && reply is None,
    {
        match action {
            PebblesAction::Turn(take) => self.process_turn(take, draw),
            PebblesAction::GiveUp => self.give_up(),
            PebblesAction::Restart { difficulty, pebbles_count, max_pebbles_per_turn } => {
                self.restart(
                    PebblesInit { difficulty, pebbles_count, max_pebbles_per_turn },
                    first_player,
                    draw,
                )
            },
        }
    }
}

} // verus!
