//! The session: the one game that exists at a time, from before it is set up
//! to its last request.
//!
//! Each request comes with two blocks of random bytes, drawn by the caller
//! before the request is handled: `coin` decides who moves first in a new
//! game, `seed` gives an easy automated player its take. A request that
//! needs neither ignores both.

use crate::io::{GameState, PebblesAction, PebblesInit, Reply};
use crate::random::{coin_side, first_player, le_u32, random_u32};
use vstd::prelude::*;

verus! {

/// The random number that a block of random bytes holds.
pub open spec fn seed_draw(seed: Seq<u8>) -> u32 {
    le_u32(seed[0], seed[1], seed[2], seed[3]) as u32
}

/// Holds the game, once there is one.
pub struct Session {
    game: Option<GameState>,
}

impl Session {
    #[verifier::type_invariant]
    spec fn game_is_well_formed(self) -> bool {
        self.game matches Some(game) ==> game.wf()
    }

    /// The game's record, or `None` before a game was set up.
    pub closed spec fn game(self) -> Option<GameState> {
        self.game
    }

    /// Whether a game was set up.
    pub open spec fn initialized(self) -> bool {
        self.game() is Some
    }

    /// A session without a game.
    pub fn new() -> (session: Session)
        ensures
            session.game() is None,
    {
        Session { game: None }
    }

    /// Tests whether a game was set up.
    pub fn is_initialized(&self) -> (yes: bool)
        ensures
            yes == self.initialized(),
    {
        self.game.is_some()
    }

    /// Sets up the game, in place of any that the session held. The first
    /// byte of `coin` decides who moves first; where that is the automated
    /// player, it makes its opening move at once, an easy one with the number
    /// in `seed`.
    pub fn init(&mut self, init: PebblesInit, coin: &[u8; 32], seed: &[u8; 32])
        requires
            init.valid(),
        ensures
            final(self).game() == Some(
                GameState::initial(init, coin_side(coin@[0]), seed_draw(seed@)),
            ),
            final(self).game()->0.wf(),
    {
        let state = GameState::new(init, first_player(coin), random_u32(seed));
        self.game = Some(state);
    }

    /// Handles one request on the game and returns the reply to send, if
    /// there is one.
    pub fn handle(&mut self, action: PebblesAction, coin: &[u8; 32], seed: &[u8; 32]) -> (reply:
        Option<Reply>)
        requires
            old(self).initialized(),
            action.valid(),
        ensures
            final(self).game() == Some(
                old(self).game()->0.after_action(action, coin_side(coin@[0]), seed_draw(seed@)),
            ),
            reply == old(self).game()->0.action_reply(
                action,
                coin_side(coin@[0]),
                seed_draw(seed@),
            ),
            final(self).game()->0.wf(),
            // once a game is over, only a restart changes it or is answered
            !old(self).game()->0.live() && !(action is Restart) ==> final(self).game() == old(
                self,
            ).game() && reply is None,
    {
        proof {
            use_type_invariant(&*self);
        }
        let mut game = self.game.unwrap();
        let reply = game.handle(action, first_player(coin), random_u32(seed));
        self.game = Some(game);
        reply
    }

    /// A copy of the game's record as it stands, or `None` before a game was
    /// set up. The session is left as it is.
    pub fn state(&self) -> (snapshot: Option<GameState>)
        ensures
            snapshot == self.game(),
            snapshot matches Some(game) ==> game.wf(),
    {
        proof {
            use_type_invariant(self);
        }
        self.game
    }
}

} // verus!
