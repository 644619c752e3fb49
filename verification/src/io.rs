//! What goes in and out of a game: the requests, the replies and the record
//! of the game itself.

use vstd::prelude::*;

verus! {

/// One of the two sides.
#[derive(Clone, Copy, Debug, PartialEq, Eq, Structural)]
pub enum Player {
    Human,
    Automated,
}

/// How the automated player chooses its moves.
#[derive(Clone, Copy, Debug, PartialEq, Eq, Structural)]
pub enum DifficultyLevel {
    /// A random take between one pebble and the per-turn limit.
    Easy,
    /// The optimal take.
    Hard,
}

/// The configuration that a game starts with.
#[derive(Clone, Copy, Debug, PartialEq, Eq, Structural)]
pub struct PebblesInit {
    pub difficulty: DifficultyLevel,
    pub pebbles_count: u32,
    pub max_pebbles_per_turn: u32,
}

/// A request made of a running session.
#[derive(Clone, Copy, Debug, PartialEq, Eq, Structural)]
pub enum PebblesAction {
    /// The human takes this many pebbles.
    Turn(u32),
    /// The human forfeits.
    GiveUp,
    /// The current game is dropped and a new one is set up.
    Restart { difficulty: DifficultyLevel, pebbles_count: u32, max_pebbles_per_turn: u32 },
}

/// What a turn or a forfeit led to.
#[derive(Clone, Copy, Debug, PartialEq, Eq, Structural)]
pub enum PebblesEvent {
    /// The automated player answered by taking this many pebbles.
    CounterTurn(u32),
    /// The game is over and this side has won it.
    Won(Player),
}

/// Why a turn was turned down.
#[derive(Clone, Copy, Debug, PartialEq, Eq, Structural)]
pub enum Rejection {
    /// More pebbles than may be taken in one turn.
    ExceedsTurnMaximum,
    /// More pebbles than are left in the pile.
    ExceedsRemaining,
}

/// The answer to a request. A request that is not answered at all yields no
/// `Reply`.
#[derive(Clone, Copy, Debug, PartialEq, Eq, Structural)]
pub enum Reply {
    /// The turn was turned down and the game is as it was.
    Rejected(Rejection),
    /// The request was carried out.
    Event(PebblesEvent),
    /// After a restart that lets the automated player begin: the take that
    /// its strategy names for the new pile, as a bare number.
    OpeningMove(u32),
}

/// The record of one game.
#[derive(Clone, Copy, Debug, PartialEq, Eq, Structural)]
pub struct GameState {
    /// The pebbles that the game started with.
    pub pebbles_count: u32,
    /// The most that one turn may take.
    pub max_pebbles_per_turn: u32,
    /// The pebbles still in the pile.
    pub pebbles_remaining: u32,
    pub difficulty: DifficultyLevel,
    /// The side that was drawn to move first.
    pub first_player: Player,
    /// Unset while the game is live; once set, the game is over.
    pub winner: Option<Player>,
}

impl PebblesInit {
    /// A configuration is valid when a turn may take at least one pebble.
    pub open spec fn valid(self) -> bool {
        self.max_pebbles_per_turn >= 1
    }

    /// Tests whether the configuration is valid.
    pub fn is_valid(&self) -> (ok: bool)
        ensures
            ok == self.valid(),
    {
        self.max_pebbles_per_turn >= 1
    }
}

impl PebblesAction {
    /// A restart has to carry a valid configuration; every other request is
    /// valid as it is.
    pub open spec fn valid(self) -> bool {
        self matches PebblesAction::Restart { max_pebbles_per_turn, .. } ==> max_pebbles_per_turn
            >= 1
    }

    /// Tests whether the request is valid.
    pub fn is_valid(&self) -> (ok: bool)
        ensures
            ok == self.valid(),
    {
        match self {
            PebblesAction::Restart { max_pebbles_per_turn, .. } => *max_pebbles_per_turn >= 1,
            _ => true,
        }
    }
}

impl GameState {
    /// The invariant of a record: a turn may take at least one pebble, and
    /// the pile never holds more than the game started with.
    pub open spec fn wf(self) -> bool {
        &&& self.max_pebbles_per_turn >= 1
        &&& self.pebbles_remaining <= self.pebbles_count
    }

    /// Tests the invariant.
    pub fn is_well_formed(&self) -> (ok: bool)
        ensures
            ok == self.wf(),
    {
        self.max_pebbles_per_turn >= 1 && self.pebbles_remaining <= self.pebbles_count
    }

    /// A game is live until it has a winner.
    pub open spec fn live(self) -> bool {
        self.winner is None
    }

    /// Tests whether the game is live.
    pub fn is_live(&self) -> (live: bool)
        ensures
            live == self.live(),
    {
        self.winner.is_none()
    }
}

impl Rejection {
    /// The sentence that tells the human why the turn was turned down.
    pub fn message(&self) -> (text: &'static str)
        ensures
            *self == Rejection::ExceedsTurnMaximum ==> text@
                == "You can't take more than the maximum pebbles per turn"@,
            *self == Rejection::ExceedsRemaining ==> text@
                == "You can't take more than the remaining pebbles"@,
    {
        match self {
            Rejection::ExceedsTurnMaximum => "You can't take more than the maximum pebbles per turn",
            Rejection::ExceedsRemaining => "You can't take more than the remaining pebbles",
        }
    }
}

} // verus!
