//! Reading the game's random decisions out of random bytes.
//!
//! The bytes come from the caller, 32 at a time; this module only says what
//! they mean.

use crate::io::Player;
use vstd::prelude::*;

verus! {

/// The number that four bytes spell, least significant byte first.
pub open spec fn le_u32(b0: u8, b1: u8, b2: u8, b3: u8) -> int {
    b0 + 256 * b1 + 65536 * b2 + 16777216 * b3
}

/// The side that a byte stands for: the human where it is even, the automated
/// player where it is odd.
pub open spec fn coin_side(byte: u8) -> Player {
    if byte % 2 == 0 {
        Player::Human
    } else {
        Player::Automated
    }
}

/// The random number held in the first four of the bytes, least significant
/// byte first.
pub fn random_u32(hash: &[u8; 32]) -> (draw: u32)
    ensures
        draw == le_u32(hash@[0], hash@[1], hash@[2], hash@[3]),
{
    let b0: u32 = hash[0] as u32;
    let b1: u32 = hash[1] as u32;
    let b2: u32 = hash[2] as u32;
    let b3: u32 = hash[3] as u32;
    b0 + 256 * b1 + 65536 * b2 + 16777216 * b3
}

/// The side that moves first: decided by the parity of the first byte.
pub fn first_player(hash: &[u8; 32]) -> (player: Player)
    ensures
        player == coin_side(hash@[0]),
{
    if hash[0] % 2 == 0 {
        Player::Human
    } else {
        Player::Automated
    }
}

} // verus!
