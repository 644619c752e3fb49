//! Move selection for the automated player.
//!
//! A position from which the player to move cannot avoid defeat is one whose
//! pile is a multiple of `max_turn + 1`: whatever is taken from it, the other
//! side can answer so that the pile is such a multiple again, down to zero.

use vstd::arithmetic::div_mod::*;
use vstd::prelude::*;

verus! {

/// A take that the per-turn limit allows and that leaves a multiple of
/// `max_turn + 1` pebbles behind.
pub open spec fn leaves_multiple(remaining: int, max_turn: int, take: int) -> bool {
    1 <= take <= max_turn && (remaining - take) % (max_turn + 1) == 0
}

/// The take chosen by optimal play: the remainder of the pile modulo
/// `max_turn + 1`, or one pebble where that remainder is zero.
pub open spec fn optimal_take(remaining: int, max_turn: int) -> int {
    let rest = remaining % (max_turn + 1);
    if rest == 0 {
        1
    } else {
        rest
    }
}

/// The take derived from a random number: `draw mod max_turn + 1`.
pub open spec fn random_take(draw: int, max_turn: int) -> int {
    draw % max_turn + 1
}

/// A take leaves a multiple of `max_turn + 1` exactly when it equals the
/// pile's remainder modulo `max_turn + 1` and that remainder is not zero.
pub proof fn lemma_leaves_multiple_iff(remaining: int, max_turn: int, take: int)
    requires
        0 <= max_turn,
    ensures
        leaves_multiple(remaining, max_turn, take) <==> (1 <= take && take == remaining % (
            max_turn + 1)),
{
    let d = max_turn + 1;
    lemma_mod_bound(remaining, d);
    if 1 <= take <= max_turn {
        if (remaining - take) % d == 0 {
            lemma_fundamental_div_mod(remaining - take, d);
            let q = (remaining - take) / d;
            assert(d * q == q * d) by (nonlinear_arith);
            lemma_fundamental_div_mod_converse(remaining, d, q, take);
        }
        if take == remaining % d {
            lemma_fundamental_div_mod(remaining, d);
            let q = remaining / d;
            assert(d * q == q * d) by (nonlinear_arith);
            lemma_mod_multiples_basic(q, d);
        }
    }
}

/// Optimal play picks the smallest take that leaves a multiple of
/// `max_turn + 1`, and one pebble where no take does.
pub proof fn lemma_optimal_take_is_least(remaining: int, max_turn: int)
    requires
        0 <= max_turn,
    ensures
        forall|take: int| #[trigger]
            leaves_multiple(remaining, max_turn, take) ==> optimal_take(remaining, max_turn)
                <= take,
        (exists|take: int| #[trigger] leaves_multiple(remaining, max_turn, take))
            ==> leaves_multiple(remaining, max_turn, optimal_take(remaining, max_turn)),
        (forall|take: int| !#[trigger] leaves_multiple(remaining, max_turn, take))
            ==> optimal_take(remaining, max_turn) == 1,
{
    assert forall|take: int| #[trigger]
        leaves_multiple(remaining, max_turn, take) implies take == optimal_take(
        remaining,
        max_turn,
    ) by {
        lemma_leaves_multiple_iff(remaining, max_turn, take);
    }
    let best = optimal_take(remaining, max_turn);
    lemma_leaves_multiple_iff(remaining, max_turn, best);
}

/// With a limit of at least one pebble, the optimal take is between one
/// pebble and the limit.
pub proof fn lemma_optimal_take_in_range(remaining: int, max_turn: int)
    requires
        1 <= max_turn,
    ensures
        1 <= optimal_take(remaining, max_turn) <= max_turn,
{
    lemma_mod_bound(remaining, max_turn + 1);
}

/// From a pile that is not a multiple of `max_turn + 1`, the optimal take
/// fits in the pile and leaves a multiple of `max_turn + 1` to the other side.
pub proof fn lemma_optimal_take_leaves_multiple(remaining: int, max_turn: int)
    requires
        0 <= remaining,
        0 <= max_turn,
        remaining % (max_turn + 1) != 0,
    ensures
        1 <= optimal_take(remaining, max_turn) <= remaining,
        optimal_take(remaining, max_turn) <= max_turn,
        (remaining - optimal_take(remaining, max_turn)) % (max_turn + 1) == 0,
{
    let d = max_turn + 1;
    lemma_mod_bound(remaining, d);
    lemma_mod_decreases(remaining as nat, d as nat);
    lemma_leaves_multiple_iff(remaining, max_turn, optimal_take(remaining, max_turn));
}

/// The optimal take never exceeds a pile that holds at least one pebble.
pub proof fn lemma_optimal_take_fits(remaining: int, max_turn: int)
    requires
        1 <= remaining,
        0 <= max_turn,
    ensures
        optimal_take(remaining, max_turn) <= remaining,
{
    lemma_mod_decreases(remaining as nat, (max_turn + 1) as nat);
}

/// The optimal move: goes through the takes from one pebble upwards and
/// returns the first that leaves the other side a multiple of
/// `max_pebbles_per_turn + 1`; returns one pebble where none does. Takes
/// above the pile are not tried, since none of them leaves such a multiple.
pub fn optimal_move(pebbles_remaining: u32, max_pebbles_per_turn: u32) -> (take: u32)
    ensures
        take == optimal_take(pebbles_remaining as int, max_pebbles_per_turn as int),
        1 <= take,
        max_pebbles_per_turn >= 1 ==> take <= max_pebbles_per_turn,
        pebbles_remaining >= 1 ==> take <= pebbles_remaining,
        forall|other: int| #[trigger]
            leaves_multiple(pebbles_remaining as int, max_pebbles_per_turn as int, other) ==> take
                <= other,
        leaves_multiple(pebbles_remaining as int, max_pebbles_per_turn as int, take as int) || (
        take == 1 && forall|other: int| !#[trigger]
            leaves_multiple(pebbles_remaining as int, max_pebbles_per_turn as int, other)),
        pebbles_remaining as int % (max_pebbles_per_turn + 1) != 0 ==> (pebbles_remaining - take)
            % (max_pebbles_per_turn + 1) == 0,
{
    let remaining: u64 = pebbles_remaining as u64;
    let limit: u64 = max_pebbles_per_turn as u64;
    let modulus: u64 = limit + 1;
    let ghost rest: int = remaining as int % modulus as int;
    proof {
        lemma_mod_bound(remaining as int, modulus as int);
        lemma_mod_decreases(remaining as nat, modulus as nat);
        lemma_optimal_take_is_least(remaining as int, limit as int);
    }
    let mut best_move: u32 = 1;
    let mut i: u64 = 1;
    while i <= limit && i <= remaining
        invariant_except_break
            best_move == 1,
            rest == 0 || i <= rest,
        invariant
            1 <= i,
            limit == max_pebbles_per_turn,
            remaining == pebbles_remaining,
            modulus == limit + 1,
            rest == remaining as int % modulus as int,
            0 <= rest < modulus,
            rest <= remaining,
        ensures
            best_move == optimal_take(remaining as int, limit as int),
        decreases limit + 1 - i,
    {
        proof {
            lemma_leaves_multiple_iff(remaining as int, limit as int, i as int);
        }
        if (remaining - i) % modulus == 0 {
            best_move = i as u32;
            break ;
        }
        i += 1;
    }
    proof {
        if rest != 0 {
            lemma_optimal_take_leaves_multiple(remaining as int, limit as int);
        }
    }
    best_move
}

/// The random move: `draw mod max_pebbles_per_turn + 1`, whatever the pile
/// holds.
pub fn random_move(draw: u32, max_pebbles_per_turn: u32) -> (take: u32)
    requires
        max_pebbles_per_turn >= 1,
    ensures
        take == random_take(draw as int, max_pebbles_per_turn as int),
        1 <= take <= max_pebbles_per_turn,
{
    draw % max_pebbles_per_turn + 1
}

} // verus!
