//! The hand evaluator: a player's total score from their drawn cards and
//! the chosen value of each dealt Ace, and the bust test.
//!
//! Scoring is a pure function of the hand: the sum of every non-Ace
//! card's fixed value plus each Ace's chosen value (1 or 11),
//! independently per Ace, with no automatic soft/hard renormalization.
//! A hand is busted exactly when its total exceeds 21.

use vstd::prelude::*;
use crate::cards::{card_value, card_points, Card};

verus! {

/// The bust threshold: a score strictly above it busts the hand.
pub const BUST_LIMIT: u32 = 21;

/// The total score of a hand: the sum of each dealt card's value.
pub open spec fn hand_score(h: Seq<Card>) -> int
    decreases h.len(),
{
    if h.len() == 0 {
        0
    } else {
        hand_score(h.drop_last()) + card_value(h.last())
    }
}

/// Whether a hand's score busts: strictly greater than 21.
pub open spec fn hand_busted(h: Seq<Card>) -> bool {
    hand_score(h) > 21
}

/// Appending a card adds exactly that card's value.
pub proof fn lemma_hand_score_push(h: Seq<Card>, c: Card)
    ensures
        hand_score(h.push(c)) == hand_score(h) + card_value(c),
{
    assert(h.push(c).drop_last() =~= h);
}

/// Scoring is pure: equal hands (same cards, same Ace choices) always
/// score equally. There is no hidden state.
pub proof fn lemma_score_deterministic(h1: Seq<Card>, h2: Seq<Card>)
    requires
        h1 == h2,
    ensures
        hand_score(h1) == hand_score(h2),
{
}

/// The hand `h` with the Ace choice of position `i` set to `v`; every
/// other property of every card is untouched.
pub open spec fn with_ace_choice(h: Seq<Card>, i: int, v: bool) -> Seq<Card> {
    h.update(i, Card { as_eleven: v, ..h[i] })
}

/// Toggling an Ace is reversible: setting position `i`'s choice to any
/// value and then back to what it was restores the score exactly,
/// holding all else constant.
pub proof fn lemma_ace_toggle_reversible(h: Seq<Card>, i: int, v: bool)
    requires
        0 <= i < h.len(),
    ensures
        hand_score(with_ace_choice(with_ace_choice(h, i, v), i, h[i].as_eleven)) == hand_score(h),
{
    assert(with_ace_choice(with_ace_choice(h, i, v), i, h[i].as_eleven) =~= h);
}

/// Computes the total score of a hand. The result equals the
/// mathematical `hand_score` of the hand, so repeated calls on the same
/// hand return the same total.
pub fn score(hand: &Vec<Card>) -> (total: u32)
    requires
        hand@.len() <= 52,
    ensures
        total == hand_score(hand@),
{
    let mut total: u32 = 0;
    let mut i: usize = 0;
    while i < hand.len()
        invariant
            i <= hand@.len() <= 52,
            total == hand_score(hand@.take(i as int)),
            total <= 11 * i,
        decreases hand@.len() - i,
    {
        proof {
            lemma_hand_score_push(hand@.take(i as int), hand@[i as int]);
            assert(hand@.take(i as int).push(hand@[i as int]) =~= hand@.take(i + 1));
        }
        total = total + card_points(&hand[i]);
        i = i + 1;
    }
    proof {
        assert(hand@.take(i as int) =~= hand@);
    }
    total
}

/// Whether a total busts: strictly greater than the bust limit.
pub fn is_busted(total: u32) -> (r: bool)
    ensures
        r == (total > 21),
{
    total > BUST_LIMIT
}

} // verus!
