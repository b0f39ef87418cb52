//! The card and deck engine: the standard 52-card deck, shuffling, and the
//! scoring value of each dealt card.
//!
//! A deck is an ordered `Vec<Card>`; drawing removes the front card.
//! Shuffling is a verified permutation driven by a caller-supplied seed, so
//! every shuffled deck provably holds exactly the standard multiset of
//! rank/suit pairs.

use vstd::prelude::*;
use vstd::seq_lib::*;
use crate::errors::GameError;

verus! {

/// One of the four French suits.
#[derive(Clone, Copy, Debug, PartialEq, Eq, Structural)]
pub enum Suit {
    Clubs,
    Diamonds,
    Hearts,
    Spades,
}

/// A rank label. Every rank has a fixed numeric value except the Ace,
/// whose dealt instance may count as 1 or 11.
#[derive(Clone, Copy, Debug, PartialEq, Eq, Structural)]
pub enum Rank {
    Two,
    Three,
    Four,
    Five,
    Six,
    Seven,
    Eight,
    Nine,
    Ten,
    Jack,
    Queen,
    King,
    Ace,
}

/// One dealt card instance. `id` is unique per physical card of a deck.
/// `as_eleven` is the dealt Ace's chosen value (11 when true, 1 when
/// false); it is meaningful only when `rank` is `Ace` and defaults to
/// true when the card is drawn.
#[derive(Clone, Copy, Debug, PartialEq, Eq, Structural)]
pub struct Card {
    pub id: u64,
    pub rank: Rank,
    pub suit: Suit,
    pub as_eleven: bool,
}

/// The fixed base value of a rank: 2-10 at face value, Jack/Queen/King
/// at 10, and the Ace's base value 11.
pub open spec fn rank_value(r: Rank) -> int {
    match r {
        Rank::Two => 2,
        Rank::Three => 3,
        Rank::Four => 4,
        Rank::Five => 5,
        Rank::Six => 6,
        Rank::Seven => 7,
        Rank::Eight => 8,
        Rank::Nine => 9,
        Rank::Ten => 10,
        Rank::Jack => 10,
        Rank::Queen => 10,
        Rank::King => 10,
        Rank::Ace => 11,
    }
}

/// The scoring value of a dealt card: its rank's value, except that an
/// Ace chosen as "not eleven" counts as 1.
pub open spec fn card_value(c: Card) -> int {
    if c.rank is Ace && !c.as_eleven {
        1
    } else {
        rank_value(c.rank)
    }
}

/// Executable scoring value of a dealt card.
pub fn card_points(c: &Card) -> (v: u32)
    ensures
        v == card_value(*c),
{
    if matches!(c.rank, Rank::Ace) && !c.as_eleven {
        1
    } else {
        match c.rank {
            Rank::Two => 2,
            Rank::Three => 3,
            Rank::Four => 4,
            Rank::Five => 5,
            Rank::Six => 6,
            Rank::Seven => 7,
            Rank::Eight => 8,
            Rank::Nine => 9,
            Rank::Ten => 10,
            Rank::Jack => 10,
            Rank::Queen => 10,
            Rank::King => 10,
            Rank::Ace => 11,
        }
    }
}

/// The rank at position `i` of a suit's thirteen cards.
pub open spec fn rank_of_index(i: int) -> Rank {
    if i == 0 {
        Rank::Two
    } else if i == 1 {
        Rank::Three
    } else if i == 2 {
        Rank::Four
    } else if i == 3 {
        Rank::Five
    } else if i == 4 {
        Rank::Six
    } else if i == 5 {
        Rank::Seven
    } else if i == 6 {
        Rank::Eight
    } else if i == 7 {
        Rank::Nine
    } else if i == 8 {
        Rank::Ten
    } else if i == 9 {
        Rank::Jack
    } else if i == 10 {
        Rank::Queen
    } else if i == 11 {
        Rank::King
    } else {
        Rank::Ace
    }
}

/// The suit of the `i`-th run of thirteen cards.
pub open spec fn suit_of_index(i: int) -> Suit {
    if i == 0 {
        Suit::Clubs
    } else if i == 1 {
        Suit::Diamonds
    } else if i == 2 {
        Suit::Hearts
    } else {
        Suit::Spades
    }
}

/// The card standing at position `i` of the unshuffled standard deck.
pub open spec fn standard_card(i: int) -> Card {
    Card {
        id: i as u64,
        rank: rank_of_index(i % 13),
        suit: suit_of_index(i / 13),
        as_eleven: true,
    }
}

/// The unshuffled standard deck: the 52 unique rank/suit combinations.
pub open spec fn standard_deck() -> Seq<Card> {
    Seq::new(52, |i: int| standard_card(i))
}

/// The rank/suit pair of a card, forgetting its identifier and Ace choice.
pub open spec fn pair_of(c: Card) -> (Rank, Suit) {
    (c.rank, c.suit)
}

/// The rank/suit pairs of a sequence of cards, in order.
pub open spec fn pairs_of(s: Seq<Card>) -> Seq<(Rank, Suit)> {
    s.map_values(|c: Card| pair_of(c))
}

/// The rank/suit pairs of the standard deck.
pub open spec fn standard_pairs() -> Seq<(Rank, Suit)> {
    pairs_of(standard_deck())
}

/// Builds the card standing at position `i` of the unshuffled deck.
fn standard_card_at(i: usize) -> (c: Card)
    requires
        i < 52,
    ensures
        c == standard_card(i as int),
{
    let r: usize = i % 13;
    let rank = if r == 0 {
        Rank::Two
    } else if r == 1 {
        Rank::Three
    } else if r == 2 {
        Rank::Four
    } else if r == 3 {
        Rank::Five
    } else if r == 4 {
        Rank::Six
    } else if r == 5 {
        Rank::Seven
    } else if r == 6 {
        Rank::Eight
    } else if r == 7 {
        Rank::Nine
    } else if r == 8 {
        Rank::Ten
    } else if r == 9 {
        Rank::Jack
    } else if r == 10 {
        Rank::Queen
    } else if r == 11 {
        Rank::King
    } else {
        Rank::Ace
    };
    let s: usize = i / 13;
    let suit = if s == 0 {
        Suit::Clubs
    } else if s == 1 {
        Suit::Diamonds
    } else if s == 2 {
        Suit::Hearts
    } else {
        Suit::Spades
    };
    Card { id: i as u64, rank, suit, as_eleven: true }
}

/// Builds the unshuffled standard deck.
pub fn build_standard_deck() -> (deck: Vec<Card>)
    ensures
        deck@ == standard_deck(),
{
    let mut deck: Vec<Card> = Vec::new();
    let mut i: usize = 0;
    while i < 52
        invariant
            i <= 52,
            deck@ =~= standard_deck().take(i as int),
        decreases 52 - i,
    {
        deck.push(standard_card_at(i));
        i = i + 1;
    }
    proof {
        assert(deck@ =~= standard_deck());
    }
    deck
}

/// One step of a linear-congruential pseudo-random generator; fairness,
/// not cryptographic strength, is all shuffling asks of it.
pub fn next_random(state: u64) -> u64 {
    state.wrapping_mul(6364136223846793005).wrapping_add(1442695040888963407)
}

/// Exchanging two positions of a sequence leaves its multiset unchanged.
pub proof fn lemma_swap_preserves_multiset<T>(s: Seq<T>, i: int, j: int)
    requires
        0 <= i < s.len(),
        0 <= j < s.len(),
    ensures
        s.update(i, s[j]).update(j, s[i]).to_multiset() == s.to_multiset(),
{
    broadcast use vstd::seq_lib::group_to_multiset_ensures;
    broadcast use vstd::multiset::group_multiset_axioms;
    broadcast use vstd::multiset::group_multiset_properties;

    if i == j {
        assert(s.update(i, s[j]).update(j, s[i]) =~= s);
    } else {
        let s1 = s.update(i, s[j]);
        let s2 = s1.update(j, s[i]);
        to_multiset_update(s, i, s[j]);
        to_multiset_update(s1, j, s[i]);
        assert(s1[j] == s[j]);
        to_multiset_contains(s, s[i]);
        assert(s.contains(s[i]));
        assert(s2.to_multiset() =~= s.to_multiset());
    }
}

/// Writes position `k` of a deck, leaving the rest unchanged.
fn deck_set(deck: &mut Vec<Card>, k: usize, c: Card)
    requires
        k < old(deck)@.len(),
    ensures
        final(deck)@ == old(deck)@.update(k as int, c),
{
    let slot = vstd::std_specs::vec::vec_index_mut(deck, k);
    *slot = c;
}

/// Permutes a deck in place, driven by `seed`. The multiset of cards --
/// and so the multiset of rank/suit pairs -- is exactly preserved, for
/// every seed.
pub fn shuffle_deck(deck: &mut Vec<Card>, seed: u64)
    ensures
        final(deck)@.len() == old(deck)@.len(),
        final(deck)@.to_multiset() == old(deck)@.to_multiset(),
        pairs_of(final(deck)@).to_multiset() == pairs_of(old(deck)@).to_multiset(),
{
    let mut state: u64 = seed;
    let mut i: usize = deck.len();
    while i > 1
        invariant
            i <= deck@.len(),
            deck@.len() == old(deck)@.len(),
            deck@.to_multiset() == old(deck)@.to_multiset(),
            pairs_of(deck@).to_multiset() == pairs_of(old(deck)@).to_multiset(),
        decreases i,
    {
        state = next_random(state);
        let j: usize = (state % (i as u64)) as usize;
        let ghost before = deck@;
        let a = deck[i - 1];
        let b = deck[j];
        deck_set(deck, i - 1, b);
        deck_set(deck, j, a);
        proof {
            lemma_swap_preserves_multiset(before, i - 1, j as int);
            assert(pairs_of(deck@) =~= pairs_of(before).update(i - 1, pair_of(b)).update(
                j as int,
                pair_of(a),
            ));
            assert(pair_of(b) == pairs_of(before)[j as int]);
            assert(pair_of(a) == pairs_of(before)[i - 1]);
            lemma_swap_preserves_multiset(pairs_of(before), i - 1, j as int);
        }
        i = i - 1;
    }
}

/// Produces a freshly shuffled standard deck: 52 cards whose rank/suit
/// pairs are exactly the standard deck's, for every seed.
pub fn new_shuffled_deck(seed: u64) -> (deck: Vec<Card>)
    ensures
        deck@.len() == 52,
        deck@.to_multiset() == standard_deck().to_multiset(),
        pairs_of(deck@).to_multiset() == standard_pairs().to_multiset(),
{
    let mut deck = build_standard_deck();
    shuffle_deck(&mut deck, seed);
    deck
}

/// Removes and returns the front card of a deck; fails with `EmptyDeck`
/// when no card remains.
pub fn draw_from(deck: &mut Vec<Card>) -> (r: Result<Card, GameError>)
    ensures
        old(deck)@.len() == 0 ==> r == Err::<Card, GameError>(GameError::EmptyDeck)
            && final(deck)@ == old(deck)@,
        old(deck)@.len() > 0 ==> r == Ok::<Card, GameError>(old(deck)@[0])
            && final(deck)@ == old(deck)@.drop_first(),
{
    if deck.len() == 0 {
        Err(GameError::EmptyDeck)
    } else {
        let c = deck.remove(0);
        proof {
            assert(final(deck)@ =~= old(deck)@.drop_first());
        }
        Ok(c)
    }
}

/// The standard deck holds no rank/suit pair twice.
pub proof fn lemma_standard_pairs_distinct()
    ensures
        standard_pairs().no_duplicates(),
{
    assert forall|i: int, j: int| 0 <= i < j < 52 implies standard_pairs()[i]
        != standard_pairs()[j] by {
        assert(standard_pairs()[i] == pair_of(standard_card(i)));
        assert(standard_pairs()[j] == pair_of(standard_card(j)));
        if i / 13 == j / 13 {
            assert(i % 13 != j % 13) by {
                assert(i == 13 * (i / 13) + i % 13);
                assert(j == 13 * (j / 13) + j % 13);
            }
        }
    }
}

/// Any deck whose pair multiset is the standard one has 52 cards and no
/// duplicated rank/suit pair: the standard deck's content, exactly.
pub proof fn lemma_standard_multiset_deck(s: Seq<Card>)
    requires
        pairs_of(s).to_multiset() == standard_pairs().to_multiset(),
    ensures
        s.len() == 52,
        forall|i: int, j: int|
            0 <= i < j < s.len() ==> pair_of(s[i]) != pair_of(s[j]),
{
    broadcast use vstd::seq_lib::group_to_multiset_ensures;

    lemma_standard_pairs_distinct();
    standard_pairs().lemma_multiset_has_no_duplicates();
    assert(pairs_of(s).len() == pairs_of(s).to_multiset().len());
    assert(standard_pairs().len() == standard_pairs().to_multiset().len());
    assert forall|x: (Rank, Suit)|
        pairs_of(s).to_multiset().contains(x) implies pairs_of(s).to_multiset().count(x)
        == 1 by {
        assert(standard_pairs().to_multiset().count(x) == 1);
    }
    pairs_of(s).lemma_multiset_has_no_duplicates_conv();
    assert forall|i: int, j: int|
        0 <= i < j < s.len() implies pair_of(s[i]) != pair_of(s[j]) by {
        assert(pairs_of(s)[i] == pair_of(s[i]));
        assert(pairs_of(s)[j] == pair_of(s[j]));
    }
}

} // verus!
