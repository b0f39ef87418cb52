use blackjack::cards::{build_standard_deck, draw_from, new_shuffled_deck, Card, Rank, Suit};
use blackjack::errors::GameError;

fn all_ranks() -> Vec<Rank> {
    vec![
        Rank::Two,
        Rank::Three,
        Rank::Four,
        Rank::Five,
        Rank::Six,
        Rank::Seven,
        Rank::Eight,
        Rank::Nine,
        Rank::Ten,
        Rank::Jack,
        Rank::Queen,
        Rank::King,
        Rank::Ace,
    ]
}

fn all_suits() -> Vec<Suit> {
    vec![Suit::Clubs, Suit::Diamonds, Suit::Hearts, Suit::Spades]
}

#[test]
fn standard_deck_has_52_unique_pairs() {
    let deck = build_standard_deck();
    assert_eq!(deck.len(), 52);
    for rank in all_ranks() {
        for suit in all_suits() {
            let count = deck.iter().filter(|c| c.rank == rank && c.suit == suit).count();
            assert_eq!(count, 1);
        }
    }
}

#[test]
fn shuffled_deck_is_standard_multiset() {
    for seed in [0u64, 1, 7, 123456789] {
        let deck = new_shuffled_deck(seed);
        assert_eq!(deck.len(), 52);
        for rank in all_ranks() {
            for suit in all_suits() {
                let count = deck.iter().filter(|c| c.rank == rank && c.suit == suit).count();
                assert_eq!(count, 1);
            }
        }
    }
}

#[test]
fn shuffled_deck_ids_are_unique() {
    let deck = new_shuffled_deck(42);
    for i in 0..deck.len() {
        for j in (i + 1)..deck.len() {
            assert_ne!(deck[i].id, deck[j].id);
        }
    }
}

#[test]
fn shuffle_is_deterministic_per_seed() {
    let a = new_shuffled_deck(99);
    let b = new_shuffled_deck(99);
    assert_eq!(a, b);
}

#[test]
fn shuffled_aces_default_to_eleven() {
    let deck = new_shuffled_deck(5);
    for c in &deck {
        assert!(c.as_eleven);
    }
}

#[test]
fn draw_removes_the_front_card() {
    let mut deck = build_standard_deck();
    let first = deck[0];
    let drawn = draw_from(&mut deck).unwrap();
    assert_eq!(drawn, first);
    assert_eq!(deck.len(), 51);
    assert_eq!(deck[0].id, 1);
}

#[test]
fn draw_from_empty_deck_fails() {
    let mut deck: Vec<Card> = Vec::new();
    assert_eq!(draw_from(&mut deck), Err(GameError::EmptyDeck));
}
