use blackjack::cards::{card_points, Card, Rank, Suit};
use blackjack::hand::{is_busted, score};

fn card(id: u64, rank: Rank, as_eleven: bool) -> Card {
    Card { id, rank, suit: Suit::Hearts, as_eleven }
}

#[test]
fn rank_values_are_fixed() {
    assert_eq!(card_points(&card(0, Rank::Two, true)), 2);
    assert_eq!(card_points(&card(1, Rank::Nine, true)), 9);
    assert_eq!(card_points(&card(2, Rank::Ten, true)), 10);
    assert_eq!(card_points(&card(3, Rank::Jack, true)), 10);
    assert_eq!(card_points(&card(4, Rank::Queen, true)), 10);
    assert_eq!(card_points(&card(5, Rank::King, true)), 10);
}

#[test]
fn ace_value_follows_its_choice() {
    assert_eq!(card_points(&card(0, Rank::Ace, true)), 11);
    assert_eq!(card_points(&card(0, Rank::Ace, false)), 1);
}

#[test]
fn non_ace_ignores_the_choice_flag() {
    assert_eq!(card_points(&card(0, Rank::King, false)), 10);
}

#[test]
fn score_sums_king_and_eight() {
    let hand = vec![card(0, Rank::King, true), card(1, Rank::Eight, true)];
    assert_eq!(score(&hand), 18);
}

#[test]
fn score_counts_each_ace_independently() {
    let hand = vec![
        card(0, Rank::Ace, true),
        card(1, Rank::Ace, false),
        card(2, Rank::Seven, true),
    ];
    assert_eq!(score(&hand), 19);
}

#[test]
fn empty_hand_scores_zero() {
    let hand: Vec<Card> = Vec::new();
    assert_eq!(score(&hand), 0);
    assert!(!is_busted(score(&hand)));
}

#[test]
fn score_is_pure_and_idempotent() {
    let hand = vec![card(0, Rank::Ace, true), card(1, Rank::King, true)];
    let first = score(&hand);
    let second = score(&hand);
    assert_eq!(first, second);
    assert_eq!(first, 21);
}

#[test]
fn toggling_an_ace_is_reversible() {
    let mut hand = vec![card(0, Rank::Ace, false), card(1, Rank::Nine, true)];
    let before = score(&hand);
    hand[0].as_eleven = true;
    assert_eq!(score(&hand), 20);
    hand[0].as_eleven = false;
    assert_eq!(score(&hand), before);
    assert_eq!(before, 10);
}

#[test]
fn bust_is_strictly_above_21() {
    assert!(!is_busted(21));
    assert!(is_busted(22));
    let hand = vec![
        card(0, Rank::King, true),
        card(1, Rank::Queen, true),
        card(2, Rank::Two, true),
    ];
    assert_eq!(score(&hand), 22);
    assert!(is_busted(score(&hand)));
}
