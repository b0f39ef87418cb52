use blackjack::cards::{build_standard_deck, Card, Rank};
use blackjack::errors::GameError;
use blackjack::hand::score;
use blackjack::session::{new_session, PlayerState, Session};

fn abc() -> Vec<String> {
    vec!["a@x".to_string(), "b@x".to_string(), "c@x".to_string()]
}

fn three_player_session(seed: u64) -> Session {
    new_session(1, "a@x".to_string(), &abc(), seed, 1000, 1, 10).unwrap()
}

fn player(identity: &str, hand: Vec<Card>, standing: bool) -> PlayerState {
    let points = score(&hand);
    PlayerState {
        identity: identity.to_string(),
        hand,
        score: points,
        busted: points > 21,
        standing,
    }
}

fn current_player(s: &Session) -> Option<String> {
    s.state_snapshot().current_turn_player
}

fn total_cards(s: &Session) -> usize {
    let snap = s.state_snapshot();
    snap.cards_in_deck + snap.players.iter().map(|p| p.cards_history.len()).sum::<usize>()
}

#[test]
fn new_session_starts_with_first_player() {
    let s = three_player_session(3);
    assert_eq!(current_player(&s), Some("a@x".to_string()));
    assert!(!s.finished);
    assert_eq!(total_cards(&s), 52);
}

#[test]
fn new_session_rejects_duplicates() {
    let dup = vec!["a@x".to_string(), "a@x".to_string()];
    let r = new_session(1, "a@x".to_string(), &dup, 0, 0, 1, 10);
    assert!(matches!(r, Err(GameError::DuplicateParticipant)));
}

#[test]
fn turn_passes_to_next_after_stand_and_past_busts() {
    let mut s = three_player_session(11);
    let a = "a@x".to_string();
    let b = "b@x".to_string();

    let stood = s.stand(&a).unwrap();
    assert!(!stood.finished);
    assert_eq!(current_player(&s), Some(b.clone()));

    let mut busted = false;
    for _ in 0..12 {
        let out = s.draw(&b).unwrap();
        assert_eq!(total_cards(&s), 52);
        if out.busted {
            busted = true;
            break;
        }
        assert_eq!(current_player(&s), Some(b.clone()));
    }
    assert!(busted);
    assert_eq!(current_player(&s), Some("c@x".to_string()));
    assert!(!s.finished);
}

#[test]
fn draw_keeps_the_turn_until_stand_or_bust() {
    let mut s = three_player_session(21);
    let a = "a@x".to_string();
    let out = s.draw(&a).unwrap();
    assert!(!out.busted);
    assert_eq!(out.cards_remaining, 51);
    assert_eq!(out.cards_history.len(), 1);
    assert_eq!(current_player(&s), Some(a.clone()));
    assert_eq!(total_cards(&s), 52);
}

#[test]
fn draw_out_of_turn_is_rejected() {
    let mut s = three_player_session(4);
    let b = "b@x".to_string();
    assert_eq!(s.draw(&b).unwrap_err(), GameError::NotYourTurn);
}

#[test]
fn stranger_cannot_act() {
    let mut s = three_player_session(4);
    let z = "z@x".to_string();
    assert_eq!(s.draw(&z).unwrap_err(), GameError::PlayerNotInSession);
    assert_eq!(s.stand(&z).unwrap_err(), GameError::PlayerNotInSession);
    assert_eq!(s.set_ace_value(&z, 0, true).unwrap_err(), GameError::PlayerNotInSession);
}

#[test]
fn finished_session_rejects_mutation() {
    let mut s = three_player_session(4);
    s.finish().unwrap();
    let a = "a@x".to_string();
    assert_eq!(s.draw(&a).unwrap_err(), GameError::SessionFinished);
    assert_eq!(s.stand(&a).unwrap_err(), GameError::SessionFinished);
    assert_eq!(s.set_ace_value(&a, 0, true).unwrap_err(), GameError::SessionFinished);
    assert_eq!(s.add_participant("d@x".to_string()).unwrap_err(), GameError::SessionFinished);
}

#[test]
fn all_stood_finishes_the_session() {
    let mut s = three_player_session(8);
    s.stand(&"a@x".to_string()).unwrap();
    s.stand(&"b@x".to_string()).unwrap();
    let last = s.stand(&"c@x".to_string()).unwrap();
    assert!(last.finished);
    assert!(s.finished);
}

#[test]
fn finish_before_any_draw_ties_everyone_at_zero() {
    let mut s = three_player_session(6);
    s.finish().unwrap();
    let r = s.results().unwrap();
    assert_eq!(r.winner, None);
    assert_eq!(r.highest_score, 0);
    assert_eq!(r.tied_players, abc());
    assert_eq!(r.all_players.len(), 3);
    for p in &r.all_players {
        assert_eq!(p.points, 0);
        assert_eq!(p.cards_count, 0);
        assert!(!p.busted);
    }
}

#[test]
fn results_before_finish_fails_and_finish_is_single_shot() {
    let mut s = three_player_session(6);
    assert_eq!(s.results().unwrap_err(), GameError::GameNotFinished);
    s.finish().unwrap();
    assert_eq!(s.finish().unwrap_err(), GameError::SessionFinished);
    assert!(s.results().is_ok());
}

#[test]
fn single_highest_score_wins() {
    // Hands are fixed by construction: a holds 20, b holds 11.
    let mut deck = build_standard_deck();
    // Drain from the back so indices stay stable: ids 9, 10 are Jack and
    // Queen of Clubs (10 each); ids 0, 7 are Two and Nine of Clubs.
    let queen = deck.remove(10);
    let jack = deck.remove(9);
    let nine = deck.remove(7);
    let two = deck.remove(0);
    let s = Session {
        id: 9,
        creator: "a@x".to_string(),
        players: vec![
            player("a@x", vec![jack, queen], true),
            player("b@x", vec![nine, two], true),
        ],
        deck,
        current_turn: 2,
        finished: true,
        created_at: 0,
    };
    assert_eq!(total_cards(&s), 52);
    let r = s.results().unwrap();
    assert_eq!(r.winner, Some("a@x".to_string()));
    assert!(r.tied_players.is_empty());
    assert_eq!(r.highest_score, 20);
}

#[test]
fn busted_player_never_wins() {
    // a busts with 30; b stands on 11: b wins despite the lower total.
    let mut deck = build_standard_deck();
    let queen = deck.remove(10);
    let jack = deck.remove(9);
    let king = deck.remove(9); // after two removals, id 11 sits at 9
    let nine = deck.remove(7);
    let two = deck.remove(0);
    let s = Session {
        id: 10,
        creator: "a@x".to_string(),
        players: vec![
            player("a@x", vec![jack, queen, king], false),
            player("b@x", vec![nine, two], true),
        ],
        deck,
        current_turn: 2,
        finished: true,
        created_at: 0,
    };
    let r = s.results().unwrap();
    assert_eq!(r.winner, Some("b@x".to_string()));
    assert!(r.tied_players.is_empty());
    assert_eq!(r.highest_score, 11);
    assert!(r.all_players[0].busted);
}

#[test]
fn empty_deck_draw_force_finishes() {
    // One busted player holds all 52 cards; the other's draw finds an
    // empty deck, which force-finishes the session.
    let all_cards = build_standard_deck();
    let mut s = Session {
        id: 11,
        creator: "a@x".to_string(),
        players: vec![
            player("a@x", all_cards, false),
            player("b@x", Vec::new(), false),
        ],
        deck: Vec::new(),
        current_turn: 1,
        finished: false,
        created_at: 0,
    };
    let b = "b@x".to_string();
    assert_eq!(s.draw(&b).unwrap_err(), GameError::EmptyDeck);
    assert!(s.finished);
}

#[test]
fn set_ace_value_retoggles_and_recomputes() {
    // Ace of Clubs has id 12, King of Clubs id 11.
    let mut deck = build_standard_deck();
    let ace = deck.remove(12);
    let king = deck.remove(11);
    assert!(matches!(ace.rank, Rank::Ace));
    let mut s = Session {
        id: 12,
        creator: "a@x".to_string(),
        players: vec![player("a@x", vec![ace, king], false)],
        deck,
        current_turn: 0,
        finished: false,
        created_at: 0,
    };
    let a = "a@x".to_string();
    let down = s.set_ace_value(&a, 12, false).unwrap();
    assert_eq!(down.points, 11);
    assert!(!down.busted);
    let up = s.set_ace_value(&a, 12, true).unwrap();
    assert_eq!(up.points, 21);
    assert!(!up.busted);
    assert_eq!(s.set_ace_value(&a, 11, true).unwrap_err(), GameError::CardNotFound);
    assert_eq!(s.set_ace_value(&a, 999, true).unwrap_err(), GameError::CardNotFound);
}

#[test]
fn ace_toggle_that_busts_the_current_player_advances_the_turn() {
    // a holds Ace + Jack + Queen: 21 with the ace low, 31 with it high.
    let mut deck = build_standard_deck();
    let mut ace = deck.remove(12);
    let queen = deck.remove(10);
    let jack = deck.remove(9);
    ace.as_eleven = false;
    let mut s = Session {
        id: 13,
        creator: "a@x".to_string(),
        players: vec![
            player("a@x", vec![ace, jack, queen], false),
            player("b@x", Vec::new(), false),
        ],
        deck,
        current_turn: 0,
        finished: false,
        created_at: 0,
    };
    let a = "a@x".to_string();
    let st = s.set_ace_value(&a, 12, true).unwrap();
    assert!(st.busted);
    assert_eq!(st.points, 31);
    assert_eq!(current_player(&s), Some("b@x".to_string()));
}

#[test]
fn add_participant_appends_without_disturbing_the_turn() {
    let mut s = three_player_session(2);
    s.stand(&"a@x".to_string()).unwrap();
    assert_eq!(current_player(&s), Some("b@x".to_string()));
    s.add_participant("d@x".to_string()).unwrap();
    assert_eq!(current_player(&s), Some("b@x".to_string()));
    let snap = s.state_snapshot();
    assert_eq!(snap.players.len(), 4);
    assert_eq!(snap.players[3].email, "d@x".to_string());
    assert_eq!(snap.players[3].points, 0);
    assert_eq!(
        s.add_participant("d@x".to_string()).unwrap_err(),
        GameError::DuplicateParticipant
    );
}
