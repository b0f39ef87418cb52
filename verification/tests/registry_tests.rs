use blackjack::errors::GameError;
use blackjack::registry::{Registry, RegistryConfig};

fn emails(n: usize) -> Vec<String> {
    (0..n).map(|i| format!("p{}@x", i)).collect()
}

fn fresh() -> Registry {
    Registry::new(RegistryConfig::standard())
}

#[test]
fn create_rejects_zero_players() {
    let mut reg = fresh();
    let r = reg.create_session("c@x".to_string(), &emails(0), 0, 0);
    assert_eq!(r.unwrap_err(), GameError::InvalidParticipantCount);
}

#[test]
fn create_rejects_eleven_players() {
    let mut reg = fresh();
    let r = reg.create_session("c@x".to_string(), &emails(11), 0, 0);
    assert_eq!(r.unwrap_err(), GameError::InvalidParticipantCount);
}

#[test]
fn create_rejects_duplicate_identities() {
    let mut reg = fresh();
    let dup = vec!["a@x".to_string(), "b@x".to_string(), "a@x".to_string()];
    let r = reg.create_session("c@x".to_string(), &dup, 0, 0);
    assert_eq!(r.unwrap_err(), GameError::DuplicateParticipant);
}

#[test]
fn create_allocates_fresh_identifiers() {
    let mut reg = fresh();
    let id0 = reg.create_session("c@x".to_string(), &emails(2), 1, 0).unwrap();
    let id1 = reg.create_session("c@x".to_string(), &emails(3), 2, 0).unwrap();
    assert_ne!(id0, id1);
    assert_eq!(reg.get_session(id0).unwrap().players.len(), 2);
    assert_eq!(reg.get_session(id1).unwrap().players.len(), 3);
}

#[test]
fn missing_session_is_reported() {
    let mut reg = fresh();
    let a = "p0@x".to_string();
    assert_eq!(reg.get_session(7).unwrap_err(), GameError::SessionNotFound);
    assert_eq!(reg.draw(7, &a).unwrap_err(), GameError::SessionNotFound);
    assert_eq!(reg.stand(7, &a).unwrap_err(), GameError::SessionNotFound);
    assert_eq!(reg.set_ace_value(7, &a, 0, true).unwrap_err(), GameError::SessionNotFound);
    assert_eq!(reg.finish(7).unwrap_err(), GameError::SessionNotFound);
    assert_eq!(reg.results(7).unwrap_err(), GameError::SessionNotFound);
    assert_eq!(reg.game_state(7).unwrap_err(), GameError::SessionNotFound);
    assert_eq!(
        reg.add_participant(7, a.clone()).unwrap_err(),
        GameError::SessionNotFound
    );
}

#[test]
fn sessions_progress_independently() {
    let mut reg = fresh();
    let id0 = reg.create_session("c@x".to_string(), &emails(2), 3, 0).unwrap();
    let id1 = reg.create_session("c@x".to_string(), &emails(2), 4, 0).unwrap();
    let p0 = "p0@x".to_string();

    let out = reg.draw(id0, &p0).unwrap();
    assert_eq!(out.cards_remaining, 51);

    let s1 = reg.game_state(id1).unwrap();
    assert_eq!(s1.cards_in_deck, 52);
    let s0 = reg.game_state(id0).unwrap();
    assert_eq!(s0.cards_in_deck, 51);
}

#[test]
fn conservation_holds_after_every_operation() {
    let mut reg = fresh();
    let id = reg.create_session("c@x".to_string(), &emails(3), 5, 0).unwrap();
    let p0 = "p0@x".to_string();
    let p1 = "p1@x".to_string();

    let check = |reg: &Registry| {
        let snap = reg.game_state(id).unwrap();
        let held: usize = snap.players.iter().map(|p| p.cards_history.len()).sum();
        assert_eq!(snap.cards_in_deck + held, 52);
    };

    check(&reg);
    reg.draw(id, &p0).unwrap();
    check(&reg);
    reg.stand(id, &p0).unwrap();
    check(&reg);
    reg.draw(id, &p1).unwrap();
    check(&reg);
    reg.add_participant(id, "late@x".to_string()).unwrap();
    check(&reg);
    reg.finish(id).unwrap();
    check(&reg);
}

#[test]
fn is_creator_compares_identities() {
    let mut reg = fresh();
    let id = reg.create_session("c@x".to_string(), &emails(2), 6, 0).unwrap();
    assert!(reg.is_creator(id, &"c@x".to_string()).unwrap());
    assert!(!reg.is_creator(id, &"p0@x".to_string()).unwrap());
    assert_eq!(
        reg.is_creator(9, &"c@x".to_string()).unwrap_err(),
        GameError::SessionNotFound
    );
}

#[test]
fn state_reports_the_current_turn_player() {
    let mut reg = fresh();
    let id = reg.create_session("c@x".to_string(), &emails(2), 8, 0).unwrap();
    let snap = reg.game_state(id).unwrap();
    assert_eq!(snap.current_turn_player, Some("p0@x".to_string()));
    assert!(!snap.finished);
    reg.finish(id).unwrap();
    let done = reg.game_state(id).unwrap();
    assert_eq!(done.current_turn_player, None);
    assert!(done.finished);
}
