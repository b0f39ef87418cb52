use blackjack::errors::GameError;
use blackjack::invitations::{InvitationManager, InvitationStatus};
use blackjack::registry::RegistryConfig;
use blackjack::server::GameServer;

fn server() -> GameServer {
    GameServer::new(RegistryConfig::standard(), 600, 60, 1000)
}

fn game_with_creator(srv: &mut GameServer) -> u64 {
    let emails = vec!["a@x".to_string(), "b@x".to_string()];
    srv.create_game("creator@x".to_string(), &emails, 1000).unwrap()
}

#[test]
fn created_invitation_is_pending_with_computed_expiry() {
    let mut mgr = InvitationManager::new(600);
    let id = mgr.create(5, "a@x".to_string(), "d@x".to_string(), Some(30), 1000);
    let inv = mgr.get_invitation(id, 1000).unwrap();
    assert_eq!(inv.session_id, 5);
    assert_eq!(inv.inviter, "a@x".to_string());
    assert_eq!(inv.invitee, "d@x".to_string());
    assert_eq!(inv.created_at, 1000);
    assert_eq!(inv.expires_at, 1030);
    assert_eq!(inv.status, InvitationStatus::Pending);
}

#[test]
fn absent_ttl_takes_the_default() {
    let mut mgr = InvitationManager::new(600);
    let id = mgr.create(5, "a@x".to_string(), "d@x".to_string(), None, 1000);
    let inv = mgr.get_invitation(id, 1000).unwrap();
    assert_eq!(inv.expires_at, 1600);
}

#[test]
fn accept_past_expiry_fails_lazily() {
    // A one-second invitation read two seconds later is expired.
    let mut mgr = InvitationManager::new(600);
    let id = mgr.create(5, "a@x".to_string(), "d@x".to_string(), Some(1), 1000);
    let r = mgr.accept(id, 1002);
    assert_eq!(r.unwrap_err(), GameError::InvitationNotPending);
    let inv = mgr.get_invitation(id, 1002).unwrap();
    assert_eq!(inv.status, InvitationStatus::Expired);
}

#[test]
fn accept_at_the_deadline_still_succeeds() {
    // Expiry is strict: at exactly the expiration second the invitation
    // is still pending.
    let mut mgr = InvitationManager::new(600);
    let id = mgr.create(5, "a@x".to_string(), "d@x".to_string(), Some(1), 1000);
    let inv = mgr.accept(id, 1001).unwrap();
    assert_eq!(inv.status, InvitationStatus::Accepted);
}

#[test]
fn resolution_is_single_shot() {
    let mut mgr = InvitationManager::new(600);
    let id = mgr.create(5, "a@x".to_string(), "d@x".to_string(), None, 1000);
    mgr.accept(id, 1001).unwrap();
    assert_eq!(mgr.accept(id, 1001).unwrap_err(), GameError::InvitationNotPending);
    assert_eq!(mgr.decline(id, 1001).unwrap_err(), GameError::InvitationNotPending);
}

#[test]
fn unknown_invitation_is_reported() {
    let mut mgr = InvitationManager::new(600);
    assert_eq!(mgr.get_invitation(9, 0).unwrap_err(), GameError::InvitationNotFound);
    assert_eq!(mgr.accept(9, 0).unwrap_err(), GameError::InvitationNotFound);
    assert_eq!(mgr.decline(9, 0).unwrap_err(), GameError::InvitationNotFound);
}

#[test]
fn pending_for_lists_only_live_invitations_of_the_invitee() {
    let mut mgr = InvitationManager::new(600);
    let keep = mgr.create(1, "a@x".to_string(), "d@x".to_string(), Some(100), 1000);
    let _other = mgr.create(2, "a@x".to_string(), "e@x".to_string(), Some(100), 1000);
    let stale = mgr.create(3, "a@x".to_string(), "d@x".to_string(), Some(1), 1000);
    let declined = mgr.create(4, "a@x".to_string(), "d@x".to_string(), Some(100), 1000);
    mgr.decline(declined, 1001).unwrap();

    let pending = mgr.pending_for(&"d@x".to_string(), 1050);
    assert_eq!(pending.len(), 1);
    assert_eq!(pending[0].id, keep);

    let flipped = mgr.get_invitation(stale, 1050).unwrap();
    assert_eq!(flipped.status, InvitationStatus::Expired);
}

#[test]
fn only_the_creator_may_invite() {
    let mut srv = server();
    let game = game_with_creator(&mut srv);
    let r = srv.create_invitation(game, &"a@x".to_string(), "d@x".to_string(), None, 1000);
    assert_eq!(r.unwrap_err(), GameError::NotCreator);
    let r = srv.create_invitation(99, &"creator@x".to_string(), "d@x".to_string(), None, 1000);
    assert_eq!(r.unwrap_err(), GameError::SessionNotFound);
    let ok = srv.create_invitation(game, &"creator@x".to_string(), "d@x".to_string(), None, 1000);
    assert!(ok.is_ok());
}

#[test]
fn accepting_joins_the_game() {
    let mut srv = server();
    let game = game_with_creator(&mut srv);
    let inv = srv
        .create_invitation(game, &"creator@x".to_string(), "d@x".to_string(), Some(60), 1000)
        .unwrap();
    let joined = srv.accept_invitation(&"d@x".to_string(), inv, 1010).unwrap();
    assert_eq!(joined, game);
    let snap = srv.registry.game_state(game).unwrap();
    assert_eq!(snap.players.len(), 3);
    assert_eq!(snap.players[2].email, "d@x".to_string());
    assert_eq!(snap.current_turn_player, Some("a@x".to_string()));
    assert_eq!(
        srv.accept_invitation(&"d@x".to_string(), inv, 1011).unwrap_err(),
        GameError::InvitationNotPending
    );
}

#[test]
fn only_the_invitee_may_resolve() {
    let mut srv = server();
    let game = game_with_creator(&mut srv);
    let inv = srv
        .create_invitation(game, &"creator@x".to_string(), "d@x".to_string(), Some(60), 1000)
        .unwrap();
    assert_eq!(
        srv.accept_invitation(&"e@x".to_string(), inv, 1001).unwrap_err(),
        GameError::NotInvitee
    );
    assert_eq!(
        srv.decline_invitation(&"e@x".to_string(), inv, 1001).unwrap_err(),
        GameError::NotInvitee
    );
    srv.decline_invitation(&"d@x".to_string(), inv, 1001).unwrap();
    let flipped = srv.invitations.get_invitation(inv, 1001).unwrap();
    assert_eq!(flipped.status, InvitationStatus::Declined);
}

#[test]
fn accepting_into_a_finished_game_fails_and_stays_pending() {
    let mut srv = server();
    let game = game_with_creator(&mut srv);
    let inv = srv
        .create_invitation(game, &"creator@x".to_string(), "d@x".to_string(), Some(60), 1000)
        .unwrap();
    srv.registry.finish(game).unwrap();
    assert_eq!(
        srv.accept_invitation(&"d@x".to_string(), inv, 1001).unwrap_err(),
        GameError::SessionFinished
    );
    let still = srv.invitations.get_invitation(inv, 1001).unwrap();
    assert_eq!(still.status, InvitationStatus::Pending);
}

#[test]
fn accepting_twice_into_the_same_game_reports_the_duplicate() {
    let mut srv = server();
    let game = game_with_creator(&mut srv);
    let inv = srv
        .create_invitation(game, &"creator@x".to_string(), "a@x".to_string(), Some(60), 1000)
        .unwrap();
    assert_eq!(
        srv.accept_invitation(&"a@x".to_string(), inv, 1001).unwrap_err(),
        GameError::DuplicateParticipant
    );
}
