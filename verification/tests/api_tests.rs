use blackjack::api::{
    decline_response, health_response, login_response, make_claims, ready_response, stand_response,
};
use blackjack::errors::GameError;
use blackjack::session::StandOutcome;

#[test]
fn claims_expire_after_the_given_hours() {
    let c = make_claims("a@x".to_string(), "game-1".to_string(), 1_000_000, 24);
    assert_eq!(c.email, "a@x".to_string());
    assert_eq!(c.game_id, "game-1".to_string());
    assert_eq!(c.exp, 1_000_000 + 24 * 3600);
}

#[test]
fn login_response_reports_the_lifetime_in_seconds() {
    let r = login_response("token-bytes".to_string(), 24);
    assert_eq!(r.token, "token-bytes".to_string());
    assert_eq!(r.expires_in, 86_400);
}

#[test]
fn health_report_is_healthy() {
    let r = health_response(3600, "1.0.0".to_string());
    assert_eq!(r.status, "healthy".to_string());
    assert_eq!(r.uptime_seconds, 3600);
    assert_eq!(r.version, "1.0.0".to_string());
}

#[test]
fn readiness_report_lists_the_component_checks() {
    let r = ready_response();
    assert!(r.ready);
    let expected = vec![
        ("memory".to_string(), "ok".to_string()),
        ("config".to_string(), "loaded".to_string()),
        ("future_sqlite".to_string(), "pending".to_string()),
        ("future_metrics".to_string(), "pending".to_string()),
    ];
    assert_eq!(r.checks, expected);
}

#[test]
fn stand_response_carries_the_outcome() {
    let r = stand_response(StandOutcome { points: 19, busted: false, finished: true });
    assert_eq!(r.points, 19);
    assert!(!r.busted);
    assert!(r.game_finished);
    assert_eq!(r.message, "Player stood successfully".to_string());
}

#[test]
fn decline_response_has_its_message() {
    let r = decline_response();
    assert_eq!(r.message, "Invitation declined".to_string());
}

#[test]
fn error_codes_are_stable() {
    assert_eq!(GameError::SessionNotFound.code(), "GAME_NOT_FOUND");
    assert_eq!(GameError::InvalidParticipantCount.code(), "INVALID_PLAYER_COUNT");
    assert_eq!(GameError::DuplicateParticipant.code(), "DUPLICATE_PLAYER");
    assert_eq!(GameError::PlayerNotInSession.code(), "PLAYER_NOT_IN_GAME");
    assert_eq!(GameError::NotYourTurn.code(), "NOT_YOUR_TURN");
    assert_eq!(GameError::SessionFinished.code(), "GAME_FINISHED");
    assert_eq!(GameError::GameNotFinished.code(), "GAME_NOT_FINISHED");
    assert_eq!(GameError::EmptyDeck.code(), "EMPTY_DECK");
    assert_eq!(GameError::CardNotFound.code(), "CARD_NOT_FOUND");
    assert_eq!(GameError::InvitationNotFound.code(), "INVITATION_NOT_FOUND");
    assert_eq!(GameError::InvitationNotPending.code(), "INVITATION_NOT_PENDING");
    assert_eq!(GameError::RateLimitExceeded.code(), "RATE_LIMIT_EXCEEDED");
    assert_eq!(GameError::NotCreator.code(), "NOT_CREATOR");
    assert_eq!(GameError::NotInvitee.code(), "NOT_INVITEE");
}
