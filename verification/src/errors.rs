//! Failure kinds shared by every component of the game core.
//!
//! Each variant is an expected, recoverable condition that an operation
//! reports to its caller; no operation panics.

use vstd::prelude::*;

verus! {

/// The failure kinds of the game core.
///
/// `SessionFinished` reports "already finished" on mutating calls;
/// `GameNotFinished` reports "not yet finished" on reading results.
/// `NotCreator` and `NotInvitee` guard the invitation workflow: only a
/// session's creator may invite, and only the invited identity may accept
/// or decline.
#[derive(Clone, Copy, Debug, PartialEq, Eq, Structural)]
pub enum GameError {
    SessionNotFound,
    InvalidParticipantCount,
    DuplicateParticipant,
    PlayerNotInSession,
    NotYourTurn,
    SessionFinished,
    GameNotFinished,
    EmptyDeck,
    CardNotFound,
    InvitationNotFound,
    InvitationNotPending,
    RateLimitExceeded,
    NotCreator,
    NotInvitee,
}

impl GameError {
    /// A stable machine-readable code for this failure, for callers that
    /// map failures to wire-level error responses.
    pub fn code(&self) -> (r: &'static str)
        ensures
            r@ == self.spec_code(),
    {
        match self {
            GameError::SessionNotFound => "GAME_NOT_FOUND",
            GameError::InvalidParticipantCount => "INVALID_PLAYER_COUNT",
            GameError::DuplicateParticipant => "DUPLICATE_PLAYER",
            GameError::PlayerNotInSession => "PLAYER_NOT_IN_GAME",
            GameError::NotYourTurn => "NOT_YOUR_TURN",
            GameError::SessionFinished => "GAME_FINISHED",
            GameError::GameNotFinished => "GAME_NOT_FINISHED",
            GameError::EmptyDeck => "EMPTY_DECK",
            GameError::CardNotFound => "CARD_NOT_FOUND",
            GameError::InvitationNotFound => "INVITATION_NOT_FOUND",
            GameError::InvitationNotPending => "INVITATION_NOT_PENDING",
            GameError::RateLimitExceeded => "RATE_LIMIT_EXCEEDED",
            GameError::NotCreator => "NOT_CREATOR",
            GameError::NotInvitee => "NOT_INVITEE",
        }
    }

    /// The code of each failure kind, as a sequence of characters.
    pub open spec fn spec_code(self) -> Seq<char> {
        match self {
            GameError::SessionNotFound => "GAME_NOT_FOUND"@,
            GameError::InvalidParticipantCount => "INVALID_PLAYER_COUNT"@,
            GameError::DuplicateParticipant => "DUPLICATE_PLAYER"@,
            GameError::PlayerNotInSession => "PLAYER_NOT_IN_GAME"@,
            GameError::NotYourTurn => "NOT_YOUR_TURN"@,
            GameError::SessionFinished => "GAME_FINISHED"@,
            GameError::GameNotFinished => "GAME_NOT_FINISHED"@,
            GameError::EmptyDeck => "EMPTY_DECK"@,
            GameError::CardNotFound => "CARD_NOT_FOUND"@,
            GameError::InvitationNotFound => "INVITATION_NOT_FOUND"@,
            GameError::InvitationNotPending => "INVITATION_NOT_PENDING"@,
            GameError::RateLimitExceeded => "RATE_LIMIT_EXCEEDED"@,
            GameError::NotCreator => "NOT_CREATOR"@,
            GameError::NotInvitee => "NOT_INVITEE"@,
        }
    }
}

} // verus!
