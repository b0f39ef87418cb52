//! The request and response shapes of the server's operations, and the
//! small verified computations behind them: token claim assembly with
//! its expiry arithmetic, and the fixed health and readiness reports.
//!
//! The transport layer parses requests into these types, hands the core
//! plain values, and serializes what comes back. Token signing and
//! verification themselves are a collaborator's concern; the core only
//! states what a claim set holds.

use vstd::prelude::*;
use crate::session::StandOutcome;

verus! {

/// The claims of an issued access token: the authenticated player's
/// identity, the session the token is bound to, and its expiration as
/// seconds since the Unix epoch.
#[derive(Debug, Clone)]
pub struct Claims {
    pub email: String,
    pub game_id: String,
    pub exp: usize,
}

/// A login request: an identity and its password. The password is
/// checked by a collaborator; the core never reads it.
#[derive(Debug)]
pub struct LoginRequest {
    pub email: String,
    pub password: String,
}

/// A successful login: the signed token and its lifetime in seconds.
#[derive(Debug)]
pub struct LoginResponse {
    pub token: String,
    pub expires_in: u64,
}

/// The health report: a status label, the seconds since start, and the
/// service version.
#[derive(Debug)]
pub struct HealthResponse {
    pub status: String,
    pub uptime_seconds: u64,
    pub version: String,
}

/// The readiness report: an overall flag and one labelled check per
/// component.
#[derive(Debug)]
pub struct ReadyResponse {
    pub ready: bool,
    pub checks: Vec<(String, String)>,
}

/// A request to create a game: the participant identities in turn
/// order.
#[derive(Debug)]
pub struct CreateGameRequest {
    pub emails: Vec<String>,
}

/// A request to draw a card. The actor comes from the verified token,
/// so the body carries nothing.
#[derive(Debug)]
pub struct DrawCardRequest {}

/// A request to register an identity with a password. Registration is
/// a collaborator's concern; the core never reads the password.
#[derive(Debug)]
pub struct RegisterRequest {
    pub email: String,
    pub password: String,
}

/// A request to invite an identity, with an optional expiry in seconds
/// (the configured default applies when absent).
#[derive(Debug)]
pub struct CreateInvitationRequest {
    pub invitee_email: String,
    pub timeout_seconds: Option<u64>,
}

/// The acknowledgement of a declined invitation.
#[derive(Debug)]
pub struct DeclineInvitationResponse {
    pub message: String,
}

/// The response to a stand: the actor's final score and bust flag, a
/// message, and whether the session finished with this stand.
#[derive(Debug)]
pub struct StandResponse {
    pub points: u32,
    pub busted: bool,
    pub message: String,
    pub game_finished: bool,
}

/// Assembles the claims of a token issued at `now` for `email` on
/// session `game_id`, expiring `expiration_hours` hours later.
pub fn make_claims(email: String, game_id: String, now: u64, expiration_hours: u64) -> (c: Claims)
    requires
        now + expiration_hours * 3600 <= usize::MAX,
    ensures
        c.email == email,
        c.game_id == game_id,
        c.exp == now + expiration_hours * 3600,
{
    let exp = (now + expiration_hours * 3600) as usize;
    Claims { email, game_id, exp }
}

/// Builds the login response for a signed token valid
/// `expiration_hours` hours: its lifetime is that span in seconds.
pub fn login_response(token: String, expiration_hours: u64) -> (r: LoginResponse)
    requires
        expiration_hours * 3600 <= u64::MAX,
    ensures
        r.token == token,
        r.expires_in == expiration_hours * 3600,
{
    let expires_in = expiration_hours * 3600;
    LoginResponse { token, expires_in }
}

/// Builds the health report: always the label "healthy", with the
/// given uptime and version.
pub fn health_response(uptime_seconds: u64, version: String) -> (r: HealthResponse)
    ensures
        r.status@ == "healthy"@,
        r.uptime_seconds == uptime_seconds,
        r.version == version,
{
    HealthResponse { status: "healthy".to_owned(), uptime_seconds, version }
}

/// Builds the readiness report: ready, with the four component checks.
pub fn ready_response() -> (r: ReadyResponse)
    ensures
        r.ready,
        r.checks@.len() == 4,
        r.checks@[0].0@ == "memory"@ && r.checks@[0].1@ == "ok"@,
        r.checks@[1].0@ == "config"@ && r.checks@[1].1@ == "loaded"@,
        r.checks@[2].0@ == "future_sqlite"@ && r.checks@[2].1@ == "pending"@,
        r.checks@[3].0@ == "future_metrics"@ && r.checks@[3].1@ == "pending"@,
{
    let mut checks: Vec<(String, String)> = Vec::new();
    checks.push(("memory".to_owned(), "ok".to_owned()));
    checks.push(("config".to_owned(), "loaded".to_owned()));
    checks.push(("future_sqlite".to_owned(), "pending".to_owned()));
    checks.push(("future_metrics".to_owned(), "pending".to_owned()));
    ReadyResponse { ready: true, checks }
}

/// Builds the stand response from a stand's outcome.
pub fn stand_response(outcome: StandOutcome) -> (r: StandResponse)
    ensures
        r.points == outcome.points,
        r.busted == outcome.busted,
        r.game_finished == outcome.finished,
        r.message@ == "Player stood successfully"@,
{
    StandResponse {
        points: outcome.points,
        busted: outcome.busted,
        message: "Player stood successfully".to_owned(),
        game_finished: outcome.finished,
    }
}

/// Builds the acknowledgement of a declined invitation.
pub fn decline_response() -> (r: DeclineInvitationResponse)
    ensures
        r.message@ == "Invitation declined"@,
{
    DeclineInvitationResponse { message: "Invitation declined".to_owned() }
}

} // verus!
