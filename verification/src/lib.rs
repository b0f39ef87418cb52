//! Core of a multiplayer card-game server: shuffled decks, hand scoring,
//! per-session turn coordination, a session registry, time-bounded
//! invitations and a sliding-window rate limiter.
//!
//! Every operation is specified by `requires`/`ensures` contracts and
//! verified. Clock and randomness reads are the only trusted calls; all
//! time-dependent operations also take the current time as an argument, so
//! their logic is verified for every possible reading.

pub mod api;
pub mod cards;
pub mod errors;
pub mod hand;
pub mod invitations;
pub mod rate_limit;
pub mod registry;
pub mod server;
pub mod session;
