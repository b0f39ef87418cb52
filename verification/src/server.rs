//! The game server's state and the operations that compose several
//! components: creating a game with a fresh random shuffle, and the
//! invitation workflow that joins the invitation manager with the
//! session registry.
//!
//! The two trusted reads — the clock and the random identifier source —
//! live here. Every composed operation takes the current time as an
//! argument and is verified for every reading; the convenience readers
//! below hand callers those arguments.

use vstd::prelude::*;
use crate::errors::GameError;
use crate::invitations::{
    effective_ttl, has_invitation, invitation_at, lazy_expire, manager_wf, with_status, Invitation,
    InvitationManager, InvitationStatus,
};
use crate::rate_limit::{limiter_wf, RateLimiter};
use crate::registry::{
    create_post, has_session, only_session_changed, registry_wf, session_at, Registry,
    RegistryConfig,
};
use crate::session::{fresh_player, has_player, same_meta};

verus! {

/// Relies on chrono's `Utc::now`: the current civil time, of which only
/// its Unix-epoch second count is taken. Nothing is promised of the
/// reading; callers pass it to operations verified for every value.
#[verifier::external_body]
fn unix_timestamp() -> i64 {
    chrono::Utc::now().timestamp()
}

/// Relies on uuid's `Uuid::new_v4`: a freshly generated random
/// identifier, read back as its 128 bits. Nothing is promised of a
/// random value.
#[verifier::external_body]
fn random_uuid_bits() -> u128 {
    uuid::Uuid::new_v4().as_u128()
}

/// The current time in whole seconds since the Unix epoch, clamped at
/// zero. The value comes from the system clock, so no contract can pin
/// it; every time-dependent operation takes the time as an argument
/// instead and is verified for every value.
pub fn current_time_seconds() -> u64 {
    let t = unix_timestamp();
    if t < 0 {
        0
    } else {
        t as u64
    }
}

/// A fresh shuffle seed drawn from the random identifier source. No
/// contract can pin a random value; the shuffle it feeds is verified
/// for every seed.
pub fn random_seed() -> u64 {
    let bits = random_uuid_bits();
    #[verifier::truncate]
    (bits as u64)
}

/// The whole server state: the session registry, the invitation
/// manager, and the rate limiter.
#[derive(Debug)]
pub struct GameServer {
    pub registry: Registry,
    pub invitations: InvitationManager,
    pub limiter: RateLimiter,
}

/// Every component's invariant at once.
pub open spec fn server_wf(s: GameServer) -> bool {
    &&& registry_wf(s.registry)
    &&& manager_wf(s.invitations)
    &&& limiter_wf(s.limiter)
}

/// What `create_invitation` does: reject an unknown session or an
/// inviter who is not its creator, changing nothing; otherwise mint a
/// fresh pending invitation for the invitee.
pub open spec fn create_invitation_post(
    s0: GameServer,
    s1: GameServer,
    session_id: u64,
    inviter: Seq<char>,
    invitee: Seq<char>,
    ttl: Option<u64>,
    now: u64,
    r: Result<u64, GameError>,
) -> bool {
    if !has_session(s0.registry.sessions@, session_id) {
        &&& r is Err
        &&& r->Err_0 == GameError::SessionNotFound
        &&& s1 == s0
    } else {
        forall|k: int| session_at(s0.registry.sessions@, session_id, k) ==> {
            if s0.registry.sessions@[k].creator@ != inviter {
                &&& r is Err
                &&& r->Err_0 == GameError::NotCreator
                &&& s1 == s0
            } else {
                &&& s1.registry == s0.registry
                &&& s1.limiter == s0.limiter
                &&& r is Ok
                &&& r->Ok_0 == s0.invitations.next_id
                &&& s1.invitations.next_id == s0.invitations.next_id + 1
                &&& s1.invitations.default_ttl == s0.invitations.default_ttl
                &&& s1.invitations.invitations@.len() == s0.invitations.invitations@.len() + 1
                &&& (forall|j: int| 0 <= j < s0.invitations.invitations@.len()
                    ==> s1.invitations.invitations@[j] == s0.invitations.invitations@[j])
                &&& ({
                    let v = s1.invitations.invitations@.last();
                    &&& v.id == s0.invitations.next_id
                    &&& v.session_id == session_id
                    &&& v.inviter@ == inviter
                    &&& v.invitee@ == invitee
                    &&& v.created_at == now
                    &&& v.expires_at == now + effective_ttl(ttl, s0.invitations.default_ttl)
                    &&& v.status is Pending
                })
            }
        }
    }
}

/// What `accept_invitation` does, stepping through its checks in
/// order: the invitation must exist, be pending once the expiry rule
/// ran at `now` (only that expiry flip ever persists on failure), and
/// be addressed to the acting identity; its session must exist, be
/// unfinished, and not already hold the invitee. Then — atomically with
/// respect to any other resolution of the same invitation — the invitee
/// joins the session's turn order and the invitation becomes
/// `Accepted`, its one terminal transition.
pub open spec fn accept_invitation_post(
    s0: GameServer,
    s1: GameServer,
    actor: Seq<char>,
    invitation_id: u64,
    now: u64,
    r: Result<u64, GameError>,
) -> bool {
    if !has_invitation(s0.invitations.invitations@, invitation_id) {
        &&& r is Err
        &&& r->Err_0 == GameError::InvitationNotFound
        &&& s1 == s0
    } else {
        forall|i: int| invitation_at(s0.invitations.invitations@, invitation_id, i)
            ==> #[trigger] accept_invitation_step(s0, s1, actor, now, i, r)
    }
}

/// The branch of `accept_invitation_post` for the invitation standing
/// at position `i`.
pub open spec fn accept_invitation_step(
    s0: GameServer,
    s1: GameServer,
    actor: Seq<char>,
    now: u64,
    i: int,
    r: Result<u64, GameError>,
) -> bool {
    {
        let v = lazy_expire(s0.invitations.invitations@[i], now);
            &&& s1.limiter == s0.limiter
            &&& s1.invitations.next_id == s0.invitations.next_id
            &&& s1.invitations.default_ttl == s0.invitations.default_ttl
            &&& if !(v.status is Pending) {
                &&& r is Err
                &&& r->Err_0 == GameError::InvitationNotPending
                &&& s1.registry == s0.registry
                &&& s1.invitations.invitations@ == s0.invitations.invitations@.update(i, v)
            } else if v.invitee@ != actor {
                &&& r is Err
                &&& r->Err_0 == GameError::NotInvitee
                &&& s1.registry == s0.registry
                &&& s1.invitations.invitations@ == s0.invitations.invitations@.update(i, v)
            } else if !has_session(s0.registry.sessions@, v.session_id) {
                &&& r is Err
                &&& r->Err_0 == GameError::SessionNotFound
                &&& s1.registry == s0.registry
                &&& s1.invitations.invitations@ == s0.invitations.invitations@.update(i, v)
            } else {
                forall|k: int| session_at(s0.registry.sessions@, v.session_id, k) ==> {
                    let sess = s0.registry.sessions@[k];
                    &&& only_session_changed(s0.registry, s1.registry, k)
                    &&& if sess.finished {
                        &&& r is Err
                        &&& r->Err_0 == GameError::SessionFinished
                        &&& s1.registry.sessions@[k] == sess
                        &&& s1.invitations.invitations@ == s0.invitations.invitations@.update(
                            i,
                            v,
                        )
                    } else if has_player(sess.players@, actor) {
                        &&& r is Err
                        &&& r->Err_0 == GameError::DuplicateParticipant
                        &&& s1.registry.sessions@[k] == sess
                        &&& s1.invitations.invitations@ == s0.invitations.invitations@.update(
                            i,
                            v,
                        )
                    } else {
                        let sess1 = s1.registry.sessions@[k];
                        &&& r is Ok
                        &&& r->Ok_0 == v.session_id
                        &&& sess1.players@.len() == sess.players@.len() + 1
                        &&& (forall|j: int| 0 <= j < sess.players@.len() ==> sess1.players@[j]
                            == sess.players@[j])
                        &&& fresh_player(sess1.players@[sess.players@.len() as int], actor)
                        &&& sess1.deck == sess.deck
                        &&& sess1.current_turn == sess.current_turn
                        &&& sess1.finished == sess.finished
                        &&& same_meta(sess, sess1)
                        &&& s1.invitations.invitations@ == s0.invitations.invitations@.update(
                            i,
                            with_status(v, InvitationStatus::Accepted),
                        )
                    }
                }
            }
    }
}

/// What `decline_invitation` does: as `accept_invitation` up to the
/// invitee check, then the invitation becomes `Declined` and no session
/// is touched.
pub open spec fn decline_invitation_post(
    s0: GameServer,
    s1: GameServer,
    actor: Seq<char>,
    invitation_id: u64,
    now: u64,
    r: Result<(), GameError>,
) -> bool {
    if !has_invitation(s0.invitations.invitations@, invitation_id) {
        &&& r is Err
        &&& r->Err_0 == GameError::InvitationNotFound
        &&& s1 == s0
    } else {
        forall|i: int| invitation_at(s0.invitations.invitations@, invitation_id, i) ==> {
            let v = lazy_expire(s0.invitations.invitations@[i], now);
            &&& s1.limiter == s0.limiter
            &&& s1.registry == s0.registry
            &&& s1.invitations.next_id == s0.invitations.next_id
            &&& s1.invitations.default_ttl == s0.invitations.default_ttl
            &&& if !(v.status is Pending) {
                &&& r is Err
                &&& r->Err_0 == GameError::InvitationNotPending
                &&& s1.invitations.invitations@ == s0.invitations.invitations@.update(i, v)
            } else if v.invitee@ != actor {
                &&& r is Err
                &&& r->Err_0 == GameError::NotInvitee
                &&& s1.invitations.invitations@ == s0.invitations.invitations@.update(i, v)
            } else {
                &&& r is Ok
                &&& s1.invitations.invitations@ == s0.invitations.invitations@.update(
                    i,
                    with_status(v, InvitationStatus::Declined),
                )
            }
        }
    }
}

impl GameServer {
    /// A fresh server: no sessions, no invitations, no request history.
    pub fn new(
        config: RegistryConfig,
        default_invitation_ttl: u64,
        window_seconds: u64,
        max_requests: usize,
    ) -> (s: GameServer)
        requires
            1 <= config.min_players <= config.max_players,
        ensures
            server_wf(s),
            s.registry.sessions@.len() == 0,
            s.registry.config == config,
            s.invitations.invitations@.len() == 0,
            s.invitations.default_ttl == default_invitation_ttl,
            s.limiter.windows@.len() == 0,
            s.limiter.window_seconds == window_seconds,
            s.limiter.max_requests == max_requests,
    {
        GameServer {
            registry: Registry::new(config),
            invitations: InvitationManager::new(default_invitation_ttl),
            limiter: RateLimiter::new(window_seconds, max_requests),
        }
    }

    /// Creates a new game for `creator` with the given participants,
    /// shuffling its deck from a fresh random seed. Participant-count
    /// and duplicate rules are the registry's; every promise of the
    /// registry's creation holds for whatever seed was drawn.
    pub fn create_game(&mut self, creator: String, emails: &Vec<String>, now: u64) -> (r: Result<
        u64,
        GameError,
    >)
        requires
            server_wf(*old(self)),
            old(self).registry.next_id < u64::MAX,
        ensures
            server_wf(*final(self)),
            final(self).invitations == old(self).invitations,
            final(self).limiter == old(self).limiter,
            create_post(old(self).registry, final(self).registry, creator@, emails@, now, r),
    {
        let seed = random_seed();
        self.registry.create_session(creator, emails, seed, now)
    }

    /// Issues an invitation to `invitee` for session `session_id` on
    /// behalf of `inviter`, who must be the session's creator; fails
    /// `SessionNotFound` or `NotCreator` otherwise, changing nothing.
    pub fn create_invitation(
        &mut self,
        session_id: u64,
        inviter: &String,
        invitee: String,
        ttl: Option<u64>,
        now: u64,
    ) -> (r: Result<u64, GameError>)
        requires
            server_wf(*old(self)),
            old(self).invitations.next_id < u64::MAX,
            now + effective_ttl(ttl, old(self).invitations.default_ttl) <= u64::MAX,
        ensures
            server_wf(*final(self)),
            create_invitation_post(
                *old(self),
                *final(self),
                session_id,
                inviter@,
                invitee@,
                ttl,
                now,
                r,
            ),
    {
        let is_creator = match self.registry.is_creator(session_id, inviter) {
            Err(e) => {
                return Err(e);
            },
            Ok(b) => b,
        };
        if !is_creator {
            return Err(GameError::NotCreator);
        }
        let id = self.invitations.create(session_id, inviter.clone(), invitee, ttl, now);
        Ok(id)
    }

    /// Accepts invitation `invitation_id` on behalf of `actor` at time
    /// `now`: after the checks described by `accept_invitation_post`,
    /// the actor joins the invited session's turn order and the
    /// invitation takes its one terminal transition to `Accepted`.
    /// Returns the joined session's identifier.
    pub fn accept_invitation(&mut self, actor: &String, invitation_id: u64, now: u64) -> (r: Result<
        u64,
        GameError,
    >)
        requires
            server_wf(*old(self)),
        ensures
            server_wf(*final(self)),
            accept_invitation_post(*old(self), *final(self), actor@, invitation_id, now, r),
    {
        let ghost m0 = old(self).invitations.invitations@;
        let v = match self.invitations.get_invitation(invitation_id, now) {
            Err(e) => {
                return Err(e);
            },
            Ok(v) => v,
        };
        let ghost gi = choose|ii: int| invitation_at(m0, invitation_id, ii);
        proof {
            assert(invitation_at(m0, invitation_id, gi));
            assert forall|ii: int| invitation_at(m0, invitation_id, ii) implies ii == gi by {
                if ii != gi {
                    assert(m0[ii].id != m0[gi].id);
                }
            }
            assert(v == lazy_expire(m0[gi], now));
        }
        if !matches!(v.status, InvitationStatus::Pending) {
            return Err(GameError::InvitationNotPending);
        }
        if v.invitee != *actor {
            return Err(GameError::NotInvitee);
        }
        let ghost r0 = old(self).registry.sessions@;
        let ghost gk = choose|kk: int| session_at(r0, v.session_id, kk);
        proof {
            if has_session(r0, v.session_id) {
                assert(session_at(r0, v.session_id, gk));
                assert forall|kk: int| session_at(r0, v.session_id, kk) implies kk == gk by {
                    if kk != gk {
                        assert(r0[kk].id != r0[gk].id);
                    }
                }
            }
        }
        match self.registry.add_participant(v.session_id, actor.clone()) {
            Err(e) => {
                proof {
                    assert forall|ii: int| invitation_at(m0, invitation_id, ii)
                        implies accept_invitation_step(
                        *old(self),
                        *self,
                        actor@,
                        now,
                        ii,
                        Err::<u64, GameError>(e),
                    ) by {
                        assert(ii == gi);
                        assert(lazy_expire(m0[gi], now) == v);
                        assert(self.limiter == old(self).limiter);
                        assert(self.invitations.next_id == old(self).invitations.next_id);
                        assert(self.invitations.default_ttl == old(self).invitations.default_ttl);
                        assert(v.status is Pending);
                        assert(v.invitee@ == actor@);
                        assert(self.invitations.invitations@ == m0.update(gi, v));
                        if !has_session(r0, v.session_id) {
                            assert(e == GameError::SessionNotFound);
                            assert(self.registry == old(self).registry);
                        } else {
                            assert(session_at(r0, v.session_id, gk));
                            assert forall|kk: int| session_at(r0, v.session_id, kk)
                                implies kk == gk by {
                                if kk != gk {
                                    assert(r0[kk].id != r0[gk].id);
                                }
                            }
                            assert(only_session_changed(old(self).registry, self.registry, gk));
                            let sess = r0[gk];
                            if sess.finished {
                                assert(e == GameError::SessionFinished);
                                assert(self.registry.sessions@[gk] == sess);
                            } else {
                                assert(has_player(sess.players@, actor@));
                                assert(e == GameError::DuplicateParticipant);
                                assert(self.registry.sessions@[gk] == sess);
                            }
                        }
                    }
                }
                return Err(e);
            },
            Ok(()) => {},
        }
        let ghost m1 = self.invitations;
        match self.invitations.accept(invitation_id, now) {
            Err(e) => {
                proof {
                    assert(invitation_at(m1.invitations@, invitation_id, gi));
                    assert(false);
                }
                Err(e)
            },
            Ok(_) => {
                proof {
                    assert(invitation_at(m1.invitations@, invitation_id, gi));
                    assert forall|ii: int| invitation_at(m1.invitations@, invitation_id, ii)
                        implies ii == gi by {
                        if ii != gi {
                            assert(m1.invitations@[ii].id != m1.invitations@[gi].id);
                        }
                    }
                    assert(self.invitations.invitations@ =~= m0.update(
                        gi,
                        with_status(v, InvitationStatus::Accepted),
                    ));
                    assert forall|ii: int| invitation_at(m0, invitation_id, ii)
                        implies accept_invitation_step(
                        *old(self),
                        *self,
                        actor@,
                        now,
                        ii,
                        Ok::<u64, GameError>(v.session_id),
                    ) by {
                        assert(ii == gi);
                        assert(lazy_expire(m0[gi], now) == v);
                        assert(v.status is Pending);
                        assert(v.invitee@ == actor@);
                        assert(session_at(r0, v.session_id, gk));
                        assert forall|kk: int| session_at(r0, v.session_id, kk)
                            implies kk == gk by {
                            if kk != gk {
                                assert(r0[kk].id != r0[gk].id);
                            }
                        }
                        assert(self.limiter == old(self).limiter);
                        assert(self.invitations.next_id == old(self).invitations.next_id);
                        assert(self.invitations.default_ttl == old(self).invitations.default_ttl);
                        assert(only_session_changed(old(self).registry, self.registry, gk));
                        let sess = r0[gk];
                        let sess1 = self.registry.sessions@[gk];
                        assert(!sess.finished);
                        assert(!has_player(sess.players@, actor@));
                        assert(sess1.players@.len() == sess.players@.len() + 1);
                        assert(fresh_player(sess1.players@[sess.players@.len() as int], actor@));
                        assert(sess1.deck == sess.deck);
                        assert(sess1.current_turn == sess.current_turn);
                        assert(sess1.finished == sess.finished);
                        assert(same_meta(sess, sess1));
                        assert(self.invitations.invitations@ == m0.update(
                            gi,
                            with_status(v, InvitationStatus::Accepted),
                        ));
                    }
                }
                Ok(v.session_id)
            },
        }
    }

    /// Declines invitation `invitation_id` on behalf of `actor` at time
    /// `now`: the symmetric terminal transition to `Declined`; no
    /// session is touched.
    pub fn decline_invitation(&mut self, actor: &String, invitation_id: u64, now: u64) -> (r:
        Result<(), GameError>)
        requires
            server_wf(*old(self)),
        ensures
            server_wf(*final(self)),
            decline_invitation_post(*old(self), *final(self), actor@, invitation_id, now, r),
    {
        let ghost m0 = old(self).invitations.invitations@;
        let v = match self.invitations.get_invitation(invitation_id, now) {
            Err(e) => {
                return Err(e);
            },
            Ok(v) => v,
        };
        let ghost gi = choose|ii: int| invitation_at(m0, invitation_id, ii);
        proof {
            assert(invitation_at(m0, invitation_id, gi));
            assert forall|ii: int| invitation_at(m0, invitation_id, ii) implies ii == gi by {
                if ii != gi {
                    assert(m0[ii].id != m0[gi].id);
                }
            }
            assert(v == lazy_expire(m0[gi], now));
        }
        if !matches!(v.status, InvitationStatus::Pending) {
            return Err(GameError::InvitationNotPending);
        }
        if v.invitee != *actor {
            return Err(GameError::NotInvitee);
        }
        let ghost m1 = self.invitations;
        match self.invitations.decline(invitation_id, now) {
            Err(e) => {
                proof {
                    assert(invitation_at(m1.invitations@, invitation_id, gi));
                    assert(false);
                }
                Err(e)
            },
            Ok(_) => {
                proof {
                    assert(invitation_at(m1.invitations@, invitation_id, gi));
                    assert forall|ii: int| invitation_at(m1.invitations@, invitation_id, ii)
                        implies ii == gi by {
                        if ii != gi {
                            assert(m1.invitations@[ii].id != m1.invitations@[gi].id);
                        }
                    }
                    assert(self.invitations.invitations@ =~= m0.update(
                        gi,
                        with_status(v, InvitationStatus::Declined),
                    ));
                }
                Ok(())
            },
        }
    }
}

} // verus!
