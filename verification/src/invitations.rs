//! The invitation lifecycle manager: issues, tracks, expires, accepts
//! and declines time-bounded invitations tied to a session and an
//! invitee.
//!
//! An invitation starts `Pending` and ends in exactly one of
//! `Accepted`, `Declined` or `Expired`; every terminal state is final.
//! Expiry is lazy: whenever an invitation is read and the given time
//! lies past its expiration, its status flips to `Expired` first. No
//! background sweeper is needed; every operation takes the current time
//! as an argument, so the transition logic is verified for every
//! possible clock reading.

use vstd::prelude::*;
use crate::errors::GameError;

verus! {

/// The state of an invitation. `Pending` is the only non-terminal
/// state.
#[derive(Clone, Copy, Debug, PartialEq, Eq, Structural)]
pub enum InvitationStatus {
    Pending,
    Accepted,
    Declined,
    Expired,
}

/// A time-bounded offer for `invitee` to join session `session_id` as a
/// participant.
#[derive(Debug)]
pub struct Invitation {
    pub id: u64,
    pub session_id: u64,
    pub inviter: String,
    pub invitee: String,
    pub created_at: u64,
    pub expires_at: u64,
    pub status: InvitationStatus,
}

impl Invitation {
    /// An exact copy of this invitation.
    pub fn snapshot(&self) -> (r: Invitation)
        ensures
            r == *self,
    {
        Invitation {
            id: self.id,
            session_id: self.session_id,
            inviter: self.inviter.clone(),
            invitee: self.invitee.clone(),
            created_at: self.created_at,
            expires_at: self.expires_at,
            status: self.status,
        }
    }
}

/// The invitation `v` with its status replaced.
pub open spec fn with_status(v: Invitation, st: InvitationStatus) -> Invitation {
    Invitation { status: st, ..v }
}

/// The read-triggered expiry rule: a pending invitation whose
/// expiration lies strictly before `now` flips to `Expired`; any other
/// invitation is untouched.
pub open spec fn lazy_expire(v: Invitation, now: u64) -> Invitation {
    if v.status is Pending && now > v.expires_at {
        with_status(v, InvitationStatus::Expired)
    } else {
        v
    }
}

/// Every invitation after the expiry rule was applied at `now`.
pub open spec fn expire_all(s: Seq<Invitation>, now: u64) -> Seq<Invitation> {
    s.map_values(|v: Invitation| lazy_expire(v, now))
}

/// The invitations of `s` that are pending and addressed to `invitee`,
/// in order.
pub open spec fn pending_for_spec(s: Seq<Invitation>, invitee: Seq<char>) -> Seq<Invitation> {
    s.filter(|v: Invitation| v.status is Pending && v.invitee@ == invitee)
}

/// Position `i` holds the invitation with identifier `id`.
pub open spec fn invitation_at(s: Seq<Invitation>, id: u64, i: int) -> bool {
    0 <= i < s.len() && s[i].id == id
}

/// Some invitation has identifier `id`.
pub open spec fn has_invitation(s: Seq<Invitation>, id: u64) -> bool {
    exists|i: int| invitation_at(s, id, i)
}

/// The tracked invitations, the identifier counter, and the default
/// time-to-live applied when a creation names none.
#[derive(Debug)]
pub struct InvitationManager {
    pub invitations: Vec<Invitation>,
    pub next_id: u64,
    pub default_ttl: u64,
}

/// The manager invariant: identifiers unique and below the counter.
pub open spec fn manager_wf(m: InvitationManager) -> bool {
    &&& forall|i: int| 0 <= i < m.invitations@.len() ==> (#[trigger] m.invitations@[i].id)
        < m.next_id
    &&& forall|i: int, j: int| 0 <= i < j < m.invitations@.len() ==> m.invitations@[i].id
        != m.invitations@[j].id
}

/// The time-to-live a creation call asks for: the named one, or the
/// manager's default.
pub open spec fn effective_ttl(ttl: Option<u64>, default_ttl: u64) -> int {
    match ttl {
        Some(t) => t as int,
        None => default_ttl as int,
    }
}

/// What resolving (accepting or declining) an invitation does: on a
/// missing identifier, fail `InvitationNotFound`; on one that is not
/// pending once the expiry rule ran at `now`, fail
/// `InvitationNotPending`, persisting only the expiry flip; otherwise
/// move it to `to` — the one terminal transition the invitation will
/// ever take — and return the result.
pub open spec fn resolve_post(
    m0: InvitationManager,
    m1: InvitationManager,
    id: u64,
    now: u64,
    to: InvitationStatus,
    r: Result<Invitation, GameError>,
) -> bool {
    if !has_invitation(m0.invitations@, id) {
        &&& r is Err
        &&& r->Err_0 == GameError::InvitationNotFound
        &&& m1 == m0
    } else {
        forall|i: int| invitation_at(m0.invitations@, id, i) ==> {
            let v = lazy_expire(m0.invitations@[i], now);
            &&& m1.next_id == m0.next_id
            &&& m1.default_ttl == m0.default_ttl
            &&& if v.status is Pending {
                &&& r matches Ok(out) && out == with_status(v, to)
                &&& m1.invitations@ == m0.invitations@.update(i, with_status(v, to))
            } else {
                &&& r is Err
                &&& r->Err_0 == GameError::InvitationNotPending
                &&& m1.invitations@ == m0.invitations@.update(i, v)
            }
        }
    }
}

impl InvitationManager {
    /// An empty manager with the given default time-to-live.
    pub fn new(default_ttl: u64) -> (m: InvitationManager)
        ensures
            manager_wf(m),
            m.invitations@.len() == 0,
            m.next_id == 0,
            m.default_ttl == default_ttl,
    {
        InvitationManager { invitations: Vec::new(), next_id: 0, default_ttl }
    }

    /// The position of the invitation with identifier `id`, if any.
    fn invitation_index(&self, id: u64) -> (r: Option<usize>)
        ensures
            match r {
                Some(i) => invitation_at(self.invitations@, id, i as int),
                None => !has_invitation(self.invitations@, id),
            },
    {
        let mut i: usize = 0;
        while i < self.invitations.len()
            invariant
                i <= self.invitations@.len(),
                forall|j: int| 0 <= j < i ==> (#[trigger] self.invitations@[j].id) != id,
            decreases self.invitations@.len() - i,
        {
            if self.invitations[i].id == id {
                return Some(i);
            }
            i = i + 1;
        }
        None
    }

    /// Issues a new pending invitation from `inviter` to `invitee` for
    /// session `session_id`, expiring `ttl` seconds from `now` (the
    /// manager's default when `ttl` names none), and returns its fresh
    /// identifier.
    pub fn create(
        &mut self,
        session_id: u64,
        inviter: String,
        invitee: String,
        ttl: Option<u64>,
        now: u64,
    ) -> (r: u64)
        requires
            manager_wf(*old(self)),
            old(self).next_id < u64::MAX,
            now + effective_ttl(ttl, old(self).default_ttl) <= u64::MAX,
        ensures
            manager_wf(*final(self)),
            r == old(self).next_id,
            final(self).next_id == old(self).next_id + 1,
            final(self).default_ttl == old(self).default_ttl,
            final(self).invitations@.len() == old(self).invitations@.len() + 1,
            forall|j: int| 0 <= j < old(self).invitations@.len() ==> final(self).invitations@[j]
                == old(self).invitations@[j],
            ({
                let v = final(self).invitations@.last();
                &&& v.id == old(self).next_id
                &&& v.session_id == session_id
                &&& v.inviter == inviter
                &&& v.invitee == invitee
                &&& v.created_at == now
                &&& v.expires_at == now + effective_ttl(ttl, old(self).default_ttl)
                &&& v.status is Pending
            }),
    {
        let id = self.next_id;
        let t = match ttl {
            Some(t) => t,
            None => self.default_ttl,
        };
        let v = Invitation {
            id,
            session_id,
            inviter,
            invitee,
            created_at: now,
            expires_at: now + t,
            status: InvitationStatus::Pending,
        };
        let ghost s0 = self.invitations@;
        self.invitations.push(v);
        self.next_id = id + 1;
        proof {
            let s1 = self.invitations@;
            assert forall|a: int, b: int| 0 <= a < b < s1.len() implies s1[a].id != s1[b].id by {
                assert(s1[a] == s0[a]);
                if b < s0.len() {
                    assert(s1[b] == s0[b]);
                }
            }
        }
        id
    }

    /// Reads the invitation with identifier `id`, applying the expiry
    /// rule at `now` first and persisting its effect; fails
    /// `InvitationNotFound` when absent.
    pub fn get_invitation(&mut self, id: u64, now: u64) -> (r: Result<Invitation, GameError>)
        requires
            manager_wf(*old(self)),
        ensures
            manager_wf(*final(self)),
            !has_invitation(old(self).invitations@, id) ==> r is Err && r->Err_0
                == GameError::InvitationNotFound && *final(self) == *old(self),
            forall|i: int| invitation_at(old(self).invitations@, id, i) ==> {
                let v = lazy_expire(old(self).invitations@[i], now);
                &&& final(self).invitations@ == old(self).invitations@.update(i, v)
                &&& final(self).next_id == old(self).next_id
                &&& final(self).default_ttl == old(self).default_ttl
                &&& r matches Ok(out) && out == v
            },
    {
        let i = match self.invitation_index(id) {
            None => {
                return Err(GameError::InvitationNotFound);
            },
            Some(i) => i,
        };
        let ghost s0 = self.invitations@;
        let out = {
            let v = vstd::std_specs::vec::vec_index_mut(&mut self.invitations, i);
            if matches!(v.status, InvitationStatus::Pending) && now > v.expires_at {
                v.status = InvitationStatus::Expired;
            }
            v.snapshot()
        };
        proof {
            lemma_ids_kept_by_update(s0, self.invitations@, i as int, self.next_id);
        }
        Ok(out)
    }

    /// Accepts the invitation with identifier `id` at time `now`: the
    /// at-most-one terminal transition to `Accepted`. Fails
    /// `InvitationNotFound` when absent and `InvitationNotPending` when
    /// the invitation is not pending once the expiry rule ran — in
    /// particular when it already expired, was declined, or a racing
    /// resolution already won.
    pub fn accept(&mut self, id: u64, now: u64) -> (r: Result<Invitation, GameError>)
        requires
            manager_wf(*old(self)),
        ensures
            manager_wf(*final(self)),
            resolve_post(*old(self), *final(self), id, now, InvitationStatus::Accepted, r),
    {
        self.resolve(id, now, true)
    }

    /// Declines the invitation with identifier `id` at time `now`,
    /// symmetric to `accept`.
    pub fn decline(&mut self, id: u64, now: u64) -> (r: Result<Invitation, GameError>)
        requires
            manager_wf(*old(self)),
        ensures
            manager_wf(*final(self)),
            resolve_post(*old(self), *final(self), id, now, InvitationStatus::Declined, r),
    {
        self.resolve(id, now, false)
    }

    /// The shared terminal transition of `accept` and `decline`.
    fn resolve(&mut self, id: u64, now: u64, accepting: bool) -> (r: Result<Invitation, GameError>)
        requires
            manager_wf(*old(self)),
        ensures
            manager_wf(*final(self)),
            resolve_post(
                *old(self),
                *final(self),
                id,
                now,
                if accepting {
                    InvitationStatus::Accepted
                } else {
                    InvitationStatus::Declined
                },
                r,
            ),
    {
        let i = match self.invitation_index(id) {
            None => {
                return Err(GameError::InvitationNotFound);
            },
            Some(i) => i,
        };
        let ghost s0 = self.invitations@;
        let out = {
            let v = vstd::std_specs::vec::vec_index_mut(&mut self.invitations, i);
            if matches!(v.status, InvitationStatus::Pending) && now > v.expires_at {
                v.status = InvitationStatus::Expired;
            }
            if !matches!(v.status, InvitationStatus::Pending) {
                None
            } else {
                v.status = if accepting {
                    InvitationStatus::Accepted
                } else {
                    InvitationStatus::Declined
                };
                Some(v.snapshot())
            }
        };
        proof {
            lemma_ids_kept_by_update(s0, self.invitations@, i as int, self.next_id);
        }
        match out {
            None => Err(GameError::InvitationNotPending),
            Some(v) => Ok(v),
        }
    }

    /// Every invitation currently pending at `now` and addressed to
    /// `invitee`, in creation order; the expiry rule is applied to the
    /// whole collection first and its effect persisted.
    pub fn pending_for(&mut self, invitee: &String, now: u64) -> (r: Vec<Invitation>)
        requires
            manager_wf(*old(self)),
        ensures
            manager_wf(*final(self)),
            final(self).invitations@ == expire_all(old(self).invitations@, now),
            final(self).next_id == old(self).next_id,
            final(self).default_ttl == old(self).default_ttl,
            r@ == pending_for_spec(expire_all(old(self).invitations@, now), invitee@),
    {
        let ghost s0 = self.invitations@;
        let n = self.invitations.len();
        let mut i: usize = 0;
        while i < n
            invariant
                n == self.invitations@.len(),
                n == s0.len(),
                i <= n,
                self.next_id == old(self).next_id,
                self.default_ttl == old(self).default_ttl,
                forall|j: int| 0 <= j < i ==> self.invitations@[j] == expire_all(s0, now)[j],
                forall|j: int| i <= j < n ==> self.invitations@[j] == s0[j],
            decreases n - i,
        {
            let v = vstd::std_specs::vec::vec_index_mut(&mut self.invitations, i);
            if matches!(v.status, InvitationStatus::Pending) && now > v.expires_at {
                v.status = InvitationStatus::Expired;
            }
            i = i + 1;
        }
        proof {
            assert(self.invitations@ =~= expire_all(s0, now));
            lemma_expire_all_keeps_ids(s0, self.invitations@, now, self.next_id);
        }
        let ghost es = self.invitations@;
        proof {
            reveal(Seq::<_>::filter);
            assert(es.take(0).len() == 0);
            assert(pending_for_spec(es.take(0), invitee@) =~= Seq::<Invitation>::empty());
        }
        let mut out: Vec<Invitation> = Vec::new();
        let mut k: usize = 0;
        while k < n
            invariant
                n == self.invitations@.len(),
                self.invitations@ == es,
                es == expire_all(s0, now),
                k <= n,
                self.next_id == old(self).next_id,
                self.default_ttl == old(self).default_ttl,
                out@ == pending_for_spec(es.take(k as int), invitee@),
            decreases n - k,
        {
            let v = &self.invitations[k];
            proof {
                assert(es.take(k + 1).drop_last() =~= es.take(k as int));
                assert(es.take(k + 1).last() == es[k as int]);
            }
            if matches!(v.status, InvitationStatus::Pending) && v.invitee == *invitee {
                out.push(v.snapshot());
            }
            proof {
                reveal(Seq::<_>::filter);
                assert(out@ =~= pending_for_spec(es.take(k + 1), invitee@));
            }
            k = k + 1;
        }
        proof {
            assert(es.take(n as int) =~= es);
        }
        out
    }
}

/// Updating one invitation in place keeps every identifier's bound and
/// uniqueness, provided the updated one keeps its identifier.
proof fn lemma_ids_kept_by_update(
    s0: Seq<Invitation>,
    s1: Seq<Invitation>,
    i: int,
    next_id: u64,
)
    requires
        0 <= i < s0.len(),
        s1.len() == s0.len(),
        s1[i].id == s0[i].id,
        forall|j: int| 0 <= j < s0.len() && j != i ==> s1[j] == s0[j],
        forall|j: int| 0 <= j < s0.len() ==> (#[trigger] s0[j].id) < next_id,
        forall|a: int, b: int| 0 <= a < b < s0.len() ==> s0[a].id != s0[b].id,
    ensures
        forall|j: int| 0 <= j < s1.len() ==> (#[trigger] s1[j].id) < next_id,
        forall|a: int, b: int| 0 <= a < b < s1.len() ==> s1[a].id != s1[b].id,
{
    assert forall|j: int| 0 <= j < s1.len() implies (#[trigger] s1[j].id) < next_id by {
        assert(s1[j].id == s0[j].id);
    }
    assert forall|a: int, b: int| 0 <= a < b < s1.len() implies s1[a].id != s1[b].id by {
        assert(s1[a].id == s0[a].id);
        assert(s1[b].id == s0[b].id);
    }
}

/// Applying the expiry rule everywhere keeps every identifier.
proof fn lemma_expire_all_keeps_ids(
    s0: Seq<Invitation>,
    s1: Seq<Invitation>,
    now: u64,
    next_id: u64,
)
    requires
        s1 == expire_all(s0, now),
        forall|j: int| 0 <= j < s0.len() ==> (#[trigger] s0[j].id) < next_id,
        forall|a: int, b: int| 0 <= a < b < s0.len() ==> s0[a].id != s0[b].id,
    ensures
        forall|j: int| 0 <= j < s1.len() ==> (#[trigger] s1[j].id) < next_id,
        forall|a: int, b: int| 0 <= a < b < s1.len() ==> s1[a].id != s1[b].id,
{
    assert forall|j: int| 0 <= j < s1.len() implies (#[trigger] s1[j].id) < next_id by {
        assert(s1[j] == lazy_expire(s0[j], now));
    }
    assert forall|a: int, b: int| 0 <= a < b < s1.len() implies s1[a].id != s1[b].id by {
        assert(s1[a] == lazy_expire(s0[a], now));
        assert(s1[b] == lazy_expire(s0[b], now));
    }
}

} // verus!
