//! The session registry: the owned collection of active game sessions,
//! keyed by session identifier.
//!
//! The registry allocates identifiers from a counter, so every session's
//! identifier is unique. All per-session operations go through it: the
//! registry finds the session and delegates to the session state
//! machine, leaving every other session untouched. Callers that serve
//! concurrent requests wrap one registry in their own mutual-exclusion
//! mechanism; every operation here is a single atomic unit that leaves
//! each session well-formed.

use vstd::prelude::*;
use crate::errors::GameError;
use crate::session::{
    draw_post, has_player, new_session, new_session_ok, results_ok, session_wf, set_ace_post,
    snapshot_matches, stand_post, DrawOutcome, GameResult, GameStateSnapshot, HandStatus, Session,
    StandOutcome, fails_with, fresh_player, same_meta,
};

verus! {

/// The registry's participant-count policy for new sessions.
#[derive(Clone, Copy, Debug, PartialEq, Eq, Structural)]
pub struct RegistryConfig {
    pub min_players: usize,
    pub max_players: usize,
}

impl RegistryConfig {
    /// The default policy: 1 to 10 participants.
    pub fn standard() -> (c: RegistryConfig)
        ensures
            c.min_players == 1,
            c.max_players == 10,
    {
        RegistryConfig { min_players: 1, max_players: 10 }
    }
}

/// The collection of active sessions, the identifier counter, and the
/// participant-count policy.
#[derive(Debug)]
pub struct Registry {
    pub sessions: Vec<Session>,
    pub next_id: u64,
    pub config: RegistryConfig,
}

/// Position `i` holds the session with identifier `id`.
pub open spec fn session_at(ss: Seq<Session>, id: u64, i: int) -> bool {
    0 <= i < ss.len() && ss[i].id == id
}

/// Some session has identifier `id`.
pub open spec fn has_session(ss: Seq<Session>, id: u64) -> bool {
    exists|i: int| session_at(ss, id, i)
}

/// The registry invariant: a sane policy, each session well-formed,
/// identifiers unique and below the counter.
pub open spec fn registry_wf(r: Registry) -> bool {
    &&& 1 <= r.config.min_players <= r.config.max_players
    &&& forall|i: int| 0 <= i < r.sessions@.len() ==> session_wf(#[trigger] r.sessions@[i])
    &&& forall|i: int| 0 <= i < r.sessions@.len() ==> (#[trigger] r.sessions@[i].id)
        < r.next_id
    &&& forall|i: int, j: int| 0 <= i < j < r.sessions@.len() ==> r.sessions@[i].id
        != r.sessions@[j].id
}

/// A mutating operation touched the session at position `i` and nothing
/// else of the registry.
pub open spec fn only_session_changed(r0: Registry, r1: Registry, i: int) -> bool {
    &&& r1.sessions@.len() == r0.sessions@.len()
    &&& forall|j: int| 0 <= j < r0.sessions@.len() && j != i ==> r1.sessions@[j]
        == r0.sessions@[j]
    &&& r1.next_id == r0.next_id
    &&& r1.config == r0.config
}

/// An updated session that keeps its identifier and stays well-formed
/// keeps the whole registry well-formed.
proof fn lemma_registry_update_wf(r0: Registry, r1: Registry, i: int)
    requires
        registry_wf(r0),
        0 <= i < r0.sessions@.len(),
        only_session_changed(r0, r1, i),
        session_wf(r1.sessions@[i]),
        r1.sessions@[i].id == r0.sessions@[i].id,
    ensures
        registry_wf(r1),
{
    assert forall|a: int| 0 <= a < r1.sessions@.len() implies session_wf(
        #[trigger] r1.sessions@[a],
    ) && r1.sessions@[a].id < r1.next_id by {
        if a != i {
            assert(r1.sessions@[a] == r0.sessions@[a]);
        }
    }
    assert forall|a: int, b: int| 0 <= a < b < r1.sessions@.len() implies r1.sessions@[a].id
        != r1.sessions@[b].id by {
        assert(r1.sessions@[a].id == r0.sessions@[a].id);
        assert(r1.sessions@[b].id == r0.sessions@[b].id);
    }
}

/// What creating a session does: reject a participant list outside the
/// policy or with a repeated identity, leaving the registry untouched;
/// otherwise mint the counter's identifier for a fresh well-formed
/// session appended to the collection.
pub open spec fn create_post(
    r0: Registry,
    r1: Registry,
    creator: Seq<char>,
    participants: Seq<String>,
    now: u64,
    res: Result<u64, GameError>,
) -> bool {
    let min = r0.config.min_players;
    let max = r0.config.max_players;
    if participants.len() < min || participants.len() > max {
        &&& res is Err
        &&& res->Err_0 == GameError::InvalidParticipantCount
        &&& r1 == r0
    } else if exists|i: int, j: int|
        0 <= i < j < participants.len() && participants[i]@ == participants[j]@ {
        &&& res is Err
        &&& res->Err_0 == GameError::DuplicateParticipant
        &&& r1 == r0
    } else {
        &&& res is Ok
        &&& res->Ok_0 == r0.next_id
        &&& r1.next_id == r0.next_id + 1
        &&& r1.config == r0.config
        &&& r1.sessions@.len() == r0.sessions@.len() + 1
        &&& forall|j: int| 0 <= j < r0.sessions@.len() ==> r1.sessions@[j] == r0.sessions@[j]
        &&& new_session_ok(
            r1.sessions@[r0.sessions@.len() as int],
            r0.next_id,
            creator,
            participants,
            now,
        )
    }
}

impl Registry {
    /// An empty registry under the given policy.
    pub fn new(config: RegistryConfig) -> (r: Registry)
        requires
            1 <= config.min_players <= config.max_players,
        ensures
            registry_wf(r),
            r.sessions@.len() == 0,
            r.next_id == 0,
            r.config == config,
    {
        Registry { sessions: Vec::new(), next_id: 0, config }
    }

    /// The position of the session with identifier `id`, if any.
    fn session_index(&self, id: u64) -> (r: Option<usize>)
        ensures
            match r {
                Some(i) => session_at(self.sessions@, id, i as int),
                None => !has_session(self.sessions@, id),
            },
    {
        let mut i: usize = 0;
        while i < self.sessions.len()
            invariant
                i <= self.sessions@.len(),
                forall|j: int| 0 <= j < i ==> (#[trigger] self.sessions@[j].id) != id,
            decreases self.sessions@.len() - i,
        {
            if self.sessions[i].id == id {
                return Some(i);
            }
            i = i + 1;
        }
        None
    }

    /// Creates a new session for `creator` with the given participants
    /// in turn order; fails `InvalidParticipantCount` when their number
    /// falls outside the policy and `DuplicateParticipant` when an
    /// identity repeats. The deck is freshly shuffled from `seed` and
    /// holds exactly the standard rank/suit pairs, for every seed.
    pub fn create_session(
        &mut self,
        creator: String,
        participants: &Vec<String>,
        seed: u64,
        now: u64,
    ) -> (res: Result<u64, GameError>)
        requires
            registry_wf(*old(self)),
            old(self).next_id < u64::MAX,
        ensures
            registry_wf(*final(self)),
            create_post(*old(self), *final(self), creator@, participants@, now, res),
    {
        let id = self.next_id;
        let s = match new_session(
            id,
            creator,
            participants,
            seed,
            now,
            self.config.min_players,
            self.config.max_players,
        ) {
            Err(e) => {
                return Err(e);
            },
            Ok(s) => s,
        };
        self.sessions.push(s);
        self.next_id = id + 1;
        proof {
            let r1 = *self;
            let r0 = *old(self);
            assert forall|a: int| 0 <= a < r1.sessions@.len() implies session_wf(
                #[trigger] r1.sessions@[a],
            ) && r1.sessions@[a].id < r1.next_id by {
                if a < r0.sessions@.len() {
                    assert(r1.sessions@[a] == r0.sessions@[a]);
                }
            }
            assert forall|a: int, b: int| 0 <= a < b < r1.sessions@.len() implies r1.sessions@[a].id
                != r1.sessions@[b].id by {
                if b < r0.sessions@.len() {
                    assert(r1.sessions@[a] == r0.sessions@[a]);
                    assert(r1.sessions@[b] == r0.sessions@[b]);
                } else {
                    assert(r1.sessions@[a] == r0.sessions@[a]);
                }
            }
        }
        Ok(id)
    }

    /// Looks the session with identifier `id` up; fails
    /// `SessionNotFound` when absent.
    pub fn get_session(&self, id: u64) -> (r: Result<&Session, GameError>)
        requires
            registry_wf(*self),
        ensures
            !has_session(self.sessions@, id) ==> r is Err && r->Err_0
                == GameError::SessionNotFound,
            forall|i: int| session_at(self.sessions@, id, i) ==> (r matches Ok(s) && *s
                == self.sessions@[i]),
    {
        match self.session_index(id) {
            None => Err(GameError::SessionNotFound),
            Some(i) => Ok(&self.sessions[i]),
        }
    }

    /// Draws a card in session `id` on behalf of `actor`; fails
    /// `SessionNotFound` when no such session exists, else as the
    /// session's own draw does. No other session is touched.
    pub fn draw(&mut self, id: u64, actor: &String) -> (r: Result<DrawOutcome, GameError>)
        requires
            registry_wf(*old(self)),
        ensures
            registry_wf(*final(self)),
            !has_session(old(self).sessions@, id) ==> r is Err && r->Err_0
                == GameError::SessionNotFound && *final(self) == *old(self),
            forall|i: int| session_at(old(self).sessions@, id, i)
                ==> only_session_changed(*old(self), *final(self), i) && draw_post(
                old(self).sessions@[i],
                final(self).sessions@[i],
                actor@,
                r,
            ),
    {
        let i = match self.session_index(id) {
            None => {
                return Err(GameError::SessionNotFound);
            },
            Some(i) => i,
        };
        let ghost r0 = *self;
        let r = {
            let s = vstd::std_specs::vec::vec_index_mut(&mut self.sessions, i);
            s.draw(actor)
        };
        proof {
            lemma_registry_update_wf(r0, *self, i as int);
        }
        r
    }

    /// Stands in session `id` on behalf of `actor`; fails
    /// `SessionNotFound` when no such session exists, else as the
    /// session's own stand does.
    pub fn stand(&mut self, id: u64, actor: &String) -> (r: Result<StandOutcome, GameError>)
        requires
            registry_wf(*old(self)),
        ensures
            registry_wf(*final(self)),
            !has_session(old(self).sessions@, id) ==> r is Err && r->Err_0
                == GameError::SessionNotFound && *final(self) == *old(self),
            forall|i: int| session_at(old(self).sessions@, id, i)
                ==> only_session_changed(*old(self), *final(self), i) && stand_post(
                old(self).sessions@[i],
                final(self).sessions@[i],
                actor@,
                r,
            ),
    {
        let i = match self.session_index(id) {
            None => {
                return Err(GameError::SessionNotFound);
            },
            Some(i) => i,
        };
        let ghost r0 = *self;
        let r = {
            let s = vstd::std_specs::vec::vec_index_mut(&mut self.sessions, i);
            s.stand(actor)
        };
        proof {
            lemma_registry_update_wf(r0, *self, i as int);
        }
        r
    }

    /// Sets an Ace's chosen value in session `id` on behalf of `actor`;
    /// fails `SessionNotFound` when no such session exists, else as the
    /// session's own operation does.
    pub fn set_ace_value(&mut self, id: u64, actor: &String, card_id: u64, as_eleven: bool) -> (r:
        Result<HandStatus, GameError>)
        requires
            registry_wf(*old(self)),
        ensures
            registry_wf(*final(self)),
            !has_session(old(self).sessions@, id) ==> r is Err && r->Err_0
                == GameError::SessionNotFound && *final(self) == *old(self),
            forall|i: int| session_at(old(self).sessions@, id, i)
                ==> only_session_changed(*old(self), *final(self), i) && set_ace_post(
                old(self).sessions@[i],
                final(self).sessions@[i],
                actor@,
                card_id,
                as_eleven,
                r,
            ),
    {
        let i = match self.session_index(id) {
            None => {
                return Err(GameError::SessionNotFound);
            },
            Some(i) => i,
        };
        let ghost r0 = *self;
        let r = {
            let s = vstd::std_specs::vec::vec_index_mut(&mut self.sessions, i);
            s.set_ace_value(actor, card_id, as_eleven)
        };
        proof {
            lemma_registry_update_wf(r0, *self, i as int);
        }
        r
    }

    /// Finishes session `id` regardless of turn position; fails
    /// `SessionNotFound` when no such session exists and
    /// `SessionFinished` when it already finished.
    pub fn finish(&mut self, id: u64) -> (r: Result<(), GameError>)
        requires
            registry_wf(*old(self)),
        ensures
            registry_wf(*final(self)),
            !has_session(old(self).sessions@, id) ==> r is Err && r->Err_0
                == GameError::SessionNotFound && *final(self) == *old(self),
            forall|i: int| session_at(old(self).sessions@, id, i)
                ==> only_session_changed(*old(self), *final(self), i) && ({
                let s0 = old(self).sessions@[i];
                let s1 = final(self).sessions@[i];
                if s0.finished {
                    fails_with(s0, s1, r, GameError::SessionFinished)
                } else {
                    &&& r is Ok
                    &&& s1.finished
                    &&& s1.players == s0.players
                    &&& s1.deck == s0.deck
                    &&& s1.current_turn == s0.current_turn
                    &&& same_meta(s0, s1)
                }
            }),
    {
        let i = match self.session_index(id) {
            None => {
                return Err(GameError::SessionNotFound);
            },
            Some(i) => i,
        };
        let ghost r0 = *self;
        let r = {
            let s = vstd::std_specs::vec::vec_index_mut(&mut self.sessions, i);
            s.finish()
        };
        proof {
            lemma_registry_update_wf(r0, *self, i as int);
        }
        r
    }

    /// Adds `identity` as a new participant at the end of session `id`'s
    /// turn order; fails `SessionNotFound`, `SessionFinished` or
    /// `DuplicateParticipant` as the session's own operation does.
    pub fn add_participant(&mut self, id: u64, identity: String) -> (r: Result<(), GameError>)
        requires
            registry_wf(*old(self)),
        ensures
            registry_wf(*final(self)),
            !has_session(old(self).sessions@, id) ==> r is Err && r->Err_0
                == GameError::SessionNotFound && *final(self) == *old(self),
            forall|i: int| session_at(old(self).sessions@, id, i)
                ==> only_session_changed(*old(self), *final(self), i) && ({
                let s0 = old(self).sessions@[i];
                let s1 = final(self).sessions@[i];
                if s0.finished {
                    fails_with(s0, s1, r, GameError::SessionFinished)
                } else if has_player(s0.players@, identity@) {
                    fails_with(s0, s1, r, GameError::DuplicateParticipant)
                } else {
                    &&& r is Ok
                    &&& s1.players@.len() == s0.players@.len() + 1
                    &&& forall|j: int| 0 <= j < s0.players@.len() ==> s1.players@[j]
                        == s0.players@[j]
                    &&& fresh_player(s1.players@[s0.players@.len() as int], identity@)
                    &&& s1.deck == s0.deck
                    &&& s1.current_turn == s0.current_turn
                    &&& s1.finished == s0.finished
                    &&& same_meta(s0, s1)
                }
            }),
    {
        let i = match self.session_index(id) {
            None => {
                return Err(GameError::SessionNotFound);
            },
            Some(i) => i,
        };
        let ghost r0 = *self;
        let r = {
            let s = vstd::std_specs::vec::vec_index_mut(&mut self.sessions, i);
            s.add_participant(identity)
        };
        proof {
            lemma_registry_update_wf(r0, *self, i as int);
        }
        r
    }

    /// Reports the results of finished session `id`; fails
    /// `SessionNotFound` when no such session exists and
    /// `GameNotFinished` while it is active.
    pub fn results(&self, id: u64) -> (r: Result<GameResult, GameError>)
        requires
            registry_wf(*self),
        ensures
            !has_session(self.sessions@, id) ==> r is Err && r->Err_0
                == GameError::SessionNotFound,
            forall|i: int| session_at(self.sessions@, id, i) ==> ({
                let s = self.sessions@[i];
                &&& !s.finished ==> r is Err && r->Err_0 == GameError::GameNotFinished
                &&& s.finished ==> r is Ok && results_ok(s.players@, r->Ok_0)
            }),
    {
        let i = match self.session_index(id) {
            None => {
                return Err(GameError::SessionNotFound);
            },
            Some(i) => i,
        };
        self.sessions[i].results()
    }

    /// Reads one consistent snapshot of session `id`'s state; fails
    /// `SessionNotFound` when no such session exists.
    pub fn game_state(&self, id: u64) -> (r: Result<GameStateSnapshot, GameError>)
        requires
            registry_wf(*self),
        ensures
            !has_session(self.sessions@, id) ==> r is Err && r->Err_0
                == GameError::SessionNotFound,
            forall|i: int| session_at(self.sessions@, id, i) ==> ({
                let s = self.sessions@[i];
                &&& r matches Ok(g)
                &&& g.players@.len() == s.players@.len()
                &&& forall|a: int| 0 <= a < s.players@.len() ==> snapshot_matches(
                    s.players@[a],
                    #[trigger] g.players@[a],
                )
                &&& g.cards_in_deck == s.deck@.len()
                &&& g.finished == s.finished
                &&& !s.finished ==> (g.current_turn_player matches Some(x) && x@
                    == s.players@[s.current_turn as int].identity@)
                &&& s.finished ==> g.current_turn_player is None
            }),
    {
        let i = match self.session_index(id) {
            None => {
                return Err(GameError::SessionNotFound);
            },
            Some(i) => i,
        };
        Ok(self.sessions[i].state_snapshot())
    }

    /// Whether `user` is the creator of session `id`; fails
    /// `SessionNotFound` when no such session exists.
    pub fn is_creator(&self, id: u64, user: &String) -> (r: Result<bool, GameError>)
        requires
            registry_wf(*self),
        ensures
            !has_session(self.sessions@, id) ==> r is Err && r->Err_0
                == GameError::SessionNotFound,
            forall|i: int| session_at(self.sessions@, id, i) ==> r is Ok && r->Ok_0 == (
            self.sessions@[i].creator@ == user@),
    {
        let i = match self.session_index(id) {
            None => {
                return Err(GameError::SessionNotFound);
            },
            Some(i) => i,
        };
        Ok(self.sessions[i].creator == *user)
    }
}

} // verus!
