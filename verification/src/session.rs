//! The session state machine: one in-progress or finished instance of a
//! multi-party card game.
//!
//! A session owns a deck and one `PlayerState` per participant, in turn
//! order. All mutation goes through the operations here, each of which
//! preserves the session invariant: the deck length plus the length of
//! every hand is always 52, and while the session is active the
//! current-turn index refers to a participant who is neither standing
//! nor busted.

use vstd::prelude::*;
use crate::cards::{new_shuffled_deck, pairs_of, standard_pairs, Card, Rank};
use crate::errors::GameError;
use crate::hand::{hand_busted, hand_score, score, with_ace_choice};

verus! {

/// One participant's state inside a session: identity, append-only hand
/// history, the derived score and bust flag, and the standing flag.
#[derive(Debug)]
pub struct PlayerState {
    pub identity: String,
    pub hand: Vec<Card>,
    pub score: u32,
    pub busted: bool,
    pub standing: bool,
}

/// A player is terminal when standing or busted: no further draws.
pub open spec fn terminal(p: PlayerState) -> bool {
    p.standing || p.busted
}

/// A player's derived fields agree with their hand.
pub open spec fn player_wf(p: PlayerState) -> bool {
    &&& p.score == hand_score(p.hand@)
    &&& p.busted == hand_busted(p.hand@)
}

/// The number of cards held across all hands.
pub open spec fn hands_total(ps: Seq<PlayerState>) -> int
    decreases ps.len(),
{
    if ps.len() == 0 {
        0
    } else {
        hands_total(ps.drop_last()) + ps.last().hand@.len()
    }
}

/// No two participants share an identity.
pub open spec fn distinct_identities(ps: Seq<PlayerState>) -> bool {
    forall|i: int, j: int|
        0 <= i < j < ps.len() ==> ps[i].identity@ != ps[j].identity@
}

/// Position `i` holds the participant with identity `actor`.
pub open spec fn player_has_id(ps: Seq<PlayerState>, actor: Seq<char>, i: int) -> bool {
    0 <= i < ps.len() && ps[i].identity@ == actor
}

/// Some participant has identity `actor`.
pub open spec fn has_player(ps: Seq<PlayerState>, actor: Seq<char>) -> bool {
    exists|i: int| player_has_id(ps, actor, i)
}

/// The first position at or after `from` holding a non-terminal
/// participant, or `ps.len()` when every remaining one is terminal.
pub open spec fn next_nonterminal(ps: Seq<PlayerState>, from: int) -> int
    decreases ps.len() - from
        when 0 <= from <= ps.len()
{
    if from >= ps.len() {
        ps.len() as int
    } else if !terminal(ps[from]) {
        from
    } else {
        next_nonterminal(ps, from + 1)
    }
}

/// One in-progress or finished game session.
#[derive(Debug)]
pub struct Session {
    pub id: u64,
    pub creator: String,
    pub players: Vec<PlayerState>,
    pub deck: Vec<Card>,
    pub current_turn: usize,
    pub finished: bool,
    pub created_at: u64,
}

/// The session invariant. The card-count clause is the conservation law:
/// after every operation the deck length plus the sum of all hand
/// lengths is exactly 52.
pub open spec fn session_wf(s: Session) -> bool {
    &&& s.players@.len() >= 1
    &&& distinct_identities(s.players@)
    &&& forall|i: int| 0 <= i < s.players@.len() ==> player_wf(#[trigger] s.players@[i])
    &&& s.deck@.len() + hands_total(s.players@) == 52
    &&& !s.finished ==> s.current_turn < s.players@.len() && !terminal(
        s.players@[s.current_turn as int],
    )
}

/// The identifying fields a game operation never changes.
pub open spec fn same_meta(a: Session, b: Session) -> bool {
    &&& a.id == b.id
    &&& a.creator == b.creator
    &&& a.created_at == b.created_at
}

/// The turn has moved to the next non-terminal participant at or after
/// `from`; the session is finished exactly when none remains.
pub open spec fn advanced(s0: Session, s1: Session, from: int) -> bool {
    let k = next_nonterminal(s1.players@, from);
    &&& s1.current_turn == k
    &&& s1.finished == (k == s1.players@.len())
}

/// The hand total is never negative.
pub proof fn lemma_hands_total_nonneg(ps: Seq<PlayerState>)
    ensures
        hands_total(ps) >= 0,
    decreases ps.len(),
{
    if ps.len() > 0 {
        lemma_hands_total_nonneg(ps.drop_last());
    }
}

/// Replacing one participant changes the hand total by the difference
/// of the two hand lengths.
pub proof fn lemma_hands_total_update(ps: Seq<PlayerState>, i: int, p: PlayerState)
    requires
        0 <= i < ps.len(),
    ensures
        hands_total(ps.update(i, p)) == hands_total(ps) - ps[i].hand@.len() + p.hand@.len(),
    decreases ps.len(),
{
    if i == ps.len() - 1 {
        assert(ps.update(i, p).drop_last() =~= ps.drop_last());
        assert(ps.update(i, p).last() == p);
    } else {
        assert(ps.update(i, p).drop_last() =~= ps.drop_last().update(i, p));
        assert(ps.update(i, p).last() == ps.last());
        lemma_hands_total_update(ps.drop_last(), i, p);
    }
}

/// Appending a participant adds exactly their hand length.
pub proof fn lemma_hands_total_push(ps: Seq<PlayerState>, p: PlayerState)
    ensures
        hands_total(ps.push(p)) == hands_total(ps) + p.hand@.len(),
{
    assert(ps.push(p).drop_last() =~= ps);
}

/// No single hand exceeds the total over all hands.
pub proof fn lemma_player_hand_le_total(ps: Seq<PlayerState>, i: int)
    requires
        0 <= i < ps.len(),
    ensures
        ps[i].hand@.len() <= hands_total(ps),
    decreases ps.len(),
{
    if i == ps.len() - 1 {
        lemma_hands_total_nonneg(ps.drop_last());
    } else {
        lemma_player_hand_le_total(ps.drop_last(), i);
        assert(ps.drop_last()[i] == ps[i]);
    }
}

/// The position `next_nonterminal` returns lies between `from` and the
/// participant count, and when in range holds a non-terminal player.
pub proof fn lemma_next_nonterminal(ps: Seq<PlayerState>, from: int)
    requires
        0 <= from <= ps.len(),
    ensures
        from <= next_nonterminal(ps, from) <= ps.len(),
        next_nonterminal(ps, from) < ps.len() ==> !terminal(
            ps[next_nonterminal(ps, from)],
        ),
    decreases ps.len() - from,
{
    if from < ps.len() && terminal(ps[from]) {
        lemma_next_nonterminal(ps, from + 1);
    }
}

/// Whether a participant is terminal: standing or busted.
pub fn is_terminal(p: &PlayerState) -> (r: bool)
    ensures
        r == terminal(*p),
{
    p.standing || p.busted
}

impl Session {
    /// The position of the participant with identity `actor`, if any.
    pub fn find_player(&self, actor: &String) -> (r: Option<usize>)
        ensures
            match r {
                Some(i) => player_has_id(self.players@, actor@, i as int),
                None => !has_player(self.players@, actor@),
            },
    {
        let mut i: usize = 0;
        while i < self.players.len()
            invariant
                i <= self.players@.len(),
                forall|j: int| 0 <= j < i ==> self.players@[j].identity@ != actor@,
            decreases self.players@.len() - i,
        {
            if self.players[i].identity == *actor {
                return Some(i);
            }
            i = i + 1;
        }
        None
    }

    /// Moves the current turn to the next non-terminal participant at or
    /// after `from`, finishing the session when none remains. Only the
    /// turn index and the finished flag change.
    fn advance_turn_from(&mut self, from: usize)
        requires
            from <= old(self).players@.len(),
        ensures
            final(self).players == old(self).players,
            final(self).deck == old(self).deck,
            same_meta(*old(self), *final(self)),
            advanced(*old(self), *final(self), from as int),
    {
        let ghost ps = self.players@;
        let mut k: usize = from;
        while k < self.players.len() && is_terminal(&self.players[k])
            invariant
                from <= k <= ps.len(),
                self.players@ == ps,
                next_nonterminal(ps, from as int) == next_nonterminal(ps, k as int),
                self == old(self),
            decreases ps.len() - k,
        {
            proof {
                assert(next_nonterminal(ps, k as int) == next_nonterminal(ps, k + 1));
            }
            k = k + 1;
        }
        proof {
            assert(next_nonterminal(ps, k as int) == k as int);
        }
        self.current_turn = k;
        if k == self.players.len() {
            self.finished = true;
        } else {
            self.finished = false;
        }
    }
}

/// Builds a fresh session: a newly shuffled 52-card deck, one empty
/// hand per participant, the given turn order, and the turn at the
/// first participant.
///
/// Fails with `InvalidParticipantCount` unless the participant count
/// lies within `min ..= max`, and with `DuplicateParticipant` when an
/// identity repeats. The deck's rank/suit pairs are exactly the
/// standard deck's, for every seed.
pub fn new_session(
    id: u64,
    creator: String,
    participants: &Vec<String>,
    seed: u64,
    now: u64,
    min: usize,
    max: usize,
) -> (r: Result<Session, GameError>)
    requires
        min >= 1,
    ensures
        participants@.len() < min || participants@.len() > max ==> r is Err && r->Err_0
            == GameError::InvalidParticipantCount,
        min <= participants@.len() <= max && (exists|i: int, j: int|
            0 <= i < j < participants@.len() && participants@[i]@ == participants@[j]@) ==> r is Err
            && r->Err_0 == GameError::DuplicateParticipant,
        min <= participants@.len() <= max && (forall|i: int, j: int|
            0 <= i < j < participants@.len() ==> participants@[i]@ != participants@[j]@) ==> r is Ok
            && new_session_ok(r->Ok_0, id, creator@, participants@, now),
{
    let n = participants.len();
    if n < min || n > max {
        return Err(GameError::InvalidParticipantCount);
    }
    let mut i: usize = 0;
    while i < n
        invariant
            n == participants@.len(),
            min <= n <= max,
            i <= n,
            forall|a: int, b: int| 0 <= a < b < n && a < i ==> participants@[a]@
                != participants@[b]@,
        decreases n - i,
    {
        let mut j: usize = i + 1;
        while j < n
            invariant
                n == participants@.len(),
                min <= n <= max,
                i < j <= n,
                forall|b: int| i < b < j ==> participants@[i as int]@ != participants@[b]@,
            decreases n - j,
        {
            if participants[i] == participants[j] {
                return Err(GameError::DuplicateParticipant);
            }
            j = j + 1;
        }
        i = i + 1;
    }
    let mut players: Vec<PlayerState> = Vec::new();
    let mut k: usize = 0;
    while k < n
        invariant
            n == participants@.len(),
            k <= n,
            players@.len() == k,
            hands_total(players@) == 0,
            forall|a: int| 0 <= a < k ==> fresh_player(#[trigger] players@[a], participants@[a]@),
        decreases n - k,
    {
        let p = PlayerState {
            identity: participants[k].clone(),
            hand: Vec::new(),
            score: 0,
            busted: false,
            standing: false,
        };
        proof {
            lemma_hands_total_push(players@, p);
        }
        players.push(p);
        k = k + 1;
    }
    let deck = new_shuffled_deck(seed);
    let s = Session {
        id,
        creator,
        players,
        deck,
        current_turn: 0,
        finished: false,
        created_at: now,
    };
    Ok(s)
}

/// The result of a successful draw: the dealt card, the actor's updated
/// score and bust flag, the count of cards left in the deck, and the
/// actor's full hand history.
#[derive(Debug)]
pub struct DrawOutcome {
    pub card: Card,
    pub current_points: u32,
    pub busted: bool,
    pub cards_remaining: usize,
    pub cards_history: Vec<Card>,
}

/// The result of a successful stand: the actor's final score and bust
/// flag, and whether the session just finished.
#[derive(Clone, Copy, Debug, PartialEq, Eq, Structural)]
pub struct StandOutcome {
    pub points: u32,
    pub busted: bool,
    pub finished: bool,
}

/// A participant's recomputed score and bust flag.
#[derive(Clone, Copy, Debug, PartialEq, Eq, Structural)]
pub struct HandStatus {
    pub points: u32,
    pub busted: bool,
}

/// The first position at or after `from` in `h` holding the Ace with
/// identifier `id`, or -1 when no such card exists. A card with that
/// identifier but another rank does not count.
pub open spec fn find_ace_from(h: Seq<Card>, id: u64, from: int) -> int
    decreases h.len() - from
        when 0 <= from <= h.len()
{
    if from >= h.len() {
        -1
    } else if h[from].id == id && h[from].rank is Ace {
        from
    } else {
        find_ace_from(h, id, from + 1)
    }
}

/// The position of the Ace with identifier `id` in `h`, or -1.
pub open spec fn find_ace(h: Seq<Card>, id: u64) -> int {
    find_ace_from(h, id, 0)
}

/// The position `find_ace_from` returns is in range and holds the Ace,
/// or is -1 and no position at or after `from` holds it.
pub proof fn lemma_find_ace_from(h: Seq<Card>, id: u64, from: int)
    requires
        0 <= from <= h.len(),
    ensures
        ({
            let k = find_ace_from(h, id, from);
            if k >= 0 {
                from <= k < h.len() && h[k].id == id && h[k].rank is Ace
            } else {
                forall|j: int| from <= j < h.len() ==> !(h[j].id == id && h[j].rank is Ace)
            }
        }),
    decreases h.len() - from,
{
    if from < h.len() && !(h[from].id == id && h[from].rank is Ace) {
        lemma_find_ace_from(h, id, from + 1);
    }
}

/// What a failed call leaves in place and reports.
pub open spec fn fails_with<T>(s0: Session, s1: Session, r: Result<T, GameError>, e: GameError) -> bool {
    &&& r is Err
    &&& r->Err_0 == e
    &&& s1 == s0
}

/// What a successful draw does: the front card of the deck moves to the
/// current participant's hand with the Ace choice defaulted to eleven,
/// their score and bust flag are recomputed, and the turn advances only
/// when the draw busted them.
pub open spec fn draw_ok_post(s0: Session, s1: Session, o: DrawOutcome) -> bool {
    let i = s0.current_turn as int;
    let c = Card { as_eleven: true, ..s0.deck@[0] };
    let p0 = s0.players@[i];
    let nh = p0.hand@.push(c);
    let pts = hand_score(nh);
    let b = hand_busted(nh);
    &&& s1.deck@ == s0.deck@.drop_first()
    &&& s1.players@.len() == s0.players@.len()
    &&& forall|j: int| 0 <= j < s0.players@.len() && j != i ==> s1.players@[j] == s0.players@[j]
    &&& s1.players@[i].identity == p0.identity
    &&& s1.players@[i].standing == p0.standing
    &&& s1.players@[i].hand@ == nh
    &&& s1.players@[i].score == pts
    &&& s1.players@[i].busted == b
    &&& same_meta(s0, s1)
    &&& if b {
        advanced(s0, s1, i + 1)
    } else {
        s1.current_turn == s0.current_turn && !s1.finished
    }
    &&& o.card == c
    &&& o.current_points == pts
    &&& o.busted == b
    &&& o.cards_remaining == s1.deck@.len()
    &&& o.cards_history@ == nh
}

/// The full contract of `draw`: which failure each state produces, and
/// the one success shape.
pub open spec fn draw_post(
    s0: Session,
    s1: Session,
    actor: Seq<char>,
    r: Result<DrawOutcome, GameError>,
) -> bool {
    if s0.finished {
        fails_with(s0, s1, r, GameError::SessionFinished)
    } else if !has_player(s0.players@, actor) {
        fails_with(s0, s1, r, GameError::PlayerNotInSession)
    } else if !player_has_id(s0.players@, actor, s0.current_turn as int) {
        fails_with(s0, s1, r, GameError::NotYourTurn)
    } else if s0.deck@.len() == 0 {
        // the one failure that mutates: an exhausted deck force-finishes
        // the session
        &&& r is Err
        &&& r->Err_0 == GameError::EmptyDeck
        &&& s1.finished
        &&& s1.players == s0.players
        &&& s1.deck == s0.deck
        &&& s1.current_turn == s0.current_turn
        &&& same_meta(s0, s1)
    } else {
        r is Ok && draw_ok_post(s0, s1, r->Ok_0)
    }
}

/// What a successful stand does: the current participant stands and the
/// turn advances past every terminal participant.
pub open spec fn stand_ok_post(s0: Session, s1: Session, o: StandOutcome) -> bool {
    let i = s0.current_turn as int;
    let p0 = s0.players@[i];
    &&& s1.deck == s0.deck
    &&& s1.players@.len() == s0.players@.len()
    &&& forall|j: int| 0 <= j < s0.players@.len() && j != i ==> s1.players@[j] == s0.players@[j]
    &&& s1.players@[i].identity == p0.identity
    &&& s1.players@[i].hand == p0.hand
    &&& s1.players@[i].score == p0.score
    &&& s1.players@[i].busted == p0.busted
    &&& s1.players@[i].standing
    &&& same_meta(s0, s1)
    &&& advanced(s0, s1, i + 1)
    &&& o.points == p0.score
    &&& o.busted == p0.busted
    &&& o.finished == s1.finished
}

/// The full contract of `stand`.
pub open spec fn stand_post(
    s0: Session,
    s1: Session,
    actor: Seq<char>,
    r: Result<StandOutcome, GameError>,
) -> bool {
    if s0.finished {
        fails_with(s0, s1, r, GameError::SessionFinished)
    } else if !has_player(s0.players@, actor) {
        fails_with(s0, s1, r, GameError::PlayerNotInSession)
    } else if !player_has_id(s0.players@, actor, s0.current_turn as int) {
        fails_with(s0, s1, r, GameError::NotYourTurn)
    } else {
        r is Ok && stand_ok_post(s0, s1, r->Ok_0)
    }
}

/// What setting an Ace's value does once the actor stands at position
/// `i`: the first matching Ace takes the chosen value, the score and
/// bust flag are recomputed, and the turn advances only when the change
/// busts the participant whose turn it is.
pub open spec fn set_ace_at_post(
    s0: Session,
    s1: Session,
    i: int,
    card_id: u64,
    as_eleven: bool,
    r: Result<HandStatus, GameError>,
) -> bool {
    let p0 = s0.players@[i];
    let k = find_ace(p0.hand@, card_id);
    if k < 0 {
        fails_with(s0, s1, r, GameError::CardNotFound)
    } else {
        let nh = with_ace_choice(p0.hand@, k, as_eleven);
        let pts = hand_score(nh);
        let b = hand_busted(nh);
        &&& s1.deck == s0.deck
        &&& s1.players@.len() == s0.players@.len()
        &&& forall|j: int| 0 <= j < s0.players@.len() && j != i ==> s1.players@[j]
            == s0.players@[j]
        &&& s1.players@[i].identity == p0.identity
        &&& s1.players@[i].standing == p0.standing
        &&& s1.players@[i].hand@ == nh
        &&& s1.players@[i].score == pts
        &&& s1.players@[i].busted == b
        &&& same_meta(s0, s1)
        &&& if i == s0.current_turn as int && b {
            advanced(s0, s1, i + 1)
        } else {
            s1.current_turn == s0.current_turn && s1.finished == s0.finished
        }
        &&& r is Ok
        &&& r->Ok_0.points == pts
        &&& r->Ok_0.busted == b
    }
}

/// The full contract of `set_ace_value`.
pub open spec fn set_ace_post(
    s0: Session,
    s1: Session,
    actor: Seq<char>,
    card_id: u64,
    as_eleven: bool,
    r: Result<HandStatus, GameError>,
) -> bool {
    if s0.finished {
        fails_with(s0, s1, r, GameError::SessionFinished)
    } else if !has_player(s0.players@, actor) {
        fails_with(s0, s1, r, GameError::PlayerNotInSession)
    } else {
        forall|i: int| player_has_id(s0.players@, actor, i) ==> set_ace_at_post(
            s0,
            s1,
            i,
            card_id,
            as_eleven,
            r,
        )
    }
}

impl Session {
    /// Draws one card for `actor`: fails `SessionFinished` on a finished
    /// session, `PlayerNotInSession` for a stranger, `NotYourTurn` out of
    /// turn, and `EmptyDeck` (force-finishing the session) when no card
    /// remains. On success the front card joins the actor's hand, their
    /// score is recomputed, and the turn stays with them unless they bust.
    pub fn draw(&mut self, actor: &String) -> (r: Result<DrawOutcome, GameError>)
        requires
            session_wf(*old(self)),
        ensures
            session_wf(*final(self)),
            draw_post(*old(self), *final(self), actor@, r),
    {
        if self.finished {
            return Err(GameError::SessionFinished);
        }
        let i = match self.find_player(actor) {
            None => {
                return Err(GameError::PlayerNotInSession);
            },
            Some(i) => i,
        };
        if i != self.current_turn {
            return Err(GameError::NotYourTurn);
        }
        if self.deck.len() == 0 {
            self.finished = true;
            return Err(GameError::EmptyDeck);
        }
        // reading the length bounds it by usize::MAX, so `i + 1` fits
        let _n = self.players.len();
        let from: usize = i + 1;
        let ghost s0 = *self;
        let mut c = self.deck.remove(0);
        c.as_eleven = true;
        proof {
            assert(self.deck@ =~= s0.deck@.drop_first());
            lemma_player_hand_le_total(s0.players@, i as int);
            lemma_hands_total_nonneg(s0.players@);
        }
        let card = c;
        let total: u32;
        let busted: bool;
        let history: Vec<Card>;
        {
            let p = &mut self.players[i];
            p.hand.push(c);
            total = score(&p.hand);
            busted = total > 21;
            p.score = total;
            p.busted = busted;
            history = clone_cards(&p.hand);
        }
        proof {
            lemma_hands_total_update(s0.players@, i as int, self.players@[i as int]);
        }
        if busted {
            self.advance_turn_from(from);
            proof {
                lemma_next_nonterminal(self.players@, i + 1);
            }
        }
        let remaining = self.deck.len();
        Ok(
            DrawOutcome {
                card,
                current_points: total,
                busted,
                cards_remaining: remaining,
                cards_history: history,
            },
        )
    }

    /// Marks `actor` standing: fails `SessionFinished`,
    /// `PlayerNotInSession` or `NotYourTurn` as `draw` does. On success
    /// the turn advances to the next non-terminal participant; when none
    /// remains the session finishes.
    pub fn stand(&mut self, actor: &String) -> (r: Result<StandOutcome, GameError>)
        requires
            session_wf(*old(self)),
        ensures
            session_wf(*final(self)),
            stand_post(*old(self), *final(self), actor@, r),
    {
        if self.finished {
            return Err(GameError::SessionFinished);
        }
        let i = match self.find_player(actor) {
            None => {
                return Err(GameError::PlayerNotInSession);
            },
            Some(i) => i,
        };
        if i != self.current_turn {
            return Err(GameError::NotYourTurn);
        }
        // reading the length bounds it by usize::MAX, so `i + 1` fits
        let _n = self.players.len();
        let from: usize = i + 1;
        let ghost s0 = *self;
        let points: u32;
        let busted: bool;
        {
            let p = &mut self.players[i];
            p.standing = true;
            points = p.score;
            busted = p.busted;
        }
        proof {
            lemma_hands_total_update(s0.players@, i as int, self.players@[i as int]);
        }
        self.advance_turn_from(from);
        proof {
            lemma_next_nonterminal(self.players@, i + 1);
        }
        Ok(StandOutcome { points, busted, finished: self.finished })
    }

    /// Sets the chosen value of one of `actor`'s dealt Aces: fails
    /// `SessionFinished` or `PlayerNotInSession` as `draw` does, and
    /// `CardNotFound` when `card_id` names no Ace in the actor's hand.
    /// Permitted regardless of whose turn it is: only the hand's owner
    /// acts, through the `actor` parameter. When the change busts the
    /// participant whose turn it is, the turn advances as a busting draw
    /// would.
    pub fn set_ace_value(&mut self, actor: &String, card_id: u64, as_eleven: bool) -> (r: Result<
        HandStatus,
        GameError,
    >)
        requires
            session_wf(*old(self)),
        ensures
            session_wf(*final(self)),
            set_ace_post(*old(self), *final(self), actor@, card_id, as_eleven, r),
    {
        if self.finished {
            return Err(GameError::SessionFinished);
        }
        let i = match self.find_player(actor) {
            None => {
                return Err(GameError::PlayerNotInSession);
            },
            Some(i) => i,
        };
        // reading the length bounds it by usize::MAX, so `i + 1` fits
        let _n = self.players.len();
        let from: usize = i + 1;
        let ghost s0 = *self;
        let k = match self.find_ace_in_hand(i, card_id) {
            None => {
                return Err(GameError::CardNotFound);
            },
            Some(k) => k,
        };
        proof {
            lemma_find_ace_from(s0.players@[i as int].hand@, card_id, 0);
            lemma_player_hand_le_total(s0.players@, i as int);
            lemma_hands_total_nonneg(s0.players@);
        }
        let total: u32;
        let busted: bool;
        {
            let p = &mut self.players[i];
            let slot = vstd::std_specs::vec::vec_index_mut(&mut p.hand, k);
            slot.as_eleven = as_eleven;
            total = score(&p.hand);
            busted = total > 21;
            p.score = total;
            p.busted = busted;
        }
        proof {
            lemma_hands_total_update(s0.players@, i as int, self.players@[i as int]);
        }
        if i == self.current_turn && busted {
            self.advance_turn_from(from);
            proof {
                lemma_next_nonterminal(self.players@, i + 1);
            }
        }
        Ok(HandStatus { points: total, busted })
    }

    /// The position of the Ace with identifier `card_id` in participant
    /// `i`'s hand, if any.
    fn find_ace_in_hand(&self, i: usize, card_id: u64) -> (r: Option<usize>)
        requires
            i < self.players@.len(),
        ensures
            ({
                let k = find_ace(self.players@[i as int].hand@, card_id);
                match r {
                    Some(j) => k == j as int,
                    None => k == -1,
                }
            }),
    {
        let ghost h = self.players@[i as int].hand@;
        let hand = &self.players[i].hand;
        let mut j: usize = 0;
        while j < hand.len()
            invariant
                j <= h.len(),
                hand@ == h,
                i < self.players@.len(),
                h == self.players@[i as int].hand@,
                find_ace_from(h, card_id, 0) == find_ace_from(h, card_id, j as int),
            decreases h.len() - j,
        {
            if hand[j].id == card_id && matches!(hand[j].rank, Rank::Ace) {
                proof {
                    assert(find_ace_from(h, card_id, j as int) == j as int);
                }
                return Some(j);
            }
            proof {
                assert(find_ace_from(h, card_id, j as int) == find_ace_from(h, card_id, j + 1));
            }
            j = j + 1;
        }
        proof {
            assert(find_ace_from(h, card_id, j as int) == -1);
        }
        None
    }

    /// Finishes the session regardless of turn position; fails
    /// `SessionFinished` when it already is. Participants who never
    /// acted keep their state as it stands (an empty hand scores 0 and
    /// is not busted).
    pub fn finish(&mut self) -> (r: Result<(), GameError>)
        ensures
            old(self).finished ==> r is Err && r->Err_0 == GameError::SessionFinished
                && *final(self) == *old(self),
            !old(self).finished ==> r is Ok && final(self).finished && final(self).players
                == old(self).players && final(self).deck == old(self).deck
                && final(self).current_turn == old(self).current_turn && same_meta(
                *old(self),
                *final(self),
            ),
            session_wf(*old(self)) ==> session_wf(*final(self)),
    {
        if self.finished {
            return Err(GameError::SessionFinished);
        }
        self.finished = true;
        Ok(())
    }
}

/// One line of a game's result report: a participant's final score,
/// card count and bust flag.
#[derive(Debug)]
pub struct PlayerSummary {
    pub identity: String,
    pub points: u32,
    pub cards_count: usize,
    pub busted: bool,
}

/// The outcome of a finished game: the single winner if one exists, the
/// identities tied at the highest score otherwise, the highest
/// non-busted score, and a summary per participant.
#[derive(Debug)]
pub struct GameResult {
    pub winner: Option<String>,
    pub tied_players: Vec<String>,
    pub highest_score: u32,
    pub all_players: Vec<PlayerSummary>,
}

/// The maximum score over the non-busted participants, or -1 when every
/// participant is busted.
pub open spec fn max_nonbusted(ps: Seq<PlayerState>) -> int
    decreases ps.len(),
{
    if ps.len() == 0 {
        -1
    } else {
        let rest = max_nonbusted(ps.drop_last());
        if !ps.last().busted && ps.last().score > rest {
            ps.last().score as int
        } else {
            rest
        }
    }
}

/// The identities of the non-busted participants whose score is `m`, in
/// turn order.
pub open spec fn winner_ids(ps: Seq<PlayerState>, m: int) -> Seq<Seq<char>>
    decreases ps.len(),
{
    if ps.len() == 0 {
        Seq::empty()
    } else {
        let rest = winner_ids(ps.drop_last(), m);
        if !ps.last().busted && ps.last().score == m {
            rest.push(ps.last().identity@)
        } else {
            rest
        }
    }
}

/// A summary line reports exactly one participant's state.
pub open spec fn summary_matches(p: PlayerState, s: PlayerSummary) -> bool {
    &&& s.identity@ == p.identity@
    &&& s.points == p.score
    &&& s.cards_count == p.hand@.len()
    &&& s.busted == p.busted
}

/// What `results` promises of a finished game's report: a busted
/// participant never wins nor ties; when exactly one non-busted
/// participant holds the maximum score they are the winner; when
/// several tie, all of them are reported and no winner is named; when
/// every participant is busted there is neither winner nor tie.
pub open spec fn results_ok(ps: Seq<PlayerState>, g: GameResult) -> bool {
    let m = max_nonbusted(ps);
    let w = winner_ids(ps, m);
    &&& g.all_players@.len() == ps.len()
    &&& forall|i: int| 0 <= i < ps.len() ==> summary_matches(ps[i], #[trigger] g.all_players@[i])
    &&& m < 0 ==> g.winner is None && g.tied_players@.len() == 0 && g.highest_score == 0
    &&& m >= 0 ==> {
        &&& g.highest_score == m
        &&& (w.len() == 1 ==> (g.winner matches Some(x) && x@ == w[0]) && g.tied_players@.len()
            == 0)
        &&& (w.len() != 1 ==> g.winner is None && g.tied_players@.map_values(|s: String| s@)
            == w)
    }
}

/// A reading of a session's whole visible state: one entry per
/// participant, the cards left in the deck, the finished flag, and the
/// identity whose turn it is while the game is active.
#[derive(Debug)]
pub struct GameStateSnapshot {
    pub players: Vec<PlayerSnapshot>,
    pub cards_in_deck: usize,
    pub finished: bool,
    pub current_turn_player: Option<String>,
}

/// One participant's entry in a state snapshot.
#[derive(Debug)]
pub struct PlayerSnapshot {
    pub email: String,
    pub points: u32,
    pub cards_history: Vec<Card>,
    pub busted: bool,
    pub standing: bool,
}

/// A snapshot entry reports exactly one participant's state.
pub open spec fn snapshot_matches(p: PlayerState, s: PlayerSnapshot) -> bool {
    &&& s.email@ == p.identity@
    &&& s.points == p.score
    &&& s.cards_history@ == p.hand@
    &&& s.busted == p.busted
    &&& s.standing == p.standing
}

impl Session {
    /// Appends a new participant with a fresh empty hand at the end of
    /// the turn order. Fails `SessionFinished` on a finished session and
    /// `DuplicateParticipant` when the identity is already present. The
    /// current-turn index and the participant it points to are
    /// undisturbed; this is the only post-creation growth of the turn
    /// order.
    pub fn add_participant(&mut self, identity: String) -> (r: Result<(), GameError>)
        requires
            session_wf(*old(self)),
        ensures
            session_wf(*final(self)),
            old(self).finished ==> fails_with(*old(self), *final(self), r, GameError::SessionFinished),
            !old(self).finished && has_player(old(self).players@, identity@) ==> fails_with(
                *old(self),
                *final(self),
                r,
                GameError::DuplicateParticipant,
            ),
            !old(self).finished && !has_player(old(self).players@, identity@) ==> r is Ok
                && final(self).players@.len() == old(self).players@.len() + 1 && (forall|j: int|
                0 <= j < old(self).players@.len() ==> final(self).players@[j]
                    == old(self).players@[j]) && fresh_player(
                final(self).players@[old(self).players@.len() as int],
                identity@,
            ) && final(self).deck == old(self).deck && final(self).current_turn == old(
                self,
            ).current_turn && final(self).finished == old(self).finished && same_meta(
                *old(self),
                *final(self),
            ),
    {
        if self.finished {
            return Err(GameError::SessionFinished);
        }
        if let Some(_) = self.find_player(&identity) {
            return Err(GameError::DuplicateParticipant);
        }
        let p = PlayerState {
            identity,
            hand: Vec::new(),
            score: 0,
            busted: false,
            standing: false,
        };
        let ghost ps0 = self.players@;
        proof {
            lemma_hands_total_push(self.players@, p);
        }
        self.players.push(p);
        proof {
            let ps1 = self.players@;
            assert forall|a: int, b: int| 0 <= a < b < ps1.len() implies ps1[a].identity@
                != ps1[b].identity@ by {
                if b < ps0.len() {
                    assert(ps1[a] == ps0[a]);
                    assert(ps1[b] == ps0[b]);
                } else {
                    assert(ps1[a] == ps0[a]);
                    assert(!player_has_id(ps0, ps1[b].identity@, a));
                }
            }
            assert forall|a: int| 0 <= a < ps1.len() implies player_wf(#[trigger] ps1[a]) by {
                if a < ps0.len() {
                    assert(ps1[a] == ps0[a]);
                }
            }
        }
        Ok(())
    }

    /// Reports the results of a finished game; fails `GameNotFinished`
    /// while the session is active. Over all non-busted participants the
    /// maximum score decides: a single holder is the winner; several
    /// holders are all reported as tied with no winner; when every
    /// participant is busted there is no winner, no tie, and the
    /// reported highest score is 0.
    pub fn results(&self) -> (r: Result<GameResult, GameError>)
        ensures
            !self.finished ==> r is Err && r->Err_0 == GameError::GameNotFinished,
            self.finished ==> r is Ok && results_ok(self.players@, r->Ok_0),
    {
        if !self.finished {
            return Err(GameError::GameNotFinished);
        }
        let ghost ps = self.players@;
        let n = self.players.len();
        let mut found = false;
        let mut best: u32 = 0;
        let mut i: usize = 0;
        while i < n
            invariant
                n == ps.len(),
                self.players@ == ps,
                i <= n,
                !found ==> max_nonbusted(ps.take(i as int)) == -1,
                found ==> max_nonbusted(ps.take(i as int)) == best,
            decreases n - i,
        {
            proof {
                assert(ps.take(i + 1).drop_last() =~= ps.take(i as int));
                assert(ps.take(i + 1).last() == ps[i as int]);
            }
            let p = &self.players[i];
            if !p.busted && (!found || p.score > best) {
                best = p.score;
                found = true;
            }
            i = i + 1;
        }
        proof {
            assert(ps.take(n as int) =~= ps);
        }
        let ghost m = max_nonbusted(ps);
        let mut winners: Vec<String> = Vec::new();
        if found {
            let mut j: usize = 0;
            while j < n
                invariant
                    n == ps.len(),
                    self.players@ == ps,
                    j <= n,
                    found,
                    best == m,
                    winners@.map_values(|s: String| s@) =~= winner_ids(ps.take(j as int), m),
                decreases n - j,
            {
                proof {
                    assert(ps.take(j + 1).drop_last() =~= ps.take(j as int));
                    assert(ps.take(j + 1).last() == ps[j as int]);
                }
                let p = &self.players[j];
                if !p.busted && p.score == best {
                    winners.push(p.identity.clone());
                }
                proof {
                    assert(winners@.map_values(|s: String| s@) =~= winner_ids(
                        ps.take(j + 1),
                        m,
                    ));
                }
                j = j + 1;
            }
            proof {
                assert(ps.take(n as int) =~= ps);
            }
        }
        let mut all_players: Vec<PlayerSummary> = Vec::new();
        let mut k: usize = 0;
        while k < n
            invariant
                n == ps.len(),
                self.players@ == ps,
                k <= n,
                all_players@.len() == k,
                forall|a: int| 0 <= a < k ==> summary_matches(ps[a], #[trigger] all_players@[a]),
            decreases n - k,
        {
            let p = &self.players[k];
            all_players.push(
                PlayerSummary {
                    identity: p.identity.clone(),
                    points: p.score,
                    cards_count: p.hand.len(),
                    busted: p.busted,
                },
            );
            k = k + 1;
        }
        if !found {
            Ok(
                GameResult {
                    winner: None,
                    tied_players: Vec::new(),
                    highest_score: 0,
                    all_players,
                },
            )
        } else if winners.len() == 1 {
            let name = winners[0].clone();
            Ok(
                GameResult {
                    winner: Some(name),
                    tied_players: Vec::new(),
                    highest_score: best,
                    all_players,
                },
            )
        } else {
            Ok(
                GameResult {
                    winner: None,
                    tied_players: winners,
                    highest_score: best,
                    all_players,
                },
            )
        }
    }

    /// Reads the session's whole visible state in one consistent
    /// snapshot.
    pub fn state_snapshot(&self) -> (g: GameStateSnapshot)
        requires
            !self.finished ==> self.current_turn < self.players@.len(),
        ensures
            g.players@.len() == self.players@.len(),
            forall|i: int| 0 <= i < self.players@.len() ==> snapshot_matches(
                self.players@[i],
                #[trigger] g.players@[i],
            ),
            g.cards_in_deck == self.deck@.len(),
            g.finished == self.finished,
            !self.finished ==> (g.current_turn_player matches Some(x) && x@
                == self.players@[self.current_turn as int].identity@),
            self.finished ==> g.current_turn_player is None,
    {
        let n = self.players.len();
        let mut players: Vec<PlayerSnapshot> = Vec::new();
        let mut k: usize = 0;
        while k < n
            invariant
                n == self.players@.len(),
                k <= n,
                players@.len() == k,
                forall|a: int| 0 <= a < k ==> snapshot_matches(
                    self.players@[a],
                    #[trigger] players@[a],
                ),
            decreases n - k,
        {
            let p = &self.players[k];
            players.push(
                PlayerSnapshot {
                    email: p.identity.clone(),
                    points: p.score,
                    cards_history: clone_cards(&p.hand),
                    busted: p.busted,
                    standing: p.standing,
                },
            );
            k = k + 1;
        }
        let current_turn_player = if !self.finished {
            Some(self.players[self.current_turn].identity.clone())
        } else {
            None
        };
        GameStateSnapshot {
            players,
            cards_in_deck: self.deck.len(),
            finished: self.finished,
            current_turn_player,
        }
    }
}

/// Copies a hand, card for card.
fn clone_cards(hand: &Vec<Card>) -> (r: Vec<Card>)
    ensures
        r@ == hand@,
{
    let mut r: Vec<Card> = Vec::new();
    let mut i: usize = 0;
    while i < hand.len()
        invariant
            i <= hand@.len(),
            r@ =~= hand@.take(i as int),
        decreases hand@.len() - i,
    {
        r.push(hand[i]);
        i = i + 1;
    }
    proof {
        assert(r@ =~= hand@);
    }
    r
}

/// A participant who has not acted yet: the given identity, an empty
/// hand, score 0, neither busted nor standing.
pub open spec fn fresh_player(p: PlayerState, identity: Seq<char>) -> bool {
    &&& p.identity@ == identity
    &&& p.hand@.len() == 0
    &&& p.score == 0
    &&& !p.busted
    &&& !p.standing
}

/// What `new_session` promises of the session it builds.
pub open spec fn new_session_ok(
    s: Session,
    id: u64,
    creator: Seq<char>,
    participants: Seq<String>,
    now: u64,
) -> bool {
    &&& s.id == id
    &&& s.creator@ == creator
    &&& s.players@.len() == participants.len()
    &&& forall|i: int| 0 <= i < participants.len() ==> fresh_player(
        #[trigger] s.players@[i],
        participants[i]@,
    )
    &&& s.deck@.len() == 52
    &&& pairs_of(s.deck@).to_multiset() == standard_pairs().to_multiset()
    &&& s.current_turn == 0
    &&& !s.finished
    &&& s.created_at == now
    &&& session_wf(s)
}

} // verus!
