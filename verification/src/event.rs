//! The location-scoped event generator.
//!
//! Every confirmed player move updates a per-coordinate visit record; a
//! subsequent query may surface at most one event for that move. Each
//! location yields at most one item event and one enemy event ever; the
//! chance of an event grows with repeat visits until it is certain.

use vstd::prelude::*;
use crate::enemy::Enemy;
use crate::item::Item;
use crate::rng::random_u8;
use crate::vector::Vec2;

verus! {

/// Base admission chance of an event, on a 0-255 scale.
pub const BASE_EVENT_CHANCE: u8 = 20;

/// Threshold of the item-versus-enemy draw: a draw at or below it yields an
/// item, a draw above it an enemy.
pub const ITEM_FIND_CHANCE: u8 = 20;

/// An event surfaced to the caller, with its rolled payload.
#[derive(Debug)]
pub enum EventType {
    Item(Item),
    Enemy(Enemy),
}

/// The kind of event the decision procedure picked, without a payload.
#[derive(Debug, Clone, Copy, PartialEq, Eq, Structural)]
pub enum EventKind {
    Item,
    Enemy,
}

/// Per-location bookkeeping: how often the location was visited and which
/// event kinds have already fired there.
#[derive(Debug, Clone, Copy, PartialEq, Eq, Structural)]
pub struct VistDetails {
    pub count: u8,
    pub item_found: bool,
    pub enemy_meet: bool,
}

impl VistDetails {
    /// A record for a location that was never visited.
    pub fn new() -> (r: Self)
        ensures
            r == (VistDetails { count: 0u8, item_found: false, enemy_meet: false }),
    {
        Self { count: 0, item_found: false, enemy_meet: false }
    }
}

/// The admission threshold for a location visited `count` times:
/// `BASE_EVENT_CHANCE + count`, saturating at 255.
pub open spec fn spec_event_chance(count: u8) -> u8 {
    if 255 - count < BASE_EVENT_CHANCE {
        255u8
    } else {
        (count + BASE_EVENT_CHANCE) as u8
    }
}

/// One step of the event decision procedure, as a mathematical function of
/// the record and the two uniform draws: the updated record and the chosen
/// event kind.
pub open spec fn spec_decide(rec: VistDetails, admit_draw: u8, kind_draw: u8) -> (
    VistDetails,
    Option<EventKind>,
) {
    if rec.item_found && rec.enemy_meet {
        (rec, None)
    } else if admit_draw > spec_event_chance(rec.count) {
        (rec, None)
    } else if !rec.item_found && !rec.enemy_meet {
        if kind_draw > ITEM_FIND_CHANCE {
            (VistDetails { enemy_meet: true, ..rec }, Some(EventKind::Enemy))
        } else {
            (VistDetails { item_found: true, ..rec }, Some(EventKind::Item))
        }
    } else if !rec.enemy_meet {
        (VistDetails { enemy_meet: true, ..rec }, Some(EventKind::Enemy))
    } else {
        (VistDetails { item_found: true, ..rec }, Some(EventKind::Item))
    }
}

/// The admission threshold for a visit count, as executed.
pub fn event_chance(count: u8) -> (r: u8)
    ensures
        r == spec_event_chance(count),
{
    if u8::MAX - count < BASE_EVENT_CHANCE {
        255
    } else {
        count + BASE_EVENT_CHANCE
    }
}

/// The deterministic core of one event query. `admit_draw` is held against
/// the admission threshold; if it admits, `kind_draw` picks between item and
/// enemy unless one kind already fired here, in which case the missing kind
/// is forced. The chosen kind's flag is set in the record.
pub fn decide_event(rec: &mut VistDetails, admit_draw: u8, kind_draw: u8) -> (choice: Option<
    EventKind,
>)
    ensures
        (*final(rec), choice) == spec_decide(*old(rec), admit_draw, kind_draw),
{
    if rec.item_found && rec.enemy_meet {
        // This location provided item and enemy. Nothing to see here.
        return None;
    }

    let chance = event_chance(rec.count);
    if admit_draw > chance {
        return None;
    }

    if !(rec.enemy_meet || rec.item_found) {
        // This location did not provide any kind of event yet.
        if kind_draw > ITEM_FIND_CHANCE {
            rec.enemy_meet = true;
            Some(EventKind::Enemy)
        } else {
            rec.item_found = true;
            Some(EventKind::Item)
        }
    } else if !rec.enemy_meet {
        // This location did not have an enemy meeting event yet.
        rec.enemy_meet = true;
        Some(EventKind::Enemy)
    } else {
        // This location did not have an item found event yet.
        rec.item_found = true;
        Some(EventKind::Item)
    }
}

/// Law: the admission threshold never shrinks as the visit count grows.
pub proof fn lemma_event_chance_monotone(c1: u8, c2: u8)
    requires
        c1 <= c2,
    ensures
        spec_event_chance(c1) <= spec_event_chance(c2),
{
}

/// Law: once `BASE_EVENT_CHANCE + count` reaches 255 the threshold
/// saturates there, so every admission draw admits.
pub proof fn lemma_event_chance_saturates(count: u8)
    requires
        count + BASE_EVENT_CHANCE >= 255,
    ensures
        spec_event_chance(count) == 255,
{
}

/// One queried visit at a location: the record's visit count is set to the
/// count the move left behind, then the decision procedure runs on the two
/// draws of that query.
pub open spec fn spec_step(rec: VistDetails, visit: (u8, u8, u8)) -> (
    VistDetails,
    Option<EventKind>,
) {
    spec_decide(VistDetails { count: visit.0, ..rec }, visit.1, visit.2)
}

/// The record a location's visit record ends in after a whole history of
/// queried visits.
pub open spec fn spec_run(rec: VistDetails, visits: Seq<(u8, u8, u8)>) -> VistDetails
    decreases visits.len(),
{
    if visits.len() == 0 {
        rec
    } else {
        spec_run(spec_step(rec, visits[0]).0, visits.drop_first())
    }
}

/// How many item events a history of queried visits returns.
pub open spec fn spec_items_returned(rec: VistDetails, visits: Seq<(u8, u8, u8)>) -> int
    decreases visits.len(),
{
    if visits.len() == 0 {
        0int
    } else {
        (if spec_step(rec, visits[0]).1 == Some(EventKind::Item) {
            1int
        } else {
            0int
        }) + spec_items_returned(spec_step(rec, visits[0]).0, visits.drop_first())
    }
}

/// How many enemy events a history of queried visits returns.
pub open spec fn spec_enemies_returned(rec: VistDetails, visits: Seq<(u8, u8, u8)>) -> int
    decreases visits.len(),
{
    if visits.len() == 0 {
        0int
    } else {
        (if spec_step(rec, visits[0]).1 == Some(EventKind::Enemy) {
            1int
        } else {
            0int
        }) + spec_enemies_returned(spec_step(rec, visits[0]).0, visits.drop_first())
    }
}

proof fn lemma_no_item_when_found(rec: VistDetails, visits: Seq<(u8, u8, u8)>)
    requires
        rec.item_found,
    ensures
        spec_items_returned(rec, visits) == 0,
    decreases visits.len(),
{
    if visits.len() > 0 {
        lemma_no_item_when_found(spec_step(rec, visits[0]).0, visits.drop_first());
    }
}

proof fn lemma_no_enemy_when_met(rec: VistDetails, visits: Seq<(u8, u8, u8)>)
    requires
        rec.enemy_meet,
    ensures
        spec_enemies_returned(rec, visits) == 0,
    decreases visits.len(),
{
    if visits.len() > 0 {
        lemma_no_enemy_when_met(spec_step(rec, visits[0]).0, visits.drop_first());
    }
}

/// Law: over any history of queried visits at one location, at most one
/// item event and at most one enemy event are ever returned; none at all
/// once the corresponding flag is already set.
pub proof fn lemma_events_at_most_one(rec: VistDetails, visits: Seq<(u8, u8, u8)>)
    ensures
        spec_items_returned(rec, visits) <= if rec.item_found {
            0int
        } else {
            1int
        },
        spec_enemies_returned(rec, visits) <= if rec.enemy_meet {
            0int
        } else {
            1int
        },
    decreases visits.len(),
{
    if rec.item_found {
        lemma_no_item_when_found(rec, visits);
    }
    if rec.enemy_meet {
        lemma_no_enemy_when_met(rec, visits);
    }
    if visits.len() > 0 {
        lemma_events_at_most_one(spec_step(rec, visits[0]).0, visits.drop_first());
        if spec_step(rec, visits[0]).1 == Some(EventKind::Item) {
            lemma_no_item_when_found(spec_step(rec, visits[0]).0, visits.drop_first());
        }
        if spec_step(rec, visits[0]).1 == Some(EventKind::Enemy) {
            lemma_no_enemy_when_met(spec_step(rec, visits[0]).0, visits.drop_first());
        }
    }
}

/// Law: once both event kinds have fired at a location, every further
/// query there returns no event and leaves the flags set.
pub proof fn lemma_exhausted_location_inert(rec: VistDetails, visits: Seq<(u8, u8, u8)>)
    requires
        rec.item_found,
        rec.enemy_meet,
    ensures
        spec_items_returned(rec, visits) == 0,
        spec_enemies_returned(rec, visits) == 0,
        spec_run(rec, visits).item_found,
        spec_run(rec, visits).enemy_meet,
    decreases visits.len(),
{
    lemma_no_item_when_found(rec, visits);
    lemma_no_enemy_when_met(rec, visits);
    if visits.len() > 0 {
        lemma_exhausted_location_inert(spec_step(rec, visits[0]).0, visits.drop_first());
    }
}

/// The ledger a list of entries denotes: later entries win, though the
/// well-formedness invariant keeps keys unique anyway.
pub open spec fn entries_map(s: Seq<(Vec2, VistDetails)>) -> Map<Vec2, VistDetails>
    decreases s.len(),
{
    if s.len() == 0 {
        Map::empty()
    } else {
        entries_map(s.drop_last()).insert(s.last().0, s.last().1)
    }
}

/// No coordinate appears twice in the entry list.
pub open spec fn entries_unique(s: Seq<(Vec2, VistDetails)>) -> bool {
    forall|i: int, j: int| 0 <= i < j < s.len() ==> (#[trigger] s[i]).0 != (#[trigger] s[j]).0
}

proof fn lemma_entries_contains(s: Seq<(Vec2, VistDetails)>, k: Vec2)
    ensures
        entries_map(s).contains_key(k) <==> exists|i: int| 0 <= i < s.len() && (#[trigger] s[i]).0
            == k,
    decreases s.len(),
{
    if s.len() > 0 {
        lemma_entries_contains(s.drop_last(), k);
        if s.last().0 == k {
            assert(s[s.len() - 1].0 == k);
        } else if entries_map(s).contains_key(k) {
            let i = choose|i: int| 0 <= i < s.drop_last().len() && (#[trigger] s.drop_last()[i]).0
                == k;
            assert(s[i].0 == k);
        } else {
            assert forall|i: int| 0 <= i < s.len() implies (#[trigger] s[i]).0 != k by {
                if i < s.len() - 1 {
                    assert(s.drop_last()[i] == s[i]);
                }
            }
        }
    }
}

proof fn lemma_entries_index(s: Seq<(Vec2, VistDetails)>, i: int)
    requires
        entries_unique(s),
        0 <= i < s.len(),
    ensures
        entries_map(s).contains_key(s[i].0),
        entries_map(s)[s[i].0] == s[i].1,
    decreases s.len(),
{
    if i == s.len() - 1 {
    } else {
        assert(s.drop_last()[i] == s[i]);
        assert(entries_unique(s.drop_last()));
        lemma_entries_index(s.drop_last(), i);
        assert(s.last().0 != s[i].0);
    }
}

proof fn lemma_entries_update(s: Seq<(Vec2, VistDetails)>, i: int, v: VistDetails)
    requires
        entries_unique(s),
        0 <= i < s.len(),
    ensures
        entries_map(s.update(i, (s[i].0, v))) == entries_map(s).insert(s[i].0, v),
    decreases s.len(),
{
    let t = s.update(i, (s[i].0, v));
    if i == s.len() - 1 {
        assert(t.drop_last() =~= s.drop_last());
        assert(t.last() == (s[i].0, v));
        assert(entries_map(t) =~= entries_map(s).insert(s[i].0, v));
    } else {
        assert(t.drop_last() =~= s.drop_last().update(i, (s[i].0, v)));
        assert(s.drop_last()[i] == s[i]);
        assert(entries_unique(s.drop_last()));
        lemma_entries_update(s.drop_last(), i, v);
        assert(t.last() == s.last());
        assert(s.last().0 != s[i].0);
        assert(entries_map(t) =~= entries_map(s).insert(s[i].0, v));
    }
}

/// Tracks which locations the player has visited and whether the pending
/// move's event has already been resolved.
pub struct Event {
    visited: Vec<(Vec2, VistDetails)>,
    event_taken: bool,
    current_pos: Vec2,
}

impl Event {
    /// The ledger: every visited coordinate and its visit record.
    pub closed spec fn ledger(self) -> Map<Vec2, VistDetails> {
        entries_map(self.visited@)
    }

    /// Whether the current move's event was already queried.
    pub closed spec fn spec_event_taken(self) -> bool {
        self.event_taken
    }

    /// The coordinate of the most recent confirmed move.
    pub closed spec fn spec_current_pos(self) -> Vec2 {
        self.current_pos
    }

    /// Internal consistency: the entry list holds each coordinate once.
    pub closed spec fn wf(self) -> bool {
        entries_unique(self.visited@)
    }

    /// A fresh tracker: nothing visited, no pending event.
    pub fn new() -> (e: Self)
        ensures
            e.wf(),
            e.ledger() == Map::<Vec2, VistDetails>::empty(),
            !e.spec_event_taken(),
            e.spec_current_pos() == (Vec2 { x: 0i32, y: 0i32 }),
    {
        Self { visited: Vec::new(), event_taken: false, current_pos: Vec2::zero() }
    }

    /// The index of `pos` in the entry list.
    fn find_index(&self, pos: Vec2) -> (i: usize)
        requires
            self.wf(),
            self.ledger().contains_key(pos),
        ensures
            i < self.visited@.len(),
            self.visited@[i as int].0 == pos,
    {
        proof {
            lemma_entries_contains(self.visited@, pos);
        }
        let n = self.visited.len();
        let mut i: usize = 0;
        while i < n
            invariant
                n == self.visited@.len(),
                i <= n,
                forall|j: int| 0 <= j < i ==> (#[trigger] self.visited@[j]).0 != pos,
                exists|j: int| 0 <= j < n && (#[trigger] self.visited@[j]).0 == pos,
            decreases n - i,
        {
            if self.visited[i].0 == pos {
                return i;
            }
            i += 1;
        }
        proof {
            assert(false);
        }
        0
    }

    /// The record a confirmed move to `pos` leaves in the ledger: the old
    /// record (or a fresh one) with its visit count incremented, saturating
    /// at 255.
    pub open spec fn spec_visit_bump(led: Map<Vec2, VistDetails>, pos: Vec2) -> VistDetails {
        let prev = if led.contains_key(pos) {
            led[pos]
        } else {
            VistDetails { count: 0u8, item_found: false, enemy_meet: false }
        };
        VistDetails {
            count: if prev.count < 255 {
                (prev.count + 1) as u8
            } else {
                255u8
            },
            ..prev
        }
    }

    /// Registers a confirmed move: bumps the visit count of `player_pos`
    /// (creating its record on first visit), remembers the position, and
    /// opens a fresh event query for this move.
    pub fn player_moved(&mut self, player_pos: Vec2)
        requires
            old(self).wf(),
        ensures
            final(self).wf(),
            final(self).ledger() == old(self).ledger().insert(
                player_pos,
                Self::spec_visit_bump(old(self).ledger(), player_pos),
            ),
            final(self).spec_current_pos() == player_pos,
            !final(self).spec_event_taken(),
    {
        proof {
            lemma_entries_contains(self.visited@, player_pos);
        }
        if self.contains(player_pos) {
            let i = self.find_index(player_pos);
            let rec = self.visited[i].1;
            proof {
                lemma_entries_index(self.visited@, i as int);
            }
            let bumped = VistDetails {
                count: if rec.count < 255 {
                    rec.count + 1
                } else {
                    255
                },
                ..rec
            };
            proof {
                lemma_entries_update(self.visited@, i as int, bumped);
            }
            self.visited.set(i, (player_pos, bumped));
            proof {
                assert forall|a: int, b: int|
                    0 <= a < b < self.visited@.len() implies (#[trigger] self.visited@[a]).0 != (
                #[trigger] self.visited@[b]).0 by {
                    assert(old(self).visited@[a].0 != old(self).visited@[b].0);
                }
            }
        } else {
            let fresh = VistDetails { count: 1, item_found: false, enemy_meet: false };
            proof {
                assert(self.visited@.push((player_pos, fresh)).drop_last() =~= self.visited@);
            }
            self.visited.push((player_pos, fresh));
            proof {
                assert(self.visited@.drop_last() =~= old(self).visited@);
                assert forall|a: int, b: int|
                    0 <= a < b < self.visited@.len() implies (#[trigger] self.visited@[a]).0 != (
                #[trigger] self.visited@[b]).0 by {
                    if b < self.visited@.len() - 1 {
                        assert(old(self).visited@[a].0 != old(self).visited@[b].0);
                    } else {
                        assert(old(self).visited@[a].0 != player_pos);
                    }
                }
            }
        }
        self.current_pos = player_pos;
        self.event_taken = false;
    }

    /// Whether `pos` has a record in the ledger.
    pub fn contains(&self, pos: Vec2) -> (r: bool)
        requires
            self.wf(),
        ensures
            r == self.ledger().contains_key(pos),
    {
        let n = self.visited.len();
        let mut i: usize = 0;
        while i < n
            invariant
                n == self.visited@.len(),
                i <= n,
                forall|j: int| 0 <= j < i ==> (#[trigger] self.visited@[j]).0 != pos,
            decreases n - i,
        {
            if self.visited[i].0 == pos {
                proof {
                    lemma_entries_contains(self.visited@, pos);
                    assert((self.visited@[i as int]).0 == pos);
                }
                return true;
            }
            i += 1;
        }
        proof {
            lemma_entries_contains(self.visited@, pos);
        }
        false
    }

    /// Resolves the pending move's event, at most once per move: `None` if
    /// already resolved or if the current location is exhausted or the
    /// admission draw fails; otherwise an item or enemy event whose kind
    /// follows the decision procedure [`spec_decide`] on two fresh uniform
    /// draws.
    pub fn get_event(&mut self) -> (r: Option<EventType>)
        requires
            old(self).wf(),
            old(self).spec_event_taken() || old(self).ledger().contains_key(
                old(self).spec_current_pos(),
            ),
        ensures
            final(self).wf(),
            final(self).spec_event_taken(),
            final(self).spec_current_pos() == old(self).spec_current_pos(),
            old(self).spec_event_taken() ==> r is None && *final(self) == *old(self),
            !old(self).spec_event_taken() ==> {
                let pos = old(self).spec_current_pos();
                let prev = old(self).ledger()[pos];
                exists|a: u8, k: u8|
                    {
                        let step = #[trigger] spec_decide(prev, a, k);
                        &&& final(self).ledger() == old(self).ledger().insert(pos, step.0)
                        &&& match step.1 {
                            None => r is None,
                            Some(EventKind::Item) => r is Some && r->0 is Item,
                            Some(EventKind::Enemy) => r is Some && r->0 is Enemy,
                        }
                    }
            },
            !old(self).spec_event_taken() ==> {
                let pos = old(self).spec_current_pos();
                let prev = old(self).ledger()[pos];
                let cur = final(self).ledger()[pos];
                &&& final(self).ledger().dom() == old(self).ledger().dom()
                &&& cur.count == prev.count
                &&& (prev.item_found ==> cur.item_found)
                &&& (prev.enemy_meet ==> cur.enemy_meet)
                &&& (r is Some && r->0 is Item ==> !prev.item_found && cur.item_found
                    && cur.enemy_meet == prev.enemy_meet)
                &&& (r is Some && r->0 is Enemy ==> !prev.enemy_meet && cur.enemy_meet
                    && cur.item_found == prev.item_found)
                &&& (r is None ==> cur == prev)
                &&& (prev.item_found && prev.enemy_meet ==> r is None)
            },
    {
        if self.event_taken {
            return None;
        }

        self.event_taken = true;
        let i = self.find_index(self.current_pos);
        let mut rec = self.visited[i].1;
        proof {
            lemma_entries_index(self.visited@, i as int);
        }
        let admit_draw = random_u8();
        let kind_draw = random_u8();
        let choice = decide_event(&mut rec, admit_draw, kind_draw);
        proof {
            lemma_entries_update(self.visited@, i as int, rec);
        }
        let pos = self.visited[i].0;
        self.visited.set(i, (pos, rec));
        proof {
            assert forall|a: int, b: int|
                0 <= a < b < self.visited@.len() implies (#[trigger] self.visited@[a]).0 != (
            #[trigger] self.visited@[b]).0 by {
                assert(old(self).visited@[a].0 != old(self).visited@[b].0);
            }
            assert(final(self).ledger().dom() =~= old(self).ledger().dom());
        }
        match choice {
            None => None,
            Some(EventKind::Enemy) => Some(EventType::Enemy(Enemy::new())),
            Some(EventKind::Item) => Some(EventType::Item(Item::new())),
        }
    }

    /// Whether this move's event was already resolved.
    pub fn in_progress(&self) -> (r: bool)
        ensures
            r == self.spec_event_taken(),
    {
        self.event_taken
    }
}

} // verus!

