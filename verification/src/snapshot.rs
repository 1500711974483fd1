//! The per-turn snapshot builder and the per-match state it maintains.
//!
//! `MatchState` owns everything that outlives a turn: the two `Player`
//! records with their fixed base corners. Each turn the builder overwrites
//! both players' base status and rebuilds all three unit lists — own heroes,
//! opponent heroes, monsters — from the entity feed, so nothing stale
//! survives. An entity tag outside the protocol's vocabulary is a fatal
//! violation: the turn is rejected with an explicit error and the state is
//! left exactly as it was, so a host harness can report diagnostics before
//! exiting.

use vstd::prelude::*;

use crate::entity::Unit;
use crate::entity::target_spec;
use crate::geometry::Point;

verus! {

/// Width of the board; the two bases sit in diagonally opposite corners.
pub const BOARD_SIZE_X: i32 = 17630;

/// Height of the board.
pub const BOARD_SIZE_Y: i32 = 9000;

/// One player's persistent record: identity, base status, base corner and
/// the heroes it controls, in hero-slot order.
#[derive(Debug)]
pub struct Player {
    /// 0 for the controlled player, 1 for the opponent.
    pub id: u16,
    /// Base health; the game ends for this player at 0.
    pub health: u32,
    /// Mana counter.
    pub mana: u32,
    /// Fixed base corner, set once at match start.
    pub base: Point,
    /// Controlled heroes, rebuilt each turn in feed order.
    pub units: Vec<Unit>,
}

/// One raw entity record of the per-turn feed: the tag that classifies it
/// (0 monster, 1 own hero, 2 opponent hero) and the parsed unit itself.
#[derive(Clone, Copy, PartialEq, Eq, Structural, Debug)]
pub struct EntityRecord {
    /// Classification tag as the feed sent it.
    pub unit_type: u8,
    /// The parsed unit.
    pub unit: Unit,
}

/// A fatal input-format violation found while building the snapshot.
#[derive(Clone, Copy, PartialEq, Eq, Structural, Debug)]
pub enum SnapshotError {
    /// An entity tag outside the known vocabulary: a protocol version
    /// mismatch, never silently ignored.
    UnknownTag(u8),
}

/// Whether an entity tag belongs to the protocol's vocabulary.
pub open spec fn tag_ok(t: u8) -> bool {
    t == 0 || t == 1 || t == 2
}

/// Whether every entity of the feed carries a known tag.
pub open spec fn all_tags_ok(es: Seq<EntityRecord>) -> bool {
    forall|i: int| 0 <= i < es.len() ==> tag_ok(es[i].unit_type)
}

/// Whether index `i` holds the first entity whose tag the protocol does not
/// know.
pub open spec fn first_unknown_tag(es: Seq<EntityRecord>, i: int) -> bool {
    &&& 0 <= i < es.len()
    &&& !tag_ok(es[i].unit_type)
    &&& forall|j: int| 0 <= j < i ==> tag_ok(es[j].unit_type)
}

/// The units among `es` that carry tag `tag`, in feed order.
pub open spec fn units_of(es: Seq<EntityRecord>, tag: u8) -> Seq<Unit>
    decreases es.len(),
{
    if es.len() == 0 {
        Seq::empty()
    } else if es.last().unit_type == tag {
        units_of(es.drop_last(), tag).push(es.last().unit)
    } else {
        units_of(es.drop_last(), tag)
    }
}

/// The opponent's base corner derived from the player's own: the two bases
/// sit in diagonally opposite corners, and the corner opposite to anything
/// other than the far corner is the far corner itself.
pub open spec fn opposite_corner(base: Point) -> Point {
    if base.x == BOARD_SIZE_X && base.y == BOARD_SIZE_Y {
        Point { x: 0, y: 0 }
    } else {
        Point { x: BOARD_SIZE_X, y: BOARD_SIZE_Y }
    }
}

proof fn lemma_units_of_take_step(es: Seq<EntityRecord>, tag: u8, k: int)
    requires
        0 <= k < es.len(),
    ensures
        units_of(es.take(k + 1), tag) == if es[k].unit_type == tag {
            units_of(es.take(k), tag).push(es[k].unit)
        } else {
            units_of(es.take(k), tag)
        },
{
    assert(es.take(k + 1).drop_last() =~= es.take(k));
    assert(es.take(k + 1).last() == es[k]);
}

/// Partition law: when every tag is known, the three per-tag unit lists
/// together account for every entity of the turn, so after the builder runs
/// the own-hero, opponent-hero and monster counts add up to the announced
/// entity count.
pub proof fn lemma_entity_partition(es: Seq<EntityRecord>)
    requires
        all_tags_ok(es),
    ensures
        units_of(es, 0).len() + units_of(es, 1).len() + units_of(es, 2).len() == es.len(),
    decreases es.len(),
{
    if es.len() > 0 {
        assert forall|i: int| 0 <= i < es.drop_last().len() implies tag_ok(
            es.drop_last()[i].unit_type,
        ) by {
            assert(es.drop_last()[i] == es[i]);
        }
        lemma_entity_partition(es.drop_last());
        assert(tag_ok(es[es.len() - 1].unit_type));
    }
}

/// With no monster-tagged entity in the feed, the per-tag monster list is
/// empty, so the builder leaves an empty monster list whatever the previous
/// turn held.
pub proof fn lemma_no_monster_entities(es: Seq<EntityRecord>)
    requires
        forall|i: int| 0 <= i < es.len() ==> es[i].unit_type != 0,
    ensures
        units_of(es, 0) == Seq::<Unit>::empty(),
    decreases es.len(),
{
    if es.len() > 0 {
        assert forall|i: int| 0 <= i < es.drop_last().len() implies es.drop_last()[i].unit_type
            != 0 by {
            assert(es.drop_last()[i] == es[i]);
        }
        lemma_no_monster_entities(es.drop_last());
        assert(es[es.len() - 1].unit_type != 0);
    }
}

/// The whole per-match state the turn loop owns: both players and the
/// current turn's monster list. No ambient state stands outside it.
#[derive(Debug)]
pub struct MatchState {
    /// The controlled player.
    pub player: Player,
    /// The opponent.
    pub opponent: Player,
    /// Monsters visible this turn; fully rebuilt every turn.
    pub monsters: Vec<Unit>,
}

impl MatchState {
    /// Fresh match state from the controlled player's base corner, as the
    /// startup line announces it. The opponent's base is the diagonally
    /// opposite corner. Both players start with base health 3 and no mana.
    pub fn new(base_x: i32, base_y: i32) -> (r: MatchState)
        ensures
            r.player.id == 0,
            r.player.health == 3,
            r.player.mana == 0,
            r.player.base == (Point { x: base_x, y: base_y }),
            r.player.units@ == Seq::<Unit>::empty(),
            r.opponent.id == 1,
            r.opponent.health == 3,
            r.opponent.mana == 0,
            r.opponent.base == opposite_corner(Point { x: base_x, y: base_y }),
            r.opponent.units@ == Seq::<Unit>::empty(),
            r.monsters@ == Seq::<Unit>::empty(),
    {
        let own_base = Point { x: base_x, y: base_y };
        let opp_base = if base_x == BOARD_SIZE_X && base_y == BOARD_SIZE_Y {
            Point { x: 0, y: 0 }
        } else {
            Point { x: BOARD_SIZE_X, y: BOARD_SIZE_Y }
        };
        let r = MatchState {
            player: Player { id: 0, health: 3, mana: 0, base: own_base, units: Vec::new() },
            opponent: Player { id: 1, health: 3, mana: 0, base: opp_base, units: Vec::new() },
            monsters: Vec::new(),
        };
        proof {
            assert(r.player.units@ =~= Seq::<Unit>::empty());
            assert(r.opponent.units@ =~= Seq::<Unit>::empty());
            assert(r.monsters@ =~= Seq::<Unit>::empty());
        }
        r
    }

    /// Snapshot builder: one turn's ingestion. Overwrites both players' base
    /// status and rebuilds the three unit lists from the entity feed in feed
    /// order, monsters first cleared so nothing stale survives. An entity
    /// tag outside the vocabulary rejects the whole turn: the error names
    /// the first offending tag and the state is left unchanged.
    pub fn process_turn(
        &mut self,
        own_health: u32,
        own_mana: u32,
        opp_health: u32,
        opp_mana: u32,
        entities: &Vec<EntityRecord>,
    ) -> (r: Result<(), SnapshotError>)
        ensures
            match r {
                Ok(()) => {
                    &&& all_tags_ok(entities@)
                    &&& final(self).player.health == own_health
                    &&& final(self).player.mana == own_mana
                    &&& final(self).opponent.health == opp_health
                    &&& final(self).opponent.mana == opp_mana
                    &&& final(self).monsters@ == units_of(entities@, 0)
                    &&& final(self).player.units@ == units_of(entities@, 1)
                    &&& final(self).opponent.units@ == units_of(entities@, 2)
                    &&& final(self).player.id == old(self).player.id
                    &&& final(self).player.base == old(self).player.base
                    &&& final(self).opponent.id == old(self).opponent.id
                    &&& final(self).opponent.base == old(self).opponent.base
                },
                Err(e) => {
                    &&& !all_tags_ok(entities@)
                    &&& *final(self) == *old(self)
                    &&& exists|i: int|
                        first_unknown_tag(entities@, i) && e == SnapshotError::UnknownTag(
                            entities@[i].unit_type,
                        )
                },
            },
    {
        let n = entities.len();
        let mut k: usize = 0;
        while k < n
            invariant
                0 <= k <= n,
                n == entities@.len(),
                forall|j: int| 0 <= j < k ==> tag_ok(entities@[j].unit_type),
            decreases n - k,
        {
            let t = entities[k].unit_type;
            if t > 2 {
                proof {
                    assert(first_unknown_tag(entities@, k as int));
                }
                return Err(SnapshotError::UnknownTag(t));
            }
            k = k + 1;
        }
        self.player.health = own_health;
        self.player.mana = own_mana;
        self.opponent.health = opp_health;
        self.opponent.mana = opp_mana;
        self.monsters.clear();
        self.player.units.clear();
        self.opponent.units.clear();
        proof {
            assert(entities@.take(0) =~= Seq::<EntityRecord>::empty());
            assert(self.monsters@ =~= units_of(entities@.take(0), 0));
            assert(self.player.units@ =~= units_of(entities@.take(0), 1));
            assert(self.opponent.units@ =~= units_of(entities@.take(0), 2));
        }
        let mut k: usize = 0;
        while k < n
            invariant
                0 <= k <= n,
                n == entities@.len(),
                all_tags_ok(entities@),
                self.monsters@ == units_of(entities@.take(k as int), 0),
                self.player.units@ == units_of(entities@.take(k as int), 1),
                self.opponent.units@ == units_of(entities@.take(k as int), 2),
                self.player.health == own_health,
                self.player.mana == own_mana,
                self.opponent.health == opp_health,
                self.opponent.mana == opp_mana,
                self.player.id == old(self).player.id,
                self.player.base == old(self).player.base,
                self.opponent.id == old(self).opponent.id,
                self.opponent.base == old(self).opponent.base,
            decreases n - k,
        {
            let t = entities[k].unit_type;
            let u = entities[k].unit;
            proof {
                lemma_units_of_take_step(entities@, 0, k as int);
                lemma_units_of_take_step(entities@, 1, k as int);
                lemma_units_of_take_step(entities@, 2, k as int);
            }
            if t == 0 {
                self.monsters.push(u);
            } else if t == 1 {
                self.player.units.push(u);
            } else {
                self.opponent.units.push(u);
            }
            k = k + 1;
        }
        proof {
            assert(entities@.take(n as int) =~= entities@);
        }
        Ok(())
    }

    /// One command per controlled hero, in hero-slot order: each hero moves
    /// toward its nearest own-base threat, with the targeter's documented
    /// fallbacks when no monster qualifies.
    pub fn plan_commands(&self) -> (r: Vec<Command>)
        ensures
            r@.len() == self.player.units@.len(),
            forall|i: int|
                0 <= i < r@.len() ==> r@[i] == Command::Move(
                    target_spec(self.player.units@[i], self.monsters@),
                ),
    {
        let mut out: Vec<Command> = Vec::new();
        let mut i: usize = 0;
        while i < self.player.units.len()
            invariant
                0 <= i <= self.player.units@.len(),
                out@.len() == i,
                forall|j: int|
                    0 <= j < i ==> out@[j] == Command::Move(
                        target_spec(self.player.units@[j], self.monsters@),
                    ),
            decreases self.player.units@.len() - i,
        {
            let p = self.player.units[i].target_nearest_threat(&self.monsters);
            out.push(Command::Move(p));
            i = i + 1;
        }
        out
    }
}

/// One command for one hero, in the host protocol's output vocabulary.
#[derive(Clone, Copy, PartialEq, Eq, Structural, Debug)]
pub enum Command {
    /// Move toward the given point.
    Move(Point),
    /// Do nothing this turn: the degenerate no-op form.
    Wait,
}

} // verus!
