//! Units (heroes and monsters) and the threat targeter.
//!
//! `Unit::target_nearest_threat` picks, among the monsters classified as a
//! threat to the player's own base, the one nearest to the unit, with ties
//! broken in favour of the monster that came earlier in the input sequence.
//! When the monster list is empty it falls back to the unit's own position;
//! when the list is non-empty but no monster qualifies, it returns the first
//! monster's position. That last fallback reproduces the seeded running-best
//! of the selection scan: the running best is seeded from monster index 0 and
//! is only ever overwritten by a qualifying monster, so a non-qualifying
//! first monster's position leaks through when nothing qualifies. The
//! contract states this policy explicitly.

use vstd::prelude::*;

use crate::geometry::Point;
use crate::geometry::Vector;
use crate::geometry::dist_sq;

verus! {

/// One hero or monster, as the per-turn feed describes it.
#[derive(Clone, Copy, PartialEq, Eq, Structural, Debug)]
pub struct Unit {
    /// Unique identifier, stable across turns for the same physical entity.
    pub id: u16,
    /// Current position on the board.
    pub position: Point,
    /// Turns of spell immunity remaining; 0 means unshielded.
    pub shield_life: u8,
    /// Nonzero when the unit is under an opponent's control spell.
    pub is_controlled: u8,
    /// Monsters: remaining hit points. Heroes: not populated by the feed.
    pub health: i32,
    /// The entity's per-turn displacement.
    pub trajectory: Vector,
    /// 0 while wandering; nonzero once the monster approaches a base.
    pub near_base: i8,
    /// Threat classification: 0 neutral, 1 threatens the player's own base,
    /// 2 threatens the opponent's base. Authoritative input, never derived.
    pub threat_for: i8,
}

/// Whether a monster counts for target selection: it must be classified as a
/// threat to the player's own base.
pub open spec fn qualifies(m: Unit) -> bool {
    m.threat_for == 1
}

/// Whether index `i` is the one the targeter selects for unit `u` out of
/// `ms`: a qualifying monster, at least as close as every qualifying monster,
/// and strictly closer than every earlier qualifying one (ties go to the
/// earliest index). At most one index satisfies this
/// (`lemma_chosen_unique`).
pub open spec fn is_chosen(u: Unit, ms: Seq<Unit>, i: int) -> bool {
    &&& 0 <= i < ms.len()
    &&& qualifies(ms[i])
    &&& forall|j: int|
        0 <= j < ms.len() && qualifies(ms[j]) ==> dist_sq(u.position, ms[i].position) <= dist_sq(
            u.position,
            ms[j].position,
        )
    &&& forall|j: int|
        0 <= j < i && qualifies(ms[j]) ==> dist_sq(u.position, ms[i].position) < dist_sq(
            u.position,
            ms[j].position,
        )
}

/// The point the targeter returns for unit `u` and monster list `ms`.
pub open spec fn target_spec(u: Unit, ms: Seq<Unit>) -> Point {
    if ms.len() == 0 {
        u.position
    } else if exists|i: int| is_chosen(u, ms, i) {
        ms[choose|i: int| is_chosen(u, ms, i)].position
    } else {
        ms[0].position
    }
}

/// No two distinct indices can both be chosen: the earlier one would have to
/// be strictly farther and at most as far at the same time.
pub proof fn lemma_chosen_unique(u: Unit, ms: Seq<Unit>, i: int, j: int)
    requires
        is_chosen(u, ms, i),
        is_chosen(u, ms, j),
    ensures
        i == j,
{
    if i < j {
        assert(dist_sq(u.position, ms[j].position) < dist_sq(u.position, ms[i].position));
        assert(dist_sq(u.position, ms[i].position) <= dist_sq(u.position, ms[j].position));
    }
    if j < i {
        assert(dist_sq(u.position, ms[i].position) < dist_sq(u.position, ms[j].position));
        assert(dist_sq(u.position, ms[j].position) <= dist_sq(u.position, ms[i].position));
    }
}

/// Whenever some monster qualifies, some index is chosen: the filtered scan
/// always has a first nearest element. Together with `lemma_chosen_unique`
/// this makes the selection in `target_spec` total and well-defined.
pub proof fn lemma_threat_implies_chosen(u: Unit, ms: Seq<Unit>)
    requires
        exists|j: int| 0 <= j < ms.len() && qualifies(ms[j]),
    ensures
        exists|i: int| is_chosen(u, ms, i),
    decreases ms.len(),
{
    let n = ms.len() as int;
    let jw = choose|j: int| 0 <= j < n && qualifies(ms[j]);
    let prefix = ms.drop_last();
    assert(forall|j: int| 0 <= j < n - 1 ==> prefix[j] == ms[j]);
    if exists|j: int| 0 <= j < prefix.len() && qualifies(prefix[j]) {
        lemma_threat_implies_chosen(u, prefix);
        let i0 = choose|i: int| is_chosen(u, prefix, i);
        if qualifies(ms[n - 1]) && dist_sq(u.position, ms[n - 1].position) < dist_sq(
            u.position,
            ms[i0].position,
        ) {
            assert forall|j: int| 0 <= j < n && qualifies(ms[j]) implies dist_sq(
                u.position,
                ms[n - 1].position,
            ) <= dist_sq(u.position, ms[j].position) by {
                if j < n - 1 {
                    assert(dist_sq(u.position, prefix[i0].position) <= dist_sq(
                        u.position,
                        prefix[j].position,
                    ));
                }
            }
            assert(is_chosen(u, ms, n - 1));
        } else {
            assert forall|j: int| 0 <= j < n && qualifies(ms[j]) implies dist_sq(
                u.position,
                ms[i0].position,
            ) <= dist_sq(u.position, ms[j].position) by {
                if j < n - 1 {
                    assert(dist_sq(u.position, prefix[i0].position) <= dist_sq(
                        u.position,
                        prefix[j].position,
                    ));
                }
            }
            assert forall|j: int| 0 <= j < i0 && qualifies(ms[j]) implies dist_sq(
                u.position,
                ms[i0].position,
            ) < dist_sq(u.position, ms[j].position) by {
                assert(dist_sq(u.position, prefix[i0].position) < dist_sq(
                    u.position,
                    prefix[j].position,
                ));
            }
            assert(is_chosen(u, ms, i0));
        }
    } else {
        assert(jw == n - 1);
        assert(is_chosen(u, ms, n - 1));
    }
}

/// With no monsters at all, the target is the unit's own current position,
/// for every unit.
pub proof fn lemma_target_empty(u: Unit)
    ensures
        target_spec(u, Seq::<Unit>::empty()) == u.position,
{
}

/// When exactly one monster is classified as a threat to the player's own
/// base, the target is that monster's position, wherever the non-qualifying
/// monsters stand — even if one of them is closer.
pub proof fn lemma_target_single_threat(u: Unit, ms: Seq<Unit>, k: int)
    requires
        0 <= k < ms.len(),
        qualifies(ms[k]),
        forall|j: int| 0 <= j < ms.len() && j != k ==> !qualifies(ms[j]),
    ensures
        target_spec(u, ms) == ms[k].position,
{
    assert(is_chosen(u, ms, k));
    let w = choose|i: int| is_chosen(u, ms, i);
    lemma_chosen_unique(u, ms, k, w);
}

/// Among two qualifying monsters at different distances, the target is the
/// strictly closer one's position, whatever non-qualifying monsters stand
/// beside them.
pub proof fn lemma_target_closer_wins(u: Unit, ms: Seq<Unit>, a: int, b: int)
    requires
        0 <= a < ms.len(),
        0 <= b < ms.len(),
        a != b,
        qualifies(ms[a]),
        qualifies(ms[b]),
        forall|j: int| 0 <= j < ms.len() && j != a && j != b ==> !qualifies(ms[j]),
        dist_sq(u.position, ms[a].position) < dist_sq(u.position, ms[b].position),
    ensures
        target_spec(u, ms) == ms[a].position,
{
    assert(is_chosen(u, ms, a));
    let w = choose|i: int| is_chosen(u, ms, i);
    lemma_chosen_unique(u, ms, a, w);
}

/// Among two qualifying monsters at exactly equal distance, the target is
/// the position of the one earlier in the input sequence.
pub proof fn lemma_target_tie_first(u: Unit, ms: Seq<Unit>, a: int, b: int)
    requires
        0 <= a < b < ms.len(),
        qualifies(ms[a]),
        qualifies(ms[b]),
        forall|j: int| 0 <= j < ms.len() && j != a && j != b ==> !qualifies(ms[j]),
        dist_sq(u.position, ms[a].position) == dist_sq(u.position, ms[b].position),
    ensures
        target_spec(u, ms) == ms[a].position,
{
    assert(is_chosen(u, ms, a));
    let w = choose|i: int| is_chosen(u, ms, i);
    lemma_chosen_unique(u, ms, a, w);
}

impl Unit {
    /// The nearest monster classified as a threat to the player's own base,
    /// or the documented fallback when none qualifies.
    pub fn target_nearest_threat(&self, monsters: &Vec<Unit>) -> (r: Point)
        ensures
            r == target_spec(*self, monsters@),
    {
        if monsters.len() == 0 {
            return Point { x: self.position.x, y: self.position.y };
        }
        let mut point = Point { x: monsters[0].position.x, y: monsters[0].position.y };
        let mut best: i128 = 0;
        let mut found: bool = false;
        let ghost mut best_i: int = 0;
        let mut k: usize = 0;
        while k < monsters.len()
            invariant
                0 <= k <= monsters.len(),
                monsters.len() > 0,
                !found ==> point == monsters@[0].position,
                !found ==> forall|j: int| 0 <= j < k ==> !qualifies(monsters@[j]),
                found ==> {
                    &&& 0 <= best_i < k
                    &&& qualifies(monsters@[best_i])
                    &&& point == monsters@[best_i].position
                    &&& best == dist_sq(self.position, monsters@[best_i].position)
                    &&& forall|j: int|
                        0 <= j < k && qualifies(monsters@[j]) ==> best <= dist_sq(
                            self.position,
                            monsters@[j].position,
                        )
                    &&& forall|j: int|
                        0 <= j < best_i && qualifies(monsters@[j]) ==> best < dist_sq(
                            self.position,
                            monsters@[j].position,
                        )
                },
            decreases monsters.len() - k,
        {
            if monsters[k].threat_for == 1 {
                let d = self.position.distance_squared(&monsters[k].position);
                if !found || d < best {
                    point = Point { x: monsters[k].position.x, y: monsters[k].position.y };
                    best = d;
                    found = true;
                    proof {
                        best_i = k as int;
                    }
                }
            }
            k = k + 1;
        }
        proof {
            if found {
                assert(is_chosen(*self, monsters@, best_i));
                let w = choose|i: int| is_chosen(*self, monsters@, i);
                lemma_chosen_unique(*self, monsters@, best_i, w);
            } else {
                assert(forall|i: int| !is_chosen(*self, monsters@, i));
            }
        }
        point
    }
}

} // verus!
