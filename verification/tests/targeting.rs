use arena_agent::entity::Unit;
use arena_agent::geometry::Point;
use arena_agent::geometry::Vector;

fn unit_at(id: u16, x: i32, y: i32, threat_for: i8) -> Unit {
    Unit {
        id,
        position: Point { x, y },
        shield_life: 0,
        is_controlled: 0,
        health: 10,
        trajectory: Vector { vx: 0, vy: 0 },
        near_base: 0,
        threat_for,
    }
}

#[test]
fn empty_monster_list_targets_own_position() {
    let hero = unit_at(0, 1234, 5678, 0);
    let monsters: Vec<Unit> = Vec::new();
    let target = hero.target_nearest_threat(&monsters);
    assert_eq!(target, Point { x: 1234, y: 5678 });
}

#[test]
fn single_threat_wins_even_when_others_are_closer() {
    let hero = unit_at(0, 1000, 1000, 0);
    // A neutral monster right next to the hero, an opponent-base threat
    // nearby, and the only own-base threat far away.
    let monsters = vec![
        unit_at(10, 1001, 1000, 0),
        unit_at(11, 1100, 1100, 2),
        unit_at(12, 9000, 8000, 1),
    ];
    let target = hero.target_nearest_threat(&monsters);
    assert_eq!(target, Point { x: 9000, y: 8000 });
}

#[test]
fn closer_qualifying_monster_wins() {
    let hero = unit_at(0, 0, 0, 0);
    let monsters = vec![unit_at(10, 5000, 0, 1), unit_at(11, 4999, 0, 1)];
    let target = hero.target_nearest_threat(&monsters);
    assert_eq!(target, Point { x: 4999, y: 0 });
}

#[test]
fn equal_distance_tie_goes_to_earlier_monster() {
    let hero = unit_at(0, 0, 0, 0);
    // (3000, 4000) and (4000, 3000) are both at squared distance 25_000_000.
    let monsters = vec![unit_at(10, 3000, 4000, 1), unit_at(11, 4000, 3000, 1)];
    let target = hero.target_nearest_threat(&monsters);
    assert_eq!(target, Point { x: 3000, y: 4000 });
}

#[test]
fn no_qualifying_monster_falls_back_to_first_monster() {
    // The running best is seeded from monster index 0 and never overwritten
    // when nothing qualifies, so the first monster's position leaks through.
    let hero = unit_at(0, 1000, 1000, 0);
    let monsters = vec![unit_at(10, 7000, 7000, 2), unit_at(11, 1001, 1001, 0)];
    let target = hero.target_nearest_threat(&monsters);
    assert_eq!(target, Point { x: 7000, y: 7000 });
}
