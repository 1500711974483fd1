use arena_agent::geometry::Point;

#[test]
fn test_point_distance() {
    let point1 = Point { x: 1, y: 1 };

    let point2 = Point { x: 10, y: 10 };

    assert_eq!(
        (point1.distance_squared(&point2) as f64).sqrt(),
        12.727922061357855
    );
}

#[test]
fn distance_is_symmetric() {
    let a = Point { x: 17630, y: 0 };
    let b = Point { x: 42, y: 9000 };
    assert_eq!(a.distance_squared(&b), b.distance_squared(&a));
}

#[test]
fn distance_zero_iff_identical() {
    let a = Point { x: 123, y: 456 };
    let same = Point { x: 123, y: 456 };
    assert_eq!(a.distance_squared(&same), 0);

    let near_x = Point { x: 124, y: 456 };
    let near_y = Point { x: 123, y: 455 };
    assert_ne!(a.distance_squared(&near_x), 0);
    assert_ne!(a.distance_squared(&near_y), 0);
}

#[test]
fn distance_squared_exact_values() {
    let origin = Point { x: 0, y: 0 };
    let far = Point { x: 17630, y: 9000 };
    assert_eq!(origin.distance_squared(&far), 17630 * 17630 + 9000 * 9000);

    let a = Point { x: -3, y: 4 };
    assert_eq!(origin.distance_squared(&a), 25);
}
