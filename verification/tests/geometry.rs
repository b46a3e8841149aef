use seltrack::geom::{clamp_coord, exceeds_tol, SelectionBounds, COORD_LIMIT, HALF_UNIT};

#[test]
fn clamp_is_identity_inside_the_window() {
    assert_eq!(clamp_coord(0), 0);
    assert_eq!(clamp_coord(-123_456), -123_456);
    assert_eq!(clamp_coord(COORD_LIMIT), COORD_LIMIT);
    assert_eq!(clamp_coord(-COORD_LIMIT), -COORD_LIMIT);
}

#[test]
fn clamp_saturates_outside_the_window() {
    assert_eq!(clamp_coord(i64::MAX), COORD_LIMIT);
    assert_eq!(clamp_coord(i64::MIN), -COORD_LIMIT);
    assert_eq!(clamp_coord(COORD_LIMIT + 1), COORD_LIMIT);
}

#[test]
fn tolerance_is_strict() {
    // Half a logical unit is 50 centi-units; only more than that counts
    // as movement.
    assert!(!exceeds_tol(100, 150, HALF_UNIT));
    assert!(!exceeds_tol(150, 100, HALF_UNIT));
    assert!(exceeds_tol(100, 151, HALF_UNIT));
    assert!(exceeds_tol(151, 100, HALF_UNIT));
    assert!(!exceeds_tol(-25, 25, HALF_UNIT));
}

#[test]
fn usable_bounds_sentinel() {
    // Degenerate ranges report zero (or tiny) width: only a width above
    // one logical unit counts as usable.
    let degenerate = SelectionBounds { x: 0, y: 0, width: 100, height: 1600 };
    assert!(!degenerate.is_usable());
    let usable = SelectionBounds { x: 0, y: 0, width: 101, height: 1600 };
    assert!(usable.is_usable());

    // Paragraph rectangles are judged by height instead.
    let flat = SelectionBounds { x: 0, y: 0, width: 30000, height: 100 };
    assert!(!flat.is_usable_height());
    let tall = SelectionBounds { x: 0, y: 0, width: 30000, height: 101 };
    assert!(tall.is_usable_height());
}

#[test]
fn sanitize_clamps_every_field() {
    let wild = SelectionBounds { x: i64::MIN, y: i64::MAX, width: 7, height: -9 };
    let s = wild.sanitized();
    assert_eq!(s.x, -COORD_LIMIT);
    assert_eq!(s.y, COORD_LIMIT);
    assert_eq!(s.width, 7);
    assert_eq!(s.height, -9);
}
