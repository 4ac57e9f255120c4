use for_fox_sake::model::model_utils::{grid_to_position, is_within, GridPosition, Vector2, UNIT};

#[test]
fn top_left_tile_of_five_by_five() {
    let p = grid_to_position(&GridPosition { column: 0, row: 0 }, 5, 5);
    assert_eq!(p, Vector2 { x: -800_000_000, y: 800_000_000 });
}

#[test]
fn bottom_right_tile_mirrors_top_left() {
    let a = grid_to_position(&GridPosition { column: 0, row: 0 }, 5, 4);
    let b = grid_to_position(&GridPosition { column: 4, row: 3 }, 5, 4);
    assert_eq!(b, Vector2 { x: -a.x, y: -a.y });
    assert_eq!(a, Vector2 { x: -UNIT + UNIT / 5, y: UNIT - UNIT / 4 });
}

#[test]
fn centre_tile_is_origin() {
    let p = grid_to_position(&GridPosition { column: 2, row: 2 }, 5, 5);
    assert_eq!(p, Vector2 { x: 0, y: 0 });
}

#[test]
fn uneven_grid_rounds_toward_zero() {
    let a = grid_to_position(&GridPosition { column: 0, row: 0 }, 3, 3);
    let b = grid_to_position(&GridPosition { column: 2, row: 2 }, 3, 3);
    assert_eq!(a, Vector2 { x: -666_666_666, y: 666_666_666 });
    assert_eq!(b, Vector2 { x: 666_666_666, y: -666_666_666 });
}

#[test]
fn mapping_is_deterministic() {
    let g = GridPosition { column: 1, row: 3 };
    assert_eq!(grid_to_position(&g, 7, 9), grid_to_position(&g, 7, 9));
}

#[test]
fn within_is_strict() {
    let a = Vector2 { x: 0, y: 0 };
    let b = Vector2 { x: 60_000_000, y: 80_000_000 };
    assert!(!is_within(&a, &b, 100_000_000));
    assert!(is_within(&a, &b, 100_000_001));
    let far = Vector2 { x: i64::MAX, y: i64::MIN };
    assert!(!is_within(&a, &far, UNIT));
}

#[test]
fn within_accepts_any_positive_radius() {
    let a = Vector2 { x: i64::MIN, y: 0 };
    let b = Vector2 { x: i64::MAX, y: 0 };
    assert!(!is_within(&a, &b, i64::MAX));
    let c = Vector2 { x: 0, y: 0 };
    let d = Vector2 { x: i64::MAX - 1, y: 0 };
    assert!(is_within(&c, &d, i64::MAX));
    assert!(!is_within(&c, &Vector2 { x: i64::MAX, y: 0 }, i64::MAX));
    assert!(is_within(&c, &c, 1));
}
