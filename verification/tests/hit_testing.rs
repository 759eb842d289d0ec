use piano_keys::geometry::{point_in_rect, shape_hit, KeyShape, Rect};
use piano_keys::hittest::{note_for_index, press_keys_at};
use piano_keys::keystate::KeyState;

#[test]
fn containment_is_inclusive_on_all_four_edges() {
    let r = Rect { x: 10, y: 20, width: 30, height: 40 };
    // the four corners, inclusive
    assert!(point_in_rect(&r, 10, 20));
    assert!(point_in_rect(&r, 40, 20));
    assert!(point_in_rect(&r, 10, 60));
    assert!(point_in_rect(&r, 40, 60));
    // just outside each edge
    assert!(!point_in_rect(&r, 9, 20));
    assert!(!point_in_rect(&r, 41, 20));
    assert!(!point_in_rect(&r, 10, 19));
    assert!(!point_in_rect(&r, 10, 61));
    // strictly inside
    assert!(point_in_rect(&r, 25, 40));
}

#[test]
fn negative_coordinates_miss() {
    let r = Rect { x: 0, y: 0, width: 10, height: 10 };
    assert!(point_in_rect(&r, 0, 0));
    assert!(!point_in_rect(&r, -1, 0));
    assert!(!point_in_rect(&r, 0, -1));
}

#[test]
fn white_key_small_rectangle_alone_suffices() {
    let shape = KeyShape::White {
        wide: Rect { x: 0, y: 50, width: 20, height: 50 },
        small: Rect { x: 5, y: 0, width: 10, height: 50 },
        blind: None,
    };
    // inside the small rectangle, outside the wide one
    assert!(shape_hit(&shape, 10, 25));
    // inside the wide rectangle only
    assert!(shape_hit(&shape, 1, 75));
    // outside both
    assert!(!shape_hit(&shape, 1, 25));
}

#[test]
fn blind_rectangle_counts_for_the_white_key() {
    let shape = KeyShape::White {
        wide: Rect { x: 0, y: 50, width: 20, height: 50 },
        small: Rect { x: 0, y: 0, width: 10, height: 50 },
        blind: Some(Rect { x: 10, y: 0, width: 10, height: 50 }),
    };
    assert!(shape_hit(&shape, 15, 25));
    let without_blind = KeyShape::White {
        wide: Rect { x: 0, y: 50, width: 20, height: 50 },
        small: Rect { x: 0, y: 0, width: 10, height: 50 },
        blind: None,
    };
    assert!(!shape_hit(&without_blind, 15, 25));
}

#[test]
fn index_to_note_mapping_spans_the_piano() {
    assert_eq!(note_for_index(0), 21);
    assert_eq!(note_for_index(87), 108);
}

#[test]
fn click_in_one_black_key_presses_only_that_note() {
    // three keys side by side; the click lands in the middle one only
    let shapes = vec![
        KeyShape::Black(Rect { x: 0, y: 0, width: 9, height: 50 }),
        KeyShape::Black(Rect { x: 10, y: 0, width: 9, height: 50 }),
        KeyShape::Black(Rect { x: 20, y: 0, width: 9, height: 50 }),
    ];
    let mut table = KeyState::new();
    press_keys_at(&mut table, &shapes, 15, 25);
    for note in 0u8..=127u8 {
        assert_eq!(table.get(note), note == 22, "only index 1, note 22, is hit");
    }
}

#[test]
fn click_in_small_rectangle_presses_the_white_key() {
    let shapes = vec![KeyShape::White {
        wide: Rect { x: 0, y: 50, width: 20, height: 50 },
        small: Rect { x: 5, y: 0, width: 10, height: 50 },
        blind: None,
    }];
    let mut table = KeyState::new();
    // inside small, outside wide
    press_keys_at(&mut table, &shapes, 10, 25);
    assert!(table.get(21));
}

#[test]
fn overlapping_keys_are_all_pressed() {
    let shapes = vec![
        KeyShape::Black(Rect { x: 0, y: 0, width: 10, height: 10 }),
        KeyShape::Black(Rect { x: 10, y: 0, width: 10, height: 10 }),
    ];
    let mut table = KeyState::new();
    // x == 10 lies on the inclusive edge of both rectangles
    press_keys_at(&mut table, &shapes, 10, 5);
    assert!(table.get(21));
    assert!(table.get(22));
}

#[test]
fn pressing_keeps_already_pressed_keys() {
    let shapes = vec![KeyShape::Black(Rect { x: 0, y: 0, width: 10, height: 10 })];
    let mut table = KeyState::new();
    table.set(100, true);
    press_keys_at(&mut table, &shapes, 500, 500);
    assert!(table.get(100), "a miss leaves other notes as they were");
    assert!(!table.get(21));
}
