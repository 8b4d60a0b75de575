use maskedit::brush::{brush_cells, Cell, StrokeKind};

#[test]
fn stroke_from_buttons() {
    assert_eq!(StrokeKind::from_buttons(true, false), StrokeKind::TowardZero);
    assert_eq!(StrokeKind::from_buttons(true, true), StrokeKind::TowardZero);
    assert_eq!(StrokeKind::from_buttons(false, true), StrokeKind::TowardOne);
    assert_eq!(StrokeKind::from_buttons(false, false), StrokeKind::TowardValue);
}

#[test]
fn stroke_speeds() {
    assert_eq!(StrokeKind::TowardZero.time_coef(), 10);
    assert_eq!(StrokeKind::TowardOne.time_coef(), 3);
    assert_eq!(StrokeKind::TowardValue.time_coef(), 5);
}

#[test]
fn square_inside_the_mask() {
    let cells = brush_cells(1, 3, 2, 4, 8);
    assert_eq!(
        cells,
        vec![
            Cell { x: 1, y: 2, index: 17 },
            Cell { x: 2, y: 2, index: 18 },
            Cell { x: 1, y: 3, index: 25 },
            Cell { x: 2, y: 3, index: 26 },
        ]
    );
}

#[test]
fn square_clipped_at_the_edge() {
    let cells = brush_cells(3, 100, 4, 9, 5);
    assert_eq!(
        cells,
        vec![Cell { x: 3, y: 4, index: 23 }, Cell { x: 4, y: 4, index: 24 }]
    );
}

#[test]
fn square_outside_the_mask_is_empty() {
    assert!(brush_cells(6, 9, 0, 2, 5).is_empty());
    assert!(brush_cells(0, 2, 7, 9, 5).is_empty());
    assert!(brush_cells(2, 2, 0, 3, 5).is_empty());
    assert!(brush_cells(0, 3, 0, 3, 0).is_empty());
}

#[test]
fn cells_are_distinct_and_in_mask() {
    let n = 10;
    let cells = brush_cells(0, 50, 0, 50, n);
    assert_eq!(cells.len(), n * n);
    for (k, c) in cells.iter().enumerate() {
        assert_eq!(c.index, k);
        assert_eq!(c.index, c.y * n + c.x);
    }
}
