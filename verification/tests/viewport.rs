use peak::viewport::ViewportState;
use peak::viewport::VISIBLE_COLS;

#[test]
fn a_new_viewport_is_at_the_first_column_and_row() {
    let viewport = ViewportState::new();
    assert_eq!(viewport, ViewportState { column_offset: 0, selected_row: 0 });
    assert_eq!(VISIBLE_COLS, 10);
}

#[test]
fn scroll_right_stops_when_the_last_column_is_visible() {
    let mut viewport = ViewportState::new();
    for expected in 1..=5 {
        viewport.scroll_right(15);
        assert_eq!(viewport.column_offset, expected);
    }
    let at_edge = viewport;
    viewport.scroll_right(15);
    assert_eq!(viewport, at_edge);
    viewport.scroll_right(15);
    assert_eq!(viewport, at_edge);
    assert_eq!(viewport.column_offset, 15 - VISIBLE_COLS);
}

#[test]
fn scroll_left_stops_at_the_first_column() {
    let mut viewport = ViewportState { column_offset: 2, selected_row: 3 };
    viewport.scroll_left();
    assert_eq!(viewport.column_offset, 1);
    viewport.scroll_left();
    assert_eq!(viewport.column_offset, 0);
    let at_edge = viewport;
    viewport.scroll_left();
    assert_eq!(viewport, at_edge);
    assert_eq!(viewport.selected_row, 3);
}

#[test]
fn a_table_that_fits_does_not_scroll() {
    for total_columns in 0..=VISIBLE_COLS {
        let mut viewport = ViewportState::new();
        viewport.scroll_right(total_columns);
        assert_eq!(viewport.column_offset, 0);
    }
    let mut viewport = ViewportState::new();
    viewport.scroll_right(VISIBLE_COLS + 1);
    assert_eq!(viewport.column_offset, 1);
    viewport.scroll_right(VISIBLE_COLS + 1);
    assert_eq!(viewport.column_offset, 1);
}

#[test]
fn selection_moves_without_wrapping() {
    let mut viewport = ViewportState::new();
    viewport.select_previous();
    assert_eq!(viewport.selected_row, 0);
    viewport.select_next(3);
    assert_eq!(viewport.selected_row, 1);
    viewport.select_next(3);
    assert_eq!(viewport.selected_row, 2);
    viewport.select_next(3);
    assert_eq!(viewport.selected_row, 2);
    viewport.select_previous();
    assert_eq!(viewport.selected_row, 1);
    assert_eq!(viewport.column_offset, 0);
}

#[test]
fn selection_stays_on_the_only_row() {
    let mut viewport = ViewportState::new();
    viewport.select_next(1);
    assert_eq!(viewport.selected_row, 0);
    viewport.select_next(0);
    assert_eq!(viewport.selected_row, 0);
}

#[test]
fn visible_columns_are_a_window_of_ten() {
    let viewport = ViewportState { column_offset: 0, selected_row: 0 };
    assert_eq!(viewport.visible_columns(0), (0, 0));
    assert_eq!(viewport.visible_columns(3), (0, 3));
    assert_eq!(viewport.visible_columns(10), (0, 10));
    assert_eq!(viewport.visible_columns(25), (0, 10));
    let scrolled = ViewportState { column_offset: 15, selected_row: 0 };
    assert_eq!(scrolled.visible_columns(25), (15, 25));
    let between = ViewportState { column_offset: 7, selected_row: 0 };
    assert_eq!(between.visible_columns(25), (7, 17));
}
