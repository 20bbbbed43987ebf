use peak::cursor::SourceHead;
use peak::errors::SourceError;
use peak::keys::KeyCode;
use peak::keys::KeyEvent;
use peak::table::BrowseAction;
use peak::table::TableCaption;
use peak::table::Viewer;
use peak::viewport::ViewportState;

fn header(width: usize) -> Vec<String> {
    (0..width).map(|c| format!("col{c}")).collect()
}

fn rows(first: usize, count: usize, width: usize) -> Vec<Vec<String>> {
    (first..first + count).map(|r| (0..width).map(|c| format!("r{r}c{c}")).collect()).collect()
}

fn viewer(total_rows: usize, batch_size: usize, width: usize) -> Viewer {
    let head = SourceHead {
        total_rows,
        header: header(width),
        first_batch: Some(rows(0, batch_size.min(total_rows), width)),
    };
    Viewer::new(batch_size, head).unwrap()
}

fn key(code: KeyCode) -> KeyEvent {
    KeyEvent { code, ctrl: false }
}

#[test]
fn the_viewer_opens_on_the_first_batch() {
    let viewer = viewer(5, 2, 12);
    assert_eq!(viewer.header(), &header(12));
    assert_eq!(viewer.current_rows(), &rows(0, 2, 12));
    assert_eq!(viewer.viewport(), ViewportState { column_offset: 0, selected_row: 0 });
    assert_eq!(viewer.window().total_batches, 3);
    assert_eq!(viewer.visible_columns(), (0, 10));
}

#[test]
fn the_viewer_refuses_an_empty_source() {
    let head = SourceHead { total_rows: 0, header: header(1), first_batch: None };
    assert_eq!(Viewer::new(2, head), Err(SourceError::NoData));
}

#[test]
fn quit_keys_end_the_viewer() {
    let mut viewer = viewer(5, 2, 3);
    let before = viewer.clone();
    assert_eq!(viewer.handle_key_event(key(KeyCode::Esc)), Some(BrowseAction::Quit));
    assert_eq!(
        viewer.handle_key_event(KeyEvent { code: KeyCode::Char('q'), ctrl: true }),
        Some(BrowseAction::Quit)
    );
    assert_eq!(viewer.handle_key_event(key(KeyCode::Char('q'))), None);
    assert_eq!(viewer.handle_key_event(key(KeyCode::Enter)), None);
    assert_eq!(viewer.handle_key_event(key(KeyCode::F(2))), None);
    assert_eq!(viewer, before);
}

#[test]
fn page_keys_ask_for_the_neighbouring_batch() {
    let mut viewer = viewer(5, 2, 3);
    assert_eq!(viewer.handle_key_event(key(KeyCode::PageUp)), None);
    assert_eq!(viewer.handle_key_event(key(KeyCode::PageDown)), Some(BrowseAction::LoadBatch(1)));
    assert_eq!(viewer.next_batch(), Some(1));
    assert_eq!(viewer.goto_batch(1, rows(2, 2, 3)), Ok(()));
    assert_eq!(viewer.handle_key_event(key(KeyCode::PageUp)), Some(BrowseAction::LoadBatch(0)));
    assert_eq!(viewer.handle_key_event(key(KeyCode::PageDown)), Some(BrowseAction::LoadBatch(2)));
    assert_eq!(viewer.goto_batch(2, rows(4, 1, 3)), Ok(()));
    let last = viewer.clone();
    assert_eq!(viewer.handle_key_event(key(KeyCode::PageDown)), None);
    assert_eq!(viewer.next_batch(), None);
    assert_eq!(viewer, last);
    assert_eq!(viewer.previous_batch(), Some(1));
}

#[test]
fn a_new_batch_resets_the_viewport() {
    let mut viewer = viewer(5, 2, 12);
    viewer.handle_key_event(key(KeyCode::Right));
    viewer.handle_key_event(key(KeyCode::Down));
    assert_eq!(viewer.viewport(), ViewportState { column_offset: 1, selected_row: 1 });
    viewer.goto_batch(1, rows(2, 2, 12)).unwrap();
    assert_eq!(viewer.viewport(), ViewportState { column_offset: 0, selected_row: 0 });
}

#[test]
fn a_refused_batch_changes_nothing() {
    let mut viewer = viewer(5, 2, 12);
    viewer.handle_key_event(key(KeyCode::Right));
    let before = viewer.clone();
    assert_eq!(viewer.goto_batch(1, rows(2, 1, 12)), Err(SourceError::Malformed));
    assert_eq!(viewer, before);
}

#[test]
fn arrow_keys_move_the_viewport_within_bounds() {
    let mut viewer = viewer(5, 2, 12);
    viewer.handle_key_event(key(KeyCode::Left));
    viewer.handle_key_event(key(KeyCode::Up));
    assert_eq!(viewer.viewport(), ViewportState { column_offset: 0, selected_row: 0 });
    for _ in 0..5 {
        viewer.handle_key_event(key(KeyCode::Right));
        viewer.handle_key_event(key(KeyCode::Down));
    }
    assert_eq!(viewer.viewport(), ViewportState { column_offset: 2, selected_row: 1 });
    assert_eq!(viewer.visible_columns(), (2, 12));
    viewer.scroll_left();
    assert_eq!(viewer.viewport().column_offset, 1);
    viewer.scroll_right();
    viewer.scroll_right();
    assert_eq!(viewer.viewport().column_offset, 2);
}

#[test]
fn the_caption_reports_rows_and_batch() {
    let mut viewer = viewer(5, 2, 12);
    assert_eq!(
        viewer.caption(),
        TableCaption::Source {
            first_column: 0,
            last_column: 9,
            total_columns: 12,
            first_row: 0,
            last_row: 1,
            total_rows: 5,
            batch_number: 1,
            total_batches: 3,
        }
    );
    viewer.goto_batch(2, rows(4, 1, 12)).unwrap();
    viewer.scroll_right();
    assert_eq!(
        viewer.caption(),
        TableCaption::Source {
            first_column: 1,
            last_column: 10,
            total_columns: 12,
            first_row: 4,
            last_row: 4,
            total_rows: 5,
            batch_number: 3,
            total_batches: 3,
        }
    );
}
