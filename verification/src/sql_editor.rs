//! The editing session: one state that holds the paginated rows of the
//! source, the query result that may lie over them, the viewport, the
//! status of the last command and the focus, and the commands that change
//! it.
//!
//! The session reads no file, runs no query and draws nothing. A command
//! that needs such work is split in two: a decision that says what is to be
//! done, and a function that takes the outcome and puts it into the state.
//! `SessionView` gives every command as a function from state to state; the
//! methods of `Session` are proved to follow it.

use crate::cursor::lemma_cursor_shows_rows;
use crate::cursor::rectangular;
use crate::cursor::rows_have_width;
use crate::cursor::Cursor;
use crate::cursor::CursorView;
use crate::cursor::SourceHead;
use crate::cursor::SourceHeadView;
use crate::errors::QueryError;
use crate::errors::SaveError;
use crate::errors::SourceError;
use crate::keys::KeyCode;
use crate::keys::KeyEvent;
use crate::query::effective_query;
use crate::query::limited;
use crate::query::statement;
use crate::query::statement_of;
use crate::query::upper_case;
use crate::query::MAX_PREVIEW_ROWS;
use crate::status::ExecutionStatus;
use crate::status::FocusTarget;
use crate::status::StatusView;
use crate::table::caption_of_source;
use crate::table::last_visible;
use crate::table::last_visible_column;
use crate::table::source_caption;
use crate::table::TableCaption;
use crate::viewport::max_offset;
use crate::viewport::ViewportState;
use crate::window::WindowState;
use vstd::prelude::*;

verus! {

/// The rows that a query returned, with the names of their columns.
#[derive(Clone, Debug, PartialEq, Eq)]
pub struct OverlayState {
    pub header: Vec<String>,
    pub rows: Vec<Vec<String>>,
}

/// An `OverlayState` with its texts as sequences of characters.
pub struct OverlayView {
    pub header: Seq<Seq<char>>,
    pub rows: Seq<Seq<Seq<char>>>,
}

impl View for OverlayState {
    type V = OverlayView;

    open spec fn view(&self) -> OverlayView {
        OverlayView { header: self.header.deep_view(), rows: self.rows.deep_view() }
    }
}

impl OverlayView {
    /// What makes a query result fit for display: at least one row, and in
    /// every row one cell per column.
    pub open spec fn wf(self) -> bool {
        &&& self.rows.len() >= 1
        &&& rectangular(self.rows, self.header.len())
    }

    /// The number of rows of the result.
    pub open spec fn total_rows(self) -> nat {
        self.rows.len()
    }

    /// Column `j` of the result: cell `j` of every row.
    pub open spec fn column(self, j: int) -> Seq<Seq<char>> {
        Seq::new(self.rows.len(), |i: int| self.rows[i][j])
    }

    /// The result column by column, as it is written to a columnar file.
    pub open spec fn columns(self) -> Seq<Seq<Seq<char>>> {
        Seq::new(self.header.len(), |j: int| self.column(j))
    }
}

impl OverlayState {
    /// Returns the number of rows of the result.
    pub fn total_rows(&self) -> (count: usize)
        ensures
            count == self@.total_rows(),
    {
        self.rows.len()
    }

    /// Returns the result column by column, as it is written to a columnar
    /// file: one column per name of the header, and in each the cell of every
    /// row, all as text. Returns `None` where some row has more or fewer
    /// cells than the header has names.
    pub fn columns(&self) -> (columns: Option<Vec<Vec<String>>>)
        ensures
            columns is Some <==> rectangular(self@.rows, self@.header.len()),
            columns matches Some(found) ==> {
                &&& found.deep_view() == self@.columns()
                &&& found.len() == self@.header.len()
                &&& forall|j: int|
                    0 <= j < found.len() ==> (#[trigger] found.deep_view()[j]).len()
                        == self@.total_rows()
            },
    {
        let width: usize = self.header.len();
        let height: usize = self.rows.len();
        if !rows_have_width(&self.rows, width) {
            return None;
        }
        let mut columns: Vec<Vec<String>> = Vec::new();
        let mut j: usize = 0;
        while j < width
            invariant
                j <= width,
                rectangular(self@.rows, self@.header.len()),
                width == self.header.len(),
                height == self.rows.len(),
                columns.len() == j,
                forall|k: int|
                    0 <= k < j ==> (#[trigger] columns[k]).deep_view() == self@.column(k),
            decreases width - j,
        {
            let mut column: Vec<String> = Vec::new();
            let mut i: usize = 0;
            while i < height
                invariant
                    j < width,
                    i <= height,
                    rectangular(self@.rows, self@.header.len()),
                    width == self.header.len(),
                    height == self.rows.len(),
                    column.len() == i,
                    forall|m: int|
                        0 <= m < i ==> (#[trigger] column[m])@ == self@.rows[m][j as int],
                decreases height - i,
            {
                assert(self.rows.deep_view()[i as int].len() == width);
                column.push(self.rows[i][j].clone());
                i = i + 1;
            }
            assert(column.deep_view() =~= self@.column(j as int));
            columns.push(column);
            j = j + 1;
        }
        assert(columns.deep_view() =~= self@.columns());
        Some(columns)
    }
}

/// Work that a key press leaves to the caller.
#[derive(Clone, Copy, Debug, PartialEq, Eq)]
pub enum Action {
    /// End the program.
    Quit,
    /// Run the query of the editor: `begin_execute`, the engine, then
    /// `finish_execute`.
    ExecuteSql,
    /// Open the source again and hand its head to `reset`.
    ResetData,
    /// Read this batch of the source and hand it to `goto_batch`.
    LoadBatch(usize),
    /// Write what `save_results` gives to the file that the dialog names, and
    /// hand the outcome to `finish_save`.
    SaveResults,
    /// Pass the key to the text buffer of the query editor.
    EditQuery,
    /// Pass the key to the text buffer of the save dialog.
    EditFileName,
}

/// The status after a batch could not be loaded: what went wrong, behind a
/// fixed opening.
pub open spec fn load_failure(error: SourceError) -> StatusView {
    StatusView::Error("Error loading batch: "@ + error.spec_message())
}

/// The status after a reset failed: what went wrong, behind a fixed opening.
pub open spec fn reset_failure(error: SourceError) -> StatusView {
    StatusView::Error("Error resetting: "@ + error.spec_message())
}

/// The status after an export failed: what went wrong, behind a fixed
/// opening.
pub open spec fn save_failure(error: SaveError) -> StatusView {
    StatusView::Error("Save error: "@ + error.spec_message())
}

/// The status after a query whose rows do not fit its columns.
pub open spec fn ragged_result() -> StatusView {
    StatusView::Error("Execution: Result rows do not match the result columns"@)
}

/// The state of a session, as mathematical values.
pub struct SessionView {
    /// The source: its schema, the batch on display and the window.
    pub cursor: CursorView,
    /// The query result that lies over the source, if there is one.
    pub overlay: Option<OverlayView>,
    /// Column offset and selected row of whatever is on display.
    pub viewport: ViewportState,
    /// Where the last command stands.
    pub status: StatusView,
    /// Where key input goes.
    pub focus: FocusTarget,
}

impl SessionView {
    /// Whether a query result is on display.
    pub open spec fn is_filtered(self) -> bool {
        self.overlay is Some
    }

    /// The column names on display.
    pub open spec fn header(self) -> Seq<Seq<char>> {
        match self.overlay {
            Some(overlay) => overlay.header,
            None => self.cursor.header,
        }
    }

    /// The rows on display.
    pub open spec fn rows(self) -> Seq<Seq<Seq<char>>> {
        match self.overlay {
            Some(overlay) => overlay.rows,
            None => self.cursor.rows,
        }
    }

    /// The number of columns on display.
    pub open spec fn total_columns(self) -> nat {
        self.header().len()
    }

    /// The number of rows in all: of the query result, or of the source.
    pub open spec fn total_rows(self) -> nat {
        match self.overlay {
            Some(overlay) => overlay.total_rows(),
            None => self.cursor.window.total_rows as nat,
        }
    }

    /// The number of batches: one for a query result, which is not paged.
    pub open spec fn total_batches(self) -> nat {
        if self.is_filtered() {
            1
        } else {
            self.cursor.window.total_batches as nat
        }
    }

    /// The batch on display: the only one of a query result.
    pub open spec fn batch_index(self) -> nat {
        if self.is_filtered() {
            0
        } else {
            self.cursor.window.batch_index as nat
        }
    }

    /// The invariant of a session: a valid cursor, a query result that is
    /// fit for display, and a viewport inside what is on display.
    pub open spec fn wf(self) -> bool {
        &&& self.cursor.wf()
        &&& match self.overlay {
            Some(overlay) => overlay.wf(),
            None => true,
        }
        &&& self.viewport.column_offset <= max_offset(self.total_columns())
        &&& self.viewport.selected_row < self.rows().len()
    }

    /// The session right after the source was opened.
    pub open spec fn opened(batch_size: usize, head: SourceHeadView) -> SessionView {
        SessionView {
            cursor: head.opened(batch_size),
            overlay: None,
            viewport: ViewportState::initial(),
            status: StatusView::Idle,
            focus: FocusTarget::QueryInput,
        }
    }

    /// This session with another status.
    pub open spec fn with_status(self, status: StatusView) -> SessionView {
        SessionView { status, ..self }
    }

    /// This session with the focus elsewhere.
    pub open spec fn with_focus(self, focus: FocusTarget) -> SessionView {
        SessionView { focus, ..self }
    }

    /// This session with another viewport.
    pub open spec fn with_viewport(self, viewport: ViewportState) -> SessionView {
        SessionView { viewport, ..self }
    }

    /// After a scroll by one column to the left.
    pub open spec fn scrolled_left(self) -> SessionView {
        self.with_viewport(self.viewport.scrolled_left())
    }

    /// After a scroll by one column to the right.
    pub open spec fn scrolled_right(self) -> SessionView {
        self.with_viewport(self.viewport.scrolled_right(self.total_columns()))
    }

    /// After the selection has moved up by one row.
    pub open spec fn selected_previous(self) -> SessionView {
        self.with_viewport(self.viewport.moved_up())
    }

    /// After the selection has moved down by one row.
    pub open spec fn selected_next(self) -> SessionView {
        self.with_viewport(self.viewport.moved_down(self.rows().len()))
    }

    /// After the focus key: the editor and the table swap, unless the save
    /// dialog is open.
    pub open spec fn focus_toggled(self) -> SessionView {
        self.with_focus(self.focus.toggled())
    }

    /// The batch that a step forward is to load: none on the last batch, and
    /// none while a query result is on display.
    pub open spec fn next_batch(self) -> Option<usize> {
        if self.is_filtered() {
            None
        } else {
            self.cursor.window.spec_next_index()
        }
    }

    /// The batch that a step back is to load: none on the first batch, and
    /// none while a query result is on display.
    pub open spec fn previous_batch(self) -> Option<usize> {
        if self.is_filtered() {
            None
        } else {
            self.cursor.window.spec_previous_index()
        }
    }

    /// After batch `n` was read and gave `rows`. While a query result is on
    /// display nothing changes. Rows that can be batch `n` go on display,
    /// with the viewport back at the first column and row; others leave an
    /// error in the status and the rows as they were.
    pub open spec fn batch_loaded(self, n: usize, rows: Seq<Seq<Seq<char>>>) -> SessionView {
        if self.is_filtered() {
            self
        } else if self.cursor.accepts(n, rows) {
            SessionView {
                cursor: self.cursor.moved_to(n, rows),
                viewport: ViewportState::initial(),
                ..self
            }
        } else {
            self.with_status(load_failure(SourceError::Malformed))
        }
    }

    /// After a batch could not be read.
    pub open spec fn batch_failed(self, error: SourceError) -> SessionView {
        if self.is_filtered() {
            self
        } else {
            self.with_status(load_failure(error))
        }
    }

    /// After the command to run the query in `lines`, with the query that the
    /// engine is to be given. While a query is running the command is
    /// ignored. An empty statement is an error and nothing is run.
    pub open spec fn execute_begun(self, lines: Seq<Seq<char>>) -> (SessionView, Option<Seq<char>>) {
        let sql = statement(lines);
        if self.status is Executing {
            (self, None)
        } else if sql.len() == 0 {
            (self.with_status(StatusView::Error("SQL query is empty"@)), None)
        } else {
            (self.with_status(StatusView::Executing), Some(limited(sql, upper_case(sql))))
        }
    }

    /// After the engine returned `result`. Where no query was running
    /// nothing changes. A result without rows leaves a notice and the display
    /// as it was; so does one whose rows do not fit its columns, with an
    /// error. Any other result goes on display as a whole.
    pub open spec fn query_returned(self, result: OverlayView) -> SessionView {
        if !(self.status is Executing) {
            self
        } else if result.rows.len() == 0 {
            self.with_status(StatusView::NoResults)
        } else if !rectangular(result.rows, result.header.len()) {
            self.with_status(ragged_result())
        } else {
            SessionView {
                overlay: Some(result),
                viewport: ViewportState::initial(),
                status: StatusView::Success,
                ..self
            }
        }
    }

    /// After the engine failed with `error`. Where no query was running
    /// nothing changes; else the error goes into the status and the display
    /// stays as it was.
    pub open spec fn query_failed(self, error: QueryError) -> SessionView {
        if !(self.status is Executing) {
            self
        } else {
            self.with_status(StatusView::Error(error.spec_message()))
        }
    }

    /// After the source was opened again and gave `head`: the session that
    /// opening it the first time would give, but for the focus.
    pub open spec fn reloaded(self, head: SourceHeadView) -> SessionView {
        SessionView {
            focus: self.focus,
            ..SessionView::opened(self.cursor.window.batch_size, head)
        }
    }

    /// After the attempt to open the source again: the head is taken if a
    /// cursor can be opened on it; else the error goes into the status and
    /// the display stays as it was.
    pub open spec fn reset(self, outcome: Result<SourceHeadView, SourceError>) -> SessionView {
        match outcome {
            Ok(head) => match head.fault(self.cursor.window.batch_size) {
                None => self.reloaded(head),
                Some(error) => self.with_status(reset_failure(error)),
            },
            Err(error) => self.with_status(reset_failure(error)),
        }
    }

    /// After the command to save: the dialog opens if a query result is on
    /// display; else the status says that there is nothing to save, and the
    /// focus stays.
    pub open spec fn save_requested(self) -> SessionView {
        if self.is_filtered() {
            self.with_focus(FocusTarget::SaveDialog)
        } else {
            self.with_status(StatusView::Error("Execute a query first before saving"@))
        }
    }

    /// After the export ended with `outcome`: the dialog is closed and the
    /// focus is back in the editor.
    pub open spec fn save_finished(self, outcome: Result<(), SaveError>) -> SessionView {
        SessionView {
            status: match outcome {
                Ok(_) => StatusView::Success,
                Err(error) => save_failure(error),
            },
            focus: FocusTarget::QueryInput,
            ..self
        }
    }

    /// After the dialog was closed without an export.
    pub open spec fn save_cancelled(self) -> SessionView {
        self.with_focus(FocusTarget::QueryInput)
    }

    /// After a key press that is none of the global keys, while the table
    /// has the focus.
    pub open spec fn table_key_handled(self, code: KeyCode) -> (SessionView, Option<Action>) {
        match code {
            KeyCode::Up => (self.selected_previous(), None),
            KeyCode::Down => (self.selected_next(), None),
            KeyCode::PageDown => (
                self,
                match self.next_batch() {
                    Some(n) => Some(Action::LoadBatch(n)),
                    None => None,
                },
            ),
            KeyCode::PageUp => (
                self,
                match self.previous_batch() {
                    Some(n) => Some(Action::LoadBatch(n)),
                    None => None,
                },
            ),
            KeyCode::Left => (self.scrolled_left(), None),
            KeyCode::Right => (self.scrolled_right(), None),
            _ => (self, None),
        }
    }

    /// After a key press, with the work that it leaves to the caller. The
    /// global keys come first, whatever has the focus: quit, focus, execute,
    /// reset, save. Every other key goes to what has the focus.
    pub open spec fn key_handled(self, key: KeyEvent) -> (SessionView, Option<Action>) {
        if key.is_quit() {
            (self, Some(Action::Quit))
        } else if key.is_focus_toggle() {
            (self.focus_toggled(), None)
        } else if key.is_ctrl('e') {
            (self, Some(Action::ExecuteSql))
        } else if key.is_ctrl('r') {
            (self, Some(Action::ResetData))
        } else if key.is_ctrl('s') {
            (self.save_requested(), None)
        } else {
            match self.focus {
                FocusTarget::QueryInput => (self, Some(Action::EditQuery)),
                FocusTarget::DataPane => self.table_key_handled(key.code),
                FocusTarget::SaveDialog => match key.code {
                    KeyCode::Enter => (self, Some(Action::SaveResults)),
                    _ => (self, Some(Action::EditFileName)),
                },
            }
        }
    }

    /// The line that tells the user where the last command stands.
    pub open spec fn status_text(self) -> Seq<char> {
        match self.status {
            StatusView::Idle => if self.is_filtered() {
                "✓ Showing SQL query results"@
            } else {
                "Ready (Ctrl+E to execute SQL)"@
            },
            StatusView::Executing => "⏳ Executing SQL query... Please wait"@,
            StatusView::Success => "✓ Query executed successfully"@,
            StatusView::NoResults => "Query returned no results"@,
            StatusView::Error(text) => "❌ "@ + text,
        }
    }

    /// What the title of the table reports.
    pub open spec fn caption(self) -> TableCaption {
        match self.overlay {
            Some(overlay) => TableCaption::Results {
                first_column: self.viewport.column_offset,
                last_column: last_visible(self.viewport, self.total_columns()),
                total_columns: self.total_columns() as usize,
                total_rows: overlay.total_rows() as usize,
                limited: overlay.total_rows() >= MAX_PREVIEW_ROWS,
            },
            None => source_caption(self.cursor, self.viewport),
        }
    }
}

/// The state of an editing session.
#[derive(Clone, Debug, PartialEq, Eq)]
pub struct Session {
    cursor: Cursor,
    overlay: Option<OverlayState>,
    viewport: ViewportState,
    status: ExecutionStatus,
    focus: FocusTarget,
}

impl View for Session {
    type V = SessionView;

    closed spec fn view(&self) -> SessionView {
        SessionView {
            cursor: self.cursor@,
            overlay: match self.overlay {
                Some(overlay) => Some(overlay@),
                None => None,
            },
            viewport: self.viewport,
            status: self.status@,
            focus: self.focus,
        }
    }
}

/// Puts `prefix` in front of `text`.
fn prefixed(prefix: &str, text: String) -> (message: String)
    ensures
        message@ == prefix@ + text@,
{
    String::from_str(prefix).concat(text.as_str())
}

impl Session {
    /// Starts a session on a source that is read in batches of `batch_size`
    /// rows and whose head is `head`: first batch on display, no query
    /// result, status `Idle`, focus in the editor. Fails where no cursor can
    /// be opened on the head.
    pub fn new(batch_size: usize, head: SourceHead) -> (opened: Result<Session, SourceError>)
        requires
            batch_size >= 1,
        ensures
            match opened {
                Ok(session) => head@.fault(batch_size) is None && session@ == SessionView::opened(
                    batch_size,
                    head@,
                ) && session@.wf(),
                Err(error) => head@.fault(batch_size) == Some(error),
            },
    {
        match Cursor::open(batch_size, head) {
            Ok(cursor) => {
                proof {
                    lemma_cursor_shows_rows(cursor@);
                }
                Ok(
                    Session {
                        cursor,
                        overlay: None,
                        viewport: ViewportState::new(),
                        status: ExecutionStatus::Idle,
                        focus: FocusTarget::QueryInput,
                    },
                )
            },
            Err(error) => Err(error),
        }
    }

    /// Tells whether a query result is on display.
    pub fn is_filtered(&self) -> (filtered: bool)
        ensures
            filtered == self@.is_filtered(),
    {
        self.overlay.is_some()
    }

    /// Returns the column names on display.
    pub fn header(&self) -> (header: &Vec<String>)
        ensures
            header.deep_view() == self@.header(),
    {
        match &self.overlay {
            Some(overlay) => &overlay.header,
            None => self.cursor.header(),
        }
    }

    /// Returns the rows on display.
    pub fn current_rows(&self) -> (rows: &Vec<Vec<String>>)
        ensures
            rows.deep_view() == self@.rows(),
    {
        match &self.overlay {
            Some(overlay) => &overlay.rows,
            None => self.cursor.current_rows(),
        }
    }

    /// Returns the number of columns on display.
    pub fn total_columns(&self) -> (count: usize)
        ensures
            count == self@.total_columns(),
    {
        self.header().len()
    }

    /// Returns the number of rows in all: of the query result, or of the
    /// source.
    pub fn total_rows(&self) -> (count: usize)
        ensures
            count == self@.total_rows(),
    {
        match &self.overlay {
            Some(overlay) => overlay.total_rows(),
            None => self.cursor.window().total_rows,
        }
    }

    /// Returns the number of batches: one while a query result is on display.
    pub fn total_batches(&self) -> (count: usize)
        ensures
            count == self@.total_batches(),
    {
        if self.overlay.is_some() {
            1
        } else {
            self.cursor.window().total_batches
        }
    }

    /// Returns the batch on display: zero while a query result is on display.
    pub fn batch_index(&self) -> (index: usize)
        ensures
            index == self@.batch_index(),
    {
        if self.overlay.is_some() {
            0
        } else {
            self.cursor.window().batch_index
        }
    }

    /// Returns the number of rows in a batch of the source.
    pub fn batch_size(&self) -> (size: usize)
        ensures
            size == self@.cursor.window.batch_size,
    {
        self.cursor.window().batch_size
    }

    /// Returns the window of the source, which a query result leaves as it
    /// is.
    pub fn window(&self) -> (window: WindowState)
        ensures
            window == self@.cursor.window,
    {
        self.cursor.window()
    }

    /// Returns where the last command stands.
    pub fn status(&self) -> (status: &ExecutionStatus)
        ensures
            status@ == self@.status,
    {
        &self.status
    }

    /// Returns where key input goes.
    pub fn focus(&self) -> (focus: FocusTarget)
        ensures
            focus == self@.focus,
    {
        self.focus
    }

    /// Returns column offset and selected row.
    pub fn viewport(&self) -> (viewport: ViewportState)
        ensures
            viewport == self@.viewport,
    {
        self.viewport
    }

    /// Returns the index of the leftmost visible column.
    pub fn column_offset(&self) -> (offset: usize)
        ensures
            offset == self@.viewport.column_offset,
    {
        self.viewport.column_offset
    }

    /// Returns the index of the selected row among the rows on display.
    pub fn selected_row(&self) -> (row: usize)
        ensures
            row == self@.viewport.selected_row,
    {
        self.viewport.selected_row
    }

    /// Returns the range of visible columns, as the first index and one past
    /// the last.
    pub fn visible_columns(&self) -> (range: (usize, usize))
        requires
            self@.wf(),
        ensures
            range.0 == self@.viewport.first_visible(),
            range.1 == self@.viewport.end_visible(self@.total_columns()),
            range.0 <= range.1 <= self@.total_columns(),
    {
        self.viewport.visible_columns(self.total_columns())
    }

    /// Scrolls one column to the left; at the first column nothing changes.
    pub fn scroll_left(&mut self)
        requires
            old(self)@.wf(),
        ensures
            final(self)@ == old(self)@.scrolled_left(),
            final(self)@.wf(),
            old(self)@.viewport.column_offset == 0 ==> final(self)@ == old(self)@,
    {
        self.viewport.scroll_left();
    }

    /// Scrolls one column to the right; once the last column is visible
    /// nothing changes.
    pub fn scroll_right(&mut self)
        requires
            old(self)@.wf(),
        ensures
            final(self)@ == old(self)@.scrolled_right(),
            final(self)@.wf(),
            old(self)@.viewport.column_offset == max_offset(old(self)@.total_columns())
                ==> final(self)@ == old(self)@,
    {
        let total: usize = self.total_columns();
        self.viewport.scroll_right(total);
    }

    /// Moves the selection up by one row; on the first row nothing changes.
    pub fn select_previous(&mut self)
        requires
            old(self)@.wf(),
        ensures
            final(self)@ == old(self)@.selected_previous(),
            final(self)@.wf(),
    {
        self.viewport.select_previous();
    }

    /// Moves the selection down by one row; on the last row nothing changes.
    pub fn select_next(&mut self)
        requires
            old(self)@.wf(),
        ensures
            final(self)@ == old(self)@.selected_next(),
            final(self)@.wf(),
    {
        let count: usize = self.current_rows().len();
        self.viewport.select_next(count);
    }

    /// Moves the focus between the editor and the table, unless the save
    /// dialog is open.
    pub fn toggle_focus(&mut self)
        ensures
            final(self)@ == old(self)@.focus_toggled(),
            old(self)@.wf() ==> final(self)@.wf(),
    {
        self.focus = match self.focus {
            FocusTarget::QueryInput => FocusTarget::DataPane,
            FocusTarget::DataPane => FocusTarget::QueryInput,
            FocusTarget::SaveDialog => FocusTarget::SaveDialog,
        };
    }

    /// Returns the batch that a step forward is to load, or `None` where the
    /// step is a no-op: on the last batch, and while a query result is on
    /// display.
    pub fn next_batch(&self) -> (request: Option<usize>)
        ensures
            request == self@.next_batch(),
            request matches Some(n) ==> n < self@.cursor.window.total_batches,
    {
        if self.overlay.is_some() {
            None
        } else {
            self.cursor.next_batch()
        }
    }

    /// Returns the batch that a step back is to load, or `None` where the
    /// step is a no-op: on the first batch, and while a query result is on
    /// display.
    pub fn previous_batch(&self) -> (request: Option<usize>)
        ensures
            request == self@.previous_batch(),
            self@.wf() ==> (request matches Some(n) ==> n < self@.cursor.window.total_batches),
    {
        if self.overlay.is_some() {
            None
        } else {
            self.cursor.previous_batch()
        }
    }

    /// Takes the outcome of reading batch `n`: its rows, or the reason why it
    /// could not be read.
    pub fn goto_batch(&mut self, n: usize, loaded: Result<Vec<Vec<String>>, SourceError>)
        requires
            old(self)@.wf(),
        ensures
            final(self)@.wf(),
            final(self)@ == match loaded {
                Ok(rows) => old(self)@.batch_loaded(n, rows.deep_view()),
                Err(error) => old(self)@.batch_failed(error),
            },
    {
        if self.overlay.is_some() {
            return ;
        }
        match loaded {
            Ok(rows) => {
                match self.cursor.goto_batch(n, rows) {
                    Ok(_) => {
                        proof {
                            lemma_cursor_shows_rows(self.cursor@);
                        }
                        self.viewport = ViewportState::new();
                    },
                    Err(error) => {
                        self.status = ExecutionStatus::Error(
                            prefixed("Error loading batch: ", error.message()),
                        );
                    },
                }
            },
            Err(error) => {
                self.status = ExecutionStatus::Error(
                    prefixed("Error loading batch: ", error.message()),
                );
            },
        }
    }

    /// Takes the command to run the query that the editor holds in `lines`,
    /// and returns the query that the engine is to be given. Returns `None`
    /// where nothing is to be run: while a query is running, and for an
    /// empty statement.
    pub fn begin_execute(&mut self, lines: &Vec<String>) -> (query: Option<String>)
        requires
            old(self)@.wf(),
        ensures
            final(self)@.wf(),
            final(self)@ == old(self)@.execute_begun(lines.deep_view()).0,
            match query {
                Some(text) => old(self)@.execute_begun(lines.deep_view()).1 == Some(text@),
                None => old(self)@.execute_begun(lines.deep_view()).1 is None,
            },
    {
        if self.status.is_executing() {
            return None;
        }
        let sql = statement_of(lines);
        if sql.as_str().is_empty() {
            self.status = ExecutionStatus::Error(String::from_str("SQL query is empty"));
            return None;
        }
        self.status = ExecutionStatus::Executing;
        Some(effective_query(sql.as_str()))
    }

    /// Takes what the engine returned for the running query: its rows, or
    /// its error. Where no query is running the outcome is dropped.
    pub fn finish_execute(&mut self, outcome: Result<OverlayState, QueryError>)
        requires
            old(self)@.wf(),
        ensures
            final(self)@.wf(),
            final(self)@ == match outcome {
                Ok(result) => old(self)@.query_returned(result@),
                Err(error) => old(self)@.query_failed(error),
            },
    {
        match outcome {
            Ok(result) => self.update_with_results(result),
            Err(error) => {
                if self.status.is_executing() {
                    self.status = ExecutionStatus::Error(error.message());
                }
            },
        }
    }

    /// Puts the rows that the running query returned on display, if there
    /// are any and they fit their columns: the result replaces whatever was
    /// on display, the viewport starts anew, and the status is `Success`. A
    /// result without rows leaves the notice `NoResults`, one with rows that
    /// do not fit an error; both leave the display as it was. Where no query
    /// is running the result is dropped.
    pub fn update_with_results(&mut self, result: OverlayState)
        requires
            old(self)@.wf(),
        ensures
            final(self)@.wf(),
            final(self)@ == old(self)@.query_returned(result@),
    {
        if !self.status.is_executing() {
            return ;
        }
        if result.rows.len() == 0 {
            self.status = ExecutionStatus::NoResults;
        } else if !rows_have_width(&result.rows, result.header.len()) {
            self.status = ExecutionStatus::Error(
                String::from_str("Execution: Result rows do not match the result columns"),
            );
        } else {
            self.overlay = Some(result);
            self.viewport = ViewportState::new();
            self.status = ExecutionStatus::Success;
        }
    }

    /// Takes the outcome of opening the source again, and tells whether the
    /// session was reset. After a reset the first batch of the source is on
    /// display, no query result is left, and the status is `Idle`.
    pub fn reset(&mut self, outcome: Result<SourceHead, SourceError>) -> (done: bool)
        requires
            old(self)@.wf(),
        ensures
            final(self)@.wf(),
            final(self)@ == old(self)@.reset(
                match outcome {
                    Ok(head) => Ok(head@),
                    Err(error) => Err(error),
                },
            ),
            done <==> (outcome matches Ok(head) && head@.fault(
                old(self)@.cursor.window.batch_size,
            ) is None),
            done ==> final(self)@.batch_index() == 0,
            done ==> !final(self)@.is_filtered(),
            done ==> final(self)@.status is Idle,
    {
        let batch_size: usize = self.cursor.window().batch_size;
        let opened = match outcome {
            Ok(head) => Cursor::open(batch_size, head),
            Err(error) => Err(error),
        };
        match opened {
            Ok(cursor) => {
                proof {
                    lemma_cursor_shows_rows(cursor@);
                }
                self.cursor = cursor;
                self.overlay = None;
                self.viewport = ViewportState::new();
                self.status = ExecutionStatus::Idle;
                true
            },
            Err(error) => {
                self.status = ExecutionStatus::Error(
                    prefixed("Error resetting: ", error.message()),
                );
                false
            },
        }
    }

    /// Takes the command to save: opens the dialog if a query result is on
    /// display; else leaves an error in the status and the focus where it is.
    pub fn request_save(&mut self)
        ensures
            final(self)@ == old(self)@.save_requested(),
            old(self)@.wf() ==> final(self)@.wf(),
    {
        if self.overlay.is_some() {
            self.focus = FocusTarget::SaveDialog;
        } else {
            self.status = ExecutionStatus::Error(
                String::from_str("Execute a query first before saving"),
            );
        }
    }

    /// Returns what is to be exported: the query result on display, as a
    /// whole. Fails with `NoOverlay` where none is on display: the rows of
    /// the source themselves are never exported.
    pub fn save_results(&self) -> (export: Result<&OverlayState, SaveError>)
        ensures
            match export {
                Ok(overlay) => self@.overlay == Some(overlay@),
                Err(error) => self@.overlay is None && error == SaveError::NoOverlay,
            },
            export is Ok <==> self@.is_filtered(),
            export matches Ok(overlay) ==> overlay@.rows.len() == self@.total_rows(),
            export matches Ok(overlay) ==> (self@.wf() ==> overlay@.wf()),
    {
        match &self.overlay {
            Some(overlay) => Ok(overlay),
            None => Err(SaveError::NoOverlay),
        }
    }

    /// Takes the outcome of the export, closes the dialog and gives the focus
    /// back to the editor.
    pub fn finish_save(&mut self, outcome: Result<(), SaveError>)
        ensures
            final(self)@ == old(self)@.save_finished(outcome),
            old(self)@.wf() ==> final(self)@.wf(),
    {
        self.status = match outcome {
            Ok(_) => ExecutionStatus::Success,
            Err(error) => ExecutionStatus::Error(prefixed("Save error: ", error.message())),
        };
        self.focus = FocusTarget::QueryInput;
    }

    /// Closes the dialog without an export and gives the focus back to the
    /// editor. No key is bound to this: Escape, the natural choice, ends the
    /// program before the dialog sees it.
    pub fn cancel_save(&mut self)
        ensures
            final(self)@ == old(self)@.save_cancelled(),
            old(self)@.wf() ==> final(self)@.wf(),
    {
        self.focus = FocusTarget::QueryInput;
    }

    /// Takes a key press and returns the work that it leaves to the caller,
    /// if any. The global keys are looked at first, then the key goes to
    /// what has the focus.
    pub fn handle_key_event(&mut self, key: KeyEvent) -> (action: Option<Action>)
        requires
            old(self)@.wf(),
        ensures
            final(self)@.wf(),
            final(self)@ == old(self)@.key_handled(key).0,
            action == old(self)@.key_handled(key).1,
    {
        if key.quits() {
            return Some(Action::Quit);
        }
        if key.toggles_focus() {
            self.toggle_focus();
            return None;
        }
        if key.ctrl_char('e') {
            return Some(Action::ExecuteSql);
        }
        if key.ctrl_char('r') {
            return Some(Action::ResetData);
        }
        if key.ctrl_char('s') {
            self.request_save();
            return None;
        }
        match self.focus {
            FocusTarget::QueryInput => Some(Action::EditQuery),
            FocusTarget::DataPane => match key.code {
                KeyCode::Up => {
                    self.select_previous();
                    None
                },
                KeyCode::Down => {
                    self.select_next();
                    None
                },
                KeyCode::PageDown => match self.next_batch() {
                    Some(n) => Some(Action::LoadBatch(n)),
                    None => None,
                },
                KeyCode::PageUp => match self.previous_batch() {
                    Some(n) => Some(Action::LoadBatch(n)),
                    None => None,
                },
                KeyCode::Left => {
                    self.scroll_left();
                    None
                },
                KeyCode::Right => {
                    self.scroll_right();
                    None
                },
                _ => None,
            },
            FocusTarget::SaveDialog => match key.code {
                KeyCode::Enter => Some(Action::SaveResults),
                _ => Some(Action::EditFileName),
            },
        }
    }

    /// Returns the line that tells the user where the last command stands.
    pub fn status_text(&self) -> (text: String)
        ensures
            text@ == self@.status_text(),
    {
        match &self.status {
            ExecutionStatus::Idle => if self.overlay.is_some() {
                String::from_str("✓ Showing SQL query results")
            } else {
                String::from_str("Ready (Ctrl+E to execute SQL)")
            },
            ExecutionStatus::Executing => String::from_str("⏳ Executing SQL query... Please wait"),
            ExecutionStatus::Success => String::from_str("✓ Query executed successfully"),
            ExecutionStatus::NoResults => String::from_str("Query returned no results"),
            ExecutionStatus::Error(text) => String::from_str("❌ ").concat(text.as_str()),
        }
    }

    /// Returns what the title of the table reports: the visible columns, and
    /// either the size of the query result or the rows and the number of the
    /// batch on display.
    pub fn caption(&self) -> (caption: TableCaption)
        requires
            self@.wf(),
        ensures
            caption == self@.caption(),
            caption.fits(self@.total_columns(), self@.rows().len()),
    {
        match &self.overlay {
            Some(overlay) => {
                let total_columns: usize = overlay.header.len();
                let total_rows: usize = overlay.total_rows();
                TableCaption::Results {
                    first_column: self.viewport.column_offset,
                    last_column: last_visible_column(&self.viewport, total_columns),
                    total_columns,
                    total_rows,
                    limited: total_rows >= MAX_PREVIEW_ROWS,
                }
            },
            None => caption_of_source(&self.cursor, &self.viewport),
        }
    }
}

} // verus!
