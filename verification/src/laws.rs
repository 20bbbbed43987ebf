//! What holds of every editing session: the laws that tie its commands
//! together, each proved from the definitions in `sql_editor`.

use crate::cursor::lemma_cursor_shows_rows;
use crate::cursor::lemma_opened_cursor_is_valid;
use crate::cursor::SourceHeadView;
use crate::errors::QueryError;
use crate::errors::SaveError;
use crate::errors::SourceError;
use crate::keys::KeyCode;
use crate::keys::KeyEvent;
use crate::query::statement;
use crate::sql_editor::Action;
use crate::sql_editor::OverlayView;
use crate::sql_editor::SessionView;
use crate::status::FocusTarget;
use crate::status::StatusView;
use crate::viewport::max_offset;
use crate::viewport::ViewportState;
use crate::window::ceil_div;
use crate::window::lemma_ceil_div_is_ceiling;
use vstd::prelude::*;

verus! {

/// While the rows of the source are on display, the number of batches is the
/// number of rows divided by the batch size, rounded up, and the batch on
/// display is one of them; over a query result there is one batch, the first.
pub proof fn lemma_batch_count_is_the_ceiling(session: SessionView)
    requires
        session.wf(),
    ensures
        !session.is_filtered() ==> session.total_batches() == ceil_div(
            session.total_rows(),
            session.cursor.window.batch_size as nat,
        ),
        session.is_filtered() ==> session.total_batches() == 1,
        session.batch_index() < session.total_batches(),
        session.total_batches() * session.cursor.window.batch_size >= session.total_rows()
            || session.is_filtered(),
{
    lemma_ceil_div_is_ceiling(
        session.cursor.window.total_rows as nat,
        session.cursor.window.batch_size as nat,
    );
}

/// On the last batch a step forward is a no-op: no batch is asked for, and
/// the key that steps forward leaves the session as it is.
pub proof fn lemma_next_on_last_batch_is_noop(session: SessionView)
    requires
        session.wf(),
        session.batch_index() + 1 == session.total_batches(),
    ensures
        session.next_batch() is None,
        session.table_key_handled(KeyCode::PageDown) == (session, None::<Action>),
        session.focus == FocusTarget::DataPane ==> session.key_handled(
            KeyEvent { code: KeyCode::PageDown, ctrl: false },
        ) == (session, None::<Action>),
{
}

/// On the first batch a step back is a no-op in the same way.
pub proof fn lemma_previous_on_first_batch_is_noop(session: SessionView)
    requires
        session.wf(),
        session.batch_index() == 0,
    ensures
        session.previous_batch() is None,
        session.table_key_handled(KeyCode::PageUp) == (session, None::<Action>),
{
}

/// Going to the last batch and then stepping forward ends where going to the
/// last batch ended.
pub proof fn lemma_goto_last_then_next(session: SessionView, rows: Seq<Seq<Seq<char>>>)
    requires
        session.wf(),
        !session.is_filtered(),
        session.cursor.accepts((session.cursor.window.total_batches - 1) as usize, rows),
    ensures
        ({
            let last = session.batch_loaded(
                (session.cursor.window.total_batches - 1) as usize,
                rows,
            );
            &&& last.wf()
            &&& last.batch_index() + 1 == last.total_batches()
            &&& last.next_batch() is None
            &&& last.table_key_handled(KeyCode::PageDown) == (last, None::<Action>)
        }),
{
    let n = (session.cursor.window.total_batches - 1) as usize;
    lemma_cursor_shows_rows(session.cursor.moved_to(n, rows));
}

/// A round trip brings back what was on display: from any batch, going to
/// batch `n` and back with the rows that the first batch had gives the
/// session that was there, with the viewport at its start.
pub proof fn lemma_round_trip(session: SessionView, n: usize, rows: Seq<Seq<Seq<char>>>)
    requires
        session.wf(),
        !session.is_filtered(),
        session.cursor.accepts(n, rows),
    ensures
        session.batch_loaded(n, rows).batch_loaded(
            session.cursor.window.batch_index,
            session.cursor.rows,
        ) == session.with_viewport(ViewportState::initial()),
{
    let away = session.batch_loaded(n, rows);
    assert(away.cursor.accepts(session.cursor.window.batch_index, session.cursor.rows));
}

/// Going from the first batch to batch `n` and back to batch zero gives
/// exactly the session that opening the source gave.
pub proof fn lemma_round_trip_from_start(
    batch_size: usize,
    head: SourceHeadView,
    n: usize,
    rows: Seq<Seq<Seq<char>>>,
)
    requires
        batch_size >= 1,
        head.fault(batch_size) is None,
        head.opened(batch_size).accepts(n, rows),
    ensures
        SessionView::opened(batch_size, head).batch_loaded(n, rows).batch_loaded(
            0,
            head.first_batch->0,
        ) == SessionView::opened(batch_size, head),
{
    let start = SessionView::opened(batch_size, head);
    lemma_opened_cursor_is_valid(batch_size, head);
    lemma_round_trip(start, n, rows);
}

/// A query that returns no rows changes nothing but the status, and the
/// status it leaves is not `Success`. The same holds of a query that fails.
pub proof fn lemma_empty_result_keeps_the_view(
    session: SessionView,
    result: OverlayView,
    error: QueryError,
)
    requires
        result.rows.len() == 0,
    ensures
        session.query_returned(result) == session.with_status(session.query_returned(result).status),
        session.query_returned(result).status is Success ==> session.status is Success,
        session.status is Executing ==> session.query_returned(result).status is NoResults,
        session.query_failed(error) == session.with_status(session.query_failed(error).status),
        session.status is Executing ==> session.query_failed(error).status is Error,
{
}

/// Running queries never touches the source: whatever a query returns, the
/// cursor and the focus stay.
pub proof fn lemma_execute_keeps_the_source(
    session: SessionView,
    lines: Seq<Seq<char>>,
    result: OverlayView,
    error: QueryError,
)
    ensures
        session.execute_begun(lines).0.cursor == session.cursor,
        session.execute_begun(lines).0.focus == session.focus,
        session.query_returned(result).cursor == session.cursor,
        session.query_returned(result).focus == session.focus,
        session.query_failed(error).cursor == session.cursor,
        session.query_failed(error).focus == session.focus,
{
}

/// A reset forgets what came before: two sessions on sources with the same
/// batch size become the same session but for the focus, whatever query
/// result, status or viewport either had; the first batch is on display, no
/// query result is left, and the status is `Idle`.
pub proof fn lemma_reset_forgets_the_past(a: SessionView, b: SessionView, head: SourceHeadView)
    requires
        a.cursor.window.batch_size == b.cursor.window.batch_size,
        a.cursor.window.batch_size >= 1,
        head.fault(a.cursor.window.batch_size) is None,
    ensures
        a.reset(Ok(head)).with_focus(b.focus) == b.reset(Ok(head)),
        a.reset(Ok(head)).batch_index() == 0,
        !a.reset(Ok(head)).is_filtered(),
        a.reset(Ok(head)).status is Idle,
        a.reset(Ok(head)).viewport == ViewportState::initial(),
        a.reset(Ok(head)).cursor == head.opened(a.cursor.window.batch_size),
{
}

/// At the right edge a scroll to the right changes nothing, and at the first
/// column a scroll to the left changes nothing.
pub proof fn lemma_scroll_is_idempotent_at_the_edges(session: SessionView)
    requires
        session.wf(),
    ensures
        session.viewport.column_offset == max_offset(session.total_columns())
            ==> session.scrolled_right() == session,
        session.viewport.column_offset == 0 ==> session.scrolled_left() == session,
        session.scrolled_right().scrolled_right().viewport.column_offset <= max_offset(
            session.total_columns(),
        ),
{
}

/// Every command keeps the invariant of the session.
pub proof fn lemma_commands_keep_the_invariant(
    session: SessionView,
    key: KeyEvent,
    n: usize,
    rows: Seq<Seq<Seq<char>>>,
    lines: Seq<Seq<char>>,
    result: OverlayView,
    head: Result<SourceHeadView, SourceError>,
    source_error: SourceError,
    query_error: QueryError,
    saved: Result<(), SaveError>,
)
    requires
        session.wf(),
    ensures
        session.key_handled(key).0.wf(),
        session.batch_loaded(n, rows).wf(),
        session.batch_failed(source_error).wf(),
        session.execute_begun(lines).0.wf(),
        session.query_returned(result).wf(),
        session.query_failed(query_error).wf(),
        session.reset(head).wf(),
        session.save_finished(saved).wf(),
        session.save_cancelled().wf(),
{
    if !session.is_filtered() && session.cursor.accepts(n, rows) {
        lemma_cursor_shows_rows(session.cursor.moved_to(n, rows));
    }
    if let Ok(found) = head {
        if found.fault(session.cursor.window.batch_size) is None {
            lemma_opened_cursor_is_valid(session.cursor.window.batch_size, found);
        }
    }
}

/// The status is a machine of its own. The command to execute leads from
/// every status but `Executing` to `Executing`, or to an error where the
/// statement is empty, and is ignored while a query runs. What the engine
/// returns leads from `Executing` to `Success`, to the notice or to an error,
/// and is dropped in every other status.
pub proof fn lemma_status_machine(
    session: SessionView,
    lines: Seq<Seq<char>>,
    result: OverlayView,
    error: QueryError,
)
    ensures
        session.status is Executing ==> session.execute_begun(lines) == (
            session,
            None::<Seq<char>>,
        ),
        !(session.status is Executing) && statement(lines).len() > 0 ==> session.execute_begun(
            lines,
        ).0.status is Executing && session.execute_begun(lines).1 is Some,
        !(session.status is Executing) && statement(lines).len() == 0 ==> session.execute_begun(
            lines,
        ).0.status is Error && session.execute_begun(lines).1 is None,
        session.status is Executing ==> !(session.query_returned(result).status is Executing)
            && !(session.query_returned(result).status is Idle),
        session.status is Executing ==> (session.query_returned(result).status is Success <==> (
            result.wf())),
        session.status is Executing ==> session.query_failed(error).status == StatusView::Error(
            error.spec_message(),
        ),
        !(session.status is Executing) ==> session.query_returned(result) == session
            && session.query_failed(error) == session,
{
}

/// The save dialog opens on the save command alone, and only over a query
/// result: a key that brings the focus into the dialog is Control with `s`,
/// pressed while a query result is on display.
pub proof fn lemma_dialog_opens_on_save_alone(session: SessionView, key: KeyEvent)
    requires
        session.focus != FocusTarget::SaveDialog,
        session.key_handled(key).0.focus == FocusTarget::SaveDialog,
    ensures
        key.is_ctrl('s'),
        session.is_filtered(),
        session.key_handled(key).0 == session.with_focus(FocusTarget::SaveDialog),
        session.key_handled(key).1 is None,
{
}

/// A query result comes on display only when a running query returns rows
/// that fit, as a whole, and leaves only with a reset; no key and no batch
/// touches it.
pub proof fn lemma_overlay_lifecycle(
    session: SessionView,
    key: KeyEvent,
    n: usize,
    rows: Seq<Seq<Seq<char>>>,
    lines: Seq<Seq<char>>,
    result: OverlayView,
    head: Result<SourceHeadView, SourceError>,
    source_error: SourceError,
    query_error: QueryError,
    saved: Result<(), SaveError>,
)
    ensures
        session.key_handled(key).0.overlay == session.overlay,
        session.batch_loaded(n, rows).overlay == session.overlay,
        session.batch_failed(source_error).overlay == session.overlay,
        session.execute_begun(lines).0.overlay == session.overlay,
        session.query_failed(query_error).overlay == session.overlay,
        session.save_finished(saved).overlay == session.overlay,
        session.save_cancelled().overlay == session.overlay,
        session.query_returned(result).overlay == if session.status is Executing && result.wf() {
            Some(result)
        } else {
            session.overlay
        },
        session.reset(head).overlay == if head is Ok && head->Ok_0.fault(
            session.cursor.window.batch_size,
        ) is None {
            None::<OverlayView>
        } else {
            session.overlay
        },
{
}

/// The viewport follows the rows: whenever a command changes the rows on
/// display, column offset and selection are back at their start.
pub proof fn lemma_viewport_follows_the_rows(
    session: SessionView,
    key: KeyEvent,
    n: usize,
    rows: Seq<Seq<Seq<char>>>,
    result: OverlayView,
    head: Result<SourceHeadView, SourceError>,
)
    ensures
        session.key_handled(key).0.rows() == session.rows(),
        session.batch_loaded(n, rows).rows() != session.rows() ==> session.batch_loaded(
            n,
            rows,
        ).viewport == ViewportState::initial(),
        session.query_returned(result).rows() != session.rows() ==> session.query_returned(
            result,
        ).viewport == ViewportState::initial(),
        session.reset(head).rows() != session.rows() ==> session.reset(head).viewport
            == ViewportState::initial(),
{
}

} // verus!
