//! The state engine of a terminal browser for large Parquet files.
//!
//! The browser shows one batch of rows at a time, lets a query result lie over
//! the rows of the file, and exports that result. This crate holds the
//! state behind it and every rule that changes the state; it reads no file,
//! runs no query and draws nothing. Each command that needs such work is a
//! pair: a decision, and a function that takes the outcome.
//!
//! - `window`, `cursor`: pagination, and the batch on display.
//! - `viewport`: column offset and selected row.
//! - `status`, `keys`: the life cycle of a query, the focus, key presses.
//! - `query`: the statement in the editor and the row limit put behind it.
//! - `table`: the read-only browser, and what the title of a table reports.
//! - `sql_editor`: the editing session.
//! - `laws`: what holds of every editing session.
//! - `peak`: from the batches of the file to rows of text.
//! - `utils`, `errors`: which files are opened, and what can go wrong.

pub mod cursor;
pub mod errors;
pub mod keys;
pub mod laws;
pub mod peak;
pub mod query;
pub mod sql_editor;
pub mod status;
pub mod table;
pub mod utils;
pub mod viewport;
pub mod window;
