//! Bounded, in-place mutation of large persisted byte buffers under small
//! transient-memory budgets.
//!
//! `buffer` holds the fixed-capacity store with its in-place write and its
//! growth; `growable` holds the naive store that rebuilds its content on
//! every append; `table` holds the fixed table of optional records; `limits`
//! holds the host's ceilings and `error` the refusals.

pub mod buffer;
pub mod error;
pub mod growable;
pub mod limits;
pub mod table;
mod text;
