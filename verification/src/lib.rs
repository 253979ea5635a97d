//! A handle-based registry of long-lived resources ("pools") and the one-shot
//! dispatch bridge that carries the outcome of their asynchronous operations
//! to a completion callback.
//!
//! All state is explicit: the tables, the handle counters and the last-error
//! slot are values that the caller owns and guards with whatever exclusion
//! primitive it likes.
pub mod error;
pub mod genesis;
pub mod handle;
pub mod registry;
pub mod table;
pub mod reply;
pub mod operation;
pub mod pool;
