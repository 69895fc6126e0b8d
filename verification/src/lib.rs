//! A small book catalogue: the records, the in-memory store that owns them,
//! and the request handlers that work on a store shared between threads.
//!
//! [`store::Store`] is the catalogue itself, with exact contracts over its
//! value as a sequence of records; [`laws`] states what its operations
//! guarantee together. [`handler`] runs the operations on a store behind a
//! reader-writer lock, and [`error`] decides what a failed request is
//! answered with.

pub mod book;
pub mod error;
pub mod handler;
pub mod laws;
pub mod stamp;
pub mod store;

pub use crate::book::Book;
pub use crate::handler::DB;
