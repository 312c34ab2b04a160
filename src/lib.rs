//! A verified connection layer for an embedded key/value store reached
//! across a foreign-function boundary.
//!
//! A [`RocksDBConnection`] names the path that a store was opened at and,
//! while it is open, owns the native handle. The engine's own calls are made
//! by the caller; this library decides what each operation returns from the
//! connection's state and from what the engine reported: a closed connection
//! refuses every key/value operation before the engine is touched, every
//! engine failure becomes a [`DbError`] value, and bytes read from the engine
//! are copied into a fresh buffer before they are handed out.
mod connection;
mod error;
mod laws;
mod ops;

pub use connection::{ConnectionView, RocksDBConnection};
pub use error::{engine_error_spec, DbError, Operation};
pub use laws::{
    lemma_close_idempotent, lemma_closed_connection_refuses, lemma_read_hands_back_engine_bytes,
    lemma_successful_open_is_open, lemma_successful_write_keeps_connection,
};
pub use ops::{
    close, closed_view, delete, destroy, flush, flush_reply, get, open, open_reply, put, read_reply,
    view_of_found, view_of_read, view_of_reply, write_reply,
};
