//! The operations of the boundary. Each takes what the engine reported for
//! its call and decides, from that and the connection's state, what the host
//! gets back.
use vstd::prelude::*;

use crate::connection::{ConnectionView, RocksDBConnection};
use crate::error::{engine_error_spec, DbError, Operation};

verus! {

/// The connection that `close` leaves: the same path, no resource.
pub open spec fn closed_view<R>(v: ConnectionView<R>) -> ConnectionView<R> {
    ConnectionView { path: v.path, resource: None }
}

/// What `open` returns when the engine reported `outcome` for `path`.
pub open spec fn open_reply<R>(path: Seq<char>, outcome: Result<R, String>) -> Result<
    ConnectionView<R>,
    DbError,
> {
    match outcome {
        Ok(res) => Ok(ConnectionView { path, resource: Some(res) }),
        Err(m) => Err(engine_error_spec(Operation::Open, m)),
    }
}

/// What a write (`put` or `delete`, named by `op`) returns on the connection
/// `v` when the engine reported `outcome`: a closed connection is refused
/// whatever the outcome, and a successful write hands the connection back
/// unchanged.
pub open spec fn write_reply<R>(
    v: ConnectionView<R>,
    op: Operation,
    outcome: Result<(), String>,
) -> Result<ConnectionView<R>, DbError> {
    if !v.is_open() {
        Err(DbError::ResourceClosed)
    } else {
        match outcome {
            Ok(_) => Ok(v),
            Err(m) => Err(engine_error_spec(op, m)),
        }
    }
}

/// What `get` returns on the connection `v` when the engine reported
/// `outcome`: the bytes the engine found, or none.
pub open spec fn read_reply<R>(v: ConnectionView<R>, outcome: Result<Option<Seq<u8>>, String>) -> Result<
    Option<Seq<u8>>,
    DbError,
> {
    if !v.is_open() {
        Err(DbError::ResourceClosed)
    } else {
        match outcome {
            Ok(found) => Ok(found),
            Err(m) => Err(engine_error_spec(Operation::Get, m)),
        }
    }
}

/// What `flush` returns on the connection `v` when the engine reported
/// `outcome`.
pub open spec fn flush_reply<R>(v: ConnectionView<R>, outcome: Result<(), String>) -> Result<
    (),
    DbError,
> {
    if !v.is_open() {
        Err(DbError::ResourceClosed)
    } else {
        match outcome {
            Ok(_) => Ok(()),
            Err(m) => Err(engine_error_spec(Operation::Flush, m)),
        }
    }
}

/// A reply that carries a connection, seen through the connection's view.
pub open spec fn view_of_reply<R>(r: Result<RocksDBConnection<R>, DbError>) -> Result<
    ConnectionView<R>,
    DbError,
> {
    match r {
        Ok(c) => Ok(c@),
        Err(e) => Err(e),
    }
}

/// What the engine reported for a read, with its bytes as a sequence.
pub open spec fn view_of_read(outcome: Result<Option<&[u8]>, String>) -> Result<
    Option<Seq<u8>>,
    String,
> {
    match outcome {
        Ok(Some(data)) => Ok(Some(data@)),
        Ok(None) => Ok(None),
        Err(m) => Err(m),
    }
}

/// A reply of `get`, with its bytes as a sequence.
pub open spec fn view_of_found(r: Result<Option<Vec<u8>>, DbError>) -> Result<
    Option<Seq<u8>>,
    DbError,
> {
    match r {
        Ok(Some(data)) => Ok(Some(data@)),
        Ok(None) => Ok(None),
        Err(e) => Err(e),
    }
}

/// Opens a connection to `path` from the engine's answer to opening it. An
/// engine failure becomes `EngineOpen` instead of ending the process.
pub fn open<R>(path: String, outcome: Result<R, String>) -> (r: Result<RocksDBConnection<R>, DbError>)
    ensures
        view_of_reply(r) == open_reply(path@, outcome),
{
    match outcome {
        Ok(res) => RocksDBConnection::new(res, path),
        Err(m) => Err(DbError::from_engine(Operation::Open, m)),
    }
}

/// Closes `conn`: its resource is dropped, and so released. Closing a closed
/// connection is no error.
pub fn close<R>(conn: RocksDBConnection<R>) -> (r: RocksDBConnection<R>)
    ensures
        r@ == closed_view(conn@),
{
    let mut conn = conn;
    conn.clear();
    conn
}

/// Finishes a write: `outcome` is what the engine reported for the write
/// named by `op` on this connection's resource.
fn write<R>(conn: RocksDBConnection<R>, op: Operation, outcome: Result<(), String>) -> (r: Result<
    RocksDBConnection<R>,
    DbError,
>)
    ensures
        view_of_reply(r) == write_reply(conn@, op, outcome),
{
    if !conn.is_open() {
        return Err(DbError::ResourceClosed);
    }
    match outcome {
        Ok(()) => Ok(conn),
        Err(m) => Err(DbError::from_engine(op, m)),
    }
}

/// Finishes a put: `outcome` is what the engine reported for writing the
/// value under its key on this connection's resource.
pub fn put<R>(conn: RocksDBConnection<R>, outcome: Result<(), String>) -> (r: Result<
    RocksDBConnection<R>,
    DbError,
>)
    ensures
        view_of_reply(r) == write_reply(conn@, Operation::Put, outcome),
{
    write(conn, Operation::Put, outcome)
}

/// Finishes a delete: `outcome` is what the engine reported for removing the
/// key on this connection's resource.
pub fn delete<R>(conn: RocksDBConnection<R>, outcome: Result<(), String>) -> (r: Result<
    RocksDBConnection<R>,
    DbError,
>)
    ensures
        view_of_reply(r) == write_reply(conn@, Operation::Delete, outcome),
{
    write(conn, Operation::Delete, outcome)
}

/// A fresh buffer holding the bytes of `data`.
fn copy_bytes(data: &[u8]) -> (r: Vec<u8>)
    ensures
        r@ == data@,
{
    let mut out: Vec<u8> = Vec::with_capacity(data.len());
    let mut i: usize = 0;
    while i < data.len()
        invariant
            i <= data@.len(),
            out@ == data@.subrange(0, i as int),
        decreases data@.len() - i,
    {
        out.push(data[i]);
        i = i + 1;
    }
    assert(out@ == data@);
    out
}

/// Finishes a get: `outcome` is what the engine reported for reading the
/// key on this connection's resource. Found bytes are copied into a buffer
/// that owes nothing to the engine's.
pub fn get<R>(conn: &RocksDBConnection<R>, outcome: Result<Option<&[u8]>, String>) -> (r: Result<
    Option<Vec<u8>>,
    DbError,
>)
    ensures
        view_of_found(r) == read_reply(conn@, view_of_read(outcome)),
{
    if !conn.is_open() {
        return Err(DbError::ResourceClosed);
    }
    match outcome {
        Ok(Some(data)) => Ok(Some(copy_bytes(data))),
        Ok(None) => Ok(None),
        Err(m) => Err(DbError::from_engine(Operation::Get, m)),
    }
}

/// Finishes a flush: `outcome` is what the engine reported for flushing
/// this connection's resource.
pub fn flush<R>(conn: &RocksDBConnection<R>, outcome: Result<(), String>) -> (r: Result<(), DbError>)
    ensures
        r == flush_reply(conn@, outcome),
{
    if !conn.is_open() {
        return Err(DbError::ResourceClosed);
    }
    match outcome {
        Ok(()) => Ok(()),
        Err(m) => Err(DbError::from_engine(Operation::Flush, m)),
    }
}

/// Finishes a destroy: `outcome` is what the engine reported for removing
/// the store's files. It needs no connection.
pub fn destroy(outcome: Result<(), String>) -> (r: Result<(), DbError>)
    ensures
        outcome is Ok ==> r is Ok,
        outcome matches Err(m) ==> r == Err::<(), DbError>(DbError::EngineDestroy(m)),
{
    match outcome {
        Ok(()) => Ok(()),
        Err(m) => Err(DbError::from_engine(Operation::Destroy, m)),
    }
}

} // verus!
