//! Properties of the connection lifecycle that hold whatever the engine
//! reports.
use vstd::prelude::*;

use crate::connection::ConnectionView;
use crate::error::{DbError, Operation};
use crate::ops::{closed_view, open_reply, read_reply, write_reply, flush_reply};

verus! {

/// Closing keeps the path, leaves the connection without a resource, and
/// closing it again changes nothing.
pub proof fn lemma_close_idempotent<R>(v: ConnectionView<R>)
    ensures
        closed_view(v).path == v.path,
        !closed_view(v).is_open(),
        closed_view(closed_view(v)) == closed_view(v),
{
}

/// Once closed, a connection refuses every put, delete, get and flush with
/// `ResourceClosed`, whatever the engine would have reported.
pub proof fn lemma_closed_connection_refuses<R>(
    v: ConnectionView<R>,
    write_outcome: Result<(), String>,
    read_outcome: Result<Option<Seq<u8>>, String>,
    flush_outcome: Result<(), String>,
)
    ensures
        write_reply(closed_view(v), Operation::Put, write_outcome) == Err::<ConnectionView<R>, DbError>(
            DbError::ResourceClosed,
        ),
        write_reply(closed_view(v), Operation::Delete, write_outcome) == Err::<ConnectionView<R>, DbError>(
            DbError::ResourceClosed,
        ),
        read_reply(closed_view(v), read_outcome) == Err::<Option<Seq<u8>>, DbError>(
            DbError::ResourceClosed,
        ),
        flush_reply(closed_view(v), flush_outcome) == Err::<(), DbError>(DbError::ResourceClosed),
{
}

/// A successful open gives an open connection to the path asked for.
pub proof fn lemma_successful_open_is_open<R>(path: Seq<char>, res: R)
    ensures
        open_reply(path, Ok::<R, String>(res)) matches Ok(c) && c.is_open() && c.path == path,
{
}

/// On an open connection, a put or a delete that the engine carried out
/// (deleting an absent key included) hands back the connection unchanged,
/// still open.
pub proof fn lemma_successful_write_keeps_connection<R>(v: ConnectionView<R>)
    requires
        v.is_open(),
    ensures
        write_reply(v, Operation::Put, Ok(())) == Ok::<ConnectionView<R>, DbError>(v),
        write_reply(v, Operation::Delete, Ok(())) == Ok::<ConnectionView<R>, DbError>(v),
{
}

/// On an open connection, a get hands back exactly what the engine found:
/// the same bytes, or none.
pub proof fn lemma_read_hands_back_engine_bytes<R>(v: ConnectionView<R>, found: Option<Seq<u8>>)
    requires
        v.is_open(),
    ensures
        read_reply(v, Ok(found)) == Ok::<Option<Seq<u8>>, DbError>(found),
{
}

} // verus!
