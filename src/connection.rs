use vstd::prelude::*;

use crate::error::DbError;

verus! {

/// What a connection is, abstractly: the path it was opened at, and the
/// native resource while the connection is open.
pub struct ConnectionView<R> {
    pub path: Seq<char>,
    pub resource: Option<R>,
}

impl<R> ConnectionView<R> {
    pub open spec fn is_open(self) -> bool {
        self.resource is Some
    }
}

/// A session with the store at `path`.
///
/// `resource` holds the native handle while the connection is open. `close`
/// clears it, and no operation on a connection sets it again: a closed
/// connection stays closed.
pub struct RocksDBConnection<R> {
    path: String,
    resource: Option<R>,
}

impl<R> View for RocksDBConnection<R> {
    type V = ConnectionView<R>;

    closed spec fn view(&self) -> ConnectionView<R> {
        ConnectionView { path: self.path@, resource: self.resource }
    }
}

impl<R> RocksDBConnection<R> {
    /// An open connection to `path` that owns `resource`.
    pub fn new(resource: R, path: String) -> (r: Result<Self, DbError>)
        ensures
            r matches Ok(c) && c@ == (ConnectionView { path: path@, resource: Some(resource) }),
    {
        Ok(RocksDBConnection { path, resource: Some(resource) })
    }

    /// A connection rebuilt from its two parts, as the host hands them over.
    pub fn from_parts(path: String, resource: Option<R>) -> (r: Self)
        ensures
            r@ == (ConnectionView { path: path@, resource }),
    {
        RocksDBConnection { path, resource }
    }

    /// The connection's two parts, to hand back to the host.
    pub fn into_parts(self) -> (r: (String, Option<R>))
        ensures
            r.0@ == self@.path,
            r.1 == self@.resource,
    {
        (self.path, self.resource)
    }

    /// The path the connection was opened at.
    pub fn path(&self) -> (r: &String)
        ensures
            r@ == self@.path,
    {
        &self.path
    }

    /// Whether the connection still holds its native resource.
    pub fn is_open(&self) -> (r: bool)
        ensures
            r == self@.is_open(),
    {
        self.resource.is_some()
    }

    /// Clears the native resource, which is dropped here and so released.
    pub fn clear(&mut self)
        ensures
            final(self)@ == (ConnectionView::<R> { path: old(self)@.path, resource: None }),
    {
        self.resource = None;
    }

    /// The native resource, or `ResourceClosed` once the connection was
    /// closed.
    pub fn resource(&self) -> (r: Result<&R, DbError>)
        ensures
            self@.resource is None ==> r == Err::<&R, DbError>(DbError::ResourceClosed),
            self@.resource matches Some(res) ==> r matches Ok(got) && *got == res,
    {
        match &self.resource {
            None => Err(DbError::ResourceClosed),
            Some(resource) => Ok(resource),
        }
    }
}

} // verus!
