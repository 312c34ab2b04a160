use vstd::prelude::*;

verus! {

/// The operations that reach the engine.
#[derive(Debug, Clone, Copy, PartialEq, Eq)]
pub enum Operation {
    Open,
    Put,
    Get,
    Delete,
    Flush,
    Destroy,
}

/// What can go wrong at the boundary of the store.
///
/// Every variant but `ResourceClosed` carries the engine's own description
/// of the failure.
#[derive(Debug, PartialEq, Eq)]
pub enum DbError {
    /// The connection's handle was released by `close`.
    ResourceClosed,
    /// The engine could not open the store at the given path.
    EngineOpen(String),
    /// The engine refused a write or a delete.
    EngineWrite(String),
    /// The engine failed to read a key.
    EngineRead(String),
    /// The engine failed to flush its memtables.
    EngineFlush(String),
    /// The engine could not remove the store's files.
    EngineDestroy(String),
}

/// The error that an engine failure of `op`, described by `message`, becomes.
pub open spec fn engine_error_spec(op: Operation, message: String) -> DbError {
    match op {
        Operation::Open => DbError::EngineOpen(message),
        Operation::Put => DbError::EngineWrite(message),
        Operation::Delete => DbError::EngineWrite(message),
        Operation::Get => DbError::EngineRead(message),
        Operation::Flush => DbError::EngineFlush(message),
        Operation::Destroy => DbError::EngineDestroy(message),
    }
}

impl DbError {
    /// Tags an engine failure of `op` with its kind, keeping the engine's
    /// description as it is.
    pub fn from_engine(op: Operation, message: String) -> (r: DbError)
        ensures
            r == engine_error_spec(op, message),
    {
        match op {
            Operation::Open => DbError::EngineOpen(message),
            Operation::Put => DbError::EngineWrite(message),
            Operation::Delete => DbError::EngineWrite(message),
            Operation::Get => DbError::EngineRead(message),
            Operation::Flush => DbError::EngineFlush(message),
            Operation::Destroy => DbError::EngineDestroy(message),
        }
    }

    /// The text that crosses the boundary for this error.
    pub fn message(&self) -> (r: String)
        ensures
            self is ResourceClosed ==> r@ == "resource closed"@,
            self matches DbError::EngineOpen(m) ==> r@ == m@,
            self matches DbError::EngineWrite(m) ==> r@ == m@,
            self matches DbError::EngineRead(m) ==> r@ == m@,
            self matches DbError::EngineFlush(m) ==> r@ == m@,
            self matches DbError::EngineDestroy(m) ==> r@ == m@,
    {
        match self {
            DbError::ResourceClosed => String::from_str("resource closed"),
            DbError::EngineOpen(m) => m.clone(),
            DbError::EngineWrite(m) => m.clone(),
            DbError::EngineRead(m) => m.clone(),
            DbError::EngineFlush(m) => m.clone(),
            DbError::EngineDestroy(m) => m.clone(),
        }
    }
}

} // verus!
