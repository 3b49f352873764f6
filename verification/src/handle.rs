//! The lifecycle of a database handle: open with a connection, usable until
//! closed, refused for good once closed.
use vstd::prelude::*;
use crate::types::PingResult;

verus! {

/// Why a handle refused an operation.
pub enum HandleError {
    /// The handle was closed.
    Closed,
    /// The handle holds no connection.
    NoConnection,
}

impl HandleError {
    /// The text of the error.
    pub fn message(&self) -> (r: &'static str)
        ensures
            r@ == handle_error_text_v(*self),
    {
        match self {
            HandleError::Closed => "db handle is already closed",
            HandleError::NoConnection => "db connection is not available",
        }
    }
}

pub open spec fn handle_error_text_v(e: HandleError) -> Seq<char> {
    match e {
        HandleError::Closed => "db handle is already closed"@,
        HandleError::NoConnection => "db connection is not available"@,
    }
}

/// The state behind a handle: its connection, while it has one, and whether
/// it was closed.
pub struct DbState<C> {
    pub conn: Option<C>,
    pub closed: bool,
}

/// What an access to the handle is answered.
pub open spec fn access_v<C>(s: DbState<C>) -> Result<(), HandleError> {
    if s.closed {
        Err(HandleError::Closed)
    } else if s.conn is None {
        Err(HandleError::NoConnection)
    } else {
        Ok(())
    }
}

impl<C> DbState<C> {
    /// The state of a handle just opened on `conn`.
    pub fn opened(conn: C) -> (r: Self)
        ensures
            r.conn == Some(conn),
            !r.closed,
    {
        DbState { conn: Some(conn), closed: false }
    }

    /// Whether an operation may use the connection: refused once the handle
    /// is closed, or while it holds no connection.
    pub fn access(&self) -> (r: Result<(), HandleError>)
        ensures
            r == access_v(*self),
    {
        if self.closed {
            Err(HandleError::Closed)
        } else if self.conn.is_none() {
            Err(HandleError::NoConnection)
        } else {
            Ok(())
        }
    }

    /// Closes the handle: its connection is dropped and it is marked closed.
    pub fn close(&mut self)
        ensures
            final(self).conn is None,
            final(self).closed,
    {
        self.conn = None;
        self.closed = true;
    }
}

/// Once closed, a handle refuses every operation as closed, however often it
/// is closed again.
pub proof fn law_closed_handle_refuses<C>(s: DbState<C>)
    requires
        s.closed,
    ensures
        access_v(s) == Err::<(), HandleError>(HandleError::Closed),
{
}

/// A freshly opened handle accepts operations.
pub proof fn law_opened_handle_accepts<C>(conn: C)
    ensures
        access_v(DbState { conn: Some(conn), closed: false }) == Ok::<(), HandleError>(()),
{
}

/// The answer of a ping: always ok, with the SQLite version, or "unknown"
/// when none was read.
pub fn ping_result(version: Option<String>) -> (r: PingResult)
    ensures
        r.ok,
        r.sqlite_version@ == match version {
            Some(v) => v@,
            None => "unknown"@,
        },
{
    let sqlite_version = match version {
        Some(v) => v,
        None => "unknown".to_owned(),
    };
    PingResult { ok: true, sqlite_version }
}

} // verus!
