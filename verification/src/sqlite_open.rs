use vstd::prelude::*;

use rusqlite::Connection;

verus! {

/// A connection to an sqlite database together with where it was opened: the path of the
/// file, or `None` for a database in memory. Only the two functions of this module that
/// open a database make one, so the origin is always the one the open was asked for.
pub struct OpenedConnection {
    connection: Connection,
    origin: Ghost<Option<Seq<char>>>,
}

impl OpenedConnection {
    /// The connection.
    pub closed spec fn connection(&self) -> Connection {
        self.connection
    }

    /// The path of the file the database was opened on, or `None` for a database in
    /// memory.
    pub closed spec fn origin(&self) -> Option<Seq<char>> {
        self.origin@
    }

    /// The connection.
    pub fn get(&self) -> (c: &Connection)
        ensures
            *c == self.connection(),
    {
        &self.connection
    }
}

/// Calls `rusqlite::Connection::open_in_memory`. Whether the database can be created
/// depends on the machine, so success is not claimed; a connection that comes back is one
/// to a database in memory.
#[verifier::external_body]
pub fn connection_open_in_memory() -> (r: Result<OpenedConnection, rusqlite::Error>)
    ensures
        r matches Ok(opened) ==> opened.origin() is None,
{
    Connection::open_in_memory().map(
        |connection| OpenedConnection { connection, origin: Ghost(None) },
    )
}

/// Calls `rusqlite::Connection::open` on the file `path`. Whether the file can be opened
/// depends on what is on disk, so success is not claimed; a connection that comes back is
/// one to the database in `path`.
#[verifier::external_body]
pub fn connection_open(path: &str) -> (r: Result<OpenedConnection, rusqlite::Error>)
    ensures
        r matches Ok(opened) ==> opened.origin() == Some(path@),
{
    Connection::open(path).map(
        |connection| OpenedConnection { connection, origin: Ghost(Some(path@)) },
    )
}

} // verus!
