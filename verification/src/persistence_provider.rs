use vstd::prelude::*;

use rusqlite::Connection;

use crate::sqlite_open::{connection_open, connection_open_in_memory, OpenedConnection};

verus! {

#[verifier::external_type_specification]
#[verifier::external_body]
pub struct ExConnection(rusqlite::Connection);

#[verifier::external_type_specification]
#[verifier::external_body]
pub struct ExRusqliteError(rusqlite::Error);

/// Why the database could not be set up or reached.
#[derive(Debug)]
pub enum PersistenceError {
    /// Opening the database failed.
    Open(rusqlite::Error),
    /// A database was already set up; it stays in place.
    AlreadyInitialized,
    /// No database has been set up yet.
    NotInitialized,
}

impl PersistenceError {
    /// The text of the error, as the application reports it; `None` for an error of
    /// sqlite, which carries its own text.
    pub fn message(&self) -> (s: Option<&'static str>)
        ensures
            self is AlreadyInitialized ==> (s matches Some(m) && m@
                == "Persistence already initialized!"@),
            self is NotInitialized ==> (s matches Some(m) && m@
                == "Persistence not initialized yet!"@),
            self is Open ==> s is None,
    {
        match self {
            PersistenceError::Open(_) => None,
            PersistenceError::AlreadyInitialized => Some("Persistence already initialized!"),
            PersistenceError::NotInitialized => Some("Persistence not initialized yet!"),
        }
    }
}

/// An open connection to the sqlite database, with the file it was opened on (`None`
/// for a database in memory).
pub struct PersistenceProvider {
    opened: OpenedConnection,
}

impl PersistenceProvider {
    /// The connection the provider holds.
    pub closed spec fn connection_of(&self) -> Connection {
        self.opened.connection()
    }

    /// The file the database was opened on, or `None` for a database in memory.
    pub closed spec fn origin(&self) -> Option<Seq<char>> {
        self.opened.origin()
    }

    /// Creates a new database in memory.
    pub fn initialize_in_memory() -> (r: Result<PersistenceProvider, rusqlite::Error>)
        ensures
            r matches Ok(p) ==> p.origin() is None,
    {
        match connection_open_in_memory() {
            Ok(opened) => Ok(PersistenceProvider { opened }),
            Err(e) => Err(e),
        }
    }

    /// Opens or creates a database in the file `file`.
    pub fn initialize_from_file(file: &str) -> (r: Result<PersistenceProvider, rusqlite::Error>)
        ensures
            r matches Ok(p) ==> p.origin() == Some(file@),
    {
        match connection_open(file) {
            Ok(opened) => Ok(PersistenceProvider { opened }),
            Err(e) => Err(e),
        }
    }

    /// The connection to the database.
    pub fn get_connection(&self) -> (c: &Connection)
        ensures
            *c == self.connection_of(),
    {
        self.opened.get()
    }
}

/// Storage for the connection to the database: empty at first, and set up at most once.
pub struct Persistence {
    cell: Option<PersistenceProvider>,
}

impl Persistence {
    /// Whether a database has been set up.
    pub closed spec fn is_initialized(&self) -> bool {
        self.cell is Some
    }

    /// The file of the database that was set up (`None` when none was, or when it is in
    /// memory).
    pub closed spec fn opened_file(&self) -> Option<Seq<char>> {
        match self.cell {
            Some(p) => p.origin(),
            None => None,
        }
    }

    /// The connection to the database that was set up.
    pub closed spec fn connection(&self) -> Connection {
        self.cell.unwrap().connection_of()
    }

    /// What an attempt to set up the database may lead to: on success the storage was
    /// empty and now holds a database; on any error it is left as it was, and
    /// `AlreadyInitialized` comes exactly when a database was there already (and the new
    /// one could be opened).
    pub open spec fn initialize_outcome(
        before: &Persistence,
        after: &Persistence,
        r: Result<(), PersistenceError>,
    ) -> bool {
        match r {
            Ok(()) => !before.is_initialized() && after.is_initialized(),
            Err(PersistenceError::AlreadyInitialized) => before.is_initialized() && *after
                == *before,
            Err(PersistenceError::Open(_)) => *after == *before,
            Err(PersistenceError::NotInitialized) => false,
        }
    }

    /// Empty storage: no database yet.
    pub fn new() -> (p: Persistence)
        ensures
            !p.is_initialized(),
    {
        Persistence { cell: None }
    }

    /// Keeps the database that an attempt to open one gave, unless one was set up before:
    /// an open error is passed on, and a second database is refused.
    pub fn install(&mut self, opened: Result<PersistenceProvider, rusqlite::Error>) -> (r: Result<
        (),
        PersistenceError,
    >)
        ensures
            Self::initialize_outcome(old(self), final(self), r),
            opened is Ok && !old(self).is_initialized() ==> r is Ok,
            r is Ok ==> (opened matches Ok(p) && final(self).opened_file() == p.origin()
                && final(self).connection() == p.connection_of()),
            opened is Ok && old(self).is_initialized() ==> r matches Err(
                PersistenceError::AlreadyInitialized,
            ),
            opened is Err ==> r matches Err(PersistenceError::Open(_)),
    {
        match opened {
            Err(e) => Err(PersistenceError::Open(e)),
            Ok(provider) => {
                if self.cell.is_some() {
                    Err(PersistenceError::AlreadyInitialized)
                } else {
                    self.cell = Some(provider);
                    Ok(())
                }
            },
        }
    }

    /// Sets up a new database in memory. The database is opened first; it is kept only
    /// when none was set up before.
    pub fn initialize_in_memory(&mut self) -> (r: Result<(), PersistenceError>)
        ensures
            Self::initialize_outcome(old(self), final(self), r),
            r is Ok ==> final(self).opened_file() is None,
    {
        let opened = PersistenceProvider::initialize_in_memory();
        self.install(opened)
    }

    /// Opens or creates a database in a file. The file is opened first; the database is
    /// kept only when none was set up before.
    pub fn initialize_from_file(&mut self, file: &str) -> (r: Result<(), PersistenceError>)
        ensures
            Self::initialize_outcome(old(self), final(self), r),
            r is Ok ==> final(self).opened_file() == Some(file@),
    {
        let opened = PersistenceProvider::initialize_from_file(file);
        self.install(opened)
    }

    /// The connection to the database, or `NotInitialized` when none was set up.
    pub fn get_connection(&self) -> (r: Result<&Connection, PersistenceError>)
        ensures
            r is Ok <==> self.is_initialized(),
            r is Err ==> r matches Err(PersistenceError::NotInitialized),
            r matches Ok(c) ==> *c == self.connection(),
    {
        match &self.cell {
            Some(provider) => Ok(provider.get_connection()),
            None => Err(PersistenceError::NotInitialized),
        }
    }
}

/// The database is set up at most once: once set up, every later attempt is refused or
/// fails, and the storage stays set up with the same database.
pub proof fn lemma_initialized_once(
    before: &Persistence,
    after: &Persistence,
    r: Result<(), PersistenceError>,
)
    requires
        before.is_initialized(),
        Persistence::initialize_outcome(before, after, r),
    ensures
        r is Err,
        *after == *before,
        after.is_initialized(),
{
}

} // verus!
