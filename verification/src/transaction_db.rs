use crate::error::Error;
use crate::handle::EngineHandle;
use crate::options::{TransactionConfig, TransactionDBOptions, TransactionOptions};
use vstd::prelude::*;

verus! {

/// What a `TransactionDB` stands for: the engine object it owns and the
/// path it was opened from.
pub struct DatabaseView {
    pub handle: nat,
    pub path: Seq<char>,
}

/// What the engine is asked for when a transaction begins.
pub struct BeginView {
    pub db: nat,
    pub options: TransactionConfig,
}

/// The engine's answer to a request to open a database.
#[derive(Debug, PartialEq, Eq)]
pub enum OpenReply {
    /// The database is open, and this is its handle.
    Opened(EngineHandle),
    /// The engine refused, and this is its message.
    Failed(String),
}

impl OpenReply {
    /// Reads what an open call left behind: the address it returned and the
    /// message it wrote, if it wrote one.
    ///
    /// A message means that the engine refused, whatever the address.
    /// Without a message the address is the database. With neither there is
    /// no answer to read.
    pub fn from_raw(addr: usize, message: Option<String>) -> (reply: Option<OpenReply>)
        ensures
            match message {
                Some(text) => reply matches Some(OpenReply::Failed(kept)) && kept@ == text@,
                None => if addr == 0 {
                    reply is None
                } else {
                    reply matches Some(OpenReply::Opened(handle)) && handle@ == addr
                },
            },
    {
        match message {
            Some(text) => Some(OpenReply::Failed(text)),
            None => match EngineHandle::new(addr) {
                Some(handle) => Some(OpenReply::Opened(handle)),
                None => None,
            },
        }
    }
}

/// The database that comes of opening `path`, or the engine's message.
pub open spec fn opened(path: Seq<char>, reply: OpenReply) -> Result<DatabaseView, Seq<char>> {
    match reply {
        OpenReply::Opened(handle) => Ok(DatabaseView { handle: handle@, path }),
        OpenReply::Failed(message) => Err(message@),
    }
}

/// The request that database `db` makes for a transaction configured by `options`.
pub open spec fn begun(db: DatabaseView, options: TransactionConfig) -> BeginView {
    BeginView { db: db.handle, options }
}

/// An open database: the engine handle, owned, and the path it was opened from.
///
/// A database is made of a handle and a path and cannot be copied. `close`
/// consumes it and hands out the address to close, so the handle of one
/// database is closed at most once.
#[derive(Debug, PartialEq, Eq)]
pub struct TransactionDB {
    inner: EngineHandle,
    path: String,
}

impl View for TransactionDB {
    type V = DatabaseView;

    closed spec fn view(&self) -> DatabaseView {
        DatabaseView { handle: self.inner@, path: self.path@ }
    }
}

/// A transaction to begin: on which database, and with which configuration.
///
/// The configuration is a copy, taken when the request was made.
#[derive(Debug, Clone, Copy, PartialEq, Eq)]
pub struct TransactionRequest {
    db: usize,
    options: TransactionOptions,
}

impl View for TransactionRequest {
    type V = BeginView;

    closed spec fn view(&self) -> BeginView {
        BeginView { db: self.db as nat, options: self.options@ }
    }
}

impl TransactionRequest {
    /// The address of the database that the transaction belongs to.
    pub fn db(&self) -> (addr: usize)
        ensures
            addr == self@.db,
    {
        self.db
    }

    /// The configuration that the transaction begins with.
    pub fn options(&self) -> (options: TransactionOptions)
        ensures
            options@ == self@.options,
    {
        self.options
    }
}

/// An iterator to create: the address of the database that it walks.
#[derive(Debug, Clone, Copy, PartialEq, Eq)]
pub struct IteratorRequest {
    db: usize,
}

impl View for IteratorRequest {
    type V = nat;

    closed spec fn view(&self) -> nat {
        self.db as nat
    }
}

impl IteratorRequest {
    /// The address of the database that the iterator walks.
    pub fn db(&self) -> (addr: usize)
        ensures
            addr == self@,
    {
        self.db
    }
}

impl TransactionDB {
    /// Reads the engine's answer to an open request: the handle of the
    /// database, or an error with the engine's message.
    pub fn open_ffi(reply: OpenReply) -> (pointer: Result<EngineHandle, Error>)
        ensures
            match reply {
                OpenReply::Opened(handle) => pointer == Ok::<EngineHandle, Error>(handle),
                OpenReply::Failed(message) => pointer matches Err(error) && error@ == message@,
            },
    {
        match reply {
            OpenReply::Opened(handle) => Ok(handle),
            OpenReply::Failed(message) => Err(Error::new(message)),
        }
    }

    /// Makes the database of a handle and the path it was opened from.
    pub fn build(path: String, pointer: EngineHandle) -> (db: Result<TransactionDB, Error>)
        ensures
            db matches Ok(db) && db@ == (DatabaseView { handle: pointer@, path: path@ }),
    {
        Ok(TransactionDB { inner: pointer, path })
    }

    /// Completes the opening of `path` with the engine's answer.
    ///
    /// The options are read by the engine and stay with the caller.
    pub fn open(path: &str, options: &TransactionDBOptions, reply: OpenReply) -> (db: Result<
        TransactionDB,
        Error,
    >)
        ensures
            match db {
                Ok(db) => opened(path@, reply) == Ok::<DatabaseView, Seq<char>>(db@),
                Err(error) => opened(path@, reply) == Err::<DatabaseView, Seq<char>>(error@),
            },
    {
        match TransactionDB::open_ffi(reply) {
            Ok(pointer) => TransactionDB::build(path.to_owned(), pointer),
            Err(error) => Err(error),
        }
    }

    /// The path that the database was opened from, as it was given.
    pub fn path(&self) -> (path: &str)
        ensures
            path@ == self@.path,
    {
        self.path.as_str()
    }

    /// The address of the engine's database object; never null.
    pub fn handle(&self) -> (addr: usize)
        ensures
            addr == self@.handle,
            addr != 0,
    {
        self.inner.addr()
    }

    /// The request for a transaction on this database, configured as
    /// `tx_options` is now. Neither the database nor the options are used up.
    pub fn transaction(&self, tx_options: &TransactionOptions) -> (request: TransactionRequest)
        ensures
            request@ == begun(self@, tx_options@),
            request@.db != 0,
    {
        TransactionRequest { db: self.inner.addr(), options: *tx_options }
    }

    /// The request for an iterator over this database.
    pub fn get_raw_iter(&self) -> (request: IteratorRequest)
        ensures
            request@ == self@.handle,
            request@ != 0,
    {
        IteratorRequest { db: self.inner.addr() }
    }

    /// Ends the database's life: hands out the address to close, once.
    pub fn close(self) -> (addr: usize)
        ensures
            addr == self@.handle,
            addr != 0,
    {
        self.inner.release()
    }
}

/// Opening succeeds exactly when the engine answers with a handle, and the
/// database then has that handle and the path that was given, character for
/// character; otherwise the engine's message comes back unchanged.
pub proof fn lemma_open_keeps_path(path: Seq<char>, reply: OpenReply)
    ensures
        reply matches OpenReply::Opened(handle) ==> opened(path, reply) == Ok::<
            DatabaseView,
            Seq<char>,
        >(DatabaseView { handle: handle@, path }),
        reply matches OpenReply::Failed(message) ==> opened(path, reply) == Err::<
            DatabaseView,
            Seq<char>,
        >(message@),
{
}

/// Two different configurations make two different requests on one
/// database, and each request carries the configuration it was made with.
pub proof fn lemma_requests_follow_options(
    db: DatabaseView,
    first: TransactionConfig,
    second: TransactionConfig,
)
    requires
        first != second,
    ensures
        begun(db, first).options == first,
        begun(db, second).options == second,
        begun(db, first) != begun(db, second),
{
}

/// A request asks for a snapshot exactly when the snapshot flag was last
/// set to true, whatever else the options hold.
pub proof fn lemma_snapshot_reaches_request(
    db: DatabaseView,
    options: TransactionConfig,
    flag: bool,
)
    ensures
        begun(db, TransactionConfig { set_snapshot: flag, ..options }).options.set_snapshot
            == flag,
{
}

} // verus!
