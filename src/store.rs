//! The pooled store: opening the pool, leasing connections, creating the
//! schema and writing records.
use vstd::prelude::*;
use r2d2_sqlite::SqliteConnectionManager;
use crate::appointment::Appointment;
use crate::record::AppointmentKind;
use crate::statement::{create_table_statement, insert_sql, insert_statement};

verus! {

#[verifier::external_type_specification]
#[verifier::external_body]
pub struct ExConnection(rusqlite::Connection);

#[verifier::external_type_specification]
#[verifier::external_body]
pub struct ExSqliteError(rusqlite::Error);

#[verifier::external_type_specification]
#[verifier::external_body]
pub struct ExManager(r2d2_sqlite::SqliteConnectionManager);

#[verifier::external_type_specification]
#[verifier::external_body]
pub struct ExPoolError(r2d2::Error);

/// The store's connection pool: a bounded set of reusable connections, shared
/// by concurrent writers. It is made once and lives as long as its owner keeps
/// it; r2d2 guards its free list internally.
#[verifier::external_body]
pub struct ConnectionPool {
    pool: r2d2::Pool<SqliteConnectionManager>,
}

/// A connection leased from a `ConnectionPool`; dropping it, on any path,
/// hands the connection back to the pool.
#[verifier::external_body]
pub struct PooledConnection {
    lease: r2d2::PooledConnection<SqliteConnectionManager>,
}

/// Relies on `SqliteConnectionManager::file`: a manager that opens the database
/// file at `path`.
#[verifier::external_body]
fn file_manager(path: &str) -> SqliteConnectionManager {
    SqliteConnectionManager::file(path)
}

/// Relies on `r2d2::Pool::builder`, `Builder::max_size` and `Builder::build`: a
/// pool of at most `max_size` connections (`max_size` panics on zero).
#[verifier::external_body]
fn build_pool(manager: SqliteConnectionManager, max_size: u32) -> (r: Result<
    ConnectionPool,
    r2d2::Error,
>)
    requires
        max_size > 0,
{
    r2d2::Pool::builder().max_size(max_size).build(manager).map(|pool| ConnectionPool { pool })
}

/// Relies on `SqliteConnectionManager::memory`: a manager whose connections
/// all share one private in-memory database.
#[verifier::external_body]
fn memory_manager() -> SqliteConnectionManager {
    SqliteConnectionManager::memory()
}

/// Relies on `r2d2::Pool::get`: leases a connection, waiting at most the
/// pool's connection timeout before it fails.
#[verifier::external_body]
fn lease(pool: &ConnectionPool) -> (r: Result<PooledConnection, r2d2::Error>) {
    pool.pool.get().map(|lease| PooledConnection { lease })
}

/// Relies on `Deref` of `r2d2::PooledConnection`: the leased connection.
#[verifier::external_body]
fn leased_connection(lease: &PooledConnection) -> &rusqlite::Connection {
    &lease.lease
}

/// Relies on `rusqlite::Connection::execute`: runs one statement with `params`
/// bound positionally as text, and returns the number of rows it changed.
#[verifier::external_body]
fn execute(conn: &rusqlite::Connection, sql: &str, params: &Vec<String>) -> Result<
    usize,
    rusqlite::Error,
> {
    conn.execute(sql, rusqlite::params_from_iter(params.iter()))
}

/// Relies on `rusqlite::Connection::last_insert_rowid`: the row id that the
/// connection's most recent successful insert assigned.
#[verifier::external_body]
fn last_insert_rowid(conn: &rusqlite::Connection) -> i64 {
    conn.last_insert_rowid()
}

/// Why the pool could not be opened or could not lend a connection.
#[derive(Clone, Copy, Debug, PartialEq, Eq, Structural)]
pub enum PoolError {
    /// The pool could not be built: a zero capacity, or the store could not be
    /// opened. Fatal at startup.
    Init,
    /// No connection became free within the pool's connection timeout.
    Timeout,
}

/// Why a record, or the schema, could not be written.
#[derive(Clone, Copy, Debug, PartialEq, Eq, Structural)]
pub enum StorageError {
    /// No connection could be leased from the pool.
    ConnectionFailed,
    /// The statement failed; nothing of it was written.
    WriteFailed,
}

/// The id that the store assigned to a written record.
pub type RecordId = i64;

impl ConnectionPool {
    /// Opens a pool of at most `max_size` connections to the database file at
    /// `path`, creating the file if needed.
    pub fn open(path: &str, max_size: u32) -> (r: Result<ConnectionPool, PoolError>)
        ensures
            max_size == 0 ==> r == Err::<ConnectionPool, PoolError>(PoolError::Init),
            r is Err ==> r->Err_0 == PoolError::Init,
    {
        if max_size == 0 {
            return Err(PoolError::Init);
        }
        match build_pool(file_manager(path), max_size) {
            Ok(pool) => Ok(pool),
            Err(_) => Err(PoolError::Init),
        }
    }

    /// Opens a pool of at most `max_size` connections that share one private
    /// in-memory database, which lives as long as the pool.
    pub fn in_memory(max_size: u32) -> (r: Result<ConnectionPool, PoolError>)
        ensures
            max_size == 0 ==> r == Err::<ConnectionPool, PoolError>(PoolError::Init),
            r is Err ==> r->Err_0 == PoolError::Init,
    {
        if max_size == 0 {
            return Err(PoolError::Init);
        }
        match build_pool(memory_manager(), max_size) {
            Ok(pool) => Ok(pool),
            Err(_) => Err(PoolError::Init),
        }
    }

    /// Leases a connection, waiting a bounded time for one to become free. The
    /// lease returns to the pool when the `PooledConnection` is dropped.
    pub fn acquire(&self) -> (r: Result<PooledConnection, PoolError>)
        ensures
            r is Err ==> r->Err_0 == PoolError::Timeout,
    {
        match lease(self) {
            Ok(conn) => Ok(conn),
            Err(_) => Err(PoolError::Timeout),
        }
    }
}

/// Creates both appointment tables unless they exist; safe to run at every
/// start. Stops at the first statement that fails.
pub fn ensure_schema(conn: &PooledConnection) -> (r: Result<(), StorageError>)
    ensures
        r is Err ==> r->Err_0 == StorageError::WriteFailed,
{
    let c = leased_connection(conn);
    let no_params: Vec<String> = Vec::new();
    let grooming = create_table_statement(AppointmentKind::Grooming);
    if execute(c, grooming.as_str(), &no_params).is_err() {
        return Err(StorageError::WriteFailed);
    }
    let consultation = create_table_statement(AppointmentKind::Consultation);
    if execute(c, consultation.as_str(), &no_params).is_err() {
        return Err(StorageError::WriteFailed);
    }
    Ok(())
}

/// The statement and the parameters that write `record`: the insert of its
/// kind's table, and its fields in that table's column order.
pub fn prepared_insert(record: &Appointment) -> (r: (String, Vec<String>))
    ensures
        r.0@ == insert_sql(record.kind()),
        r.1@.map_values(|s: String| s@) == record.field_values(),
{
    let kind = record.appointment_kind();
    (insert_statement(kind), record.values())
}

/// Writes `record` through a leased connection as one insert statement, which
/// adds one whole row or none, and returns the id the store assigned to it.
pub fn insert_record(conn: &PooledConnection, record: &Appointment) -> (r: Result<
    RecordId,
    StorageError,
>)
    ensures
        r is Err ==> r->Err_0 == StorageError::WriteFailed,
{
    let c = leased_connection(conn);
    let (sql, params) = prepared_insert(record);
    match execute(c, sql.as_str(), &params) {
        Ok(_) => Ok(last_insert_rowid(c)),
        Err(_) => Err(StorageError::WriteFailed),
    }
}

/// Saves `record`: leases a connection from `pool`, inserts the record, and
/// returns the lease on every path. Fails with `ConnectionFailed` when no
/// connection could be leased and with `WriteFailed` when the insert failed.
pub fn save(pool: &ConnectionPool, record: &Appointment) -> (r: Result<RecordId, StorageError>)
    ensures
        r is Err ==> (r->Err_0 == StorageError::ConnectionFailed || r->Err_0
            == StorageError::WriteFailed),
{
    match pool.acquire() {
        Ok(conn) => insert_record(&conn, record),
        Err(_) => Err(StorageError::ConnectionFailed),
    }
}

} // verus!
