//! The trusted boundary to the storage engine and the connection pool.
//! Everything here either declares an outside type or wraps exactly one
//! outside call; nothing else in the crate talks to the engine directly.
//! What a call returns depends on the database file, so the contracts
//! promise only what holds of every outcome.

use vstd::prelude::*;

verus! {

#[verifier::external_type_specification]
#[verifier::external_body]
pub struct ExConnection(rusqlite::Connection);

#[verifier::external_type_specification]
#[verifier::external_body]
pub struct ExStatement<'conn>(rusqlite::Statement<'conn>);

#[verifier::external_type_specification]
#[verifier::external_body]
pub struct ExRows<'stmt>(rusqlite::Rows<'stmt>);

#[verifier::external_type_specification]
#[verifier::external_body]
pub struct ExRow<'stmt>(rusqlite::Row<'stmt>);

#[verifier::external_type_specification]
#[verifier::external_body]
pub struct ExTransaction<'conn>(rusqlite::Transaction<'conn>);

#[verifier::external_type_specification]
#[verifier::external_body]
pub struct ExSqliteError(rusqlite::Error);

#[verifier::external_type_specification]
#[verifier::external_body]
pub struct ExPoolError(r2d2::Error);

/// The connection pool, held opaquely: its r2d2 type is generic over a
/// trait this tool cannot see, so the pool lives in a hidden field and is
/// touched only through the trusted functions below.
#[verifier::external_body]
pub struct DbPool {
    inner: std::sync::Arc<r2d2::Pool<r2d2_sqlite::SqliteConnectionManager>>,
}

/// Relies on Arc::clone: another handle to the same pool.
#[verifier::external_body]
pub fn clone_pool(pool: &DbPool) -> (r: DbPool) {
    DbPool { inner: pool.inner.clone() }
}

/// One checked-out pooled connection, held opaquely for the same reason.
#[verifier::external_body]
pub struct DbConnection {
    inner: r2d2::PooledConnection<r2d2_sqlite::SqliteConnectionManager>,
}

/// Relies on r2d2_sqlite::SqliteConnectionManager::file and
/// r2d2::Pool::builder().build: a pool over the database file at `path`,
/// or nothing when the pool cannot verify a first connection.
#[verifier::external_body]
pub fn open_file_pool(path: &str) -> (r: Option<DbPool>) {
    let manager = r2d2_sqlite::SqliteConnectionManager::file(path);
    match r2d2::Pool::builder().build(manager) {
        Ok(pool) => Some(DbPool { inner: std::sync::Arc::new(pool) }),
        Err(_) => None,
    }
}

/// Relies on r2d2_sqlite::SqliteConnectionManager::memory and
/// r2d2::Pool::builder().build: a pool over one shared in-memory database.
#[verifier::external_body]
pub fn open_memory_pool() -> (r: Option<DbPool>) {
    let manager = r2d2_sqlite::SqliteConnectionManager::memory();
    match r2d2::Pool::builder().build(manager) {
        Ok(pool) => Some(DbPool { inner: std::sync::Arc::new(pool) }),
        Err(_) => None,
    }
}

/// Relies on r2d2::Pool::get: blocks until a pooled connection is free, or
/// reports the pool's timeout error.
#[verifier::external_body]
pub fn pool_get(pool: &DbPool) -> (r: Result<DbConnection, r2d2::Error>) {
    match pool.inner.get() {
        Ok(c) => Ok(DbConnection { inner: c }),
        Err(e) => Err(e),
    }
}

/// Relies on r2d2::PooledConnection's DerefMut: the pooled handle wraps one
/// live connection.
#[verifier::external_body]
pub fn connection_of<'a>(pooled: &'a mut DbConnection) -> (r: &'a mut rusqlite::Connection) {
    &mut *pooled.inner
}

/// Relies on rusqlite::Connection::transaction: opens one transaction that
/// rolls back when dropped uncommitted.
#[verifier::external_body]
pub fn begin_transaction<'a>(conn: &'a mut rusqlite::Connection) -> (r: Result<
    rusqlite::Transaction<'a>,
    rusqlite::Error,
>) {
    conn.transaction()
}

/// Relies on rusqlite::Transaction::commit.
#[verifier::external_body]
pub fn commit(tx: rusqlite::Transaction<'_>) -> (r: Result<(), rusqlite::Error>) {
    tx.commit()
}

/// Relies on rusqlite::Transaction's Deref: a transaction is a view of its
/// connection.
#[verifier::external_body]
pub fn tx_connection<'a, 'c>(tx: &'a rusqlite::Transaction<'c>) -> (r: &'a rusqlite::Connection) {
    &**tx
}

/// Relies on rusqlite::Connection::prepare.
#[verifier::external_body]
pub fn prepare<'c>(conn: &'c rusqlite::Connection, sql: &str) -> (r: Result<
    rusqlite::Statement<'c>,
    rusqlite::Error,
>) {
    conn.prepare(sql)
}

/// Relies on rusqlite::Statement::exists with two text parameters: whether
/// the query returns at least one row.
#[verifier::external_body]
pub fn statement_exists<'c>(stmt: &mut rusqlite::Statement<'c>, a: &str, b: &str) -> (r: Result<
    bool,
    rusqlite::Error,
>) {
    stmt.exists([a, b])
}

/// Relies on rusqlite::Connection::execute_batch.
#[verifier::external_body]
pub fn execute_batch(conn: &rusqlite::Connection, sql: &str) -> (r: Result<(), rusqlite::Error>) {
    conn.execute_batch(sql)
}

/// Relies on rusqlite::Connection::last_insert_rowid: the row id of the
/// most recent successful insert on this connection.
#[verifier::external_body]
pub fn last_insert_rowid(conn: &rusqlite::Connection) -> (r: i64) {
    conn.last_insert_rowid()
}

/// Relies on rusqlite::Statement::raw_bind_parameter for a signed number.
#[verifier::external_body]
pub fn bind_i64<'c>(stmt: &mut rusqlite::Statement<'c>, idx: usize, v: i64) -> (r: Result<
    (),
    rusqlite::Error,
>) {
    stmt.raw_bind_parameter(idx, v)
}

/// Relies on rusqlite::Statement::raw_bind_parameter for text.
#[verifier::external_body]
pub fn bind_text<'c>(stmt: &mut rusqlite::Statement<'c>, idx: usize, v: &str) -> (r: Result<
    (),
    rusqlite::Error,
>) {
    stmt.raw_bind_parameter(idx, v)
}

/// Relies on rusqlite::Statement::raw_bind_parameter for a blob.
#[verifier::external_body]
pub fn bind_blob<'c>(stmt: &mut rusqlite::Statement<'c>, idx: usize, v: &Vec<u8>) -> (r: Result<
    (),
    rusqlite::Error,
>) {
    stmt.raw_bind_parameter(idx, v.as_slice())
}

/// Relies on rusqlite::Statement::raw_bind_parameter for a boolean.
#[verifier::external_body]
pub fn bind_bool<'c>(stmt: &mut rusqlite::Statement<'c>, idx: usize, v: bool) -> (r: Result<
    (),
    rusqlite::Error,
>) {
    stmt.raw_bind_parameter(idx, v)
}

/// Relies on rusqlite::Statement::raw_bind_parameter for a nullable
/// boolean.
#[verifier::external_body]
pub fn bind_opt_bool<'c>(stmt: &mut rusqlite::Statement<'c>, idx: usize, v: Option<bool>) -> (r:
    Result<(), rusqlite::Error>) {
    stmt.raw_bind_parameter(idx, v)
}

/// Relies on rusqlite::Statement::raw_bind_parameter for nullable text.
#[verifier::external_body]
pub fn bind_opt_text<'c>(stmt: &mut rusqlite::Statement<'c>, idx: usize, v: &Option<String>) -> (r:
    Result<(), rusqlite::Error>) {
    stmt.raw_bind_parameter(idx, v.as_deref())
}

/// Relies on rusqlite::Statement::raw_execute: runs the bound statement.
#[verifier::external_body]
pub fn raw_execute<'c>(stmt: &mut rusqlite::Statement<'c>) -> (r: Result<usize, rusqlite::Error>) {
    stmt.raw_execute()
}

/// Relies on rusqlite::Statement::raw_query: the rows of the bound query.
#[verifier::external_body]
pub fn raw_query<'a, 'c>(stmt: &'a mut rusqlite::Statement<'c>) -> (r: rusqlite::Rows<'a>) {
    stmt.raw_query()
}

/// Relies on rusqlite::Rows::next: the next row until the result is
/// exhausted.
#[verifier::external_body]
pub fn rows_next<'a, 's>(rows: &'a mut rusqlite::Rows<'s>) -> (r: Result<
    Option<&'a rusqlite::Row<'s>>,
    rusqlite::Error,
>) {
    rows.next()
}

/// Relies on rusqlite::Row::get for a signed number column.
#[verifier::external_body]
pub fn row_i64<'s>(row: &rusqlite::Row<'s>, idx: usize) -> (r: Result<i64, rusqlite::Error>) {
    row.get(idx)
}

/// Relies on rusqlite::Row::get for a signed 32-bit number column.
#[verifier::external_body]
pub fn row_i32<'s>(row: &rusqlite::Row<'s>, idx: usize) -> (r: Result<i32, rusqlite::Error>) {
    row.get(idx)
}

/// Relies on rusqlite::Row::get for a text column.
#[verifier::external_body]
pub fn row_string<'s>(row: &rusqlite::Row<'s>, idx: usize) -> (r: Result<String, rusqlite::Error>) {
    row.get(idx)
}

/// Relies on rusqlite::Row::get for a nullable text column.
#[verifier::external_body]
pub fn row_opt_string<'s>(row: &rusqlite::Row<'s>, idx: usize) -> (r: Result<
    Option<String>,
    rusqlite::Error,
>) {
    row.get(idx)
}

/// Relies on rusqlite::Row::get for a boolean column.
#[verifier::external_body]
pub fn row_bool<'s>(row: &rusqlite::Row<'s>, idx: usize) -> (r: Result<bool, rusqlite::Error>) {
    row.get(idx)
}

/// Relies on rusqlite::Row::get for a nullable boolean column.
#[verifier::external_body]
pub fn row_opt_bool<'s>(row: &rusqlite::Row<'s>, idx: usize) -> (r: Result<
    Option<bool>,
    rusqlite::Error,
>) {
    row.get(idx)
}

/// Relies on rusqlite::Error's Display implementation.
#[verifier::external_body]
pub fn sqlite_error_text(e: &rusqlite::Error) -> (r: String) {
    e.to_string()
}

/// Relies on rusqlite::Error::sqlite_error_code: whether the engine
/// reported a constraint violation.
#[verifier::external_body]
pub fn is_constraint_violation(e: &rusqlite::Error) -> (r: bool) {
    matches!(e.sqlite_error_code(), Some(rusqlite::ErrorCode::ConstraintViolation))
}

/// Relies on r2d2::Error's Display implementation.
#[verifier::external_body]
pub fn pool_error_text(e: &r2d2::Error) -> (r: String) {
    e.to_string()
}

/// What the compression codec yields for a document; the result depends on
/// the document alone.
pub uninterp spec fn gzip_of(s: Seq<char>) -> Seq<u8>;

/// Relies on flate2's GzEncoder over an in-memory buffer: gzip compression
/// of the document's bytes, deterministic in the document. Writing into a
/// memory buffer cannot fail, so neither can the compression.
#[verifier::external_body]
pub fn compress_doc(doc: &str) -> (r: Vec<u8>)
    ensures
        r@ == gzip_of(doc@),
{
    let mut enc = flate2::write::GzEncoder::new(Vec::new(), flate2::Compression::default());
    std::io::Write::write_all(&mut enc, doc.as_bytes()).expect("a memory buffer accepts every write");
    enc.finish().expect("a memory buffer accepts every write")
}

} // verus!
