//! The trusted boundary to the outside collaborators: `r2d2`'s connection
//! pool and `r2d2_sqlite`'s manager for `rusqlite` connections.
//!
//! `r2d2::Pool<M>` cannot be named in verified signatures (its declaration
//! carries the `ManageConnection` bound, an outside trait), so the handle and
//! the checkout guard each live in a field hidden from the verifier and are
//! reached only through the wrappers below.

use vstd::prelude::*;

verus! {

/// A shared, thread-safe handle to one pool of SQLite connections.
///
/// Cloning the handle shares the same pool; the pool itself is never copied.
#[verifier::external_body]
pub struct RusqlitePool {
    handle: std::sync::Arc<r2d2::Pool<r2d2_sqlite::SqliteConnectionManager>>,
}

/// A connection checked out of a pool for exclusive use.
///
/// While the guard is held, no other holder can obtain the same physical
/// connection; dropping the guard returns the connection to its pool.
#[verifier::external_body]
pub struct SqliteConnection {
    guard: r2d2::PooledConnection<r2d2_sqlite::SqliteConnectionManager>,
}

#[verifier::external_type_specification]
#[verifier::external_body]
pub struct ExOpenFlags(rusqlite::OpenFlags);

#[verifier::external_type_specification]
#[verifier::external_body]
pub struct ExConnection(rusqlite::Connection);

#[verifier::external_type_specification]
#[verifier::external_body]
pub struct ExPoolError(r2d2::Error);

/// The identity of the underlying pool that a handle refers to.
pub uninterp spec fn pool_id(p: RusqlitePool) -> int;

/// The maximum number of connections the underlying pool was built with.
pub uninterp spec fn pool_bound(p: RusqlitePool) -> u32;

/// The identity of the pool that a checked-out connection came from.
pub uninterp spec fn source_pool(c: SqliteConnection) -> int;

/// Relies on `r2d2_sqlite::SqliteConnectionManager::file` and
/// `r2d2::Builder::build`: builds a pool over the database file at `path`,
/// opened with `rusqlite`'s default flags; the default maximum size is 10.
#[verifier::external_body]
pub(crate) fn build_pool(path: &str) -> (r: Result<RusqlitePool, r2d2::Error>)
    ensures
        r matches Ok(p) ==> pool_bound(p) == 10,
{
    let manager = r2d2_sqlite::SqliteConnectionManager::file(path);
    match r2d2::Pool::builder().build(manager) {
        Ok(pool) => Ok(RusqlitePool { handle: std::sync::Arc::new(pool) }),
        Err(e) => Err(e),
    }
}

/// Relies on `r2d2_sqlite::SqliteConnectionManager::with_flags` and
/// `r2d2::Builder::build`: as `build_pool`, but the database file is opened
/// with the given `rusqlite` flags.
#[verifier::external_body]
pub(crate) fn build_pool_with_flags(path: &str, flags: rusqlite::OpenFlags) -> (r: Result<
    RusqlitePool,
    r2d2::Error,
>)
    ensures
        r matches Ok(p) ==> pool_bound(p) == 10,
{
    let manager = r2d2_sqlite::SqliteConnectionManager::file(path).with_flags(flags);
    match r2d2::Pool::builder().build(manager) {
        Ok(pool) => Ok(RusqlitePool { handle: std::sync::Arc::new(pool) }),
        Err(e) => Err(e),
    }
}

/// Relies on `r2d2::Builder::max_size` and `connection_timeout` (each panics
/// on a zero argument, hence the preconditions) and `r2d2::Builder::build`:
/// a pool of at most `max_size` connections whose checkout waits at most
/// `timeout_ms` milliseconds.
#[verifier::external_body]
pub(crate) fn build_pool_sized(
    path: &str,
    flags: rusqlite::OpenFlags,
    max_size: u32,
    timeout_ms: u64,
) -> (r: Result<RusqlitePool, r2d2::Error>)
    requires
        1 <= max_size,
        1 <= timeout_ms,
    ensures
        r matches Ok(p) ==> pool_bound(p) == max_size,
{
    let manager = r2d2_sqlite::SqliteConnectionManager::file(path).with_flags(flags);
    let builder = r2d2::Pool::builder().max_size(max_size).connection_timeout(
        std::time::Duration::from_millis(timeout_ms),
    );
    match builder.build(manager) {
        Ok(pool) => Ok(RusqlitePool { handle: std::sync::Arc::new(pool) }),
        Err(e) => Err(e),
    }
}

/// Relies on `std::sync::Arc::clone`: the clone refers to the very same pool,
/// so every property of the underlying pool is shared.
#[verifier::external_body]
pub(crate) fn clone_handle(p: &RusqlitePool) -> (r: RusqlitePool)
    ensures
        pool_id(r) == pool_id(*p),
        pool_bound(r) == pool_bound(*p),
{
    RusqlitePool { handle: p.handle.clone() }
}

/// Relies on `r2d2::Pool::get`: on success the guard is checked out of the
/// very pool the handle refers to (the guard keeps a clone of that pool and
/// returns the connection to it when dropped); on failure the pool timed out
/// or could not produce a healthy connection.
#[verifier::external_body]
pub(crate) fn checkout(p: &RusqlitePool) -> (r: Result<SqliteConnection, r2d2::Error>)
    ensures
        r matches Ok(c) ==> source_pool(c) == pool_id(*p),
{
    match p.handle.get() {
        Ok(guard) => Ok(SqliteConnection { guard }),
        Err(e) => Err(e),
    }
}

/// Relies on `r2d2::Pool::max_size`: the configured maximum pool size.
#[verifier::external_body]
pub(crate) fn handle_bound(p: &RusqlitePool) -> (n: u32)
    ensures
        n == pool_bound(*p),
{
    p.handle.max_size()
}

/// Relies on the `Display` impl of `r2d2::Error` for a human-readable
/// description of a pool failure.
#[verifier::external_body]
pub(crate) fn pool_error_text(e: &r2d2::Error) -> String {
    format!("{}", e)
}

impl SqliteConnection {
    /// Relies on the `Deref` impl of `r2d2::PooledConnection`: the SQL surface
    /// of the checked-out connection. Public because the original exposes the
    /// engine's native connection type to handler code unrestricted.
    #[verifier::external_body]
    pub fn connection(&self) -> &rusqlite::Connection {
        &*self.guard
    }
}

} // verus!
