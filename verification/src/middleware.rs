//! The middleware adapter itself: the pool holder, the binder that attaches
//! the shared pool handle to a request context, and the accessor that checks
//! out one connection for a handler.

use crate::backend;
use crate::backend::RusqlitePool;
use crate::backend::SqliteConnection;
use vstd::prelude::*;

verus! {

/// The connection pool could not be constructed (bad path, unsupported
/// flags, or the engine rejected the open request).
#[derive(Debug)]
pub struct PoolCreationError {
    /// The engine's description of why construction failed.
    pub message: String,
}

/// The accessor could not produce a connection for the current request.
#[derive(Debug)]
pub enum PoolAccessError {
    /// The accessor ran on a request context that the binder never visited:
    /// the adapter was not installed as a pre-dispatch hook.
    NotBound,
    /// The pool could not produce a connection: every connection stayed
    /// checked out until the pool's timeout elapsed, or the pool is unusable.
    CheckoutFailed {
        /// The pool's description of the failure.
        message: String,
    },
}

impl PoolAccessError {
    /// True exactly when the failure is the missing-binder defect rather
    /// than a pool-level checkout failure.
    pub fn is_not_bound(&self) -> (b: bool)
        ensures
            b <==> (self is NotBound),
    {
        matches!(self, PoolAccessError::NotBound)
    }
}

/// Owns the shared handle to the connection pool for one database file.
///
/// Constructed once at process startup; afterwards it is never mutated, only
/// cloned-and-shared into request contexts.
pub struct RusqliteMiddleware {
    /// The shared pool handle; cloning it shares the same pool.
    pub pool: RusqlitePool,
}

/// The one entry the binder stores into a request's context side-table:
/// a clone of the shared pool handle.
pub struct Value(RusqlitePool);

impl Value {
    /// The identity of the pool this entry refers to.
    pub closed spec fn pool_id(self) -> int {
        backend::pool_id(self.0)
    }
}

/// The adapter's view of one request's context side-table: the slot the
/// binder fills and the accessor reads. A fresh context holds nothing; after
/// the binder has run it holds a handle to the middleware's pool.
pub struct RequestContext {
    entry: Option<Value>,
}

impl RequestContext {
    /// A fresh context, as the host framework creates one per request:
    /// nothing is bound yet.
    pub fn new() -> (c: RequestContext)
        ensures
            c.bound_pool() is None,
    {
        RequestContext { entry: None }
    }
}

/// The capability handler code sees: retrieve a usable connection from
/// whatever object represents the current request.
pub trait RusqliteRequestExtension {
    /// The identity of the pool bound into this request's context, if the
    /// binder has run for it.
    spec fn bound_pool(&self) -> Option<int>;

    /// Returns a pooled connection to the SQLite database. The connection is
    /// automatically returned to the pool when the guard is dropped.
    ///
    /// Fails with `NotBound` exactly when the binder never ran for this
    /// request, and with `CheckoutFailed` exactly when the bound pool could
    /// not produce a connection.
    fn database_connection(&self) -> (r: Result<SqliteConnection, PoolAccessError>)
        ensures
            (r matches Err(e) && e is NotBound) <==> self.bound_pool() is None,
            r matches Ok(c) ==> self.bound_pool() matches Some(id) && backend::source_pool(c)
                == id,
            self.bound_pool() is Some ==> (r matches Err(e) ==> e is CheckoutFailed),
    ;
}

impl RusqliteRequestExtension for RequestContext {
    closed spec fn bound_pool(&self) -> Option<int> {
        match self.entry {
            Some(v) => Some(v.pool_id()),
            None => None,
        }
    }

    fn database_connection(&self) -> (r: Result<SqliteConnection, PoolAccessError>) {
        connection_from_entry(self.entry.as_ref())
    }
}

/// The accessor's core, shared with unverified framework glue: given what the
/// context lookup returned, check out one connection from the bound pool.
///
/// Returns `NotBound` exactly when the lookup found no entry; on success the
/// connection comes from the very pool the entry refers to.
pub fn connection_from_entry(entry: Option<&Value>) -> (r: Result<
    SqliteConnection,
    PoolAccessError,
>)
    ensures
        (r matches Err(e) && e is NotBound) <==> entry is None,
        r matches Ok(c) ==> entry matches Some(v) && backend::source_pool(c) == v.pool_id(),
        entry is Some ==> (r matches Err(e) ==> e is CheckoutFailed),
{
    match entry {
        None => Err(PoolAccessError::NotBound),
        Some(v) => match backend::checkout(&v.0) {
            Ok(c) => Ok(c),
            Err(e) => Err(
                PoolAccessError::CheckoutFailed { message: backend::pool_error_text(&e) },
            ),
        },
    }
}

impl RusqliteMiddleware {
    /// The identity of the pool this middleware shares with every request.
    pub open spec fn pool_id(self) -> int {
        backend::pool_id(self.pool)
    }

    /// The maximum number of connections the pool hands out concurrently.
    pub open spec fn pool_bound(self) -> u32 {
        backend::pool_bound(self.pool)
    }

    /// Creates a new pooled connection to the SQLite database file at `path`
    /// using the engine's default open flags and the pool's default
    /// configuration (at most 10 connections).
    pub fn new(path: &str) -> (r: Result<RusqliteMiddleware, PoolCreationError>)
        ensures
            r matches Ok(m) ==> m.pool_bound() == 10,
    {
        match backend::build_pool(path) {
            Ok(pool) => Ok(RusqliteMiddleware { pool }),
            Err(e) => Err(PoolCreationError { message: backend::pool_error_text(&e) }),
        }
    }

    /// Creates a new pooled connection to the SQLite database file at `path`,
    /// opened with the given engine flags (read-only, create-if-missing,
    /// in-memory, and so on).
    pub fn new_with_flags(path: &str, flags: rusqlite::OpenFlags) -> (r: Result<
        RusqliteMiddleware,
        PoolCreationError,
    >)
        ensures
            r matches Ok(m) ==> m.pool_bound() == 10,
    {
        match backend::build_pool_with_flags(path, flags) {
            Ok(pool) => Ok(RusqliteMiddleware { pool }),
            Err(e) => Err(PoolCreationError { message: backend::pool_error_text(&e) }),
        }
    }

    /// As `new_with_flags`, but bounds the pool at `max_size` connections and
    /// the checkout wait at `timeout_ms` milliseconds. The pool refuses a
    /// zero size and a zero timeout, hence the preconditions.
    pub fn new_with_pool_size(
        path: &str,
        flags: rusqlite::OpenFlags,
        max_size: u32,
        timeout_ms: u64,
    ) -> (r: Result<RusqliteMiddleware, PoolCreationError>)
        requires
            1 <= max_size,
            1 <= timeout_ms,
        ensures
            r matches Ok(m) ==> m.pool_bound() == max_size,
    {
        match backend::build_pool_sized(path, flags, max_size, timeout_ms) {
            Ok(pool) => Ok(RusqliteMiddleware { pool }),
            Err(e) => Err(PoolCreationError { message: backend::pool_error_text(&e) }),
        }
    }

    /// Checks out one connection from the pool, waiting until one becomes
    /// available or the pool's timeout elapses. Meant for running statements
    /// before the server accepts traffic, such as creating tables.
    ///
    /// On success the connection comes from this middleware's own pool; a
    /// failure is always a pool-level checkout failure, never `NotBound`.
    pub fn get_connection(&self) -> (r: Result<SqliteConnection, PoolAccessError>)
        ensures
            r matches Ok(c) ==> backend::source_pool(c) == self.pool_id(),
            r matches Err(e) ==> e is CheckoutFailed,
    {
        match backend::checkout(&self.pool) {
            Ok(c) => Ok(c),
            Err(e) => Err(
                PoolAccessError::CheckoutFailed { message: backend::pool_error_text(&e) },
            ),
        }
    }

    /// The maximum number of concurrently outstanding connections that the
    /// pool was built with.
    pub fn max_connections(&self) -> (n: u32)
        ensures
            n == self.pool_bound(),
    {
        backend::handle_bound(&self.pool)
    }

    /// The value the binder inserts into a request context: a clone of the
    /// shared handle, referring to the same pool.
    pub fn bind(&self) -> (v: Value)
        ensures
            v.pool_id() == self.pool_id(),
    {
        Value(backend::clone_handle(&self.pool))
    }

    /// The pre-dispatch hook: binds this middleware's pool into the given
    /// request context. Always succeeds, and afterwards the accessor on that
    /// context reaches this middleware's pool.
    pub fn before(&self, ctx: &mut RequestContext)
        ensures
            final(ctx).bound_pool() == Some(self.pool_id()),
    {
        ctx.entry = Some(self.bind());
    }
}

/// Law: all request contexts bound through the same middleware refer to the
/// same underlying pool, so a connection checked out through any of them is
/// governed by that one pool and its one bound on outstanding connections.
pub proof fn lemma_single_pool_identity(
    m: RusqliteMiddleware,
    c1: RequestContext,
    c2: RequestContext,
)
    requires
        c1.bound_pool() == Some(m.pool_id()),
        c2.bound_pool() == Some(m.pool_id()),
    ensures
        c1.bound_pool() == c2.bound_pool(),
{
}

} // verus!
