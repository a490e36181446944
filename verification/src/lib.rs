//! A small adapter that lets request handlers of a web framework borrow a
//! pooled SQLite connection for the lifetime of one request.
//!
//! A [`RusqliteMiddleware`] is constructed once at startup and owns a shared
//! handle to a connection pool for one database file. Before each request is
//! dispatched, the binder stores a clone of that handle into the request's
//! context; handler code then calls the accessor on the context to check out
//! one connection for its exclusive use. The guard returns the connection to
//! the pool when it is dropped.

mod backend;
mod middleware;

pub use backend::RusqlitePool;
pub use backend::SqliteConnection;
pub use middleware::PoolAccessError;
pub use middleware::PoolCreationError;
pub use middleware::RequestContext;
pub use middleware::RusqliteMiddleware;
pub use middleware::RusqliteRequestExtension;
pub use middleware::Value;
pub use middleware::connection_from_entry;
pub use middleware::lemma_single_pool_identity;
