//! Scenario tests for the middleware adapter.
//!
//! Each test uses its own named in-memory SQLite database opened in
//! shared-cache mode through a URI, so that every connection of one pool
//! sees the same database state while nothing touches the filesystem. The
//! pool keeps its connections open, which keeps the shared database alive
//! for the duration of a test.

use iron_rusqlite_middleware::PoolAccessError;
use iron_rusqlite_middleware::RequestContext;
use iron_rusqlite_middleware::RusqliteMiddleware;
use iron_rusqlite_middleware::RusqliteRequestExtension;
use iron_rusqlite_middleware::connection_from_entry;
use rusqlite::OpenFlags;

#[test]
fn fresh_database_default_flags_creates_table() {
    let m = RusqliteMiddleware::new("file:scenario_a?mode=memory&cache=shared")
        .expect("pool construction over a fresh database must succeed");
    let conn = m.get_connection().expect("a fresh pool must hand out a connection");
    conn.connection()
        .execute_batch(
            "CREATE TABLE IF NOT EXISTS todos(id INT PRIMARY KEY NOT NULL, task TEXT NOT NULL);",
        )
        .expect("creating a table on a fresh database must succeed");
}

#[test]
fn size_one_pool_blocks_second_checkout_until_release() {
    let m = RusqliteMiddleware::new_with_pool_size(
        "file:scenario_b?mode=memory&cache=shared",
        OpenFlags::default(),
        1,
        250,
    )
    .expect("pool construction must succeed");
    assert_eq!(m.max_connections(), 1);

    let held = m.get_connection().expect("first checkout must succeed");
    let second = m.get_connection();
    match second {
        Err(PoolAccessError::CheckoutFailed { message }) => {
            assert!(message.contains("timed out"));
        }
        Err(PoolAccessError::NotBound) => {
            panic!("a holder-level checkout can never report a missing binding")
        }
        Ok(_) => panic!("the only physical connection is held, so the checkout must time out"),
    }

    drop(held);
    let third = m.get_connection();
    assert!(third.is_ok(), "after the guard is dropped the connection is available again");
}

#[test]
fn row_inserted_through_one_checkout_is_visible_through_the_next() {
    let m = RusqliteMiddleware::new("file:scenario_c?mode=memory&cache=shared")
        .expect("pool construction must succeed");

    let first = m.get_connection().expect("checkout must succeed");
    first
        .connection()
        .execute_batch(
            "CREATE TABLE todos(id INT PRIMARY KEY NOT NULL, task TEXT NOT NULL); \
             INSERT INTO todos (id, task) VALUES (1, 'write the handler');",
        )
        .expect("insert must succeed");
    drop(first);

    let second = m.get_connection().expect("checkout must succeed");
    let task: String = second
        .connection()
        .query_row("SELECT task FROM todos WHERE id = 1", [], |row| row.get(0))
        .expect("the previously inserted row must be visible");
    assert_eq!(task, "write the handler");
}

#[test]
fn accessor_without_binder_reports_not_bound() {
    let ctx = RequestContext::new();
    let r = ctx.database_connection();
    match r {
        Err(e) => assert!(e.is_not_bound()),
        Ok(_) => panic!("an unbound context must not produce a connection"),
    }
}

#[test]
fn accessor_after_binder_produces_a_connection() {
    let m = RusqliteMiddleware::new("file:binder_then_accessor?mode=memory&cache=shared")
        .expect("pool construction must succeed");
    let mut ctx = RequestContext::new();
    m.before(&mut ctx);
    let conn = ctx
        .database_connection()
        .expect("once the binder has run, the accessor reaches the pool");
    conn.connection()
        .execute_batch("CREATE TABLE IF NOT EXISTS t(x INT);")
        .expect("the connection must be usable");
}

#[test]
fn contexts_bound_through_one_middleware_share_the_pool() {
    let m = RusqliteMiddleware::new("file:single_pool_identity?mode=memory&cache=shared")
        .expect("pool construction must succeed");

    let mut ctx1 = RequestContext::new();
    let mut ctx2 = RequestContext::new();
    m.before(&mut ctx1);
    m.before(&mut ctx2);

    let c1 = ctx1.database_connection().expect("checkout through the first context");
    c1.connection()
        .execute_batch(
            "CREATE TABLE notes(id INT PRIMARY KEY NOT NULL, body TEXT NOT NULL); \
             INSERT INTO notes (id, body) VALUES (7, 'shared');",
        )
        .expect("insert through the first context must succeed");
    drop(c1);

    let c2 = ctx2.database_connection().expect("checkout through the second context");
    let body: String = c2
        .connection()
        .query_row("SELECT body FROM notes WHERE id = 7", [], |row| row.get(0))
        .expect("the second context must observe the same database");
    assert_eq!(body, "shared");
}

#[test]
fn bound_contexts_observe_the_same_connection_bound() {
    let m = RusqliteMiddleware::new_with_pool_size(
        "file:shared_bound?mode=memory&cache=shared",
        OpenFlags::default(),
        1,
        250,
    )
    .expect("pool construction must succeed");

    let mut ctx1 = RequestContext::new();
    let mut ctx2 = RequestContext::new();
    m.before(&mut ctx1);
    m.before(&mut ctx2);

    let held = ctx1.database_connection().expect("first context checks out the one connection");
    let r = ctx2.database_connection();
    assert!(
        matches!(r, Err(PoolAccessError::CheckoutFailed { .. })),
        "both contexts draw on the same single-connection pool"
    );
    drop(held);
    assert!(ctx2.database_connection().is_ok());
}

#[test]
fn entry_lookup_drives_the_shared_accessor() {
    let m = RusqliteMiddleware::new("file:entry_accessor?mode=memory&cache=shared")
        .expect("pool construction must succeed");

    let missing = connection_from_entry(None);
    assert!(matches!(missing, Err(PoolAccessError::NotBound)));

    let value = m.bind();
    let found = connection_from_entry(Some(&value));
    let conn = found.expect("an entry bound from the middleware reaches its pool");
    conn.connection()
        .execute_batch("CREATE TABLE IF NOT EXISTS t(x INT);")
        .expect("the connection must be usable");
}

#[test]
fn unreachable_database_path_reports_creation_error() {
    let r = RusqliteMiddleware::new_with_pool_size(
        "/nonexistent-directory-for-this-test/db.sqlite3",
        OpenFlags::default(),
        1,
        300,
    );
    match r {
        Err(e) => assert!(!e.message.is_empty()),
        Ok(_) => panic!("a database file in a missing directory cannot be opened"),
    }
}

#[test]
fn default_pool_reports_default_bound() {
    let m = RusqliteMiddleware::new("file:default_bound?mode=memory&cache=shared")
        .expect("pool construction must succeed");
    assert_eq!(m.max_connections(), 10);

    let f = RusqliteMiddleware::new_with_flags(
        "file:default_bound_flags?mode=memory&cache=shared",
        OpenFlags::default(),
    )
    .expect("pool construction with explicit flags must succeed");
    assert_eq!(f.max_connections(), 10);
}

#[test]
fn read_only_flags_reject_a_missing_database() {
    let r = RusqliteMiddleware::new_with_pool_size(
        "missing-database-for-read-only-open.sqlite3",
        OpenFlags::SQLITE_OPEN_READ_ONLY | OpenFlags::SQLITE_OPEN_NO_MUTEX,
        1,
        300,
    );
    assert!(r.is_err(), "a read-only open of a database that does not exist must fail");
}
