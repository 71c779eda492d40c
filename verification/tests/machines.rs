use orientdb_client::cursor::{CursorStep, PagedCursor};
use orientdb_client::error::{OrientError, OrientResult, RequestError};
use orientdb_client::live::{LiveQueryManager, RouteAction};
use orientdb_client::multiplex::{deliver_in_order, PendingQueue};
use orientdb_client::pool::PoolBuilder;
use orientdb_client::response;
use orientdb_client::result::OResult;
use orientdb_client::session::{run_attempts, OSession};
use orientdb_client::statement::{LiveStatement, ServerStatement, Statement};
use orientdb_client::strutil::u64_to_string;
use orientdb_client::value::OValue;

fn retry_error() -> OrientError {
    OrientError::Request(RequestError::new_with_code(3, 0))
}

fn plain_error() -> OrientError {
    OrientError::Request(RequestError::new_with_code(1, 0))
}

#[test]
fn pool_bound_is_kept() {
    let mut pool = PoolBuilder::new().max_size(2).min_size(0).timeout(100).build();
    assert!(!pool.try_acquire_idle());
    assert!(pool.try_begin_create());
    assert!(pool.try_begin_create());
    // connections + pending reached the bound of two
    assert!(!pool.try_begin_create());
    pool.finish_create(true);
    pool.finish_create(true);
    assert_eq!(pool.state.connections, 2);
    assert_eq!(pool.state.idle_connections, 2);
    assert!(!pool.try_begin_create());
}

#[test]
fn pool_acquire_decrements_idle_by_one() {
    let mut pool = PoolBuilder::new().max_size(4).build();
    assert!(pool.try_begin_create());
    pool.finish_create(true);
    let idle_before = pool.state.idle_connections;
    assert!(pool.try_acquire_idle());
    assert_eq!(pool.state.idle_connections, idle_before - 1);
    assert_eq!(pool.state.connections, 1);
}

#[test]
fn pool_timeout_removes_waiter_with_pool_error() {
    let mut pool = PoolBuilder::new().max_size(1).build();
    assert!(pool.try_begin_create());
    pool.finish_create(true);
    assert!(pool.try_acquire_idle());
    // no idle connection and no room: the acquirer queues, then times out
    assert!(!pool.try_acquire_idle());
    assert!(!pool.try_begin_create());
    pool.enqueue_waiter();
    assert_eq!(pool.waiting, 1);
    let err = pool.timeout_waiter();
    assert_eq!(pool.waiting, 0);
    assert!(matches!(err, OrientError::Pool(_)));
}

#[test]
fn pool_release_prefers_waiter() {
    let mut pool = PoolBuilder::new().max_size(1).build();
    assert!(pool.try_begin_create());
    pool.finish_create(true);
    assert!(pool.try_acquire_idle());
    pool.enqueue_waiter();
    // released connection goes to the waiter, not to the idle pile
    assert!(pool.release());
    assert_eq!(pool.state.idle_connections, 0);
    // released again with nobody waiting: it becomes idle
    assert!(!pool.release());
    assert_eq!(pool.state.idle_connections, 1);
}

#[test]
fn pending_fifo_order_and_push_transparency() {
    let mut q = PendingQueue::new();
    q.enqueue(1);
    q.enqueue(2);
    let before = q.len();
    // a push frame removes nothing
    assert_eq!(q.on_frame(true), None);
    assert_eq!(q.len(), before);
    // responses answer the head in order
    assert_eq!(q.on_frame(false), Some(1));
    assert_eq!(q.on_frame(false), Some(2));
    assert_eq!(q.on_frame(false), None);
}

#[test]
fn responses_deliver_in_send_order() {
    let delivered = deliver_in_order(
        vec![10, 20, 30],
        vec![false, true, false, true, false],
    );
    assert_eq!(delivered, vec![10, 20, 30]);
}

fn page(records: usize, has_next: bool, id: &str) -> response::Query {
    let mut rows = Vec::new();
    for _ in 0..records {
        rows.push(OResult::empty());
    }
    response::Query {
        query_id: String::from(id),
        tx_changes: false,
        execution_plan: None,
        records: rows,
        has_next,
        stats: Vec::new(),
    }
}

#[test]
fn cursor_fetches_exactly_one_next_page() {
    let mut cursor = PagedCursor::new(page(1, true, "cur-1"), 5, None, 1);
    assert!(matches!(cursor.next_action(), CursorStep::Yield(_)));
    // local rows drained, server holds more: exactly one QueryNext
    match cursor.next_action() {
        CursorStep::Fetch(next) => {
            assert_eq!(next.query_id, "cur-1");
            assert_eq!(next.session_id, 5);
            assert_eq!(next.page_size, 1);
        }
        other => panic!("expected a fetch, got {:?}", other),
    }
    cursor.apply_page(page(1, false, "cur-1"));
    assert!(matches!(cursor.next_action(), CursorStep::Yield(_)));
    assert!(matches!(cursor.next_action(), CursorStep::Eof));
}

#[test]
fn cursor_with_page_size_one_issues_two_fetches() {
    // three rows in pages of one: the cursor yields all three and asks for
    // exactly two further pages before the end of the stream
    let mut cursor = PagedCursor::new(page(1, true, "cur-9"), 5, None, 1);
    let mut rows = 0;
    let mut fetches = 0;
    loop {
        match cursor.next_action() {
            CursorStep::Yield(_) => rows += 1,
            CursorStep::Fetch(_) => {
                fetches += 1;
                let more = fetches < 2;
                cursor.apply_page(page(1, more, "cur-9"));
            }
            CursorStep::Eof => break,
        }
    }
    assert_eq!(rows, 3);
    assert_eq!(fetches, 2);
}

#[test]
fn cursor_drop_closes_only_with_pending_pages() {
    let open_cursor = PagedCursor::new(page(0, true, "cur-2"), 5, None, 10);
    match open_cursor.close_action() {
        Some(qc) => assert_eq!(qc.query_id, "cur-2"),
        None => panic!("expected a query close"),
    }

    let drained = PagedCursor::new(page(0, false, "cur-3"), 5, None, 10);
    assert!(drained.close_action().is_none());
}

#[test]
fn session_close_sends_once_unless_pooled() {
    let pooled = OSession::new(-1, 7, None, true);
    assert!(pooled.close_action().is_none());

    let owned = OSession::new(-1, 7, None, false);
    let close = owned.close_action().expect("one close frame");
    assert_eq!(close.session_id, -1);
    assert!(close.token.is_none());
}

#[test]
fn retry_runs_work_at_most_n_plus_one_times() {
    // every attempt fails with the retry-eligible code: n + 1 attempts
    let outcomes: Vec<OrientResult<i64>> =
        vec![Err(retry_error()), Err(retry_error()), Err(retry_error())];
    let (result, attempts) = run_attempts(2, outcomes);
    assert_eq!(attempts, 3);
    assert!(result.is_err());

    // success on the second attempt stops the loop
    let outcomes: Vec<OrientResult<i64>> =
        vec![Err(retry_error()), Ok(42), Err(retry_error())];
    let (result, attempts) = run_attempts(2, outcomes);
    assert_eq!(attempts, 2);
    assert_eq!(result.unwrap(), 42);

    // a non-retryable failure propagates at once
    let outcomes: Vec<OrientResult<i64>> =
        vec![Err(plain_error()), Ok(42), Ok(43)];
    let (result, attempts) = run_attempts(2, outcomes);
    assert_eq!(attempts, 1);
    assert!(result.is_err());
}

#[test]
fn live_manager_routes_and_removes() {
    let mut mgr = LiveQueryManager::new();
    mgr.register_handler(4);
    // an event for an unknown monitor id is dropped silently
    assert_eq!(mgr.fire_event(9, false), RouteAction::Discard);
    // an ordinary event is delivered and keeps the subscription
    assert_eq!(mgr.fire_event(4, false), RouteAction::Deliver { remove: false });
    // the ending event delivers and removes the sink
    assert_eq!(mgr.fire_event(4, true), RouteAction::Deliver { remove: true });
    assert_eq!(mgr.fire_event(4, false), RouteAction::Discard);
}

#[test]
fn statement_defaults_and_positional_names() {
    let session = OSession::new(-1, 9, None, false);
    let stm = Statement::new(&session, "select from OUser where name = ?");
    assert_eq!(stm.language, "sql");
    assert_eq!(stm.page_size, 150);
    assert_eq!(stm.mode, 1);
    assert!(stm.named);

    let stm = stm.positional(vec![OValue::String(String::from("admin"))]);
    assert!(!stm.named);
    assert_eq!(stm.params.len(), 1);
    assert_eq!(stm.params[0].0, "0");
    assert_eq!(stm.params[0].1, OValue::String(String::from("admin")));

    let q = stm.page_size(1).into_query();
    assert_eq!(q.session_id, 9);
    assert_eq!(q.page_size, 1);
    assert_eq!(q.query, "select from OUser where name = ?");
}

#[test]
fn named_statement_keeps_pairs() {
    let session = OSession::new(-1, 9, None, false);
    let stm = Statement::new(&session, "select from OUser where name = :name and void = :void")
        .named(vec![
            (String::from("name"), OValue::String(String::from("admin"))),
            (String::from("void"), OValue::I32(1)),
        ]);
    assert!(stm.named);
    assert_eq!(stm.params.len(), 2);
    assert_eq!(stm.params[1].0, "void");
}

#[test]
fn server_statement_builds_server_query() {
    let stm = ServerStatement::new("root", "root", "list databases")
        .positional(vec![OValue::I32(5)]);
    let q = stm.into_query(3, None);
    assert_eq!(q.session_id, 3);
    assert_eq!(q.query, "list databases");
    assert_eq!(q.parameters[0].0, "0");
}

#[test]
fn live_statement_builds_live_query() {
    let session = OSession::new(-1, 2, None, false);
    let q = LiveStatement::new(&session, "live select from V").into_query();
    assert_eq!(q.session_id, 2);
    assert_eq!(q.query, "live select from V");
    assert!(q.named);
}

#[test]
fn decimal_names_render() {
    assert_eq!(u64_to_string(0), "0");
    assert_eq!(u64_to_string(7), "7");
    assert_eq!(u64_to_string(42), "42");
    assert_eq!(u64_to_string(1234567890), "1234567890");
}
