use odbc_handles::attributes::{
    AsyncEnable, Concurrency, ConnectionPooling, CpMatch, CursorScrollable, CursorSensitivity,
    CursorType, NoScan, OdbcVersion, RetrieveData, SqlBool, UseBookmarks, BIND_BY_COLUMN,
    SIMULATE_CURSOR_NON_UNIQUE,
};
use odbc_handles::diag::DiagnosticRecord;
use odbc_handles::handle::{
    Connection, ConnectionState, Env, EnvState, MongoHandle, Statement, StatementState,
};

fn record(native_error: i32) -> DiagnosticRecord {
    DiagnosticRecord::new(
        String::from("HY000"),
        format!("general error {}", native_error),
        native_error,
    )
}

#[test]
fn env_defaults() {
    let env = Env::with_state(EnvState::Allocated);
    assert_eq!(env.attributes.odbc_ver, OdbcVersion::Odbc3_80);
    assert_eq!(env.attributes.output_nts, SqlBool::True);
    assert_eq!(env.attributes.connection_pooling, ConnectionPooling::Off);
    assert_eq!(env.attributes.cp_match, CpMatch::Strict);
    assert_eq!(env.state, EnvState::Allocated);
    assert!(env.connections.is_empty());
    assert!(env.errors.is_empty());
}

#[test]
fn connection_defaults() {
    let conn = Connection::with_state(11, ConnectionState::Allocated);
    assert_eq!(conn.env, 11);
    assert_eq!(conn.attributes.current_db, None);
    assert_eq!(conn.state, ConnectionState::Allocated);
    assert!(conn.statements.is_empty());
    assert!(conn.errors.is_empty());
}

#[test]
fn statement_defaults() {
    let stmt = Statement::with_state(42, StatementState::Allocated);
    assert_eq!(stmt.connection, 42);
    assert_eq!(stmt.state, StatementState::Allocated);
    assert!(stmt.errors.is_empty());
    let a = &stmt.attributes;
    assert_eq!(a.app_row_desc, 0);
    assert_eq!(a.app_param_desc, 0);
    assert_eq!(a.async_enable, AsyncEnable::Off);
    assert_eq!(a.async_stmt_event, 0);
    assert_eq!(a.cursor_scrollable, CursorScrollable::NonScrollable);
    assert_eq!(a.cursor_sensitivity, CursorSensitivity::Insensitive);
    assert_eq!(a.concurrency, Concurrency::ReadOnly);
    assert_eq!(a.cursor_type, CursorType::ForwardOnly);
    assert_eq!(a.enable_auto_ipd, SqlBool::False);
    assert_eq!(a.fetch_bookmark_ptr, 0);
    assert_eq!(a.imp_row_desc, 0);
    assert_eq!(a.imp_param_desc, 0);
    assert_eq!(a.max_length, 0);
    assert_eq!(a.max_rows, 0);
    assert_eq!(a.no_scan, NoScan::Off);
    assert_eq!(a.param_bind_offset_ptr, 0);
    assert_eq!(a.param_bind_type, BIND_BY_COLUMN);
    assert_eq!(a.param_operation_ptr, 0);
    assert_eq!(a.param_processed_ptr, 0);
    assert_eq!(a.param_status_ptr, 0);
    assert_eq!(a.paramset_size, 0);
    assert_eq!(a.query_timeout, 0);
    assert_eq!(a.retrieve_data, RetrieveData::Off);
    assert_eq!(a.row_array_size, 1);
    assert_eq!(a.row_bind_offset_ptr, 0);
    assert_eq!(a.row_bind_type, BIND_BY_COLUMN);
    assert_eq!(a.row_number, 0);
    assert_eq!(a.row_operation_ptr, 0);
    assert_eq!(a.row_status_ptr, 0);
    assert_eq!(a.rows_fetched_ptr, 0);
    assert_eq!(a.simulate_cursor, SIMULATE_CURSOR_NON_UNIQUE);
    assert_eq!(a.use_bookmarks, UseBookmarks::Off);
}

#[test]
fn binding_constants() {
    assert_eq!(BIND_BY_COLUMN, 0);
    assert_eq!(SIMULATE_CURSOR_NON_UNIQUE, 0);
}

#[test]
fn diagnostic_record_parts() {
    let rec = DiagnosticRecord::new(String::from("01004"), String::from("truncated"), -7);
    assert_eq!(rec.sql_state, "01004");
    assert_eq!(rec.message, "truncated");
    assert_eq!(rec.native_error, -7);
}

#[test]
fn downcast_env_handle() {
    let handle = MongoHandle::Env(Env::with_state(EnvState::Allocated));
    assert!(handle.as_env().is_some());
    assert!(handle.as_connection().is_none());
    assert!(handle.as_statement().is_none());
}

#[test]
fn downcast_connection_handle() {
    let handle = MongoHandle::Connection(Connection::with_state(1, ConnectionState::Allocated));
    assert!(handle.as_env().is_none());
    assert!(handle.as_connection().is_some());
    assert!(handle.as_statement().is_none());
}

#[test]
fn downcast_statement_handle() {
    let handle = MongoHandle::Statement(Statement::with_state(2, StatementState::Allocated));
    assert!(handle.as_env().is_none());
    assert!(handle.as_connection().is_none());
    assert!(handle.as_statement().is_some());
}

#[test]
fn downcast_returns_the_payload() {
    let handle = MongoHandle::Connection(Connection::with_state(9, ConnectionState::Connected));
    let conn = handle.as_connection().unwrap();
    assert_eq!(conn.env, 9);
    assert_eq!(conn.state, ConnectionState::Connected);
}

#[test]
fn diagnostics_fifo_order() {
    let mut handle = MongoHandle::Env(Env::with_state(EnvState::Allocated));
    handle.add_diag_info(record(1));
    handle.add_diag_info(record(2));
    let env = handle.as_env().unwrap();
    assert_eq!(env.errors.len(), 2);
    assert_eq!(env.errors[0].native_error, 1);
    assert_eq!(env.errors[1].native_error, 2);
}

#[test]
fn clear_after_adds_leaves_empty_log() {
    let mut handle = MongoHandle::Statement(Statement::with_state(5, StatementState::Allocated));
    for i in 0..6 {
        handle.add_diag_info(record(i));
    }
    assert_eq!(handle.as_statement().unwrap().errors.len(), 6);
    handle.clear_diagnostics();
    assert_eq!(handle.as_statement().unwrap().errors.len(), 0);
}

#[test]
fn add_and_clear_touch_only_the_log() {
    let mut handle = MongoHandle::Connection(Connection::with_state(8, ConnectionState::Connected));
    handle.add_diag_info(record(3));
    handle.clear_diagnostics();
    let conn = handle.as_connection().unwrap();
    assert_eq!(conn.env, 8);
    assert_eq!(conn.state, ConnectionState::Connected);
    assert_eq!(conn.attributes.current_db, None);
    assert!(conn.statements.is_empty());
}

#[test]
fn env_connection_scenario() {
    let env_handle = MongoHandle::Env(Env::with_state(EnvState::Allocated));
    assert_eq!(env_handle.as_env().unwrap().state, EnvState::Allocated);

    let mut conn_handle =
        MongoHandle::Connection(Connection::with_state(1, ConnectionState::Allocated));
    assert_eq!(conn_handle.as_connection().unwrap().state, ConnectionState::Allocated);

    conn_handle.add_diag_info(DiagnosticRecord::new(
        String::from("HY000"),
        String::from("test"),
        0,
    ));
    {
        let conn = conn_handle.as_connection().unwrap();
        assert_eq!(conn.errors.len(), 1);
        assert_eq!(conn.errors[0].sql_state, "HY000");
        assert_eq!(conn.errors[0].message, "test");
    }

    conn_handle.clear_diagnostics();
    assert!(conn_handle.as_connection().unwrap().errors.is_empty());

    assert!(env_handle.as_connection().is_none());
    assert!(env_handle.as_env().is_some());
}
