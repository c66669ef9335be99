use vstd::prelude::*;

verus! {

/// ODBC specification version an application declares against an
/// environment.
#[derive(Debug, Clone, Copy, PartialEq, Eq, Structural)]
pub enum OdbcVersion {
    Odbc3,
    Odbc3_80,
}

/// A boolean as the ODBC attribute vocabulary spells it.
#[derive(Debug, Clone, Copy, PartialEq, Eq, Structural)]
pub enum SqlBool {
    False,
    True,
}

/// Connection-pooling mode of an environment.
#[derive(Debug, Clone, Copy, PartialEq, Eq, Structural)]
pub enum ConnectionPooling {
    Off,
    OnePerDriver,
    OnePerHenv,
    DriverAware,
}

/// How strictly a pooled connection must match the requested one before it
/// is reused.
#[derive(Debug, Clone, Copy, PartialEq, Eq, Structural)]
pub enum CpMatch {
    Strict,
    Relaxed,
}

/// Whether a statement executes asynchronously.
#[derive(Debug, Clone, Copy, PartialEq, Eq, Structural)]
pub enum AsyncEnable {
    Off,
    On,
}

/// Whether a statement's cursor may scroll backwards.
#[derive(Debug, Clone, Copy, PartialEq, Eq, Structural)]
pub enum CursorScrollable {
    NonScrollable,
    Scrollable,
}

/// Whether a statement's cursor observes changes made by other statements.
#[derive(Debug, Clone, Copy, PartialEq, Eq, Structural)]
pub enum CursorSensitivity {
    Insensitive,
    Sensitive,
    Unspecified,
}

/// Concurrency-control mode of a statement's cursor.
#[derive(Debug, Clone, Copy, PartialEq, Eq, Structural)]
pub enum Concurrency {
    ReadOnly,
    Lock,
    RowVer,
    Values,
}

/// Cursor kind of a statement.
#[derive(Debug, Clone, Copy, PartialEq, Eq, Structural)]
pub enum CursorType {
    ForwardOnly,
    KeysetDriven,
    Dynamic,
    Static,
}

/// Whether escape sequences in statement text are passed through unscanned.
#[derive(Debug, Clone, Copy, PartialEq, Eq, Structural)]
pub enum NoScan {
    Off,
    On,
}

/// Whether a fetch transfers data for bound columns.
#[derive(Debug, Clone, Copy, PartialEq, Eq, Structural)]
pub enum RetrieveData {
    Off,
    On,
}

/// Whether a statement uses bookmarks on its result set.
#[derive(Debug, Clone, Copy, PartialEq, Eq, Structural)]
pub enum UseBookmarks {
    Off,
    Variable,
}

/// Binding layout selector for row-wise/column-wise binding: this value
/// selects column-wise binding; any other value is the row stride, in bytes,
/// of row-wise binding.
pub const BIND_BY_COLUMN: usize = 0;

/// Simulated-cursor guarantee level: positioned updates and deletes are not
/// guaranteed to affect a single row.
pub const SIMULATE_CURSOR_NON_UNIQUE: usize = 0;

/// The attribute record of an Environment node.
#[derive(Debug, Clone, Copy, PartialEq, Eq, Structural)]
pub struct EnvAttributes {
    pub odbc_ver: OdbcVersion,
    pub output_nts: SqlBool,
    pub connection_pooling: ConnectionPooling,
    pub cp_match: CpMatch,
}

impl EnvAttributes {
    /// The documented defaults of a fresh environment: the newest supported
    /// ODBC version, null-terminated string output, pooling off, strict pool
    /// matching.
    pub open spec fn is_default(self) -> bool {
        &&& self.odbc_ver == OdbcVersion::Odbc3_80
        &&& self.output_nts == SqlBool::True
        &&& self.connection_pooling == ConnectionPooling::Off
        &&& self.cp_match == CpMatch::Strict
    }
}

impl Default for EnvAttributes {
    fn default() -> (r: Self)
        ensures
            r.is_default(),
    {
        EnvAttributes {
            odbc_ver: OdbcVersion::Odbc3_80,
            output_nts: SqlBool::True,
            connection_pooling: ConnectionPooling::Off,
            cp_match: CpMatch::Strict,
        }
    }
}

/// The attribute record of a Connection node.
#[derive(Debug, Clone)]
pub struct ConnectionAttributes {
    /// Name of the database the connection currently addresses; `None` while
    /// no database has been selected.
    pub current_db: Option<String>,
}

impl ConnectionAttributes {
    /// The documented default of a fresh connection: no database selected.
    pub open spec fn is_default(self) -> bool {
        self.current_db is None
    }
}

impl Default for ConnectionAttributes {
    fn default() -> (r: Self)
        ensures
            r.is_default(),
    {
        ConnectionAttributes { current_db: None }
    }
}

/// The attribute record of a Statement node.
///
/// Pointer-valued attributes are caller-supplied buffer addresses: the
/// substrate stores them verbatim and never dereferences them, so they are
/// kept as plain addresses, with 0 standing for the null pointer.
#[derive(Debug, Clone, Copy, PartialEq, Eq, Structural)]
pub struct StatementAttributes {
    pub app_row_desc: usize,
    pub app_param_desc: usize,
    pub async_enable: AsyncEnable,
    pub async_stmt_event: usize,
    pub cursor_scrollable: CursorScrollable,
    pub cursor_sensitivity: CursorSensitivity,
    pub concurrency: Concurrency,
    pub cursor_type: CursorType,
    pub enable_auto_ipd: SqlBool,
    pub fetch_bookmark_ptr: usize,
    pub imp_row_desc: usize,
    pub imp_param_desc: usize,
    pub max_length: usize,
    pub max_rows: usize,
    pub no_scan: NoScan,
    pub param_bind_offset_ptr: usize,
    pub param_bind_type: usize,
    pub param_operation_ptr: usize,
    pub param_processed_ptr: usize,
    pub param_status_ptr: usize,
    pub paramset_size: usize,
    pub query_timeout: usize,
    pub retrieve_data: RetrieveData,
    pub row_array_size: usize,
    pub row_bind_offset_ptr: usize,
    pub row_bind_type: usize,
    pub row_number: usize,
    pub row_operation_ptr: usize,
    pub row_status_ptr: usize,
    pub rows_fetched_ptr: usize,
    pub simulate_cursor: usize,
    pub use_bookmarks: UseBookmarks,
}

impl StatementAttributes {
    /// The documented defaults of a fresh statement, bit-exact: every
    /// pointer-valued attribute null, every counter 0, async off, a
    /// non-scrollable insensitive forward-only read-only cursor, automatic
    /// IPD population off, no-scan off, column-wise binding on both the
    /// parameter and the row side, retrieve-data off, row array size 1,
    /// non-unique simulated cursors, bookmarks off.
    pub open spec fn is_default(self) -> bool {
        &&& self.app_row_desc == 0
        &&& self.app_param_desc == 0
        &&& self.async_enable == AsyncEnable::Off
        &&& self.async_stmt_event == 0
        &&& self.cursor_scrollable == CursorScrollable::NonScrollable
        &&& self.cursor_sensitivity == CursorSensitivity::Insensitive
        &&& self.concurrency == Concurrency::ReadOnly
        &&& self.cursor_type == CursorType::ForwardOnly
        &&& self.enable_auto_ipd == SqlBool::False
        &&& self.fetch_bookmark_ptr == 0
        &&& self.imp_row_desc == 0
        &&& self.imp_param_desc == 0
        &&& self.max_length == 0
        &&& self.max_rows == 0
        &&& self.no_scan == NoScan::Off
        &&& self.param_bind_offset_ptr == 0
        &&& self.param_bind_type == BIND_BY_COLUMN
        &&& self.param_operation_ptr == 0
        &&& self.param_processed_ptr == 0
        &&& self.param_status_ptr == 0
        &&& self.paramset_size == 0
        &&& self.query_timeout == 0
        &&& self.retrieve_data == RetrieveData::Off
        &&& self.row_array_size == 1
        &&& self.row_bind_offset_ptr == 0
        &&& self.row_bind_type == BIND_BY_COLUMN
        &&& self.row_number == 0
        &&& self.row_operation_ptr == 0
        &&& self.row_status_ptr == 0
        &&& self.rows_fetched_ptr == 0
        &&& self.simulate_cursor == SIMULATE_CURSOR_NON_UNIQUE
        &&& self.use_bookmarks == UseBookmarks::Off
    }
}

impl Default for StatementAttributes {
    fn default() -> (r: Self)
        ensures
            r.is_default(),
    {
        StatementAttributes {
            app_row_desc: 0,
            app_param_desc: 0,
            async_enable: AsyncEnable::Off,
            async_stmt_event: 0,
            cursor_scrollable: CursorScrollable::NonScrollable,
            cursor_sensitivity: CursorSensitivity::Insensitive,
            concurrency: Concurrency::ReadOnly,
            cursor_type: CursorType::ForwardOnly,
            enable_auto_ipd: SqlBool::False,
            fetch_bookmark_ptr: 0,
            imp_row_desc: 0,
            imp_param_desc: 0,
            max_length: 0,
            max_rows: 0,
            no_scan: NoScan::Off,
            param_bind_offset_ptr: 0,
            param_bind_type: BIND_BY_COLUMN,
            param_operation_ptr: 0,
            param_processed_ptr: 0,
            param_status_ptr: 0,
            paramset_size: 0,
            query_timeout: 0,
            retrieve_data: RetrieveData::Off,
            row_array_size: 1,
            row_bind_offset_ptr: 0,
            row_bind_type: BIND_BY_COLUMN,
            row_number: 0,
            row_operation_ptr: 0,
            row_status_ptr: 0,
            rows_fetched_ptr: 0,
            simulate_cursor: SIMULATE_CURSOR_NON_UNIQUE,
            use_bookmarks: UseBookmarks::Off,
        }
    }
}

} // verus!
