use vstd::prelude::*;

verus! {

/// One diagnostic record attached to a handle: a five-character SQLSTATE
/// class/subclass code, a human-readable message, and the data source's
/// native error code.
///
/// The handle substrate never interprets a record: it only stores records in
/// the order they were added, for the diagnostic-query entry points to read
/// back.
#[derive(Debug, Clone)]
pub struct DiagnosticRecord {
    pub sql_state: String,
    pub message: String,
    pub native_error: i32,
}

impl DiagnosticRecord {
    /// Builds a record from its three parts, unchanged.
    pub fn new(sql_state: String, message: String, native_error: i32) -> (r: Self)
        ensures
            r.sql_state == sql_state,
            r.message == message,
            r.native_error == native_error,
    {
        DiagnosticRecord { sql_state, message, native_error }
    }
}

} // verus!
