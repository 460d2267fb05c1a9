//! The uniform error shape every store operation reports.
//!
//! Three kinds cover the taxonomy: an operation attempted before the
//! store was set up, a failure inside the database layer (passed through
//! verbatim), and a setup failure outside it.

use vstd::prelude::*;
use vstd::string::StringExecFns;

verus! {

/// A structured error: a kind tag and a human-readable message.
#[derive(Debug)]
pub struct ApiError {
    pub error: String,
    pub message: String,
}

impl ApiError {
    /// The error every operation reports when the store handle has not
    /// been initialized yet.
    pub fn not_initialized() -> (r: ApiError)
        ensures
            r.error@ == "DatabaseNotInitialized"@,
            r.message@ == "Database not initialized"@,
    {
        ApiError {
            error: String::from_str("DatabaseNotInitialized"),
            message: String::from_str("Database not initialized"),
        }
    }

    /// A failure inside the database layer, with its message passed
    /// through verbatim.
    pub fn database(message: String) -> (r: ApiError)
        ensures
            r.error@ == "DatabaseError"@,
            r.message == message,
    {
        ApiError { error: String::from_str("DatabaseError"), message }
    }

    /// A setup failure outside the database layer.
    pub fn general(message: String) -> (r: ApiError)
        ensures
            r.error@ == "GeneralError"@,
            r.message == message,
    {
        ApiError { error: String::from_str("GeneralError"), message }
    }
}

} // verus!
