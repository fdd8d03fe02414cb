//! Log-line construction.
//!
//! The library never prints; it builds the exact line for each level and
//! hands it to the caller, so output can be captured or redirected without
//! touching global state.

use vstd::prelude::*;
use vstd::string::StringExecFns;

verus! {

/// The informational log line for a message: `info: <message>`.
pub fn info(message: &str) -> (r: String)
    ensures
        r@ == "info: "@ + message@,
{
    String::from_str("info: ").concat(message)
}

/// The warning log line for a message: `warning: <message>`.
pub fn warning(message: &str) -> (r: String)
    ensures
        r@ == "warning: "@ + message@,
{
    String::from_str("warning: ").concat(message)
}

/// The error log line for a message: `error: <message>`.
pub fn error(message: &str) -> (r: String)
    ensures
        r@ == "error: "@ + message@,
{
    String::from_str("error: ").concat(message)
}

} // verus!
