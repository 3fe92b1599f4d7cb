//! JSON-RPC 2.0 standard error codes.

use vstd::prelude::*;

verus! {

/// Parse error: invalid JSON was received.
pub const PARSE_ERROR: i32 = -32700;

/// Invalid request: the JSON sent is not a valid request object.
pub const INVALID_REQUEST: i32 = -32600;

/// Method not found: the method does not exist.
pub const METHOD_NOT_FOUND: i32 = -32601;

/// Invalid params: invalid method parameters.
pub const INVALID_PARAMS: i32 = -32602;

/// Internal error: internal JSON-RPC error.
pub const INTERNAL_ERROR: i32 = -32603;

} // verus!
