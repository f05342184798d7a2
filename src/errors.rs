//! Error codes carried in protocol error objects.
use vstd::prelude::*;

verus! {

pub const PARSE_ERROR: i32 = -32700;

pub const METHOD_NOT_FOUND: i32 = -32601;

pub const INTERNAL_ERROR: i32 = -32000;

pub const INSTANCE_ALREADY_EXISTS: i32 = -32001;

pub const INSTANCE_NOT_FOUND: i32 = -32002;

/// Reserved; no operation reports it.
pub const HEALTH_CHECK_FAILED: i32 = -32003;

} // verus!
