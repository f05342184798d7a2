//! Registry of editor instances keyed by a logical identifier, with the
//! line-protocol envelopes and the request dispatcher that serve it.
use vstd::prelude::*;

pub mod client;
pub mod clock;
pub mod envelope;
pub mod dispatch;
pub mod errors;
pub mod json;
pub mod launcher;
pub mod model;
pub mod registry;
pub mod utils;

pub use envelope::{JsonRpcError, JsonRpcRequest, JsonRpcResponse};
pub use model::{
    HealthStatus, InstanceInfo, InstanceResult, QueryInstanceParams, RegisterInstanceParams,
    UnregisterInstanceParams,
};

verus! {

/// Loopback port the registry listens on unless configured otherwise.
pub const DEFAULT_PORT: u16 = 57394;

/// Address the registry binds to.
pub const DEFAULT_BIND_ADDR: &'static str = "127.0.0.1";

} // verus!
