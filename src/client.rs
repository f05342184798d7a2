//! The decisions of the control client: building a request, waiting for a
//! freshly started server, and reading the one reply line.
use vstd::prelude::*;
use crate::envelope::{decoded_response, JsonRpcRequest, JsonRpcResponse};
use crate::json::JsonValue;

verus! {

/// Connection attempts made after starting the server, before giving up.
pub const STARTUP_ATTEMPTS: u32 = 10;

/// Pause before each of those attempts, in milliseconds.
pub const STARTUP_RETRY_DELAY_MS: u64 = 500;

/// Relies on `uuid::Uuid::new_v4` and its `Display` form: a random id in the
/// hyphenated form, 36 characters.
#[verifier::external_body]
fn fresh_id() -> (r: String)
    ensures
        r@.len() == 36,
{
    uuid::Uuid::new_v4().to_string()
}

/// A request for `method` with `params`, under a fresh correlation id.
pub fn new_request(method: String, params: JsonValue) -> (r: JsonRpcRequest)
    ensures
        r.jsonrpc@ == "2.0"@,
        r.method == method,
        r.params == params,
        r.id matches JsonValue::Text(s) && s@.len() == 36,
{
    JsonRpcRequest {
        jsonrpc: "2.0".to_string(),
        method,
        params,
        id: JsonValue::Text(fresh_id()),
    }
}

/// What to do after a connection attempt while waiting for the server.
#[derive(Clone, Copy, Debug, PartialEq, Eq, Structural)]
pub enum StartupStep {
    /// The server answered.
    Ready,
    /// Pause, then try again.
    Wait,
    /// The server did not come up in time.
    Unreachable,
}

/// The decision after `attempts_made` connection attempts since the server
/// was started, the last of which connected or not.
pub fn startup_step(attempts_made: u32, connected: bool) -> (r: StartupStep)
    ensures
        connected ==> r == StartupStep::Ready,
        !connected && attempts_made < STARTUP_ATTEMPTS ==> r == StartupStep::Wait,
        !connected && attempts_made >= STARTUP_ATTEMPTS ==> r == StartupStep::Unreachable,
{
    if connected {
        StartupStep::Ready
    } else if attempts_made < STARTUP_ATTEMPTS {
        StartupStep::Wait
    } else {
        StartupStep::Unreachable
    }
}

/// Why no response could be read.
#[derive(Clone, Copy, Debug, PartialEq, Eq, Structural)]
pub enum TransportError {
    /// The server closed the connection before sending anything.
    ConnectionClosed,
    /// The line sent back was blank.
    EmptyResponse,
    /// The line held no response.
    Malformed,
}

impl TransportError {
    /// A description for the user.
    pub fn message(&self) -> (r: String)
        ensures
            r@ == match self {
                TransportError::ConnectionClosed => "Connection closed by manager"@,
                TransportError::EmptyResponse => "Empty response from manager"@,
                TransportError::Malformed => "Failed to parse response"@,
            },
    {
        match self {
            TransportError::ConnectionClosed => "Connection closed by manager".to_string(),
            TransportError::EmptyResponse => "Empty response from manager".to_string(),
            TransportError::Malformed => "Failed to parse response".to_string(),
        }
    }
}

/// Reads the reply: `bytes_read` bytes arrived, `blank` tells whether the
/// line was only white space, and `decoded` is the JSON it held, if any.
pub fn interpret_reply(
    bytes_read: usize,
    blank: bool,
    decoded: Option<JsonValue>,
) -> (r: Result<JsonRpcResponse, TransportError>)
    ensures
        bytes_read == 0 ==> r == Err::<JsonRpcResponse, TransportError>(
            TransportError::ConnectionClosed,
        ),
        bytes_read > 0 && blank ==> r == Err::<JsonRpcResponse, TransportError>(
            TransportError::EmptyResponse,
        ),
        bytes_read > 0 && !blank ==> match decoded {
            Some(v) if decoded_response(v) is Some => r == Ok::<JsonRpcResponse, TransportError>(
                decoded_response(v)->Some_0,
            ),
            _ => r == Err::<JsonRpcResponse, TransportError>(TransportError::Malformed),
        },
{
    if bytes_read == 0 {
        return Err(TransportError::ConnectionClosed);
    }
    if blank {
        return Err(TransportError::EmptyResponse);
    }
    match decoded {
        Some(v) => match JsonRpcResponse::from_json(v) {
            Some(resp) => Ok(resp),
            None => Err(TransportError::Malformed),
        },
        None => Err(TransportError::Malformed),
    }
}

/// The process status for a decoded response: 1 when it carries an error,
/// else 0.
pub fn exit_code(resp: &JsonRpcResponse) -> (r: i32)
    ensures
        r == (if resp.error is Some {
            1i32
        } else {
            0i32
        }),
{
    match resp.error {
        Some(_) => 1,
        None => 0,
    }
}

} // verus!
