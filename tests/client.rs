use neovim_instance_registry::client::{
    exit_code, interpret_reply, new_request, startup_step, StartupStep, TransportError,
    STARTUP_ATTEMPTS,
};
use neovim_instance_registry::envelope::{JsonRpcError, JsonRpcResponse};
use neovim_instance_registry::json::JsonValue;
use neovim_instance_registry::utils::{get_neovide_command, quit_step, QuitStep};
use neovim_instance_registry::{DEFAULT_BIND_ADDR, DEFAULT_PORT};

fn ok_reply() -> JsonValue {
    JsonValue::Object(vec![
        ("jsonrpc".to_string(), JsonValue::Text("2.0".to_string())),
        ("result".to_string(), JsonValue::Text("registered".to_string())),
        ("id".to_string(), JsonValue::Text("x".to_string())),
    ])
}

#[test]
fn fresh_requests_have_distinct_ids() {
    let a = new_request("list_instances".to_string(), JsonValue::Object(vec![]));
    let b = new_request("list_instances".to_string(), JsonValue::Object(vec![]));
    assert_eq!(a.jsonrpc, "2.0");
    assert_eq!(a.method, "list_instances");
    match (&a.id, &b.id) {
        (JsonValue::Text(x), JsonValue::Text(y)) => {
            assert_eq!(x.len(), 36);
            assert_ne!(x, y);
        }
        _ => panic!("ids are not text"),
    }
}

#[test]
fn startup_waits_then_gives_up() {
    assert_eq!(startup_step(0, true), StartupStep::Ready);
    assert_eq!(startup_step(1, false), StartupStep::Wait);
    assert_eq!(startup_step(STARTUP_ATTEMPTS - 1, false), StartupStep::Wait);
    assert_eq!(startup_step(STARTUP_ATTEMPTS, false), StartupStep::Unreachable);
    assert_eq!(STARTUP_ATTEMPTS, 10);
}

#[test]
fn reply_line_failures() {
    assert_eq!(interpret_reply(0, true, None), Err(TransportError::ConnectionClosed));
    assert_eq!(interpret_reply(1, true, None), Err(TransportError::EmptyResponse));
    assert_eq!(interpret_reply(5, false, None), Err(TransportError::Malformed));
    assert_eq!(interpret_reply(5, false, Some(JsonValue::Integer(3))), Err(TransportError::Malformed));
    assert_eq!(TransportError::ConnectionClosed.message(), "Connection closed by manager");
    let r = interpret_reply(40, false, Some(ok_reply())).unwrap();
    assert_eq!(r.result, Some(JsonValue::Text("registered".to_string())));
    assert_eq!(exit_code(&r), 0);
}

#[test]
fn protocol_error_exits_nonzero() {
    let r = JsonRpcResponse {
        jsonrpc: "2.0".to_string(),
        result: None,
        error: Some(JsonRpcError { code: -32002, message: "Instance not found".to_string(), data: None }),
        id: JsonValue::Null,
    };
    assert_eq!(exit_code(&r), 1);
}

#[test]
fn editor_client_binary_name() {
    assert_eq!(get_neovide_command(true), "neovide.exe");
    assert_eq!(get_neovide_command(false), "neovide");
}

#[test]
fn quit_retry_decisions() {
    assert_eq!(quit_step(1, 3, true), QuitStep::Done);
    assert_eq!(quit_step(1, 3, false), QuitStep::RetryAfterPause);
    assert_eq!(quit_step(3, 3, false), QuitStep::GiveUp);
}

#[test]
fn default_endpoint() {
    assert_eq!(DEFAULT_PORT, 57394);
    assert_eq!(DEFAULT_BIND_ADDR, "127.0.0.1");
}
