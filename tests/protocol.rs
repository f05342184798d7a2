use neovim_instance_registry::dispatch::{parse_error_response, route_message, Outcome, Route};
use neovim_instance_registry::envelope::{JsonRpcError, JsonRpcRequest, JsonRpcResponse};
use neovim_instance_registry::errors;
use neovim_instance_registry::json::JsonValue;
use neovim_instance_registry::model::{
    InstanceResult, HealthStatus, QueryInstanceParams, RegisterInstanceParams,
    UnregisterInstanceParams,
};
use neovim_instance_registry::registry::InstanceManager;

const T0: i64 = 1_700_000_000_123;

fn s(x: &str) -> String {
    x.to_string()
}

fn text(x: &str) -> JsonValue {
    JsonValue::Text(s(x))
}

fn get<'a>(v: &'a JsonValue, key: &str) -> Option<&'a JsonValue> {
    match v {
        JsonValue::Object(f) => f.iter().find(|(k, _)| k == key).map(|(_, v)| v),
        _ => None,
    }
}

fn request(method: &str, params: JsonValue, id: &str) -> JsonRpcRequest {
    JsonRpcRequest { jsonrpc: s("2.0"), method: s(method), params, id: text(id) }
}

fn reply(out: Outcome) -> JsonRpcResponse {
    match out {
        Outcome::Reply(r) => r,
        Outcome::Shutdown => panic!("unexpected shutdown"),
    }
}

fn register_params(id: &str, addr: &str) -> JsonValue {
    RegisterInstanceParams { identifier: s(id), server_address: s(addr) }.to_json()
}

fn id_params(id: &str) -> JsonValue {
    QueryInstanceParams { identifier: s(id) }.to_json()
}

#[test]
fn two_registrations_one_wins() {
    let mut m = InstanceManager::new();
    let none: Vec<bool> = Vec::new();
    let first = reply(m.handle_request_at(request("register_instance", register_params("B", "127.0.0.1:1"), "1"), &none, T0));
    let second = reply(m.handle_request_at(request("register_instance", register_params("B", "127.0.0.1:2"), "2"), &none, T0));
    assert_eq!(first.result, Some(text("registered")));
    assert_eq!(first.error, None);
    assert_eq!(first.id, text("1"));
    assert_eq!(second.result, None);
    let err = second.error.unwrap();
    assert_eq!(err.code, errors::INSTANCE_ALREADY_EXISTS);
    assert_eq!(err.code, -32001);
    assert_eq!(err.message, s("Instance already exists"));
    assert_eq!(get(&err.data.unwrap(), "identifier"), Some(&text("B")));
    assert_eq!(second.id, text("2"));
}

#[test]
fn malformed_line_gets_parse_error() {
    let parsed = serde_json::from_str::<serde_json::Value>("not-json");
    assert!(parsed.is_err());
    let r = match route_message(None) {
        Route::Reply(r) => r,
        other => panic!("not a reply: {:?}", other),
    };
    assert_eq!(r.id, JsonValue::Null);
    assert_eq!(r.result, None);
    let e = r.error.unwrap();
    assert_eq!(e.code, -32700);
    assert_eq!(e.message, s("Parse error"));
    assert_eq!(parse_error_response().error.unwrap().code, errors::PARSE_ERROR);
}

#[test]
fn json_that_is_not_a_request_gets_parse_error() {
    let r = match route_message(Some(JsonValue::Object(vec![(s("method"), text("list_instances"))]))) {
        Route::Reply(r) => r,
        other => panic!("not a reply: {:?}", other),
    };
    assert_eq!(r.error.unwrap().code, errors::PARSE_ERROR);
    assert_eq!(r.id, JsonValue::Null);
}

#[test]
fn query_scenario_over_the_protocol() {
    let mut m = InstanceManager::new();
    let none: Vec<bool> = Vec::new();
    reply(m.handle_request_at(request("register_instance", register_params("A", "127.0.0.1:9000"), "r"), &none, T0));
    let q = reply(m.handle_request_at(request("query_instance", id_params("A"), "q"), &none, T0));
    let snap = q.result.unwrap();
    assert_eq!(get(&snap, "identifier"), Some(&text("A")));
    assert_eq!(get(&snap, "server_address"), Some(&text("127.0.0.1:9000")));
    assert_eq!(get(&snap, "health_status"), Some(&text("Unknown")));
    assert_eq!(get(&snap, "last_health_check"), Some(&text("2023-11-14T22:13:20.123Z")));

    let l = reply(m.handle_request_at(request("list_instances", JsonValue::Object(vec![]), "l"), &vec![true], T0 + 877));
    match l.result.unwrap() {
        JsonValue::Array(items) => {
            assert_eq!(items.len(), 1);
            assert_eq!(get(&items[0], "health_status"), Some(&text("Healthy")));
            assert_eq!(get(&items[0], "last_health_check"), Some(&text("2023-11-14T22:13:21Z")));
        }
        other => panic!("not an array: {:?}", other),
    }
    let l = reply(m.handle_request_at(request("list_instances", JsonValue::Object(vec![]), "l"), &vec![false], T0 + 2_000));
    assert_eq!(l.result, Some(JsonValue::Array(vec![])));
    let q = reply(m.handle_request_at(request("query_instance", id_params("A"), "q"), &none, T0));
    assert_eq!(q.result, Some(JsonValue::Null));
    assert_eq!(q.error, None);
}

#[test]
fn unregister_over_the_protocol() {
    let mut m = InstanceManager::new();
    let none: Vec<bool> = Vec::new();
    let params = UnregisterInstanceParams { identifier: s("Z") }.to_json();
    let r = reply(m.handle_request_at(request("unregister_instance", params, "u"), &none, T0));
    let e = r.error.unwrap();
    assert_eq!(e.code, errors::INSTANCE_NOT_FOUND);
    assert_eq!(e.message, s("Instance not found"));
    assert_eq!(get(&e.data.unwrap(), "identifier"), Some(&text("Z")));
    reply(m.handle_request_at(request("register_instance", register_params("Z", "h:1"), "r"), &none, T0));
    let params = UnregisterInstanceParams { identifier: s("Z") }.to_json();
    let r = reply(m.handle_request_at(request("unregister_instance", params, "u"), &none, T0));
    assert_eq!(r.result, Some(text("unregistered")));
    let q = reply(m.handle_request_at(request("query_instance", id_params("Z"), "q"), &none, T0));
    assert_eq!(q.result, Some(JsonValue::Null));
}

#[test]
fn unknown_method_and_bad_params() {
    let mut m = InstanceManager::new();
    let none: Vec<bool> = Vec::new();
    let r = reply(m.handle_request_at(request("frobnicate", JsonValue::Null, "x"), &none, T0));
    let e = r.error.unwrap();
    assert_eq!(e.code, -32601);
    assert_eq!(e.message, s("Method not found"));
    assert_eq!(e.data, None);

    let r = reply(m.handle_request_at(request("query_instance", JsonValue::Object(vec![]), "x"), &none, T0));
    let e = r.error.unwrap();
    assert_eq!(e.code, errors::INTERNAL_ERROR);
    assert_eq!(e.message, s("Invalid parameters: missing field `identifier`"));

    let r = reply(m.handle_request_at(request("register_instance", JsonValue::Object(vec![(s("identifier"), text("A")), (s("server_address"), JsonValue::Integer(3))]), "x"), &none, T0));
    assert_eq!(r.error.unwrap().message, s("Invalid parameters: invalid type for field `server_address`, expected a string"));

    let r = reply(m.handle_request_at(request("unregister_instance", JsonValue::Bool(true), "x"), &none, T0));
    assert_eq!(r.error.unwrap().message, s("Invalid parameters: invalid type: expected an object"));
    assert_eq!(m.len(), 0);
}

#[test]
fn shutdown_request_ends_the_server() {
    let mut m = InstanceManager::new();
    let out = m.handle_request_at(request("shutdown", JsonValue::Object(vec![]), "s"), &Vec::new(), T0);
    assert_eq!(out, Outcome::Shutdown);
}

#[test]
fn handle_request_probes_only_for_listing() {
    let mut m = InstanceManager::new();
    let none: Vec<bool> = Vec::new();
    reply(m.handle_request_at(request("register_instance", register_params("A", "h:1"), "r"), &none, T0));
    let q = reply(m.handle_request(request("query_instance", id_params("A"), "q"), &|_: &String| -> bool { panic!("probed") }));
    assert!(q.result.is_some());
    let l = reply(m.handle_request(request("list_instances", JsonValue::Object(vec![]), "l"), &|_: &String| false));
    assert_eq!(l.result, Some(JsonValue::Array(vec![])));
}

#[test]
fn request_round_trip() {
    let r = JsonRpcRequest {
        jsonrpc: s("2.0"),
        method: s("register_instance"),
        params: register_params("A", "h:1"),
        id: text("abc"),
    };
    let copy = JsonRpcRequest {
        jsonrpc: s("2.0"),
        method: s("register_instance"),
        params: register_params("A", "h:1"),
        id: text("abc"),
    };
    assert_eq!(JsonRpcRequest::from_json(r.to_json()), Some(copy));
}

#[test]
fn response_round_trip_keeps_absent_members_absent() {
    let make = || JsonRpcResponse {
        jsonrpc: s("2.0"),
        result: None,
        error: Some(JsonRpcError { code: -32002, message: s("Instance not found"), data: None }),
        id: JsonValue::Integer(7),
    };
    let v = make().to_json();
    assert_eq!(get(&v, "result"), None);
    assert_eq!(get(&v, "error").and_then(|e| get(e, "data")), None);
    assert_eq!(JsonRpcResponse::from_json(v), Some(make()));

    let make = || JsonRpcResponse { jsonrpc: s("2.0"), result: Some(JsonValue::Null), error: None, id: text("q") };
    let v = make().to_json();
    assert_eq!(get(&v, "result"), Some(&JsonValue::Null));
    assert_eq!(get(&v, "error"), None);
    assert_eq!(JsonRpcResponse::from_json(v), Some(make()));
}

#[test]
fn response_with_null_error_reads_as_success() {
    let v = JsonValue::Object(vec![
        (s("jsonrpc"), text("2.0")),
        (s("result"), text("ok")),
        (s("error"), JsonValue::Null),
        (s("id"), text("1")),
    ]);
    let r = JsonRpcResponse::from_json(v).unwrap();
    assert_eq!(r.error, None);
    assert_eq!(r.result, Some(text("ok")));
}

#[test]
fn decoding_takes_first_member_and_rejects_bad_code() {
    let v = JsonValue::Object(vec![
        (s("code"), JsonValue::Integer(1)),
        (s("message"), text("first")),
        (s("message"), text("second")),
    ]);
    assert_eq!(JsonRpcError::from_json(v).unwrap().message, s("first"));
    let v = JsonValue::Object(vec![
        (s("code"), JsonValue::Integer(1i64 << 40)),
        (s("message"), text("m")),
    ]);
    assert_eq!(JsonRpcError::from_json(v), None);
    assert_eq!(JsonRpcRequest::from_json(JsonValue::Array(vec![])), None);
}

#[test]
fn snapshot_json_form() {
    let snap = InstanceResult {
        identifier: s("/home/u/p"),
        server_address: s("127.0.0.1:5000"),
        health_status: HealthStatus::Healthy,
        last_health_check: 0,
    };
    let v = snap.to_json();
    assert_eq!(get(&v, "last_health_check"), Some(&text("1970-01-01T00:00:00Z")));
    assert_eq!(get(&v, "health_status"), Some(&text("Healthy")));
    assert_eq!(HealthStatus::Unknown.name(), s("Unknown"));
}

#[test]
fn lookups_are_routed_to_shared_access() {
    let mut m = InstanceManager::new();
    m.register_instance(s("A"), s("h:1"), T0).unwrap();
    let q = request("query_instance", id_params("A"), "q");
    let routed = route_message(Some(q.to_json()));
    let resp = match routed {
        Route::Read(req) => m.handle_query(req),
        other => panic!("not a read: {:?}", other),
    };
    assert_eq!(resp.id, text("q"));
    assert_eq!(get(&resp.result.unwrap(), "identifier"), Some(&text("A")));
    let l = request("list_instances", JsonValue::Object(vec![]), "l");
    assert!(matches!(route_message(Some(l.to_json())), Route::Write(_)));
}
