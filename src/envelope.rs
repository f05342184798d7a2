//! Request and response envelopes and their JSON form.
use vstd::prelude::*;
use crate::json::{lookup, push_member, take_fields, JsonValue};

verus! {

/// The error object of a response.
#[derive(Debug, PartialEq, Eq)]
pub struct JsonRpcError {
    pub code: i32,
    pub message: String,
    pub data: Option<JsonValue>,
}

/// One request: protocol tag, method name, parameters and the caller's
/// correlation id.
#[derive(Debug, PartialEq, Eq)]
pub struct JsonRpcRequest {
    pub jsonrpc: String,
    pub method: String,
    pub params: JsonValue,
    pub id: JsonValue,
}

/// One response: protocol tag, a result or an error, and the id of the
/// request it answers (`Null` when the request could not be read).
#[derive(Debug, PartialEq, Eq)]
pub struct JsonRpcResponse {
    pub jsonrpc: String,
    pub result: Option<JsonValue>,
    pub error: Option<JsonRpcError>,
    pub id: JsonValue,
}

/// `v` is the JSON form of `e`: `code`, `message`, and `data` only when
/// there is one.
pub open spec fn encodes_error(v: JsonValue, e: JsonRpcError) -> bool {
    &&& v is Object
    &&& lookup(v->Object_0@, "code"@) == Some(JsonValue::Integer(e.code as i64))
    &&& lookup(v->Object_0@, "message"@) == Some(JsonValue::Text(e.message))
    &&& lookup(v->Object_0@, "data"@) == e.data
}

/// `v` is the JSON form of `r`.
pub open spec fn encodes_request(v: JsonValue, r: JsonRpcRequest) -> bool {
    &&& v is Object
    &&& lookup(v->Object_0@, "jsonrpc"@) == Some(JsonValue::Text(r.jsonrpc))
    &&& lookup(v->Object_0@, "method"@) == Some(JsonValue::Text(r.method))
    &&& lookup(v->Object_0@, "params"@) == Some(r.params)
    &&& lookup(v->Object_0@, "id"@) == Some(r.id)
}

/// `v` is the JSON form of `r`: `result` and `error` appear only when `r`
/// has them.
pub open spec fn encodes_response(v: JsonValue, r: JsonRpcResponse) -> bool {
    &&& v is Object
    &&& lookup(v->Object_0@, "jsonrpc"@) == Some(JsonValue::Text(r.jsonrpc))
    &&& lookup(v->Object_0@, "result"@) == r.result
    &&& match r.error {
        None => lookup(v->Object_0@, "error"@) is None,
        Some(e) => lookup(v->Object_0@, "error"@) is Some && encodes_error(
            lookup(v->Object_0@, "error"@)->Some_0,
            e,
        ),
    }
    &&& lookup(v->Object_0@, "id"@) == Some(r.id)
}

/// The error object that `v` holds: an object with an integer `code` in the
/// range of `i32`, a string `message`, and any `data`.
pub open spec fn decoded_error(v: JsonValue) -> Option<JsonRpcError> {
    match v {
        JsonValue::Object(f) => match (lookup(f@, "code"@), lookup(f@, "message"@)) {
            (Some(JsonValue::Integer(c)), Some(JsonValue::Text(m))) => if i32::MIN <= c
                <= i32::MAX {
                Some(JsonRpcError { code: c as i32, message: m, data: lookup(f@, "data"@) })
            } else {
                None
            },
            _ => None,
        },
        _ => None,
    }
}

/// The request that `v` holds: an object with string `jsonrpc` and `method`
/// members and any `params` and `id`.
pub open spec fn decoded_request(v: JsonValue) -> Option<JsonRpcRequest> {
    match v {
        JsonValue::Object(f) => match (
            lookup(f@, "jsonrpc"@),
            lookup(f@, "method"@),
            lookup(f@, "params"@),
            lookup(f@, "id"@),
        ) {
            (Some(JsonValue::Text(j)), Some(JsonValue::Text(m)), Some(p), Some(i)) => Some(
                JsonRpcRequest { jsonrpc: j, method: m, params: p, id: i },
            ),
            _ => None,
        },
        _ => None,
    }
}

/// The response that `v` holds: an object with a string `jsonrpc` and an
/// `id`; `result` when present (a present `null` is a `Null` result);
/// `error` when present and not `null`, which must then be an error object.
pub open spec fn decoded_response(v: JsonValue) -> Option<JsonRpcResponse> {
    match v {
        JsonValue::Object(f) => match (lookup(f@, "jsonrpc"@), lookup(f@, "id"@)) {
            (Some(JsonValue::Text(j)), Some(i)) => match lookup(f@, "error"@) {
                None => Some(
                    JsonRpcResponse { jsonrpc: j, result: lookup(f@, "result"@), error: None, id: i },
                ),
                Some(JsonValue::Null) => Some(
                    JsonRpcResponse { jsonrpc: j, result: lookup(f@, "result"@), error: None, id: i },
                ),
                Some(ev) => match decoded_error(ev) {
                    Some(e) => Some(
                        JsonRpcResponse {
                            jsonrpc: j,
                            result: lookup(f@, "result"@),
                            error: Some(e),
                            id: i,
                        },
                    ),
                    None => None,
                },
            },
            _ => None,
        },
        _ => None,
    }
}

/// The member names of the envelopes are distinct.
proof fn lemma_member_names()
    ensures
        "code"@ != "message"@,
        "code"@ != "data"@,
        "message"@ != "data"@,
        "jsonrpc"@ != "method"@,
        "jsonrpc"@ != "params"@,
        "jsonrpc"@ != "id"@,
        "method"@ != "params"@,
        "method"@ != "id"@,
        "params"@ != "id"@,
        "jsonrpc"@ != "result"@,
        "jsonrpc"@ != "error"@,
        "result"@ != "error"@,
        "result"@ != "id"@,
        "error"@ != "id"@,
{
    reveal_strlit("code");
    reveal_strlit("message");
    reveal_strlit("data");
    reveal_strlit("jsonrpc");
    reveal_strlit("method");
    reveal_strlit("params");
    reveal_strlit("id");
    reveal_strlit("result");
    reveal_strlit("error");
    assert("code"@.len() != "message"@.len());
    assert("code"@[0] != "data"@[0]);
    assert("message"@.len() != "data"@.len());
    assert("jsonrpc"@.len() != "method"@.len());
    assert("jsonrpc"@.len() != "params"@.len());
    assert("jsonrpc"@.len() != "id"@.len());
    assert("method"@[0] != "params"@[0]);
    assert("method"@.len() != "id"@.len());
    assert("params"@.len() != "id"@.len());
    assert("jsonrpc"@.len() != "result"@.len());
    assert("jsonrpc"@.len() != "error"@.len());
    assert("result"@.len() != "error"@.len());
    assert("result"@.len() != "id"@.len());
    assert("error"@.len() != "id"@.len());
}

impl JsonRpcError {
    /// The JSON form of this error object.
    pub fn to_json(self) -> (r: JsonValue)
        ensures
            encodes_error(r, self),
    {
        proof {
            lemma_member_names();
        }
        let mut f: Vec<(String, JsonValue)> = Vec::new();
        push_member(&mut f, "code", JsonValue::Integer(self.code as i64));
        push_member(&mut f, "message", JsonValue::Text(self.message));
        match self.data {
            Some(d) => push_member(&mut f, "data", d),
            None => {},
        }
        JsonValue::Object(f)
    }

    /// Reads an error object.
    pub fn from_json(v: JsonValue) -> (r: Option<JsonRpcError>)
        ensures
            r == decoded_error(v),
    {
        match v {
            JsonValue::Object(f) => {
                let mut names: Vec<&str> = Vec::new();
                names.push("code");
                names.push("message");
                names.push("data");
                proof {
                    lemma_member_names();
                }
                let mut vals = take_fields(f, &names);
                let data = vals.pop().unwrap();
                let message = vals.pop().unwrap();
                let code = vals.pop().unwrap();
                match (code, message) {
                    (Some(JsonValue::Integer(c)), Some(JsonValue::Text(m))) => {
                        if i32::MIN as i64 <= c && c <= i32::MAX as i64 {
                            Some(JsonRpcError { code: c as i32, message: m, data })
                        } else {
                            None
                        }
                    },
                    _ => None,
                }
            },
            _ => None,
        }
    }
}

impl JsonRpcRequest {
    /// The JSON form of this request.
    pub fn to_json(self) -> (r: JsonValue)
        ensures
            encodes_request(r, self),
    {
        proof {
            lemma_member_names();
        }
        let mut f: Vec<(String, JsonValue)> = Vec::new();
        push_member(&mut f, "jsonrpc", JsonValue::Text(self.jsonrpc));
        push_member(&mut f, "method", JsonValue::Text(self.method));
        push_member(&mut f, "params", self.params);
        push_member(&mut f, "id", self.id);
        JsonValue::Object(f)
    }

    /// Reads a request.
    pub fn from_json(v: JsonValue) -> (r: Option<JsonRpcRequest>)
        ensures
            r == decoded_request(v),
    {
        match v {
            JsonValue::Object(f) => {
                let mut names: Vec<&str> = Vec::new();
                names.push("jsonrpc");
                names.push("method");
                names.push("params");
                names.push("id");
                proof {
                    lemma_member_names();
                }
                let mut vals = take_fields(f, &names);
                let id = vals.pop().unwrap();
                let params = vals.pop().unwrap();
                let method = vals.pop().unwrap();
                let jsonrpc = vals.pop().unwrap();
                match (jsonrpc, method, params, id) {
                    (Some(JsonValue::Text(j)), Some(JsonValue::Text(m)), Some(p), Some(i)) => Some(
                        JsonRpcRequest { jsonrpc: j, method: m, params: p, id: i },
                    ),
                    _ => None,
                }
            },
            _ => None,
        }
    }
}

impl JsonRpcResponse {
    /// The JSON form of this response; `result` and `error` are left out
    /// when absent.
    pub fn to_json(self) -> (r: JsonValue)
        ensures
            encodes_response(r, self),
    {
        proof {
            lemma_member_names();
        }
        let mut f: Vec<(String, JsonValue)> = Vec::new();
        push_member(&mut f, "jsonrpc", JsonValue::Text(self.jsonrpc));
        match self.result {
            Some(x) => push_member(&mut f, "result", x),
            None => {},
        }
        match self.error {
            Some(e) => push_member(&mut f, "error", e.to_json()),
            None => {},
        }
        push_member(&mut f, "id", self.id);
        JsonValue::Object(f)
    }

    /// Reads a response.
    pub fn from_json(v: JsonValue) -> (r: Option<JsonRpcResponse>)
        ensures
            r == decoded_response(v),
    {
        match v {
            JsonValue::Object(f) => {
                let mut names: Vec<&str> = Vec::new();
                names.push("jsonrpc");
                names.push("result");
                names.push("error");
                names.push("id");
                proof {
                    lemma_member_names();
                }
                let mut vals = take_fields(f, &names);
                let id = vals.pop().unwrap();
                let error = vals.pop().unwrap();
                let result = vals.pop().unwrap();
                let jsonrpc = vals.pop().unwrap();
                match (jsonrpc, id) {
                    (Some(JsonValue::Text(j)), Some(i)) => match error {
                        None => Some(JsonRpcResponse { jsonrpc: j, result, error: None, id: i }),
                        Some(JsonValue::Null) => Some(
                            JsonRpcResponse { jsonrpc: j, result, error: None, id: i },
                        ),
                        Some(ev) => match JsonRpcError::from_json(ev) {
                            Some(e) => Some(
                                JsonRpcResponse { jsonrpc: j, result, error: Some(e), id: i },
                            ),
                            None => None,
                        },
                    },
                    _ => None,
                }
            },
            _ => None,
        }
    }
}

/// Reading back the JSON form of a request gives the same request.
pub proof fn lemma_request_round_trip(v: JsonValue, r: JsonRpcRequest)
    requires
        encodes_request(v, r),
    ensures
        decoded_request(v) == Some(r),
{
}

/// Reading back the JSON form of an error object gives the same object.
pub proof fn lemma_error_round_trip(v: JsonValue, e: JsonRpcError)
    requires
        encodes_error(v, e),
    ensures
        decoded_error(v) == Some(e),
{
}

/// Reading back the JSON form of a response gives the same response, with
/// `result` and `error` absent exactly where they were.
pub proof fn lemma_response_round_trip(v: JsonValue, r: JsonRpcResponse)
    requires
        encodes_response(v, r),
    ensures
        decoded_response(v) == Some(r),
{
    match r.error {
        Some(e) => {
            let ev = lookup(v->Object_0@, "error"@)->Some_0;
            lemma_error_round_trip(ev, e);
            assert(ev is Object);
        },
        None => {},
    }
}

} // verus!
