//! Routing of one request to the registry and the response it gets.
use vstd::prelude::*;
use crate::clock::current_time;
use crate::envelope::{decoded_request, JsonRpcError, JsonRpcRequest, JsonRpcResponse};
use crate::errors::{
    INSTANCE_ALREADY_EXISTS, INSTANCE_NOT_FOUND, INTERNAL_ERROR, METHOD_NOT_FOUND, PARSE_ERROR,
};
use crate::json::{key_is, lookup, push_member, JsonValue};
use crate::model::{
    decoded_identifier, decoded_registration, encodes_snapshot, snapshot_of, valid_timestamp,
    InstanceInfo, InstanceResult, QueryInstanceParams, RegisterInstanceParams, Timestamp,
    UnregisterInstanceParams,
};
use crate::registry::{
    answered_by, contains_id, probe_all, query_result, register_step, swept, InstanceManager,
};
use vstd::string::StringExecFns;

verus! {

/// What the server does after one request: send a response, or end the
/// process without one.
#[derive(Debug, PartialEq, Eq)]
pub enum Outcome {
    Reply(JsonRpcResponse),
    Shutdown,
}

/// `resp` carries an error with this code and message and no result.
pub open spec fn error_reply(resp: JsonRpcResponse, code: i32, message: Seq<char>) -> bool {
    &&& resp.result is None
    &&& resp.error matches Some(e) && e.code == code && e.message@ == message
}

/// `resp` carries the error's `data` object `{identifier: id}`.
pub open spec fn names_identifier(resp: JsonRpcResponse, id: Seq<char>) -> bool {
    resp.error matches Some(e) && e.data matches Some(JsonValue::Object(f)) && lookup(
        f@,
        "identifier"@,
    ) matches Some(JsonValue::Text(s)) && s@ == id
}

/// `resp` carries the text result `text` and no error.
pub open spec fn text_reply(resp: JsonRpcResponse, text: Seq<char>) -> bool {
    &&& resp.error is None
    &&& resp.result matches Some(JsonValue::Text(s)) && s@ == text
}

/// `resp` reports parameters that could not be read, with the reason.
pub open spec fn invalid_params_reply(resp: JsonRpcResponse, reason: Seq<char>) -> bool {
    &&& error_reply(resp, INTERNAL_ERROR, "Invalid parameters: "@ + reason)
    &&& resp.error->Some_0.data is None
}

/// `v` is the answer to a lookup: `null`, or the snapshot found.
pub open spec fn encodes_query_answer(v: JsonValue, q: Option<InstanceResult>) -> bool {
    match q {
        None => v == JsonValue::Null,
        Some(s) => encodes_snapshot(v, s),
    }
}

/// `v` is the array of the snapshots of `recs`, in order.
pub open spec fn encodes_listing(v: JsonValue, recs: Seq<InstanceInfo>) -> bool {
    &&& v is Array
    &&& v->Array_0@.len() == recs.len()
    &&& forall|i: int|
        0 <= i < recs.len() ==> encodes_snapshot(v->Array_0@[i], #[trigger] snapshot_of(recs[i]))
}

/// The answer to `query_instance`.
pub open spec fn answers_query(
    before: Seq<InstanceInfo>,
    after: Seq<InstanceInfo>,
    req: JsonRpcRequest,
    resp: JsonRpcResponse,
) -> bool {
    &&& after == before
    &&& match decoded_identifier(req.params) {
        Ok(id) => resp.error is None && (resp.result matches Some(v) && encodes_query_answer(
            v,
            query_result(before, id@),
        )),
        Err(reason) => invalid_params_reply(resp, reason),
    }
}

/// The answer to `list_instances`: the sweep runs first.
pub open spec fn answers_list(
    before: Seq<InstanceInfo>,
    after: Seq<InstanceInfo>,
    alive: Seq<bool>,
    now: i64,
    resp: JsonRpcResponse,
) -> bool {
    &&& after == swept(before, alive, now)
    &&& resp.error is None
    &&& resp.result matches Some(v) && encodes_listing(v, after)
}

/// The answer to `register_instance`.
pub open spec fn answers_register(
    before: Seq<InstanceInfo>,
    after: Seq<InstanceInfo>,
    req: JsonRpcRequest,
    now: i64,
    resp: JsonRpcResponse,
) -> bool {
    match decoded_registration(req.params) {
        Ok(p) => {
            &&& after == register_step(before, p.0, p.1, now).0
            &&& if register_step(before, p.0, p.1, now).1 {
                text_reply(resp, "registered"@)
            } else {
                error_reply(resp, INSTANCE_ALREADY_EXISTS, "Instance already exists"@)
                    && names_identifier(resp, p.0@)
            }
        },
        Err(reason) => after == before && invalid_params_reply(resp, reason),
    }
}

/// The answer to `unregister_instance`.
pub open spec fn answers_unregister(
    before: Seq<InstanceInfo>,
    after: Seq<InstanceInfo>,
    req: JsonRpcRequest,
    resp: JsonRpcResponse,
) -> bool {
    match decoded_identifier(req.params) {
        Ok(id) => if contains_id(before, id@) {
            &&& exists|i: int|
                0 <= i < before.len() && before[i].identifier@ == id@ && after == before.remove(i)
            &&& text_reply(resp, "unregistered"@)
        } else {
            &&& after == before
            &&& error_reply(resp, INSTANCE_NOT_FOUND, "Instance not found"@)
            &&& names_identifier(resp, id@)
        },
        Err(reason) => after == before && invalid_params_reply(resp, reason),
    }
}

/// `out` is how the registry answers `req` at `now`, taking it from records
/// `before` to `after`, when a sweep sees the answers `alive`.
pub open spec fn answers(
    before: Seq<InstanceInfo>,
    after: Seq<InstanceInfo>,
    req: JsonRpcRequest,
    alive: Seq<bool>,
    now: i64,
    out: Outcome,
) -> bool {
    let m = req.method@;
    if m == "shutdown"@ {
        out is Shutdown && after == before
    } else {
        &&& out matches Outcome::Reply(resp) && resp.jsonrpc@ == "2.0"@ && resp.id == req.id && if m
            == "query_instance"@ {
            answers_query(before, after, req, resp)
        } else if m == "list_instances"@ {
            answers_list(before, after, alive, now, resp)
        } else if m == "register_instance"@ {
            answers_register(before, after, req, now, resp)
        } else if m == "unregister_instance"@ {
            answers_unregister(before, after, req, resp)
        } else {
            after == before && error_reply(resp, METHOD_NOT_FOUND, "Method not found"@)
                && resp.error->Some_0.data is None
        }
    }
}

/// The response to a line that holds no request.
pub fn parse_error_response() -> (r: JsonRpcResponse)
    ensures
        r.jsonrpc@ == "2.0"@,
        r.id == JsonValue::Null,
        error_reply(r, PARSE_ERROR, "Parse error"@),
        r.error->Some_0.data is None,
{
    JsonRpcResponse {
        jsonrpc: "2.0".to_string(),
        result: None,
        error: Some(JsonRpcError { code: PARSE_ERROR, message: "Parse error".to_string(), data: None }),
        id: JsonValue::Null,
    }
}

fn success(result: JsonValue, id: JsonValue) -> (r: JsonRpcResponse)
    ensures
        r.jsonrpc@ == "2.0"@,
        r.id == id,
        r.error is None,
        r.result == Some(result),
{
    JsonRpcResponse { jsonrpc: "2.0".to_string(), result: Some(result), error: None, id }
}

fn failure(code: i32, message: String, data: Option<JsonValue>, id: JsonValue) -> (r: JsonRpcResponse)
    ensures
        r.jsonrpc@ == "2.0"@,
        r.id == id,
        r.result is None,
        r.error == Some(JsonRpcError { code, message, data }),
{
    JsonRpcResponse {
        jsonrpc: "2.0".to_string(),
        result: None,
        error: Some(JsonRpcError { code, message, data }),
        id,
    }
}

fn invalid_params(reason: String, id: JsonValue) -> (r: JsonRpcResponse)
    ensures
        r.jsonrpc@ == "2.0"@,
        r.id == id,
        invalid_params_reply(r, reason@),
{
    let m = "Invalid parameters: ".to_string();
    failure(INTERNAL_ERROR, m.concat(reason.as_str()), None, id)
}

/// The error data `{identifier: id}`.
fn identifier_data(id: String) -> (r: JsonValue)
    ensures
        r is Object,
        lookup(r->Object_0@, "identifier"@) == Some(JsonValue::Text(id)),
{
    let mut f: Vec<(String, JsonValue)> = Vec::new();
    push_member(&mut f, "identifier", JsonValue::Text(id));
    JsonValue::Object(f)
}

/// The JSON array of the given snapshots.
fn listing_json(snaps: Vec<InstanceResult>, recs: Ghost<Seq<InstanceInfo>>) -> (r: JsonValue)
    requires
        snaps@ == recs@.map_values(|x: InstanceInfo| snapshot_of(x)),
        forall|i: int| 0 <= i < recs@.len() ==> valid_timestamp(#[trigger] recs@[i].last_health_check),
    ensures
        encodes_listing(r, recs@),
{
    let mut rest = snaps;
    let mut items: Vec<JsonValue> = Vec::new();
    let ghost n = recs@.len();
    while rest.len() > 0
        invariant
            rest@.len() + items@.len() == n,
            n == recs@.len(),
            forall|i: int| 0 <= i < rest@.len() ==> rest@[i] == snapshot_of(recs@[i]),
            forall|i: int| 0 <= i < recs@.len() ==> valid_timestamp(#[trigger] recs@[i].last_health_check),
            forall|k: int|
                0 <= k < items@.len() ==> encodes_snapshot(
                    items@[k],
                    snapshot_of(recs@[n - 1 - k]),
                ),
        decreases rest@.len(),
    {
        let ghost k = rest@.len() - 1;
        let s = rest.pop().unwrap();
        assert(s == snapshot_of(recs@[k]));
        items.push(s.to_json());
    }
    let mut out: Vec<JsonValue> = Vec::new();
    while items.len() > 0
        invariant
            items@.len() + out@.len() == n,
            n == recs@.len(),
            forall|k: int|
                0 <= k < items@.len() ==> encodes_snapshot(
                    items@[k],
                    snapshot_of(recs@[n - 1 - k]),
                ),
            forall|i: int| 0 <= i < out@.len() ==> encodes_snapshot(out@[i], snapshot_of(recs@[i])),
        decreases items@.len(),
    {
        let v = items.pop().unwrap();
        out.push(v);
    }
    JsonValue::Array(out)
}

impl InstanceManager {
    /// The reply to a lookup with parameters `params` under id `id`.
    fn query_reply(&self, params: JsonValue, id: JsonValue) -> (resp: JsonRpcResponse)
        requires
            self.wf(),
        ensures
            resp.jsonrpc@ == "2.0"@,
            resp.id == id,
            match decoded_identifier(params) {
                Ok(ident) => resp.error is None && (resp.result matches Some(v)
                    && encodes_query_answer(v, query_result(self@, ident@))),
                Err(reason) => invalid_params_reply(resp, reason),
            },
    {
        match QueryInstanceParams::from_json(params) {
            Ok(p) => {
                let answer = match self.query_instance(&p.identifier) {
                    Some(s) => {
                        proof {
                            let i = choose|i: int|
                                0 <= i < self@.len() && self@[i].identifier@ == p.identifier@;
                            assert(self@[i].timestamps_valid());
                        }
                        s.to_json()
                    },
                    None => JsonValue::Null,
                };
                success(answer, id)
            },
            Err(reason) => invalid_params(reason, id),
        }
    }

    /// Answers a request that only reads: a lookup. Needs only shared
    /// access, so lookups may run side by side.
    pub fn handle_query(&self, request: JsonRpcRequest) -> (resp: JsonRpcResponse)
        requires
            self.wf(),
            request.method@ == "query_instance"@,
        ensures
            resp.jsonrpc@ == "2.0"@,
            resp.id == request.id,
            answers_query(self@, self@, request, resp),
    {
        let JsonRpcRequest { jsonrpc: _, method: _, params, id } = request;
        self.query_reply(params, id)
    }

    /// Answers `request` at `now`; a listing first applies the sweep in
    /// which the probe of the `i`-th record answered `alive[i]`.
    pub fn handle_request_at(
        &mut self,
        request: JsonRpcRequest,
        alive: &Vec<bool>,
        now: Timestamp,
    ) -> (out: Outcome)
        requires
            old(self).wf(),
            valid_timestamp(now),
            request.method@ == "list_instances"@ ==> alive@.len() == old(self)@.len(),
        ensures
            final(self).wf(),
            answers(old(self)@, final(self)@, request, alive@, now, out),
    {
        let JsonRpcRequest { jsonrpc: _, method, params, id } = request;
        if key_is(&method, "shutdown") {
            return Outcome::Shutdown;
        }
        proof {
            reveal_strlit("shutdown");
            reveal_strlit("query_instance");
            reveal_strlit("list_instances");
            reveal_strlit("register_instance");
            reveal_strlit("unregister_instance");
            assert("shutdown"@.len() != "query_instance"@.len());
            assert("shutdown"@.len() != "list_instances"@.len());
            assert("shutdown"@.len() != "register_instance"@.len());
            assert("shutdown"@.len() != "unregister_instance"@.len());
            assert("query_instance"@[0] != "list_instances"@[0]);
            assert("query_instance"@.len() != "register_instance"@.len());
            assert("query_instance"@.len() != "unregister_instance"@.len());
            assert("list_instances"@.len() != "register_instance"@.len());
            assert("list_instances"@.len() != "unregister_instance"@.len());
            assert("register_instance"@.len() != "unregister_instance"@.len());
        }
        let resp = if key_is(&method, "query_instance") {
            self.query_reply(params, id)
        } else if key_is(&method, "list_instances") {
            let snaps = self.list_instances_with(alive, now);
            proof {
                assert forall|i: int| 0 <= i < self@.len() implies valid_timestamp(
                    #[trigger] self@[i].last_health_check,
                ) by {
                    assert(self@[i].timestamps_valid());
                }
            }
            success(listing_json(snaps, Ghost(self@)), id)
        } else if key_is(&method, "register_instance") {
            match RegisterInstanceParams::from_json(params) {
                Ok(p) => {
                    let identifier = p.identifier.clone();
                    match self.register_instance(p.identifier, p.server_address, now) {
                        Ok(()) => success(JsonValue::Text("registered".to_string()), id),
                        Err(_) => failure(
                            INSTANCE_ALREADY_EXISTS,
                            "Instance already exists".to_string(),
                            Some(identifier_data(identifier)),
                            id,
                        ),
                    }
                },
                Err(reason) => invalid_params(reason, id),
            }
        } else if key_is(&method, "unregister_instance") {
            match UnregisterInstanceParams::from_json(params) {
                Ok(p) => match self.unregister_instance(&p.identifier) {
                    Ok(()) => success(JsonValue::Text("unregistered".to_string()), id),
                    Err(_) => failure(
                        INSTANCE_NOT_FOUND,
                        "Instance not found".to_string(),
                        Some(identifier_data(p.identifier)),
                        id,
                    ),
                },
                Err(reason) => invalid_params(reason, id),
            }
        } else {
            failure(METHOD_NOT_FOUND, "Method not found".to_string(), None, id)
        };
        Outcome::Reply(resp)
    }

    /// Answers `request` at the current time; a listing first sweeps with
    /// `probe`. Whatever the clock and the probe gave, the outcome is the
    /// answer for some valid time and some answers of the probe.
    pub fn handle_request<P: Fn(&String) -> bool>(
        &mut self,
        request: JsonRpcRequest,
        probe: &P,
    ) -> (out: Outcome)
        requires
            old(self).wf(),
            forall|a: &String| probe.requires((a,)),
        ensures
            final(self).wf(),
            exists|alive: Seq<bool>, now: i64|
                valid_timestamp(now) && (request.method@ == "list_instances"@ ==> answered_by(
                    probe,
                    old(self)@,
                    alive,
                )) && answers(old(self)@, final(self)@, request, alive, now, out),
    {
        let now = current_time();
        let alive = if key_is(&request.method, "list_instances") {
            let targets = self.probe_targets();
            probe_all(&targets, probe)
        } else {
            Vec::new()
        };
        self.handle_request_at(request, &alive, now)
    }
}

/// Where one received message goes.
#[derive(Debug, PartialEq, Eq)]
pub enum Route {
    /// A lookup, which needs only shared access to the registry.
    Read(JsonRpcRequest),
    /// Any other request, which needs exclusive access.
    Write(JsonRpcRequest),
    /// No request could be read; this is the reply.
    Reply(JsonRpcResponse),
}

/// Sorts one received message: `None` for a line that is not JSON, else the
/// JSON it held. Anything that is not a request gets the parse error, with
/// a `null` id.
pub fn route_message(message: Option<JsonValue>) -> (r: Route)
    ensures
        match message {
            Some(v) if decoded_request(v) is Some => if decoded_request(v)->Some_0.method@
                == "query_instance"@ {
                r == Route::Read(decoded_request(v)->Some_0)
            } else {
                r == Route::Write(decoded_request(v)->Some_0)
            },
            _ => r matches Route::Reply(resp) && resp.jsonrpc@ == "2.0"@ && resp.id
                == JsonValue::Null && error_reply(resp, PARSE_ERROR, "Parse error"@),
        },
{
    match message {
        Some(v) => match JsonRpcRequest::from_json(v) {
            Some(request) => if key_is(&request.method, "query_instance") {
                Route::Read(request)
            } else {
                Route::Write(request)
            },
            None => Route::Reply(parse_error_response()),
        },
        None => Route::Reply(parse_error_response()),
    }
}

} // verus!
