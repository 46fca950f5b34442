//! The JSON-RPC dispatcher's rules: which requests are well-formed, which
//! command each one becomes, and which envelope answers it.
//!
//! The transport — HTTP, JSON framing — stays outside; the dispatcher here
//! takes a decoded request (method name, identifier, ordered string
//! parameters) and plain actor replies.  For every request the rate check
//! comes first, whatever the method; only a request that is within budget,
//! names a known method and carries the right number of parameters reaches
//! the storage actor.  Every response carries either a result or an error,
//! never both, and always echoes the request identifier unchanged.

use vstd::prelude::*;
use vstd::string::StringExecFns;
use crate::backend::{StorageError, window_step};
use crate::rate_limiting;
use crate::storage;

verus! {

/// Client error: the wrong number of parameters for the method.
pub const CODE_INVALID_PARAMS: i32 = -32602;

/// Client error: the method name is not one the service offers.
pub const CODE_METHOD_NOT_AVAILABLE: i32 = -32601;

/// The backend call behind the request failed.
pub const CODE_INTERNAL_ERROR: i32 = -32603;

/// The client's request budget for the current window is exhausted.
pub const CODE_RATE_LIMIT: i32 = 100429;

/// A decoded request: the protocol version member, the method name, the
/// caller's identifier (echoed back unchanged), and the ordered parameters.
pub struct JSONRPCRequest {
    pub json_rpc: String,
    pub method: String,
    pub id: i32,
    pub params: Vec<String>,
}

/// A success envelope: version, result, echoed identifier.
pub struct JSONRPCOkResponse {
    pub json_rpc: String,
    pub result: String,
    pub id: i32,
}

/// The error member of an error envelope: a code and a message.
pub struct JSONRPCErrorDetails {
    pub code: i32,
    pub message: String,
}

/// An error envelope: version, error details, echoed identifier.
pub struct JSONRPCErrorResponse {
    pub json_rpc: String,
    pub error: JSONRPCErrorDetails,
    pub id: i32,
}

/// A response: a result or an error, never both.
pub enum JSONRPCResponse {
    Success(JSONRPCOkResponse),
    Failure(JSONRPCErrorResponse),
}

/// `r` is the error envelope for identifier `id` with error code `code`,
/// under protocol version "2.0".
pub open spec fn is_error_response(r: JSONRPCResponse, id: i32, code: i32) -> bool {
    match r {
        JSONRPCResponse::Failure(e) => e.id == id && e.error.code == code && e.json_rpc@ == "2.0"@,
        JSONRPCResponse::Success(_) => false,
    }
}

/// `r` is the success envelope for identifier `id` carrying `result`, under
/// protocol version "2.0".
pub open spec fn is_ok_response(r: JSONRPCResponse, id: i32, result: Seq<char>) -> bool {
    match r {
        JSONRPCResponse::Success(o) => o.id == id && o.result@ == result && o.json_rpc@ == "2.0"@,
        JSONRPCResponse::Failure(_) => false,
    }
}

/// Build the error envelope for `id` with this code and message.
pub fn rpc_error(id: i32, code: i32, message: &str) -> (r: JSONRPCResponse)
    ensures
        is_error_response(r, id, code),
        r matches JSONRPCResponse::Failure(e) && e.error.message@ == message@,
{
    JSONRPCResponse::Failure(
        JSONRPCErrorResponse {
            json_rpc: String::from_str("2.0"),
            error: JSONRPCErrorDetails { code, message: message.to_owned() },
            id,
        },
    )
}

/// Does the method name equal this literal?
fn method_is(method: &String, name: &str) -> (r: bool)
    ensures
        r == (method@ == name@),
{
    let owned: String = name.to_owned();
    *method == owned
}

/// What the dispatcher owes a request that passed the rate check: `get` with
/// exactly one parameter becomes a lookup command, `set` with exactly two a
/// write command; a known method with any other arity is a client error, and
/// an unknown method is rejected as not available — in both of the latter
/// cases no command is produced, so nothing reaches the storage actor.
pub open spec fn dispatched(req: JSONRPCRequest, r: Result<storage::Command, JSONRPCResponse>) -> bool {
    &&& (req.method@ == "get"@ && req.params@.len() == 1 ==> (r matches Ok(c) && c matches
        storage::Command::Get { key } && key@ == req.params@[0]@))
    &&& (req.method@ == "get"@ && req.params@.len() != 1 ==> (r matches Err(resp)
        && is_error_response(resp, req.id, CODE_INVALID_PARAMS)))
    &&& (req.method@ == "set"@ && req.params@.len() == 2 ==> (r matches Ok(c) && c matches
        storage::Command::Put { key, value } && key@ == req.params@[0]@ && value@
        == req.params@[1]@))
    &&& (req.method@ == "set"@ && req.params@.len() != 2 ==> (r matches Err(resp)
        && is_error_response(resp, req.id, CODE_INVALID_PARAMS)))
    &&& (req.method@ != "get"@ && req.method@ != "set"@ ==> (r matches Err(resp)
        && is_error_response(resp, req.id, CODE_METHOD_NOT_AVAILABLE)))
}

/// Check a `get` request's arity and build its command: exactly one
/// parameter, the key.
pub fn handle_get(req: &JSONRPCRequest) -> (r: Result<storage::Command, JSONRPCResponse>)
    ensures
        req.params@.len() == 1 ==> (r matches Ok(c) && c matches storage::Command::Get { key }
            && key@ == req.params@[0]@),
        req.params@.len() != 1 ==> (r matches Err(resp) && is_error_response(
            resp,
            req.id,
            CODE_INVALID_PARAMS,
        )),
{
    if req.params.len() != 1 {
        return Err(
            rpc_error(req.id, CODE_INVALID_PARAMS, "One parameter is required for set function"),
        );
    }
    Ok(storage::Command::Get { key: req.params[0].clone() })
}

/// Check a `set` request's arity and build its command: exactly two
/// parameters, the key and the value.
pub fn handle_set(req: &JSONRPCRequest) -> (r: Result<storage::Command, JSONRPCResponse>)
    ensures
        req.params@.len() == 2 ==> (r matches Ok(c) && c matches storage::Command::Put {
            key,
            value,
        } && key@ == req.params@[0]@ && value@ == req.params@[1]@),
        req.params@.len() != 2 ==> (r matches Err(resp) && is_error_response(
            resp,
            req.id,
            CODE_INVALID_PARAMS,
        )),
{
    if req.params.len() != 2 {
        return Err(
            rpc_error(req.id, CODE_INVALID_PARAMS, "Two parameters are required for set function"),
        );
    }
    Ok(storage::Command::Put { key: req.params[0].clone(), value: req.params[1].clone() })
}

/// Dispatch on the method name: `get` and `set` go to their arity checks,
/// any other method is rejected before it reaches any actor.
pub fn handle(req: &JSONRPCRequest) -> (r: Result<storage::Command, JSONRPCResponse>)
    ensures
        dispatched(*req, r),
{
    proof {
        reveal_strlit("get");
        reveal_strlit("set");
        assert("get"@[0] != "set"@[0]);
    }
    if method_is(&req.method, "get") {
        handle_get(req)
    } else if method_is(&req.method, "set") {
        handle_set(req)
    } else {
        Err(rpc_error(req.id, CODE_METHOD_NOT_AVAILABLE, "Method not available"))
    }
}

/// The dispatcher's decision once the rate limiter has answered: a request
/// over budget is refused with the distinguished rate-limit code before the
/// method is even looked at; any other request is dispatched.
pub fn index(req: &JSONRPCRequest, limit_reached: bool) -> (r: Result<
    storage::Command,
    JSONRPCResponse,
>)
    ensures
        limit_reached ==> (r matches Err(resp) && is_error_response(resp, req.id, CODE_RATE_LIMIT)),
        !limit_reached ==> dispatched(*req, r),
{
    if limit_reached {
        return Err(rpc_error(req.id, CODE_RATE_LIMIT, "Rate limit reached"));
    }
    handle(req)
}

/// The response to a `get` whose storage reply has come back: the value as
/// the result, or the failure mapped to the internal error code.
pub fn get_response(id: i32, reply: Result<String, StorageError>) -> (r: JSONRPCResponse)
    ensures
        reply matches Ok(v) ==> is_ok_response(r, id, v@),
        reply is Err ==> is_error_response(r, id, CODE_INTERNAL_ERROR),
{
    match reply {
        Ok(v) => JSONRPCResponse::Success(
            JSONRPCOkResponse { json_rpc: String::from_str("2.0"), result: v, id },
        ),
        Err(e) => rpc_error(id, CODE_INTERNAL_ERROR, e.message()),
    }
}

/// The response to a `set` whose storage reply has come back: the
/// acknowledgement, or the failure mapped to the internal error code.
pub fn set_response(id: i32, reply: Result<(), StorageError>) -> (r: JSONRPCResponse)
    ensures
        reply matches Ok(u) ==> is_ok_response(r, id, "value inserted"@),
        reply is Err ==> is_error_response(r, id, CODE_INTERNAL_ERROR),
{
    match reply {
        Ok(_) => JSONRPCResponse::Success(
            JSONRPCOkResponse {
                json_rpc: String::from_str("2.0"),
                result: String::from_str("value inserted"),
                id,
            },
        ),
        Err(e) => rpc_error(id, CODE_INTERNAL_ERROR, e.message()),
    }
}

/// Did this request exhaust its budget?  The count its own check leaves on
/// the client's window, held against the limit.
pub open spec fn budget_exceeded(limiter: rate_limiting::Service, ip: Seq<char>, now: u64) -> bool {
    window_step(limiter.db.windows().get("req_"@ + ip), now, limiter.time).count > limiter.limit
}

/// One whole request through the core, over the model backend.  The rate
/// check always runs first and counts the request, whatever the method; a
/// request over budget is answered with the rate-limit error and the storage
/// actor is never touched; a well-formed request within budget is executed
/// against the store and answered from its reply.
pub fn process_request(
    limiter: &mut rate_limiting::Service,
    kv: &mut storage::KVService,
    ip: &str,
    req: &JSONRPCRequest,
    now: u64,
) -> (r: JSONRPCResponse)
    ensures
        final(limiter).db.windows() == old(limiter).db.windows().insert(
            "req_"@ + ip@,
            window_step(old(limiter).db.windows().get("req_"@ + ip@), now, old(limiter).time),
        ),
        final(limiter).time == old(limiter).time,
        final(limiter).limit == old(limiter).limit,
        final(limiter).db.entries() == old(limiter).db.entries(),
        final(kv).db.windows() == old(kv).db.windows(),
        budget_exceeded(*old(limiter), ip@, now) ==> (is_error_response(r, req.id, CODE_RATE_LIMIT)
            && final(kv).db.entries() == old(kv).db.entries()),
        !budget_exceeded(*old(limiter), ip@, now) && req.method@ == "get"@ && req.params@.len() == 1
            && old(kv).db.entries().contains_key(req.params@[0]@) ==> (is_ok_response(
            r,
            req.id,
            old(kv).db.entries()[req.params@[0]@],
        ) && final(kv).db.entries() == old(kv).db.entries()),
        !budget_exceeded(*old(limiter), ip@, now) && req.method@ == "get"@ && req.params@.len() == 1
            && !old(kv).db.entries().contains_key(req.params@[0]@) ==> (is_error_response(
            r,
            req.id,
            CODE_INTERNAL_ERROR,
        ) && final(kv).db.entries() == old(kv).db.entries()),
        !budget_exceeded(*old(limiter), ip@, now) && req.method@ == "get"@ && req.params@.len() != 1
            ==> (is_error_response(r, req.id, CODE_INVALID_PARAMS) && final(kv).db.entries() == old(
            kv,
        ).db.entries()),
        !budget_exceeded(*old(limiter), ip@, now) && req.method@ == "set"@ && req.params@.len() == 2
            ==> (is_ok_response(r, req.id, "value inserted"@) && final(kv).db.entries() == old(
            kv,
        ).db.entries().insert(req.params@[0]@, req.params@[1]@)),
        !budget_exceeded(*old(limiter), ip@, now) && req.method@ == "set"@ && req.params@.len() != 2
            ==> (is_error_response(r, req.id, CODE_INVALID_PARAMS) && final(kv).db.entries() == old(
            kv,
        ).db.entries()),
        !budget_exceeded(*old(limiter), ip@, now) && req.method@ != "get"@ && req.method@ != "set"@
            ==> (is_error_response(r, req.id, CODE_METHOD_NOT_AVAILABLE) && final(kv).db.entries()
            == old(kv).db.entries()),
{
    let reached = limiter.limit_reached(ip, now);
    match index(req, reached) {
        Err(resp) => resp,
        Ok(cmd) => match cmd {
            storage::Command::Get { key } => {
                let reply = kv.get(key);
                get_response(req.id, reply)
            },
            storage::Command::Put { key, value } => {
                let reply = kv.set(key, value);
                set_response(req.id, reply)
            },
        },
    }
}

} // verus!
