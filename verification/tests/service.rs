use kv_rpc::backend::{Backend, StorageError};
use kv_rpc::rate_limiting::Service;
use kv_rpc::rpc::{process_request, JSONRPCRequest, JSONRPCResponse};
use kv_rpc::storage::KVService;

fn request(method: &str, id: i32, params: Vec<&str>) -> JSONRPCRequest {
    JSONRPCRequest {
        json_rpc: "2.0".to_string(),
        method: method.to_string(),
        id,
        params: params.into_iter().map(|p| p.to_string()).collect(),
    }
}

fn expect_ok(r: JSONRPCResponse) -> (i32, String) {
    match r {
        JSONRPCResponse::Success(o) => {
            assert_eq!(o.json_rpc, "2.0");
            (o.id, o.result)
        },
        JSONRPCResponse::Failure(e) => {
            panic!("expected a result, got error code {}", e.error.code)
        },
    }
}

fn expect_err(r: JSONRPCResponse) -> (i32, i32) {
    match r {
        JSONRPCResponse::Success(_) => panic!("expected an error, got a result"),
        JSONRPCResponse::Failure(e) => {
            assert_eq!(e.json_rpc, "2.0");
            (e.id, e.error.code)
        },
    }
}

fn prepare_deps(get_res: &str, limit: u32) -> (Service, KVService) {
    let limiter = Service::new(1, limit, Backend::new());
    let mut db = Backend::new();
    db.set("mykey".to_string(), get_res.to_string());
    (limiter, KVService::new(db))
}

#[test]
fn test_valid_message_post() {
    let (mut limiter, mut kv) = prepare_deps("123", 5);
    let req = request("get", 11, vec!["mykey"]);
    let resp = process_request(&mut limiter, &mut kv, "noip", &req, 0);
    let (id, result) = expect_ok(resp);
    assert_eq!(id, 11);
    assert_eq!(result, "123");
}

#[test]
fn test_non_existing_message() {
    let (mut limiter, mut kv) = prepare_deps("123", 5);
    let req = request("del", 11, vec!["mykey"]);
    let resp = process_request(&mut limiter, &mut kv, "noip", &req, 0);
    let (_, code) = expect_err(resp);
    assert_eq!(code, -32601);
}

#[test]
fn test_invalid_args() {
    let (mut limiter, mut kv) = prepare_deps("123", 5);
    let req = request("get", 11, vec![]);
    let resp = process_request(&mut limiter, &mut kv, "noip", &req, 0);
    let (_, code) = expect_err(resp);
    assert_eq!(code, -32602);
}

#[test]
fn test_limit_reached() {
    let (mut limiter, mut kv) = prepare_deps("123", 0);
    let req = request("get", 11, vec!["12345"]);
    let resp = process_request(&mut limiter, &mut kv, "noip", &req, 0);
    let (_, code) = expect_err(resp);
    assert_eq!(code, 100429);
}

#[test]
fn set_then_get_round_trip() {
    let mut limiter = Service::new(60, 100, Backend::new());
    let mut kv = KVService::new(Backend::new());

    let set_req = request("set", 1, vec!["a", "1"]);
    let resp = process_request(&mut limiter, &mut kv, "noip", &set_req, 0);
    let (id, result) = expect_ok(resp);
    assert_eq!(id, 1);
    assert_eq!(result, "value inserted");

    let get_req = request("get", 2, vec!["a"]);
    let resp = process_request(&mut limiter, &mut kv, "noip", &get_req, 0);
    let (id, result) = expect_ok(resp);
    assert_eq!(id, 2);
    assert_eq!(result, "1");
}

#[test]
fn get_missing_key_is_an_error_not_an_empty_success() {
    let mut limiter = Service::new(60, 100, Backend::new());
    let mut kv = KVService::new(Backend::new());
    let req = request("get", 7, vec!["nosuchkey"]);
    let resp = process_request(&mut limiter, &mut kv, "noip", &req, 0);
    let (id, code) = expect_err(resp);
    assert_eq!(id, 7);
    assert_eq!(code, -32603);
}

#[test]
fn set_arity_zero_one_and_three_are_client_errors() {
    let mut limiter = Service::new(60, 100, Backend::new());
    let mut kv = KVService::new(Backend::new());
    for params in [vec![], vec!["a"], vec!["a", "1", "extra"]] {
        let req = request("set", 9, params);
        let resp = process_request(&mut limiter, &mut kv, "noip", &req, 0);
        let (id, code) = expect_err(resp);
        assert_eq!(id, 9);
        assert_eq!(code, -32602);
    }
}

#[test]
fn get_arity_two_is_a_client_error() {
    let mut limiter = Service::new(60, 100, Backend::new());
    let mut kv = KVService::new(Backend::new());
    let req = request("get", 3, vec!["a", "b"]);
    let resp = process_request(&mut limiter, &mut kv, "noip", &req, 0);
    let (_, code) = expect_err(resp);
    assert_eq!(code, -32602);
}

#[test]
fn three_requests_in_one_second_hit_a_limit_of_two() {
    let mut limiter = Service::new(1, 2, Backend::new());
    let mut db = Backend::new();
    db.set("k".to_string(), "v".to_string());
    let mut kv = KVService::new(db);

    let req = request("get", 1, vec!["k"]);
    let first = process_request(&mut limiter, &mut kv, "10.0.0.1", &req, 5);
    expect_ok(first);
    let second = process_request(&mut limiter, &mut kv, "10.0.0.1", &req, 5);
    expect_ok(second);
    let third = process_request(&mut limiter, &mut kv, "10.0.0.1", &req, 5);
    let (_, code) = expect_err(third);
    assert_eq!(code, 100429);
}

#[test]
fn rate_check_runs_before_method_lookup() {
    let mut limiter = Service::new(1, 0, Backend::new());
    let mut kv = KVService::new(Backend::new());
    let req = request("del", 4, vec!["whatever"]);
    let resp = process_request(&mut limiter, &mut kv, "1.2.3.4", &req, 0);
    let (_, code) = expect_err(resp);
    assert_eq!(code, 100429);
}

#[test]
fn backend_failure_maps_to_the_internal_error_code() {
    let resp = kv_rpc::rpc::get_response(5, Err(StorageError::BackendError));
    let (id, code) = expect_err(resp);
    assert_eq!(id, 5);
    assert_eq!(code, -32603);

    let resp = kv_rpc::rpc::set_response(6, Err(StorageError::BackendError));
    let (id, code) = expect_err(resp);
    assert_eq!(id, 6);
    assert_eq!(code, -32603);
}

#[test]
fn storage_failures_carry_their_description() {
    assert_eq!(StorageError::NotFound.message(), "key not found");
    assert_eq!(StorageError::BackendError.message(), "backend error");

    let resp = kv_rpc::rpc::get_response(8, Err(StorageError::NotFound));
    match resp {
        kv_rpc::rpc::JSONRPCResponse::Failure(e) => {
            assert_eq!(e.error.message, "key not found");
        },
        _ => panic!("expected an error envelope"),
    }
}

#[test]
fn successful_get_echoes_the_stored_value() {
    let resp = kv_rpc::rpc::get_response(9, Ok("stored".to_string()));
    let (id, result) = expect_ok(resp);
    assert_eq!(id, 9);
    assert_eq!(result, "stored");
}

#[test]
fn rpc_error_builds_the_error_envelope() {
    let resp = kv_rpc::rpc::rpc_error(42, -32601, "Method not available");
    match resp {
        JSONRPCResponse::Failure(e) => {
            assert_eq!(e.id, 42);
            assert_eq!(e.json_rpc, "2.0");
            assert_eq!(e.error.code, -32601);
            assert_eq!(e.error.message, "Method not available");
        },
        JSONRPCResponse::Success(_) => panic!("expected an error envelope"),
    }
}
