use rpc_dispatch::ctx::{Ctx, ReqChainLink};
use rpc_dispatch::dispatch::{
    add_curr_req_to_chain, do_rpc_handler_dispatch_inproc, do_rpc_handler_dispatch_server,
    finish_dispatch_server, handler_response, i32_to_text, remote_payload, rpc_axum_handler, service_url,
    success_envelope, to_rpc_error, CallError, CallSuccess, DispatchCause, RouterError, RpcStep,
    WebResponse, RPC_PATH, UNKNOWN_PROC,
};
use rpc_dispatch::error::Error;
use rpc_dispatch::propagation::ctx_from_header_text;
use rpc_dispatch::resolver::CtxW;
use rpc_dispatch::rpc_request::{parse_request, CallEnvelope, CallId, RequestFault, RpcInfo};
use rpc_dispatch::service_resolution::{service_registry, ServiceRegistry, ServiceResolutionData};
use serde_json::Value;

const REQ_UUID: u128 = 0x0123456789abcdef0123456789abcdef;

fn parse(text: &str) -> Value {
    serde_json::from_str(text).unwrap()
}

fn registry() -> ServiceRegistry {
    service_registry(&vec![(
        "SERVICE_RESOLUTION_CHAT".to_string(),
        r#"{"name":"chat","host":"host","port":8081}"#.to_string(),
    )])
}

fn info(id: i64, method: &str) -> RpcInfo {
    RpcInfo { id: Some(CallId::Number(id)), method: method.to_string() }
}

#[test]
fn local_call_keeps_the_context_as_it_is() {
    let ctx = CtxW(Ctx::new(42).unwrap());
    let body = parse(r#"{"jsonrpc":"2.0","id":1,"method":"get_model_list","params":{"data":{"provider":"All"}}}"#);
    match rpc_axum_handler(&registry(), ctx, REQ_UUID, Some("gateway".to_string()), body) {
        RpcStep::Local { ctx, request, rpc_info } => {
            assert_eq!(ctx.user_id(), 42);
            assert!(ctx.req_chain().is_none());
            assert_eq!(ctx.conv_id(), None);
            assert_eq!(request.method, "get_model_list");
            assert!(matches!(request.id, CallId::Number(1)));
            assert_eq!(request.params.unwrap(), parse(r#"{"data":{"provider":"All"}}"#));
            assert_eq!(rpc_info.method, "get_model_list");
            assert!(matches!(rpc_info.id, Some(CallId::Number(1))));
        }
        other => panic!("{other:?}"),
    }
}

#[test]
fn remote_call_is_packed_for_the_sibling_service() {
    let ctx = CtxW(Ctx::new(42).unwrap());
    let body = parse(r#"{"jsonrpc":"2.0","id":7,"method":"chat/one_shot_msg","params":{"data":{"prompt":"p"}}}"#);
    match rpc_axum_handler(&registry(), ctx, REQ_UUID, Some("gateway".to_string()), body) {
        RpcStep::Remote { call, rpc_info } => {
            assert_eq!(call.url, "http://host:8081/api/rpc");
            assert_eq!(
                serde_json::to_string(&call.payload).unwrap(),
                r#"{"jsonrpc":"2.0","id":7,"method":"one_shot_msg","params":{"data":{"prompt":"p"}}}"#
            );
            assert_eq!(call.headers.len(), 1);
            assert_eq!(call.headers[0].0, "X-WORKER-POSTAUTH");
            let out = ctx_from_header_text(&call.headers[0].1).unwrap();
            assert_eq!(out.user_id(), 42);
            let chain = out.req_chain().unwrap();
            assert_eq!(chain.len(), 1);
            assert_eq!(chain[0].service, "gateway");
            assert_eq!(chain[0].uuid, REQ_UUID);
            assert_eq!(rpc_info.method, "chat/one_shot_msg");
            assert!(matches!(rpc_info.id, Some(CallId::Number(7))));
        }
        other => panic!("{other:?}"),
    }
}

#[test]
fn remote_call_extends_a_chain_that_is_there() {
    let ctx = Ctx::new(5)
        .unwrap()
        .add_conv_id(3)
        .add_req_chain_link(ReqChainLink { service: "edge".to_string(), uuid: 1 });
    let req = CallEnvelope { id: CallId::Text("x".to_string()), method: "chat/op".to_string(), params: None };
    let rpc_info = RpcInfo { id: Some(CallId::Text("x".to_string())), method: "chat/op".to_string() };
    let call =
        do_rpc_handler_dispatch_server(ctx, 2, None, &registry(), req, "chat", "op", &rpc_info).unwrap();
    assert_eq!(serde_json::to_string(&call.payload).unwrap(), r#"{"jsonrpc":"2.0","id":"x","method":"op"}"#);
    let out = ctx_from_header_text(&call.headers[0].1).unwrap();
    assert_eq!(out.conv_id(), Some(3));
    let chain = out.req_chain().unwrap();
    assert_eq!(chain.len(), 2);
    assert_eq!((chain[0].service.as_str(), chain[0].uuid), ("edge", 1));
    assert_eq!((chain[1].service.as_str(), chain[1].uuid), ("Unknown", 2));
}

#[test]
fn unknown_service_fails_the_forwarding() {
    let ctx = CtxW(Ctx::new(42).unwrap());
    let body = parse(r#"{"jsonrpc":"2.0","id":"a","method":"nowhere/op","params":[1]}"#);
    match rpc_axum_handler(&registry(), ctx, REQ_UUID, None, body) {
        RpcStep::Failed { failure, rpc_info } => {
            assert!(matches!(failure.cause, DispatchCause::ServiceUnresolved));
            assert!(matches!(failure.error.error, RouterError::MethodUnknown));
            assert_eq!(failure.error.method, "nowhere/op");
            assert!(matches!(&failure.error.id, CallId::Text(s) if s == "a"));
            assert_eq!(rpc_info.method, "nowhere/op");
        }
        other => panic!("{other:?}"),
    }
}

#[test]
fn body_that_is_no_envelope_is_rejected_before_dispatch() {
    for (text, fault) in [
        (r#"[1,2]"#, RequestFault::RequestInvalidType),
        (r#""text""#, RequestFault::RequestInvalidType),
        (r#"{"id":1,"method":"m"}"#, RequestFault::VersionMissing),
        (r#"{"jsonrpc":"1.0","id":1,"method":"m"}"#, RequestFault::VersionInvalid),
        (r#"{"jsonrpc":2.0,"id":1,"method":"m"}"#, RequestFault::VersionInvalid),
        (r#"{"jsonrpc":"2.0","id":1}"#, RequestFault::MethodMissing),
        (r#"{"jsonrpc":"2.0","id":1,"method":5}"#, RequestFault::MethodInvalidType),
        (r#"{"jsonrpc":"2.0","method":"m"}"#, RequestFault::IdMissing),
        (r#"{"jsonrpc":"2.0","id":1.5,"method":"m"}"#, RequestFault::IdInvalid),
        (r#"{"jsonrpc":"2.0","id":[1],"method":"m"}"#, RequestFault::IdInvalid),
        (r#"{"jsonrpc":"2.0","id":true,"method":"m"}"#, RequestFault::IdInvalid),
        (r#"{"jsonrpc":"2.0","id":18446744073709551615,"method":"m"}"#, RequestFault::IdInvalid),
        (r#"{"jsonrpc":"2.0","id":{},"method":5}"#, RequestFault::MethodInvalidType),
    ] {
        assert_eq!(parse_request(parse(text)).unwrap_err(), fault, "{text}");
        let ctx = CtxW(Ctx::new(1).unwrap());
        match rpc_axum_handler(&registry(), ctx, 0, None, parse(text)) {
            RpcStep::Reject { error: Error::RpcRequestParsing(f) } => assert_eq!(f, fault),
            other => panic!("{other:?}"),
        }
    }
}

#[test]
fn envelope_is_read_with_every_kind_of_id() {
    let req = parse_request(parse(r#"{"jsonrpc":"2.0","id":null,"method":"m"}"#)).unwrap();
    assert!(matches!(req.id, CallId::Null));
    assert!(req.params.is_none());
    let req = parse_request(parse(r#"{"jsonrpc":"2.0","id":"abc","method":"m","params":null}"#)).unwrap();
    assert!(matches!(&req.id, CallId::Text(s) if s == "abc"));
    assert_eq!(req.params, Some(Value::Null));
    let req = parse_request(parse(r#"{"jsonrpc":"2.0","id":-9223372036854775808,"method":"a/b","params":[1.5]}"#)).unwrap();
    assert!(matches!(req.id, CallId::Number(i64::MIN)));
    assert_eq!(req.method, "a/b");
    assert_eq!(req.params, Some(parse("[1.5]")));
}

#[test]
fn id_becomes_the_same_json_value() {
    assert_eq!(CallId::Null.to_value(), Value::Null);
    assert_eq!(CallId::Number(-3).to_value(), parse("-3"));
    assert_eq!(CallId::Text("7".to_string()).to_value(), parse(r#""7""#));
}

#[test]
fn own_hop_is_named_unknown_without_a_process_name() {
    assert_eq!(UNKNOWN_PROC, "Unknown");
    let ctx = add_curr_req_to_chain(Ctx::new(1).unwrap(), None, 9);
    let chain = ctx.req_chain().unwrap();
    assert_eq!((chain[0].service.as_str(), chain[0].uuid), ("Unknown", 9));
    let ctx = add_curr_req_to_chain(ctx, Some("llm-worker".to_string()), 10);
    let chain = ctx.req_chain().unwrap();
    assert_eq!(chain.len(), 2);
    assert_eq!((chain[1].service.as_str(), chain[1].uuid), ("llm-worker", 10));
}

#[test]
fn address_is_host_port_and_the_fixed_path() {
    assert_eq!(RPC_PATH, "/api/rpc");
    let rec = |port: i32| ServiceResolutionData { name: "n".to_string(), host: "example.org".to_string(), port };
    assert_eq!(service_url(&rec(80)), "http://example.org:80/api/rpc");
    assert_eq!(service_url(&rec(0)), "http://example.org:0/api/rpc");
    assert_eq!(service_url(&rec(65535)), "http://example.org:65535/api/rpc");
    assert_eq!(service_url(&rec(-1)), "http://example.org:-1/api/rpc");
    assert_eq!(service_url(&rec(i32::MIN)), "http://example.org:-2147483648/api/rpc");
    assert_eq!(service_url(&rec(i32::MAX)), "http://example.org:2147483647/api/rpc");
}

#[test]
fn integers_are_written_in_decimal() {
    for i in [0, 1, 9, 10, 11, 99, 100, 101, 8081, -1, -10, -8081, i32::MAX, i32::MIN, i32::MIN + 1] {
        assert_eq!(i32_to_text(i), i.to_string());
    }
    assert_eq!(i32_to_text(1000000007), "1000000007");
    assert_eq!(i32_to_text(-2147483648), "-2147483648");
}

#[test]
fn payload_carries_the_parameters_as_they_came() {
    let params = parse(r#"{"z":1,"a":[1.25,null,{"k":"v"}]}"#);
    let payload = remote_payload(&CallId::Number(7), "op", Some(params.clone()));
    assert_eq!(payload["params"], params);
    assert_eq!(
        serde_json::to_string(&payload).unwrap(),
        r#"{"jsonrpc":"2.0","id":7,"method":"op","params":{"z":1,"a":[1.25,null,{"k":"v"}]}}"#
    );
    let payload = remote_payload(&CallId::Null, "op", None);
    assert_eq!(serde_json::to_string(&payload).unwrap(), r#"{"jsonrpc":"2.0","id":null,"method":"op"}"#);
}

#[test]
fn success_envelope_has_tag_id_and_result() {
    let body = success_envelope(&CallId::Number(7), parse(r#"{"response":"r"}"#));
    assert_eq!(serde_json::to_string(&body).unwrap(), r#"{"jsonrpc":"2.0","id":7,"result":{"response":"r"}}"#);
}

#[test]
fn every_cause_is_told_as_method_unknown() {
    let failure = to_rpc_error(DispatchCause::Transport("refused".to_string()), &info(3, "chat/op"));
    assert!(matches!(&failure.cause, DispatchCause::Transport(m) if m == "refused"));
    assert!(matches!(failure.error.error, RouterError::MethodUnknown));
    assert!(matches!(failure.error.id, CallId::Number(3)));
    assert_eq!(failure.error.method, "chat/op");

    let nameless = RpcInfo { id: None, method: "m".to_string() };
    let failure = to_rpc_error(DispatchCause::Downstream, &nameless);
    assert!(matches!(&failure.error.id, CallId::Text(s) if s.is_empty()));
}

#[test]
fn downstream_result_goes_back_under_the_id_of_the_call() {
    let resp = WebResponse { status: 200, body: parse(r#"{"jsonrpc":"2.0","id":7,"result":{"response":"blue"}}"#) };
    let body = finish_dispatch_server(Ok(resp), &info(7, "chat/one_shot_msg")).unwrap();
    assert_eq!(
        serde_json::to_string(&body).unwrap(),
        r#"{"jsonrpc":"2.0","id":7,"result":{"response":"blue"}}"#
    );
    let resp = WebResponse { status: 200, body: parse(r#"{"result":null}"#) };
    let body = finish_dispatch_server(Ok(resp), &info(8, "chat/op")).unwrap();
    assert_eq!(serde_json::to_string(&body).unwrap(), r#"{"jsonrpc":"2.0","id":8,"result":null}"#);
}

#[test]
fn transport_failure_and_downstream_error_are_told_apart() {
    let failure = finish_dispatch_server(Err("connection refused".to_string()), &info(7, "chat/op")).unwrap_err();
    assert!(matches!(&failure.cause, DispatchCause::Transport(m) if m == "connection refused"));
    assert!(matches!(failure.error.error, RouterError::MethodUnknown));

    for text in [
        r#"{"jsonrpc":"2.0","id":7,"error":{"code":-32601,"message":"x"}}"#,
        r#"{"jsonrpc":"2.0","id":7,"error":{"message":"x"},"result":1}"#,
        r#"{"jsonrpc":"2.0","id":7}"#,
        r#"[1]"#,
        r#"null"#,
    ] {
        let resp = WebResponse { status: 500, body: parse(text) };
        let failure = finish_dispatch_server(Ok(resp), &info(7, "chat/op")).unwrap_err();
        assert!(matches!(failure.cause, DispatchCause::Downstream), "{text}");
        assert!(matches!(failure.error.id, CallId::Number(7)));
        assert_eq!(failure.error.method, "chat/op");
    }
}

#[test]
fn local_success_is_packed_and_local_failure_passes_through() {
    let success = CallSuccess { id: CallId::Text("q".to_string()), method: "m".to_string(), value: parse("[1,2]") };
    let body = do_rpc_handler_dispatch_inproc(Ok(success)).unwrap();
    assert_eq!(serde_json::to_string(&body).unwrap(), r#"{"jsonrpc":"2.0","id":"q","result":[1,2]}"#);

    let error = CallError { id: CallId::Number(4), method: "m".to_string(), error: RouterError::Handler("boom".to_string()) };
    let back = do_rpc_handler_dispatch_inproc(Err(error)).unwrap_err();
    assert!(matches!(back.id, CallId::Number(4)));
    assert_eq!(back.method, "m");
    assert!(matches!(&back.error, RouterError::Handler(m) if m == "boom"));
}

#[test]
fn handler_response_wraps_the_failure() {
    assert_eq!(handler_response(Ok(parse("1"))).unwrap(), parse("1"));
    let error = CallError { id: CallId::Null, method: "m".to_string(), error: RouterError::ParamsMissingButRequested };
    match handler_response(Err(error)) {
        Err(Error::Rpc(e)) => {
            assert_eq!(e.method, "m");
            assert!(matches!(e.error, RouterError::ParamsMissingButRequested));
        }
        other => panic!("{other:?}"),
    }
}

#[test]
fn router_error_has_words() {
    assert_eq!(RouterError::MethodUnknown.message(), "MethodUnknown");
    assert_eq!(RouterError::ParamsMissingButRequested.message(), "ParamsMissingButRequested");
    assert_eq!(RouterError::ParamsParsing("p".to_string()).message(), "ParamsParsing(p)");
    assert_eq!(RouterError::FromResources("r".to_string()).message(), "FromResources(r)");
    assert_eq!(RouterError::HandlerResultSerialize("s".to_string()).message(), "HandlerResultSerialize(s)");
    assert_eq!(RouterError::Handler("h".to_string()).message(), "Handler(h)");
}
