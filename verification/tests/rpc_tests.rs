use nexus::rpc::{handle_initialize, parse_call, route, route_line, tool_response, Request, RpcMessage, RpcResponse};
use nexus::entities::Platform;
use nexus::json::Json;
use nexus::rpc::{
    get_i64, get_i64_array, get_str, get_str_array, get_str_array_opt, parse_platform, Content,
    ToolResult, INTERNAL_ERROR, INVALID_PARAMS, INVALID_REQUEST, METHOD_NOT_FOUND, PARSE_ERROR,
};

fn args() -> Json {
    Json::parse(
        r#"{"platform":"TG","chat":"Family","message_id":12,"ids":[1,2,3],"to":["a","b"],"mixed":[1,"x",null,"y"],"n":"5"}"#,
    )
    .unwrap()
}

#[test]
fn rpc_the_codes_of_the_protocol() {
    assert_eq!(PARSE_ERROR, -32700);
    assert_eq!(INVALID_REQUEST, -32600);
    assert_eq!(METHOD_NOT_FOUND, -32601);
    assert_eq!(INVALID_PARAMS, -32602);
    assert_eq!(INTERNAL_ERROR, -32603);
}

#[test]
fn rpc_results_hold_one_text() {
    let ok = ToolResult::success("done".to_string());
    assert!(!ok.is_error);
    assert_eq!(ok.content.len(), 1);
    match &ok.content[0] {
        Content::Text { text } => assert_eq!(text, "done"),
    }
    let bad = ToolResult::failure("[API_ERROR] x".to_string());
    assert!(bad.is_error);
    match &bad.content[0] {
        Content::Text { text } => assert_eq!(text, "[API_ERROR] x"),
    }
}

#[test]
fn rpc_text_and_integer_arguments() {
    let a = args();
    assert_eq!(get_str(&a, "chat"), Ok("Family"));
    assert_eq!(get_str(&a, "message_id"), Err("missing 'message_id' parameter".to_string()));
    assert_eq!(get_str(&a, "nothing"), Err("missing 'nothing' parameter".to_string()));
    assert_eq!(get_i64(&a, "message_id"), Ok(12));
    assert_eq!(get_i64(&a, "n"), Err("missing 'n' parameter".to_string()));
    assert_eq!(get_i64(&Json::Null, "n"), Err("missing 'n' parameter".to_string()));
}

#[test]
fn rpc_array_arguments() {
    let a = args();
    assert_eq!(get_i64_array(&a, "ids"), Ok(vec![1, 2, 3]));
    assert_eq!(get_i64_array(&a, "mixed"), Err("'mixed[1]' is not an integer".to_string()));
    assert_eq!(get_i64_array(&a, "to"), Err("'to[0]' is not an integer".to_string()));
    assert_eq!(get_i64_array(&a, "chat"), Err("missing 'chat' parameter".to_string()));
    assert_eq!(get_str_array(&a, "to"), Ok(vec!["a".to_string(), "b".to_string()]));
    assert_eq!(get_str_array(&a, "mixed"), Err("'mixed[0]' is not a string".to_string()));
    assert_eq!(get_str_array(&a, "none"), Err("missing 'none' parameter".to_string()));
    assert_eq!(get_str_array_opt(&a, "mixed"), vec!["x".to_string(), "y".to_string()]);
    assert_eq!(get_str_array_opt(&a, "ids"), Vec::<String>::new());
    assert_eq!(get_str_array_opt(&a, "none"), Vec::<String>::new());
    assert_eq!(get_str_array_opt(&a, "chat"), Vec::<String>::new());
}

#[test]
fn rpc_the_platform_argument() {
    assert_eq!(parse_platform(&args()), Ok(Platform::Telegram));
    assert_eq!(
        parse_platform(&Json::parse(r#"{"platform":"icq"}"#).unwrap()),
        Err("unknown platform: icq".to_string())
    );
    assert_eq!(
        parse_platform(&Json::parse(r#"{"platform":5}"#).unwrap()),
        Err("missing 'platform' parameter".to_string())
    );
    assert_eq!(parse_platform(&Json::object()), Err("missing 'platform' parameter".to_string()));
}


fn reply_of(r: Request) -> RpcResponse {
    match r {
        Request::Reply(reply) => reply,
        other => panic!("no reply: {other:?}"),
    }
}

fn failure_of(r: Request) -> (Json, i32, String) {
    let reply = reply_of(r);
    assert_eq!(reply.jsonrpc, "2.0");
    assert!(reply.result.is_none());
    let e = reply.error.unwrap();
    assert!(e.data.is_none());
    (reply.id, e.code, e.message)
}

#[test]
fn rpc_messages_are_read_from_objects() {
    let m = RpcMessage::from_json(&Json::parse(r#"{"jsonrpc":"2.0","id":1,"method":"ping","params":{"a":1},"extra":true}"#).unwrap()).unwrap();
    assert_eq!(m.jsonrpc.as_deref(), Some("2.0"));
    assert_eq!(m.id, Some(Json::Int(1)));
    assert_eq!(m.method.as_deref(), Some("ping"));
    assert_eq!(m.params, Some(Json::parse(r#"{"a":1}"#).unwrap()));
    assert!(m.is_valid_jsonrpc());
    let m = RpcMessage::from_json(&Json::parse(r#"{"jsonrpc":null,"id":null,"method":null,"params":null}"#).unwrap()).unwrap();
    assert_eq!((m.jsonrpc, m.id, m.method, m.params), (None, None, None, None));
    let m = RpcMessage::from_json(&Json::object()).unwrap();
    assert!(!m.is_valid_jsonrpc());
    let m = RpcMessage::from_json(&Json::parse(r#"{"jsonrpc":"1.0","id":"a"}"#).unwrap()).unwrap();
    assert!(!m.is_valid_jsonrpc());
    assert_eq!(m.id, Some(Json::string("a")));
    for bad in [r#"{"jsonrpc":2.0}"#, r#"{"method":5}"#, r#"{"method":["a"]}"#, "5", "\"x\"", "null", "[]"] {
        assert!(RpcMessage::from_json(&Json::parse(bad).unwrap()).is_none(), "{bad}");
    }
}

#[test]
fn rpc_empty_lines_and_notifications_get_no_answer() {
    for line in ["", "   ", "\t\r\n"] {
        assert!(matches!(route_line(line), Request::Ignore));
    }
    assert!(matches!(
        route_line(r#"{"jsonrpc":"2.0","method":"notifications/initialized"}"#),
        Request::Ignore
    ));
    assert!(matches!(route_line(r#"{"jsonrpc":"1.0","id":null,"method":"x"}"#), Request::Ignore));
    assert!(matches!(route_line("{}"), Request::Ignore));
}

#[test]
fn rpc_lines_that_are_no_requests_are_reported() {
    let (id, code, message) = failure_of(route_line("{not json"));
    assert_eq!(id, Json::Null);
    assert_eq!(code, PARSE_ERROR);
    assert!(message.starts_with("parse error: "));
    let (id, code, message) = failure_of(route_line(r#"{"id":1,"method":5}"#));
    assert_eq!((id, code), (Json::Null, PARSE_ERROR));
    assert_eq!(message, "parse error: the line is no request");
    let (_, code, _) = failure_of(route_line("[1,2]"));
    assert_eq!(code, PARSE_ERROR);
}

#[test]
fn rpc_requests_must_name_version_and_method() {
    let (id, code, message) = failure_of(route_line(r#"{"id":7,"method":"ping"}"#));
    assert_eq!((id, code), (Json::Int(7), INVALID_REQUEST));
    assert_eq!(message, "invalid jsonrpc version (expected \"2.0\")");
    let (_, code, _) = failure_of(route_line(r#"{"jsonrpc":"2","id":7,"method":"ping"}"#));
    assert_eq!(code, INVALID_REQUEST);
    for line in [r#"{"jsonrpc":"2.0","id":7}"#, r#"{"jsonrpc":"2.0","id":7,"method":""}"#] {
        let (id, code, message) = failure_of(route_line(line));
        assert_eq!((id, code, message.as_str()), (Json::Int(7), INVALID_REQUEST, "missing method"));
    }
    let (id, code, message) = failure_of(route_line(r#"  {"jsonrpc":"2.0","id":"a","method":"fly"}  "#));
    assert_eq!((id, code), (Json::string("a"), METHOD_NOT_FOUND));
    assert_eq!(message, "unknown method: fly");
}

#[test]
fn rpc_the_methods() {
    match route_line(r#"{"jsonrpc":"2.0","id":1,"method":"initialize","params":{}}"#) {
        Request::Initialize(id) => assert_eq!(id, Json::Int(1)),
        other => panic!("{other:?}"),
    }
    match route_line(r#"{"jsonrpc":"2.0","id":2,"method":"tools/list"}"#) {
        Request::ListTools(id) => assert_eq!(id, Json::Int(2)),
        other => panic!("{other:?}"),
    }
    match route_line(r#"{"jsonrpc":"2.0","id":3,"method":"tools/call","params":{"name":"search"}}"#) {
        Request::CallTool(id, params) => {
            assert_eq!(id, Json::Int(3));
            assert_eq!(params, Some(Json::parse(r#"{"name":"search"}"#).unwrap()));
        }
        other => panic!("{other:?}"),
    }
    match route_line(r#"{"jsonrpc":"2.0","id":3,"method":"tools/call"}"#) {
        Request::CallTool(_, None) => {}
        other => panic!("{other:?}"),
    }
    let pong = reply_of(route_line(r#"{"jsonrpc":"2.0","id":4,"method":"ping"}"#));
    assert_eq!(pong.id, Json::Int(4));
    assert_eq!(pong.result, Some(Json::object()));
    assert!(pong.error.is_none());
    let m = RpcMessage { jsonrpc: Some("2.0".into()), id: Some(Json::Int(9)), method: Some("ping".into()), params: None };
    assert_eq!(reply_of(route(m)).id, Json::Int(9));
}

#[test]
fn rpc_responses_hold_a_result_or_a_failure() {
    let r = RpcResponse::ok(Json::Int(1), Json::Bool(true));
    assert_eq!((r.jsonrpc, r.id, r.result), ("2.0", Json::Int(1), Some(Json::Bool(true))));
    assert!(r.error.is_none());
    let r = RpcResponse::err(Json::Null, INVALID_PARAMS, "bad");
    assert!(r.result.is_none());
    let e = r.error.unwrap();
    assert_eq!((e.code, e.message.as_str(), e.data), (-32602, "bad", None));
}

#[test]
fn rpc_the_server_describes_itself() {
    let r = handle_initialize(Json::Int(1), "0.1.0");
    assert_eq!(
        r.result.unwrap().render().unwrap(),
        r#"{"capabilities":{"tools":{}},"protocolVersion":"2025-11-25","serverInfo":{"name":"nexus","version":"0.1.0"}}"#
    );
}

#[test]
fn rpc_the_parameters_of_a_call() {
    let id = Json::Int(5);
    let p = Json::parse(r#"{"name":"search","arguments":{"query":"x"}}"#).unwrap();
    let (name, args) = parse_call(&id, Some(&p)).unwrap();
    assert_eq!(name, "search");
    assert_eq!(args, Json::parse(r#"{"query":"x"}"#).unwrap());
    for no_args in [r#"{"name":"search"}"#, r#"{"name":"search","arguments":null}"#] {
        let (_, args) = parse_call(&id, Some(&Json::parse(no_args).unwrap())).unwrap();
        assert_eq!(args, Json::object());
    }
    let (_, args) = parse_call(&id, Some(&Json::parse(r#"{"name":"x","arguments":[1]}"#).unwrap())).unwrap();
    assert_eq!(args, Json::parse("[1]").unwrap());
    for bad in [Some(r#"{"arguments":{}}"#), Some(r#"{"name":5}"#), Some(r#"["search"]"#), Some("5"), None] {
        let parsed = bad.map(|b| Json::parse(b).unwrap());
        let reply = parse_call(&id, parsed.as_ref()).unwrap_err();
        assert_eq!(reply.id, Json::Int(5));
        let e = reply.error.unwrap();
        assert_eq!((e.code, e.message.as_str()), (INVALID_PARAMS, "missing or invalid params"));
    }
}

#[test]
fn rpc_the_outcome_of_a_tool_is_a_result() {
    let r = tool_response(Json::Int(1), Ok("done".to_string()));
    assert!(r.error.is_none());
    assert_eq!(
        r.result.unwrap().render().unwrap(),
        r#"{"content":[{"text":"done","type":"text"}],"isError":false}"#
    );
    let r = tool_response(Json::string("x"), Err("[API_ERROR] api error: boom".to_string()));
    assert_eq!(r.id, Json::string("x"));
    assert_eq!(
        r.result.unwrap().render().unwrap(),
        r#"{"content":[{"text":"[API_ERROR] api error: boom","type":"text"}],"isError":true}"#
    );
}
