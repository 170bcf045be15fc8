use nexus::error::ErrorKind;
use nexus::json::Json;
use nexus::tdlib::client::{
    check_tdlib_error, decode, encode, finish, has_type, parse_token, token_string, Delivery,
    DropReason, Pending, POLL_TIMEOUT_SECS, REQUEST_TIMEOUT_SECS,
};

fn answer_to(token: u64, marker: i64) -> Json {
    Json::object()
        .with("@type", Json::string("ok"))
        .with("marker", Json::Int(marker))
        .with("@extra", Json::Str(token_string(token)))
}

#[test]
fn client_tokens_are_the_letter_r_and_a_number() {
    assert_eq!(token_string(1), "r1");
    assert_eq!(token_string(0), "r0");
    assert_eq!(token_string(1234), "r1234");
    assert_eq!(token_string(u64::MAX), "r18446744073709551615");
}

#[test]
fn client_parse_token_reads_only_texts_of_tokens() {
    assert_eq!(parse_token("r1"), Some(1));
    assert_eq!(parse_token("r0"), Some(0));
    assert_eq!(parse_token("r18446744073709551615"), Some(u64::MAX));
    assert_eq!(parse_token("r18446744073709551616"), None);
    assert_eq!(parse_token("r01"), None);
    assert_eq!(parse_token("r00"), None);
    assert_eq!(parse_token("r"), None);
    assert_eq!(parse_token(""), None);
    assert_eq!(parse_token("1"), None);
    assert_eq!(parse_token("R1"), None);
    assert_eq!(parse_token("r-1"), None);
    assert_eq!(parse_token("r+1"), None);
    assert_eq!(parse_token("r1 "), None);
    assert_eq!(parse_token("_init"), None);
}

#[test]
fn client_tokens_round_trip() {
    for n in [0u64, 1, 9, 10, 11, 99, 100, 12345, u64::MAX - 1, u64::MAX] {
        assert_eq!(parse_token(&token_string(n)), Some(n));
    }
}

#[test]
fn client_the_timeouts_are_thirty_seconds_and_one_second() {
    assert_eq!(REQUEST_TIMEOUT_SECS, 30);
    assert_eq!(POLL_TIMEOUT_SECS, 1);
}

#[test]
fn client_register_hands_out_rising_tokens_from_one() {
    let mut p: Pending<&str> = Pending::new();
    assert_eq!(p.len(), 0);
    assert_eq!(p.register("a"), Ok(1));
    assert_eq!(p.register("b"), Ok(2));
    assert_eq!(p.register("c"), Ok(3));
    assert_eq!(p.len(), 3);
    assert!(p.contains(1) && p.contains(2) && p.contains(3));
    assert!(!p.contains(0) && !p.contains(4));
}

#[test]
fn client_complete_takes_a_slot_exactly_once() {
    let mut p: Pending<&str> = Pending::new();
    p.register("a").unwrap();
    p.register("b").unwrap();
    assert_eq!(p.complete(1), Some("a"));
    assert_eq!(p.complete(1), None);
    assert_eq!(p.len(), 1);
    assert_eq!(p.complete(7), None);
    assert_eq!(p.complete(2), Some("b"));
    assert_eq!(p.len(), 0);
    // tokens are not handed out again
    assert_eq!(p.register("c"), Ok(3));
}

#[test]
fn client_each_answer_reaches_its_own_request_in_any_order() {
    let orders: Vec<Vec<u64>> = vec![
        vec![1, 2, 3, 4, 5],
        vec![5, 4, 3, 2, 1],
        vec![3, 1, 5, 2, 4],
        vec![2, 5, 1, 4, 3],
    ];
    for order in orders {
        let mut p: Pending<String> = Pending::new();
        for i in 1..=5u64 {
            let sub = p
                .prepare(Json::object().with("@type", Json::string("getMe")), format!("caller-{i}"))
                .unwrap();
            assert_eq!(sub.token, i);
        }
        for token in order {
            match p.route(answer_to(token, token as i64 * 10)) {
                Delivery::Complete(slot, payload) => {
                    assert_eq!(slot, format!("caller-{token}"));
                    assert_eq!(payload.get("marker"), Some(&Json::Int(token as i64 * 10)));
                }
                other => panic!("answer {token} was not delivered: {other:?}"),
            }
            assert!(!p.contains(token));
        }
        assert_eq!(p.len(), 0);
    }
}

#[test]
fn client_a_request_without_answer_times_out_and_leaves_no_slot() {
    let mut p: Pending<u8> = Pending::new();
    let sub = p.prepare(Json::object().with("@type", Json::string("getMe")), 7).unwrap();
    assert!(p.contains(sub.token));
    let e = p.expire(sub.token);
    assert_eq!(e.kind(), ErrorKind::Network);
    assert_eq!(e.detail(), "request timed out after 30s");
    assert!(!p.contains(sub.token));
    assert_eq!(p.len(), 0);
}

#[test]
fn client_expire_tolerates_a_slot_that_is_gone() {
    let mut p: Pending<u8> = Pending::new();
    let t = p.register(1).unwrap();
    assert_eq!(p.complete(t), Some(1));
    let e = p.expire(t);
    assert_eq!(e.kind(), ErrorKind::Network);
    assert_eq!(p.len(), 0);
    let e = p.expire(99);
    assert_eq!(e.to_string(), "network error: request timed out after 30s");
}

#[test]
fn client_an_answer_after_the_timeout_is_dropped() {
    let mut p: Pending<u8> = Pending::new();
    let kept = p.register(1).unwrap();
    let late = p.register(2).unwrap();
    p.expire(late);
    match p.route(answer_to(late, 0)) {
        Delivery::Dropped(DropReason::UnknownRequest) => {}
        other => panic!("{other:?}"),
    }
    assert!(p.contains(kept));
    assert_eq!(p.len(), 1);
}

#[test]
fn client_answers_to_unknown_requests_are_dropped() {
    let mut p: Pending<u8> = Pending::new();
    p.register(1).unwrap();
    for extra in ["_init", "r2", "r01", "", "1"] {
        let payload = Json::object().with("@extra", Json::string(extra));
        match p.route(payload) {
            Delivery::Dropped(DropReason::UnknownRequest) => {}
            other => panic!("{extra}: {other:?}"),
        }
    }
    assert_eq!(p.len(), 1);
}

#[test]
fn client_the_correlation_field_is_looked_at_before_the_type() {
    let mut p: Pending<u8> = Pending::new();
    let t = p.register(9).unwrap();
    let payload = Json::object()
        .with("@type", Json::string("updateAuthorizationState"))
        .with("@extra", Json::Str(token_string(t)));
    match p.route(payload) {
        Delivery::Complete(9, _) => {}
        other => panic!("{other:?}"),
    }
}

#[test]
fn client_authorization_updates_go_to_their_consumer() {
    let mut p: Pending<u8> = Pending::new();
    p.register(1).unwrap();
    let update = Json::parse(
        r#"{"@type":"updateAuthorizationState","authorization_state":{"@type":"authorizationStateReady"}}"#,
    )
    .unwrap();
    match p.route(update.duplicate()) {
        Delivery::Authorization(payload) => assert_eq!(payload, update),
        other => panic!("{other:?}"),
    }
    assert_eq!(p.len(), 1);
}

#[test]
fn client_a_correlation_field_that_is_no_text_does_not_count() {
    let mut p: Pending<u8> = Pending::new();
    p.register(1).unwrap();
    let payload = Json::object()
        .with("@type", Json::string("updateAuthorizationState"))
        .with("@extra", Json::Int(1));
    match p.route(payload) {
        Delivery::Authorization(_) => {}
        other => panic!("{other:?}"),
    }
}

#[test]
fn client_other_payloads_are_dropped() {
    let mut p: Pending<u8> = Pending::new();
    match p.route(Json::object().with("@type", Json::string("updateNewMessage"))) {
        Delivery::Dropped(DropReason::Unsolicited) => {}
        other => panic!("{other:?}"),
    }
    match p.route(Json::Array(vec![])) {
        Delivery::Dropped(DropReason::Unsolicited) => {}
        other => panic!("{other:?}"),
    }
}

#[test]
fn client_receive_parses_and_routes() {
    let mut p: Pending<u8> = Pending::new();
    let t = p.register(5).unwrap();
    match p.receive("this is not json") {
        Delivery::Dropped(DropReason::Malformed) => {}
        other => panic!("{other:?}"),
    }
    assert_eq!(p.len(), 1);
    match p.receive(&format!(r#"{{"@type":"ok","@extra":"r{t}"}}"#)) {
        Delivery::Complete(5, payload) => assert!(has_type(&payload, "ok")),
        other => panic!("{other:?}"),
    }
    assert_eq!(p.len(), 0);
    match p.receive(r#"{"@type":"updateAuthorizationState"}"#) {
        Delivery::Authorization(_) => {}
        other => panic!("{other:?}"),
    }
    match p.receive(r#"{"@type":"updateOption"}"#) {
        Delivery::Dropped(DropReason::Unsolicited) => {}
        other => panic!("{other:?}"),
    }
}

#[test]
fn client_prepare_stamps_the_request_and_registers_the_slot() {
    let mut p: Pending<&str> = Pending::new();
    let request = Json::object().with("@type", Json::string("getChat")).with("chat_id", Json::Int(5));
    let sub = p.prepare(request, "slot").unwrap();
    assert_eq!(sub.token, 1);
    assert_eq!(sub.text, r#"{"@extra":"r1","@type":"getChat","chat_id":5}"#);
    assert!(p.contains(1));
    let sub = p.prepare(Json::Null, "slot2").unwrap();
    assert_eq!(sub.token, 2);
    assert_eq!(sub.text, r#"{"@extra":"r2"}"#);
}

#[test]
fn client_prepare_overrides_a_correlation_field_of_the_caller() {
    let mut p: Pending<u8> = Pending::new();
    let sub = p
        .prepare(Json::object().with("@extra", Json::string("mine")).with("@type", Json::string("x")), 0)
        .unwrap();
    assert_eq!(sub.text, r#"{"@extra":"r1","@type":"x"}"#);
}

#[test]
fn client_prepare_refuses_what_is_no_command_and_registers_nothing() {
    for bad in [Json::Int(1), Json::Bool(true), Json::string("x"), Json::Array(vec![])] {
        let mut p: Pending<u8> = Pending::new();
        let e = p.prepare(bad, 0).unwrap_err();
        assert_eq!(e.kind(), ErrorKind::Internal);
        assert_eq!(e.detail(), "request is not a JSON object");
        assert_eq!(p.len(), 0);
        // the token was not used up
        assert_eq!(p.register(0), Ok(1));
    }
}

#[test]
fn client_prepare_escapes_a_nul_character() {
    // serde_json escapes control characters, so a NUL never reaches the text
    let mut p: Pending<u8> = Pending::new();
    let sub = p.prepare(Json::object().with("a", Json::string("x\0y")), 0).unwrap();
    assert_eq!(sub.text, r#"{"@extra":"r1","a":"x\u0000y"}"#);
    assert!(!sub.text.contains('\0'));
}

#[test]
fn client_encode_writes_the_request() {
    let request = Json::object()
        .with("@type", Json::string("setLogVerbosityLevel"))
        .with("new_verbosity_level", Json::Int(1));
    assert_eq!(
        encode(&request).unwrap(),
        r#"{"@type":"setLogVerbosityLevel","new_verbosity_level":1}"#
    );
}

#[test]
fn client_an_error_payload_becomes_an_api_error_with_code_and_message() {
    let e = decode(r#"{"@type":"error","code":404,"message":"Not Found"}"#).unwrap_err();
    assert_eq!(e.kind(), ErrorKind::Api);
    assert_eq!(e.detail(), "TDLib error 404: Not Found");
    assert_eq!(e.to_string(), "api error: TDLib error 404: Not Found");
}

#[test]
fn client_an_error_payload_without_code_or_message_gets_the_defaults() {
    let e = decode(r#"{"@type":"error"}"#).unwrap_err();
    assert_eq!(e.detail(), "TDLib error 0: unknown error");
    let e = decode(r#"{"@type":"error","code":"x","message":5}"#).unwrap_err();
    assert_eq!(e.detail(), "TDLib error 0: unknown error");
    let e = decode(r#"{"@type":"error","code":-3,"message":""}"#).unwrap_err();
    assert_eq!(e.detail(), "TDLib error -3: ");
}

#[test]
fn client_decode_hands_on_every_other_payload() {
    let p = decode(r#"{"@type":"ok"}"#).unwrap();
    assert!(has_type(&p, "ok"));
    let p = decode(r#"{"code":404,"message":"no type"}"#).unwrap();
    assert_eq!(p.get("code"), Some(&Json::Int(404)));
    let p = decode("[]").unwrap();
    assert_eq!(p, Json::Array(vec![]));
}

#[test]
fn client_decode_reports_a_text_that_is_no_json() {
    let e = decode("<html>").unwrap_err();
    assert_eq!(e.kind(), ErrorKind::Internal);
    assert!(e.detail().starts_with("json parse: "));
}

#[test]
fn client_check_and_finish_agree() {
    let err = Json::parse(r#"{"@type":"error","code":400,"message":"BAD"}"#).unwrap();
    let e = check_tdlib_error(&err).unwrap_err();
    assert_eq!(e.detail(), "TDLib error 400: BAD");
    let e = finish(err).unwrap_err();
    assert_eq!(e.kind(), ErrorKind::Api);
    let ok = Json::parse(r#"{"@type":"user","id":1}"#).unwrap();
    assert!(check_tdlib_error(&ok).is_ok());
    assert_eq!(finish(ok.duplicate()).unwrap(), ok);
}

#[test]
fn client_has_type_compares_the_declared_type() {
    let p = Json::parse(r#"{"@type":"error"}"#).unwrap();
    assert!(has_type(&p, "error"));
    assert!(!has_type(&p, "Error"));
    assert!(!has_type(&Json::parse(r#"{"@type":5}"#).unwrap(), "5"));
    assert!(!has_type(&Json::Null, ""));
}
