use nexus::error::{AgentError, ErrorKind};
use nexus::json::{field, text, Json};
use nexus::tdlib::auth::{
    after_reply, answer_command, channel_closed, interactive_auth, parameters_request,
    wait_for_ready, AuthConfig, AuthState, AuthStep, PromptKind,
};

fn config() -> AuthConfig {
    AuthConfig {
        api_id: 12345,
        api_hash: "hash".to_string(),
        db_dir: "/data/tdlib".to_string(),
        files_dir: "/data/tdlib/files".to_string(),
    }
}

fn update(state: &str) -> Json {
    Json::object().with("@type", Json::string("updateAuthorizationState")).with(
        "authorization_state",
        Json::object().with("@type", Json::string(state)),
    )
}

/// Runs a handshake over scripted updates and operator lines; every
/// submitted command is answered with success.
fn run(
    interactive: bool,
    updates: Vec<Json>,
    lines: Vec<&str>,
) -> (Result<(), AgentError>, Vec<Json>, Vec<String>) {
    let cfg = config();
    let mut sent: Vec<Json> = Vec::new();
    let mut asked: Vec<String> = Vec::new();
    let mut lines = lines.into_iter();
    for u in updates {
        let state = AuthState::of_update(&u);
        let step = if interactive { interactive_auth(&state, &cfg) } else { wait_for_ready(&state, &cfg) };
        let command = match step {
            AuthStep::Finish(r) => return (r, sent, asked),
            AuthStep::Continue => continue,
            AuthStep::Send(c) => c,
            AuthStep::Ask(prompt) => {
                asked.push(prompt.text.to_string());
                match answer_command(prompt.kind, lines.next().expect("a scripted line")) {
                    Ok(c) => c,
                    Err(e) => return (Err(e), sent, asked),
                }
            }
        };
        sent.push(command);
        match after_reply(Ok(Json::object().with("@type", Json::string("ok")))) {
            AuthStep::Continue => {}
            other => panic!("{other:?}"),
        }
    }
    (Err(channel_closed()), sent, asked)
}

#[test]
fn auth_wait_for_ready_succeeds_after_one_parameter_submission() {
    let (result, sent, _) = run(
        false,
        vec![update("authorizationStateWaitTdlibParameters"), update("authorizationStateReady")],
        vec![],
    );
    assert!(result.is_ok());
    assert_eq!(sent.len(), 1);
    assert_eq!(text(sent[0].get("@type")), Some("setTdlibParameters"));
}

#[test]
fn auth_wait_for_ready_fails_with_a_session_error_when_closed() {
    let (result, sent, _) = run(
        false,
        vec![update("authorizationStateWaitTdlibParameters"), update("authorizationStateClosed")],
        vec![],
    );
    let e = result.unwrap_err();
    assert_eq!(e.kind(), ErrorKind::Session);
    assert_eq!(e.detail(), "TDLib session closed");
    assert_eq!(sent.len(), 1);
}

#[test]
fn auth_wait_for_ready_stops_at_the_first_terminal_update() {
    let (result, sent, _) = run(
        false,
        vec![
            update("authorizationStateClosing"),
            update("authorizationStateReady"),
            update("authorizationStateWaitTdlibParameters"),
        ],
        vec![],
    );
    assert!(result.is_ok());
    assert!(sent.is_empty());
}

#[test]
fn auth_wait_for_ready_refuses_states_that_need_the_operator() {
    for state in [
        "authorizationStateWaitPhoneNumber",
        "authorizationStateWaitCode",
        "authorizationStateWaitPassword",
        "authorizationStateWaitRegistration",
        "",
    ] {
        let (result, sent, _) = run(false, vec![update(state)], vec![]);
        let e = result.unwrap_err();
        assert_eq!(e.kind(), ErrorKind::Auth);
        assert_eq!(
            e.detail(),
            format!("unexpected auth state: {state} \u{2014} run `nexus auth telegram` first")
        );
        assert!(sent.is_empty());
    }
}

#[test]
fn auth_an_update_without_a_state_counts_as_the_empty_state() {
    let e = match wait_for_ready(&AuthState::of_update(&Json::object()), &config()) {
        AuthStep::Finish(Err(e)) => e,
        other => panic!("{other:?}"),
    };
    assert_eq!(e.detail(), "unexpected auth state:  \u{2014} run `nexus auth telegram` first");
    match interactive_auth(&AuthState::of_update(&Json::Null), &config()) {
        AuthStep::Continue => {}
        other => panic!("{other:?}"),
    }
}

#[test]
fn auth_the_handshake_fails_when_the_updates_end() {
    let (result, _, _) = run(false, vec![update("authorizationStateClosing")], vec![]);
    let e = result.unwrap_err();
    assert_eq!(e.kind(), ErrorKind::Internal);
    assert_eq!(e.detail(), "auth channel closed");
}

#[test]
fn auth_interactive_auth_submits_phone_and_code_in_order() {
    let (result, sent, asked) = run(
        true,
        vec![
            update("authorizationStateWaitTdlibParameters"),
            update("authorizationStateWaitPhoneNumber"),
            update("authorizationStateWaitCode"),
            update("authorizationStateReady"),
        ],
        vec!["+15551234567", "123456"],
    );
    assert!(result.is_ok());
    assert_eq!(sent.len(), 3);
    assert_eq!(text(sent[0].get("@type")), Some("setTdlibParameters"));
    assert_eq!(text(sent[1].get("@type")), Some("setAuthenticationPhoneNumber"));
    assert_eq!(text(sent[1].get("phone_number")), Some("+15551234567"));
    assert_eq!(text(sent[2].get("@type")), Some("checkAuthenticationCode"));
    assert_eq!(text(sent[2].get("code")), Some("123456"));
    assert_eq!(
        asked,
        vec!["Enter phone number (with country code): ", "Enter the code you received: "]
    );
}

#[test]
fn auth_interactive_auth_asks_for_the_password_with_its_hint() {
    let with_hint = Json::object().with(
        "authorization_state",
        Json::object()
            .with("@type", Json::string("authorizationStateWaitPassword"))
            .with("password_hint", Json::string("pet")),
    );
    match interactive_auth(&AuthState::of_update(&with_hint), &config()) {
        AuthStep::Ask(p) => {
            assert_eq!(p.kind, PromptKind::Password);
            assert_eq!(p.notice.as_deref(), Some("Password hint: pet"));
            assert_eq!(p.text, "Enter 2FA password: ");
        }
        other => panic!("{other:?}"),
    }
    match interactive_auth(&AuthState::of_update(&update("authorizationStateWaitPassword")), &config()) {
        AuthStep::Ask(p) => assert_eq!(p.notice, None),
        other => panic!("{other:?}"),
    }
    let c = answer_command(PromptKind::Password, " secret \n").unwrap();
    assert_eq!(c.render().unwrap(), r#"{"@type":"checkAuthenticationPassword","password":"secret"}"#);
}

#[test]
fn auth_interactive_auth_skips_states_without_a_meaning() {
    let (result, sent, _) = run(
        true,
        vec![
            update("authorizationStateClosing"),
            update("authorizationStateWaitOtherDeviceConfirmation"),
            update("authorizationStateReady"),
        ],
        vec![],
    );
    assert!(result.is_ok());
    assert!(sent.is_empty());
}

#[test]
fn auth_interactive_auth_fails_when_the_session_is_closed() {
    let (result, _, _) = run(true, vec![update("authorizationStateClosed")], vec![]);
    let e = result.unwrap_err();
    assert_eq!(e.kind(), ErrorKind::Session);
    assert_eq!(e.detail(), "session closed");
}

#[test]
fn auth_an_empty_line_of_the_operator_is_refused() {
    for line in ["", "   ", "\n", "\t \r\n"] {
        let e = answer_command(PromptKind::Code, line).unwrap_err();
        assert_eq!(e.kind(), ErrorKind::InvalidInput);
        assert_eq!(e.detail(), "empty input");
    }
}

#[test]
fn auth_the_line_of_the_operator_is_trimmed() {
    let c = answer_command(PromptKind::PhoneNumber, "  +15551234567\r\n").unwrap();
    assert_eq!(
        c.render().unwrap(),
        r#"{"@type":"setAuthenticationPhoneNumber","phone_number":"+15551234567"}"#
    );
    let c = answer_command(PromptKind::Code, "12 34\n").unwrap();
    assert_eq!(text(c.get("code")), Some("12 34"));
}

#[test]
fn auth_the_parameters_carry_the_configuration() {
    let c = parameters_request(&config());
    assert_eq!(
        c.render().unwrap(),
        concat_parts(&[
            r#"{"@type":"setTdlibParameters","api_hash":"hash","api_id":12345,"#,
            r#""application_version":"0.1.0","database_directory":"/data/tdlib","#,
            r#""device_model":"Nexus Agent","files_directory":"/data/tdlib/files","#,
            r#""system_language_code":"en","use_chat_info_database":true,"#,
            r#""use_file_database":true,"use_message_database":true,"use_secret_chats":false}"#,
        ])
    );
}

fn concat_parts(parts: &[&str]) -> String {
    parts.iter().map(|p| p.to_string()).collect::<Vec<_>>().join("")
}

#[test]
fn auth_a_failed_command_ends_the_handshake_with_its_failure() {
    match after_reply(Err(AgentError::api("TDLib error 400: PHONE_NUMBER_INVALID"))) {
        AuthStep::Finish(Err(e)) => {
            assert_eq!(e.kind(), ErrorKind::Api);
            assert_eq!(e.detail(), "TDLib error 400: PHONE_NUMBER_INVALID");
        }
        other => panic!("{other:?}"),
    }
}

#[test]
fn auth_states_are_read_by_name() {
    let names = [
        "authorizationStateWaitTdlibParameters",
        "authorizationStateWaitPhoneNumber",
        "authorizationStateWaitCode",
        "authorizationStateWaitPassword",
        "authorizationStateReady",
        "authorizationStateClosed",
        "authorizationStateClosing",
        "authorizationStateLoggingOut",
    ];
    for n in names {
        assert_eq!(AuthState::of_update(&update(n)).name(), n);
    }
    let u = update("authorizationStateReady");
    assert_eq!(text(field(u.get("authorization_state"), "@type")), Some("authorizationStateReady"));
    assert!(matches!(AuthState::of_update(&u), AuthState::Ready));
    assert!(matches!(AuthState::of_update(&update("x")), AuthState::Other(_)));
}
