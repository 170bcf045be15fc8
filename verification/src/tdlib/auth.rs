//! The authorization state machine.
//!
//! The backend announces every change of its login state in an update. Each
//! update is turned into the named state it reports, and each state into the
//! one thing to do next: submit a command, ask the operator, wait for the
//! next update, or stop. Two policies share the states: one that waits until
//! the session is ready and refuses every state that needs the operator, and
//! one that asks the operator.

use crate::error::{AgentError, ErrorKind};
use crate::json::{field, member, text, text_of, Json, JsonView};
use crate::text::{glue3, str_eq, trim, trimmed};
use vstd::prelude::*;

verus! {

/// What a session needs to identify itself and to store its data.
#[derive(Debug, Clone)]
pub struct AuthConfig {
    pub api_id: i32,
    pub api_hash: String,
    pub db_dir: String,
    pub files_dir: String,
}

/// The login states that updates report.
#[derive(Debug)]
pub enum AuthState {
    /// The session parameters are wanted.
    WaitParameters,
    /// The phone number of the account is wanted.
    WaitPhoneNumber,
    /// The verification code is wanted.
    WaitCode,
    /// The two-factor password is wanted; the hint may be empty.
    WaitPassword { hint: String },
    /// The session is logged in.
    Ready,
    /// The session is closed for good.
    Closed,
    /// The session is about to close.
    Closing,
    /// A state without a meaning here, by the name it was reported under.
    Other(String),
}

/// `AuthState` in terms of texts.
pub enum AuthStateView {
    WaitParameters,
    WaitPhoneNumber,
    WaitCode,
    WaitPassword { hint: Seq<char> },
    Ready,
    Closed,
    Closing,
    Other(Seq<char>),
}

impl View for AuthState {
    type V = AuthStateView;

    open spec fn view(&self) -> AuthStateView {
        match self {
            AuthState::WaitParameters => AuthStateView::WaitParameters,
            AuthState::WaitPhoneNumber => AuthStateView::WaitPhoneNumber,
            AuthState::WaitCode => AuthStateView::WaitCode,
            AuthState::WaitPassword { hint } => AuthStateView::WaitPassword { hint: hint@ },
            AuthState::Ready => AuthStateView::Ready,
            AuthState::Closed => AuthStateView::Closed,
            AuthState::Closing => AuthStateView::Closing,
            AuthState::Other(name) => AuthStateView::Other(name@),
        }
    }
}

/// The name of the state that an update reports; empty where it reports
/// none.
pub open spec fn state_name(update: JsonView) -> Seq<char> {
    match text_of(member(update.get("authorization_state"@), "@type"@)) {
        Some(name) => name,
        None => Seq::empty(),
    }
}

/// The password hint that an update carries; empty where it carries none.
pub open spec fn password_hint(update: JsonView) -> Seq<char> {
    match text_of(member(update.get("authorization_state"@), "password_hint"@)) {
        Some(hint) => hint,
        None => Seq::empty(),
    }
}

/// The state that an update reports.
pub open spec fn reported_state(update: JsonView) -> AuthStateView {
    let name = state_name(update);
    if name == "authorizationStateWaitTdlibParameters"@ {
        AuthStateView::WaitParameters
    } else if name == "authorizationStateWaitPhoneNumber"@ {
        AuthStateView::WaitPhoneNumber
    } else if name == "authorizationStateWaitCode"@ {
        AuthStateView::WaitCode
    } else if name == "authorizationStateWaitPassword"@ {
        AuthStateView::WaitPassword { hint: password_hint(update) }
    } else if name == "authorizationStateReady"@ {
        AuthStateView::Ready
    } else if name == "authorizationStateClosed"@ {
        AuthStateView::Closed
    } else if name == "authorizationStateClosing"@ {
        AuthStateView::Closing
    } else {
        AuthStateView::Other(name)
    }
}

impl AuthState {
    /// The state that an update reports.
    pub fn of_update(update: &Json) -> (s: AuthState)
        ensures
            s@ == reported_state(update@),
    {
        let state = update.get("authorization_state");
        let name: &str = match text(field(state, "@type")) {
            Some(n) => n,
            None => "",
        };
        proof {
            reveal_strlit("");
            assert(""@ =~= Seq::<char>::empty());
        }
        if str_eq(name, "authorizationStateWaitTdlibParameters") {
            AuthState::WaitParameters
        } else if str_eq(name, "authorizationStateWaitPhoneNumber") {
            AuthState::WaitPhoneNumber
        } else if str_eq(name, "authorizationStateWaitCode") {
            AuthState::WaitCode
        } else if str_eq(name, "authorizationStateWaitPassword") {
            let hint: &str = match text(field(state, "password_hint")) {
                Some(h) => h,
                None => "",
            };
            AuthState::WaitPassword { hint: String::from_str(hint) }
        } else if str_eq(name, "authorizationStateReady") {
            AuthState::Ready
        } else if str_eq(name, "authorizationStateClosed") {
            AuthState::Closed
        } else if str_eq(name, "authorizationStateClosing") {
            AuthState::Closing
        } else {
            AuthState::Other(String::from_str(name))
        }
    }
}

/// What the operator is asked for.
#[derive(Debug, Clone, Copy, PartialEq, Eq, Structural)]
pub enum PromptKind {
    PhoneNumber,
    Code,
    Password,
}

/// The words that ask the operator for an input.
pub open spec fn prompt_text(kind: PromptKind) -> Seq<char> {
    match kind {
        PromptKind::PhoneNumber => "Enter phone number (with country code): "@,
        PromptKind::Code => "Enter the code you received: "@,
        PromptKind::Password => "Enter 2FA password: "@,
    }
}

/// A question to the operator.
#[derive(Debug)]
pub struct Prompt {
    pub kind: PromptKind,
    /// A line to show before the question.
    pub notice: Option<String>,
    /// The question itself.
    pub text: &'static str,
}

/// `Prompt` in terms of texts.
pub struct PromptView {
    pub kind: PromptKind,
    pub notice: Option<Seq<char>>,
    pub text: Seq<char>,
}

impl View for Prompt {
    type V = PromptView;

    open spec fn view(&self) -> PromptView {
        PromptView {
            kind: self.kind,
            notice: match self.notice {
                Some(n) => Some(n@),
                None => None,
            },
            text: self.text@,
        }
    }
}

/// The one thing to do after an update.
#[derive(Debug)]
pub enum AuthStep {
    /// Submit the command and wait for its answer; a failed command ends
    /// the handshake with its failure, an answered one is followed by the
    /// next update.
    Send(Json),
    /// Ask the operator, then submit the command that `answer_command`
    /// makes of the line.
    Ask(Prompt),
    /// Wait for the next update.
    Continue,
    /// The handshake is over.
    Finish(Result<(), AgentError>),
}

/// `AuthStep` in terms of texts.
pub enum AuthStepView {
    Send(JsonView),
    Ask(PromptView),
    Continue,
    Succeed,
    Fail((ErrorKind, Seq<char>)),
}

impl View for AuthStep {
    type V = AuthStepView;

    open spec fn view(&self) -> AuthStepView {
        match self {
            AuthStep::Send(command) => AuthStepView::Send(command@),
            AuthStep::Ask(prompt) => AuthStepView::Ask(prompt@),
            AuthStep::Continue => AuthStepView::Continue,
            AuthStep::Finish(Ok(_)) => AuthStepView::Succeed,
            AuthStep::Finish(Err(e)) => AuthStepView::Fail(e@),
        }
    }
}

/// The command that hands the session its parameters: the directories and
/// credentials of the configuration, and the fixed description of this
/// application.
pub open spec fn parameters_command(config: AuthConfig) -> JsonView {
    JsonView::Object(
        seq![
            ("@type"@, JsonView::Str("setTdlibParameters"@)),
            ("database_directory"@, JsonView::Str(config.db_dir@)),
            ("files_directory"@, JsonView::Str(config.files_dir@)),
            ("api_id"@, JsonView::Int(config.api_id as i64)),
            ("api_hash"@, JsonView::Str(config.api_hash@)),
            ("system_language_code"@, JsonView::Str("en"@)),
            ("device_model"@, JsonView::Str("Nexus Agent"@)),
            ("application_version"@, JsonView::Str("0.1.0"@)),
            ("use_message_database"@, JsonView::Bool(true)),
            ("use_secret_chats"@, JsonView::Bool(false)),
            ("use_chat_info_database"@, JsonView::Bool(true)),
            ("use_file_database"@, JsonView::Bool(true)),
        ],
    )
}

/// The command that carries an input of the operator.
pub open spec fn input_command(kind: PromptKind, value: Seq<char>) -> JsonView {
    match kind {
        PromptKind::PhoneNumber => JsonView::Object(
            seq![
                ("@type"@, JsonView::Str("setAuthenticationPhoneNumber"@)),
                ("phone_number"@, JsonView::Str(value)),
            ],
        ),
        PromptKind::Code => JsonView::Object(
            seq![
                ("@type"@, JsonView::Str("checkAuthenticationCode"@)),
                ("code"@, JsonView::Str(value)),
            ],
        ),
        PromptKind::Password => JsonView::Object(
            seq![
                ("@type"@, JsonView::Str("checkAuthenticationPassword"@)),
                ("password"@, JsonView::Str(value)),
            ],
        ),
    }
}

/// What waiting for a ready session does in a state: it hands over the
/// parameters, succeeds when ready, fails with a session error when closed,
/// waits while closing, and fails with an authorization error in every
/// state that needs the operator.
pub open spec fn wait_for_ready_model(state: AuthStateView, config: AuthConfig) -> AuthStepView {
    match state {
        AuthStateView::WaitParameters => AuthStepView::Send(parameters_command(config)),
        AuthStateView::Ready => AuthStepView::Succeed,
        AuthStateView::Closed => AuthStepView::Fail(
            (ErrorKind::Session, "TDLib session closed"@),
        ),
        AuthStateView::Closing => AuthStepView::Continue,
        other => AuthStepView::Fail(
            (
                ErrorKind::Auth,
                "unexpected auth state: "@ + reported_name(other)
                    + " \u{2014} run `nexus auth telegram` first"@,
            ),
        ),
    }
}

/// The name under which a state is reported.
pub open spec fn reported_name(state: AuthStateView) -> Seq<char> {
    match state {
        AuthStateView::WaitParameters => "authorizationStateWaitTdlibParameters"@,
        AuthStateView::WaitPhoneNumber => "authorizationStateWaitPhoneNumber"@,
        AuthStateView::WaitCode => "authorizationStateWaitCode"@,
        AuthStateView::WaitPassword { .. } => "authorizationStateWaitPassword"@,
        AuthStateView::Ready => "authorizationStateReady"@,
        AuthStateView::Closed => "authorizationStateClosed"@,
        AuthStateView::Closing => "authorizationStateClosing"@,
        AuthStateView::Other(name) => name,
    }
}

/// What the interactive handshake does in a state: it hands over the
/// parameters, asks the operator for what the backend wants, succeeds when
/// ready, fails with a session error when closed, and waits in every other
/// state.
pub open spec fn interactive_model(state: AuthStateView, config: AuthConfig) -> AuthStepView {
    match state {
        AuthStateView::WaitParameters => AuthStepView::Send(parameters_command(config)),
        AuthStateView::WaitPhoneNumber => AuthStepView::Ask(
            PromptView {
                kind: PromptKind::PhoneNumber,
                notice: None,
                text: prompt_text(PromptKind::PhoneNumber),
            },
        ),
        AuthStateView::WaitCode => AuthStepView::Ask(
            PromptView { kind: PromptKind::Code, notice: None, text: prompt_text(PromptKind::Code) },
        ),
        AuthStateView::WaitPassword { hint } => AuthStepView::Ask(
            PromptView {
                kind: PromptKind::Password,
                notice: if hint.len() == 0 {
                    None
                } else {
                    Some("Password hint: "@ + hint)
                },
                text: prompt_text(PromptKind::Password),
            },
        ),
        AuthStateView::Ready => AuthStepView::Succeed,
        AuthStateView::Closed => AuthStepView::Fail((ErrorKind::Session, "session closed"@)),
        _ => AuthStepView::Continue,
    }
}

/// The command that an input of the operator becomes: the input without
/// the whitespace around it, or the refusal of an input that holds nothing
/// else.
pub open spec fn answer_model(kind: PromptKind, line: Seq<char>) -> Result<
    JsonView,
    (ErrorKind, Seq<char>),
> {
    if trimmed(line).len() == 0 {
        Err((ErrorKind::InvalidInput, "empty input"@))
    } else {
        Ok(input_command(kind, trimmed(line)))
    }
}

impl AuthState {
    /// The name under which this state is reported.
    pub fn name(&self) -> (n: &str)
        ensures
            n@ == reported_name(self@),
    {
        match self {
            AuthState::WaitParameters => "authorizationStateWaitTdlibParameters",
            AuthState::WaitPhoneNumber => "authorizationStateWaitPhoneNumber",
            AuthState::WaitCode => "authorizationStateWaitCode",
            AuthState::WaitPassword { .. } => "authorizationStateWaitPassword",
            AuthState::Ready => "authorizationStateReady",
            AuthState::Closed => "authorizationStateClosed",
            AuthState::Closing => "authorizationStateClosing",
            AuthState::Other(name) => name.as_str(),
        }
    }
}

/// The command that hands the session its parameters.
pub fn parameters_request(config: &AuthConfig) -> (command: Json)
    ensures
        command@ == parameters_command(*config),
{
    let command = Json::object().with("@type", Json::string("setTdlibParameters")).with(
        "database_directory",
        Json::string(config.db_dir.as_str()),
    ).with("files_directory", Json::string(config.files_dir.as_str())).with(
        "api_id",
        Json::Int(config.api_id as i64),
    ).with("api_hash", Json::string(config.api_hash.as_str())).with(
        "system_language_code",
        Json::string("en"),
    ).with("device_model", Json::string("Nexus Agent")).with(
        "application_version",
        Json::string("0.1.0"),
    ).with("use_message_database", Json::Bool(true)).with(
        "use_secret_chats",
        Json::Bool(false),
    ).with("use_chat_info_database", Json::Bool(true)).with("use_file_database", Json::Bool(true));
    assert(command@->Object_0 =~= parameters_command(*config)->Object_0);
    command
}

/// The next step of waiting for a ready session, for the state that an
/// update reports.
pub fn wait_for_ready(state: &AuthState, config: &AuthConfig) -> (step: AuthStep)
    ensures
        step@ == wait_for_ready_model(state@, *config),
{
    match state {
        AuthState::WaitParameters => AuthStep::Send(parameters_request(config)),
        AuthState::Ready => AuthStep::Finish(Ok(())),
        AuthState::Closed => AuthStep::Finish(Err(AgentError::session("TDLib session closed"))),
        AuthState::Closing => AuthStep::Continue,
        _ => AuthStep::Finish(
            Err(
                AgentError::Auth(
                    glue3(
                        "unexpected auth state: ",
                        state.name(),
                        " \u{2014} run `nexus auth telegram` first",
                    ),
                ),
            ),
        ),
    }
}

/// The next step of the interactive handshake, for the state that an update
/// reports.
pub fn interactive_auth(state: &AuthState, config: &AuthConfig) -> (step: AuthStep)
    ensures
        step@ == interactive_model(state@, *config),
{
    match state {
        AuthState::WaitParameters => AuthStep::Send(parameters_request(config)),
        AuthState::WaitPhoneNumber => AuthStep::Ask(
            Prompt {
                kind: PromptKind::PhoneNumber,
                notice: None,
                text: "Enter phone number (with country code): ",
            },
        ),
        AuthState::WaitCode => AuthStep::Ask(
            Prompt { kind: PromptKind::Code, notice: None, text: "Enter the code you received: " },
        ),
        AuthState::WaitPassword { hint } => {
            let notice: Option<String> = if hint.as_str().unicode_len() == 0 {
                None
            } else {
                Some(crate::text::glue("Password hint: ", hint.as_str()))
            };
            AuthStep::Ask(Prompt { kind: PromptKind::Password, notice, text: "Enter 2FA password: " })
        },
        AuthState::Ready => AuthStep::Finish(Ok(())),
        AuthState::Closed => AuthStep::Finish(Err(AgentError::session("session closed"))),
        _ => AuthStep::Continue,
    }
}

/// The command that an input of the operator becomes.
pub fn answer_command(kind: PromptKind, line: &str) -> (r: Result<Json, AgentError>)
    ensures
        match r {
            Ok(command) => answer_model(kind, line@) == Ok::<JsonView, (ErrorKind, Seq<char>)>(
                command@,
            ),
            Err(e) => answer_model(kind, line@) == Err::<JsonView, (ErrorKind, Seq<char>)>(e@),
        },
{
    let value = trim(line);
    if value.as_str().unicode_len() == 0 {
        return Err(AgentError::invalid_input("empty input"));
    }
    let command = match kind {
        PromptKind::PhoneNumber => Json::object().with(
            "@type",
            Json::string("setAuthenticationPhoneNumber"),
        ).with("phone_number", Json::Str(value)),
        PromptKind::Code => Json::object().with(
            "@type",
            Json::string("checkAuthenticationCode"),
        ).with("code", Json::Str(value)),
        PromptKind::Password => Json::object().with(
            "@type",
            Json::string("checkAuthenticationPassword"),
        ).with("password", Json::Str(value)),
    };
    assert(command@->Object_0 =~= input_command(kind, value@)->Object_0);
    Ok(command)
}

/// What follows the outcome of a submitted command: the next update after
/// an answer, the end of the handshake after a failure.
pub open spec fn after_reply_model(reply: Result<JsonView, (ErrorKind, Seq<char>)>) -> AuthStepView {
    match reply {
        Ok(_) => AuthStepView::Continue,
        Err(e) => AuthStepView::Fail(e),
    }
}

/// What follows the outcome of a submitted command.
pub fn after_reply(reply: Result<Json, AgentError>) -> (step: AuthStep)
    ensures
        step@ == after_reply_model(
            match reply {
                Ok(v) => Ok(v@),
                Err(e) => Err(e@),
            },
        ),
{
    match reply {
        Ok(_) => AuthStep::Continue,
        Err(e) => AuthStep::Finish(Err(e)),
    }
}

/// The failure of a handshake whose updates have ended.
pub fn channel_closed() -> (e: AgentError)
    ensures
        e@ == (ErrorKind::Internal, "auth channel closed"@),
{
    AgentError::internal("auth channel closed")
}

} // verus!
