//! The requests that are sent to the Codex app-server, and what can go wrong.
//!
//! Requests go out as JSON objects, one on a line.
use crate::codex_mapper::NotificationError;
use crate::json::{encode_json_line, Json, JsonObject, JsonValue};
use crate::text::{decimal_text, trim};
use vstd::prelude::*;
use vstd::string::*;

verus! {

pub const CODEX_INITIALIZE_REQUEST_ID: i64 = 0;

pub const CODEX_THREAD_REQUEST_ID: i64 = 1;

pub const CODEX_TURN_REQUEST_ID: i64 = 2;

pub const CODEX_INTERRUPT_REQUEST_ID: i64 = 3;

/// A pipe to the app-server.
#[derive(Debug, Clone, Copy, PartialEq, Eq, Structural)]
pub enum CodexPipe {
    Stdin,
    Stdout,
    Stderr,
}

/// What ends a Codex request without a response.
#[derive(Debug, PartialEq, Eq)]
pub enum CodexError {
    /// There is no user prompt among the inputs.
    PromptsOnly,
    Launch(String),
    NoPipe(CodexPipe),
    Encode(String),
    Write(String),
    Flush(String),
    Read(String),
    Wait(String),
    Cancelled,
    ExitedDuringInitialization,
    InvalidJsonl(String),
    /// The app-server answered a request with an error.
    Rpc { code: Option<i64>, message: String },
    NoResult,
    NoThreadId,
    Notification(NotificationError),
    /// The app-server exited before the turn was over and said nothing of it.
    ExitedEarly { status: String },
    /// The app-server exited before the turn was over and said why.
    ExitedWith { detail: String },
    StreamClosed,
}

/// The text of an error that the app-server answers with.
pub open spec fn rpc_text(code: Option<i64>, message: Seq<char>) -> Seq<char> {
    match code {
        Some(code) => "Codex app-server error "@ + crate::text::decimal(code as int) + ": "@
            + message,
        None => message,
    }
}

impl View for CodexError {
    type V = Seq<char>;

    /// The error's text.
    open spec fn view(&self) -> Seq<char> {
        match self {
            CodexError::PromptsOnly => "Codex inference currently supports user prompts only"@,
            CodexError::Launch(error) => "Failed to launch Codex app-server: "@ + error@,
            CodexError::NoPipe(CodexPipe::Stdin) => "Failed to open Codex app-server stdin"@,
            CodexError::NoPipe(CodexPipe::Stdout) => "Failed to open Codex app-server stdout"@,
            CodexError::NoPipe(CodexPipe::Stderr) => "Failed to open Codex app-server stderr"@,
            CodexError::Encode(error) => "Failed to encode Codex app-server request: "@ + error@,
            CodexError::Write(error) => "Failed to write to Codex app-server: "@ + error@,
            CodexError::Flush(error) => "Failed to flush Codex app-server request: "@ + error@,
            CodexError::Read(error) => "Failed to read Codex app-server output: "@ + error@,
            CodexError::Wait(error) => "Failed while waiting for Codex app-server: "@ + error@,
            CodexError::Cancelled => "Codex request cancelled"@,
            CodexError::ExitedDuringInitialization =>
                "Codex app-server exited during initialization"@,
            CodexError::InvalidJsonl(error) => "Codex app-server returned invalid JSONL: "@
                + error@,
            CodexError::Rpc { code, message } => rpc_text(*code, message@),
            CodexError::NoResult => "Codex app-server response did not include a result"@,
            CodexError::NoThreadId => "Codex app-server did not return a thread ID"@,
            CodexError::Notification(error) => error.text(),
            CodexError::ExitedEarly { status } =>
                "Codex app-server exited before completing the turn ("@ + status@ + ")"@,
            CodexError::ExitedWith { detail } => detail@,
            CodexError::StreamClosed => "Codex response stream was closed"@,
        }
    }
}

/// A text with another behind it.
fn joined(head: &str, tail: &str) -> (text: String)
    ensures
        text@ == head@ + tail@,
{
    let mut text = head.to_owned();
    text.append(tail);
    text
}

impl CodexError {
    /// The error's text.
    pub fn message(&self) -> (text: String)
        ensures
            text@ == self@,
    {
        match self {
            CodexError::PromptsOnly =>
                "Codex inference currently supports user prompts only".to_owned(),
            CodexError::Launch(error) => joined("Failed to launch Codex app-server: ", error),
            CodexError::NoPipe(CodexPipe::Stdin) =>
                "Failed to open Codex app-server stdin".to_owned(),
            CodexError::NoPipe(CodexPipe::Stdout) =>
                "Failed to open Codex app-server stdout".to_owned(),
            CodexError::NoPipe(CodexPipe::Stderr) =>
                "Failed to open Codex app-server stderr".to_owned(),
            CodexError::Encode(error) => joined(
                "Failed to encode Codex app-server request: ",
                error,
            ),
            CodexError::Write(error) => joined("Failed to write to Codex app-server: ", error),
            CodexError::Flush(error) => joined(
                "Failed to flush Codex app-server request: ",
                error,
            ),
            CodexError::Read(error) => joined("Failed to read Codex app-server output: ", error),
            CodexError::Wait(error) => joined(
                "Failed while waiting for Codex app-server: ",
                error,
            ),
            CodexError::Cancelled => "Codex request cancelled".to_owned(),
            CodexError::ExitedDuringInitialization =>
                "Codex app-server exited during initialization".to_owned(),
            CodexError::InvalidJsonl(error) => joined(
                "Codex app-server returned invalid JSONL: ",
                error,
            ),
            CodexError::Rpc { code, message } => match code {
                Some(code) => {
                    let mut text = joined("Codex app-server error ", &decimal_text(*code));
                    text.append(": ");
                    text.append(message);
                    text
                },
                None => message.clone(),
            },
            CodexError::NoResult =>
                "Codex app-server response did not include a result".to_owned(),
            CodexError::NoThreadId => "Codex app-server did not return a thread ID".to_owned(),
            CodexError::Notification(error) => error.message().to_owned(),
            CodexError::ExitedEarly { status } => {
                let mut text = joined(
                    "Codex app-server exited before completing the turn (",
                    status,
                );
                text.append(")");
                text
            },
            CodexError::ExitedWith { detail } => detail.clone(),
            CodexError::StreamClosed => "Codex response stream was closed".to_owned(),
        }
    }
}

/// The text of the error that an error object stands for.
pub open spec fn rpc_error_text(error: Json) -> Seq<char> {
    rpc_text(
        error.i64_at("code"@),
        error.text_or("message"@, "Unknown Codex app-server error"@),
    )
}

/// The error that an error object stands for.
pub fn codex_rpc_error(error: &JsonValue) -> (result: CodexError)
    ensures
        result@ == rpc_error_text(error@),
{
    CodexError::Rpc {
        code: error.i64_at("code"),
        message: error.text_or("message", "Unknown Codex app-server error").to_owned(),
    }
}

/// The text of the error of an app-server that exited before the turn was over: what
/// it wrote to stderr, else its status.
pub open spec fn exit_error_text(status: Seq<char>, stderr: Seq<char>) -> Seq<char> {
    let detail = crate::text::trimmed(stderr);
    if detail.len() == 0 {
        "Codex app-server exited before completing the turn ("@ + status + ")"@
    } else {
        detail
    }
}

/// The error of an app-server that exited before the turn was over.
pub fn exit_error(status: &str, stderr: &str) -> (error: CodexError)
    ensures
        error@ == exit_error_text(status@, stderr@),
{
    let detail = trim(stderr);
    if detail.as_bytes().len() == 0 {
        CodexError::ExitedEarly { status: status.to_owned() }
    } else {
        CodexError::ExitedWith { detail: detail.to_owned() }
    }
}

/// A message to the app-server.
#[derive(Debug, PartialEq, Eq)]
pub enum CodexRequest {
    Initialize { client_version: String },
    Initialized,
    ResumeThread { thread_id: String, cwd: Option<String> },
    StartThread { cwd: Option<String> },
    StartTurn { thread_id: String, prompt: String, cwd: Option<String> },
    InterruptTurn { thread_id: String, turn_id: String },
}

/// A message to the app-server, as mathematics.
pub enum RequestModel {
    Initialize { client_version: Seq<char> },
    Initialized,
    ResumeThread { thread_id: Seq<char>, cwd: Option<Seq<char>> },
    StartThread { cwd: Option<Seq<char>> },
    StartTurn { thread_id: Seq<char>, prompt: Seq<char>, cwd: Option<Seq<char>> },
    InterruptTurn { thread_id: Seq<char>, turn_id: Seq<char> },
}

impl View for CodexRequest {
    type V = RequestModel;

    open spec fn view(&self) -> RequestModel {
        match self {
            CodexRequest::Initialize { client_version } => RequestModel::Initialize {
                client_version: client_version@,
            },
            CodexRequest::Initialized => RequestModel::Initialized,
            CodexRequest::ResumeThread { thread_id, cwd } => RequestModel::ResumeThread {
                thread_id: thread_id@,
                cwd: crate::api::opt_view(*cwd),
            },
            CodexRequest::StartThread { cwd } => RequestModel::StartThread {
                cwd: crate::api::opt_view(*cwd),
            },
            CodexRequest::StartTurn { thread_id, prompt, cwd } => RequestModel::StartTurn {
                thread_id: thread_id@,
                prompt: prompt@,
                cwd: crate::api::opt_view(*cwd),
            },
            CodexRequest::InterruptTurn { thread_id, turn_id } => RequestModel::InterruptTurn {
                thread_id: thread_id@,
                turn_id: turn_id@,
            },
        }
    }
}

/// The object with the given members.
pub open spec fn object(members: Seq<(Seq<char>, Json)>) -> Json {
    Json::Object(crate::json::object_of(members))
}

/// A text, or null.
pub open spec fn text_or_null(text: Option<Seq<char>>) -> Json {
    match text {
        Some(inner) => Json::Text(inner),
        None => Json::Null,
    }
}

/// An integer.
pub open spec fn integer(n: i64) -> Json {
    Json::Number(Some(n))
}

/// A call of a method, to which the app-server answers under `id`.
pub open spec fn call(method: Seq<char>, id: i64, params: Seq<(Seq<char>, Json)>) -> Json {
    object(
        seq![
            ("method"@, Json::Text(method)),
            ("id"@, integer(id)),
            ("params"@, object(params)),
        ],
    )
}

/// What the client says of itself.
pub open spec fn client_info(client_version: Seq<char>) -> Seq<(Seq<char>, Json)> {
    seq![
        ("name"@, Json::Text("warp_agent_cli"@)),
        ("title"@, Json::Text("Warp Agent CLI"@)),
        ("version"@, Json::Text(client_version)),
    ]
}

/// A prompt as the input of a turn.
pub open spec fn text_input(prompt: Seq<char>) -> Seq<(Seq<char>, Json)> {
    seq![("type"@, Json::Text("text"@)), ("text"@, Json::Text(prompt))]
}

impl RequestModel {
    /// The message's parameters.
    pub open spec fn params(self) -> Seq<(Seq<char>, Json)> {
        match self {
            RequestModel::Initialize { client_version } => seq![
                ("clientInfo"@, object(client_info(client_version))),
            ],
            RequestModel::Initialized => seq![],
            RequestModel::ResumeThread { thread_id, cwd } => seq![
                ("threadId"@, Json::Text(thread_id)),
                ("cwd"@, text_or_null(cwd)),
                ("approvalPolicy"@, Json::Text("never"@)),
                ("sandbox"@, Json::Text("workspace-write"@)),
            ],
            RequestModel::StartThread { cwd } => seq![
                ("cwd"@, text_or_null(cwd)),
                ("approvalPolicy"@, Json::Text("never"@)),
                ("sandbox"@, Json::Text("workspace-write"@)),
                ("serviceName"@, Json::Text("warp_agent_cli"@)),
            ],
            RequestModel::StartTurn { thread_id, prompt, cwd } => seq![
                ("threadId"@, Json::Text(thread_id)),
                ("input"@, Json::Array(seq![object(text_input(prompt))])),
                ("cwd"@, text_or_null(cwd)),
                ("approvalPolicy"@, Json::Text("never"@)),
                ("sandboxPolicy"@, object(seq![("type"@, Json::Text("workspaceWrite"@))])),
            ],
            RequestModel::InterruptTurn { thread_id, turn_id } => seq![
                ("threadId"@, Json::Text(thread_id)),
                ("turnId"@, Json::Text(turn_id)),
            ],
        }
    }

    /// The message as JSON.
    pub open spec fn json(self) -> Json {
        match self {
            RequestModel::Initialize { .. } => call(
                "initialize"@,
                CODEX_INITIALIZE_REQUEST_ID,
                self.params(),
            ),
            RequestModel::Initialized => object(
                seq![("method"@, Json::Text("initialized"@)), ("params"@, object(self.params()))],
            ),
            RequestModel::ResumeThread { .. } => call(
                "thread/resume"@,
                CODEX_THREAD_REQUEST_ID,
                self.params(),
            ),
            RequestModel::StartThread { .. } => call(
                "thread/start"@,
                CODEX_THREAD_REQUEST_ID,
                self.params(),
            ),
            RequestModel::StartTurn { .. } => call(
                "turn/start"@,
                CODEX_TURN_REQUEST_ID,
                self.params(),
            ),
            RequestModel::InterruptTurn { .. } => call(
                "turn/interrupt"@,
                CODEX_INTERRUPT_REQUEST_ID,
                self.params(),
            ),
        }
    }
}

/// A text, or null.
fn text_or_null_value(text: &Option<String>) -> (value: JsonValue)
    ensures
        value@ == text_or_null(crate::api::opt_view(*text)),
        value.integral(),
{
    match text {
        Some(inner) => JsonValue::Text(inner.clone()),
        None => JsonValue::Null,
    }
}

/// A call of a method.
fn call_value(method: &str, id: i64, params: JsonObject) -> (value: JsonValue)
    requires
        params.integral(),
    ensures
        value@ == call(method@, id, params.parts()),
        value.integral(),
{
    let message = JsonObject::new().with_text("method", method).with(
        "id",
        JsonValue::Number(Some(id)),
    ).with("params", params.build());
    proof {
        assert(message.parts() =~= seq![
            ("method"@, Json::Text(method@)),
            ("id"@, integer(id)),
            ("params"@, object(params.parts())),
        ]);
    }
    message.build()
}

impl CodexRequest {
    /// The message's parameters.
    fn params(&self) -> (params: JsonObject)
        ensures
            params.parts() == self@.params(),
            params.integral(),
    {
        let params = JsonObject::new();
        let params = match self {
            CodexRequest::Initialize { client_version } => {
                let info = JsonObject::new().with_text("name", "warp_agent_cli").with_text(
                    "title",
                    "Warp Agent CLI",
                ).with_text("version", client_version);
                proof {
                    assert(info.parts() =~= client_info(client_version@));
                }
                params.with("clientInfo", info.build())
            },
            CodexRequest::Initialized => params,
            CodexRequest::ResumeThread { thread_id, cwd } => params.with_text(
                "threadId",
                thread_id,
            ).with("cwd", text_or_null_value(cwd)).with_text("approvalPolicy", "never").with_text(
                "sandbox",
                "workspace-write",
            ),
            CodexRequest::StartThread { cwd } => params.with(
                "cwd",
                text_or_null_value(cwd),
            ).with_text("approvalPolicy", "never").with_text(
                "sandbox",
                "workspace-write",
            ).with_text("serviceName", "warp_agent_cli"),
            CodexRequest::StartTurn { thread_id, prompt, cwd } => {
                let text = JsonObject::new().with_text("type", "text").with_text("text", prompt);
                proof {
                    assert(text.parts() =~= text_input(prompt@));
                }
                let mut items: Vec<JsonValue> = Vec::new();
                items.push(text.build());
                let input = JsonValue::Array(items);
                proof {
                    input.lemma_model_of_parts();
                    assert(crate::json::models(items@) =~= seq![object(text_input(prompt@))]);
                }
                let policy = JsonObject::new().with_text("type", "workspaceWrite");
                params.with_text("threadId", thread_id).with("input", input).with(
                    "cwd",
                    text_or_null_value(cwd),
                ).with_text("approvalPolicy", "never").with("sandboxPolicy", policy.build())
            },
            CodexRequest::InterruptTurn { thread_id, turn_id } => params.with_text(
                "threadId",
                thread_id,
            ).with_text("turnId", turn_id),
        };
        proof {
            assert(params.parts() =~= self@.params());
        }
        params
    }

    /// The message as JSON.
    pub fn to_json(&self) -> (value: JsonValue)
        ensures
            value@ == self@.json(),
            value.integral(),
    {
        let params = self.params();
        match self {
            CodexRequest::Initialize { .. } => call_value(
                "initialize",
                CODEX_INITIALIZE_REQUEST_ID,
                params,
            ),
            CodexRequest::Initialized => {
                let message = JsonObject::new().with_text("method", "initialized").with(
                    "params",
                    params.build(),
                );
                proof {
                    assert(message.parts() =~= seq![
                        ("method"@, Json::Text("initialized"@)),
                        ("params"@, object(self@.params())),
                    ]);
                }
                message.build()
            },
            CodexRequest::ResumeThread { .. } => call_value(
                "thread/resume",
                CODEX_THREAD_REQUEST_ID,
                params,
            ),
            CodexRequest::StartThread { .. } => call_value(
                "thread/start",
                CODEX_THREAD_REQUEST_ID,
                params,
            ),
            CodexRequest::StartTurn { .. } => call_value(
                "turn/start",
                CODEX_TURN_REQUEST_ID,
                params,
            ),
            CodexRequest::InterruptTurn { .. } => call_value(
                "turn/interrupt",
                CODEX_INTERRUPT_REQUEST_ID,
                params,
            ),
        }
    }

    /// The line that is written for the message: its JSON and a line feed.
    pub fn to_line(&self) -> (result: Result<Vec<u8>, CodexError>)
        ensures
            match result {
                Ok(line) => crate::json::is_line_of(line@, self@.json()),
                Err(error) => {
                    &&& crate::json::encoded_json(self@.json()) matches Err(reason)
                    &&& error@ == "Failed to encode Codex app-server request: "@ + reason
                },
            },
    {
        match encode_json_line(&self.to_json()) {
            Ok(line) => Ok(line),
            Err(error) => Err(CodexError::Encode(error)),
        }
    }
}

} // verus!
