//! Maps the notifications of the Codex app-server to response events.
//!
//! Every item of a turn becomes a message of the conversation's root task: the
//! first event about an item adds its message, a later one appends to its content
//! or replaces it.
use crate::api::{
    Action, AddMessagesToTask, AgentOutput, AgentReasoning, AppendToMessageContent, ClientAction,
    ClientActions, CreateTask, FieldMask, Message, MessageContent, Opaque, ResponseEvent,
    ResponseEventType, StreamFinished, StreamFinishedReason, StreamInit, Task, UpdateTaskMessage,
};
use crate::api::{ActionModel, ContentModel, EventModel, MessageModel, ReasonModel, TaskModel};
use crate::ids::{random_uuid, uuid_text};
use crate::json::{Json, JsonValue};
use crate::text::{decimal_text, digits_text, same_text, truncate_codex_output};
use vstd::hash_map::StringHashMap;
use vstd::prelude::*;
use vstd::string::*;

verus! {

/// The most bytes of one command's output that are shown.
pub const CODEX_MAX_COMMAND_OUTPUT_BYTES: usize = 16 * 1024;

/// What a message of a turn is.
#[derive(Debug, Clone, Copy, PartialEq, Eq, Structural)]
pub enum CodexMessageKind {
    AgentOutput,
    AgentReasoning,
}

impl CodexMessageKind {
    /// The field of a message that holds the text of this kind.
    pub open spec fn path(self) -> Seq<char> {
        match self {
            CodexMessageKind::AgentOutput => "agent_output.text"@,
            CodexMessageKind::AgentReasoning => "agent_reasoning.reasoning"@,
        }
    }

    /// The content of a message of this kind.
    pub open spec fn content(self, text: Seq<char>) -> ContentModel {
        match self {
            CodexMessageKind::AgentOutput => ContentModel::Output(text),
            CodexMessageKind::AgentReasoning => ContentModel::Reasoning { text, extra: seq![] },
        }
    }

    /// The field of a message that holds the text of this kind.
    pub fn field_path(self) -> (path: &'static str)
        ensures
            path@ == self.path(),
    {
        match self {
            CodexMessageKind::AgentOutput => "agent_output.text",
            CodexMessageKind::AgentReasoning => "agent_reasoning.reasoning",
        }
    }
}

/// What a notification lacks that it must have.
#[derive(Debug, Clone, Copy, PartialEq, Eq, Structural)]
pub enum NotificationError {
    DeltaOmitsItemId,
    DeltaOmitsDelta,
    StartedOmitsItem,
    CompletedOmitsItem,
}

impl NotificationError {
    /// The error's text.
    pub open spec fn text(self) -> Seq<char> {
        match self {
            NotificationError::DeltaOmitsItemId => "Codex delta notification omitted itemId"@,
            NotificationError::DeltaOmitsDelta => "Codex delta notification omitted delta"@,
            NotificationError::StartedOmitsItem =>
                "Codex item/started notification omitted the item"@,
            NotificationError::CompletedOmitsItem =>
                "Codex item/completed notification omitted the item"@,
        }
    }

    /// The error's text.
    pub fn message(self) -> (message: &'static str)
        ensures
            message@ == self.text(),
    {
        match self {
            NotificationError::DeltaOmitsItemId => "Codex delta notification omitted itemId",
            NotificationError::DeltaOmitsDelta => "Codex delta notification omitted delta",
            NotificationError::StartedOmitsItem =>
                "Codex item/started notification omitted the item",
            NotificationError::CompletedOmitsItem =>
                "Codex item/completed notification omitted the item",
        }
    }
}

/// What a notification turns into: a response event, or the text of the failure
/// that ends the turn.
pub type CodexEvent = Result<ResponseEvent, String>;

/// What a notification turns into, as mathematics.
pub type CodexEventModel = Result<Option<EventModel>, Seq<char>>;

/// One of the things that a notification turns into, as mathematics.
pub open spec fn codex_event(event: CodexEvent) -> CodexEventModel {
    match event {
        Ok(inner) => Ok(inner@),
        Err(message) => Err(message@),
    }
}

/// The things that a notification turns into, as mathematics.
pub open spec fn codex_events(events: Seq<CodexEvent>) -> Seq<CodexEventModel> {
    Seq::new(events.len(), |i: int| codex_event(events[i]))
}

/// The item and the text of a delta notification.
pub open spec fn delta_of(params: Json) -> Result<(Seq<char>, Seq<char>), NotificationError> {
    match (params.text_at("itemId"@), params.text_at("delta"@)) {
        (None, _) => Err(NotificationError::DeltaOmitsItemId),
        (Some(_), None) => Err(NotificationError::DeltaOmitsDelta),
        (Some(item_id), Some(delta)) => Ok((item_id, delta)),
    }
}

/// The item and the text of a delta notification.
pub fn codex_delta(params: &JsonValue) -> (result: Result<(&str, &str), NotificationError>)
    ensures
        match result {
            Ok((item_id, delta)) => delta_of(params@) == Ok::<_, NotificationError>(
                (item_id@, delta@),
            ),
            Err(error) => delta_of(params@) == Err::<(Seq<char>, Seq<char>), _>(error),
        },
{
    let item_id = match params.text_at("itemId") {
        Some(item_id) => item_id,
        None => return Err(NotificationError::DeltaOmitsItemId),
    };
    match params.text_at("delta") {
        Some(delta) => Ok((item_id, delta)),
        None => Err(NotificationError::DeltaOmitsDelta),
    }
}

/// What is shown when an item of the given type starts.
pub open spec fn started_text(item_type: Seq<char>, item: Json) -> Option<Seq<char>> {
    if item_type == "commandExecution"@ {
        Some("Running:\n```sh\n"@ + item.text_or("command"@, "command"@) + "\n```\n"@)
    } else if item_type == "fileChange"@ {
        Some("Applying file changes…"@)
    } else if item_type == "mcpToolCall"@ {
        Some(
            "Calling MCP tool `"@ + item.text_or("server"@, "server"@) + "/"@ + item.text_or(
                "tool"@,
                "tool"@,
            ) + "`…"@,
        )
    } else if item_type == "dynamicToolCall"@ {
        Some("Running tool `"@ + item.text_or("tool"@, "tool"@) + "`…"@)
    } else if item_type == "collabAgentToolCall"@ {
        Some("Coordinating agents with `"@ + item.text_or("tool"@, "agent tool"@) + "`…"@)
    } else if item_type == "webSearch"@ {
        Some("Searching the web…"@)
    } else {
        None
    }
}

/// What is shown when an item of the given type starts.
fn describe_started(item_type: &str, item: &JsonValue) -> (text: Option<String>)
    ensures
        match text {
            Some(t) => started_text(item_type@, item@) == Some(t@),
            None => started_text(item_type@, item@) is None,
        },
{
    if same_text(item_type, "commandExecution") {
        let mut text = "Running:\n```sh\n".to_owned();
        text.append(item.text_or("command", "command"));
        text.append("\n```\n");
        Some(text)
    } else if same_text(item_type, "fileChange") {
        Some("Applying file changes…".to_owned())
    } else if same_text(item_type, "mcpToolCall") {
        let mut text = "Calling MCP tool `".to_owned();
        text.append(item.text_or("server", "server"));
        text.append("/");
        text.append(item.text_or("tool", "tool"));
        text.append("`…");
        Some(text)
    } else if same_text(item_type, "dynamicToolCall") {
        let mut text = "Running tool `".to_owned();
        text.append(item.text_or("tool", "tool"));
        text.append("`…");
        Some(text)
    } else if same_text(item_type, "collabAgentToolCall") {
        let mut text = "Coordinating agents with `".to_owned();
        text.append(item.text_or("tool", "agent tool"));
        text.append("`…");
        Some(text)
    } else if same_text(item_type, "webSearch") {
        Some("Searching the web…".to_owned())
    } else {
        None
    }
}

/// How a command ended: its exit code where it has one, else its status.
pub open spec fn exit_text(item: Json) -> Seq<char> {
    match item.i64_at("exitCode"@) {
        Some(code) => "exit "@ + crate::text::decimal(code as int),
        None => item.text_or("status"@, "completed"@),
    }
}

/// The block that shows a command's output, cut to the limit; nothing where there is
/// no output.
pub open spec fn output_block(item: Json) -> Seq<char> {
    match item.text_at("aggregatedOutput"@) {
        Some(output) => {
            let kept = crate::text::truncated(output, CODEX_MAX_COMMAND_OUTPUT_BYTES as nat);
            if kept.len() == 0 {
                seq![]
            } else {
                "\n```text\n"@ + kept + "\n```"@
            }
        },
        None => seq![],
    }
}

/// The number of files that an item changes.
pub open spec fn change_count(item: Json) -> nat {
    match item.array_at("changes"@) {
        Some(changes) => changes.len(),
        None => 0,
    }
}

/// What is shown when an item of the given type is complete.
pub open spec fn completed_text(item_type: Seq<char>, item: Json) -> Option<
    (CodexMessageKind, Seq<char>),
> {
    if item_type == "agentMessage"@ {
        Some((CodexMessageKind::AgentOutput, item.text_or("text"@, ""@)))
    } else if item_type == "commandExecution"@ {
        Some(
            (
                CodexMessageKind::AgentReasoning,
                "Ran:\n```sh\n"@ + item.text_or("command"@, "command"@) + "\n```\n"@ + exit_text(
                    item,
                ) + "."@ + output_block(item),
            ),
        )
    } else if item_type == "fileChange"@ {
        Some(
            (
                CodexMessageKind::AgentReasoning,
                "File changes: "@ + item.text_or("status"@, "completed"@) + " ("@
                    + crate::text::digits(change_count(item)) + " updates)."@,
            ),
        )
    } else if item_type == "mcpToolCall"@ {
        Some(
            (
                CodexMessageKind::AgentReasoning,
                "MCP tool `"@ + item.text_or("server"@, "server"@) + "/"@ + item.text_or(
                    "tool"@,
                    "tool"@,
                ) + "`: "@ + item.text_or("status"@, "completed"@) + "."@,
            ),
        )
    } else if item_type == "dynamicToolCall"@ || item_type == "collabAgentToolCall"@ {
        Some(
            (
                CodexMessageKind::AgentReasoning,
                "Tool `"@ + item.text_or("tool"@, "tool"@) + "`: "@ + item.text_or(
                    "status"@,
                    "completed"@,
                ) + "."@,
            ),
        )
    } else if item_type == "webSearch"@ {
        Some((CodexMessageKind::AgentReasoning, "Web search completed."@))
    } else {
        None
    }
}

/// How a command ended.
fn describe_exit(item: &JsonValue) -> (text: String)
    ensures
        text@ == exit_text(item@),
{
    match item.i64_at("exitCode") {
        Some(code) => {
            let mut text = "exit ".to_owned();
            text.append(decimal_text(code).as_str());
            text
        },
        None => item.text_or("status", "completed").to_owned(),
    }
}

/// The block that shows a command's output.
fn describe_output(item: &JsonValue) -> (text: String)
    ensures
        text@ == output_block(item@),
{
    if let Some(output) = item.text_at("aggregatedOutput") {
        let kept = truncate_codex_output(output, CODEX_MAX_COMMAND_OUTPUT_BYTES);
        proof {
            reveal_strlit("");
        }
        if !same_text(kept.as_str(), "") {
            proof {
                assert(kept@.len() == 0 ==> kept@ =~= ""@);
            }
            let mut text = "\n```text\n".to_owned();
            text.append(kept.as_str());
            text.append("\n```");
            return text;
        }
    }
    String::new()
}

/// What is shown when an item of the given type is complete.
fn describe_completed(item_type: &str, item: &JsonValue) -> (text: Option<
    (CodexMessageKind, String),
>)
    ensures
        match text {
            Some((kind, t)) => completed_text(item_type@, item@) == Some((kind, t@)),
            None => completed_text(item_type@, item@) is None,
        },
{
    if same_text(item_type, "agentMessage") {
        Some((CodexMessageKind::AgentOutput, item.text_or("text", "").to_owned()))
    } else if same_text(item_type, "commandExecution") {
        let mut text = "Ran:\n```sh\n".to_owned();
        text.append(item.text_or("command", "command"));
        text.append("\n```\n");
        text.append(describe_exit(item).as_str());
        text.append(".");
        text.append(describe_output(item).as_str());
        Some((CodexMessageKind::AgentReasoning, text))
    } else if same_text(item_type, "fileChange") {
        let count: usize = match item.array_at("changes") {
            Some(changes) => changes.len(),
            None => 0,
        };
        let mut text = "File changes: ".to_owned();
        text.append(item.text_or("status", "completed"));
        text.append(" (");
        text.append(digits_text(count as u64).as_str());
        text.append(" updates).");
        Some((CodexMessageKind::AgentReasoning, text))
    } else if same_text(item_type, "mcpToolCall") {
        let mut text = "MCP tool `".to_owned();
        text.append(item.text_or("server", "server"));
        text.append("/");
        text.append(item.text_or("tool", "tool"));
        text.append("`: ");
        text.append(item.text_or("status", "completed"));
        text.append(".");
        Some((CodexMessageKind::AgentReasoning, text))
    } else if same_text(item_type, "dynamicToolCall") || same_text(
        item_type,
        "collabAgentToolCall",
    ) {
        let mut text = "Tool `".to_owned();
        text.append(item.text_or("tool", "tool"));
        text.append("`: ");
        text.append(item.text_or("status", "completed"));
        text.append(".");
        Some((CodexMessageKind::AgentReasoning, text))
    } else if same_text(item_type, "webSearch") {
        Some((CodexMessageKind::AgentReasoning, "Web search completed.".to_owned()))
    } else {
        None
    }
}

/// The line that shows one step of a plan.
pub open spec fn plan_line(entry: Json) -> Seq<char> {
    "- ["@ + entry.text_or("status"@, "pending"@) + "] "@ + entry.text_or("step"@, ""@) + "\n"@
}

/// The text that shows a plan: a heading, then one line for each step, in order.
pub open spec fn plan_text(entries: Seq<Json>) -> Seq<char>
    decreases entries.len(),
{
    if entries.len() == 0 {
        "Plan:\n"@
    } else {
        plan_text(entries.drop_last()) + plan_line(entries.last())
    }
}

/// The text that shows a plan.
fn describe_plan(entries: &Vec<JsonValue>) -> (text: String)
    ensures
        text@ == plan_text(crate::json::models(entries@)),
{
    let ghost parts = crate::json::models(entries@);
    let mut text = "Plan:\n".to_owned();
    let n: usize = entries.len();
    for i in 0..n
        invariant
            n == entries@.len(),
            parts == crate::json::models(entries@),
            text@ == plan_text(parts.take(i as int)),
    {
        let entry = &entries[i];
        let ghost before = text@;
        text.append("- [");
        text.append(entry.text_or("status", "pending"));
        text.append("] ");
        text.append(entry.text_or("step", ""));
        text.append("\n");
        proof {
            assert(text@ =~= before + plan_line(entry@));
            assert(parts.take(i + 1).drop_last() =~= parts.take(i as int));
            assert(parts.take(i + 1).last() == entry@);
        }
    }
    proof {
        assert(parts.take(n as int) =~= parts);
    }
    text
}

/// Maps the notifications of one turn.
pub struct CodexEventMapper {
    pub task_id: String,
    pub thread_id: String,
    pub request_id: String,
    pub turn_id: Option<String>,
    /// Whether the root task has yet to be created.
    pub create_root_task: bool,
    /// The messages added so far, by id.
    pub message_kinds: StringHashMap<CodexMessageKind>,
    /// How many bytes of output each command has shown, by item id.
    pub command_output_bytes: StringHashMap<usize>,
    /// The text of the last error notification.
    pub failure_message: Option<String>,
}

/// The mapper as mathematics.
pub struct MapperModel {
    pub task_id: Seq<char>,
    pub thread_id: Seq<char>,
    pub request_id: Seq<char>,
    pub turn_id: Option<Seq<char>>,
    pub create_root_task: bool,
    pub message_kinds: Map<Seq<char>, CodexMessageKind>,
    pub command_output_bytes: Map<Seq<char>, usize>,
    pub failure_message: Option<Seq<char>>,
}

impl View for CodexEventMapper {
    type V = MapperModel;

    open spec fn view(&self) -> MapperModel {
        MapperModel {
            task_id: self.task_id@,
            thread_id: self.thread_id@,
            request_id: self.request_id@,
            turn_id: crate::api::opt_view(self.turn_id),
            create_root_task: self.create_root_task,
            message_kinds: self.message_kinds@,
            command_output_bytes: self.command_output_bytes@,
            failure_message: crate::api::opt_view(self.failure_message),
        }
    }
}

/// The event that hands the client things to do.
pub open spec fn actions_event(actions: Seq<Option<ActionModel>>) -> Option<EventModel> {
    Some(EventModel::ClientActions(actions))
}

/// The event that ends a turn without a failure.
pub open spec fn end_event(done: bool) -> Option<EventModel> {
    Some(
        EventModel::Finished {
            reason: Some(
                if done {
                    ReasonModel::Done
                } else {
                    ReasonModel::Other
                },
            ),
            should_refresh_model_config: false,
            extra: seq![],
        },
    )
}

/// What a notification does: the mapper after it, what is delivered, and whether the
/// turn is over.
pub struct Mapped {
    pub mapper: MapperModel,
    pub events: Seq<CodexEventModel>,
    pub completed: bool,
}

impl MapperModel {
    /// A mapper that has seen nothing yet.
    pub open spec fn initial(
        task_id: Seq<char>,
        thread_id: Seq<char>,
        request_id: Seq<char>,
        create_root_task: bool,
    ) -> Self {
        MapperModel {
            task_id,
            thread_id,
            request_id,
            turn_id: None,
            create_root_task,
            message_kinds: Map::empty(),
            command_output_bytes: Map::empty(),
            failure_message: None,
        }
    }

    /// The event that opens the turn's response.
    pub open spec fn opening(self) -> Option<EventModel> {
        Some(
            EventModel::Init {
                request_id: self.request_id,
                conversation_id: self.thread_id,
                run_id: seq![],
            },
        )
    }

    /// A message of the root task.
    pub open spec fn message_of(
        self,
        message_id: Seq<char>,
        kind: CodexMessageKind,
        text: Seq<char>,
    ) -> MessageModel {
        MessageModel {
            id: message_id,
            task_id: self.task_id,
            request_id: self.request_id,
            server_message_data: seq![],
            message: Some(kind.content(text)),
            extra: seq![],
        }
    }

    /// The root task, with nothing in it.
    pub open spec fn root_task(self) -> TaskModel {
        TaskModel {
            id: self.task_id,
            messages: seq![],
            description: seq![],
            summary: seq![],
            server_data: seq![],
            extra: seq![],
        }
    }

    /// Adds a message, after the root task where that has yet to be created.
    pub open spec fn adding(
        self,
        message_id: Seq<char>,
        kind: CodexMessageKind,
        text: Seq<char>,
    ) -> (Self, Option<EventModel>) {
        let add = Some(
            ActionModel::AddMessagesToTask {
                task_id: self.task_id,
                messages: seq![self.message_of(message_id, kind, text)],
            },
        );
        let after = MapperModel {
            create_root_task: false,
            message_kinds: self.message_kinds.insert(message_id, kind),
            ..self
        };
        if self.create_root_task {
            let create = Some(ActionModel::CreateTask { task: Some(self.root_task()) });
            (after, actions_event(seq![create, add]))
        } else {
            (after, actions_event(seq![add]))
        }
    }

    /// Appends to a message, which is added where it is new.
    pub open spec fn appending(
        self,
        message_id: Seq<char>,
        kind: CodexMessageKind,
        delta: Seq<char>,
    ) -> (Self, Option<EventModel>) {
        if !self.message_kinds.contains_key(message_id) {
            self.adding(message_id, kind, delta)
        } else {
            let append = Some(
                ActionModel::AppendToMessageContent {
                    task_id: self.task_id,
                    message: Some(self.message_of(message_id, kind, delta)),
                    mask: Some(seq![kind.path()]),
                },
            );
            (self, actions_event(seq![append]))
        }
    }

    /// Replaces a message's text; the message is added where it is new.
    pub open spec fn setting(
        self,
        message_id: Seq<char>,
        kind: CodexMessageKind,
        text: Seq<char>,
    ) -> (Self, Option<EventModel>) {
        if !self.message_kinds.contains_key(message_id) {
            self.adding(message_id, kind, text)
        } else {
            let update = Some(
                ActionModel::UpdateTaskMessage {
                    task_id: self.task_id,
                    message: Some(self.message_of(message_id, kind, text)),
                    mask: Some(seq![kind.path()]),
                },
            );
            (self, actions_event(seq![update]))
        }
    }

    /// How many bytes of output a command has shown.
    pub open spec fn shown_bytes(self, item_id: Seq<char>) -> usize {
        if self.command_output_bytes.contains_key(item_id) {
            self.command_output_bytes[item_id]
        } else {
            0
        }
    }

    /// What is shown of a piece of command output: all of it while it fits under the
    /// limit, then as much as fits with a note, then nothing.
    pub open spec fn showing_output(self, item_id: Seq<char>, delta: Seq<char>) -> (
        Self,
        Option<Seq<char>>,
    ) {
        let shown = self.shown_bytes(item_id);
        let limit = CODEX_MAX_COMMAND_OUTPUT_BYTES;
        if shown >= limit {
            (self, None)
        } else if crate::text::byte_len(delta) <= limit - shown {
            let now = (shown + crate::text::byte_len(delta)) as usize;
            (
                MapperModel {
                    command_output_bytes: self.command_output_bytes.insert(item_id, now),
                    ..self
                },
                Some(delta),
            )
        } else {
            (
                MapperModel {
                    command_output_bytes: self.command_output_bytes.insert(item_id, limit),
                    ..self
                },
                Some(
                    crate::text::truncated(delta, (limit - shown) as nat)
                        + "\n…command output truncated…\n"@,
                ),
            )
        }
    }
}

impl CodexEventMapper {
    /// The mapper of a turn whose response has the given request id.
    pub fn with_request_id(
        task_id: String,
        thread_id: String,
        request_id: String,
        create_root_task: bool,
    ) -> (mapper: Self)
        ensures
            mapper@ == MapperModel::initial(task_id@, thread_id@, request_id@, create_root_task),
    {
        CodexEventMapper {
            task_id,
            thread_id,
            request_id,
            turn_id: None,
            create_root_task,
            message_kinds: StringHashMap::new(),
            command_output_bytes: StringHashMap::new(),
            failure_message: None,
        }
    }

    /// The mapper of a turn, whose response gets a random request id.
    pub fn new(task_id: String, thread_id: String, create_root_task: bool) -> (mapper: Self)
        ensures
            exists|fresh: u128|
                crate::ids::is_random_uuid(fresh) && mapper@ == #[trigger] MapperModel::initial(
                    task_id@,
                    thread_id@,
                    crate::ids::hyphenated(fresh),
                    create_root_task,
                ),
    {
        let fresh: u128 = random_uuid();
        CodexEventMapper::with_request_id(task_id, thread_id, uuid_text(fresh), create_root_task)
    }

    /// The event that opens the turn's response.
    pub fn init_event(&self) -> (event: ResponseEvent)
        ensures
            event@ == self@.opening(),
    {
        ResponseEvent {
            event_type: Some(
                ResponseEventType::Init(
                    StreamInit {
                        request_id: self.request_id.clone(),
                        conversation_id: self.thread_id.clone(),
                        run_id: String::new(),
                    },
                ),
            ),
        }
    }

    /// A message of the root task.
    pub fn message(&self, message_id: &str, kind: CodexMessageKind, text: &str) -> (message:
        Message)
        ensures
            message@ == self@.message_of(message_id@, kind, text@),
    {
        let content = match kind {
            CodexMessageKind::AgentOutput => MessageContent::AgentOutput(
                AgentOutput { text: text.to_owned() },
            ),
            CodexMessageKind::AgentReasoning => MessageContent::AgentReasoning(
                AgentReasoning { reasoning: text.to_owned(), extra: Opaque::empty() },
            ),
        };
        Message {
            id: message_id.to_owned(),
            task_id: self.task_id.clone(),
            request_id: self.request_id.clone(),
            server_message_data: String::new(),
            message: Some(content),
            extra: Opaque::empty(),
        }
    }

    /// The event that hands the client things to do.
    pub fn client_actions_event(&self, actions: Vec<ClientAction>) -> (event: ResponseEvent)
        ensures
            event@ == actions_event(crate::api::views(actions@)),
    {
        ResponseEvent { event_type: Some(ResponseEventType::ClientActions(ClientActions { actions })) }
    }

    /// The event that ends a turn without a failure.
    pub fn finished_event(&self, done: bool) -> (event: ResponseEvent)
        ensures
            event@ == end_event(done),
    {
        let reason = if done {
            StreamFinishedReason::Done
        } else {
            StreamFinishedReason::Other
        };
        ResponseEvent {
            event_type: Some(
                ResponseEventType::Finished(
                    StreamFinished {
                        reason: Some(reason),
                        should_refresh_model_config: false,
                        extra: Opaque::empty(),
                    },
                ),
            ),
        }
    }

    /// Adds a message, after the root task where that has yet to be created.
    pub fn add_message(&mut self, message_id: &str, kind: CodexMessageKind, text: &str) -> (event:
        ResponseEvent)
        ensures
            (final(self)@, event@) == old(self)@.adding(message_id@, kind, text@),
    {
        self.message_kinds.insert(message_id.to_owned(), kind);
        let mut actions: Vec<ClientAction> = Vec::new();
        if self.create_root_task {
            self.create_root_task = false;
            let task = Task {
                id: self.task_id.clone(),
                messages: Vec::new(),
                description: String::new(),
                summary: String::new(),
                server_data: String::new(),
                extra: Opaque::empty(),
            };
            proof {
                assert(task@.messages =~= seq![]);
            }
            actions.push(
                ClientAction { action: Some(Action::CreateTask(CreateTask { task: Some(task) })) },
            );
        }
        let mut messages: Vec<Message> = Vec::new();
        messages.push(self.message(message_id, kind, text));
        proof {
            assert(crate::api::views(messages@) =~= seq![
                old(self)@.message_of(message_id@, kind, text@),
            ]);
        }
        let add = AddMessagesToTask { task_id: self.task_id.clone(), messages };
        actions.push(ClientAction { action: Some(Action::AddMessagesToTask(add)) });
        let event = self.client_actions_event(actions);
        proof {
            let (after, expected) = old(self)@.adding(message_id@, kind, text@);
            assert(crate::api::views(actions@) =~= expected->0->ClientActions_0);
        }
        event
    }

    /// Appends to a message, which is added where it is new.
    pub fn append_message(
        &mut self,
        message_id: &str,
        kind: CodexMessageKind,
        delta: &str,
    ) -> (event: ResponseEvent)
        ensures
            (final(self)@, event@) == old(self)@.appending(message_id@, kind, delta@),
    {
        if !self.message_kinds.contains_key(message_id) {
            return self.add_message(message_id, kind, delta);
        }
        let append = AppendToMessageContent {
            task_id: self.task_id.clone(),
            message: Some(self.message(message_id, kind, delta)),
            mask: Some(mask_of(kind)),
        };
        let mut actions: Vec<ClientAction> = Vec::new();
        actions.push(ClientAction { action: Some(Action::AppendToMessageContent(append)) });
        let event = self.client_actions_event(actions);
        proof {
            let (after, expected) = old(self)@.appending(message_id@, kind, delta@);
            assert(crate::api::views(actions@) =~= expected->0->ClientActions_0);
        }
        event
    }

    /// Replaces a message's text; the message is added where it is new.
    pub fn set_message(&mut self, message_id: &str, kind: CodexMessageKind, text: &str) -> (event:
        ResponseEvent)
        ensures
            (final(self)@, event@) == old(self)@.setting(message_id@, kind, text@),
    {
        if !self.message_kinds.contains_key(message_id) {
            return self.add_message(message_id, kind, text);
        }
        let update = UpdateTaskMessage {
            task_id: self.task_id.clone(),
            message: Some(self.message(message_id, kind, text)),
            mask: Some(mask_of(kind)),
        };
        let mut actions: Vec<ClientAction> = Vec::new();
        actions.push(ClientAction { action: Some(Action::UpdateTaskMessage(update)) });
        let event = self.client_actions_event(actions);
        proof {
            let (after, expected) = old(self)@.setting(message_id@, kind, text@);
            assert(crate::api::views(actions@) =~= expected->0->ClientActions_0);
        }
        event
    }

    /// What is shown of a piece of command output.
    pub fn command_output_delta(&mut self, item_id: &str, delta: &str) -> (shown: Option<String>)
        ensures
            match shown {
                Some(text) => (final(self)@, Some(text@)) == old(self)@.showing_output(
                    item_id@,
                    delta@,
                ),
                None => (final(self)@, None::<Seq<char>>) == old(self)@.showing_output(
                    item_id@,
                    delta@,
                ),
            },
    {
        let bytes: usize = match self.command_output_bytes.get(item_id) {
            Some(bytes) => *bytes,
            None => 0,
        };
        if bytes >= CODEX_MAX_COMMAND_OUTPUT_BYTES {
            return None;
        }
        let remaining: usize = CODEX_MAX_COMMAND_OUTPUT_BYTES - bytes;
        let mut text = truncate_codex_output(delta, remaining);
        proof {
            crate::text::truncation_keeps_the_longest_fitting_prefix(delta@, remaining as nat);
        }
        let kept: usize = text.as_str().as_bytes().len();
        if kept < delta.as_bytes().len() {
            self.command_output_bytes.insert(item_id.to_owned(), CODEX_MAX_COMMAND_OUTPUT_BYTES);
            text.append("\n…command output truncated…\n");
        } else {
            self.command_output_bytes.insert(item_id.to_owned(), bytes + kept);
        }
        Some(text)
    }
}

/// The mask of the field that holds the text of a kind.
fn mask_of(kind: CodexMessageKind) -> (mask: FieldMask)
    ensures
        mask@ == seq![kind.path()],
{
    let mut paths: Vec<String> = Vec::new();
    paths.push(kind.field_path().to_owned());
    let mask = FieldMask { paths };
    proof {
        assert(mask@ =~= seq![kind.path()]);
    }
    mask
}

/// Nothing to deliver, or one event.
pub open spec fn one_or_none(event: Option<Option<EventModel>>) -> Seq<CodexEventModel> {
    match event {
        Some(inner) => seq![Ok::<Option<EventModel>, Seq<char>>(inner)],
        None => seq![],
    }
}

impl MapperModel {
    /// Sets the message that shows an item, where there is something to show.
    pub open spec fn showing(
        self,
        item_id: Seq<char>,
        shown: Option<(CodexMessageKind, Seq<char>)>,
    ) -> (Self, Option<Option<EventModel>>) {
        match shown {
            Some((kind, text)) => {
                let (after, event) = self.setting(item_id, kind, text);
                (after, Some(event))
            },
            None => (self, None),
        }
    }

    /// Shows that an item started.
    pub open spec fn starting(self, params: Json) -> Result<
        (Self, Option<Option<EventModel>>),
        NotificationError,
    > {
        match params.get("item"@) {
            None => Err(NotificationError::StartedOmitsItem),
            Some(item) => Ok(
                match (item.text_at("type"@), item.text_at("id"@)) {
                    (Some(item_type), Some(item_id)) => self.showing(
                        item_id,
                        match started_text(item_type, item) {
                            Some(text) => Some((CodexMessageKind::AgentReasoning, text)),
                            None => None,
                        },
                    ),
                    _ => (self, None),
                },
            ),
        }
    }

    /// Shows that an item is complete.
    pub open spec fn completing(self, params: Json) -> Result<
        (Self, Option<Option<EventModel>>),
        NotificationError,
    > {
        match params.get("item"@) {
            None => Err(NotificationError::CompletedOmitsItem),
            Some(item) => Ok(
                match (item.text_at("type"@), item.text_at("id"@)) {
                    (Some(item_type), Some(item_id)) => self.showing(
                        item_id,
                        completed_text(item_type, item),
                    ),
                    _ => (self, None),
                },
            ),
        }
    }

    /// The turn that a plan belongs to: the one it names, else the current one.
    pub open spec fn plan_turn(self, params: Json) -> Option<Seq<char>> {
        match params.text_at("turnId"@) {
            Some(turn_id) => Some(turn_id),
            None => self.turn_id,
        }
    }

    /// Shows the plan of a turn.
    pub open spec fn planning(self, params: Json) -> (Self, Option<Option<EventModel>>) {
        match (self.plan_turn(params), params.array_at("plan"@)) {
            (Some(turn_id), Some(entries)) => self.showing(
                "codex-plan-"@ + turn_id,
                Some((CodexMessageKind::AgentReasoning, plan_text(entries))),
            ),
            _ => (self, None),
        }
    }

    /// Appends to the message that streams an item.
    pub open spec fn streaming(self, params: Json, kind: CodexMessageKind) -> Result<
        (Self, Option<Option<EventModel>>),
        NotificationError,
    > {
        match delta_of(params) {
            Ok((item_id, delta)) => {
                let (after, event) = self.appending(item_id, kind, delta);
                Ok((after, Some(event)))
            },
            Err(error) => Err(error),
        }
    }

    /// Appends to the message that streams one part of a reasoning summary.
    pub open spec fn streaming_summary(self, params: Json) -> Result<
        (Self, Option<Option<EventModel>>),
        NotificationError,
    > {
        match delta_of(params) {
            Ok((item_id, delta)) => {
                let index = match params.i64_at("summaryIndex"@) {
                    Some(index) => index as int,
                    None => 0,
                };
                let (after, event) = self.appending(
                    item_id + "-summary-"@ + crate::text::decimal(index),
                    CodexMessageKind::AgentReasoning,
                    delta,
                );
                Ok((after, Some(event)))
            },
            Err(error) => Err(error),
        }
    }

    /// Appends to the message that shows a command's output, as far as the limit
    /// allows.
    pub open spec fn streaming_output(self, params: Json) -> Result<
        (Self, Option<Option<EventModel>>),
        NotificationError,
    > {
        match delta_of(params) {
            Ok((item_id, delta)) => {
                let (counted, shown) = self.showing_output(item_id, delta);
                match shown {
                    Some(text) => {
                        let (after, event) = counted.appending(
                            item_id,
                            CodexMessageKind::AgentReasoning,
                            text,
                        );
                        Ok((after, Some(event)))
                    },
                    None => Ok((counted, None)),
                }
            },
            Err(error) => Err(error),
        }
    }

    /// Sets the message of an item that a completed turn lists, where it is a message
    /// of the agent.
    pub open spec fn reconciling_item(self, item: Json) -> (Self, Option<Option<EventModel>>) {
        match (item.text_at("id"@), item.text_at("text"@)) {
            (Some(item_id), Some(text)) if item.text_at("type"@) == Some(
                "agentMessage"@,
            ) => self.showing(item_id, Some((CodexMessageKind::AgentOutput, text))),
            _ => (self, None),
        }
    }

    /// Sets the messages of the items that a completed turn lists, in order.
    pub open spec fn reconciling(self, items: Seq<Json>) -> (Self, Seq<CodexEventModel>)
        decreases items.len(),
    {
        if items.len() == 0 {
            (self, seq![])
        } else {
            let (before, events) = self.reconciling(items.drop_last());
            let (after, event) = before.reconciling_item(items.last());
            (after, events + one_or_none(event))
        }
    }

    /// Why a turn failed: what the turn says, else the last error, else a fixed text.
    pub open spec fn failure_of(self, turn: Json) -> Seq<char> {
        match (turn.text_under("error"@, "message"@), self.failure_message) {
            (Some(message), _) => message,
            (None, Some(message)) => message,
            (None, None) => "Codex turn failed"@,
        }
    }

    /// How a turn ends, after its items: done, interrupted, or with a failure. The
    /// last error is used up where it is the failure.
    pub open spec fn ending(self, turn: Json) -> (Self, CodexEventModel) {
        let status = turn.text_or("status"@, "failed"@);
        if status == "completed"@ {
            (self, Ok(end_event(true)))
        } else if status == "interrupted"@ {
            (self, Ok(end_event(false)))
        } else if turn.text_under("error"@, "message"@) is Some {
            (self, Err(self.failure_of(turn)))
        } else {
            (MapperModel { failure_message: None, ..self }, Err(self.failure_of(turn)))
        }
    }

    /// A completed turn: its items, then its end.
    pub open spec fn completing_turn(self, turn: Json) -> Mapped {
        let items = match turn.array_at("items"@) {
            Some(items) => items,
            None => seq![],
        };
        let (reconciled, events) = self.reconciling(items);
        let (after, last) = reconciled.ending(turn);
        Mapped { mapper: after, events: events.push(last), completed: true }
    }

    /// What a notification about an item does.
    pub open spec fn item_notified(self, method: Seq<char>, params: Json) -> Result<
        (Self, Option<Option<EventModel>>),
        NotificationError,
    > {
        if method == "item/agentMessage/delta"@ {
            self.streaming(params, CodexMessageKind::AgentOutput)
        } else if method == "item/reasoning/summaryTextDelta"@ {
            self.streaming_summary(params)
        } else if method == "item/commandExecution/outputDelta"@ {
            self.streaming_output(params)
        } else if method == "item/started"@ {
            self.starting(params)
        } else if method == "item/completed"@ {
            self.completing(params)
        } else if method == "turn/plan/updated"@ {
            Ok(self.planning(params))
        } else {
            Ok((self, None))
        }
    }

    /// What a notification does.
    pub open spec fn notified(self, message: Json) -> Result<Mapped, NotificationError> {
        let params = message.get_or_null("params"@);
        match message.text_at("method"@) {
            None => Ok(Mapped { mapper: self, events: seq![], completed: false }),
            Some(method) => if method == "turn/started"@ {
                let turn_id = params.text_under("turn"@, "id"@);
                Ok(
                    Mapped {
                        mapper: MapperModel { turn_id, ..self },
                        events: seq![],
                        completed: false,
                    },
                )
            } else if method == "error"@ {
                let failure_message = params.text_under("error"@, "message"@);
                Ok(
                    Mapped {
                        mapper: MapperModel { failure_message, ..self },
                        events: seq![],
                        completed: false,
                    },
                )
            } else if method == "turn/completed"@ {
                Ok(self.completing_turn(params.get_or_null("turn"@)))
            } else {
                match self.item_notified(method, params) {
                    Ok((mapper, event)) => Ok(
                        Mapped { mapper, events: one_or_none(event), completed: false },
                    ),
                    Err(error) => Err(error),
                }
            },
        }
    }
}

/// What a function on an item notification returns, as mathematics.
pub open spec fn item_result(
    after: MapperModel,
    result: Result<Option<ResponseEvent>, NotificationError>,
) -> Result<(MapperModel, Option<Option<EventModel>>), NotificationError> {
    match result {
        Ok(event) => Ok((after, crate::api::opt_view(event))),
        Err(error) => Err(error),
    }
}

impl CodexEventMapper {
    /// Shows that an item started.
    pub fn map_item_started(&mut self, params: &JsonValue) -> (result: Result<
        Option<ResponseEvent>,
        NotificationError,
    >)
        ensures
            item_result(final(self)@, result) == old(self)@.starting(params@),
            result is Err ==> final(self)@ == old(self)@,
    {
        let item = match params.get("item") {
            Some(item) => item,
            None => return Err(NotificationError::StartedOmitsItem),
        };
        let item_type = match item.text_at("type") {
            Some(item_type) => item_type,
            None => return Ok(None),
        };
        let item_id = match item.text_at("id") {
            Some(item_id) => item_id,
            None => return Ok(None),
        };
        match describe_started(item_type, item) {
            Some(text) => Ok(
                Some(self.set_message(item_id, CodexMessageKind::AgentReasoning, text.as_str())),
            ),
            None => Ok(None),
        }
    }

    /// Shows that an item is complete.
    pub fn map_item_completed(&mut self, params: &JsonValue) -> (result: Result<
        Option<ResponseEvent>,
        NotificationError,
    >)
        ensures
            item_result(final(self)@, result) == old(self)@.completing(params@),
            result is Err ==> final(self)@ == old(self)@,
    {
        let item = match params.get("item") {
            Some(item) => item,
            None => return Err(NotificationError::CompletedOmitsItem),
        };
        let item_type = match item.text_at("type") {
            Some(item_type) => item_type,
            None => return Ok(None),
        };
        let item_id = match item.text_at("id") {
            Some(item_id) => item_id,
            None => return Ok(None),
        };
        match describe_completed(item_type, item) {
            Some((kind, text)) => Ok(Some(self.set_message(item_id, kind, text.as_str()))),
            None => Ok(None),
        }
    }

    /// Shows the plan of a turn.
    pub fn map_plan(&mut self, params: &JsonValue) -> (event: Option<ResponseEvent>)
        ensures
            (final(self)@, crate::api::opt_view(event)) == old(self)@.planning(params@),
    {
        let mut message_id = "codex-plan-".to_owned();
        match params.text_at("turnId") {
            Some(turn_id) => message_id.append(turn_id),
            None => match &self.turn_id {
                Some(turn_id) => message_id.append(turn_id.as_str()),
                None => return None,
            },
        }
        match params.array_at("plan") {
            Some(entries) => {
                let text = describe_plan(entries);
                Some(
                    self.set_message(
                        message_id.as_str(),
                        CodexMessageKind::AgentReasoning,
                        text.as_str(),
                    ),
                )
            },
            None => None,
        }
    }

    /// What a notification about an item does.
    fn map_item_notification(&mut self, method: &str, params: &JsonValue) -> (result: Result<
        Option<ResponseEvent>,
        NotificationError,
    >)
        ensures
            item_result(final(self)@, result) == old(self)@.item_notified(method@, params@),
            result is Err ==> final(self)@ == old(self)@,
    {
        if same_text(method, "item/agentMessage/delta") {
            match codex_delta(params) {
                Ok((item_id, delta)) => Ok(
                    Some(self.append_message(item_id, CodexMessageKind::AgentOutput, delta)),
                ),
                Err(error) => Err(error),
            }
        } else if same_text(method, "item/reasoning/summaryTextDelta") {
            match codex_delta(params) {
                Ok((item_id, delta)) => {
                    let index: i64 = match params.i64_at("summaryIndex") {
                        Some(index) => index,
                        None => 0,
                    };
                    let mut message_id = item_id.to_owned();
                    message_id.append("-summary-");
                    message_id.append(decimal_text(index).as_str());
                    Ok(
                        Some(
                            self.append_message(
                                message_id.as_str(),
                                CodexMessageKind::AgentReasoning,
                                delta,
                            ),
                        ),
                    )
                },
                Err(error) => Err(error),
            }
        } else if same_text(method, "item/commandExecution/outputDelta") {
            match codex_delta(params) {
                Ok((item_id, delta)) => match self.command_output_delta(item_id, delta) {
                    Some(text) => Ok(
                        Some(
                            self.append_message(
                                item_id,
                                CodexMessageKind::AgentReasoning,
                                text.as_str(),
                            ),
                        ),
                    ),
                    None => Ok(None),
                },
                Err(error) => Err(error),
            }
        } else if same_text(method, "item/started") {
            self.map_item_started(params)
        } else if same_text(method, "item/completed") {
            self.map_item_completed(params)
        } else if same_text(method, "turn/plan/updated") {
            Ok(self.map_plan(params))
        } else {
            Ok(None)
        }
    }

    /// Sets the messages of the items that a completed turn lists, in order.
    fn reconcile(&mut self, items: &Vec<JsonValue>) -> (events: Vec<CodexEvent>)
        ensures
            (final(self)@, codex_events(events@)) == old(self)@.reconciling(
                crate::json::models(items@),
            ),
    {
        let ghost parts = crate::json::models(items@);
        let mut events: Vec<CodexEvent> = Vec::new();
        proof {
            assert(codex_events(events@) =~= seq![]);
        }
        let n: usize = items.len();
        for i in 0..n
            invariant
                n == items@.len(),
                parts == crate::json::models(items@),
                (self@, codex_events(events@)) == old(self)@.reconciling(parts.take(i as int)),
        {
            let item = &items[i];
            let ghost before = self@;
            let ghost delivered = events@;
            proof {
                assert(parts.take(i + 1).drop_last() =~= parts.take(i as int));
                assert(parts.take(i + 1).last() == item@);
            }
            let is_message = match item.text_at("type") {
                Some(item_type) => same_text(item_type, "agentMessage"),
                None => false,
            };
            if is_message {
                if let Some(item_id) = item.text_at("id") {
                    if let Some(text) = item.text_at("text") {
                        let event = self.set_message(
                            item_id,
                            CodexMessageKind::AgentOutput,
                            text,
                        );
                        events.push(Ok(event));
                    }
                }
            }
            proof {
                let (after, event) = before.reconciling_item(item@);
                assert(codex_events(events@) =~= codex_events(delivered) + one_or_none(event));
            }
        }
        proof {
            assert(parts.take(n as int) =~= parts);
        }
        events
    }

    /// How a turn ends, after its items.
    fn end_turn(&mut self, turn: &JsonValue) -> (event: CodexEvent)
        ensures
            (final(self)@, codex_event(event)) == old(self)@.ending(turn@),
    {
        let status = turn.text_or("status", "failed");
        if same_text(status, "completed") {
            return Ok(self.finished_event(true));
        }
        if same_text(status, "interrupted") {
            return Ok(self.finished_event(false));
        }
        if let Some(message) = turn.text_under("error", "message") {
            return Err(message.to_owned());
        }
        match self.failure_message.take() {
            Some(message) => Err(message),
            None => Err("Codex turn failed".to_owned()),
        }
    }

    /// What a notification turns into, and whether the turn is over. A notification
    /// that is not understood turns into nothing; one that lacks what it must have is
    /// an error, and leaves the mapper as it was.
    pub fn map_notification(&mut self, message: &JsonValue) -> (result: Result<
        (Vec<CodexEvent>, bool),
        NotificationError,
    >)
        ensures
            match result {
                Ok((events, completed)) => old(self)@.notified(message@) == Ok::<
                    Mapped,
                    NotificationError,
                >(
                    (Mapped { mapper: final(self)@, events: codex_events(events@), completed }),
                ),
                Err(error) => {
                    &&& old(self)@.notified(message@) == Err::<Mapped, NotificationError>(error)
                    &&& final(self)@ == old(self)@
                },
            },
    {
        let mut events: Vec<CodexEvent> = Vec::new();
        proof {
            assert(codex_events(events@) =~= seq![]);
        }
        let method = match message.text_at("method") {
            Some(method) => method,
            None => return Ok((events, false)),
        };
        let absent = JsonValue::Null;
        let params = match message.get("params") {
            Some(params) => params,
            None => &absent,
        };
        if same_text(method, "turn/started") {
            self.turn_id = match params.text_under("turn", "id") {
                Some(turn_id) => Some(turn_id.to_owned()),
                None => None,
            };
            return Ok((events, false));
        }
        if same_text(method, "error") {
            self.failure_message = match params.text_under("error", "message") {
                Some(text) => Some(text.to_owned()),
                None => None,
            };
            return Ok((events, false));
        }
        if same_text(method, "turn/completed") {
            let turn = match params.get("turn") {
                Some(turn) => turn,
                None => &absent,
            };
            if let Some(items) = turn.array_at("items") {
                events = self.reconcile(items);
            }
            let ghost delivered = events@;
            let last = self.end_turn(turn);
            events.push(last);
            proof {
                assert(codex_events(events@) =~= codex_events(delivered).push(codex_event(last)));
            }
            return Ok((events, true));
        }
        match self.map_item_notification(method, params) {
            Ok(Some(event)) => {
                events.push(Ok(event));
                proof {
                    assert(codex_events(events@) =~= one_or_none(Some(event@)));
                }
                Ok((events, false))
            },
            Ok(None) => Ok((events, false)),
            Err(error) => Err(error),
        }
    }
}

} // verus!
