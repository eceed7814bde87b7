//! What comes of each notification of the Codex app-server, case by case, in terms of
//! the JSON that the app-server sent.
use crate::api::{ActionModel, ContentModel, EventModel, MessageModel, ReasonModel, TaskModel};
use crate::codex_laws::{only_changes, ClientModel};
use crate::codex_mapper::{
    CodexEventModel, CodexMessageKind, Mapped, MapperModel, NotificationError,
};
use crate::json::Json;
use vstd::prelude::*;

verus! {

/// A message that is new is added to the mapper's task with its whole text, and is
/// then known; where the task has yet to be created, its creation comes first and is
/// never repeated. Nothing else changes.
pub proof fn new_messages_are_added(
    mapper: MapperModel,
    message_id: Seq<char>,
    kind: CodexMessageKind,
    text: Seq<char>,
)
    ensures
        ({
            let (next, event) = mapper.adding(message_id, kind, text);
            let message = MessageModel {
                id: message_id,
                task_id: mapper.task_id,
                request_id: mapper.request_id,
                server_message_data: seq![],
                message: Some(
                    match kind {
                        CodexMessageKind::AgentOutput => ContentModel::Output(text),
                        CodexMessageKind::AgentReasoning => ContentModel::Reasoning {
                            text,
                            extra: seq![],
                        },
                    },
                ),
                extra: seq![],
            };
            let create = Some(
                ActionModel::CreateTask {
                    task: Some(
                        TaskModel {
                            id: mapper.task_id,
                            messages: seq![],
                            description: seq![],
                            summary: seq![],
                            server_data: seq![],
                            extra: seq![],
                        },
                    ),
                },
            );
            let add = Some(
                ActionModel::AddMessagesToTask {
                    task_id: mapper.task_id,
                    messages: seq![message],
                },
            );
            &&& next == (MapperModel {
                create_root_task: false,
                message_kinds: mapper.message_kinds.insert(message_id, kind),
                ..mapper
            })
            &&& event == Some(
                EventModel::ClientActions(
                    if mapper.create_root_task {
                        seq![create, add]
                    } else {
                        seq![add]
                    },
                ),
            )
        }),
        !mapper.message_kinds.contains_key(message_id) ==> mapper.appending(message_id, kind, text)
            == mapper.adding(message_id, kind, text) && mapper.setting(message_id, kind, text)
            == mapper.adding(message_id, kind, text),
{
}

/// A message that is known is appended to, or replaced, in the one field that holds
/// the text of its kind; the mapper stays as it was.
pub proof fn known_messages_are_changed(
    mapper: MapperModel,
    message_id: Seq<char>,
    kind: CodexMessageKind,
    text: Seq<char>,
)
    requires
        mapper.message_kinds.contains_key(message_id),
    ensures
        ({
            let path = match kind {
                CodexMessageKind::AgentOutput => "agent_output.text"@,
                CodexMessageKind::AgentReasoning => "agent_reasoning.reasoning"@,
            };
            let message = MessageModel {
                id: message_id,
                task_id: mapper.task_id,
                request_id: mapper.request_id,
                server_message_data: seq![],
                message: Some(
                    match kind {
                        CodexMessageKind::AgentOutput => ContentModel::Output(text),
                        CodexMessageKind::AgentReasoning => ContentModel::Reasoning {
                            text,
                            extra: seq![],
                        },
                    },
                ),
                extra: seq![],
            };
            &&& mapper.appending(message_id, kind, text) == (
                mapper,
                Some(
                    EventModel::ClientActions(
                        seq![
                            Some(
                                ActionModel::AppendToMessageContent {
                                    task_id: mapper.task_id,
                                    message: Some(message),
                                    mask: Some(seq![path]),
                                },
                            ),
                        ],
                    ),
                ),
            )
            &&& mapper.setting(message_id, kind, text) == (
                mapper,
                Some(
                    EventModel::ClientActions(
                        seq![
                            Some(
                                ActionModel::UpdateTaskMessage {
                                    task_id: mapper.task_id,
                                    message: Some(message),
                                    mask: Some(seq![path]),
                                },
                            ),
                        ],
                    ),
                ),
            )
        }),
{
}

/// A mapper starts with its names, whether it has to create the task, and nothing
/// else; its first event opens the response under those names.
pub proof fn mappers_start_blank(
    task_id: Seq<char>,
    thread_id: Seq<char>,
    request_id: Seq<char>,
    create_root_task: bool,
)
    ensures
        ({
            let mapper = MapperModel::initial(task_id, thread_id, request_id, create_root_task);
            &&& mapper.task_id == task_id
            &&& mapper.thread_id == thread_id
            &&& mapper.request_id == request_id
            &&& mapper.turn_id is None
            &&& mapper.create_root_task == create_root_task
            &&& mapper.message_kinds == Map::<Seq<char>, CodexMessageKind>::empty()
            &&& mapper.command_output_bytes == Map::<Seq<char>, usize>::empty()
            &&& mapper.failure_message is None
        }),
{
}

/// A response is opened under the mapper's names, and ended for one of two reasons.
pub proof fn responses_open_and_end(mapper: MapperModel)
    ensures
        mapper.opening() == Some(
            EventModel::Init {
                request_id: mapper.request_id,
                conversation_id: mapper.thread_id,
                run_id: seq![],
            },
        ),
        crate::codex_mapper::end_event(true) == Some(
            EventModel::Finished {
                reason: Some(ReasonModel::Done),
                should_refresh_model_config: false,
                extra: seq![],
            },
        ),
        crate::codex_mapper::end_event(false) == Some(
            EventModel::Finished {
                reason: Some(ReasonModel::Other),
                should_refresh_model_config: false,
                extra: seq![],
            },
        ),
{
}

/// The methods that mean something are told apart.
proof fn lemma_methods_differ()
    ensures
        "turn/started"@ != "error"@,
        "turn/started"@ != "turn/completed"@,
        "error"@ != "turn/completed"@,
        "turn/started"@ != "item/agentMessage/delta"@,
        "turn/started"@ != "item/reasoning/summaryTextDelta"@,
        "turn/started"@ != "item/commandExecution/outputDelta"@,
        "turn/started"@ != "item/started"@,
        "turn/started"@ != "item/completed"@,
        "turn/started"@ != "turn/plan/updated"@,
        "error"@ != "item/agentMessage/delta"@,
        "error"@ != "item/reasoning/summaryTextDelta"@,
        "error"@ != "item/commandExecution/outputDelta"@,
        "error"@ != "item/started"@,
        "error"@ != "item/completed"@,
        "error"@ != "turn/plan/updated"@,
        "turn/completed"@ != "item/agentMessage/delta"@,
        "turn/completed"@ != "item/reasoning/summaryTextDelta"@,
        "turn/completed"@ != "item/commandExecution/outputDelta"@,
        "turn/completed"@ != "item/started"@,
        "turn/completed"@ != "item/completed"@,
        "turn/completed"@ != "turn/plan/updated"@,
        "item/agentMessage/delta"@ != "item/reasoning/summaryTextDelta"@,
        "item/agentMessage/delta"@ != "item/commandExecution/outputDelta"@,
        "item/agentMessage/delta"@ != "item/started"@,
        "item/agentMessage/delta"@ != "item/completed"@,
        "item/agentMessage/delta"@ != "turn/plan/updated"@,
        "item/reasoning/summaryTextDelta"@ != "item/commandExecution/outputDelta"@,
        "item/reasoning/summaryTextDelta"@ != "item/started"@,
        "item/reasoning/summaryTextDelta"@ != "item/completed"@,
        "item/reasoning/summaryTextDelta"@ != "turn/plan/updated"@,
        "item/commandExecution/outputDelta"@ != "item/started"@,
        "item/commandExecution/outputDelta"@ != "item/completed"@,
        "item/commandExecution/outputDelta"@ != "turn/plan/updated"@,
        "item/started"@ != "item/completed"@,
        "item/started"@ != "turn/plan/updated"@,
        "item/completed"@ != "turn/plan/updated"@,
{
    reveal_strlit("turn/started");
    reveal_strlit("error");
    reveal_strlit("turn/completed");
    reveal_strlit("item/agentMessage/delta");
    reveal_strlit("item/reasoning/summaryTextDelta");
    reveal_strlit("item/commandExecution/outputDelta");
    reveal_strlit("item/started");
    reveal_strlit("item/completed");
    reveal_strlit("turn/plan/updated");
    assert("turn/started"@[0] == 't');
    assert("item/started"@[0] == 'i');
    assert("turn/started"@.len() == 12);
    assert("error"@.len() == 5);
    assert("turn/completed"@.len() == 14);
    assert("item/agentMessage/delta"@.len() == 23);
    assert("item/reasoning/summaryTextDelta"@.len() == 31);
    assert("item/commandExecution/outputDelta"@.len() == 33);
    assert("item/started"@.len() == 12);
    assert("item/completed"@.len() == 14);
    assert("turn/plan/updated"@.len() == 17);
    assert("turn/completed"@[0] == 't');
    assert("item/completed"@[0] == 'i');
}

/// A delta of the agent's message is appended to the output of its item.
pub proof fn agent_deltas_are_appended(
    mapper: MapperModel,
    message: Json,
    params: Json,
    item_id: Seq<char>,
    delta: Seq<char>,
)
    requires
        message.text_at("method"@) == Some("item/agentMessage/delta"@),
        message.get("params"@) == Some(params),
        params.text_at("itemId"@) == Some(item_id),
        params.text_at("delta"@) == Some(delta),
    ensures
        ({
            let (next, event) = mapper.appending(item_id, CodexMessageKind::AgentOutput, delta);
            mapper.notified(message) == Ok::<Mapped, NotificationError>(
                Mapped { mapper: next, events: seq![Ok(event)], completed: false },
            )
        }),
{
    lemma_methods_differ();
}

/// A client that follows a delta of the agent's message has, as the output of that
/// item, what it had before and the delta, and nothing else changes.
pub proof fn clients_see_agent_deltas_appended(
    mapper: MapperModel,
    client: ClientModel,
    message: Json,
    params: Json,
    item_id: Seq<char>,
    delta: Seq<char>,
)
    requires
        crate::codex_laws::in_step(mapper, client),
        message.text_at("method"@) == Some("item/agentMessage/delta"@),
        message.get("params"@) == Some(params),
        params.text_at("itemId"@) == Some(item_id),
        params.text_at("delta"@) == Some(delta),
    ensures
        mapper.notified(message) matches Ok(mapped) && (client.after_events(
            mapped.events,
        ) matches Some(after) && after.text(item_id, "agent_output.text"@) == client.text(
            item_id,
            "agent_output.text"@,
        ) + delta && only_changes(client, after, item_id, "agent_output.text"@)),
{
    agent_deltas_are_appended(mapper, message, params, item_id, delta);
    let (next, event) = mapper.appending(item_id, CodexMessageKind::AgentOutput, delta);
    crate::codex_laws::appended_messages_grow(
        mapper,
        client,
        item_id,
        CodexMessageKind::AgentOutput,
        delta,
    );
    crate::codex_laws::lemma_after_one(client, Some(event));
    assert(crate::codex_mapper::one_or_none(Some(event)) =~= seq![
        Ok::<Option<EventModel>, Seq<char>>(event),
    ]);
}

/// A delta of a reasoning summary is appended to the reasoning of that part of it:
/// the part is the one it names, else the first.
pub proof fn summary_deltas_are_appended(
    mapper: MapperModel,
    message: Json,
    params: Json,
    item_id: Seq<char>,
    delta: Seq<char>,
)
    requires
        message.text_at("method"@) == Some("item/reasoning/summaryTextDelta"@),
        message.get("params"@) == Some(params),
        params.text_at("itemId"@) == Some(item_id),
        params.text_at("delta"@) == Some(delta),
    ensures
        ({
            let part = if params.i64_at("summaryIndex"@) is Some {
                params.i64_at("summaryIndex"@)->0 as int
            } else {
                0
            };
            let (next, event) = mapper.appending(
                item_id + "-summary-"@ + crate::text::decimal(part),
                CodexMessageKind::AgentReasoning,
                delta,
            );
            mapper.notified(message) == Ok::<Mapped, NotificationError>(
                Mapped { mapper: next, events: seq![Ok(event)], completed: false },
            )
        }),
{
    lemma_methods_differ();
}

/// A piece of command output is appended to the reasoning of its item, as far as it is
/// shown; where nothing of it is shown, nothing is delivered.
pub proof fn output_deltas_are_appended(
    mapper: MapperModel,
    message: Json,
    params: Json,
    item_id: Seq<char>,
    delta: Seq<char>,
)
    requires
        message.text_at("method"@) == Some("item/commandExecution/outputDelta"@),
        message.get("params"@) == Some(params),
        params.text_at("itemId"@) == Some(item_id),
        params.text_at("delta"@) == Some(delta),
    ensures
        ({
            let (counted, shown) = mapper.showing_output(item_id, delta);
            mapper.notified(message) == match shown {
                Some(text) => {
                    let (next, event) = counted.appending(
                        item_id,
                        CodexMessageKind::AgentReasoning,
                        text,
                    );
                    Ok::<Mapped, NotificationError>(
                Mapped { mapper: next, events: seq![Ok(event)], completed: false },
            )
                },
                None => Ok::<Mapped, NotificationError>(
                Mapped { mapper: counted, events: seq![], completed: false },
            ),
            }
        }),
{
    lemma_methods_differ();
}

/// A piece of command output is shown whole while it fits into what is left of the
/// limit; the first that does not is cut to what fits, with a note; after the limit
/// nothing is shown. What was shown is counted for that command alone.
pub proof fn output_is_shown_up_to_the_limit(
    mapper: MapperModel,
    item_id: Seq<char>,
    delta: Seq<char>,
)
    ensures
        ({
            let shown = if mapper.command_output_bytes.contains_key(item_id) {
                mapper.command_output_bytes[item_id] as int
            } else {
                0
            };
            let size = vstd::utf8::encode_utf8(delta).len();
            let (next, text) = mapper.showing_output(item_id, delta);
            &&& next == (MapperModel { command_output_bytes: next.command_output_bytes, ..mapper })
            &&& forall|id: Seq<char>|
                id != item_id ==> (#[trigger] next.command_output_bytes.contains_key(id)
                    <==> mapper.command_output_bytes.contains_key(id)) && (
                mapper.command_output_bytes.contains_key(id) ==> next.command_output_bytes[id]
                    == mapper.command_output_bytes[id])
            &&& if shown >= 16384 {
                text is None && next == mapper
            } else if shown + size <= 16384 {
                &&& text == Some(delta)
                &&& next.command_output_bytes.contains_key(item_id)
                &&& next.command_output_bytes[item_id] == shown + size
            } else {
                &&& text == Some(
                    crate::text::truncated(delta, (16384 - shown) as nat)
                        + "\n…command output truncated…\n"@,
                )
                &&& next.command_output_bytes.contains_key(item_id)
                &&& next.command_output_bytes[item_id] == 16384
            }
        }),
{
}

/// A delta without an item, or without a text, is an error, of the first thing that is
/// missing.
pub proof fn deltas_need_an_item_and_a_text(mapper: MapperModel, message: Json, method: Seq<char>)
    requires
        message.text_at("method"@) == Some(method),
        method == "item/agentMessage/delta"@ || method == "item/reasoning/summaryTextDelta"@
            || method == "item/commandExecution/outputDelta"@,
    ensures
        ({
            let params = if message.get("params"@) is Some {
                message.get("params"@)->0
            } else {
                Json::Null
            };
            let has_item = params.text_at("itemId"@) is Some;
            let has_delta = params.text_at("delta"@) is Some;
            &&& mapper.notified(message) == Err::<Mapped, NotificationError>(
                NotificationError::DeltaOmitsItemId,
            ) <==> !has_item
            &&& mapper.notified(message) == Err::<Mapped, NotificationError>(
                NotificationError::DeltaOmitsDelta,
            ) <==> has_item && !has_delta
            &&& mapper.notified(message) is Ok <==> has_item && has_delta
        }),
{
    lemma_methods_differ();
}

/// Only a delta, a started item and a completed item can be in error; the latter two
/// exactly where the item itself is missing.
pub proof fn items_must_be_given(mapper: MapperModel, message: Json)
    ensures
        ({
            let params = if message.get("params"@) is Some {
                message.get("params"@)->0
            } else {
                Json::Null
            };
            let method = message.text_at("method"@);
            &&& method == Some("item/started"@) ==> (mapper.notified(message) == Err::<
                Mapped,
                NotificationError,
            >(NotificationError::StartedOmitsItem) <==> params.get("item"@) is None) && (
            mapper.notified(message) is Ok <==> params.get("item"@) is Some)
            &&& method == Some("item/completed"@) ==> (mapper.notified(message) == Err::<
                Mapped,
                NotificationError,
            >(NotificationError::CompletedOmitsItem) <==> params.get("item"@) is None) && (
            mapper.notified(message) is Ok <==> params.get("item"@) is Some)
            &&& mapper.notified(message) is Err ==> method is Some && (method->0 == "item/started"@
                || method->0 == "item/completed"@ || method->0 == "item/agentMessage/delta"@
                || method->0 == "item/reasoning/summaryTextDelta"@ || method->0
                == "item/commandExecution/outputDelta"@)
        }),
{
    lemma_methods_differ();
}

/// An item without a type or an id is skipped, whether it starts or is complete.
pub proof fn nameless_items_are_skipped(
    mapper: MapperModel,
    message: Json,
    params: Json,
    item: Json,
)
    requires
        message.text_at("method"@) == Some("item/started"@) || message.text_at("method"@) == Some(
            "item/completed"@,
        ),
        message.get("params"@) == Some(params),
        params.get("item"@) == Some(item),
        item.text_at("type"@) is None || item.text_at("id"@) is None,
    ensures
        mapper.notified(message) == Ok::<Mapped, NotificationError>(
            (Mapped { mapper, events: seq![], completed: false }),
        ),
{
    lemma_methods_differ();
}

/// The types of items are told apart.
proof fn lemma_types_differ()
    ensures
        "agentMessage"@ != "commandExecution"@,
        "agentMessage"@ != "fileChange"@,
        "agentMessage"@ != "mcpToolCall"@,
        "agentMessage"@ != "dynamicToolCall"@,
        "agentMessage"@ != "collabAgentToolCall"@,
        "agentMessage"@ != "webSearch"@,
        "commandExecution"@ != "fileChange"@,
        "commandExecution"@ != "mcpToolCall"@,
        "commandExecution"@ != "dynamicToolCall"@,
        "commandExecution"@ != "collabAgentToolCall"@,
        "commandExecution"@ != "webSearch"@,
        "fileChange"@ != "mcpToolCall"@,
        "fileChange"@ != "dynamicToolCall"@,
        "fileChange"@ != "collabAgentToolCall"@,
        "fileChange"@ != "webSearch"@,
        "mcpToolCall"@ != "dynamicToolCall"@,
        "mcpToolCall"@ != "collabAgentToolCall"@,
        "mcpToolCall"@ != "webSearch"@,
        "dynamicToolCall"@ != "collabAgentToolCall"@,
        "dynamicToolCall"@ != "webSearch"@,
        "collabAgentToolCall"@ != "webSearch"@,
{
    reveal_strlit("agentMessage");
    reveal_strlit("commandExecution");
    reveal_strlit("fileChange");
    reveal_strlit("mcpToolCall");
    reveal_strlit("dynamicToolCall");
    reveal_strlit("collabAgentToolCall");
    reveal_strlit("webSearch");
    assert("agentMessage"@.len() == 12);
    assert("commandExecution"@.len() == 16);
    assert("fileChange"@.len() == 10);
    assert("mcpToolCall"@.len() == 11);
    assert("dynamicToolCall"@.len() == 15);
    assert("collabAgentToolCall"@.len() == 19);
    assert("webSearch"@.len() == 9);
}

/// A command that starts is shown with its command line; a file change and a web
/// search with a fixed text; a tool call with the tool's name, and the server's where
/// it has one. Any other item that starts is skipped.
pub proof fn started_items_are_shown(
    mapper: MapperModel,
    message: Json,
    params: Json,
    item: Json,
    item_type: Seq<char>,
    item_id: Seq<char>,
)
    requires
        message.text_at("method"@) == Some("item/started"@),
        message.get("params"@) == Some(params),
        params.get("item"@) == Some(item),
        item.text_at("type"@) == Some(item_type),
        item.text_at("id"@) == Some(item_id),
    ensures
        ({
            let tool = item.text_or("tool"@, "tool"@);
            let shown = |text: Seq<char>|
                {
                    let (next, event) = mapper.setting(
                        item_id,
                        CodexMessageKind::AgentReasoning,
                        text,
                    );
                    mapper.notified(message) == Ok::<Mapped, NotificationError>(
                Mapped { mapper: next, events: seq![Ok(event)], completed: false },
            )
                };
            &&& item_type == "commandExecution"@ ==> shown(
                "Running:\n```sh\n"@ + item.text_or("command"@, "command"@) + "\n```\n"@,
            )
            &&& item_type == "fileChange"@ ==> shown("Applying file changes…"@)
            &&& item_type == "mcpToolCall"@ ==> shown(
                "Calling MCP tool `"@ + item.text_or("server"@, "server"@) + "/"@ + tool + "`…"@,
            )
            &&& item_type == "dynamicToolCall"@ ==> shown("Running tool `"@ + tool + "`…"@)
            &&& item_type == "collabAgentToolCall"@ ==> shown(
                "Coordinating agents with `"@ + item.text_or("tool"@, "agent tool"@) + "`…"@,
            )
            &&& item_type == "webSearch"@ ==> shown("Searching the web…"@)
            &&& item_type != "commandExecution"@ && item_type != "fileChange"@ && item_type
                != "mcpToolCall"@ && item_type != "dynamicToolCall"@ && item_type
                != "collabAgentToolCall"@ && item_type != "webSearch"@ ==> mapper.notified(message)
                == Ok::<Mapped, NotificationError>(
                Mapped { mapper, events: seq![], completed: false },
            )
        }),
{
    lemma_methods_differ();
    lemma_types_differ();
}

/// A message of the agent that is complete is set to its text; a command is shown with
/// its command line, how it ended and its output; a file change with its status and
/// the number of files; a tool call with its names and status; a web search with a
/// fixed text. Any other item that is complete is skipped.
pub proof fn completed_items_are_shown(
    mapper: MapperModel,
    message: Json,
    params: Json,
    item: Json,
    item_type: Seq<char>,
    item_id: Seq<char>,
)
    requires
        message.text_at("method"@) == Some("item/completed"@),
        message.get("params"@) == Some(params),
        params.get("item"@) == Some(item),
        item.text_at("type"@) == Some(item_type),
        item.text_at("id"@) == Some(item_id),
    ensures
        ({
            let tool = item.text_or("tool"@, "tool"@);
            let status = item.text_or("status"@, "completed"@);
            let shown = |kind: CodexMessageKind, text: Seq<char>|
                {
                    let (next, event) = mapper.setting(item_id, kind, text);
                    mapper.notified(message) == Ok::<Mapped, NotificationError>(
                Mapped { mapper: next, events: seq![Ok(event)], completed: false },
            )
                };
            &&& item_type == "agentMessage"@ ==> shown(
                CodexMessageKind::AgentOutput,
                item.text_or("text"@, ""@),
            )
            &&& item_type == "commandExecution"@ ==> shown(
                CodexMessageKind::AgentReasoning,
                "Ran:\n```sh\n"@ + item.text_or("command"@, "command"@) + "\n```\n"@
                    + crate::codex_mapper::exit_text(item) + "."@
                    + crate::codex_mapper::output_block(item),
            )
            &&& item_type == "fileChange"@ ==> shown(
                CodexMessageKind::AgentReasoning,
                "File changes: "@ + status + " ("@ + crate::text::digits(
                    if item.array_at("changes"@) is Some {
                        item.array_at("changes"@)->0.len()
                    } else {
                        0
                    },
                ) + " updates)."@,
            )
            &&& item_type == "mcpToolCall"@ ==> shown(
                CodexMessageKind::AgentReasoning,
                "MCP tool `"@ + item.text_or("server"@, "server"@) + "/"@ + tool + "`: "@ + status
                    + "."@,
            )
            &&& item_type == "dynamicToolCall"@ || item_type == "collabAgentToolCall"@ ==> shown(
                CodexMessageKind::AgentReasoning,
                "Tool `"@ + tool + "`: "@ + status + "."@,
            )
            &&& item_type == "webSearch"@ ==> shown(
                CodexMessageKind::AgentReasoning,
                "Web search completed."@,
            )
            &&& item_type != "agentMessage"@ && item_type != "commandExecution"@ && item_type
                != "fileChange"@ && item_type != "mcpToolCall"@ && item_type != "dynamicToolCall"@
                && item_type != "collabAgentToolCall"@ && item_type != "webSearch"@
                ==> mapper.notified(message) == Ok::<Mapped, NotificationError>(
                Mapped { mapper, events: seq![], completed: false },
            )
        }),
{
    lemma_methods_differ();
    lemma_types_differ();
}

/// How a command ended is its exit code where it has one, whatever its status says,
/// else its status. Its output is shown up to the limit, in a block of its own, and
/// not at all where nothing of it fits or there is none.
pub proof fn commands_show_their_end_and_output(item: Json)
    ensures
        item.i64_at("exitCode"@) is Some ==> crate::codex_mapper::exit_text(item) == "exit "@
            + crate::text::decimal(item.i64_at("exitCode"@)->0 as int),
        item.i64_at("exitCode"@) is None ==> crate::codex_mapper::exit_text(item) == item.text_or(
            "status"@,
            "completed"@,
        ),
        item.text_at("aggregatedOutput"@) is None ==> crate::codex_mapper::output_block(item)
            == Seq::<char>::empty(),
        item.text_at("aggregatedOutput"@) is Some ==> {
            let kept = crate::text::truncated(item.text_at("aggregatedOutput"@)->0, 16384);
            crate::codex_mapper::output_block(item) == if kept == Seq::<char>::empty() {
                Seq::<char>::empty()
            } else {
                "\n```text\n"@ + kept + "\n```"@
            }
        },
{
    if item.text_at("aggregatedOutput"@) is Some {
        let kept = crate::text::truncated(item.text_at("aggregatedOutput"@)->0, 16384);
        assert(kept.len() == 0 <==> kept =~= Seq::<char>::empty());
    }
}

/// A plan is shown under its turn: the one it names, else the current one. Without a
/// turn, or without steps to show, it is skipped.
pub proof fn plans_are_shown(mapper: MapperModel, message: Json)
    requires
        message.text_at("method"@) == Some("turn/plan/updated"@),
    ensures
        ({
            let params = if message.get("params"@) is Some {
                message.get("params"@)->0
            } else {
                Json::Null
            };
            let turn = if params.text_at("turnId"@) is Some {
                params.text_at("turnId"@)
            } else {
                mapper.turn_id
            };
            let entries = params.array_at("plan"@);
            if turn is Some && entries is Some {
                let (next, event) = mapper.setting(
                    "codex-plan-"@ + turn->0,
                    CodexMessageKind::AgentReasoning,
                    crate::codex_mapper::plan_text(entries->0),
                );
                mapper.notified(message) == Ok::<Mapped, NotificationError>(
                Mapped { mapper: next, events: seq![Ok(event)], completed: false },
            )
            } else {
                mapper.notified(message) == Ok::<Mapped, NotificationError>(
                Mapped { mapper, events: seq![], completed: false },
            )
            }
        }),
{
    lemma_methods_differ();
}

/// A plan has a heading and, for each step in order, a line with its status and text;
/// a step without a status is pending.
pub proof fn plans_list_their_steps(entries: Seq<Json>, entry: Json)
    ensures
        crate::codex_mapper::plan_text(seq![]) == "Plan:\n"@,
        crate::codex_mapper::plan_text(entries.push(entry)) == crate::codex_mapper::plan_text(
            entries,
        ) + ("- ["@ + entry.text_or("status"@, "pending"@) + "] "@ + entry.text_or("step"@, ""@)
            + "\n"@),
{
    assert(entries.push(entry).drop_last() =~= entries);
}

/// A turn that starts is remembered by its id, and an error by its message; nothing is
/// delivered on either, and nothing else is remembered.
pub proof fn turns_and_errors_are_remembered(mapper: MapperModel, message: Json)
    ensures
        ({
            let params = if message.get("params"@) is Some {
                message.get("params"@)->0
            } else {
                Json::Null
            };
            let turn = if params.get("turn"@) is Some {
                params.get("turn"@)->0.text_at("id"@)
            } else {
                None
            };
            let error = if params.get("error"@) is Some {
                params.get("error"@)->0.text_at("message"@)
            } else {
                None
            };
            &&& message.text_at("method"@) == Some("turn/started"@) ==> mapper.notified(message)
                == Ok::<Mapped, NotificationError>(
                Mapped { mapper: MapperModel { turn_id: turn, ..mapper }, events: seq![], completed: false },
            )
            &&& message.text_at("method"@) == Some("error"@) ==> mapper.notified(message)
                == Ok::<Mapped, NotificationError>(
                Mapped { mapper: MapperModel { failure_message: error, ..mapper }, events: seq![], completed: false },
            )
        }),
{
    lemma_methods_differ();
}

/// Any other message is skipped.
pub proof fn other_messages_are_skipped(mapper: MapperModel, message: Json)
    requires
        message.text_at("method"@) matches Some(method) ==> method != "turn/started"@ && method
            != "error"@ && method != "turn/completed"@ && method != "item/agentMessage/delta"@
            && method != "item/reasoning/summaryTextDelta"@ && method
            != "item/commandExecution/outputDelta"@ && method != "item/started"@ && method
            != "item/completed"@ && method != "turn/plan/updated"@,
    ensures
        mapper.notified(message) == Ok::<Mapped, NotificationError>(
            (Mapped { mapper, events: seq![], completed: false }),
        ),
{
}

/// The items that a completed turn lists are taken in order: a message of the agent
/// with an id and a text is set to that text, anything else is skipped.
pub proof fn listed_messages_are_set(mapper: MapperModel, items: Seq<Json>, item: Json)
    ensures
        mapper.reconciling(seq![]) == (mapper, Seq::<CodexEventModel>::empty()),
        ({
            let (between, events) = mapper.reconciling(items);
            let (id, text) = (item.text_at("id"@), item.text_at("text"@));
            if item.text_at("type"@) == Some("agentMessage"@) && id is Some && text is Some {
                let (next, event) = between.setting(
                    id->0,
                    CodexMessageKind::AgentOutput,
                    text->0,
                );
                mapper.reconciling(items.push(item)) == (next, events.push(Ok(event)))
            } else {
                mapper.reconciling(items.push(item)) == (between, events)
            }
        }),
{
    assert(items.push(item).drop_last() =~= items);
    let (between, events) = mapper.reconciling(items);
    let event = between.reconciling_item(item).1;
    if event is Some {
        assert(events + crate::codex_mapper::one_or_none(event) =~= events.push(Ok(event->0)));
    } else {
        assert(events + crate::codex_mapper::one_or_none(event) =~= events);
    }
}

/// The failure that is remembered does not depend on the items that a turn lists.
proof fn lemma_reconciling_keeps_failure(mapper: MapperModel, items: Seq<Json>)
    ensures
        mapper.reconciling(items).0.failure_message == mapper.failure_message,
    decreases items.len(),
{
    if items.len() > 0 {
        lemma_reconciling_keeps_failure(mapper, items.drop_last());
    }
}

/// A turn that is over sets the messages that it lists, and ends last: as done exactly
/// where its status is completed, for another reason exactly where it is interrupted,
/// and with a failure on every other status or none. The failure is the turn's own
/// message, else the last error's, else a fixed text; the last error is used up
/// exactly where the turn fails without a message of its own.
pub proof fn turns_end_by_their_status(mapper: MapperModel, message: Json)
    requires
        message.text_at("method"@) == Some("turn/completed"@),
    ensures
        ({
            let params = if message.get("params"@) is Some {
                message.get("params"@)->0
            } else {
                Json::Null
            };
            let turn = if params.get("turn"@) is Some {
                params.get("turn"@)->0
            } else {
                Json::Null
            };
            let items = if turn.array_at("items"@) is Some {
                turn.array_at("items"@)->0
            } else {
                seq![]
            };
            let status = turn.text_at("status"@);
            let own = if turn.get("error"@) is Some {
                turn.get("error"@)->0.text_at("message"@)
            } else {
                None
            };
            let (between, events) = mapper.reconciling(items);
            let done = status == Some("completed"@);
            let interrupted = status == Some("interrupted"@);
            let failure = if own is Some {
                own->0
            } else if mapper.failure_message is Some {
                mapper.failure_message->0
            } else {
                "Codex turn failed"@
            };
            &&& mapper.notified(message) matches Ok(mapped)
            &&& mapped.completed
            &&& mapped.events == events.push(
                if done {
                    Ok(
                        Some(
                            EventModel::Finished {
                                reason: Some(ReasonModel::Done),
                                should_refresh_model_config: false,
                                extra: seq![],
                            },
                        ),
                    )
                } else if interrupted {
                    Ok(
                        Some(
                            EventModel::Finished {
                                reason: Some(ReasonModel::Other),
                                should_refresh_model_config: false,
                                extra: seq![],
                            },
                        ),
                    )
                } else {
                    Err(failure)
                },
            )
            &&& mapped.mapper == if done || interrupted || own is Some {
                between
            } else {
                MapperModel { failure_message: None, ..between }
            }
            &&& !(done && interrupted)
        }),
{
    lemma_methods_differ();
    let params = message.get_or_null("params"@);
    let turn = params.get_or_null("turn"@);
    let items = match turn.array_at("items"@) {
        Some(items) => items,
        None => seq![],
    };
    lemma_reconciling_keeps_failure(mapper, items);
    reveal_strlit("completed");
    reveal_strlit("interrupted");
    reveal_strlit("failed");
    assert("completed"@.len() == 9);
    assert("interrupted"@.len() == 11);
    assert("failed"@.len() == 6);
}

/// What is delivered is viewed in order: an event as itself, a failure as its text.
pub proof fn deliveries_are_viewed_in_order(events: Seq<crate::codex_mapper::CodexEvent>, i: int)
    requires
        0 <= i < events.len(),
    ensures
        crate::codex_mapper::codex_events(events).len() == events.len(),
        match events[i] {
            Ok(event) => crate::codex_mapper::codex_events(events)[i] == Ok::<
                Option<EventModel>,
                Seq<char>,
            >(event@),
            Err(text) => crate::codex_mapper::codex_events(events)[i] == Err::<
                Option<EventModel>,
                Seq<char>,
            >(text@),
        },
{
}

/// A mapper is viewed with every field in its place.
pub proof fn mappers_are_viewed_whole(mapper: crate::codex_mapper::CodexEventMapper)
    ensures
        mapper@.task_id == mapper.task_id@,
        mapper@.thread_id == mapper.thread_id@,
        mapper@.request_id == mapper.request_id@,
        mapper@.turn_id is Some <==> mapper.turn_id is Some,
        mapper.turn_id is Some ==> mapper@.turn_id->0 == mapper.turn_id->0@,
        mapper@.create_root_task == mapper.create_root_task,
        mapper@.message_kinds == mapper.message_kinds@,
        mapper@.command_output_bytes == mapper.command_output_bytes@,
        mapper@.failure_message is Some <==> mapper.failure_message is Some,
        mapper.failure_message is Some ==> mapper@.failure_message->0 == mapper.failure_message->0@,
{
}

/// The texts of what a notification can lack, and the fields of the two kinds.
pub proof fn fixed_texts()
    ensures
        NotificationError::DeltaOmitsItemId.text() == "Codex delta notification omitted itemId"@,
        NotificationError::DeltaOmitsDelta.text() == "Codex delta notification omitted delta"@,
        NotificationError::StartedOmitsItem.text()
            == "Codex item/started notification omitted the item"@,
        NotificationError::CompletedOmitsItem.text()
            == "Codex item/completed notification omitted the item"@,
        CodexMessageKind::AgentOutput.path() == "agent_output.text"@,
        CodexMessageKind::AgentReasoning.path() == "agent_reasoning.reasoning"@,
{
}

/// The actions of an event are those that it was made of, all of them and in order.
/// What a notification about an item gives is its event, where there is one, and the
/// mapper after it, or its error.
pub proof fn results_are_viewed_whole(
    actions: Seq<Option<ActionModel>>,
    after: MapperModel,
    event: crate::api::ResponseEvent,
    error: NotificationError,
)
    ensures
        crate::codex_mapper::actions_event(actions) == Some(EventModel::ClientActions(actions)),
        crate::codex_mapper::item_result(after, Ok(Some(event))) == Ok::<
            (MapperModel, Option<Option<EventModel>>),
            NotificationError,
        >((after, Some(event@))),
        crate::codex_mapper::item_result(after, Ok(None)) == Ok::<
            (MapperModel, Option<Option<EventModel>>),
            NotificationError,
        >((after, None)),
        crate::codex_mapper::item_result(after, Err(error)) == Err::<
            (MapperModel, Option<Option<EventModel>>),
            NotificationError,
        >(error),
{
}

} // verus!
