use response_stream::api::{Action, ClientAction, MessageContent, ResponseEvent, ResponseEventType};
use response_stream::api::{Message, StreamFinishedReason};
use response_stream::codex_mapper::{
    codex_delta, CodexEvent, CodexEventMapper, CodexMessageKind, NotificationError,
    CODEX_MAX_COMMAND_OUTPUT_BYTES,
};
use response_stream::json::JsonValue;
use response_stream::text::truncate_codex_output;

fn text(value: &str) -> JsonValue {
    JsonValue::Text(value.to_string())
}

fn number(value: i64) -> JsonValue {
    JsonValue::Number(Some(value))
}

fn object(members: Vec<(&str, JsonValue)>) -> JsonValue {
    JsonValue::Object(
        members
            .into_iter()
            .map(|(key, value)| (key.to_string(), value))
            .collect(),
    )
}

fn notification(method: &str, params: JsonValue) -> JsonValue {
    object(vec![("method", text(method)), ("params", params)])
}

fn delta(method: &str, item_id: &str, delta: &str) -> JsonValue {
    notification(
        method,
        object(vec![("itemId", text(item_id)), ("delta", text(delta))]),
    )
}

fn item(method: &str, members: Vec<(&str, JsonValue)>) -> JsonValue {
    notification(method, object(vec![("item", object(members))]))
}

fn mapper(create_root_task: bool) -> CodexEventMapper {
    CodexEventMapper::new("root-task".into(), "thread-id".into(), create_root_task)
}

fn actions(event: &ResponseEvent) -> &Vec<ClientAction> {
    let Some(ResponseEventType::ClientActions(actions)) = &event.event_type else {
        panic!("expected client actions");
    };
    &actions.actions
}

fn only(events: &[CodexEvent]) -> &ResponseEvent {
    assert_eq!(events.len(), 1);
    let Ok(event) = &events[0] else {
        panic!("expected response event");
    };
    event
}

fn shown(message: &Message) -> (&str, &str) {
    match message.message.as_ref() {
        Some(MessageContent::AgentOutput(output)) => ("output", output.text.as_str()),
        Some(MessageContent::AgentReasoning(reasoning)) => {
            ("reasoning", reasoning.reasoning.as_str())
        }
        _ => panic!("expected content"),
    }
}

/// What the only action of an event does, to which message, and with which text.
fn action_of(event: &ResponseEvent) -> (&str, &str, &str, &str) {
    let actions = actions(event);
    assert_eq!(actions.len(), 1);
    let (verb, message) = match actions[0].action.as_ref() {
        Some(Action::AddMessagesToTask(add)) => {
            assert_eq!(add.messages.len(), 1);
            ("add", &add.messages[0])
        }
        Some(Action::AppendToMessageContent(append)) => ("append", append.message.as_ref().unwrap()),
        Some(Action::UpdateTaskMessage(update)) => ("update", update.message.as_ref().unwrap()),
        _ => panic!("expected an action on a message"),
    };
    let (kind, text) = shown(message);
    (verb, message.id.as_str(), kind, text)
}

#[test]
fn codex_first_delta_creates_root_task_and_streaming_message() {
    let mut mapper = CodexEventMapper::new("root-task".into(), "thread-id".into(), true);
    let (events, completed) = mapper
        .map_notification(&object(vec![
            ("method", text("item/agentMessage/delta")),
            (
                "params",
                object(vec![
                    ("threadId", text("thread-id")),
                    ("turnId", text("turn-id")),
                    ("itemId", text("message-id")),
                    ("delta", text("Hello")),
                ]),
            ),
        ]))
        .expect("agent delta should map");

    assert!(!completed);
    let Ok(event) = &events[0] else {
        panic!("expected response event");
    };
    let Some(ResponseEventType::ClientActions(actions)) = &event.event_type else {
        panic!("expected client actions");
    };
    assert!(matches!(
        &actions.actions[0].action,
        Some(Action::CreateTask(_))
    ));
    let Some(Action::AddMessagesToTask(add)) = &actions.actions[1].action else {
        panic!("expected message creation");
    };
    assert_eq!(add.messages[0].id, "message-id");
    assert!(matches!(
        &add.messages[0].message,
        Some(MessageContent::AgentOutput(output)) if output.text == "Hello"
    ));
}

#[test]
fn codex_later_delta_appends_to_the_existing_message() {
    let mut mapper = CodexEventMapper::new("root-task".into(), "thread-id".into(), false);
    let _ = mapper.append_message("message-id", CodexMessageKind::AgentOutput, "Hello");
    let event = mapper.append_message("message-id", CodexMessageKind::AgentOutput, " world");
    let Some(ResponseEventType::ClientActions(actions)) = event.event_type else {
        panic!("expected client actions");
    };
    let Some(Action::AppendToMessageContent(append)) = &actions.actions[0].action else {
        panic!("expected message append");
    };
    assert_eq!(
        append.mask.as_ref().map(|mask| mask.paths.as_slice()),
        Some(["agent_output.text".to_owned()].as_slice())
    );
    assert!(matches!(
        append.message.as_ref().and_then(|message| message.message.as_ref()),
        Some(MessageContent::AgentOutput(output)) if output.text == " world"
    ));
}

#[test]
fn codex_completed_message_reconciles_authoritative_text() {
    let mut mapper = CodexEventMapper::new("root-task".into(), "thread-id".into(), false);
    let _ = mapper.append_message("message-id", CodexMessageKind::AgentOutput, "Hel");
    let (events, _) = mapper
        .map_notification(&object(vec![
            ("method", text("item/completed")),
            (
                "params",
                object(vec![(
                    "item",
                    object(vec![
                        ("type", text("agentMessage")),
                        ("id", text("message-id")),
                        ("text", text("Hello")),
                    ]),
                )]),
            ),
        ]))
        .expect("completed message should map");
    let Ok(event) = &events[0] else {
        panic!("expected response event");
    };
    let Some(ResponseEventType::ClientActions(actions)) = &event.event_type else {
        panic!("expected client actions");
    };
    assert!(matches!(
        &actions.actions[0].action,
        Some(Action::UpdateTaskMessage(update))
            if matches!(
                update.message.as_ref().and_then(|message| message.message.as_ref()),
                Some(MessageContent::AgentOutput(output)) if output.text == "Hello"
            )
    ));
}

#[test]
fn codex_command_start_surfaces_live_progress() {
    let mut mapper = CodexEventMapper::new("root-task".into(), "thread-id".into(), false);
    let (events, _) = mapper
        .map_notification(&object(vec![
            ("method", text("item/started")),
            (
                "params",
                object(vec![(
                    "item",
                    object(vec![
                        ("type", text("commandExecution")),
                        ("id", text("command-id")),
                        ("command", text("cargo test")),
                    ]),
                )]),
            ),
        ]))
        .expect("command start should map");
    let Ok(event) = &events[0] else {
        panic!("expected response event");
    };
    let Some(ResponseEventType::ClientActions(actions)) = &event.event_type else {
        panic!("expected client actions");
    };
    assert!(matches!(
        &actions.actions[0].action,
        Some(Action::AddMessagesToTask(add))
            if matches!(
                add.messages[0].message.as_ref(),
                Some(MessageContent::AgentReasoning(reasoning))
                    if reasoning.reasoning.contains("cargo test")
            )
    ));
}

#[test]
fn codex_turn_completion_finishes_the_warp_stream() {
    let mut mapper = CodexEventMapper::new("root-task".into(), "thread-id".into(), false);
    let (events, completed) = mapper
        .map_notification(&object(vec![
            ("method", text("turn/completed")),
            (
                "params",
                object(vec![
                    ("threadId", text("thread-id")),
                    (
                        "turn",
                        object(vec![
                            ("id", text("turn-id")),
                            ("status", text("completed")),
                            ("items", JsonValue::Array(vec![])),
                        ]),
                    ),
                ]),
            ),
        ]))
        .expect("turn completion should map");

    assert!(completed);
    assert!(matches!(
        &events[0],
        Ok(ResponseEvent {
            event_type: Some(ResponseEventType::Finished(_))
        })
    ));
}

#[test]
fn codex_output_truncation_preserves_utf8_boundaries() {
    assert_eq!(truncate_codex_output("a🙂b", 3), "a");
    assert_eq!(truncate_codex_output("a🙂b", 5), "a🙂");
}

#[test]
fn truncation_edges() {
    assert_eq!(truncate_codex_output("", 0), "");
    assert_eq!(truncate_codex_output("abc", 0), "");
    assert_eq!(truncate_codex_output("abc", 3), "abc");
    assert_eq!(truncate_codex_output("abc", 2), "ab");
    assert_eq!(truncate_codex_output("éé", 3), "é");
    assert_eq!(truncate_codex_output("🙂", 3), "");
}

#[test]
fn a_mapper_opens_its_response_with_a_random_request_id() {
    let first = mapper(true);
    let second = mapper(true);
    assert_ne!(first.request_id, second.request_id);
    let id = first.request_id.as_bytes();
    assert_eq!(id.len(), 36);
    assert_eq!((id[8], id[13], id[18], id[23]), (b'-', b'-', b'-', b'-'));
    assert_eq!(id[14], b'4');
    let Some(ResponseEventType::Init(init)) = first.init_event().event_type else {
        panic!("expected the opening event");
    };
    assert_eq!(init.request_id, first.request_id);
    assert_eq!(init.conversation_id, "thread-id");
    assert_eq!(init.run_id, "");
}

#[test]
fn the_root_task_is_created_once_and_before_the_first_message() {
    let mut mapper = CodexEventMapper::with_request_id(
        "root-task".into(),
        "thread-id".into(),
        "request-id".into(),
        true,
    );
    let first = mapper.set_message("a", CodexMessageKind::AgentReasoning, "one");
    let list = actions(&first);
    assert_eq!(list.len(), 2);
    let Some(Action::CreateTask(create)) = &list[0].action else {
        panic!("expected task creation");
    };
    let task = create.task.as_ref().unwrap();
    assert_eq!(task.id, "root-task");
    assert!(task.messages.is_empty());
    assert_eq!((task.description.as_str(), task.summary.as_str()), ("", ""));
    assert_eq!(task.server_data, "");
    let Some(Action::AddMessagesToTask(add)) = &list[1].action else {
        panic!("expected message creation");
    };
    assert_eq!(add.task_id, "root-task");
    assert_eq!(add.messages[0].task_id, "root-task");
    assert_eq!(add.messages[0].request_id, "request-id");
    assert_eq!(add.messages[0].server_message_data, "");
    let second = mapper.set_message("b", CodexMessageKind::AgentOutput, "two");
    assert_eq!(action_of(&second), ("add", "b", "output", "two"));
    let third = mapper.set_message("a", CodexMessageKind::AgentReasoning, "three");
    assert_eq!(action_of(&third), ("update", "a", "reasoning", "three"));
    let Some(Action::UpdateTaskMessage(update)) = &actions(&third)[0].action else {
        panic!("expected an update");
    };
    assert_eq!(
        update.mask.as_ref().unwrap().paths,
        vec!["agent_reasoning.reasoning".to_string()]
    );
}

#[test]
fn field_paths() {
    assert_eq!(CodexMessageKind::AgentOutput.field_path(), "agent_output.text");
    assert_eq!(
        CodexMessageKind::AgentReasoning.field_path(),
        "agent_reasoning.reasoning"
    );
}

#[test]
fn messages_without_a_known_method_turn_into_nothing() {
    let mut mapper = mapper(true);
    for message in [
        JsonValue::Null,
        object(vec![]),
        object(vec![("method", number(1))]),
        notification("warning", JsonValue::Null),
        notification("item/plan/delta", JsonValue::Null),
        object(vec![("method", text("something/else"))]),
    ] {
        let (events, completed) = mapper.map_notification(&message).unwrap();
        assert!(events.is_empty());
        assert!(!completed);
    }
    assert!(mapper.create_root_task);
}

#[test]
fn deltas_need_an_item_and_a_text() {
    let mut mapper = mapper(true);
    for method in [
        "item/agentMessage/delta",
        "item/reasoning/summaryTextDelta",
        "item/commandExecution/outputDelta",
    ] {
        let no_item = notification(method, object(vec![("delta", text("x"))]));
        assert_eq!(
            mapper.map_notification(&no_item).err(),
            Some(NotificationError::DeltaOmitsItemId)
        );
        let no_delta = notification(method, object(vec![("itemId", text("x"))]));
        assert_eq!(
            mapper.map_notification(&no_delta).err(),
            Some(NotificationError::DeltaOmitsDelta)
        );
        assert_eq!(
            mapper
                .map_notification(&object(vec![("method", text(method))]))
                .err(),
            Some(NotificationError::DeltaOmitsItemId)
        );
    }
    assert!(mapper.create_root_task);
    assert_eq!(
        codex_delta(&object(vec![("itemId", text("i")), ("delta", text("d"))])),
        Ok(("i", "d"))
    );
}

#[test]
fn items_must_be_given() {
    let mut mapper = mapper(true);
    let started = mapper.map_notification(&notification("item/started", object(vec![])));
    assert_eq!(started.err(), Some(NotificationError::StartedOmitsItem));
    let completed = mapper.map_notification(&notification("item/completed", JsonValue::Null));
    assert_eq!(completed.err(), Some(NotificationError::CompletedOmitsItem));
    assert!(mapper.create_root_task);
}

#[test]
fn notification_error_texts() {
    assert_eq!(
        NotificationError::DeltaOmitsItemId.message(),
        "Codex delta notification omitted itemId"
    );
    assert_eq!(
        NotificationError::DeltaOmitsDelta.message(),
        "Codex delta notification omitted delta"
    );
    assert_eq!(
        NotificationError::StartedOmitsItem.message(),
        "Codex item/started notification omitted the item"
    );
    assert_eq!(
        NotificationError::CompletedOmitsItem.message(),
        "Codex item/completed notification omitted the item"
    );
}

#[test]
fn items_of_unknown_type_or_without_id_turn_into_nothing() {
    let mut mapper = mapper(false);
    for method in ["item/started", "item/completed"] {
        for members in [
            vec![("type", text("webSearch"))],
            vec![("id", text("x"))],
            vec![("type", text("unheardOf")), ("id", text("x"))],
        ] {
            let (events, _) = mapper.map_notification(&item(method, members)).unwrap();
            assert!(events.is_empty());
        }
    }
    let (events, _) = mapper
        .map_notification(&item(
            "item/started",
            vec![("type", text("agentMessage")), ("id", text("x"))],
        ))
        .unwrap();
    assert!(events.is_empty());
}

fn started(members: Vec<(&str, JsonValue)>) -> String {
    let mut mapper = mapper(false);
    let mut all = vec![("id", text("i"))];
    all.extend(members);
    let (events, completed) = mapper.map_notification(&item("item/started", all)).unwrap();
    assert!(!completed);
    let (verb, id, kind, shown) = action_of(only(&events));
    assert_eq!((verb, id, kind), ("add", "i", "reasoning"));
    shown.to_string()
}

#[test]
fn started_items_are_described() {
    assert_eq!(
        started(vec![("type", text("commandExecution")), ("command", text("ls"))]),
        "Running:\n```sh\nls\n```\n"
    );
    assert_eq!(
        started(vec![("type", text("commandExecution"))]),
        "Running:\n```sh\ncommand\n```\n"
    );
    assert_eq!(
        started(vec![("type", text("fileChange"))]),
        "Applying file changes…"
    );
    assert_eq!(
        started(vec![
            ("type", text("mcpToolCall")),
            ("server", text("s")),
            ("tool", text("t"))
        ]),
        "Calling MCP tool `s/t`…"
    );
    assert_eq!(
        started(vec![("type", text("mcpToolCall"))]),
        "Calling MCP tool `server/tool`…"
    );
    assert_eq!(
        started(vec![("type", text("dynamicToolCall")), ("tool", text("t"))]),
        "Running tool `t`…"
    );
    assert_eq!(
        started(vec![("type", text("dynamicToolCall"))]),
        "Running tool `tool`…"
    );
    assert_eq!(
        started(vec![("type", text("collabAgentToolCall"))]),
        "Coordinating agents with `agent tool`…"
    );
    assert_eq!(
        started(vec![("type", text("webSearch"))]),
        "Searching the web…"
    );
}

fn completed(members: Vec<(&str, JsonValue)>) -> (String, String) {
    let mut mapper = mapper(false);
    let mut all = vec![("id", text("i"))];
    all.extend(members);
    let (events, completed) = mapper.map_notification(&item("item/completed", all)).unwrap();
    assert!(!completed);
    let (verb, id, kind, shown) = action_of(only(&events));
    assert_eq!((verb, id), ("add", "i"));
    (kind.to_string(), shown.to_string())
}

fn reasoned(members: Vec<(&str, JsonValue)>) -> String {
    let (kind, shown) = completed(members);
    assert_eq!(kind, "reasoning");
    shown
}

#[test]
fn completed_items_are_described() {
    assert_eq!(
        completed(vec![("type", text("agentMessage")), ("text", text("Hi"))]),
        ("output".to_string(), "Hi".to_string())
    );
    assert_eq!(
        completed(vec![("type", text("agentMessage"))]),
        ("output".to_string(), String::new())
    );
    assert_eq!(
        reasoned(vec![
            ("type", text("fileChange")),
            ("status", text("failed")),
            (
                "changes",
                JsonValue::Array((0..12).map(|_| JsonValue::Null).collect())
            )
        ]),
        "File changes: failed (12 updates)."
    );
    assert_eq!(
        reasoned(vec![("type", text("fileChange"))]),
        "File changes: completed (0 updates)."
    );
    assert_eq!(
        reasoned(vec![
            ("type", text("mcpToolCall")),
            ("server", text("s")),
            ("tool", text("t")),
            ("status", text("failed"))
        ]),
        "MCP tool `s/t`: failed."
    );
    assert_eq!(
        reasoned(vec![("type", text("mcpToolCall"))]),
        "MCP tool `server/tool`: completed."
    );
    assert_eq!(
        reasoned(vec![("type", text("dynamicToolCall")), ("tool", text("t"))]),
        "Tool `t`: completed."
    );
    assert_eq!(
        reasoned(vec![("type", text("collabAgentToolCall"))]),
        "Tool `tool`: completed."
    );
    assert_eq!(
        reasoned(vec![("type", text("webSearch"))]),
        "Web search completed."
    );
}

#[test]
fn completed_commands_show_how_they_ended() {
    assert_eq!(
        reasoned(vec![
            ("type", text("commandExecution")),
            ("command", text("ls")),
            ("exitCode", number(-7)),
            ("status", text("ignored")),
            ("aggregatedOutput", text("a\nb"))
        ]),
        "Ran:\n```sh\nls\n```\nexit -7.\n```text\na\nb\n```"
    );
    assert_eq!(
        reasoned(vec![
            ("type", text("commandExecution")),
            ("exitCode", number(0)),
            ("aggregatedOutput", text(""))
        ]),
        "Ran:\n```sh\ncommand\n```\nexit 0."
    );
    assert_eq!(
        reasoned(vec![
            ("type", text("commandExecution")),
            ("exitCode", JsonValue::Number(None)),
            ("status", text("declined"))
        ]),
        "Ran:\n```sh\ncommand\n```\ndeclined."
    );
    assert_eq!(
        reasoned(vec![
            ("type", text("commandExecution")),
            ("exitCode", number(i64::MIN))
        ]),
        "Ran:\n```sh\ncommand\n```\nexit -9223372036854775808."
    );
    let long = "x".repeat(CODEX_MAX_COMMAND_OUTPUT_BYTES + 5);
    let kept = "x".repeat(CODEX_MAX_COMMAND_OUTPUT_BYTES);
    assert_eq!(
        reasoned(vec![
            ("type", text("commandExecution")),
            ("aggregatedOutput", text(&long))
        ]),
        format!("Ran:\n```sh\ncommand\n```\ncompleted.\n```text\n{kept}\n```")
    );
}

#[test]
fn reasoning_summaries_stream_part_by_part() {
    let mut mapper = mapper(false);
    let summary = |index: Option<i64>, piece: &str| {
        let mut members = vec![("itemId", text("r")), ("delta", text(piece))];
        if let Some(index) = index {
            members.push(("summaryIndex", number(index)));
        }
        notification("item/reasoning/summaryTextDelta", object(members))
    };
    let (events, _) = mapper.map_notification(&summary(None, "a")).unwrap();
    assert_eq!(
        action_of(only(&events)),
        ("add", "r-summary-0", "reasoning", "a")
    );
    let (events, _) = mapper.map_notification(&summary(Some(0), "b")).unwrap();
    assert_eq!(
        action_of(only(&events)),
        ("append", "r-summary-0", "reasoning", "b")
    );
    let (events, _) = mapper.map_notification(&summary(Some(12), "c")).unwrap();
    assert_eq!(
        action_of(only(&events)),
        ("add", "r-summary-12", "reasoning", "c")
    );
}

#[test]
fn command_output_stops_at_the_limit() {
    let mut mapper = mapper(false);
    let most = "x".repeat(CODEX_MAX_COMMAND_OUTPUT_BYTES - 2);
    assert_eq!(
        mapper.command_output_delta("c", &most),
        Some(most.clone())
    );
    assert_eq!(
        mapper.command_output_delta("c", "é"),
        Some("é".to_string())
    );
    assert_eq!(mapper.command_output_delta("c", ""), None);
    assert_eq!(mapper.command_output_delta("c", "more"), None);
    // Every command has its own limit.
    assert_eq!(
        mapper.command_output_delta("d", "ok"),
        Some("ok".to_string())
    );
}

#[test]
fn command_output_is_cut_with_a_note() {
    let mut mapper = mapper(false);
    let most = "x".repeat(CODEX_MAX_COMMAND_OUTPUT_BYTES - 3);
    mapper.command_output_delta("c", &most);
    assert_eq!(
        mapper.command_output_delta("c", "a🙂"),
        Some("a\n…command output truncated…\n".to_string())
    );
    assert_eq!(mapper.command_output_delta("c", "b"), None);
}

#[test]
fn command_output_streams_into_one_message() {
    let mut mapper = mapper(false);
    let method = "item/commandExecution/outputDelta";
    let (events, _) = mapper.map_notification(&delta(method, "c", "one")).unwrap();
    assert_eq!(action_of(only(&events)), ("add", "c", "reasoning", "one"));
    let (events, _) = mapper.map_notification(&delta(method, "c", "two")).unwrap();
    assert_eq!(action_of(only(&events)), ("append", "c", "reasoning", "two"));
    let rest = "x".repeat(CODEX_MAX_COMMAND_OUTPUT_BYTES);
    let (events, _) = mapper.map_notification(&delta(method, "c", &rest)).unwrap();
    assert_eq!(events.len(), 1);
    let (events, _) = mapper.map_notification(&delta(method, "c", "x")).unwrap();
    assert!(events.is_empty());
}

fn plan(turn_id: Option<&str>) -> JsonValue {
    let mut members = vec![(
        "plan",
        JsonValue::Array(vec![
            object(vec![("step", text("look")), ("status", text("done"))]),
            object(vec![("step", text("leap"))]),
            JsonValue::Null,
        ]),
    )];
    if let Some(turn_id) = turn_id {
        members.push(("turnId", text(turn_id)));
    }
    notification("turn/plan/updated", object(members))
}

#[test]
fn plans_are_shown_once_per_turn() {
    let mut mapper = mapper(false);
    let (events, _) = mapper.map_notification(&plan(None)).unwrap();
    assert!(events.is_empty());
    let wanted = "Plan:\n- [done] look\n- [pending] leap\n- [pending] \n";
    let (events, _) = mapper.map_notification(&plan(Some("t1"))).unwrap();
    assert_eq!(
        action_of(only(&events)),
        ("add", "codex-plan-t1", "reasoning", wanted)
    );
    let turn = object(vec![("turn", object(vec![("id", text("t1"))]))]);
    mapper
        .map_notification(&notification("turn/started", turn))
        .unwrap();
    let (events, _) = mapper.map_notification(&plan(None)).unwrap();
    assert_eq!(
        action_of(only(&events)),
        ("update", "codex-plan-t1", "reasoning", wanted)
    );
    let no_plan = notification("turn/plan/updated", object(vec![("turnId", text("t2"))]));
    let (events, _) = mapper.map_notification(&no_plan).unwrap();
    assert!(events.is_empty());
}

fn turn_completed(members: Vec<(&str, JsonValue)>) -> JsonValue {
    notification(
        "turn/completed",
        object(vec![("turn", object(members))]),
    )
}

fn failure(events: &[CodexEvent]) -> &str {
    match events.last() {
        Some(Err(message)) => message.as_str(),
        _ => panic!("expected a failure"),
    }
}

#[test]
fn interrupted_turns_end_for_another_reason() {
    let mut mapper = mapper(false);
    let message = turn_completed(vec![("status", text("interrupted"))]);
    let (events, completed) = mapper.map_notification(&message).unwrap();
    assert!(completed);
    let Some(ResponseEventType::Finished(finished)) = &only(&events).event_type else {
        panic!("expected the end");
    };
    assert_eq!(finished.reason, Some(StreamFinishedReason::Other));
    assert!(!finished.should_refresh_model_config);
}

#[test]
fn failed_turns_say_why() {
    let mut mapper = mapper(false);
    let error = notification(
        "error",
        object(vec![("error", object(vec![("message", text("earlier"))]))]),
    );
    let (events, completed) = mapper.map_notification(&error).unwrap();
    assert!(events.is_empty());
    assert!(!completed);
    let own = turn_completed(vec![
        ("status", text("failed")),
        ("error", object(vec![("message", text("own"))])),
    ]);
    let (events, completed) = mapper.map_notification(&own).unwrap();
    assert!(completed);
    assert_eq!(failure(&events), "own");
    assert_eq!(mapper.failure_message.as_deref(), Some("earlier"));
    let (events, _) = mapper
        .map_notification(&turn_completed(vec![("status", text("odd"))]))
        .unwrap();
    assert_eq!(failure(&events), "earlier");
    assert_eq!(mapper.failure_message, None);
    let (events, completed) = mapper
        .map_notification(&object(vec![("method", text("turn/completed"))]))
        .unwrap();
    assert!(completed);
    assert_eq!(failure(&events), "Codex turn failed");
}

#[test]
fn completed_turns_reconcile_the_agent_messages_they_list() {
    let mut mapper = mapper(true);
    let message = |id: &str, shown: &str| {
        object(vec![
            ("type", text("agentMessage")),
            ("id", text(id)),
            ("text", text(shown)),
        ])
    };
    let (events, completed) = mapper
        .map_notification(&turn_completed(vec![
            ("status", text("completed")),
            (
                "items",
                JsonValue::Array(vec![
                    message("a", "one"),
                    object(vec![("type", text("webSearch")), ("id", text("w"))]),
                    object(vec![("type", text("agentMessage")), ("id", text("n"))]),
                    message("a", "two"),
                ]),
            ),
        ]))
        .unwrap();
    assert!(completed);
    assert_eq!(events.len(), 3);
    let Ok(first) = &events[0] else {
        panic!("expected response event");
    };
    assert_eq!(actions(first).len(), 2);
    let Ok(second) = &events[1] else {
        panic!("expected response event");
    };
    assert_eq!(action_of(second), ("update", "a", "output", "two"));
    assert!(matches!(
        &events[2],
        Ok(ResponseEvent { event_type: Some(ResponseEventType::Finished(finished)) })
            if finished.reason == Some(StreamFinishedReason::Done)
    ));
}

/// A client that follows the actions it is handed, and fails on one that makes no
/// sense to it.
struct Client {
    has_root: bool,
    messages: Vec<(String, String)>,
}

impl Client {
    fn message(&mut self, message: Option<&Message>) -> &mut String {
        assert!(self.has_root);
        let id = &message.unwrap().id;
        let found = self.messages.iter_mut().find(|entry| entry.0 == *id);
        &mut found.expect("the message was added before").1
    }

    fn follow(&mut self, event: &ResponseEvent) {
        let Some(ResponseEventType::ClientActions(actions)) = &event.event_type else {
            return;
        };
        for action in &actions.actions {
            match action.action.as_ref().unwrap() {
                Action::CreateTask(_) => {
                    assert!(!self.has_root);
                    self.has_root = true;
                }
                Action::AddMessagesToTask(add) => {
                    assert!(self.has_root);
                    for message in &add.messages {
                        assert!(self.messages.iter().all(|entry| entry.0 != message.id));
                        self.messages
                            .push((message.id.clone(), shown(message).1.to_string()));
                    }
                }
                Action::AppendToMessageContent(append) => {
                    let text = shown(append.message.as_ref().unwrap()).1;
                    self.message(append.message.as_ref()).push_str(text);
                }
                Action::UpdateTaskMessage(update) => {
                    let text = shown(update.message.as_ref().unwrap()).1;
                    *self.message(update.message.as_ref()) = text.to_string();
                }
                Action::Other(_) => panic!("expected an action on a task"),
            }
        }
    }
}

#[test]
fn a_client_can_follow_a_turn() {
    let mut mapper = mapper(true);
    let mut client = Client {
        has_root: false,
        messages: vec![],
    };
    let mut ends = 0;
    for message in [
        notification(
            "turn/started",
            object(vec![("turn", object(vec![("id", text("t"))]))]),
        ),
        plan(None),
        item(
            "item/started",
            vec![
                ("type", text("commandExecution")),
                ("id", text("c")),
                ("command", text("ls")),
            ],
        ),
        delta("item/commandExecution/outputDelta", "c", "file\n"),
        item(
            "item/completed",
            vec![
                ("type", text("commandExecution")),
                ("id", text("c")),
                ("command", text("ls")),
                ("exitCode", number(0)),
                ("aggregatedOutput", text("file\n")),
            ],
        ),
        delta("item/agentMessage/delta", "m", "Hel"),
        delta("item/agentMessage/delta", "m", "lo"),
        plan(Some("t")),
        turn_completed(vec![
            ("status", text("completed")),
            (
                "items",
                JsonValue::Array(vec![object(vec![
                    ("type", text("agentMessage")),
                    ("id", text("m")),
                    ("text", text("Hello!")),
                ])]),
            ),
        ]),
    ] {
        let (events, completed) = mapper.map_notification(&message).unwrap();
        for event in &events {
            let Ok(event) = event else {
                panic!("expected response event");
            };
            client.follow(event);
            if matches!(event.event_type, Some(ResponseEventType::Finished(_))) {
                ends += 1;
                assert!(completed);
            }
        }
    }
    assert_eq!(ends, 1);
    assert_eq!(
        client.messages,
        vec![
            (
                "codex-plan-t".to_string(),
                "Plan:\n- [done] look\n- [pending] leap\n- [pending] \n".to_string()
            ),
            (
                "c".to_string(),
                "Ran:\n```sh\nls\n```\nexit 0.\n```text\nfile\n\n```".to_string()
            ),
            ("m".to_string(), "Hello!".to_string()),
        ]
    );
    assert_eq!(mapper.task_id, "root-task");
    assert_eq!(mapper.thread_id, "thread-id");
}

#[test]
fn streamed_output_is_the_longest_prefix_that_fits() {
    let mut mapper = mapper(false);
    let mut shown = String::new();
    let mut whole = String::new();
    for i in 0..30 {
        let piece = "é".repeat(500 + i);
        whole.push_str(&piece);
        if let Some(text) = mapper.command_output_delta("c", &piece) {
            shown.push_str(&text);
        }
    }
    let fitting = truncate_codex_output(&whole, CODEX_MAX_COMMAND_OUTPUT_BYTES);
    assert_eq!(shown, format!("{fitting}\n…command output truncated…\n"));
}

#[test]
fn interleaved_commands_each_have_their_limit_and_one_note() {
    let mut mapper = mapper(false);
    let note = "\n…command output truncated…\n";
    let mut shown = [String::new(), String::new()];
    let mut written = [String::new(), String::new()];
    for i in 0..80 {
        let which = i % 2;
        // The second command fills its limit with whole pieces.
        let piece = if which == 0 {
            "🙂".repeat(111)
        } else {
            "x".repeat(1024)
        };
        written[which].push_str(&piece);
        let id = ["a", "b"][which];
        if let Some(text) = mapper.command_output_delta(id, &piece) {
            shown[which].push_str(&text);
        }
        let other = delta("item/agentMessage/delta", id, "in between");
        mapper.map_notification(&other).unwrap();
    }
    let fitting = |text: &str| truncate_codex_output(text, CODEX_MAX_COMMAND_OUTPUT_BYTES);
    assert_eq!(shown[0], format!("{}{note}", fitting(&written[0])));
    assert_eq!(shown[1], fitting(&written[1]));
    assert_eq!(shown[1].len(), CODEX_MAX_COMMAND_OUTPUT_BYTES);
}
