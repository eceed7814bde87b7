use response_stream::api::{RequestParams, ResponseEventType};
use response_stream::codex_mapper::NotificationError;
use response_stream::codex_rpc::{
    codex_rpc_error, exit_error, CodexError, CodexPipe, CodexRequest,
};
use response_stream::codex_session::{CodexPhase, CodexSession, CodexStep};
use response_stream::json::{encode_json_line, parse_json, JsonValue};

fn params(queries: Vec<Option<&str>>) -> RequestParams {
    let mut params = RequestParams::new_for_test();
    params.input = queries
        .into_iter()
        .map(|query| query.map(str::to_string))
        .collect();
    params
}

fn start(params: &RequestParams) -> CodexSession {
    let (session, steps) = CodexSession::start_with(params, "1.2.3", 5).unwrap();
    assert_eq!(
        sent(&steps),
        vec![
            r#"{"id":0,"method":"initialize","params":{"clientInfo":{"name":"warp_agent_cli","title":"Warp Agent CLI","version":"1.2.3"}}}"#
        ]
    );
    session
}

/// What the steps write, line by line; nothing else may be among them.
fn sent(steps: &[CodexStep]) -> Vec<String> {
    steps
        .iter()
        .map(|step| match step {
            CodexStep::Send(request) => line(request),
            _ => panic!("expected a request"),
        })
        .collect()
}

fn line(request: &CodexRequest) -> String {
    let mut bytes = request.to_line().unwrap();
    assert_eq!(bytes.pop(), Some(b'\n'));
    assert!(!bytes.contains(&b'\n'));
    String::from_utf8(bytes).unwrap()
}

/// Brings a session to its turn.
fn running(params: &RequestParams) -> CodexSession {
    let mut session = start(params);
    session.on_line(r#"{"id":0,"result":{}}"#).unwrap();
    session
        .on_line(r#"{"id":1,"result":{"thread":{"id":"th"}}}"#)
        .unwrap();
    session
}

fn is_finished(session: &CodexSession) -> bool {
    matches!(session.phase, CodexPhase::Finished)
}

#[test]
fn only_user_prompts_are_supported() {
    for queries in [vec![], vec![None, None]] {
        let error = CodexSession::start(&params(queries), "1").err().unwrap();
        assert_eq!(error, CodexError::PromptsOnly);
        assert_eq!(
            error.message(),
            "Codex inference currently supports user prompts only"
        );
    }
}

#[test]
fn the_prompt_is_the_latest_query() {
    let session = start(&params(vec![Some("one"), Some("two"), None]));
    assert_eq!(session.prompt, "two");
}

#[test]
fn a_new_conversation_gets_a_root_task() {
    let session = start(&params(vec![Some("q")]));
    assert!(session.create_root_task);
    assert_eq!(session.task_id, "00000000-0000-0000-0000-000000000005");
    let (first, _) = CodexSession::start(&params(vec![Some("q")]), "1").unwrap();
    let (second, _) = CodexSession::start(&params(vec![Some("q")]), "1").unwrap();
    assert_ne!(first.task_id, second.task_id);
}

#[test]
fn an_old_conversation_keeps_its_root_task() {
    let mut params = params(vec![Some("q")]);
    params.task_ids = vec!["root".to_string(), "child".to_string()];
    let session = start(&params);
    assert!(!session.create_root_task);
    assert_eq!(session.task_id, "root");
}

#[test]
fn the_handshake_opens_a_new_thread() {
    let mut session = start(&params(vec![Some("Say \"hi\"\n")]));
    let steps = session.on_line(r#"{"id":0,"result":null}"#).unwrap();
    assert_eq!(
        sent(&steps),
        vec![
            r#"{"method":"initialized","params":{}}"#,
            r#"{"id":1,"method":"thread/start","params":{"approvalPolicy":"never","cwd":null,"sandbox":"workspace-write","serviceName":"warp_agent_cli"}}"#
        ]
    );
    let steps = session
        .on_line_with(r#"{"id":1,"result":{"thread":{"id":"th"}}}"#, 9)
        .unwrap();
    assert_eq!(steps.len(), 2);
    let CodexStep::Deliver(Ok(event)) = &steps[0] else {
        panic!("expected the opening event");
    };
    let Some(ResponseEventType::Init(init)) = &event.event_type else {
        panic!("expected the opening event");
    };
    assert_eq!(init.request_id, "00000000-0000-0000-0000-000000000009");
    assert_eq!(init.conversation_id, "th");
    assert_eq!(
        sent(&steps[1..]),
        vec![
            r#"{"id":2,"method":"turn/start","params":{"approvalPolicy":"never","cwd":null,"input":[{"text":"Say \"hi\"\n","type":"text"}],"sandboxPolicy":{"type":"workspaceWrite"},"threadId":"th"}}"#
        ]
    );
}

#[test]
fn the_handshake_resumes_the_existing_thread() {
    let mut params = params(vec![Some("q")]);
    params.conversation_token = Some("old".to_string());
    params.current_working_directory = Some("/work".to_string());
    let mut session = start(&params);
    let steps = session.on_line(r#"{"id":0,"result":{}}"#).unwrap();
    assert_eq!(
        sent(&steps[1..]),
        vec![
            r#"{"id":1,"method":"thread/resume","params":{"approvalPolicy":"never","cwd":"/work","sandbox":"workspace-write","threadId":"old"}}"#
        ]
    );
}

#[test]
fn the_handshake_skips_what_it_does_not_wait_for() {
    let mut session = start(&params(vec![Some("q")]));
    for line in [
        "",
        "  \t\u{3000}",
        r#"{"id":1,"result":{}}"#,
        r#"{"id":"0","result":{}}"#,
        r#"{"method":"turn/completed"}"#,
        "[0]",
        "0.5",
    ] {
        assert!(session.on_line(line).unwrap().is_empty());
    }
    assert!(matches!(session.phase, CodexPhase::Initializing));
    assert_eq!(session.on_line(r#"{"id":0,"result":{}}"#).unwrap().len(), 2);
    assert!(session
        .on_line(r#"{"id":0,"result":{}}"#)
        .unwrap()
        .is_empty());
    assert!(matches!(session.phase, CodexPhase::OpeningThread));
}

#[test]
fn the_handshake_fails_on_errors() {
    let fail = |lines: Vec<&str>| {
        let mut session = start(&params(vec![Some("q")]));
        let mut last = None;
        for line in lines {
            last = session.on_line(line).err();
        }
        assert!(is_finished(&session));
        // A session that is over does nothing more.
        assert!(session.on_line("{").unwrap().is_empty());
        assert!(session.on_cancel().unwrap().is_empty());
        assert!(session.on_end_of_output().unwrap().is_empty());
        last.unwrap().message()
    };
    assert_eq!(
        fail(vec![r#"{"id":0,"error":{"code":-5,"message":"no"}}"#]),
        "Codex app-server error -5: no"
    );
    assert_eq!(
        fail(vec![r#"{"id":0,"error":{"message":"no"},"result":{}}"#]),
        "no"
    );
    assert_eq!(
        fail(vec![r#"{"id":0,"error":null,"result":{}}"#]),
        "Unknown Codex app-server error"
    );
    assert_eq!(
        fail(vec![r#"{"id":0}"#]),
        "Codex app-server response did not include a result"
    );
    assert_eq!(
        fail(vec![r#"{"id":0,"result":{}}"#, r#"{"id":1,"result":{}}"#]),
        "Codex app-server did not return a thread ID"
    );
    assert_eq!(
        fail(vec![r#"{"id":0,"result":{}}"#, r#"{"id":1}"#]),
        "Codex app-server response did not include a result"
    );
    assert_eq!(
        fail(vec!["nonsense"]),
        "Codex app-server returned invalid JSONL: expected ident at line 1 column 2"
    );
}

#[test]
fn the_handshake_can_be_cancelled_or_cut_short() {
    let mut session = start(&params(vec![Some("q")]));
    assert_eq!(
        session.on_cancel().err().unwrap().message(),
        "Codex request cancelled"
    );
    assert!(is_finished(&session));
    let mut session = start(&params(vec![Some("q")]));
    session.on_line(r#"{"id":0,"result":{}}"#).unwrap();
    assert_eq!(
        session.on_end_of_output().err().unwrap().message(),
        "Codex app-server exited during initialization"
    );
    assert!(is_finished(&session));
}

#[test]
fn a_turn_runs_to_its_end() {
    let mut session = running(&params(vec![Some("q")]));
    assert!(session.on_line("").unwrap().is_empty());
    assert!(session
        .on_line(r#"{"id":2,"result":{"turn":{"id":"tu"}}}"#)
        .unwrap()
        .is_empty());
    let steps = session
        .on_line(r#"{"method":"item/agentMessage/delta","params":{"itemId":"m","delta":"Hi"}}"#)
        .unwrap();
    assert_eq!(steps.len(), 1);
    assert!(matches!(steps[0], CodexStep::Deliver(Ok(_))));
    let steps = session
        .on_line(r#"{"method":"turn/completed","params":{"turn":{"status":"completed"}}}"#)
        .unwrap();
    assert_eq!(steps.len(), 2);
    assert!(matches!(
        &steps[0],
        CodexStep::Deliver(Ok(event))
            if matches!(event.event_type, Some(ResponseEventType::Finished(_)))
    ));
    assert!(matches!(steps[1], CodexStep::Kill));
    assert!(is_finished(&session));
}

#[test]
fn a_turn_can_fail() {
    let mut session = running(&params(vec![Some("q")]));
    let steps = session
        .on_line(r#"{"method":"turn/completed","params":{"turn":{"error":{"message":"why"}}}}"#)
        .unwrap();
    assert!(matches!(&steps[0], CodexStep::Deliver(Err(message)) if message == "why"));
    assert!(matches!(steps[1], CodexStep::Kill));

    let mut session = running(&params(vec![Some("q")]));
    let error = session
        .on_line(r#"{"id":2,"error":{"code":1,"message":"busy"}}"#)
        .err()
        .unwrap();
    assert_eq!(error.message(), "Codex app-server error 1: busy");
    assert!(is_finished(&session));

    let mut session = running(&params(vec![Some("q")]));
    let error = session
        .on_line(r#"{"method":"item/started","params":{}}"#)
        .err()
        .unwrap();
    assert_eq!(
        error,
        CodexError::Notification(NotificationError::StartedOmitsItem)
    );
    assert!(is_finished(&session));

    let mut session = running(&params(vec![Some("q")]));
    let error = session.on_line("{").err().unwrap();
    assert_eq!(
        error.message(),
        "Codex app-server returned invalid JSONL: EOF while parsing an object at line 1 column 1"
    );
}

#[test]
fn a_known_turn_is_interrupted_on_cancellation() {
    let mut session = running(&params(vec![Some("q")]));
    session
        .on_line(r#"{"id":2,"result":{"turn":{"id":"tu"}}}"#)
        .unwrap();
    let steps = session.on_cancel().unwrap();
    assert_eq!(steps.len(), 3);
    let CodexStep::TrySend(request) = &steps[0] else {
        panic!("expected an interrupt");
    };
    assert_eq!(
        line(request),
        r#"{"id":3,"method":"turn/interrupt","params":{"threadId":"th","turnId":"tu"}}"#
    );
    assert!(matches!(steps[1], CodexStep::Sleep { millis: 75 }));
    assert!(matches!(steps[2], CodexStep::Kill));
    assert!(is_finished(&session));
}

#[test]
fn an_unknown_turn_is_just_stopped_on_cancellation() {
    let mut session = running(&params(vec![Some("q")]));
    session.on_line(r#"{"id":2,"result":{}}"#).unwrap();
    let steps = session.on_cancel().unwrap();
    assert_eq!(steps.len(), 1);
    assert!(matches!(steps[0], CodexStep::Kill));
}

#[test]
fn a_turn_that_is_cut_short_reports_the_exit() {
    let mut session = running(&params(vec![Some("q")]));
    let steps = session.on_end_of_output().unwrap();
    assert_eq!(steps.len(), 1);
    assert!(matches!(steps[0], CodexStep::AwaitExit));
    assert!(is_finished(&session));
    assert_eq!(
        exit_error("exit status: 1", " \n").message(),
        "Codex app-server exited before completing the turn (exit status: 1)"
    );
    assert_eq!(exit_error("exit status: 1", "\n oh no \n").message(), "oh no");
}

#[test]
fn error_texts() {
    let inner = || "why".to_string();
    for (error, text) in [
        (
            CodexError::Launch(inner()),
            "Failed to launch Codex app-server: why",
        ),
        (
            CodexError::NoPipe(CodexPipe::Stdin),
            "Failed to open Codex app-server stdin",
        ),
        (
            CodexError::NoPipe(CodexPipe::Stdout),
            "Failed to open Codex app-server stdout",
        ),
        (
            CodexError::NoPipe(CodexPipe::Stderr),
            "Failed to open Codex app-server stderr",
        ),
        (
            CodexError::Encode(inner()),
            "Failed to encode Codex app-server request: why",
        ),
        (
            CodexError::Write(inner()),
            "Failed to write to Codex app-server: why",
        ),
        (
            CodexError::Flush(inner()),
            "Failed to flush Codex app-server request: why",
        ),
        (
            CodexError::Read(inner()),
            "Failed to read Codex app-server output: why",
        ),
        (
            CodexError::Wait(inner()),
            "Failed while waiting for Codex app-server: why",
        ),
        (CodexError::StreamClosed, "Codex response stream was closed"),
        (
            CodexError::Notification(NotificationError::DeltaOmitsDelta),
            "Codex delta notification omitted delta",
        ),
    ] {
        assert_eq!(error.message(), text);
    }
    let object = parse_json(r#"{"code":-32600,"message":"bad"}"#).unwrap();
    assert_eq!(
        codex_rpc_error(&object).message(),
        "Codex app-server error -32600: bad"
    );
    let object = parse_json(r#"{"code":1.5}"#).unwrap();
    assert_eq!(
        codex_rpc_error(&object).message(),
        "Unknown Codex app-server error"
    );
}

#[test]
fn json_is_read_and_written() {
    let value = parse_json(r#" {"a":[true,null,-3,"x\ny"],"b":1e3,"c":{"d":18446744073709551615},"a2":2} "#)
        .unwrap();
    let items = value.array_at("a").unwrap();
    assert_eq!(items.len(), 4);
    assert!(matches!(items[0], JsonValue::Bool(true)));
    assert!(matches!(items[1], JsonValue::Null));
    assert_eq!(items[2].as_i64(), Some(-3));
    assert_eq!(items[3].as_text(), Some("x\ny"));
    assert!(matches!(value.get("b"), Some(JsonValue::Number(None))));
    assert_eq!(value.get("c").unwrap().i64_at("d"), None);
    assert_eq!(value.i64_at("a2"), Some(2));
    assert!(value.get("missing").is_none());
    assert!(JsonValue::Null.get("a").is_none());
    let line = encode_json_line(&JsonValue::Array(vec![
        JsonValue::Text("a\nb".to_string()),
        JsonValue::Number(Some(i64::MIN)),
        JsonValue::Bool(false),
        JsonValue::Null,
        JsonValue::Object(vec![
            ("k".to_string(), JsonValue::Number(Some(1))),
            ("k".to_string(), JsonValue::Number(Some(2))),
        ]),
    ]))
    .unwrap();
    assert_eq!(
        line,
        b"[\"a\\nb\",-9223372036854775808,false,null,{\"k\":2}]\n".to_vec()
    );
}

#[test]
fn the_last_of_several_members_counts() {
    let twice = JsonValue::Object(vec![
        ("k".to_string(), JsonValue::Number(Some(1))),
        ("k".to_string(), JsonValue::Number(Some(2))),
    ]);
    assert_eq!(twice.i64_at("k"), Some(2));
    assert_eq!(parse_json(r#"{"k":1,"k":2}"#).unwrap().i64_at("k"), Some(2));
}
