//! What is said to the Codex app-server and what comes of its answers, case by case, in
//! terms of the request that is served and the JSON that the app-server sent.
use crate::api::{EventModel, RequestParams};
use crate::codex_mapper::{CodexEventModel, MapperModel};
use crate::codex_rpc::{CodexError, CodexPipe, CodexRequest, RequestModel};
use crate::codex_session::{CodexSession, CodexStep, PhaseModel, SessionModel, StepModel};
use crate::json::Json;
use vstd::prelude::*;

verus! {

/// The client introduces itself, and says when it is ready.
pub proof fn introductions(client_version: Seq<char>)
    ensures
        (RequestModel::Initialize { client_version }).json() == Json::Object(
            Map::empty().insert("method"@, Json::Text("initialize"@)).insert(
                "id"@,
                Json::Number(Some(0)),
            ).insert(
                "params"@,
                Json::Object(
                    Map::empty().insert(
                        "clientInfo"@,
                        Json::Object(
                            Map::empty().insert("name"@, Json::Text("warp_agent_cli"@)).insert(
                                "title"@,
                                Json::Text("Warp Agent CLI"@),
                            ).insert("version"@, Json::Text(client_version)),
                        ),
                    ),
                ),
            ),
        ),
        RequestModel::Initialized.json() == Json::Object(
            Map::empty().insert("method"@, Json::Text("initialized"@)).insert(
                "params"@,
                Json::Object(Map::empty()),
            ),
        ),
{
    let x = (""@, Json::Null);
    let info = crate::codex_rpc::client_info(client_version);
    crate::json::lemma_small_objects(info[0], info[1], info[2], x, x);
    let request = RequestModel::Initialize { client_version };
    crate::json::lemma_small_objects(request.params()[0], x, x, x, x);
    crate::json::lemma_small_objects(
        ("method"@, Json::Text("initialize"@)),
        ("id"@, Json::Number(Some(0))),
        ("params"@, crate::codex_rpc::object(request.params())),
        x,
        x,
    );
    assert(crate::json::object_of(seq![]) == Map::<Seq<char>, Json>::empty());
    crate::json::lemma_small_objects(
        ("method"@, Json::Text("initialized"@)),
        ("params"@, crate::codex_rpc::object(seq![])),
        x,
        x,
        x,
    );
}

/// A thread is resumed by its id, or started for this service; either way in the
/// working directory, where there is one, with writing confined to the workspace and
/// without asking for approval.
pub proof fn thread_requests(thread_id: Seq<char>, cwd: Option<Seq<char>>)
    ensures
        ({
            let directory = if cwd is Some {
                Json::Text(cwd->0)
            } else {
                Json::Null
            };
            &&& (RequestModel::ResumeThread { thread_id, cwd }).json() == Json::Object(
                Map::empty().insert("method"@, Json::Text("thread/resume"@)).insert(
                    "id"@,
                    Json::Number(Some(1)),
                ).insert(
                    "params"@,
                    Json::Object(
                        Map::empty().insert("threadId"@, Json::Text(thread_id)).insert(
                            "cwd"@,
                            directory,
                        ).insert("approvalPolicy"@, Json::Text("never"@)).insert(
                            "sandbox"@,
                            Json::Text("workspace-write"@),
                        ),
                    ),
                ),
            )
            &&& (RequestModel::StartThread { cwd }).json() == Json::Object(
                Map::empty().insert("method"@, Json::Text("thread/start"@)).insert(
                    "id"@,
                    Json::Number(Some(1)),
                ).insert(
                    "params"@,
                    Json::Object(
                        Map::empty().insert("cwd"@, directory).insert(
                            "approvalPolicy"@,
                            Json::Text("never"@),
                        ).insert("sandbox"@, Json::Text("workspace-write"@)).insert(
                            "serviceName"@,
                            Json::Text("warp_agent_cli"@),
                        ),
                    ),
                ),
            )
        }),
{
    let x = (""@, Json::Null);
    let resume = RequestModel::ResumeThread { thread_id, cwd };
    let p = resume.params();
    crate::json::lemma_small_objects(p[0], p[1], p[2], p[3], x);
    crate::json::lemma_small_objects(
        ("method"@, Json::Text("thread/resume"@)),
        ("id"@, Json::Number(Some(1))),
        ("params"@, crate::codex_rpc::object(p)),
        x,
        x,
    );
    let start = RequestModel::StartThread { cwd };
    let q = start.params();
    crate::json::lemma_small_objects(q[0], q[1], q[2], q[3], x);
    crate::json::lemma_small_objects(
        ("method"@, Json::Text("thread/start"@)),
        ("id"@, Json::Number(Some(1))),
        ("params"@, crate::codex_rpc::object(q)),
        x,
        x,
    );
}

/// A turn is started in its thread with the prompt as its one input; it is interrupted
/// by its id.
pub proof fn turn_requests(
    thread_id: Seq<char>,
    prompt: Seq<char>,
    cwd: Option<Seq<char>>,
    turn_id: Seq<char>,
)
    ensures
        ({
            let directory = if cwd is Some {
                Json::Text(cwd->0)
            } else {
                Json::Null
            };
            &&& (RequestModel::StartTurn { thread_id, prompt, cwd }).json() == Json::Object(
                Map::empty().insert("method"@, Json::Text("turn/start"@)).insert(
                    "id"@,
                    Json::Number(Some(2)),
                ).insert(
                    "params"@,
                    Json::Object(
                        Map::empty().insert("threadId"@, Json::Text(thread_id)).insert(
                            "input"@,
                            Json::Array(
                                seq![
                                    Json::Object(
                                        Map::empty().insert("type"@, Json::Text("text"@)).insert(
                                            "text"@,
                                            Json::Text(prompt),
                                        ),
                                    ),
                                ],
                            ),
                        ).insert("cwd"@, directory).insert(
                            "approvalPolicy"@,
                            Json::Text("never"@),
                        ).insert(
                            "sandboxPolicy"@,
                            Json::Object(
                                Map::empty().insert("type"@, Json::Text("workspaceWrite"@)),
                            ),
                        ),
                    ),
                ),
            )
            &&& (RequestModel::InterruptTurn { thread_id, turn_id }).json() == Json::Object(
                Map::empty().insert("method"@, Json::Text("turn/interrupt"@)).insert(
                    "id"@,
                    Json::Number(Some(3)),
                ).insert(
                    "params"@,
                    Json::Object(
                        Map::empty().insert("threadId"@, Json::Text(thread_id)).insert(
                            "turnId"@,
                            Json::Text(turn_id),
                        ),
                    ),
                ),
            )
        }),
{
    let x = (""@, Json::Null);
    let input = crate::codex_rpc::text_input(prompt);
    crate::json::lemma_small_objects(input[0], input[1], x, x, x);
    crate::json::lemma_small_objects(("type"@, Json::Text("workspaceWrite"@)), x, x, x, x);
    let start = RequestModel::StartTurn { thread_id, prompt, cwd };
    let p = start.params();
    crate::json::lemma_small_objects(p[0], p[1], p[2], p[3], p[4]);
    crate::json::lemma_small_objects(
        ("method"@, Json::Text("turn/start"@)),
        ("id"@, Json::Number(Some(2))),
        ("params"@, crate::codex_rpc::object(p)),
        x,
        x,
    );
    let interrupt = RequestModel::InterruptTurn { thread_id, turn_id };
    let q = interrupt.params();
    crate::json::lemma_small_objects(q[0], q[1], x, x, x);
    crate::json::lemma_small_objects(
        ("method"@, Json::Text("turn/interrupt"@)),
        ("id"@, Json::Number(Some(3))),
        ("params"@, crate::codex_rpc::object(q)),
        x,
        x,
    );
}

/// An error that the app-server answers with has its message, or a fixed text, and its
/// code in front where it has one.
pub proof fn answered_errors(error: Json)
    ensures
        ({
            let message = if error.text_at("message"@) is Some {
                error.text_at("message"@)->0
            } else {
                "Unknown Codex app-server error"@
            };
            crate::codex_rpc::rpc_error_text(error) == if error.i64_at("code"@) is Some {
                "Codex app-server error "@ + crate::text::decimal(error.i64_at("code"@)->0 as int)
                    + ": "@ + message
            } else {
                message
            }
        }),
{
}

/// An app-server that exits early is quoted where it wrote something besides white
/// space, else its status is given.
pub proof fn early_exits(status: Seq<char>, stderr: Seq<char>)
    ensures
        crate::codex_rpc::exit_error_text(status, stderr) == if crate::text::trimmed(stderr) == Seq::<
            char,
        >::empty() {
            "Codex app-server exited before completing the turn ("@ + status + ")"@
        } else {
            crate::text::trimmed(stderr)
        },
{
    assert(crate::text::trimmed(stderr).len() == 0 <==> crate::text::trimmed(stderr) =~= Seq::<
        char,
    >::empty());
}

/// What an answer holds: an error wherever there is one, even beside a result; else
/// the result; without either it is in error itself.
pub proof fn answers(message: Json)
    ensures
        crate::codex_session::answer_of(message) == if message.get("error"@) is Some {
            Err::<Json, Seq<char>>(
                crate::codex_rpc::rpc_error_text(message.get("error"@)->0),
            )
        } else if message.get("result"@) is Some {
            Ok(message.get("result"@)->0)
        } else {
            Err("Codex app-server response did not include a result"@)
        },
{
}

/// The session of a request: the prompt as it is, the conversation's first task, or a
/// new one that is to be created where there is none, the thread of the conversation
/// token wherever there is one, and the working directory.
pub proof fn sessions_take_over_the_request(params: RequestParams, prompt: Seq<char>, fresh: u128)
    ensures
        ({
            let session = crate::codex_session::session_of(params, prompt, fresh);
            &&& session.prompt == prompt
            &&& session.create_root_task <==> params.task_ids@ == Seq::<String>::empty()
            &&& session.create_root_task ==> session.task_id == crate::ids::hyphenated(fresh)
            &&& !session.create_root_task ==> session.task_id == params.task_ids@.first()@
            &&& session.existing_thread_id is Some <==> params.conversation_token is Some
            &&& params.conversation_token is Some ==> session.existing_thread_id->0
                == params.conversation_token->0@
            &&& session.cwd is Some <==> params.current_working_directory is Some
            &&& params.current_working_directory is Some ==> session.cwd->0
                == params.current_working_directory->0@
            &&& session.phase is Initializing
        }),
{
    assert(params.task_ids@.len() == 0 <==> params.task_ids@ =~= Seq::<String>::empty());
}

/// Once the app-server is initialized, a request with a conversation token resumes the
/// thread of that token, whatever its tasks and prompt, and one without a token starts
/// a thread; both in the request's working directory.
pub proof fn follow_ups_resume_their_thread(
    params: RequestParams,
    prompt: Seq<char>,
    fresh: u128,
    message: Json,
    later: u128,
)
    requires
        message.i64_at("id"@) == Some(0i64),
        message.get("error"@) is None,
        message.get("result"@) is Some,
    ensures
        ({
            let cwd = if params.current_working_directory is Some {
                Some(params.current_working_directory->0@)
            } else {
                None
            };
            crate::codex_session::session_of(params, prompt, fresh).message_step(message, later).1
                == Ok::<Seq<StepModel>, Seq<char>>(
                seq![
                    StepModel::Send(RequestModel::Initialized),
                    StepModel::Send(
                        if params.conversation_token is Some {
                            RequestModel::ResumeThread {
                                thread_id: params.conversation_token->0@,
                                cwd,
                            }
                        } else {
                            RequestModel::StartThread { cwd }
                        },
                    ),
                ],
            )
        }),
{
}

/// Once the thread is open, the response is opened in the conversation's task, under
/// the thread's id, and the turn is asked for with the request's prompt.
pub proof fn opened_threads_get_the_prompt(
    params: RequestParams,
    prompt: Seq<char>,
    fresh: u128,
    message: Json,
    thread: Json,
    thread_id: Seq<char>,
    later: u128,
)
    requires
        message.i64_at("id"@) == Some(1i64),
        message.get("error"@) is None,
        message.get("result"@) is Some,
        message.get("result"@)->0.get("thread"@) == Some(thread),
        thread.text_at("id"@) == Some(thread_id),
    ensures
        ({
            let session = SessionModel {
                phase: PhaseModel::OpeningThread,
                ..crate::codex_session::session_of(params, prompt, fresh)
            };
            let (next, outcome) = session.message_step(message, later);
            &&& outcome == Ok::<Seq<StepModel>, Seq<char>>(
                seq![
                    StepModel::Deliver(
                        Ok(
                            Some(
                                EventModel::Init {
                                    request_id: crate::ids::hyphenated(later),
                                    conversation_id: thread_id,
                                    run_id: seq![],
                                },
                            ),
                        ),
                    ),
                    StepModel::Send(
                        RequestModel::StartTurn {
                            thread_id,
                            prompt,
                            cwd: if params.current_working_directory is Some {
                                Some(params.current_working_directory->0@)
                            } else {
                                None
                            },
                        },
                    ),
                ],
            )
            &&& next.phase matches PhaseModel::Running(mapper)
            &&& mapper.thread_id == thread_id
            &&& mapper.request_id == crate::ids::hyphenated(later)
            &&& mapper.create_root_task == (params.task_ids@.len() == 0)
            &&& mapper.task_id == if params.task_ids@.len() == 0 {
                crate::ids::hyphenated(fresh)
            } else {
                params.task_ids@[0]@
            }
            &&& mapper.turn_id is None
            &&& mapper.failure_message is None
            &&& mapper.message_kinds == Map::<
                Seq<char>,
                crate::codex_mapper::CodexMessageKind,
            >::empty()
            &&& mapper.command_output_bytes == Map::<Seq<char>, usize>::empty()
        }),
{
}

/// While the initialization is awaited, its answer leads to the thread being asked
/// for: the existing one where there is one, else a new one. An error in it, or no
/// result, ends the session. Anything else is skipped.
pub proof fn initialization_answers(session: SessionModel, message: Json, fresh: u128)
    requires
        session.phase is Initializing,
    ensures
        ({
            let (next, outcome) = session.message_step(message, fresh);
            let ask = if session.existing_thread_id is Some {
                RequestModel::ResumeThread {
                    thread_id: session.existing_thread_id->0,
                    cwd: session.cwd,
                }
            } else {
                RequestModel::StartThread { cwd: session.cwd }
            };
            if message.i64_at("id"@) != Some(0i64) {
                next == session && outcome == Ok::<Seq<StepModel>, Seq<char>>(seq![])
            } else if message.get("error"@) is Some {
                &&& next == (SessionModel { phase: PhaseModel::Finished, ..session })
                &&& outcome == Err::<Seq<StepModel>, Seq<char>>(
                    crate::codex_rpc::rpc_error_text(message.get("error"@)->0),
                )
            } else if message.get("result"@) is None {
                &&& next == (SessionModel { phase: PhaseModel::Finished, ..session })
                &&& outcome == Err::<Seq<StepModel>, Seq<char>>(
                    "Codex app-server response did not include a result"@,
                )
            } else {
                &&& next == (SessionModel { phase: PhaseModel::OpeningThread, ..session })
                &&& outcome == Ok::<Seq<StepModel>, Seq<char>>(
                    seq![StepModel::Send(RequestModel::Initialized), StepModel::Send(ask)],
                )
            }
        }),
{
}

/// While the thread is awaited, its answer opens the response and asks for the turn.
/// An error in it, no result, or no thread id in the result ends the session. Anything
/// else is skipped.
pub proof fn thread_answers(session: SessionModel, message: Json, fresh: u128)
    requires
        session.phase is OpeningThread,
    ensures
        ({
            let (next, outcome) = session.message_step(message, fresh);
            let result = message.get("result"@);
            let thread = if result is Some {
                result->0.get("thread"@)
            } else {
                None
            };
            let thread_id = if thread is Some {
                thread->0.text_at("id"@)
            } else {
                None
            };
            let failed = next == (SessionModel { phase: PhaseModel::Finished, ..session });
            if message.i64_at("id"@) != Some(1i64) {
                next == session && outcome == Ok::<Seq<StepModel>, Seq<char>>(seq![])
            } else if message.get("error"@) is Some {
                failed && outcome == Err::<Seq<StepModel>, Seq<char>>(
                    crate::codex_rpc::rpc_error_text(message.get("error"@)->0),
                )
            } else if result is None {
                failed && outcome == Err::<Seq<StepModel>, Seq<char>>(
                    "Codex app-server response did not include a result"@,
                )
            } else if thread_id is None {
                failed && outcome == Err::<Seq<StepModel>, Seq<char>>(
                    "Codex app-server did not return a thread ID"@,
                )
            } else {
                &&& next == (SessionModel {
                    phase: PhaseModel::Running(
                        MapperModel {
                            task_id: session.task_id,
                            thread_id: thread_id->0,
                            request_id: crate::ids::hyphenated(fresh),
                            turn_id: None,
                            create_root_task: session.create_root_task,
                            message_kinds: Map::empty(),
                            command_output_bytes: Map::empty(),
                            failure_message: None,
                        },
                    ),
                    ..session
                })
                &&& outcome == Ok::<Seq<StepModel>, Seq<char>>(
                    seq![
                        StepModel::Deliver(
                            Ok(
                                Some(
                                    EventModel::Init {
                                        request_id: crate::ids::hyphenated(fresh),
                                        conversation_id: thread_id->0,
                                        run_id: seq![],
                                    },
                                ),
                            ),
                        ),
                        StepModel::Send(
                            RequestModel::StartTurn {
                                thread_id: thread_id->0,
                                prompt: session.prompt,
                                cwd: session.cwd,
                            },
                        ),
                    ],
                )
            }
        }),
{
}

/// While the turn runs, the answer to its request names it, where it gives an id, or
/// ends the session with its error; it delivers nothing.
pub proof fn turn_answers(
    session: SessionModel,
    mapper: MapperModel,
    message: Json,
    fresh: u128,
)
    requires
        session.phase == PhaseModel::Running(mapper),
        message.i64_at("id"@) == Some(2i64),
    ensures
        ({
            let (next, outcome) = session.message_step(message, fresh);
            let result = message.get("result"@);
            let turn = if result is Some {
                result->0.get("turn"@)
            } else {
                None
            };
            let turn_id = if turn is Some {
                turn->0.text_at("id"@)
            } else {
                None
            };
            if message.get("error"@) is Some {
                &&& next == (SessionModel { phase: PhaseModel::Finished, ..session })
                &&& outcome == Err::<Seq<StepModel>, Seq<char>>(
                    crate::codex_rpc::rpc_error_text(message.get("error"@)->0),
                )
            } else {
                &&& outcome == Ok::<Seq<StepModel>, Seq<char>>(seq![])
                &&& next == (SessionModel {
                    phase: PhaseModel::Running(
                        MapperModel {
                            turn_id: if turn_id is Some {
                                turn_id
                            } else {
                                mapper.turn_id
                            },
                            ..mapper
                        },
                    ),
                    ..session
                })
            }
        }),
{
}

/// While the turn runs, every other message is a notification: what it turns into is
/// delivered in order, and where the turn is over the app-server is stopped after
/// that; one that lacks what it must have ends the session.
pub proof fn turn_notifications(
    session: SessionModel,
    mapper: MapperModel,
    message: Json,
    fresh: u128,
)
    requires
        session.phase == PhaseModel::Running(mapper),
        message.i64_at("id"@) != Some(2i64),
    ensures
        ({
            let (next, outcome) = session.message_step(message, fresh);
            match mapper.notified(message) {
                Ok(mapped) => {
                    let n = mapped.events.len();
                    &&& next == (SessionModel {
                        phase: if mapped.completed {
                            PhaseModel::Finished
                        } else {
                            PhaseModel::Running(mapped.mapper)
                        },
                        ..session
                    })
                    &&& outcome matches Ok(steps)
                    &&& steps.len() == if mapped.completed {
                        n + 1
                    } else {
                        n
                    }
                    &&& forall|i: int|
                        0 <= i < n ==> #[trigger] steps[i] == StepModel::Deliver(mapped.events[i])
                    &&& mapped.completed ==> steps[n as int] == StepModel::Kill
                },
                Err(error) => {
                    &&& next == (SessionModel { phase: PhaseModel::Finished, ..session })
                    &&& outcome == Err::<Seq<StepModel>, Seq<char>>(error.text())
                },
            }
        }),
{
}

/// A line is a message where it is JSON. A blank line is skipped, and so is everything
/// that comes to a session that is over; any other line ends the session.
pub proof fn lines_are_messages(
    session: SessionModel,
    line: Seq<char>,
    message: Json,
    fresh: u128,
)
    ensures
        session.phase is Finished ==> session.line_step(line, fresh) == (
            session,
            Ok::<Seq<StepModel>, Seq<char>>(seq![]),
        ),
        crate::text::trimmed(line) == Seq::<char>::empty() ==> session.line_step(line, fresh) == (
            session,
            Ok::<Seq<StepModel>, Seq<char>>(seq![]),
        ),
        !(session.phase is Finished) && crate::text::trimmed(line) != Seq::<char>::empty()
            ==> match crate::json::parsed_json(line) {
            Ok(message) => session.line_step(line, fresh) == session.message_step(message, fresh),
            Err(reason) => session.line_step(line, fresh) == (
                SessionModel { phase: PhaseModel::Finished, ..session },
                Err::<Seq<StepModel>, Seq<char>>(
                    "Codex app-server returned invalid JSONL: "@ + reason,
                ),
            ),
        },
        session.phase is Finished ==> session.message_step(message, fresh) == (
            session,
            Ok::<Seq<StepModel>, Seq<char>>(seq![]),
        ),
{
    assert(crate::text::trimmed(line).len() == 0 <==> crate::text::trimmed(line) =~= Seq::<
        char,
    >::empty());
}

/// A cancellation during the handshake is an error. A running turn is interrupted by
/// its id where that is known, with some time to react, and the app-server is stopped.
/// A session that is over stays so.
pub proof fn cancellations(session: SessionModel)
    ensures
        session.phase is Finished ==> session.cancel_step() == (
            session,
            Ok::<Seq<StepModel>, Seq<char>>(seq![]),
        ),
        session.phase is Initializing || session.phase is OpeningThread ==> session.cancel_step()
            == (
            SessionModel { phase: PhaseModel::Finished, ..session },
            Err::<Seq<StepModel>, Seq<char>>("Codex request cancelled"@),
        ),
        session.phase matches PhaseModel::Running(mapper) ==> session.cancel_step() == (
            SessionModel { phase: PhaseModel::Finished, ..session },
            Ok::<Seq<StepModel>, Seq<char>>(
                if mapper.turn_id is Some {
                    seq![
                        StepModel::TrySend(
                            RequestModel::InterruptTurn {
                                thread_id: mapper.thread_id,
                                turn_id: mapper.turn_id->0,
                            },
                        ),
                        StepModel::Sleep { millis: 75 },
                        StepModel::Kill,
                    ]
                } else {
                    seq![StepModel::Kill]
                },
            ),
        ),
{
}

/// Output that ends during the handshake is an error; during the turn the exit of the
/// app-server is awaited, for its reason. A session that is over stays so.
pub proof fn ends_of_output(session: SessionModel)
    ensures
        session.phase is Finished ==> session.end_step() == (
            session,
            Ok::<Seq<StepModel>, Seq<char>>(seq![]),
        ),
        session.phase is Initializing || session.phase is OpeningThread ==> session.end_step() == (
            SessionModel { phase: PhaseModel::Finished, ..session },
            Err::<Seq<StepModel>, Seq<char>>("Codex app-server exited during initialization"@),
        ),
        session.phase is Running ==> session.end_step() == (
            SessionModel { phase: PhaseModel::Finished, ..session },
            Ok::<Seq<StepModel>, Seq<char>>(seq![StepModel::AwaitExit]),
        ),
{
}

/// What each error says.
pub proof fn error_texts(
    inner: String,
    code: Option<i64>,
    notification: crate::codex_mapper::NotificationError,
)
    ensures
        CodexError::PromptsOnly@ == "Codex inference currently supports user prompts only"@,
        CodexError::Launch(inner)@ == "Failed to launch Codex app-server: "@ + inner@,
        CodexError::NoPipe(CodexPipe::Stdin)@ == "Failed to open Codex app-server stdin"@,
        CodexError::NoPipe(CodexPipe::Stdout)@ == "Failed to open Codex app-server stdout"@,
        CodexError::NoPipe(CodexPipe::Stderr)@ == "Failed to open Codex app-server stderr"@,
        CodexError::Encode(inner)@ == "Failed to encode Codex app-server request: "@ + inner@,
        CodexError::Write(inner)@ == "Failed to write to Codex app-server: "@ + inner@,
        CodexError::Flush(inner)@ == "Failed to flush Codex app-server request: "@ + inner@,
        CodexError::Read(inner)@ == "Failed to read Codex app-server output: "@ + inner@,
        CodexError::Wait(inner)@ == "Failed while waiting for Codex app-server: "@ + inner@,
        CodexError::Cancelled@ == "Codex request cancelled"@,
        CodexError::ExitedDuringInitialization@ == "Codex app-server exited during initialization"@,
        CodexError::InvalidJsonl(inner)@ == "Codex app-server returned invalid JSONL: "@ + inner@,
        (CodexError::Rpc { code, message: inner })@ == if code is Some {
            "Codex app-server error "@ + crate::text::decimal(code->0 as int) + ": "@ + inner@
        } else {
            inner@
        },
        CodexError::NoResult@ == "Codex app-server response did not include a result"@,
        CodexError::NoThreadId@ == "Codex app-server did not return a thread ID"@,
        CodexError::Notification(notification)@ == notification.text(),
        (CodexError::ExitedEarly { status: inner })@
            == "Codex app-server exited before completing the turn ("@ + inner@ + ")"@,
        (CodexError::ExitedWith { detail: inner })@ == inner@,
        CodexError::StreamClosed@ == "Codex response stream was closed"@,
{
}

/// A message to the app-server is viewed with every field in its place.
pub proof fn requests_are_viewed_whole(
    text: String,
    other: String,
    cwd: Option<String>,
)
    ensures
        (CodexRequest::Initialize { client_version: text })@ == (RequestModel::Initialize {
            client_version: text@,
        }),
        CodexRequest::Initialized@ == RequestModel::Initialized,
        (CodexRequest::ResumeThread { thread_id: text, cwd })@ == (RequestModel::ResumeThread {
            thread_id: text@,
            cwd: if cwd is Some {
                Some(cwd->0@)
            } else {
                None
            },
        }),
        (CodexRequest::StartThread { cwd })@ == (RequestModel::StartThread {
            cwd: if cwd is Some {
                Some(cwd->0@)
            } else {
                None
            },
        }),
        (CodexRequest::StartTurn { thread_id: text, prompt: other, cwd })@ == (
        RequestModel::StartTurn {
            thread_id: text@,
            prompt: other@,
            cwd: if cwd is Some {
                Some(cwd->0@)
            } else {
                None
            },
        }),
        (CodexRequest::InterruptTurn { thread_id: text, turn_id: other })@ == (
        RequestModel::InterruptTurn { thread_id: text@, turn_id: other@ }),
{
}

/// A session, its steps and its outcome are viewed with every part in its place.
pub proof fn sessions_are_viewed_whole(
    session: CodexSession,
    request: CodexRequest,
    event: crate::api::ResponseEvent,
    text: String,
    millis: u64,
    mapper: crate::codex_mapper::CodexEventMapper,
    steps: Vec<CodexStep>,
    error: CodexError,
)
    ensures
        session@.prompt == session.prompt@,
        session@.task_id == session.task_id@,
        session@.create_root_task == session.create_root_task,
        session@.existing_thread_id is Some <==> session.existing_thread_id is Some,
        session.existing_thread_id is Some ==> session@.existing_thread_id->0
            == session.existing_thread_id->0@,
        session@.cwd is Some <==> session.cwd is Some,
        session.cwd is Some ==> session@.cwd->0 == session.cwd->0@,
        session@.phase == session.phase@,
        crate::codex_session::CodexPhase::Initializing@ == PhaseModel::Initializing,
        crate::codex_session::CodexPhase::OpeningThread@ == PhaseModel::OpeningThread,
        crate::codex_session::CodexPhase::Running(mapper)@ == PhaseModel::Running(mapper@),
        crate::codex_session::CodexPhase::Finished@ == PhaseModel::Finished,
        CodexStep::Send(request)@ == StepModel::Send(request@),
        CodexStep::TrySend(request)@ == StepModel::TrySend(request@),
        CodexStep::Deliver(Ok(event))@ == StepModel::Deliver(Ok(event@)),
        CodexStep::Deliver(Err(text))@ == StepModel::Deliver(Err(text@)),
        (CodexStep::Sleep { millis })@ == (StepModel::Sleep { millis }),
        CodexStep::AwaitExit@ == StepModel::AwaitExit,
        CodexStep::Kill@ == StepModel::Kill,
        crate::codex_session::outcome(Err(error)) == Err::<Seq<StepModel>, Seq<char>>(error@),
        crate::codex_session::outcome(Ok(steps)) matches Ok(list) && list.len() == steps@.len()
            && forall|i: int| 0 <= i < list.len() ==> #[trigger] list[i] == steps@[i]@,
{
}

} // verus!
