//! A conversation with the Codex app-server about one request: a handshake, one
//! turn, and the end of it.
//!
//! The session decides; the host runs the app-server. The host reports lines,
//! cancellation and the end of the output, and performs the steps that come back, in
//! order.
use crate::api::RequestParams;
use crate::codex_mapper::{CodexEvent, CodexEventMapper, CodexEventModel, MapperModel};
use crate::codex_rpc::{
    codex_rpc_error, CodexError, CodexRequest, RequestModel, CODEX_INITIALIZE_REQUEST_ID,
    CODEX_THREAD_REQUEST_ID, CODEX_TURN_REQUEST_ID,
};
use crate::ids::{random_uuid, uuid_text};
use crate::json::{parse_json, Json, JsonValue};
use crate::text::is_blank;
use vstd::prelude::*;
use vstd::string::*;

verus! {

/// How long an interrupted turn gets before the app-server is stopped, in
/// milliseconds.
pub const CODEX_INTERRUPT_GRACE_MILLIS: u64 = 75;

/// One thing for the host to do.
pub enum CodexStep {
    /// Write the message. A failure ends the session.
    Send(CodexRequest),
    /// Write the message. A failure is ignored.
    TrySend(CodexRequest),
    /// Deliver the event. A failure ends the session.
    Deliver(CodexEvent),
    /// Wait.
    Sleep { millis: u64 },
    /// Wait for the app-server to exit, then report `exit_error`.
    AwaitExit,
    /// Stop the app-server.
    Kill,
}

/// One thing for the host to do, as mathematics.
pub enum StepModel {
    Send(RequestModel),
    TrySend(RequestModel),
    Deliver(CodexEventModel),
    Sleep { millis: u64 },
    AwaitExit,
    Kill,
}

impl View for CodexStep {
    type V = StepModel;

    open spec fn view(&self) -> StepModel {
        match self {
            CodexStep::Send(request) => StepModel::Send(request@),
            CodexStep::TrySend(request) => StepModel::TrySend(request@),
            CodexStep::Deliver(event) => StepModel::Deliver(
                crate::codex_mapper::codex_event(*event),
            ),
            CodexStep::Sleep { millis } => StepModel::Sleep { millis: *millis },
            CodexStep::AwaitExit => StepModel::AwaitExit,
            CodexStep::Kill => StepModel::Kill,
        }
    }
}

/// How far a session has come.
pub enum CodexPhase {
    /// The initialization has been requested.
    Initializing,
    /// The thread has been requested.
    OpeningThread,
    /// The turn has been requested.
    Running(CodexEventMapper),
    /// Nothing more happens.
    Finished,
}

/// How far a session has come, as mathematics.
pub enum PhaseModel {
    Initializing,
    OpeningThread,
    Running(MapperModel),
    Finished,
}

impl View for CodexPhase {
    type V = PhaseModel;

    open spec fn view(&self) -> PhaseModel {
        match self {
            CodexPhase::Initializing => PhaseModel::Initializing,
            CodexPhase::OpeningThread => PhaseModel::OpeningThread,
            CodexPhase::Running(mapper) => PhaseModel::Running(mapper@),
            CodexPhase::Finished => PhaseModel::Finished,
        }
    }
}

/// A conversation with the app-server about one request.
pub struct CodexSession {
    pub prompt: String,
    pub task_id: String,
    pub create_root_task: bool,
    pub existing_thread_id: Option<String>,
    pub cwd: Option<String>,
    pub phase: CodexPhase,
}

/// A session as mathematics.
pub struct SessionModel {
    pub prompt: Seq<char>,
    pub task_id: Seq<char>,
    pub create_root_task: bool,
    pub existing_thread_id: Option<Seq<char>>,
    pub cwd: Option<Seq<char>>,
    pub phase: PhaseModel,
}

impl View for CodexSession {
    type V = SessionModel;

    open spec fn view(&self) -> SessionModel {
        SessionModel {
            prompt: self.prompt@,
            task_id: self.task_id@,
            create_root_task: self.create_root_task,
            existing_thread_id: crate::api::opt_view(self.existing_thread_id),
            cwd: crate::api::opt_view(self.cwd),
            phase: self.phase@,
        }
    }
}

/// What comes of something that happened: the steps, or the text of the error that
/// ends the session.
pub type OutcomeModel = Result<Seq<StepModel>, Seq<char>>;

/// What comes of something that happened, as mathematics.
pub open spec fn outcome(result: Result<Vec<CodexStep>, CodexError>) -> OutcomeModel {
    match result {
        Ok(steps) => Ok(crate::api::views(steps@)),
        Err(error) => Err(error@),
    }
}

/// The last user query among the inputs.
pub open spec fn last_query(input: Seq<Option<String>>) -> Option<Seq<char>>
    decreases input.len(),
{
    if input.len() == 0 {
        None
    } else {
        match input.last() {
            Some(query) => Some(query@),
            None => last_query(input.drop_last()),
        }
    }
}

/// The session of a request with the given prompt. Its task is the conversation's
/// root task, or a new one named by `fresh` where there is none.
pub open spec fn session_of(params: RequestParams, prompt: Seq<char>, fresh: u128) -> SessionModel {
    SessionModel {
        prompt,
        task_id: if params.task_ids@.len() == 0 {
            crate::ids::hyphenated(fresh)
        } else {
            params.task_ids@[0]@
        },
        create_root_task: params.task_ids@.len() == 0,
        existing_thread_id: crate::api::opt_view(params.conversation_token),
        cwd: crate::api::opt_view(params.current_working_directory),
        phase: PhaseModel::Initializing,
    }
}

/// What the answer to a call holds: its result, or the text of its error.
pub open spec fn answer_of(message: Json) -> Result<Json, Seq<char>> {
    match (message.get("error"@), message.get("result"@)) {
        (Some(error), _) => Err(crate::codex_rpc::rpc_error_text(error)),
        (None, Some(result)) => Ok(result),
        (None, None) => Err(CodexError::NoResult@),
    }
}

/// The steps that deliver events, in order.
pub open spec fn deliveries(events: Seq<CodexEventModel>) -> Seq<StepModel> {
    Seq::new(events.len(), |i: int| StepModel::Deliver(events[i]))
}

impl SessionModel {
    /// The session in another phase.
    pub open spec fn in_phase(self, phase: PhaseModel) -> Self {
        SessionModel { phase, ..self }
    }

    /// The session ends with an error.
    pub open spec fn failing(self, error: Seq<char>) -> (Self, OutcomeModel) {
        (self.in_phase(PhaseModel::Finished), Err(error))
    }

    /// Nothing happens.
    pub open spec fn idle(self) -> (Self, OutcomeModel) {
        (self, Ok(seq![]))
    }

    /// The request for the thread: the existing one, or a new one.
    pub open spec fn thread_request(self) -> RequestModel {
        match self.existing_thread_id {
            Some(thread_id) => RequestModel::ResumeThread { thread_id, cwd: self.cwd },
            None => RequestModel::StartThread { cwd: self.cwd },
        }
    }

    /// The mapper of the turn in an open thread, whose response is named by `fresh`.
    pub open spec fn turn_mapper(self, thread_id: Seq<char>, fresh: u128) -> MapperModel {
        MapperModel::initial(
            self.task_id,
            thread_id,
            crate::ids::hyphenated(fresh),
            self.create_root_task,
        )
    }

    /// The answer to the initialization: the thread is requested.
    pub open spec fn initialized(self, message: Json) -> (Self, OutcomeModel) {
        match answer_of(message) {
            Ok(_) => (
                self.in_phase(PhaseModel::OpeningThread),
                Ok(
                    seq![
                        StepModel::Send(RequestModel::Initialized),
                        StepModel::Send(self.thread_request()),
                    ],
                ),
            ),
            Err(error) => self.failing(error),
        }
    }

    /// The answer to the request for the thread: the response is opened and the turn
    /// requested.
    pub open spec fn thread_opened(self, message: Json, fresh: u128) -> (Self, OutcomeModel) {
        match answer_of(message) {
            Ok(result) => match result.text_under("thread"@, "id"@) {
                Some(thread_id) => {
                    let mapper = self.turn_mapper(thread_id, fresh);
                    let turn = RequestModel::StartTurn {
                        thread_id,
                        prompt: self.prompt,
                        cwd: self.cwd,
                    };
                    (
                        self.in_phase(PhaseModel::Running(mapper)),
                        Ok(
                            seq![
                                StepModel::Deliver(Ok(mapper.opening())),
                                StepModel::Send(turn),
                            ],
                        ),
                    )
                },
                None => self.failing(CodexError::NoThreadId@),
            },
            Err(error) => self.failing(error),
        }
    }

    /// The answer to the request for the turn: the turn is known by its id.
    pub open spec fn turn_answered(self, mapper: MapperModel, message: Json) -> (
        Self,
        OutcomeModel,
    ) {
        match message.get("error"@) {
            Some(error) => self.failing(crate::codex_rpc::rpc_error_text(error)),
            None => match message.get_or_null("result"@).text_under("turn"@, "id"@) {
                Some(turn_id) => self.in_phase(
                    PhaseModel::Running(MapperModel { turn_id: Some(turn_id), ..mapper }),
                ).idle(),
                None => self.idle(),
            },
        }
    }

    /// A notification: its events are delivered, and the app-server is stopped where
    /// the turn is over.
    pub open spec fn turn_notified(self, mapper: MapperModel, message: Json) -> (
        Self,
        OutcomeModel,
    ) {
        match mapper.notified(message) {
            Ok(mapped) => if mapped.completed {
                (
                    self.in_phase(PhaseModel::Finished),
                    Ok(deliveries(mapped.events).push(StepModel::Kill)),
                )
            } else {
                (
                    self.in_phase(PhaseModel::Running(mapped.mapper)),
                    Ok(deliveries(mapped.events)),
                )
            },
            Err(error) => self.failing(error.text()),
        }
    }

    /// What a message of the app-server does. During the handshake only the answer
    /// that is waited for counts.
    pub open spec fn message_step(self, message: Json, fresh: u128) -> (Self, OutcomeModel) {
        let id = message.i64_at("id"@);
        match self.phase {
            PhaseModel::Initializing => if id == Some(CODEX_INITIALIZE_REQUEST_ID) {
                self.initialized(message)
            } else {
                self.idle()
            },
            PhaseModel::OpeningThread => if id == Some(CODEX_THREAD_REQUEST_ID) {
                self.thread_opened(message, fresh)
            } else {
                self.idle()
            },
            PhaseModel::Running(mapper) => if id == Some(CODEX_TURN_REQUEST_ID) {
                self.turn_answered(mapper, message)
            } else {
                self.turn_notified(mapper, message)
            },
            PhaseModel::Finished => self.idle(),
        }
    }

    /// What a line of the app-server's output does. A blank one does nothing, one that
    /// is not JSON ends the session.
    pub open spec fn line_step(self, line: Seq<char>, fresh: u128) -> (Self, OutcomeModel) {
        if self.phase is Finished || crate::text::blank(line) {
            self.idle()
        } else {
            match crate::json::parsed_json(line) {
                Ok(message) => self.message_step(message, fresh),
                Err(error) => self.failing("Codex app-server returned invalid JSONL: "@ + error),
            }
        }
    }

    /// What cancellation does: during the handshake it is an error; a running turn is
    /// interrupted and the app-server stopped.
    pub open spec fn cancel_step(self) -> (Self, OutcomeModel) {
        match self.phase {
            PhaseModel::Running(mapper) => (
                self.in_phase(PhaseModel::Finished),
                Ok(
                    match mapper.turn_id {
                        Some(turn_id) => seq![
                            StepModel::TrySend(
                                RequestModel::InterruptTurn {
                                    thread_id: mapper.thread_id,
                                    turn_id,
                                },
                            ),
                            StepModel::Sleep { millis: CODEX_INTERRUPT_GRACE_MILLIS },
                            StepModel::Kill,
                        ],
                        None => seq![StepModel::Kill],
                    },
                ),
            ),
            PhaseModel::Finished => self.idle(),
            _ => self.failing(CodexError::Cancelled@),
        }
    }

    /// What the end of the app-server's output does: it is an error, whose text
    /// depends on the exit once the turn has been requested.
    pub open spec fn end_step(self) -> (Self, OutcomeModel) {
        match self.phase {
            PhaseModel::Running(_) => (
                self.in_phase(PhaseModel::Finished),
                Ok(seq![StepModel::AwaitExit]),
            ),
            PhaseModel::Finished => self.idle(),
            _ => self.failing(CodexError::ExitedDuringInitialization@),
        }
    }
}

/// A copy of an optional text.
fn copied(text: &Option<String>) -> (copy: Option<String>)
    ensures
        copy == *text,
{
    match text {
        Some(inner) => Some(inner.clone()),
        None => None,
    }
}

/// The last user query among the inputs.
fn find_prompt(input: &Vec<Option<String>>) -> (prompt: Option<String>)
    ensures
        crate::api::opt_view(prompt) == last_query(input@),
{
    let mut i: usize = input.len();
    proof {
        assert(input@.take(i as int) =~= input@);
    }
    while i > 0
        invariant
            i <= input@.len(),
            last_query(input@.take(i as int)) == last_query(input@),
        decreases i,
    {
        proof {
            assert(input@.take(i as int).drop_last() =~= input@.take(i - 1));
            assert(input@.take(i as int).last() == input@[i - 1]);
        }
        i = i - 1;
        if let Some(query) = &input[i] {
            return Some(query.clone());
        }
    }
    None
}

/// What the answer to a call holds.
fn read_codex_rpc_response(message: &JsonValue) -> (answer: Result<&JsonValue, CodexError>)
    ensures
        match answer {
            Ok(result) => answer_of(message@) == Ok::<Json, Seq<char>>(result@),
            Err(error) => answer_of(message@) == Err::<Json, Seq<char>>(error@),
        },
{
    if let Some(error) = message.get("error") {
        return Err(codex_rpc_error(error));
    }
    match message.get("result") {
        Some(result) => Ok(result),
        None => Err(CodexError::NoResult),
    }
}

/// The steps that deliver events, in order.
fn send_codex_events(events: Vec<CodexEvent>) -> (steps: Vec<CodexStep>)
    ensures
        crate::api::views(steps@) == deliveries(crate::codex_mapper::codex_events(events@)),
{
    let ghost models = crate::codex_mapper::codex_events(events@);
    let mut steps: Vec<CodexStep> = Vec::new();
    for event in it: events
        invariant
            it.seq() == events@,
            models == crate::codex_mapper::codex_events(events@),
            crate::api::views(steps@) =~= deliveries(models).take(it.index() as int),
    {
        steps.push(CodexStep::Deliver(event));
        proof {
            let i = it.index() as int;
            assert(deliveries(models).take(i + 1) =~= deliveries(models).take(i).push(
                StepModel::Deliver(models[i]),
            ));
        }
    }
    proof {
        assert(deliveries(models).take(models.len() as int) =~= deliveries(models));
    }
    steps
}

impl CodexSession {
    /// Opens the session of a request, whose new root task, where it needs one, is
    /// named by `fresh`. The first step initializes the app-server. A request without
    /// a user query is an error.
    pub fn start_with(params: &RequestParams, client_version: &str, fresh: u128) -> (result: Result<
        (CodexSession, Vec<CodexStep>),
        CodexError,
    >)
        ensures
            match result {
                Ok((session, steps)) => {
                    &&& last_query(params.input@) matches Some(prompt)
                    &&& session@ == session_of(*params, prompt, fresh)
                    &&& session.prompt@ == prompt
                    &&& session.create_root_task == (params.task_ids@.len() == 0)
                    &&& params.task_ids@.len() > 0 ==> session.task_id@ == params.task_ids@[0]@
                    &&& params.conversation_token is Some <==> session.existing_thread_id is Some
                    &&& params.conversation_token is Some ==> session.existing_thread_id->0@
                        == params.conversation_token->0@
                    &&& params.current_working_directory is Some <==> session.cwd is Some
                    &&& params.current_working_directory is Some ==> session.cwd->0@
                        == params.current_working_directory->0@
                    &&& session.phase is Initializing
                    &&& params.task_ids@.len() == 0 ==> session.task_id@ == crate::ids::hyphenated(
                        fresh,
                    )
                    &&& crate::api::views(steps@) == seq![
                        StepModel::Send(
                            (RequestModel::Initialize { client_version: client_version@ }),
                        ),
                    ]
                },
                Err(error) => {
                    &&& last_query(params.input@) is None
                    &&& error == CodexError::PromptsOnly
                },
            },
    {
        let prompt = match find_prompt(&params.input) {
            Some(prompt) => prompt,
            None => return Err(CodexError::PromptsOnly),
        };
        let create_root_task = params.task_ids.len() == 0;
        let task_id = if create_root_task {
            uuid_text(fresh)
        } else {
            params.task_ids[0].clone()
        };
        let session = CodexSession {
            prompt,
            task_id,
            create_root_task,
            existing_thread_id: copied(&params.conversation_token),
            cwd: copied(&params.current_working_directory),
            phase: CodexPhase::Initializing,
        };
        let mut steps: Vec<CodexStep> = Vec::new();
        steps.push(
            CodexStep::Send(CodexRequest::Initialize { client_version: client_version.to_owned() }),
        );
        proof {
            assert(crate::api::views(steps@) =~= seq![
                StepModel::Send(RequestModel::Initialize { client_version: client_version@ }),
            ]);
        }
        Ok((session, steps))
    }

    /// Opens the session of a request. A new root task, where it needs one, gets a
    /// random name.
    pub fn start(params: &RequestParams, client_version: &str) -> (result: Result<
        (CodexSession, Vec<CodexStep>),
        CodexError,
    >)
        ensures
            match result {
                Ok((session, steps)) => {
                    &&& last_query(params.input@) matches Some(prompt)
                    &&& exists|fresh: u128|
                        crate::ids::is_random_uuid(fresh) && session@ == #[trigger] session_of(
                            *params,
                            prompt,
                            fresh,
                        )
                    &&& session.prompt@ == prompt
                    &&& session.create_root_task == (params.task_ids@.len() == 0)
                    &&& params.task_ids@.len() > 0 ==> session.task_id@ == params.task_ids@[0]@
                    &&& params.conversation_token is Some <==> session.existing_thread_id is Some
                    &&& params.conversation_token is Some ==> session.existing_thread_id->0@
                        == params.conversation_token->0@
                    &&& params.current_working_directory is Some <==> session.cwd is Some
                    &&& params.current_working_directory is Some ==> session.cwd->0@
                        == params.current_working_directory->0@
                    &&& session.phase is Initializing
                    &&& crate::api::views(steps@) == seq![
                        StepModel::Send(
                            (RequestModel::Initialize { client_version: client_version@ }),
                        ),
                    ]
                },
                Err(error) => {
                    &&& last_query(params.input@) is None
                    &&& error == CodexError::PromptsOnly
                },
            },
    {
        let fresh: u128 = random_uuid();
        CodexSession::start_with(params, client_version, fresh)
    }

    /// Ends the session with an error.
    fn fail(&mut self, error: CodexError) -> (result: Result<Vec<CodexStep>, CodexError>)
        ensures
            (final(self)@, outcome(result)) == old(self)@.failing(error@),
    {
        self.phase = CodexPhase::Finished;
        Err(error)
    }

    /// The answer to the initialization.
    fn on_initialized(&mut self, message: &JsonValue) -> (result: Result<
        Vec<CodexStep>,
        CodexError,
    >)
        ensures
            (final(self)@, outcome(result)) == old(self)@.initialized(message@),
    {
        if let Err(error) = read_codex_rpc_response(message) {
            return self.fail(error);
        }
        let cwd = copied(&self.cwd);
        let thread_request = match &self.existing_thread_id {
            Some(thread_id) => CodexRequest::ResumeThread { thread_id: thread_id.clone(), cwd },
            None => CodexRequest::StartThread { cwd },
        };
        self.phase = CodexPhase::OpeningThread;
        let mut steps: Vec<CodexStep> = Vec::new();
        steps.push(CodexStep::Send(CodexRequest::Initialized));
        steps.push(CodexStep::Send(thread_request));
        proof {
            assert(crate::api::views(steps@) =~= seq![
                StepModel::Send(RequestModel::Initialized),
                StepModel::Send(old(self)@.thread_request()),
            ]);
        }
        Ok(steps)
    }

    /// The answer to the request for the thread.
    fn on_thread_opened(&mut self, message: &JsonValue, fresh: u128) -> (result: Result<
        Vec<CodexStep>,
        CodexError,
    >)
        ensures
            (final(self)@, outcome(result)) == old(self)@.thread_opened(message@, fresh),
    {
        let answer = match read_codex_rpc_response(message) {
            Ok(answer) => answer,
            Err(error) => return self.fail(error),
        };
        let thread_id = match answer.text_under("thread", "id") {
            Some(thread_id) => thread_id,
            None => return self.fail(CodexError::NoThreadId),
        };
        let mapper = CodexEventMapper::with_request_id(
            self.task_id.clone(),
            thread_id.to_owned(),
            uuid_text(fresh),
            self.create_root_task,
        );
        let turn = CodexRequest::StartTurn {
            thread_id: thread_id.to_owned(),
            prompt: self.prompt.clone(),
            cwd: copied(&self.cwd),
        };
        let mut steps: Vec<CodexStep> = Vec::new();
        steps.push(CodexStep::Deliver(Ok(mapper.init_event())));
        steps.push(CodexStep::Send(turn));
        proof {
            assert(crate::api::views(steps@) =~= seq![
                StepModel::Deliver(Ok(mapper@.opening())),
                StepModel::Send(turn@),
            ]);
        }
        self.phase = CodexPhase::Running(mapper);
        Ok(steps)
    }

    /// What a message of the app-server does, where a response that it opens is named
    /// by `fresh`.
    pub fn on_message_with(&mut self, message: &JsonValue, fresh: u128) -> (result: Result<
        Vec<CodexStep>,
        CodexError,
    >)
        ensures
            (final(self)@, outcome(result)) == old(self)@.message_step(message@, fresh),
    {
        let nothing: Vec<CodexStep> = Vec::new();
        proof {
            assert(crate::api::views(nothing@) =~= seq![]);
        }
        let id: Option<i64> = message.i64_at("id");
        match &mut self.phase {
            CodexPhase::Initializing => if id == Some(CODEX_INITIALIZE_REQUEST_ID) {
                self.on_initialized(message)
            } else {
                Ok(nothing)
            },
            CodexPhase::OpeningThread => if id == Some(CODEX_THREAD_REQUEST_ID) {
                self.on_thread_opened(message, fresh)
            } else {
                Ok(nothing)
            },
            CodexPhase::Running(mapper) => if id == Some(CODEX_TURN_REQUEST_ID) {
                if let Some(error) = message.get("error") {
                    return self.fail(codex_rpc_error(error));
                }
                if let Some(answer) = message.get("result") {
                    if let Some(turn_id) = answer.text_under("turn", "id") {
                        mapper.turn_id = Some(turn_id.to_owned());
                    }
                }
                Ok(nothing)
            } else {
                match mapper.map_notification(message) {
                    Ok((events, completed)) => {
                        let mut steps = send_codex_events(events);
                        if completed {
                            let ghost delivered = steps@;
                            steps.push(CodexStep::Kill);
                            proof {
                                assert(crate::api::views(steps@) =~= crate::api::views(
                                    delivered,
                                ).push(StepModel::Kill));
                            }
                            self.phase = CodexPhase::Finished;
                        }
                        Ok(steps)
                    },
                    Err(error) => self.fail(CodexError::Notification(error)),
                }
            },
            CodexPhase::Finished => Ok(nothing),
        }
    }

    /// What a line of the app-server's output does, where a response that it opens is
    /// named by `fresh`.
    pub fn on_line_with(&mut self, line: &str, fresh: u128) -> (result: Result<
        Vec<CodexStep>,
        CodexError,
    >)
        ensures
            (final(self)@, outcome(result)) == old(self)@.line_step(line@, fresh),
    {
        let finished = match &self.phase {
            CodexPhase::Finished => true,
            _ => false,
        };
        if finished || is_blank(line) {
            let nothing: Vec<CodexStep> = Vec::new();
            proof {
                assert(crate::api::views(nothing@) =~= seq![]);
            }
            return Ok(nothing);
        }
        match parse_json(line) {
            Ok(message) => self.on_message_with(&message, fresh),
            Err(error) => self.fail(CodexError::InvalidJsonl(error)),
        }
    }

    /// What a line of the app-server's output does. A response that it opens gets a
    /// random name.
    pub fn on_line(&mut self, line: &str) -> (result: Result<Vec<CodexStep>, CodexError>)
        ensures
            exists|fresh: u128|
                crate::ids::is_random_uuid(fresh) && (final(self)@, outcome(result)) == #[trigger] old(
                    self,
                )@.line_step(line@, fresh),
    {
        let fresh: u128 = random_uuid();
        self.on_line_with(line, fresh)
    }

    /// What cancellation does.
    pub fn on_cancel(&mut self) -> (result: Result<Vec<CodexStep>, CodexError>)
        ensures
            (final(self)@, outcome(result)) == old(self)@.cancel_step(),
    {
        let mut steps: Vec<CodexStep> = Vec::new();
        proof {
            assert(crate::api::views(steps@) =~= seq![]);
        }
        match &self.phase {
            CodexPhase::Running(mapper) => {
                if let Some(turn_id) = &mapper.turn_id {
                    let interrupt = CodexRequest::InterruptTurn {
                        thread_id: mapper.thread_id.clone(),
                        turn_id: turn_id.clone(),
                    };
                    steps.push(CodexStep::TrySend(interrupt));
                    steps.push(CodexStep::Sleep { millis: CODEX_INTERRUPT_GRACE_MILLIS });
                }
                steps.push(CodexStep::Kill);
                proof {
                    let (after, expected) = old(self)@.cancel_step();
                    assert(crate::api::views(steps@) =~= expected->Ok_0);
                }
            },
            CodexPhase::Finished => return Ok(steps),
            _ => return self.fail(CodexError::Cancelled),
        }
        self.phase = CodexPhase::Finished;
        Ok(steps)
    }

    /// What the end of the app-server's output does.
    pub fn on_end_of_output(&mut self) -> (result: Result<Vec<CodexStep>, CodexError>)
        ensures
            (final(self)@, outcome(result)) == old(self)@.end_step(),
    {
        let mut steps: Vec<CodexStep> = Vec::new();
        proof {
            assert(crate::api::views(steps@) =~= seq![]);
        }
        match &self.phase {
            CodexPhase::Running(_) => {
                steps.push(CodexStep::AwaitExit);
                proof {
                    assert(crate::api::views(steps@) =~= seq![StepModel::AwaitExit]);
                }
            },
            CodexPhase::Finished => return Ok(steps),
            _ => return self.fail(CodexError::ExitedDuringInitialization),
        }
        self.phase = CodexPhase::Finished;
        Ok(steps)
    }
}

} // verus!
