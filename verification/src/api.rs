//! What passes between the client and the multi-agent API: response events, the
//! client actions they carry, request parameters and errors.
use vstd::prelude::*;

verus! {

/// A sequence of values as mathematics.
pub open spec fn views<T: View>(items: Seq<T>) -> Seq<T::V> {
    Seq::new(items.len(), |i: int| items[i]@)
}

/// An optional value as mathematics.
pub open spec fn opt_view<T: View>(value: Option<T>) -> Option<T::V> {
    match value {
        Some(inner) => Some(inner@),
        None => None,
    }
}

/// What the API says beyond what this library reads, in the API's own encoding. It is
/// passed on as it is; nothing is said by no bytes.
#[derive(Debug, Clone, PartialEq, Eq)]
pub struct Opaque {
    pub bytes: Vec<u8>,
}

impl View for Opaque {
    type V = Seq<u8>;

    open spec fn view(&self) -> Seq<u8> {
        self.bytes@
    }
}

impl Opaque {
    /// Nothing beyond what this library reads.
    pub fn empty() -> (opaque: Self)
        ensures
            opaque@ == Seq::<u8>::empty(),
    {
        Opaque { bytes: Vec::new() }
    }
}

/// The event that opens a response.
#[derive(Debug)]
pub struct StreamInit {
    pub request_id: String,
    pub conversation_id: String,
    pub run_id: String,
}

/// What the agent says to the user.
#[derive(Debug)]
pub struct AgentOutput {
    pub text: String,
}

/// What the agent thinks and does on the way.
#[derive(Debug)]
pub struct AgentReasoning {
    pub reasoning: String,
    /// How long it took.
    pub extra: Opaque,
}

/// The content of a message.
#[derive(Debug)]
pub enum MessageContent {
    AgentOutput(AgentOutput),
    AgentReasoning(AgentReasoning),
    /// Any further content.
    Other(Opaque),
}

/// The content of a message as mathematics.
pub enum ContentModel {
    Output(Seq<char>),
    Reasoning { text: Seq<char>, extra: Seq<u8> },
    Other(Seq<u8>),
}

impl View for MessageContent {
    type V = ContentModel;

    open spec fn view(&self) -> ContentModel {
        match self {
            MessageContent::AgentOutput(output) => ContentModel::Output(output.text@),
            MessageContent::AgentReasoning(reasoning) => ContentModel::Reasoning {
                text: reasoning.reasoning@,
                extra: reasoning.extra@,
            },
            MessageContent::Other(content) => ContentModel::Other(content@),
        }
    }
}

/// A message of a task.
#[derive(Debug)]
pub struct Message {
    pub id: String,
    pub task_id: String,
    pub request_id: String,
    pub server_message_data: String,
    pub message: Option<MessageContent>,
    /// Memories, citations and the time.
    pub extra: Opaque,
}

/// A message as mathematics.
pub struct MessageModel {
    pub id: Seq<char>,
    pub task_id: Seq<char>,
    pub request_id: Seq<char>,
    pub server_message_data: Seq<char>,
    pub message: Option<ContentModel>,
    pub extra: Seq<u8>,
}

impl View for Message {
    type V = MessageModel;

    open spec fn view(&self) -> MessageModel {
        MessageModel {
            id: self.id@,
            task_id: self.task_id@,
            request_id: self.request_id@,
            server_message_data: self.server_message_data@,
            message: opt_view(self.message),
            extra: self.extra@,
        }
    }
}

/// A task of a conversation.
#[derive(Debug)]
pub struct Task {
    pub id: String,
    pub messages: Vec<Message>,
    pub description: String,
    pub summary: String,
    pub server_data: String,
    /// The tasks it depends on.
    pub extra: Opaque,
}

/// A task as mathematics.
pub struct TaskModel {
    pub id: Seq<char>,
    pub messages: Seq<MessageModel>,
    pub description: Seq<char>,
    pub summary: Seq<char>,
    pub server_data: Seq<char>,
    pub extra: Seq<u8>,
}

impl View for Task {
    type V = TaskModel;

    open spec fn view(&self) -> TaskModel {
        TaskModel {
            id: self.id@,
            messages: views(self.messages@),
            description: self.description@,
            summary: self.summary@,
            server_data: self.server_data@,
            extra: self.extra@,
        }
    }
}

/// The fields of a message that an action is about.
#[derive(Debug)]
pub struct FieldMask {
    pub paths: Vec<String>,
}

impl View for FieldMask {
    type V = Seq<Seq<char>>;

    open spec fn view(&self) -> Seq<Seq<char>> {
        views(self.paths@)
    }
}

/// Creates a task.
#[derive(Debug)]
pub struct CreateTask {
    pub task: Option<Task>,
}

/// Adds messages to a task.
#[derive(Debug)]
pub struct AddMessagesToTask {
    pub task_id: String,
    pub messages: Vec<Message>,
}

/// Appends the masked fields of a message to those of the message with its id.
#[derive(Debug)]
pub struct AppendToMessageContent {
    pub task_id: String,
    pub message: Option<Message>,
    pub mask: Option<FieldMask>,
}

/// Replaces the masked fields of the message with the given one's id.
#[derive(Debug)]
pub struct UpdateTaskMessage {
    pub task_id: String,
    pub message: Option<Message>,
    pub mask: Option<FieldMask>,
}

/// What a client action does.
#[derive(Debug)]
pub enum Action {
    CreateTask(CreateTask),
    AddMessagesToTask(AddMessagesToTask),
    AppendToMessageContent(AppendToMessageContent),
    UpdateTaskMessage(UpdateTaskMessage),
    /// Any further action.
    Other(Opaque),
}

/// What a client action does, as mathematics.
pub enum ActionModel {
    CreateTask { task: Option<TaskModel> },
    AddMessagesToTask { task_id: Seq<char>, messages: Seq<MessageModel> },
    AppendToMessageContent {
        task_id: Seq<char>,
        message: Option<MessageModel>,
        mask: Option<Seq<Seq<char>>>,
    },
    UpdateTaskMessage {
        task_id: Seq<char>,
        message: Option<MessageModel>,
        mask: Option<Seq<Seq<char>>>,
    },
    Other(Seq<u8>),
}

impl View for Action {
    type V = ActionModel;

    open spec fn view(&self) -> ActionModel {
        match self {
            Action::CreateTask(create) => ActionModel::CreateTask { task: opt_view(create.task) },
            Action::AddMessagesToTask(add) => ActionModel::AddMessagesToTask {
                task_id: add.task_id@,
                messages: views(add.messages@),
            },
            Action::AppendToMessageContent(append) => ActionModel::AppendToMessageContent {
                task_id: append.task_id@,
                message: opt_view(append.message),
                mask: opt_view(append.mask),
            },
            Action::UpdateTaskMessage(update) => ActionModel::UpdateTaskMessage {
                task_id: update.task_id@,
                message: opt_view(update.message),
                mask: opt_view(update.mask),
            },
            Action::Other(action) => ActionModel::Other(action@),
        }
    }
}

/// One thing for the client to do.
#[derive(Debug)]
pub struct ClientAction {
    pub action: Option<Action>,
}

impl View for ClientAction {
    type V = Option<ActionModel>;

    open spec fn view(&self) -> Option<ActionModel> {
        opt_view(self.action)
    }
}

/// The event that hands the client things to do.
#[derive(Debug)]
pub struct ClientActions {
    pub actions: Vec<ClientAction>,
}

/// Why a response ended.
#[derive(Debug, PartialEq, Eq)]
pub enum StreamFinishedReason {
    Done,
    Other,
    /// Any further reason.
    Further(Opaque),
}

/// Why a response ended, as mathematics.
pub enum ReasonModel {
    Done,
    Other,
    Further(Seq<u8>),
}

impl View for StreamFinishedReason {
    type V = ReasonModel;

    open spec fn view(&self) -> ReasonModel {
        match self {
            StreamFinishedReason::Done => ReasonModel::Done,
            StreamFinishedReason::Other => ReasonModel::Other,
            StreamFinishedReason::Further(reason) => ReasonModel::Further(reason@),
        }
    }
}

/// The event that ends a response.
#[derive(Debug)]
pub struct StreamFinished {
    pub reason: Option<StreamFinishedReason>,
    pub should_refresh_model_config: bool,
    /// Usage and cost.
    pub extra: Opaque,
}

/// What a response event is.
#[derive(Debug)]
pub enum ResponseEventType {
    Init(StreamInit),
    ClientActions(ClientActions),
    Finished(StreamFinished),
}

/// A response event.
#[derive(Debug)]
pub struct ResponseEvent {
    pub event_type: Option<ResponseEventType>,
}

/// A response event as mathematics.
pub enum EventModel {
    Init { request_id: Seq<char>, conversation_id: Seq<char>, run_id: Seq<char> },
    ClientActions(Seq<Option<ActionModel>>),
    Finished { reason: Option<ReasonModel>, should_refresh_model_config: bool, extra: Seq<u8> },
}

impl View for ResponseEventType {
    type V = EventModel;

    open spec fn view(&self) -> EventModel {
        match self {
            ResponseEventType::Init(init) => EventModel::Init {
                request_id: init.request_id@,
                conversation_id: init.conversation_id@,
                run_id: init.run_id@,
            },
            ResponseEventType::ClientActions(actions) => EventModel::ClientActions(
                views(actions.actions@),
            ),
            ResponseEventType::Finished(finished) => EventModel::Finished {
                reason: opt_view(finished.reason),
                should_refresh_model_config: finished.should_refresh_model_config,
                extra: finished.extra@,
            },
        }
    }
}

impl View for ResponseEvent {
    type V = Option<EventModel>;

    open spec fn view(&self) -> Option<EventModel> {
        opt_view(self.event_type)
    }
}

/// Credentials for Gemini Enterprise.
#[derive(Debug, Clone, PartialEq, Eq)]
pub struct GoogleCloudCredentials {
    pub access_token: String,
}

/// The keys that a request carries.
#[derive(Debug, Clone, PartialEq, Eq)]
pub struct ApiKeys {
    pub grok_oauth_access_token: String,
    pub google_cloud_credentials: Option<GoogleCloudCredentials>,
}

/// The parameters of a request.
#[derive(Debug, Clone, PartialEq, Eq)]
pub struct RequestParams {
    /// The base model.
    pub model: String,
    pub api_keys: Option<ApiKeys>,
    /// For each input, in order, the user's query where it is one.
    pub input: Vec<Option<String>>,
    /// The identifiers of the conversation's tasks, root first.
    pub task_ids: Vec<String>,
    pub conversation_token: Option<String>,
    pub current_working_directory: Option<String>,
    /// The rest of the request.
    pub extra: Opaque,
}

/// Whether a request has no model, input, keys or history.
pub open spec fn is_blank_request(params: RequestParams) -> bool {
    &&& params.model@.len() == 0
    &&& params.api_keys is None
    &&& params.input@.len() == 0
    &&& params.task_ids@.len() == 0
    &&& params.conversation_token is None
    &&& params.current_working_directory is None
    &&& params.extra@.len() == 0
}

impl RequestParams {
    /// Parameters without any model, input, keys or history.
    pub fn new_for_test() -> (params: Self)
        ensures
            is_blank_request(params),
    {
        RequestParams {
            model: String::new(),
            api_keys: None,
            input: Vec::new(),
            task_ids: Vec::new(),
            conversation_token: None,
            current_working_directory: None,
            extra: Opaque::empty(),
        }
    }
}

/// The request with its Gemini Enterprise credential replaced, where it carries
/// keys at all and there is a fresh credential.
pub open spec fn with_fresh_credentials(
    params: RequestParams,
    fresh: Option<GoogleCloudCredentials>,
) -> RequestParams {
    match (params.api_keys, fresh) {
        (Some(keys), Some(credentials)) => RequestParams {
            api_keys: Some(
                ApiKeys { google_cloud_credentials: Some(credentials), ..keys },
            ),
            ..params
        },
        _ => params,
    }
}

/// Applies the result of a request-time credential mint to a request. A fresh
/// credential replaces the one that the request carries; without one, or without
/// any keys, the request stays as it is.
pub fn apply_geap_refresh_to_params(
    params: &mut RequestParams,
    fresh_credentials: Option<GoogleCloudCredentials>,
)
    ensures
        *final(params) == with_fresh_credentials(*old(params), fresh_credentials),
{
    if let Some(credentials) = fresh_credentials {
        if let Some(keys) = params.api_keys.as_mut() {
            keys.google_cloud_credentials = Some(credentials);
        }
    }
}

/// The Gemini Enterprise token that a request carries.
pub fn geap_token(params: &RequestParams) -> (token: Option<&str>)
    ensures
        match token {
            Some(text) => {
                &&& params.api_keys matches Some(keys)
                &&& keys.google_cloud_credentials matches Some(credentials)
                &&& text@ == credentials.access_token@
            },
            None => params.api_keys matches Some(keys) ==> keys.google_cloud_credentials is None,
        },
{
    match &params.api_keys {
        Some(keys) => match &keys.google_cloud_credentials {
            Some(credentials) => Some(credentials.access_token.as_str()),
            None => None,
        },
        None => None,
    }
}

/// What the server API says of an error.
#[derive(Debug, PartialEq, Eq)]
pub struct ErrorProfile {
    /// Whether the failure is transient, so that the request may be tried again.
    pub is_recoverable: bool,
    /// The error's debug text.
    pub debug: String,
}

/// Which error the server API reports.
#[derive(Debug, Clone, Copy, PartialEq, Eq, Structural)]
pub enum AIApiErrorKind {
    /// The response ended before the event that ends a response.
    UnexpectedEof,
    /// The subscription's token had expired and could not be refreshed.
    GrokSubscriptionTokenRefreshFailed,
    /// Any other error, told apart by its debug text.
    Other,
}

/// An error of the server API.
#[derive(Debug, PartialEq, Eq)]
pub struct AIApiError {
    pub kind: AIApiErrorKind,
    pub profile: ErrorProfile,
}

impl AIApiError {
    /// The error that stands for a failure of which the server API has no kind of its
    /// own.
    pub fn other(profile: ErrorProfile) -> (error: Self)
        ensures
            error == (AIApiError { kind: AIApiErrorKind::Other, profile }),
    {
        AIApiError { kind: AIApiErrorKind::Other, profile }
    }
}

/// What a stream delivers: a response event or an error.
pub type Event = Result<ResponseEvent, AIApiError>;

/// The identifiers by which telemetry finds an exchange.
#[derive(Debug, PartialEq, Eq)]
pub struct AIIdentifiers {
    pub server_output_id: Option<String>,
    /// The further identifiers, as telemetry writes them.
    pub rest: String,
}

impl AIIdentifiers {
    /// A copy of the identifiers.
    pub fn duplicate(&self) -> (copy: Self)
        ensures
            copy == *self,
    {
        AIIdentifiers {
            server_output_id: match &self.server_output_id {
                Some(id) => Some(id.clone()),
                None => None,
            },
            rest: self.rest.clone(),
        }
    }
}

/// Lists and optional values are viewed part by part, in order.
pub proof fn parts_are_viewed_in_order<T: View>(items: Seq<T>, value: Option<T>)
    ensures
        views(items).len() == items.len(),
        forall|i: int| 0 <= i < items.len() ==> #[trigger] views(items)[i] == items[i]@,
        opt_view(value) is Some <==> value is Some,
        value is Some ==> opt_view(value)->0 == value->0@,
{
}

/// A message is viewed with every field in its place, and so is a task.
pub proof fn messages_are_viewed_whole(
    message: Message,
    task: Task,
    output: AgentOutput,
    reasoning: AgentReasoning,
    other: Opaque,
    mask: FieldMask,
)
    ensures
        message@.id == message.id@,
        message@.task_id == message.task_id@,
        message@.request_id == message.request_id@,
        message@.server_message_data == message.server_message_data@,
        message@.message is Some <==> message.message is Some,
        message.message is Some ==> message@.message->0 == message.message->0@,
        message@.extra == message.extra.bytes@,
        MessageContent::AgentOutput(output)@ == ContentModel::Output(output.text@),
        MessageContent::AgentReasoning(reasoning)@ == (ContentModel::Reasoning {
            text: reasoning.reasoning@,
            extra: reasoning.extra.bytes@,
        }),
        MessageContent::Other(other)@ == ContentModel::Other(other.bytes@),
        task@.id == task.id@,
        task@.messages.len() == task.messages@.len(),
        forall|i: int|
            0 <= i < task.messages@.len() ==> #[trigger] task@.messages[i] == task.messages@[i]@,
        task@.description == task.description@,
        task@.summary == task.summary@,
        task@.server_data == task.server_data@,
        task@.extra == task.extra.bytes@,
        mask@.len() == mask.paths@.len(),
        forall|i: int| 0 <= i < mask@.len() ==> #[trigger] mask@[i] == mask.paths@[i]@,
{
}

/// An action is viewed as what it is, with every field in its place.
pub proof fn actions_are_viewed_whole(
    create: CreateTask,
    add: AddMessagesToTask,
    append: AppendToMessageContent,
    update: UpdateTaskMessage,
    other: Opaque,
    action: ClientAction,
)
    ensures
        Action::CreateTask(create)@ matches ActionModel::CreateTask { task } && (task is Some
            <==> create.task is Some) && (task is Some ==> task->0 == create.task->0@),
        Action::AddMessagesToTask(add)@ matches ActionModel::AddMessagesToTask {
            task_id,
            messages,
        } && task_id == add.task_id@ && messages.len() == add.messages@.len() && forall|i: int|
            0 <= i < messages.len() ==> #[trigger] messages[i] == add.messages@[i]@,
        Action::AppendToMessageContent(append)@ matches ActionModel::AppendToMessageContent {
            task_id,
            message,
            mask,
        } && task_id == append.task_id@ && (message is Some <==> append.message is Some) && (
        message is Some ==> message->0 == append.message->0@) && (mask is Some <==> append.mask is
            Some) && (mask is Some ==> mask->0 == append.mask->0@),
        Action::UpdateTaskMessage(update)@ matches ActionModel::UpdateTaskMessage {
            task_id,
            message,
            mask,
        } && task_id == update.task_id@ && (message is Some <==> update.message is Some) && (
        message is Some ==> message->0 == update.message->0@) && (mask is Some <==> update.mask is
            Some) && (mask is Some ==> mask->0 == update.mask->0@),
        Action::Other(other)@ == ActionModel::Other(other.bytes@),
        action@ is Some <==> action.action is Some,
        action@ is Some ==> action@->0 == action.action->0@,
{
}

/// An event is viewed as what it is, with every field in its place.
pub proof fn events_are_viewed_whole(
    event: ResponseEvent,
    init: StreamInit,
    actions: ClientActions,
    finished: StreamFinished,
    further: Opaque,
)
    ensures
        event@ is Some <==> event.event_type is Some,
        event@ is Some ==> event@->0 == event.event_type->0@,
        ResponseEventType::Init(init)@ == (EventModel::Init {
            request_id: init.request_id@,
            conversation_id: init.conversation_id@,
            run_id: init.run_id@,
        }),
        ResponseEventType::ClientActions(actions)@ matches EventModel::ClientActions(list)
            && list.len() == actions.actions@.len() && forall|i: int|
            0 <= i < list.len() ==> #[trigger] list[i] == actions.actions@[i]@,
        ResponseEventType::Finished(finished)@ matches EventModel::Finished {
            reason,
            should_refresh_model_config,
            extra,
        } && (reason is Some <==> finished.reason is Some) && (reason is Some ==> reason->0
            == finished.reason->0@) && should_refresh_model_config
            == finished.should_refresh_model_config && extra == finished.extra.bytes@,
        StreamFinishedReason::Done@ == ReasonModel::Done,
        StreamFinishedReason::Other@ == ReasonModel::Other,
        StreamFinishedReason::Further(further)@ == ReasonModel::Further(further.bytes@),
{
}

/// A blank request asks for nothing and carries nothing.
pub proof fn blank_requests_are_blank(params: RequestParams)
    requires
        is_blank_request(params),
    ensures
        params.model@ == Seq::<char>::empty(),
        params.api_keys is None,
        params.input@ == Seq::<Option<String>>::empty(),
        params.task_ids@ == Seq::<String>::empty(),
        params.conversation_token is None,
        params.current_working_directory is None,
        params.extra.bytes@ == Seq::<u8>::empty(),
{
}

} // verus!
