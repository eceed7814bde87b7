//! What holds of Codex turns and sessions: of the events that they deliver, of the
//! client that follows these, and of the requests that are sent.
use crate::api::{ActionModel, ContentModel, EventModel, MessageModel};
use crate::codex_mapper::{
    CodexEventModel, CodexMessageKind, Mapped, MapperModel, NotificationError,
    CODEX_MAX_COMMAND_OUTPUT_BYTES,
};
use crate::codex_rpc::{
    RequestModel, CODEX_INITIALIZE_REQUEST_ID, CODEX_THREAD_REQUEST_ID, CODEX_TURN_REQUEST_ID,
};
use crate::codex_session::{PhaseModel, SessionModel, StepModel};
use crate::json::Json;
use vstd::prelude::*;

verus! {

/// What a client knows of a conversation: whether the root task exists and, for each
/// of its messages, the text of each field.
pub struct ClientModel {
    pub root_id: Seq<char>,
    pub has_root: bool,
    pub messages: Map<Seq<char>, Map<Seq<char>, Seq<char>>>,
}

/// The field that holds a content's text, where it is one that a turn has.
pub open spec fn content_path(content: ContentModel) -> Seq<char> {
    match content {
        ContentModel::Output(_) => CodexMessageKind::AgentOutput.path(),
        ContentModel::Reasoning { .. } => CodexMessageKind::AgentReasoning.path(),
        ContentModel::Other(_) => seq![],
    }
}

/// A content's text, where it is one that a turn has.
pub open spec fn content_text(content: ContentModel) -> Seq<char> {
    match content {
        ContentModel::Output(text) => text,
        ContentModel::Reasoning { text, .. } => text,
        ContentModel::Other(_) => seq![],
    }
}

impl ClientModel {
    /// The text of a message's field; nothing where there is no such message or field.
    pub open spec fn text(self, message_id: Seq<char>, path: Seq<char>) -> Seq<char> {
        if self.messages.contains_key(message_id) && self.messages[message_id].contains_key(path) {
            self.messages[message_id][path]
        } else {
            seq![]
        }
    }

    /// The client after the field of an existing message has been set.
    pub open spec fn with_text(
        self,
        message_id: Seq<char>,
        path: Seq<char>,
        text: Seq<char>,
    ) -> ClientModel {
        let fields = self.messages[message_id].insert(path, text);
        ClientModel { messages: self.messages.insert(message_id, fields), ..self }
    }

    /// Whether a message can be changed in the field that the mask names, and no
    /// other.
    pub open spec fn can_change(
        self,
        task_id: Seq<char>,
        message: MessageModel,
        mask: Seq<Seq<char>>,
    ) -> bool {
        &&& self.has_root
        &&& task_id == self.root_id
        &&& self.messages.contains_key(message.id)
        &&& message.message matches Some(content)
        &&& !(content is Other)
        &&& mask == seq![content_path(content)]
    }

    /// The client after an action, where it makes sense to the client: the root task
    /// is created once, a message is added once, to the root task, and only a message
    /// that was added is changed.
    pub open spec fn after_action(self, action: Option<ActionModel>) -> Option<ClientModel> {
        match action {
            Some(ActionModel::CreateTask { task: Some(task) }) if !self.has_root && task.id
                == self.root_id && task.messages.len() == 0 => Some(
                ClientModel { has_root: true, ..self },
            ),
            Some(ActionModel::AddMessagesToTask { task_id, messages }) if self.has_root && task_id
                == self.root_id && messages.len() == 1 && (messages[0].message matches Some(
                content,
            ) && !(content is Other)) && !self.messages.contains_key(messages[0].id) => {
                let content = messages[0].message->0;
                let fields = Map::empty().insert(content_path(content), content_text(content));
                Some(ClientModel { messages: self.messages.insert(messages[0].id, fields), ..self })
            },
            Some(
                ActionModel::AppendToMessageContent {
                    task_id,
                    message: Some(message),
                    mask: Some(mask),
                },
            ) if self.can_change(task_id, message, mask) => {
                let content = message.message->0;
                let path = content_path(content);
                Some(
                    self.with_text(
                        message.id,
                        path,
                        self.text(message.id, path) + content_text(content),
                    ),
                )
            },
            Some(
                ActionModel::UpdateTaskMessage {
                    task_id,
                    message: Some(message),
                    mask: Some(mask),
                },
            ) if self.can_change(task_id, message, mask) => {
                let content = message.message->0;
                Some(self.with_text(message.id, content_path(content), content_text(content)))
            },
            _ => None,
        }
    }

    /// The client after a list of actions, where all of them make sense to it.
    pub open spec fn after_actions(self, actions: Seq<Option<ActionModel>>) -> Option<ClientModel>
        decreases actions.len(),
    {
        if actions.len() == 0 {
            Some(self)
        } else {
            match self.after_actions(actions.drop_last()) {
                Some(client) => client.after_action(actions.last()),
                None => None,
            }
        }
    }

    /// The client after an event, where it makes sense to it.
    pub open spec fn after_event(self, event: CodexEventModel) -> Option<ClientModel> {
        match event {
            Ok(Some(EventModel::ClientActions(actions))) => self.after_actions(actions),
            _ => Some(self),
        }
    }

    /// The client after a list of events, where all of them make sense to it.
    pub open spec fn after_events(self, events: Seq<CodexEventModel>) -> Option<ClientModel>
        decreases events.len(),
    {
        if events.len() == 0 {
            Some(self)
        } else {
            match self.after_events(events.drop_last()) {
                Some(client) => client.after_event(events.last()),
                None => None,
            }
        }
    }
}

/// Whether a client knows just what a mapper has told it.
pub open spec fn in_step(mapper: MapperModel, client: ClientModel) -> bool {
    &&& client.root_id == mapper.task_id
    &&& client.has_root == !mapper.create_root_task
    &&& client.messages.dom() == mapper.message_kinds.dom()
    &&& mapper.create_root_task ==> mapper.message_kinds.dom().is_empty()
}

/// Whether nothing but one field of one message, and the root task, differs.
pub open spec fn only_changes(
    before: ClientModel,
    after: ClientModel,
    message_id: Seq<char>,
    path: Seq<char>,
) -> bool {
    forall|id: Seq<char>, field: Seq<char>|
        (id != message_id || field != path) ==> #[trigger] after.text(id, field) == before.text(
            id,
            field,
        )
}

/// A client follows the addition of a message.
proof fn lemma_adding(
    mapper: MapperModel,
    client: ClientModel,
    message_id: Seq<char>,
    kind: CodexMessageKind,
    text: Seq<char>,
)
    requires
        in_step(mapper, client),
        !mapper.message_kinds.contains_key(message_id),
    ensures
        ({
            let (next, event) = mapper.adding(message_id, kind, text);
            &&& client.after_event(Ok(event)) matches Some(after)
            &&& in_step(next, after)
            &&& after.text(message_id, kind.path()) == text
            &&& only_changes(client, after, message_id, kind.path())
        }),
{
    let (next, event) = mapper.adding(message_id, kind, text);
    let actions = event->0->ClientActions_0;
    let last = actions.last();
    if mapper.create_root_task {
        assert(actions.drop_last() =~= seq![actions[0]]);
        assert(seq![actions[0]].drop_last() =~= seq![]);
        reveal_with_fuel(ClientModel::after_actions, 3);
        assert(client.after_actions(seq![actions[0]]) == client.after_action(actions[0]));
    } else {
        assert(actions.drop_last() =~= seq![]);
        reveal_with_fuel(ClientModel::after_actions, 2);
    }
    let rooted = ClientModel { has_root: true, ..client };
    assert(client.after_actions(actions) == rooted.after_action(last));
    let after = rooted.after_action(last)->0;
    assert(after.messages.dom() =~= next.message_kinds.dom());
    assert(!client.messages.dom().contains(message_id));
}

/// A client follows a change of a message that was added.
proof fn lemma_changing(
    mapper: MapperModel,
    client: ClientModel,
    message_id: Seq<char>,
    kind: CodexMessageKind,
    text: Seq<char>,
)
    requires
        in_step(mapper, client),
        mapper.message_kinds.contains_key(message_id),
    ensures
        ({
            let (next, event) = mapper.setting(message_id, kind, text);
            &&& client.after_event(Ok(event)) matches Some(after)
            &&& in_step(next, after)
            &&& after.text(message_id, kind.path()) == text
            &&& only_changes(client, after, message_id, kind.path())
        }),
        ({
            let (next, event) = mapper.appending(message_id, kind, text);
            &&& client.after_event(Ok(event)) matches Some(after)
            &&& in_step(next, after)
            &&& after.text(message_id, kind.path()) == client.text(message_id, kind.path()) + text
            &&& only_changes(client, after, message_id, kind.path())
        }),
{
    assert(mapper.message_kinds.dom().contains(message_id));
    assert(client.messages.contains_key(message_id));
    reveal_with_fuel(ClientModel::after_actions, 2);
    let update = mapper.setting(message_id, kind, text).1->0->ClientActions_0;
    assert(update.drop_last() =~= seq![]);
    assert(client.after_actions(update) == client.after_action(update.last()));
    let updated = client.after_action(update.last())->0;
    assert(updated.messages.dom() =~= client.messages.dom());
    let append = mapper.appending(message_id, kind, text).1->0->ClientActions_0;
    assert(append.drop_last() =~= seq![]);
    assert(client.after_actions(append) == client.after_action(append.last()));
    let appended = client.after_action(append.last())->0;
    assert(appended.messages.dom() =~= client.messages.dom());
}

/// Setting a message gives it the text, and changes nothing else.
pub proof fn set_messages_have_the_text(
    mapper: MapperModel,
    client: ClientModel,
    message_id: Seq<char>,
    kind: CodexMessageKind,
    text: Seq<char>,
)
    requires
        in_step(mapper, client),
    ensures
        ({
            let (next, event) = mapper.setting(message_id, kind, text);
            &&& client.after_event(Ok(event)) matches Some(after)
            &&& in_step(next, after)
            &&& after.text(message_id, kind.path()) == text
            &&& only_changes(client, after, message_id, kind.path())
        }),
{
    if mapper.message_kinds.contains_key(message_id) {
        lemma_changing(mapper, client, message_id, kind, text);
    } else {
        lemma_adding(mapper, client, message_id, kind, text);
    }
}

/// Appending to a message extends its text, and changes nothing else.
pub proof fn appended_messages_grow(
    mapper: MapperModel,
    client: ClientModel,
    message_id: Seq<char>,
    kind: CodexMessageKind,
    delta: Seq<char>,
)
    requires
        in_step(mapper, client),
    ensures
        ({
            let (next, event) = mapper.appending(message_id, kind, delta);
            &&& client.after_event(Ok(event)) matches Some(after)
            &&& in_step(next, after)
            &&& after.text(message_id, kind.path()) == client.text(message_id, kind.path()) + delta
            &&& only_changes(client, after, message_id, kind.path())
        }),
{
    if mapper.message_kinds.contains_key(message_id) {
        lemma_changing(mapper, client, message_id, kind, delta);
    } else {
        lemma_adding(mapper, client, message_id, kind, delta);
        assert(!client.messages.dom().contains(message_id));
        assert(client.text(message_id, kind.path()) + delta =~= delta);
    }
}

/// Events follow one another.
proof fn lemma_after_events_concat(
    client: ClientModel,
    first: Seq<CodexEventModel>,
    second: Seq<CodexEventModel>,
)
    ensures
        client.after_events(first + second) == match client.after_events(first) {
            Some(between) => between.after_events(second),
            None => None,
        },
    decreases second.len(),
{
    if second.len() == 0 {
        assert(first + second =~= first);
    } else {
        assert((first + second).drop_last() =~= first + second.drop_last());
        lemma_after_events_concat(client, first, second.drop_last());
    }
}

/// One event, or none.
pub proof fn lemma_after_one(client: ClientModel, event: Option<Option<EventModel>>)
    ensures
        client.after_events(crate::codex_mapper::one_or_none(event)) == match event {
            Some(inner) => client.after_event(Ok(inner)),
            None => Some(client),
        },
{
    reveal_with_fuel(ClientModel::after_events, 2);
    let events = crate::codex_mapper::one_or_none(event);
    if events.len() > 0 {
        assert(events.drop_last() =~= seq![]);
    }
}

/// A client follows what is shown of an item.
proof fn lemma_showing(
    mapper: MapperModel,
    client: ClientModel,
    item_id: Seq<char>,
    shown: Option<(CodexMessageKind, Seq<char>)>,
)
    requires
        in_step(mapper, client),
    ensures
        ({
            let (next, event) = mapper.showing(item_id, shown);
            &&& client.after_events(crate::codex_mapper::one_or_none(event)) matches Some(after)
            &&& in_step(next, after)
        }),
{
    let (next, event) = mapper.showing(item_id, shown);
    lemma_after_one(client, event);
    if let Some((kind, text)) = shown {
        set_messages_have_the_text(mapper, client, item_id, kind, text);
    }
}

/// A client follows the items that a completed turn lists.
proof fn lemma_reconciling(mapper: MapperModel, client: ClientModel, items: Seq<Json>)
    requires
        in_step(mapper, client),
    ensures
        ({
            let (next, events) = mapper.reconciling(items);
            &&& client.after_events(events) matches Some(after)
            &&& in_step(next, after)
        }),
    decreases items.len(),
{
    if items.len() > 0 {
        lemma_reconciling(mapper, client, items.drop_last());
        let (between, events) = mapper.reconciling(items.drop_last());
        let reached = client.after_events(events)->0;
        let item = items.last();
        let (next, event) = between.reconciling_item(item);
        lemma_after_events_concat(client, events, crate::codex_mapper::one_or_none(event));
        if let (Some(item_id), Some(text)) = (item.text_at("id"@), item.text_at("text"@)) {
            lemma_showing(
                between,
                reached,
                item_id,
                Some((CodexMessageKind::AgentOutput, text)),
            );
        }
        lemma_after_one(reached, None);
    }
}

/// A client follows a notification about an item.
proof fn lemma_item_notified(
    mapper: MapperModel,
    client: ClientModel,
    method: Seq<char>,
    params: Json,
)
    requires
        in_step(mapper, client),
    ensures
        mapper.item_notified(method, params) matches Ok((next, event)) ==> {
            &&& client.after_events(crate::codex_mapper::one_or_none(event)) matches Some(after)
            &&& in_step(next, after)
        },
{
    lemma_after_one(client, None);
    if let Ok((next, event)) = mapper.item_notified(method, params) {
        lemma_after_one(client, event);
        if let Ok((item_id, delta)) = crate::codex_mapper::delta_of(params) {
            appended_messages_grow(
                mapper,
                client,
                item_id,
                CodexMessageKind::AgentOutput,
                delta,
            );
            let index = match params.i64_at("summaryIndex"@) {
                Some(index) => index as int,
                None => 0,
            };
            appended_messages_grow(
                mapper,
                client,
                item_id + "-summary-"@ + crate::text::decimal(index),
                CodexMessageKind::AgentReasoning,
                delta,
            );
            let (counted, shown) = mapper.showing_output(item_id, delta);
            if let Some(text) = shown {
                appended_messages_grow(
                    counted,
                    client,
                    item_id,
                    CodexMessageKind::AgentReasoning,
                    text,
                );
            }
        }
        if let Some(item) = params.get("item"@) {
            if let (Some(item_type), Some(item_id)) = (item.text_at("type"@), item.text_at("id"@)) {
                let started = match crate::codex_mapper::started_text(item_type, item) {
                    Some(text) => Some((CodexMessageKind::AgentReasoning, text)),
                    None => None,
                };
                lemma_showing(mapper, client, item_id, started);
                lemma_showing(
                    mapper,
                    client,
                    item_id,
                    crate::codex_mapper::completed_text(item_type, item),
                );
            }
        }
        if let (Some(turn_id), Some(entries)) = (
            mapper.plan_turn(params),
            params.array_at("plan"@),
        ) {
            lemma_showing(
                mapper,
                client,
                "codex-plan-"@ + turn_id,
                Some((CodexMessageKind::AgentReasoning, crate::codex_mapper::plan_text(entries))),
            );
        }
    }
}

/// A client that has followed a turn so far can follow every further notification:
/// the root task is created once, before anything is put into it; every message is
/// added once, and only changed after that.
pub proof fn clients_follow_notifications(mapper: MapperModel, client: ClientModel, message: Json)
    requires
        in_step(mapper, client),
    ensures
        mapper.notified(message) matches Ok(mapped) ==> {
            &&& client.after_events(mapped.events) matches Some(after)
            &&& in_step(mapped.mapper, after)
        },
{
    let params = message.get_or_null("params"@);
    if let Some(method) = message.text_at("method"@) {
        lemma_item_notified(mapper, client, method, params);
        let turn = params.get_or_null("turn"@);
        let items = match turn.array_at("items"@) {
            Some(items) => items,
            None => seq![],
        };
        lemma_reconciling(mapper, client, items);
        let (between, events) = mapper.reconciling(items);
        let last = between.ending(turn).1;
        assert(events.push(last).drop_last() =~= events);
    }
}

/// A whole turn: the mapper after a list of notifications and what is delivered on
/// the way, up to the first that is an error.
pub open spec fn turn(mapper: MapperModel, messages: Seq<Json>) -> Option<
    (MapperModel, Seq<CodexEventModel>),
>
    decreases messages.len(),
{
    if messages.len() == 0 {
        Some((mapper, seq![]))
    } else {
        match turn(mapper, messages.drop_last()) {
            Some((between, events)) => match between.notified(messages.last()) {
                Ok(mapped) => Some((mapped.mapper, events + mapped.events)),
                Err(_) => None,
            },
            None => None,
        }
    }
}

/// A client can follow a whole turn from its start, whatever the app-server says. It
/// starts with the root task where the turn does not create it, and without any
/// message of the turn.
pub proof fn clients_follow_turns(
    task_id: Seq<char>,
    thread_id: Seq<char>,
    request_id: Seq<char>,
    create_root_task: bool,
    messages: Seq<Json>,
)
    ensures
        ({
            let start = MapperModel::initial(task_id, thread_id, request_id, create_root_task);
            let client = ClientModel {
                root_id: task_id,
                has_root: !create_root_task,
                messages: Map::empty(),
            };
            turn(start, messages) matches Some((mapper, events)) ==> {
                &&& client.after_events(events) matches Some(after)
                &&& in_step(mapper, after)
            }
        }),
    decreases messages.len(),
{
    let start = MapperModel::initial(task_id, thread_id, request_id, create_root_task);
    let client = ClientModel {
        root_id: task_id,
        has_root: !create_root_task,
        messages: Map::empty(),
    };
    if messages.len() == 0 {
        assert(client.messages.dom() =~= start.message_kinds.dom());
    } else {
        clients_follow_turns(
            task_id,
            thread_id,
            request_id,
            create_root_task,
            messages.drop_last(),
        );
        if let Some((between, events)) = turn(start, messages.drop_last()) {
            let reached = client.after_events(events)->0;
            clients_follow_notifications(between, reached, messages.last());
            if let Ok(mapped) = between.notified(messages.last()) {
                lemma_after_events_concat(client, events, mapped.events);
            }
        }
    }
}

/// The text of a completed item is authoritative: it replaces whatever was streamed.
pub proof fn completed_items_are_authoritative(
    mapper: MapperModel,
    client: ClientModel,
    params: Json,
    item: Json,
    item_type: Seq<char>,
    item_id: Seq<char>,
    kind: CodexMessageKind,
    text: Seq<char>,
)
    requires
        in_step(mapper, client),
        params.get("item"@) == Some(item),
        item.text_at("type"@) == Some(item_type),
        item.text_at("id"@) == Some(item_id),
        crate::codex_mapper::completed_text(item_type, item) == Some((kind, text)),
    ensures
        mapper.completing(params) matches Ok((_, Some(event))) && (client.after_event(
            Ok(event),
        ) matches Some(after) && after.text(item_id, kind.path()) == text),
{
    set_messages_have_the_text(mapper, client, item_id, kind, text);
}

/// Deltas of the agent's message add up.
pub proof fn streamed_deltas_add_up(
    mapper: MapperModel,
    client: ClientModel,
    params: Json,
    item_id: Seq<char>,
    delta: Seq<char>,
)
    requires
        in_step(mapper, client),
        params.text_at("itemId"@) == Some(item_id),
        params.text_at("delta"@) == Some(delta),
    ensures
        mapper.streaming(params, CodexMessageKind::AgentOutput) matches Ok((_, Some(event))) && (
        client.after_event(Ok(event)) matches Some(after) && after.text(
            item_id,
            CodexMessageKind::AgentOutput.path(),
        ) == client.text(item_id, CodexMessageKind::AgentOutput.path()) + delta),
{
    appended_messages_grow(mapper, client, item_id, CodexMessageKind::AgentOutput, delta);
}

/// Whether an event ends a response, with a failure or without.
pub open spec fn is_end(event: CodexEventModel) -> bool {
    event is Err || (event matches Ok(Some(inner)) && inner is Finished)
}

/// Events about messages end nothing.
proof fn lemma_reconciling_ends_nothing(mapper: MapperModel, items: Seq<Json>)
    ensures
        forall|i: int|
            0 <= i < mapper.reconciling(items).1.len() ==> !is_end(
                #[trigger] mapper.reconciling(items).1[i],
            ),
    decreases items.len(),
{
    if items.len() > 0 {
        lemma_reconciling_ends_nothing(mapper, items.drop_last());
        let (between, before) = mapper.reconciling(items.drop_last());
        let events = mapper.reconciling(items).1;
        assert forall|i: int| 0 <= i < events.len() implies !is_end(#[trigger] events[i]) by {
            if i < before.len() {
                assert(events[i] == before[i]);
            }
        }
    }
}

/// The turn is over on the notification that says so, and on no other. That one
/// delivers one event that ends the response, after everything else; no other
/// delivers such an event, nor more than one event at all.
pub proof fn turns_end_once(mapper: MapperModel, message: Json)
    ensures
        mapper.notified(message) matches Ok(mapped) ==> {
            &&& mapped.completed <==> message.text_at("method"@) == Some("turn/completed"@)
            &&& mapped.completed ==> mapped.events.len() > 0 && is_end(mapped.events.last())
            &&& !mapped.completed ==> mapped.events.len() <= 1
            &&& forall|i: int|
                0 <= i < mapped.events.len() && is_end(#[trigger] mapped.events[i])
                    ==> mapped.completed && i == mapped.events.len() - 1
        },
{
    let turn = message.get_or_null("params"@).get_or_null("turn"@);
    let items = match turn.array_at("items"@) {
        Some(items) => items,
        None => seq![],
    };
    lemma_reconciling_ends_nothing(mapper, items);
    assert("turn/started"@ != "turn/completed"@ && "error"@ != "turn/completed"@) by {
        reveal_strlit("turn/started");
        reveal_strlit("turn/completed");
        reveal_strlit("error");
        assert("turn/started"@.len() != "turn/completed"@.len());
    }
}

/// The items that a completed turn lists change nothing but what has been told.
proof fn lemma_reconciling_keeps(mapper: MapperModel, items: Seq<Json>)
    ensures
        ({
            let next = mapper.reconciling(items).0;
            &&& next.task_id == mapper.task_id
            &&& next.thread_id == mapper.thread_id
            &&& next.request_id == mapper.request_id
        }),
    decreases items.len(),
{
    if items.len() > 0 {
        lemma_reconciling_keeps(mapper, items.drop_last());
    }
}

/// A turn stays in its task and its thread, and its response keeps its name.
pub proof fn turns_keep_their_names(mapper: MapperModel, message: Json)
    ensures
        mapper.notified(message) matches Ok(mapped) ==> {
            &&& mapped.mapper.task_id == mapper.task_id
            &&& mapped.mapper.thread_id == mapper.thread_id
            &&& mapped.mapper.request_id == mapper.request_id
        },
{
    let turn = message.get_or_null("params"@).get_or_null("turn"@);
    let items = match turn.array_at("items"@) {
        Some(items) => items,
        None => seq![],
    };
    lemma_reconciling_keeps(mapper, items);
}

/// A notification with a method that is not known is skipped.
pub proof fn unknown_notifications_are_skipped(mapper: MapperModel, message: Json)
    requires
        message.text_at("method"@) matches Some(method) ==> {
            &&& method != "turn/started"@
            &&& method != "item/agentMessage/delta"@
            &&& method != "item/reasoning/summaryTextDelta"@
            &&& method != "item/commandExecution/outputDelta"@
            &&& method != "item/started"@
            &&& method != "item/completed"@
            &&& method != "turn/plan/updated"@
            &&& method != "error"@
            &&& method != "turn/completed"@
        },
    ensures
        mapper.notified(message) == Ok::<Mapped, NotificationError>(
            (Mapped { mapper, events: seq![], completed: false }),
        ),
{
}

/// The mapper after commands have written output, piece by piece: each piece with the
/// item that it belongs to.
pub open spec fn after_output(mapper: MapperModel, pieces: Seq<(Seq<char>, Seq<char>)>) -> MapperModel
    decreases pieces.len(),
{
    if pieces.len() == 0 {
        mapper
    } else {
        let (item_id, piece) = pieces.last();
        after_output(mapper, pieces.drop_last()).showing_output(item_id, piece).0
    }
}

/// Everything that is shown of one item's output, in order.
pub open spec fn output_shown(
    mapper: MapperModel,
    pieces: Seq<(Seq<char>, Seq<char>)>,
    item_id: Seq<char>,
) -> Seq<char>
    decreases pieces.len(),
{
    if pieces.len() == 0 {
        seq![]
    } else {
        let before = output_shown(mapper, pieces.drop_last(), item_id);
        let (id, piece) = pieces.last();
        match after_output(mapper, pieces.drop_last()).showing_output(id, piece).1 {
            Some(text) if id == item_id => before + text,
            _ => before,
        }
    }
}

/// All of one item's output, in order.
pub open spec fn output_written(pieces: Seq<(Seq<char>, Seq<char>)>, item_id: Seq<char>) -> Seq<char>
    decreases pieces.len(),
{
    if pieces.len() == 0 {
        seq![]
    } else if pieces.last().0 == item_id {
        output_written(pieces.drop_last(), item_id) + pieces.last().1
    } else {
        output_written(pieces.drop_last(), item_id)
    }
}

/// Whether the limit falls inside the given piece of an item's output: there is room
/// left before it, but not for all of it.
pub open spec fn is_cut(
    pieces: Seq<(Seq<char>, Seq<char>)>,
    item_id: Seq<char>,
    index: int,
) -> bool {
    &&& 0 <= index < pieces.len()
    &&& pieces[index].0 == item_id
    &&& crate::text::byte_len(output_written(pieces.take(index), item_id))
        < CODEX_MAX_COMMAND_OUTPUT_BYTES < crate::text::byte_len(
        output_written(pieces.take(index + 1), item_id),
    )
}

/// The note that stands where output was cut; nothing where none was.
pub open spec fn note_if(cut: bool) -> Seq<char> {
    if cut {
        "\n…command output truncated…\n"@
    } else {
        seq![]
    }
}

/// What is written does not get shorter.
proof fn lemma_output_grows(pieces: Seq<(Seq<char>, Seq<char>)>, item_id: Seq<char>, index: int)
    requires
        0 <= index <= pieces.len(),
    ensures
        crate::text::byte_len(output_written(pieces.take(index), item_id))
            <= crate::text::byte_len(output_written(pieces, item_id)),
    decreases pieces.len(),
{
    if index == pieces.len() {
        assert(pieces.take(index) =~= pieces);
    } else {
        let before = pieces.drop_last();
        lemma_output_grows(before, item_id, index);
        assert(before.take(index) =~= pieces.take(index));
        crate::text::lemma_byte_len_concat(output_written(before, item_id), pieces.last().1);
    }
}

/// The pieces of an item's output that are cut, before and after one more piece.
proof fn lemma_cut_in_last(pieces: Seq<(Seq<char>, Seq<char>)>, item_id: Seq<char>)
    requires
        pieces.len() > 0,
    ensures
        (exists|i: int| is_cut(pieces, item_id, i)) <==> (exists|i: int|
            is_cut(pieces.drop_last(), item_id, i)) || is_cut(pieces, item_id, pieces.len() - 1),
{
    let before = pieces.drop_last();
    let n = before.len() as int;
    assert forall|i: int| 0 <= i < n implies is_cut(pieces, item_id, i) == is_cut(
        before,
        item_id,
        i,
    ) by {
        assert(before.take(i) =~= pieces.take(i));
        assert(before.take(i + 1) =~= pieces.take(i + 1));
    }
    if exists|i: int| is_cut(pieces, item_id, i) {
        let i = choose|i: int| is_cut(pieces, item_id, i);
        if i < n {
            assert(is_cut(before, item_id, i));
        }
    }
    if exists|i: int| is_cut(before, item_id, i) {
        let i = choose|i: int| is_cut(before, item_id, i);
        assert(is_cut(pieces, item_id, i));
    }
}

/// What is shown of a command's output is the longest prefix that fits the limit,
/// however the output comes in pieces and whatever other commands write in between.
/// One note follows, exactly where the limit falls inside a piece, and nothing comes
/// after it.
pub proof fn command_output_is_cut_at_the_limit(
    mapper: MapperModel,
    pieces: Seq<(Seq<char>, Seq<char>)>,
    item_id: Seq<char>,
)
    requires
        mapper.shown_bytes(item_id) == 0,
    ensures
        output_shown(mapper, pieces, item_id) == crate::text::truncated(
            output_written(pieces, item_id),
            CODEX_MAX_COMMAND_OUTPUT_BYTES as nat,
        ) + note_if(exists|i: int| is_cut(pieces, item_id, i)),
        ({
            let total = crate::text::byte_len(output_written(pieces, item_id));
            after_output(mapper, pieces).shown_bytes(item_id) == if total
                <= CODEX_MAX_COMMAND_OUTPUT_BYTES {
                total
            } else {
                CODEX_MAX_COMMAND_OUTPUT_BYTES as nat
            }
        }),
    decreases pieces.len(),
{
    let limit = CODEX_MAX_COMMAND_OUTPUT_BYTES as nat;
    let empty = Seq::<char>::empty();
    if pieces.len() == 0 {
        crate::text::lemma_byte_len_concat(empty, empty);
        assert(empty + empty =~= empty);
    } else {
        let earlier = pieces.drop_last();
        let last = pieces.len() - 1;
        command_output_is_cut_at_the_limit(mapper, earlier, item_id);
        lemma_cut_in_last(pieces, item_id);
        assert(pieces.take(last) =~= earlier);
        assert(pieces.take(last + 1) =~= pieces);
        let head = output_written(earlier, item_id);
        let (id, tail) = pieces.last();
        let before = output_shown(mapper, earlier, item_id);
        if id == item_id {
            crate::text::lemma_byte_len_concat(head, tail);
            crate::text::lemma_truncated_concat(head, tail, limit);
            if crate::text::byte_len(head) <= limit {
                lemma_nothing_cut(earlier, item_id);
                let room = (limit - crate::text::byte_len(head)) as nat;
                let kept = crate::text::truncated(tail, room);
                crate::text::truncation_keeps_the_longest_fitting_prefix(head, limit);
                crate::text::truncation_keeps_the_longest_fitting_prefix(tail, room);
                assert(before =~= head);
                if room == 0 {
                    crate::text::lemma_empty_when_no_bytes(kept);
                    assert(head + kept =~= head);
                } else if crate::text::byte_len(tail) > room {
                    assert(is_cut(pieces, item_id, last));
                    assert(before + (kept + note_if(true)) =~= (head + kept) + note_if(true));
                } else {
                    assert(before + tail =~= (head + tail) + note_if(false));
                }
            }
        }
    }
}

/// Nothing is cut of an output that fits the limit.
proof fn lemma_nothing_cut(pieces: Seq<(Seq<char>, Seq<char>)>, item_id: Seq<char>)
    requires
        crate::text::byte_len(output_written(pieces, item_id)) <= CODEX_MAX_COMMAND_OUTPUT_BYTES,
    ensures
        !exists|i: int| is_cut(pieces, item_id, i),
{
    assert forall|i: int| !is_cut(pieces, item_id, i) by {
        if 0 <= i < pieces.len() {
            lemma_output_grows(pieces, item_id, i + 1);
        }
    }
}

/// The items that a completed turn lists show no output.
proof fn lemma_reconciling_shows_no_output(mapper: MapperModel, items: Seq<Json>)
    ensures
        mapper.reconciling(items).0.command_output_bytes == mapper.command_output_bytes,
    decreases items.len(),
{
    if items.len() > 0 {
        lemma_reconciling_shows_no_output(mapper, items.drop_last());
    }
}

/// Only a piece of command output counts towards a limit; every other notification
/// leaves what has been shown of every command as it is.
pub proof fn only_output_counts(mapper: MapperModel, message: Json)
    requires
        message.text_at("method"@) != Some("item/commandExecution/outputDelta"@),
    ensures
        mapper.notified(message) matches Ok(mapped) ==> mapped.mapper.command_output_bytes
            == mapper.command_output_bytes,
{
    let turn = message.get_or_null("params"@).get_or_null("turn"@);
    let items = match turn.array_at("items"@) {
        Some(items) => items,
        None => seq![],
    };
    lemma_reconciling_shows_no_output(mapper, items);
}

/// The prompt of a session is the latest of the user's queries.
pub proof fn prompts_are_the_latest_query(input: Seq<Option<String>>)
    ensures
        match crate::codex_session::last_query(input) {
            Some(prompt) => exists|i: int|
                0 <= i < input.len() && (#[trigger] input[i] matches Some(query) && query@ == prompt)
                    && forall|j: int| i < j < input.len() ==> #[trigger] input[j] is None,
            None => forall|j: int| 0 <= j < input.len() ==> #[trigger] input[j] is None,
        },
    decreases input.len(),
{
    if input.len() > 0 {
        let n = input.len() - 1;
        if input[n] is None {
            let rest = input.drop_last();
            prompts_are_the_latest_query(rest);
            if let Some(prompt) = crate::codex_session::last_query(rest) {
                let i = choose|i: int|
                    0 <= i < rest.len() && (#[trigger] rest[i] matches Some(query) && query@
                        == prompt) && forall|j: int|
                        i < j < rest.len() ==> #[trigger] rest[j] is None;
                assert(input[i] == rest[i]);
                assert forall|j: int| i < j < input.len() implies #[trigger] input[j] is None by {
                    if j < n {
                        assert(rest[j] is None);
                    }
                }
            } else {
                assert forall|j: int| 0 <= j < input.len() implies #[trigger] input[j] is None by {
                    if j < n {
                        assert(rest[j] is None);
                    }
                }
            }
        } else {
            assert(input[n] matches Some(query) && query@ == crate::codex_session::last_query(input)->0);
        }
    }
}

/// A session that is over does nothing more.
pub proof fn finished_sessions_are_silent(
    session: SessionModel,
    message: Json,
    line: Seq<char>,
    fresh: u128,
)
    requires
        session.phase is Finished,
    ensures
        session.message_step(message, fresh) == session.idle(),
        session.line_step(line, fresh) == session.idle(),
        session.cancel_step() == session.idle(),
        session.end_step() == session.idle(),
{
}

/// An error ends the session.
pub proof fn errors_finish_sessions(
    session: SessionModel,
    message: Json,
    line: Seq<char>,
    fresh: u128,
)
    ensures
        session.message_step(message, fresh).1 is Err ==> session.message_step(
            message,
            fresh,
        ).0.phase is Finished,
        session.line_step(line, fresh).1 is Err ==> session.line_step(line, fresh).0.phase is
            Finished,
        session.cancel_step().1 is Err ==> session.cancel_step().0.phase is Finished,
        session.end_step().1 is Err ==> session.end_step().0.phase is Finished,
{
}

/// During the handshake, whatever is not the answer that is waited for is skipped.
pub proof fn handshakes_wait_for_their_answer(session: SessionModel, message: Json, fresh: u128)
    requires
        session.phase is Initializing ==> message.i64_at("id"@) != Some(
            CODEX_INITIALIZE_REQUEST_ID,
        ),
        session.phase is OpeningThread ==> message.i64_at("id"@) != Some(CODEX_THREAD_REQUEST_ID),
        session.phase is Initializing || session.phase is OpeningThread,
    ensures
        session.message_step(message, fresh) == session.idle(),
{
}

/// Cancelling a running turn is no error and delivers nothing. The app-server is
/// asked to interrupt the turn where the turn is known, and stopped in any case.
pub proof fn running_turns_are_cancelled_quietly(session: SessionModel, mapper: MapperModel)
    requires
        session.phase == PhaseModel::Running(mapper),
    ensures
        session.cancel_step().0.phase is Finished,
        session.cancel_step().1 matches Ok(steps) && steps.last() is Kill && (mapper.turn_id is Some
            <==> steps[0] is TrySend) && forall|i: int|
            0 <= i < steps.len() ==> !(#[trigger] steps[i] is Deliver),
{
}

/// The events among steps, in order.
pub open spec fn delivered(steps: Seq<StepModel>) -> Seq<CodexEventModel>
    decreases steps.len(),
{
    if steps.len() == 0 {
        seq![]
    } else {
        let before = delivered(steps.drop_last());
        match steps.last() {
            StepModel::Deliver(event) => before.push(event),
            _ => before,
        }
    }
}

/// A session and what it has delivered, through a list of messages, each with the
/// random identifier that is drawn on it.
pub open spec fn conversation(session: SessionModel, messages: Seq<(Json, u128)>) -> (
    SessionModel,
    Seq<CodexEventModel>,
)
    decreases messages.len(),
{
    if messages.len() == 0 {
        (session, seq![])
    } else {
        let (between, before) = conversation(session, messages.drop_last());
        let (message, fresh) = messages.last();
        let (after, outcome) = between.message_step(message, fresh);
        (
            after,
            match outcome {
                Ok(steps) => before + delivered(steps),
                Err(_) => before,
            },
        )
    }
}

/// Whether an event opens a response.
pub open spec fn is_opening(event: CodexEventModel) -> bool {
    event matches Ok(Some(inner)) && inner is Init
}

/// What is delivered by steps that deliver.
proof fn lemma_delivered(events: Seq<CodexEventModel>)
    ensures
        delivered(crate::codex_session::deliveries(events)) == events,
        delivered(crate::codex_session::deliveries(events).push(StepModel::Kill)) == events,
    decreases events.len(),
{
    let steps = crate::codex_session::deliveries(events);
    if events.len() > 0 {
        lemma_delivered(events.drop_last());
        assert(steps.drop_last() =~= crate::codex_session::deliveries(events.drop_last()));
        assert(events.drop_last().push(events.last()) =~= events);
    } else {
        assert(steps =~= seq![]);
    }
    assert(steps.push(StepModel::Kill).drop_last() =~= steps);
}

/// Events about messages open nothing.
proof fn lemma_notified_opens_nothing(mapper: MapperModel, message: Json)
    ensures
        mapper.notified(message) matches Ok(mapped) ==> forall|i: int|
            0 <= i < mapped.events.len() ==> !is_opening(#[trigger] mapped.events[i]),
{
    let turn = message.get_or_null("params"@).get_or_null("turn"@);
    let items = match turn.array_at("items"@) {
        Some(items) => items,
        None => seq![],
    };
    lemma_reconciling_opens_nothing(mapper, items);
}

/// Events about listed items open nothing.
proof fn lemma_reconciling_opens_nothing(mapper: MapperModel, items: Seq<Json>)
    ensures
        forall|i: int|
            0 <= i < mapper.reconciling(items).1.len() ==> !is_opening(
                #[trigger] mapper.reconciling(items).1[i],
            ),
    decreases items.len(),
{
    if items.len() > 0 {
        lemma_reconciling_opens_nothing(mapper, items.drop_last());
        let (between, before) = mapper.reconciling(items.drop_last());
        let events = mapper.reconciling(items).1;
        assert forall|i: int| 0 <= i < events.len() implies !is_opening(#[trigger] events[i]) by {
            if i < before.len() {
                assert(events[i] == before[i]);
            }
        }
    }
}

/// Whether a response so far fits the phase: nothing during the handshake; then the
/// opening, what comes of the turn, and at most one end, last.
pub open spec fn fits(phase: PhaseModel, events: Seq<CodexEventModel>) -> bool {
    &&& phase is Initializing || phase is OpeningThread ==> events.len() == 0
    &&& phase is Running ==> events.len() > 0
    &&& forall|i: int|
        0 <= i < events.len() ==> (is_opening(#[trigger] events[i]) <==> i == 0)
    &&& forall|i: int|
        0 <= i < events.len() && is_end(#[trigger] events[i]) ==> phase is Finished && i
            == events.len() - 1
}

/// Whatever the app-server says, what a session delivers is a response: its opening
/// first, and at most one end, after which nothing comes.
pub proof fn sessions_deliver_responses(session: SessionModel, messages: Seq<(Json, u128)>)
    requires
        session.phase is Initializing,
    ensures
        fits(conversation(session, messages).0.phase, conversation(session, messages).1),
    decreases messages.len(),
{
    if messages.len() > 0 {
        sessions_deliver_responses(session, messages.drop_last());
        let (between, before) = conversation(session, messages.drop_last());
        let (message, fresh) = messages.last();
        let (after, outcome) = between.message_step(message, fresh);
        let events = conversation(session, messages).1;
        reveal_with_fuel(delivered, 3);
        match between.phase {
            PhaseModel::Running(mapper) => {
                if message.i64_at("id"@) != Some(CODEX_TURN_REQUEST_ID) {
                    lemma_notified_opens_nothing(mapper, message);
                    turns_end_once(mapper, message);
                    if let Ok(mapped) = mapper.notified(message) {
                        lemma_delivered(mapped.events);
                        assert(events == before + mapped.events);
                        assert forall|i: int| 0 <= i < events.len() implies (is_opening(
                            #[trigger] events[i],
                        ) <==> i == 0) by {
                            if i < before.len() {
                                assert(events[i] == before[i]);
                            } else {
                                assert(events[i] == mapped.events[i - before.len()]);
                            }
                        }
                        assert forall|i: int|
                            0 <= i < events.len() && is_end(
                                #[trigger] events[i],
                            ) implies after.phase is Finished && i == events.len() - 1 by {
                            if i < before.len() {
                                assert(events[i] == before[i]);
                            } else {
                                assert(events[i] == mapped.events[i - before.len()]);
                            }
                        }
                    }
                } else {
                    assert(outcome matches Ok(steps) ==> steps.len() == 0);
                    assert(events =~= before);
                }
            },
            PhaseModel::OpeningThread => {
                if let Ok(steps) = outcome {
                    if steps.len() > 0 {
                        assert(steps.drop_last() =~= seq![steps[0]]);
                        assert(seq![steps[0]].drop_last() =~= seq![]);
                        assert(delivered(steps) =~= seq![steps[0]->Deliver_0]);
                        assert(events =~= seq![steps[0]->Deliver_0]);
                    } else {
                        assert(events =~= before);
                    }
                }
            },
            PhaseModel::Initializing => {
                if let Ok(steps) = outcome {
                    if steps.len() > 0 {
                        assert(steps.drop_last() =~= seq![steps[0]]);
                        assert(seq![steps[0]].drop_last() =~= seq![]);
                    }
                    assert(delivered(steps) =~= seq![]);
                    assert(events =~= before);
                }
            },
            PhaseModel::Finished => {
                assert(events =~= before);
            },
        }
    }
}

/// The requests among steps, in order.
pub open spec fn sent(steps: Seq<StepModel>) -> Seq<RequestModel>
    decreases steps.len(),
{
    if steps.len() == 0 {
        seq![]
    } else {
        let before = sent(steps.drop_last());
        match steps.last() {
            StepModel::Send(request) => before.push(request),
            _ => before,
        }
    }
}

/// A session and what it has sent since it asked for the initialization, through a
/// list of messages.
pub open spec fn requests(session: SessionModel, messages: Seq<(Json, u128)>) -> (
    SessionModel,
    Seq<RequestModel>,
)
    decreases messages.len(),
{
    if messages.len() == 0 {
        (session, seq![])
    } else {
        let (between, before) = requests(session, messages.drop_last());
        let (message, fresh) = messages.last();
        let (after, outcome) = between.message_step(message, fresh);
        (
            after,
            match outcome {
                Ok(steps) => before + sent(steps),
                Err(_) => before,
            },
        )
    }
}

/// The requests that open the thread.
pub open spec fn opening_requests(session: SessionModel) -> Seq<RequestModel> {
    seq![RequestModel::Initialized, session.thread_request()]
}

/// The request for the turn in a thread.
pub open spec fn turn_request(session: SessionModel, thread_id: Seq<char>) -> RequestModel {
    RequestModel::StartTurn { thread_id, prompt: session.prompt, cwd: session.cwd }
}

/// Deliveries send nothing.
proof fn lemma_deliveries_send_nothing(events: Seq<CodexEventModel>)
    ensures
        sent(crate::codex_session::deliveries(events)) == Seq::<RequestModel>::empty(),
        sent(crate::codex_session::deliveries(events).push(StepModel::Kill)) == Seq::<
            RequestModel,
        >::empty(),
    decreases events.len(),
{
    let steps = crate::codex_session::deliveries(events);
    if events.len() > 0 {
        lemma_deliveries_send_nothing(events.drop_last());
        assert(steps.drop_last() =~= crate::codex_session::deliveries(events.drop_last()));
    } else {
        assert(steps =~= seq![]);
    }
    assert(steps.push(StepModel::Kill).drop_last() =~= steps);
}

/// Whatever the app-server says, a session asks for the thread once, after it was
/// initialized, and for the turn once, with the prompt, in the thread that was opened.
pub proof fn sessions_ask_in_order(session: SessionModel, messages: Seq<(Json, u128)>)
    requires
        session.phase is Initializing,
    ensures
        ({
            let (reached, asked) = requests(session, messages);
            let opening = opening_requests(session);
            &&& reached == session.in_phase(reached.phase)
            &&& match reached.phase {
                PhaseModel::Initializing => asked.len() == 0,
                PhaseModel::OpeningThread => asked == opening,
                PhaseModel::Running(mapper) => asked == opening.push(
                    turn_request(session, mapper.thread_id),
                ),
                PhaseModel::Finished => {
                    ||| asked.len() == 0
                    ||| asked == opening
                    ||| exists|thread_id: Seq<char>|
                        asked == opening.push(#[trigger] turn_request(session, thread_id))
                },
            }
        }),
    decreases messages.len(),
{
    if messages.len() > 0 {
        sessions_ask_in_order(session, messages.drop_last());
        let (between, before) = requests(session, messages.drop_last());
        let (message, fresh) = messages.last();
        let (after, outcome) = between.message_step(message, fresh);
        let asked = requests(session, messages).1;
        let opening = opening_requests(session);
        reveal_with_fuel(sent, 3);
        if let Ok(steps) = outcome {
            if steps.len() == 0 {
                assert(asked =~= before);
            }
        }
        match between.phase {
            PhaseModel::Running(mapper) => {
                if message.i64_at("id"@) != Some(CODEX_TURN_REQUEST_ID) {
                    turns_keep_their_names(mapper, message);
                    if let Ok(mapped) = mapper.notified(message) {
                        lemma_deliveries_send_nothing(mapped.events);
                        assert(asked =~= before);
                    }
                }
            },
            PhaseModel::OpeningThread => {
                if let Ok(steps) = outcome {
                    if steps.len() > 0 {
                        assert(steps.drop_last() =~= seq![steps[0]]);
                        assert(seq![steps[0]].drop_last() =~= seq![]);
                        assert(asked =~= opening.push(steps[1]->Send_0));
                    }
                }
            },
            PhaseModel::Initializing => {
                if let Ok(steps) = outcome {
                    if steps.len() > 0 {
                        assert(steps.drop_last() =~= seq![steps[0]]);
                        assert(seq![steps[0]].drop_last() =~= seq![]);
                        assert(asked =~= opening);
                    }
                }
            },
            PhaseModel::Finished => {},
        }
    }
}

} // verus!
