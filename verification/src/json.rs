//! JSON values: what the Codex protocol reads from a message and writes into one.
use crate::text::same_text;
use vstd::prelude::*;

verus! {

/// A JSON value as mathematics. Of a number only its value as an `i64` is kept,
/// where it has one.
pub enum Json {
    Null,
    Bool(bool),
    Number(Option<i64>),
    Text(Seq<char>),
    Array(Seq<Json>),
    Object(Map<Seq<char>, Json>),
}

impl Json {
    /// The member of an object under `key`.
    pub open spec fn get(self, key: Seq<char>) -> Option<Json> {
        match self {
            Json::Object(members) if members.contains_key(key) => Some(members[key]),
            _ => None,
        }
    }

    /// The text of a string value.
    pub open spec fn as_text(self) -> Option<Seq<char>> {
        match self {
            Json::Text(text) => Some(text),
            _ => None,
        }
    }

    /// The value of an integer that fits `i64`.
    pub open spec fn as_i64(self) -> Option<i64> {
        match self {
            Json::Number(n) => n,
            _ => None,
        }
    }

    /// The elements of an array.
    pub open spec fn as_array(self) -> Option<Seq<Json>> {
        match self {
            Json::Array(items) => Some(items),
            _ => None,
        }
    }

    /// The text of the string member under `key`.
    pub open spec fn text_at(self, key: Seq<char>) -> Option<Seq<char>> {
        match self.get(key) {
            Some(member) => member.as_text(),
            None => None,
        }
    }

    /// The integer member under `key`.
    pub open spec fn i64_at(self, key: Seq<char>) -> Option<i64> {
        match self.get(key) {
            Some(member) => member.as_i64(),
            None => None,
        }
    }

    /// The elements of the array member under `key`.
    pub open spec fn array_at(self, key: Seq<char>) -> Option<Seq<Json>> {
        match self.get(key) {
            Some(member) => member.as_array(),
            None => None,
        }
    }

    /// The member under `key`, or null.
    pub open spec fn get_or_null(self, key: Seq<char>) -> Json {
        match self.get(key) {
            Some(member) => member,
            None => Json::Null,
        }
    }

    /// The text of the string member under `key`, or `default`.
    pub open spec fn text_or(self, key: Seq<char>, default: Seq<char>) -> Seq<char> {
        match self.text_at(key) {
            Some(text) => text,
            None => default,
        }
    }

    /// The text of the string member under `key` of the member under `outer`.
    pub open spec fn text_under(self, outer: Seq<char>, key: Seq<char>) -> Option<Seq<char>> {
        self.get_or_null(outer).text_at(key)
    }

    /// Whether every number in the value is an integer that fits `i64`.
    pub open spec fn integral(self) -> bool
        decreases self,
    {
        match self {
            Json::Number(n) => n is Some,
            Json::Array(items) => forall|i: int| 0 <= i < items.len() ==> items[i].integral(),
            Json::Object(members) => {
                &&& members.dom().finite()
                &&& forall|key: Seq<char>|
                    members.dom().finite() && #[trigger] members.contains_key(key)
                        ==> members[key].integral()
            },
            _ => true,
        }
    }
}

/// The object with the given members; of several under one key the last one stays.
pub open spec fn object_of(members: Seq<(Seq<char>, Json)>) -> Map<Seq<char>, Json>
    decreases members.len(),
{
    if members.len() == 0 {
        Map::empty()
    } else {
        object_of(members.drop_last()).insert(members.last().0, members.last().1)
    }
}

/// A JSON value.
pub enum JsonValue {
    Null,
    Bool(bool),
    /// A number: its value where it is an integer that fits `i64`.
    Number(Option<i64>),
    Text(String),
    Array(Vec<JsonValue>),
    /// The members; of several under one key the last one counts.
    Object(Vec<(String, JsonValue)>),
}

impl JsonValue {
    /// The value as mathematics.
    pub open spec fn model(self) -> Json
        decreases self, 1nat,
    {
        match self {
            JsonValue::Null => Json::Null,
            JsonValue::Bool(b) => Json::Bool(b),
            JsonValue::Number(n) => Json::Number(n),
            JsonValue::Text(text) => Json::Text(text@),
            JsonValue::Array(items) => Json::Array(
                Seq::new(
                    items@.len(),
                    |i: int|
                        if 0 <= i < items@.len() {
                            items@[i].model()
                        } else {
                            Json::Null
                        },
                ),
            ),
            JsonValue::Object(_) => Json::Object(object_of(self.members())),
        }
    }

    /// The members of an object as mathematics, in their order.
    pub open spec fn members(self) -> Seq<(Seq<char>, Json)>
        decreases self, 0nat,
    {
        match self {
            JsonValue::Object(members) => Seq::new(
                members@.len(),
                |i: int|
                    if 0 <= i < members@.len() {
                        (members@[i].0@, members@[i].1.model())
                    } else {
                        (seq![], Json::Null)
                    },
            ),
            _ => seq![],
        }
    }
}

impl JsonValue {
    /// Whether every number in the value is an integer that fits `i64`.
    pub open spec fn integral(self) -> bool
        decreases self,
    {
        match self {
            JsonValue::Number(n) => n is Some,
            JsonValue::Array(items) => forall|i: int|
                0 <= i < items@.len() ==> (#[trigger] items@[i]).integral(),
            JsonValue::Object(members) => forall|i: int|
                0 <= i < members@.len() ==> (#[trigger] members@[i]).1.integral(),
            _ => true,
        }
    }
}

/// The elements of an array as mathematics.
pub open spec fn models(items: Seq<JsonValue>) -> Seq<Json> {
    Seq::new(items.len(), |i: int| items[i].model())
}

/// The members of an object as mathematics.
pub open spec fn member_models(members: Seq<(String, JsonValue)>) -> Seq<(Seq<char>, Json)> {
    Seq::new(members.len(), |i: int| (members[i].0@, members[i].1.model()))
}

impl View for JsonValue {
    type V = Json;

    open spec fn view(&self) -> Json {
        self.model()
    }
}

/// A member under another key does not change what is found under `key`.
proof fn lemma_last_member_skipped(members: Seq<(Seq<char>, Json)>, key: Seq<char>)
    requires
        members.len() > 0,
        members.last().0 != key,
    ensures
        Json::Object(object_of(members)).get(key) == Json::Object(
            object_of(members.drop_last()),
        ).get(key),
{
}

impl JsonValue {
    /// The model of an array or an object, in terms of the parts' models.
    pub proof fn lemma_model_of_parts(self)
        ensures
            self matches JsonValue::Array(items) ==> self@ == Json::Array(models(items@)),
            self matches JsonValue::Object(members) ==> self@ == Json::Object(
                object_of(member_models(members@)),
            ),
    {
        match self {
            JsonValue::Array(items) => {
                assert(self.model()->Array_0 =~= models(items@));
            },
            JsonValue::Object(members) => {
                assert(self.members() =~= member_models(members@));
            },
            _ => {},
        }
    }

    /// The member of an object under `key`.
    pub fn get(&self, key: &str) -> (member: Option<&JsonValue>)
        ensures
            match member {
                Some(value) => self@.get(key@) == Some(value@),
                None => self@.get(key@) is None,
            },
    {
        proof {
            self.lemma_model_of_parts();
        }
        match self {
            JsonValue::Object(members) => {
                let ghost all = member_models(members@);
                let mut i: usize = members.len();
                proof {
                    assert(all.take(i as int) =~= all);
                }
                while i > 0
                    invariant
                        i <= members@.len(),
                        all == member_models(members@),
                        self@ == Json::Object(object_of(all)),
                        Json::Object(object_of(all.take(i as int))).get(key@) == self@.get(key@),
                    decreases i,
                {
                    let ghost seen = all.take(i as int);
                    proof {
                        assert(seen.drop_last() =~= all.take(i - 1));
                        assert(seen.last() == all[i - 1]);
                    }
                    i = i - 1;
                    if same_text(members[i].0.as_str(), key) {
                        return Some(&members[i].1);
                    }
                    proof {
                        lemma_last_member_skipped(seen, key@);
                    }
                }
                proof {
                    assert(all.take(0) =~= seq![]);
                }
                None
            },
            _ => None,
        }
    }

    /// The text of a string value.
    pub fn as_text(&self) -> (text: Option<&str>)
        ensures
            match text {
                Some(t) => self@.as_text() == Some(t@),
                None => self@.as_text() is None,
            },
    {
        match self {
            JsonValue::Text(text) => Some(text.as_str()),
            _ => None,
        }
    }

    /// The value of an integer that fits `i64`.
    pub fn as_i64(&self) -> (n: Option<i64>)
        ensures
            n == self@.as_i64(),
    {
        match self {
            JsonValue::Number(n) => *n,
            _ => None,
        }
    }

    /// The elements of an array.
    pub fn as_array(&self) -> (items: Option<&Vec<JsonValue>>)
        ensures
            match items {
                Some(list) => self@.as_array() == Some(models(list@)),
                None => self@.as_array() is None,
            },
    {
        proof {
            self.lemma_model_of_parts();
        }
        match self {
            JsonValue::Array(items) => Some(items),
            _ => None,
        }
    }

    /// The text of the string member under `key`.
    pub fn text_at(&self, key: &str) -> (text: Option<&str>)
        ensures
            match text {
                Some(t) => self@.text_at(key@) == Some(t@),
                None => self@.text_at(key@) is None,
            },
    {
        match self.get(key) {
            Some(member) => member.as_text(),
            None => None,
        }
    }

    /// The integer member under `key`.
    pub fn i64_at(&self, key: &str) -> (n: Option<i64>)
        ensures
            n == self@.i64_at(key@),
    {
        match self.get(key) {
            Some(member) => member.as_i64(),
            None => None,
        }
    }

    /// The elements of the array member under `key`.
    pub fn array_at(&self, key: &str) -> (items: Option<&Vec<JsonValue>>)
        ensures
            match items {
                Some(list) => self@.array_at(key@) == Some(models(list@)),
                None => self@.array_at(key@) is None,
            },
    {
        match self.get(key) {
            Some(member) => member.as_array(),
            None => None,
        }
    }

    /// The text of the string member under `key`, or `default`.
    pub fn text_or<'a>(&'a self, key: &str, default: &'a str) -> (text: &'a str)
        ensures
            text@ == self@.text_or(key@, default@),
    {
        match self.text_at(key) {
            Some(text) => text,
            None => default,
        }
    }

    /// The text of the string member under `key` of the member under `outer`.
    pub fn text_under(&self, outer: &str, key: &str) -> (text: Option<&str>)
        ensures
            match text {
                Some(t) => self@.text_under(outer@, key@) == Some(t@),
                None => self@.text_under(outer@, key@) is None,
            },
    {
        match self.get(outer) {
            Some(member) => member.text_at(key),
            None => None,
        }
    }
}

/// The members of an object under construction, all of whose numbers are integers.
pub struct JsonObject {
    pub members: Vec<(String, JsonValue)>,
}

impl JsonObject {
    /// The members so far.
    pub open spec fn parts(self) -> Seq<(Seq<char>, Json)> {
        member_models(self.members@)
    }

    /// Whether every number in the members is an integer that fits `i64`.
    pub open spec fn integral(self) -> bool {
        forall|i: int| 0 <= i < self.members@.len() ==> (#[trigger] self.members@[i]).1.integral()
    }

    /// No members.
    pub fn new() -> (object: Self)
        ensures
            object.parts() == Seq::<(Seq<char>, Json)>::empty(),
            object.integral(),
    {
        let object = JsonObject { members: Vec::new() };
        proof {
            assert(object.parts() =~= Seq::empty());
        }
        object
    }

    /// The members and one more.
    pub fn with(self, key: &str, value: JsonValue) -> (object: Self)
        requires
            self.integral(),
            value.integral(),
        ensures
            object.parts() == self.parts().push((key@, value@)),
            object.integral(),
    {
        let mut members = self.members;
        members.push((key.to_owned(), value));
        let object = JsonObject { members };
        proof {
            assert(object.parts() =~= self.parts().push((key@, value@)));
            assert forall|i: int| 0 <= i < object.members@.len() implies (
            #[trigger] object.members@[i]).1.integral() by {
                if i < self.members@.len() {
                    assert(object.members@[i] == self.members@[i]);
                }
            }
        }
        object
    }

    /// The members and one more, whose value is a text.
    pub fn with_text(self, key: &str, text: &str) -> (object: Self)
        requires
            self.integral(),
        ensures
            object.parts() == self.parts().push((key@, Json::Text(text@))),
            object.integral(),
    {
        self.with(key, JsonValue::Text(text.to_owned()))
    }

    /// The object.
    pub fn build(self) -> (value: JsonValue)
        requires
            self.integral(),
        ensures
            value@ == Json::Object(object_of(self.parts())),
            value.integral(),
    {
        let value = JsonValue::Object(self.members);
        proof {
            value.lemma_model_of_parts();
        }
        value
    }
}

/// `serde_json::Value`, which the library carries from the parser to its own type
/// and from its own type to the encoder.
#[verifier::external_type_specification]
#[verifier::external_body]
pub struct ExValue(serde_json::Value);

/// What a `serde_json::Value` holds: its variant and, at every depth, its elements
/// and members; of a number, what `Number::as_i64` gives.
pub uninterp spec fn json_of(value: serde_json::Value) -> Json;

/// What `serde_json::from_str` makes of a text: a value, or the text of its error.
pub uninterp spec fn parsed_json(text: Seq<char>) -> Result<Json, Seq<char>>;

/// What `serde_json::to_vec` writes for a value whose numbers are all integers: the
/// bytes, or the text of its error.
pub uninterp spec fn encoded_json(value: Json) -> Result<Seq<u8>, Seq<char>>;

/// One level of a `serde_json::Value`.
pub enum JsonNode {
    Null,
    Bool(bool),
    Number(Option<i64>),
    Text(String),
    Array(Vec<serde_json::Value>),
    Object(Vec<(String, serde_json::Value)>),
}

impl JsonNode {
    /// The value that the level and what lies below it make up.
    pub open spec fn model(self) -> Json {
        match self {
            JsonNode::Null => Json::Null,
            JsonNode::Bool(b) => Json::Bool(b),
            JsonNode::Number(n) => Json::Number(n),
            JsonNode::Text(text) => Json::Text(text@),
            JsonNode::Array(items) => Json::Array(node_items(items@)),
            JsonNode::Object(members) => Json::Object(object_of(node_members(members@))),
        }
    }
}

/// The elements below an array node.
pub open spec fn node_items(items: Seq<serde_json::Value>) -> Seq<Json> {
    Seq::new(items.len(), |i: int| json_of(items[i]))
}

/// The members below an object node.
pub open spec fn node_members(members: Seq<(String, serde_json::Value)>) -> Seq<
    (Seq<char>, Json),
> {
    Seq::new(members.len(), |i: int| (members[i].0@, json_of(members[i].1)))
}

/// Whether no two members have the same key.
pub open spec fn distinct_keys(members: Seq<(Seq<char>, Json)>) -> bool {
    forall|i: int, j: int|
        0 <= i < j < members.len() ==> (#[trigger] members[i]).0 != (#[trigger] members[j]).0
}

/// Takes a `serde_json::Value` apart by one level: its variant, with
/// `Number::as_i64` for a number and the entries of `serde_json::Map`, whose keys
/// are distinct, for an object.
#[verifier::external_body]
fn open_value(value: serde_json::Value) -> (node: JsonNode)
    ensures
        node.model() == json_of(value),
        node matches JsonNode::Object(members) ==> distinct_keys(node_members(members@)),
{
    match value {
        serde_json::Value::Null => JsonNode::Null,
        serde_json::Value::Bool(b) => JsonNode::Bool(b),
        serde_json::Value::Number(n) => JsonNode::Number(n.as_i64()),
        serde_json::Value::String(text) => JsonNode::Text(text),
        serde_json::Value::Array(items) => JsonNode::Array(items),
        serde_json::Value::Object(map) => JsonNode::Object(map.into_iter().collect()),
    }
}

/// Puts a `serde_json::Value` together from one level: the variant of the same
/// name, with `serde_json::Map` collecting the members, whose keys are distinct.
#[verifier::external_body]
fn close_value(node: JsonNode) -> (value: serde_json::Value)
    requires
        node matches JsonNode::Number(n) ==> n is Some,
        node matches JsonNode::Object(members) ==> distinct_keys(node_members(members@)),
    ensures
        json_of(value) == node.model(),
{
    match node {
        JsonNode::Null => serde_json::Value::Null,
        JsonNode::Bool(b) => serde_json::Value::Bool(b),
        JsonNode::Number(n) => serde_json::Value::from(n),
        JsonNode::Text(text) => serde_json::Value::String(text),
        JsonNode::Array(items) => serde_json::Value::Array(items),
        JsonNode::Object(members) => serde_json::Value::Object(members.into_iter().collect()),
    }
}

/// Parses a text with `serde_json::from_str`. The result, or the `Display` text of
/// the error, depends on the text alone.
#[verifier::external_body]
fn parse_value(text: &str) -> (result: Result<serde_json::Value, String>)
    ensures
        match result {
            Ok(value) => parsed_json(text@) == Ok::<Json, Seq<char>>(json_of(value)),
            Err(message) => parsed_json(text@) == Err::<Json, Seq<char>>(message@),
        },
{
    serde_json::from_str::<serde_json::Value>(text).map_err(|error| error.to_string())
}

/// Encodes a value with `serde_json::to_vec`. Where every number is an integer the
/// result depends on what the value holds alone. The encoding is compact and
/// escapes control characters, so it holds no line feed.
#[verifier::external_body]
fn encode_value(value: &serde_json::Value) -> (result: Result<Vec<u8>, String>)
    requires
        json_of(*value).integral(),
    ensures
        match result {
            Ok(bytes) => {
                &&& encoded_json(json_of(*value)) == Ok::<Seq<u8>, Seq<char>>(bytes@)
                &&& !bytes@.contains(10u8)
            },
            Err(message) => encoded_json(json_of(*value)) == Err::<Seq<u8>, Seq<char>>(message@),
        },
{
    serde_json::to_vec(value).map_err(|error| error.to_string())
}

/// An object of distinct members has each of them, and no others.
proof fn lemma_object_of_distinct(members: Seq<(Seq<char>, Json)>, i: int)
    requires
        distinct_keys(members),
        0 <= i < members.len(),
    ensures
        object_of(members).contains_key(members[i].0),
        object_of(members)[members[i].0] == members[i].1,
    decreases members.len(),
{
    if i < members.len() - 1 {
        let before = members.drop_last();
        assert(distinct_keys(before)) by {
            assert forall|j: int, k: int| 0 <= j < k < before.len() implies (
            #[trigger] before[j]).0 != (#[trigger] before[k]).0 by {
                assert(members[j].0 != members[k].0);
            }
        }
        lemma_object_of_distinct(before, i);
        assert(members[i].0 != members[members.len() - 1].0);
    }
}

/// An object has finitely many members.
proof fn lemma_object_of_finite(members: Seq<(Seq<char>, Json)>)
    ensures
        object_of(members).dom().finite(),
    decreases members.len(),
{
    if members.len() > 0 {
        lemma_object_of_finite(members.drop_last());
    }
}

/// Converts a parsed value to the library's own type.
fn from_outside(value: serde_json::Value) -> (converted: JsonValue)
    ensures
        converted@ == json_of(value),
    decreases json_of(value),
{
    let ghost whole = json_of(value);
    match open_value(value) {
        JsonNode::Null => JsonValue::Null,
        JsonNode::Bool(b) => JsonValue::Bool(b),
        JsonNode::Number(n) => JsonValue::Number(n),
        JsonNode::Text(text) => JsonValue::Text(text),
        JsonNode::Array(items) => {
            let ghost parts = node_items(items@);
            let mut list: Vec<JsonValue> = Vec::new();
            for item in it: items
                invariant
                    it.seq() == items@,
                    whole == json_of(value),
                    whole == Json::Array(parts),
                    parts == node_items(items@),
                    models(list@) =~= parts.take(it.index() as int),
            {
                proof {
                    assert(parts[it.index() as int] == json_of(item));
                    assert(decreases_to!(whole => whole->Array_0));
                    assert(decreases_to!(whole->Array_0 => whole->Array_0[it.index() as int]));
                }
                list.push(from_outside(item));
                proof {
                    assert(parts.take(it.index() + 1) =~= parts.take(it.index() as int).push(
                        json_of(item),
                    ));
                }
            }
            let result = JsonValue::Array(list);
            proof {
                result.lemma_model_of_parts();
                assert(parts.take(parts.len() as int) =~= parts);
            }
            result
        },
        JsonNode::Object(members) => {
            let ghost parts = node_members(members@);
            let mut list: Vec<(String, JsonValue)> = Vec::new();
            for member in it: members
                invariant
                    it.seq() == members@,
                    whole == json_of(value),
                    whole == Json::Object(object_of(parts)),
                    parts == node_members(members@),
                    distinct_keys(parts),
                    member_models(list@) =~= parts.take(it.index() as int),
            {
                proof {
                    let i = it.index() as int;
                    lemma_object_of_distinct(parts, i);
                    lemma_object_of_finite(parts);
                    assert(parts[i] == (member.0@, json_of(member.1)));
                    assert(decreases_to!(whole => whole->Object_0));
                    assert(decreases_to!(whole->Object_0 => whole->Object_0[parts[i].0]));
                }
                let (key, inner) = member;
                list.push((key, from_outside(inner)));
                proof {
                    let i = it.index() as int;
                    assert(parts.take(i + 1) =~= parts.take(i).push(parts[i]));
                }
            }
            let result = JsonValue::Object(list);
            proof {
                result.lemma_model_of_parts();
                assert(parts.take(parts.len() as int) =~= parts);
            }
            result
        },
    }
}

/// Every member of an object is one of those that it was made of.
proof fn lemma_object_of_source(members: Seq<(Seq<char>, Json)>, key: Seq<char>)
    requires
        object_of(members).contains_key(key),
    ensures
        exists|i: int|
            0 <= i < members.len() && (#[trigger] members[i]).0 == key && object_of(members)[key]
                == members[i].1,
    decreases members.len(),
{
    if members.len() > 0 {
        let n = members.len() - 1;
        if members[n].0 != key {
            let before = members.drop_last();
            lemma_object_of_source(before, key);
            let i = choose|i: int|
                0 <= i < before.len() && (#[trigger] before[i]).0 == key && object_of(before)[key]
                    == before[i].1;
            assert(members[i] == before[i]);
        } else {
            assert(members[n].0 == key);
        }
    }
}

/// A value whose numbers are all integers has a model of which the same is true.
proof fn lemma_integral_model(value: JsonValue)
    requires
        value.integral(),
    ensures
        value@.integral(),
    decreases value,
{
    value.lemma_model_of_parts();
    match value {
        JsonValue::Array(items) => {
            let parts = models(items@);
            assert forall|i: int| 0 <= i < parts.len() implies (#[trigger] parts[i]).integral() by {
                lemma_integral_model(items@[i]);
            }
        },
        JsonValue::Object(members) => {
            let parts = member_models(members@);
            let object = object_of(parts);
            lemma_object_of_finite(parts);
            assert forall|key: Seq<char>| #[trigger] object.contains_key(
                key,
            ) implies object[key].integral() by {
                lemma_object_of_source(parts, key);
                let i = choose|i: int|
                    0 <= i < parts.len() && (#[trigger] parts[i]).0 == key && object[key]
                        == parts[i].1;
                assert(members@[i].1.integral());
                lemma_integral_model(members@[i].1);
            }
        },
        _ => {},
    }
}

/// Replacing the member under a key, where no two members have the same key.
proof fn lemma_replaced_member(members: Seq<(Seq<char>, Json)>, i: int, value: Json)
    requires
        distinct_keys(members),
        0 <= i < members.len(),
    ensures
        distinct_keys(members.update(i, (members[i].0, value))),
        object_of(members.update(i, (members[i].0, value))) == object_of(members).insert(
            members[i].0,
            value,
        ),
    decreases members.len(),
{
    let replaced = members.update(i, (members[i].0, value));
    assert forall|j: int, k: int| 0 <= j < k < replaced.len() implies (
    #[trigger] replaced[j]).0 != (#[trigger] replaced[k]).0 by {
        assert(members[j].0 != members[k].0);
    }
    let before = members.drop_last();
    let last = members.last();
    if i < members.len() - 1 {
        assert forall|j: int, k: int| 0 <= j < k < before.len() implies (
        #[trigger] before[j]).0 != (#[trigger] before[k]).0 by {
            assert(members[j].0 != members[k].0);
        }
        lemma_replaced_member(before, i, value);
        assert(replaced.drop_last() =~= before.update(i, (members[i].0, value)));
        assert(members[i].0 != members[members.len() - 1].0);
        assert(object_of(replaced) =~= object_of(members).insert(members[i].0, value));
    } else {
        assert(replaced.drop_last() =~= before);
        assert(object_of(replaced) =~= object_of(members).insert(members[i].0, value));
    }
}

/// Puts a member into a list of members with distinct keys, in the place of the one
/// under the same key, if there is one.
fn put_member(members: &mut Vec<(String, serde_json::Value)>, key: String, value: serde_json::Value)
    requires
        distinct_keys(node_members(old(members)@)),
    ensures
        distinct_keys(node_members(final(members)@)),
        object_of(node_members(final(members)@)) == object_of(node_members(old(members)@)).insert(
            key@,
            json_of(value),
        ),
{
    let ghost before = node_members(members@);
    let n: usize = members.len();
    for i in 0..n
        invariant
            n == members@.len(),
            members@ == old(members)@,
            before == node_members(members@),
            distinct_keys(before),
            forall|j: int| 0 <= j < i ==> (#[trigger] before[j]).0 != key@,
    {
        if same_text(members[i].0.as_str(), key.as_str()) {
            proof {
                assert(before[i as int].0 == key@);
                lemma_replaced_member(before, i as int, json_of(value));
            }
            members.set(i, (key, value));
            proof {
                assert(node_members(members@) =~= before.update(i as int, (key@, json_of(value))));
            }
            return;
        }
        proof {
            assert(before[i as int].0 == members@[i as int].0@);
        }
    }
    members.push((key, value));
    proof {
        let after = node_members(members@);
        assert(after =~= before.push((key@, json_of(value))));
        assert(after.drop_last() =~= before);
        assert forall|j: int, k: int| 0 <= j < k < after.len() implies (#[trigger] after[j]).0 != (
        #[trigger] after[k]).0 by {
            assert(after[j] == before[j]);
            if k < before.len() {
                assert(after[k] == before[k]);
            }
        }
    }
}

/// Converts one of the library's own values for the encoder.
fn to_outside(value: &JsonValue) -> (converted: serde_json::Value)
    requires
        value.integral(),
    ensures
        json_of(converted) == value@,
    decreases value,
{
    proof {
        value.lemma_model_of_parts();
    }
    match value {
        JsonValue::Null => close_value(JsonNode::Null),
        JsonValue::Bool(b) => close_value(JsonNode::Bool(*b)),
        JsonValue::Number(n) => close_value(JsonNode::Number(*n)),
        JsonValue::Text(text) => close_value(JsonNode::Text(text.clone())),
        JsonValue::Array(items) => {
            let ghost parts = models(items@);
            let mut list: Vec<serde_json::Value> = Vec::new();
            let n: usize = items.len();
            for i in 0..n
                invariant
                    n == items@.len(),
                    forall|k: int|
                        0 <= k < n ==> (#[trigger] items@[k]).integral() && decreases_to!(value => items@[k]),
                    parts == models(items@),
                    node_items(list@) =~= parts.take(i as int),
            {
                proof {
                    assert(parts.take(i + 1) =~= parts.take(i as int).push(parts[i as int]));
                }
                list.push(to_outside(&items[i]));
            }
            proof {
                assert(parts.take(n as int) =~= parts);
            }
            close_value(JsonNode::Array(list))
        },
        JsonValue::Object(members) => {
            let ghost parts = member_models(members@);
            let mut list: Vec<(String, serde_json::Value)> = Vec::new();
            proof {
                assert(node_members(list@) =~= parts.take(0));
            }
            let n: usize = members.len();
            for i in 0..n
                invariant
                    n == members@.len(),
                    forall|k: int|
                        0 <= k < n ==> (#[trigger] members@[k]).1.integral() && decreases_to!(
                            value => members@[k].1),
                    parts == member_models(members@),
                    distinct_keys(node_members(list@)),
                    object_of(node_members(list@)) == object_of(parts.take(i as int)),
            {
                proof {
                    assert(parts.take(i + 1).drop_last() =~= parts.take(i as int));
                    assert(parts.take(i + 1).last() == parts[i as int]);
                }
                put_member(&mut list, members[i].0.clone(), to_outside(&members[i].1));
            }
            proof {
                assert(parts.take(n as int) =~= parts);
            }
            close_value(JsonNode::Object(list))
        },
    }
}

/// Parses a JSON text. The error is the parser's own text.
pub fn parse_json(text: &str) -> (result: Result<JsonValue, String>)
    ensures
        match result {
            Ok(value) => parsed_json(text@) == Ok::<Json, Seq<char>>(value@),
            Err(message) => parsed_json(text@) == Err::<Json, Seq<char>>(message@),
        },
{
    match parse_value(text) {
        Ok(value) => Ok(from_outside(value)),
        Err(message) => Err(message),
    }
}

/// Whether a line is an encoded value and the line feed that ends it, with no other
/// line feed before that one.
pub open spec fn is_line_of(line: Seq<u8>, value: Json) -> bool {
    &&& line.len() > 0
    &&& line.last() == 10u8
    &&& !line.drop_last().contains(10u8)
    &&& encoded_json(value) == Ok::<Seq<u8>, Seq<char>>(line.drop_last())
}

/// Encodes a value as one line: its compact encoding and a line feed. The error is
/// the encoder's own text.
pub fn encode_json_line(value: &JsonValue) -> (result: Result<Vec<u8>, String>)
    requires
        value.integral(),
    ensures
        match result {
            Ok(line) => is_line_of(line@, value@),
            Err(message) => encoded_json(value@) == Err::<Seq<u8>, Seq<char>>(message@),
        },
{
    let outside = to_outside(value);
    proof {
        lemma_integral_model(*value);
    }
    match encode_value(&outside) {
        Ok(bytes) => {
            let mut line = bytes;
            line.push(10u8);
            proof {
                assert(line@.drop_last() =~= bytes@);
            }
            Ok(line)
        },
        Err(message) => Err(message),
    }
}

/// Members are found under their key in an object, and in nothing else; a value that
/// is not of the wanted type is as good as none.
pub proof fn lookups(value: Json, outer: Seq<char>, key: Seq<char>, default: Seq<char>)
    ensures
        value.get(key) is Some <==> value is Object && value->Object_0.contains_key(key),
        value.get(key) is Some ==> value.get(key)->0 == value->Object_0[key],
        value.text_at(key) is Some <==> value.get(key) is Some && value.get(key)->0 is Text,
        value.text_at(key) is Some ==> value.get(key)->0 == Json::Text(value.text_at(key)->0),
        value.i64_at(key) is Some <==> value.get(key) is Some && value.get(key)->0 is Number
            && value.get(key)->0->Number_0 is Some,
        value.i64_at(key) is Some ==> value.get(key)->0 == Json::Number(value.i64_at(key)),
        value.array_at(key) is Some <==> value.get(key) is Some && value.get(key)->0 is Array,
        value.array_at(key) is Some ==> value.get(key)->0 == Json::Array(value.array_at(key)->0),
        value.get_or_null(key) == if value.get(key) is Some {
            value.get(key)->0
        } else {
            Json::Null
        },
        value.text_or(key, default) == if value.text_at(key) is Some {
            value.text_at(key)->0
        } else {
            default
        },
        value.text_under(outer, key) == if value.get(outer) is Some {
            value.get(outer)->0.text_at(key)
        } else {
            None
        },
        value.as_text() is Some <==> value is Text,
        value is Text ==> value == Json::Text(value.as_text()->0),
        value.as_i64() == if value is Number {
            value->Number_0
        } else {
            None
        },
        value.as_array() is Some <==> value is Array,
        value is Array ==> value == Json::Array(value.as_array()->0),
{
}

/// A member that is put into an object is found under its key, whatever was there
/// before, and hides nothing else.
pub proof fn the_last_member_counts(
    members: Seq<(Seq<char>, Json)>,
    key: Seq<char>,
    value: Json,
    other: Seq<char>,
)
    ensures
        Json::Object(object_of(members.push((key, value)))).get(other) == if other == key {
            Some(value)
        } else {
            Json::Object(object_of(members)).get(other)
        },
        object_of(seq![]) == Map::<Seq<char>, Json>::empty(),
{
    assert(members.push((key, value)).drop_last() =~= members);
}

/// What a value is as mathematics: itself, part by part.
pub proof fn values_are_themselves(
    b: bool,
    n: Option<i64>,
    text: String,
    items: Vec<JsonValue>,
    members: Vec<(String, JsonValue)>,
)
    ensures
        JsonValue::Null@ == Json::Null,
        JsonValue::Bool(b)@ == Json::Bool(b),
        JsonValue::Number(n)@ == Json::Number(n),
        JsonValue::Text(text)@ == Json::Text(text@),
        JsonValue::Array(items)@ matches Json::Array(parts) && parts.len() == items@.len()
            && forall|i: int| 0 <= i < parts.len() ==> #[trigger] parts[i] == items@[i]@,
        JsonValue::Object(members)@ == Json::Object(
            object_of(Seq::new(members@.len(), |i: int| (members@[i].0@, members@[i].1@))),
        ),
{
    JsonValue::Array(items).lemma_model_of_parts();
    JsonValue::Object(members).lemma_model_of_parts();
    assert(member_models(members@) =~= Seq::new(
        members@.len(),
        |i: int| (members@[i].0@, members@[i].1@),
    ));
}

/// A line is the encoding of its value and one line feed, at its end.
pub proof fn lines_are_encodings(line: Seq<u8>, value: Json)
    ensures
        is_line_of(line, value) <==> exists|bytes: Seq<u8>| #[trigger]
            bytes.push(10u8) == line && !bytes.contains(10u8) && encoded_json(value) == Ok::<
                Seq<u8>,
                Seq<char>,
            >(bytes),
{
    if is_line_of(line, value) {
        assert(line.drop_last().push(10u8) =~= line);
    }
    if exists|bytes: Seq<u8>| #[trigger]
        bytes.push(10u8) == line && !bytes.contains(10u8) && encoded_json(value) == Ok::<
            Seq<u8>,
            Seq<char>,
        >(bytes) {
        let bytes = choose|bytes: Seq<u8>| #[trigger]
            bytes.push(10u8) == line && !bytes.contains(10u8) && encoded_json(value) == Ok::<
                Seq<u8>,
                Seq<char>,
            >(bytes);
        assert(line.drop_last() =~= bytes);
    }
}

/// The object of a few members, one after another.
pub proof fn lemma_small_objects(
    a: (Seq<char>, Json),
    b: (Seq<char>, Json),
    c: (Seq<char>, Json),
    d: (Seq<char>, Json),
    e: (Seq<char>, Json),
)
    ensures
        object_of(seq![a]) == Map::<Seq<char>, Json>::empty().insert(a.0, a.1),
        object_of(seq![a, b]) == Map::<Seq<char>, Json>::empty().insert(a.0, a.1).insert(b.0, b.1),
        object_of(seq![a, b, c]) == Map::<Seq<char>, Json>::empty().insert(a.0, a.1).insert(
            b.0,
            b.1,
        ).insert(c.0, c.1),
        object_of(seq![a, b, c, d]) == Map::<Seq<char>, Json>::empty().insert(a.0, a.1).insert(
            b.0,
            b.1,
        ).insert(c.0, c.1).insert(d.0, d.1),
        object_of(seq![a, b, c, d, e]) == Map::<Seq<char>, Json>::empty().insert(a.0, a.1).insert(
            b.0,
            b.1,
        ).insert(c.0, c.1).insert(d.0, d.1).insert(e.0, e.1),
{
    let s1 = seq![a];
    let s2 = seq![a, b];
    let s3 = seq![a, b, c];
    let s4 = seq![a, b, c, d];
    let s5 = seq![a, b, c, d, e];
    assert(s1.drop_last() =~= seq![]);
    assert(s2.drop_last() =~= s1);
    assert(s3.drop_last() =~= s2);
    assert(s4.drop_last() =~= s3);
    assert(s5.drop_last() =~= s4);
    assert(object_of(s1) == object_of(seq![]).insert(a.0, a.1));
    assert(object_of(s2) == object_of(s1).insert(b.0, b.1));
    assert(object_of(s3) == object_of(s2).insert(c.0, c.1));
    assert(object_of(s4) == object_of(s3).insert(d.0, d.1));
    assert(object_of(s5) == object_of(s4).insert(e.0, e.1));
}

/// Elements and members are viewed one by one, in order.
pub proof fn parts_are_themselves(
    items: Seq<JsonValue>,
    members: Seq<(String, JsonValue)>,
    object: JsonObject,
)
    ensures
        models(items).len() == items.len(),
        forall|i: int| 0 <= i < items.len() ==> #[trigger] models(items)[i] == items[i]@,
        member_models(members).len() == members.len(),
        forall|i: int|
            0 <= i < members.len() ==> #[trigger] member_models(members)[i] == (
                members[i].0@,
                members[i].1@,
            ),
        object.parts().len() == object.members@.len(),
        forall|i: int|
            0 <= i < object.parts().len() ==> #[trigger] object.parts()[i] == (
                object.members@[i].0@,
                object.members@[i].1@,
            ),
{
}

} // verus!
