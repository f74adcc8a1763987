//! A plain model of JSON values, as the tracker sends them.
//!
//! Several fields of the tracker's wire format are loosely typed: an id may be
//! a string or a number, a display name may be a string or an object with one
//! name for each language. The rules that read such fields work on
//! `JsonValue`.

use crate::text::{chars_of, is_blank, opt_text, str_eq, string_of, trim_chars, trimmed};
use vstd::prelude::*;

verus! {

/// A JSON number: its decimal rendering, and its value where it is a
/// non-negative integer that fits in 64 bits.
#[derive(Debug)]
pub struct JsonNumber {
    pub text: String,
    pub unsigned: Option<u64>,
}

/// One member of a JSON object.
#[derive(Debug)]
pub struct JsonMember {
    pub key: String,
    pub value: JsonValue,
}

/// A JSON value. The members of an object stand in the order in which the
/// object is walked.
#[derive(Debug)]
pub enum JsonValue {
    Null,
    Bool(bool),
    Number(JsonNumber),
    Text(String),
    Array(Vec<JsonValue>),
    Object(Vec<JsonMember>),
}

/// `serde_json::Value`, the parsed form that `serde_json::from_str` returns.
#[verifier::external_type_specification]
#[verifier::external_body]
pub struct ExSerdeJsonValue(serde_json::Value);

/// The mathematical value of a JSON text.
pub enum JsonModel {
    Null,
    Bool(bool),
    Number { text: Seq<char>, unsigned: Option<u64> },
    Text(Seq<char>),
    Array(Seq<JsonModel>),
    Object(Seq<(Seq<char>, JsonModel)>),
}

/// The mathematical value that a JSON value stands for.
pub open spec fn json_model(value: JsonValue) -> JsonModel
    decreases value,
{
    match value {
        JsonValue::Null => JsonModel::Null,
        JsonValue::Bool(b) => JsonModel::Bool(b),
        JsonValue::Number(n) => JsonModel::Number { text: n.text@, unsigned: n.unsigned },
        JsonValue::Text(t) => JsonModel::Text(t@),
        JsonValue::Array(items) => JsonModel::Array(
            Seq::new(
                items@.len(),
                |i: int|
                    if 0 <= i < items@.len() {
                        json_model(items@[i])
                    } else {
                        JsonModel::Null
                    },
            ),
        ),
        JsonValue::Object(members) => JsonModel::Object(
            Seq::new(
                members@.len(),
                |i: int|
                    if 0 <= i < members@.len() {
                        (members@[i].key@, json_model(members@[i].value))
                    } else {
                        (Seq::empty(), JsonModel::Null)
                    },
            ),
        ),
    }
}

impl View for JsonValue {
    type V = JsonModel;

    open spec fn view(&self) -> JsonModel {
        json_model(*self)
    }
}

/// The values that a sequence of JSON values stands for.
pub open spec fn models_of(items: Seq<JsonValue>) -> Seq<JsonModel> {
    Seq::new(items.len(), |i: int| items[i]@)
}

/// The members that a sequence of object members stands for.
pub open spec fn members_of(members: Seq<JsonMember>) -> Seq<(Seq<char>, JsonModel)> {
    Seq::new(members.len(), |i: int| (members[i].key@, members[i].value@))
}

/// The value that an optional JSON value stands for.
pub open spec fn opt_json(value: Option<JsonValue>) -> Option<JsonModel> {
    match value {
        Some(v) => Some(v@),
        None => None,
    }
}

/// An array stands for the values of its items.
pub proof fn lemma_array_view(items: Vec<JsonValue>)
    ensures
        JsonValue::Array(items)@ == JsonModel::Array(models_of(items@)),
{
    let whole = JsonValue::Array(items);
    assert(whole@ is Array);
    let a = whole@->Array_0;
    assert(a.len() == items@.len());
    assert forall|i: int| 0 <= i < a.len() implies a[i] == models_of(items@)[i] by {
        assert(a[i] == items@[i]@);
    }
    assert(a =~= models_of(items@));
}

/// An object stands for its members, in order.
pub proof fn lemma_object_view(members: Vec<JsonMember>)
    ensures
        JsonValue::Object(members)@ == JsonModel::Object(members_of(members@)),
{
    let whole = JsonValue::Object(members);
    assert(whole@ is Object);
    let a = whole@->Object_0;
    assert(a.len() == members@.len());
    assert forall|i: int| 0 <= i < a.len() implies a[i] == members_of(members@)[i] by {
        assert(a[i] == (members@[i].key@, members@[i].value@));
    }
    assert(a =~= members_of(members@));
}

/// What a text parses to as JSON: nothing where it is not valid JSON.
pub uninterp spec fn json_of(text: Seq<char>) -> Option<JsonModel>;

/// The mathematical value that a parsed `serde_json::Value` holds: its
/// variant and contents, a number by its `Display` rendering and by what
/// `Number::as_u64` returns, the members of an object in the order of
/// `Map::iter`.
pub uninterp spec fn serde_model_of(value: serde_json::Value) -> JsonModel;

/// Parses a text with `serde_json::from_str`. Whether the text is valid JSON
/// and what it holds depend on the text alone; the content is named
/// `json_of`.
#[verifier::external_body]
fn parse_serde(text: &str) -> (parsed: Option<serde_json::Value>)
    ensures
        match parsed {
            Some(value) => json_of(text@) == Some(serde_model_of(value)),
            None => json_of(text@) is None,
        },
{
    serde_json::from_str::<serde_json::Value>(text).ok()
}

/// Rewrites a `serde_json::Value` as a `JsonValue`, variant by variant, so
/// that the result holds what the value holds. A number keeps its `Display`
/// rendering and what `Number::as_u64` returns; the members of an object keep
/// the order of `Map::iter`.
#[verifier::external_body]
fn json_from_serde(value: &serde_json::Value) -> (converted: JsonValue)
    ensures
        converted@ == serde_model_of(*value),
{
    match value {
        serde_json::Value::Null => JsonValue::Null,
        serde_json::Value::Bool(b) => JsonValue::Bool(*b),
        serde_json::Value::Number(n) => JsonValue::Number(
            JsonNumber { text: n.to_string(), unsigned: n.as_u64() },
        ),
        serde_json::Value::String(s) => JsonValue::Text(s.clone()),
        serde_json::Value::Array(items) => JsonValue::Array(
            items.iter().map(json_from_serde).collect(),
        ),
        serde_json::Value::Object(map) => JsonValue::Object(
            map.iter().map(|(k, v)| JsonMember { key: k.clone(), value: json_from_serde(v) }).collect(),
        ),
    }
}

/// Parses a text as JSON; a text that is not valid JSON gives nothing.
pub fn parse_json(text: &str) -> (value: Option<JsonValue>)
    ensures
        opt_json(value) == json_of(text@),
{
    match parse_serde(text) {
        Some(parsed) => Some(json_from_serde(&parsed)),
        None => None,
    }
}

/// The value of the first member at or after `from` whose key is `key`.
pub open spec fn member_from(members: Seq<(Seq<char>, JsonModel)>, key: Seq<char>, from: int) -> Option<
    JsonModel,
>
    decreases members.len() - from,
{
    if 0 <= from < members.len() {
        if members[from].0 == key {
            Some(members[from].1)
        } else {
            member_from(members, key, from + 1)
        }
    } else {
        None
    }
}

/// The trimmed text, or nothing where only whitespace is left.
pub open spec fn nonblank(text: Seq<char>) -> Option<Seq<char>> {
    if is_blank(text) {
        None
    } else {
        Some(trimmed(text))
    }
}

/// The text of an id that arrives as a string or a number: a string is
/// trimmed and counts only if something is left, a number is rendered, and
/// every other kind of value is no id.
pub open spec fn normalized_id_of(value: JsonModel) -> Option<Seq<char>> {
    match value {
        JsonModel::Text(text) => nonblank(text),
        JsonModel::Number { text, unsigned } => Some(text),
        _ => None,
    }
}

impl JsonModel {
    /// The value stored under `key`, where this is an object that has it.
    pub open spec fn member(self, key: Seq<char>) -> Option<JsonModel> {
        match self {
            JsonModel::Object(members) => member_from(members, key, 0),
            _ => None,
        }
    }

    /// The text, where this is a string.
    pub open spec fn text(self) -> Option<Seq<char>> {
        match self {
            JsonModel::Text(text) => Some(text),
            _ => None,
        }
    }
}

impl JsonValue {
    /// Looks a key up in an object.
    pub fn get(&self, key: &str) -> (found: Option<&JsonValue>)
        ensures
            match found {
                Some(value) => self@.member(key@) == Some(value@),
                None => self@.member(key@) is None,
            },
    {
        match self {
            JsonValue::Object(members) => {
                proof {
                    lemma_object_view(*members);
                }
                let mut i: usize = 0;
                while i < members.len()
                    invariant
                        i <= members.len(),
                        self@.member(key@) == member_from(members_of(members@), key@, i as int),
                    decreases members.len() - i,
                {
                    if str_eq(members[i].key.as_str(), key) {
                        return Some(&members[i].value);
                    }
                    i += 1;
                }
                None
            },
            _ => None,
        }
    }

    /// The text of a string value.
    pub fn as_text(&self) -> (found: Option<&String>)
        ensures
            match found {
                Some(text) => self@.text() == Some(text@),
                None => self@.text() is None,
            },
    {
        match self {
            JsonValue::Text(text) => Some(text),
            _ => None,
        }
    }

    /// The id that a string or a number stands for.
    pub fn normalized_id(&self) -> (id: Option<String>)
        ensures
            opt_text(id) == normalized_id_of(self@),
    {
        match self {
            JsonValue::Text(text) => nonblank_text(text.as_str()),
            JsonValue::Number(number) => Some(number.text.clone()),
            _ => None,
        }
    }

    /// A copy of the value.
    pub fn duplicate(&self) -> (copy: Self)
        ensures
            copy@ == self@,
    {
        duplicate_json(self)
    }
}

/// A copy of a JSON value.
pub fn duplicate_json(value: &JsonValue) -> (copy: JsonValue)
    ensures
        copy@ == value@,
    decreases value,
{
    match value {
        JsonValue::Null => JsonValue::Null,
        JsonValue::Bool(b) => JsonValue::Bool(*b),
        JsonValue::Number(n) => JsonValue::Number(
            JsonNumber { text: n.text.clone(), unsigned: n.unsigned },
        ),
        JsonValue::Text(t) => JsonValue::Text(t.clone()),
        JsonValue::Array(items) => {
            let mut out: Vec<JsonValue> = Vec::new();
            let mut i: usize = 0;
            while i < items.len()
                invariant
                    i <= items.len(),
                    value is Array,
                    *items == value->Array_0,
                    out.len() == i,
                    forall|k: int| 0 <= k < i ==> (#[trigger] out@[k])@ == items@[k]@,
                decreases items.len() - i,
            {
                let item = duplicate_json(&items[i]);
                out.push(item);
                i += 1;
            }
            proof {
                lemma_array_view(*items);
                lemma_array_view(out);
                assert(models_of(out@) =~= models_of(items@));
            }
            JsonValue::Array(out)
        },
        JsonValue::Object(members) => {
            let mut out: Vec<JsonMember> = Vec::new();
            let mut i: usize = 0;
            while i < members.len()
                invariant
                    i <= members.len(),
                    value is Object,
                    *members == value->Object_0,
                    out.len() == i,
                    forall|k: int|
                        0 <= k < i ==> (#[trigger] out@[k]).key@ == members@[k].key@
                            && out@[k].value@ == members@[k].value@,
                decreases members.len() - i,
            {
                let member = &members[i];
                let item = duplicate_json(&member.value);
                out.push(JsonMember { key: member.key.clone(), value: item });
                i += 1;
            }
            proof {
                lemma_object_view(*members);
                lemma_object_view(out);
                assert(members_of(out@) =~= members_of(members@));
            }
            JsonValue::Object(out)
        },
    }
}

/// The trimmed text, or nothing where only whitespace is left.
pub fn nonblank_text(text: &str) -> (kept: Option<String>)
    ensures
        opt_text(kept) == nonblank(text@),
{
    let chars = chars_of(text);
    let t = trim_chars(&chars);
    if t.len() == 0 {
        None
    } else {
        Some(string_of(&t))
    }
}


/// A copy of the members of an object.
pub fn duplicate_members(members: &Vec<JsonMember>) -> (copy: Vec<JsonMember>)
    ensures
        members_of(copy@) == members_of(members@),
{
    let mut out: Vec<JsonMember> = Vec::new();
    let mut i: usize = 0;
    while i < members.len()
        invariant
            i <= members.len(),
            out.len() == i,
            forall|k: int|
                0 <= k < i ==> (#[trigger] out@[k]).key@ == members@[k].key@ && out@[k].value@
                    == members@[k].value@,
        decreases members.len() - i,
    {
        let member = &members[i];
        out.push(JsonMember { key: member.key.clone(), value: duplicate_json(&member.value) });
        i += 1;
    }
    assert(members_of(out@) =~= members_of(members@));
    out
}

} // verus!
