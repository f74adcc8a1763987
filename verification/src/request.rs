//! The parts of an HTTP exchange as plain values: the request that an
//! operation asks for, query parameters, JSON bodies and headers.

use crate::json::{lemma_object_view, members_of, opt_json, JsonMember, JsonModel, JsonValue};
use crate::text::{
    append_str, chars_eq_ignore_ascii_case, chars_of, eq_ignoring_ascii_case, string_of,
};
use vstd::prelude::*;

verus! {

/// The HTTP verbs the client uses.
#[derive(Clone, Copy, Debug, PartialEq, Eq, Structural)]
pub enum HttpMethod {
    Get,
    Post,
    Patch,
    Delete,
}

/// The verb as it is written on the wire.
pub open spec fn method_name_of(method: HttpMethod) -> Seq<char> {
    match method {
        HttpMethod::Get => "GET"@,
        HttpMethod::Post => "POST"@,
        HttpMethod::Patch => "PATCH"@,
        HttpMethod::Delete => "DELETE"@,
    }
}

impl HttpMethod {
    /// The verb as it is written on the wire.
    pub fn as_str(&self) -> (name: &'static str)
        ensures
            name@ == method_name_of(*self),
    {
        match self {
            HttpMethod::Get => "GET",
            HttpMethod::Post => "POST",
            HttpMethod::Patch => "PATCH",
            HttpMethod::Delete => "DELETE",
        }
    }
}

/// A request that an operation asks the transport to send.
#[derive(Debug)]
pub struct RequestPlan {
    pub method: HttpMethod,
    pub url: String,
    pub query: Vec<(String, String)>,
    pub body: Option<JsonValue>,
    /// Whether the body of a successful response is decoded as JSON.
    pub decode: bool,
}

/// The mathematical content of a request.
pub struct PlanModel {
    pub method: HttpMethod,
    pub url: Seq<char>,
    pub query: Seq<(Seq<char>, Seq<char>)>,
    pub body: Option<JsonModel>,
    pub decode: bool,
}

/// The texts of a sequence of name and value pairs.
pub open spec fn pairs_of(pairs: Seq<(String, String)>) -> Seq<(Seq<char>, Seq<char>)> {
    Seq::new(pairs.len(), |i: int| (pairs[i].0@, pairs[i].1@))
}

/// The text that an optional string slice holds.
pub open spec fn opt_str(value: Option<&str>) -> Option<Seq<char>> {
    match value {
        Some(text) => Some(text@),
        None => None,
    }
}

impl View for RequestPlan {
    type V = PlanModel;

    open spec fn view(&self) -> PlanModel {
        PlanModel {
            method: self.method,
            url: self.url@,
            query: pairs_of(self.query@),
            body: opt_json(self.body),
            decode: self.decode,
        }
    }
}

/// The members with one more string member where a value is given.
pub open spec fn with_text(
    members: Seq<(Seq<char>, JsonModel)>,
    key: Seq<char>,
    value: Option<Seq<char>>,
) -> Seq<(Seq<char>, JsonModel)> {
    match value {
        Some(text) => members.push((key, JsonModel::Text(text))),
        None => members,
    }
}

/// The members with one more boolean member where a value is given.
pub open spec fn with_bool(
    members: Seq<(Seq<char>, JsonModel)>,
    key: Seq<char>,
    value: Option<bool>,
) -> Seq<(Seq<char>, JsonModel)> {
    match value {
        Some(flag) => members.push((key, JsonModel::Bool(flag))),
        None => members,
    }
}

/// The members with one more member where a value is given.
pub open spec fn with_value(
    members: Seq<(Seq<char>, JsonModel)>,
    key: Seq<char>,
    value: Option<JsonModel>,
) -> Seq<(Seq<char>, JsonModel)> {
    match value {
        Some(v) => members.push((key, v)),
        None => members,
    }
}

/// A name and value pair.
pub fn pair(name: &str, value: &str) -> (p: (String, String))
    ensures
        p.0@ == name@,
        p.1@ == value@,
{
    (name.to_owned(), value.to_owned())
}

/// Appends one pair to a list of pairs.
pub fn push_pair(pairs: &mut Vec<(String, String)>, name: &str, value: &str)
    ensures
        pairs_of(final(pairs)@) == pairs_of(old(pairs)@).push((name@, value@)),
{
    pairs.push(pair(name, value));
    assert(pairs_of(pairs@) =~= pairs_of(old(pairs)@).push((name@, value@)));
}

/// Appends a member with the given value.
pub fn add_value(members: &mut Vec<JsonMember>, key: &str, value: JsonValue)
    ensures
        members_of(final(members)@) == members_of(old(members)@).push((key@, value@)),
{
    members.push(JsonMember { key: key.to_owned(), value });
    assert(members_of(members@) =~= members_of(old(members)@).push((key@, value@)));
}

/// Appends a string member where a value is given.
pub fn add_text(members: &mut Vec<JsonMember>, key: &str, value: Option<&str>)
    ensures
        members_of(final(members)@) == with_text(members_of(old(members)@), key@, opt_str(value)),
{
    match value {
        Some(text) => add_value(members, key, JsonValue::Text(text.to_owned())),
        None => {},
    }
}

/// Appends a boolean member where a value is given.
pub fn add_bool(members: &mut Vec<JsonMember>, key: &str, value: Option<bool>)
    ensures
        members_of(final(members)@) == with_bool(members_of(old(members)@), key@, value),
{
    match value {
        Some(flag) => add_value(members, key, JsonValue::Bool(flag)),
        None => {},
    }
}

/// The JSON object with the given members.
pub fn object(members: Vec<JsonMember>) -> (value: JsonValue)
    ensures
        value@ == JsonModel::Object(members_of(members@)),
{
    proof {
        lemma_object_view(members);
    }
    JsonValue::Object(members)
}

/// The two texts one after the other.
pub fn concat2(a: &str, b: &str) -> (out: String)
    ensures
        out@ == a@ + b@,
{
    let mut chars = chars_of(a);
    append_str(&mut chars, b);
    string_of(&chars)
}

/// The four texts one after the other.
pub fn concat4(a: &str, b: &str, c: &str, d: &str) -> (out: String)
    ensures
        out@ == a@ + b@ + c@ + d@,
{
    let mut chars = chars_of(a);
    append_str(&mut chars, b);
    append_str(&mut chars, c);
    append_str(&mut chars, d);
    string_of(&chars)
}

/// The three texts one after the other.
pub fn concat3(a: &str, b: &str, c: &str) -> (out: String)
    ensures
        out@ == a@ + b@ + c@,
{
    let mut chars = chars_of(a);
    append_str(&mut chars, b);
    append_str(&mut chars, c);
    string_of(&chars)
}

/// The five texts one after the other.
pub fn concat5(a: &str, b: &str, c: &str, d: &str, e: &str) -> (out: String)
    ensures
        out@ == a@ + b@ + c@ + d@ + e@,
{
    let mut chars = chars_of(a);
    append_str(&mut chars, b);
    append_str(&mut chars, c);
    append_str(&mut chars, d);
    append_str(&mut chars, e);
    string_of(&chars)
}

/// The value of the first header at or after `from` whose name is `name`,
/// ASCII case ignored.
pub open spec fn header_from(
    headers: Seq<(Seq<char>, Seq<char>)>,
    name: Seq<char>,
    from: int,
) -> Option<Seq<char>>
    decreases headers.len() - from,
{
    if 0 <= from < headers.len() {
        if eq_ignoring_ascii_case(headers[from].0, name) {
            Some(headers[from].1)
        } else {
            header_from(headers, name, from + 1)
        }
    } else {
        None
    }
}

/// The value of the first header whose name is `name`, ASCII case ignored.
pub open spec fn header_of(headers: Seq<(Seq<char>, Seq<char>)>, name: Seq<char>) -> Option<
    Seq<char>,
> {
    header_from(headers, name, 0)
}

/// Looks a header up by name, ASCII case ignored.
pub fn find_header<'a>(headers: &'a Vec<(String, String)>, name: &str) -> (value: Option<
    &'a String,
>)
    ensures
        match value {
            Some(text) => header_of(pairs_of(headers@), name@) == Some(text@),
            None => header_of(pairs_of(headers@), name@) is None,
        },
{
    let wanted = chars_of(name);
    let mut i: usize = 0;
    while i < headers.len()
        invariant
            i <= headers.len(),
            wanted@ == name@,
            header_of(pairs_of(headers@), name@) == header_from(
                pairs_of(headers@),
                name@,
                i as int,
            ),
        decreases headers.len() - i,
    {
        let candidate = chars_of(headers[i].0.as_str());
        if chars_eq_ignore_ascii_case(&candidate, &wanted) {
            return Some(&headers[i].1);
        }
        i += 1;
    }
    None
}

/// Whether a text can stand as a header value: every character is a tab, or
/// is neither a control character nor DEL.
pub open spec fn header_value_ok(value: Seq<char>) -> bool {
    forall|i: int|
        0 <= i < value.len() ==> {
            let c = #[trigger] value[i];
            c == '\t' || (c as u32 >= 32 && c as u32 != 127)
        }
}

/// What `http::HeaderValue::from_str` says of a text. It accepts a text
/// exactly when every byte is a tab or is at least 32 and not 127; every byte
/// of a character beyond ASCII is above 127, so this is `header_value_ok`.
/// The error it gives prints as `failed to parse header value`.
#[verifier::external_body]
pub(crate) fn header_value_error(value: &str) -> (error: Option<String>)
    ensures
        error is None <==> header_value_ok(value@),
        error matches Some(message) ==> message@ == "failed to parse header value"@,
{
    reqwest::header::HeaderValue::from_str(value).err().map(|e| e.to_string())
}

/// The text of a result whose both sides are strings.
pub open spec fn result_text(value: Result<String, String>) -> Result<Seq<char>, Seq<char>> {
    match value {
        Ok(text) => Ok(text@),
        Err(text) => Err(text@),
    }
}

/// What `url::Url::parse` makes of a text: the URL as it prints, or the
/// error as it prints.
pub uninterp spec fn url_parse_of(text: Seq<char>) -> Result<Seq<char>, Seq<char>>;

/// What `url::Url::join` makes of a reference against a base that
/// `url::Url::parse` has read: the URL as it prints, or the error of either
/// step as it prints.
pub uninterp spec fn url_join_of(base: Seq<char>, reference: Seq<char>) -> Result<
    Seq<char>,
    Seq<char>,
>;

/// Parses an absolute URL with `Url::parse`. The outcome depends on the text
/// alone and is named `url_parse_of`.
#[verifier::external_body]
pub(crate) fn url_parse(text: &str) -> (url: Result<String, String>)
    ensures
        result_text(url) == url_parse_of(text@),
{
    reqwest::Url::parse(text).map(|u| u.to_string()).map_err(|e| e.to_string())
}

/// Parses a base with `Url::parse` and resolves a reference against it with
/// `Url::join`. The outcome depends on the two texts alone and is named
/// `url_join_of`.
#[verifier::external_body]
pub(crate) fn url_join(base: &str, reference: &str) -> (url: Result<String, String>)
    ensures
        result_text(url) == url_join_of(base@, reference@),
{
    reqwest::Url::parse(base).and_then(|u| u.join(reference)).map(|u| u.to_string()).map_err(
        |e| e.to_string(),
    )
}

} // verus!
