//! What the issue list is searched for: the default query and filter, and
//! the `me()` shortcut that stands for the current user.

use crate::bridge::member_index_from;
use crate::client::{new_members, no_members, opt_members, IssueSearchParams};
use crate::json::{
    duplicate_json, lemma_array_view, members_of, models_of, nonblank, nonblank_text, JsonMember,
    JsonModel, JsonValue,
};
use crate::request::add_text;
use crate::text::{
    chars_eq_ignore_ascii_case, chars_of, clone_text_option, eq_ignoring_ascii_case, opt_text,
    str_eq, trim_chars, trimmed,
};
use vstd::prelude::*;

verus! {

/// The query used where neither a query nor a filter is given.
pub const DEFAULT_ISSUE_QUERY: &'static str = "Assignee: me() Resolution: empty()";

/// The shortcut that stands for the current user.
pub const ME_TOKEN: &'static str = "me()";

/// The filter used by default: issues assigned to the current user that are
/// not resolved.
pub fn default_filter_map() -> (filter: Vec<JsonMember>)
    ensures
        members_of(filter@) == no_members().push(("assignee"@, JsonModel::Text("me()"@))).push(
            ("resolution"@, JsonModel::Text("empty()"@)),
        ),
{
    let mut members = new_members();
    add_text(&mut members, "assignee", Some("me()"));
    add_text(&mut members, "resolution", Some("empty()"));
    members
}

/// The filter that a value stands for: the members of an object that has
/// some; nothing for anything else.
pub fn normalize_filter_map(filter: Option<JsonValue>) -> (kept: Option<Vec<JsonMember>>)
    ensures
        match filter {
            Some(JsonValue::Object(members)) => if members.len() > 0 {
                kept == Some(members)
            } else {
                kept is None
            },
            _ => kept is None,
        },
{
    match filter {
        Some(JsonValue::Object(members)) => {
            if members.len() > 0 {
                Some(members)
            } else {
                None
            }
        },
        _ => None,
    }
}

/// The query that is searched for: the given query, trimmed, where something
/// is left of it; else none where a filter is given, and the default query
/// where none is.
pub open spec fn active_query_of(query: Option<Seq<char>>, has_filter: bool) -> Option<Seq<char>> {
    let given = match query {
        Some(text) => nonblank(text),
        None => None,
    };
    if given is Some {
        given
    } else if has_filter {
        None
    } else {
        Some(DEFAULT_ISSUE_QUERY@)
    }
}

/// The query that is searched for.
pub fn active_query(query: Option<String>, has_filter: bool) -> (active: Option<String>)
    ensures
        opt_text(active) == active_query_of(opt_text(query), has_filter),
{
    let given = match query {
        Some(text) => nonblank_text(text.as_str()),
        None => None,
    };
    if given.is_some() {
        given
    } else if has_filter {
        None
    } else {
        Some(DEFAULT_ISSUE_QUERY.to_owned())
    }
}

/// Whether a text is the `me()` shortcut: trimmed, in any case of letters.
pub open spec fn is_me(text: Seq<char>) -> bool {
    eq_ignoring_ascii_case(trimmed(text), ME_TOKEN@)
}

/// Whether a value is a string that holds the `me()` shortcut.
pub open spec fn is_me_value(value: JsonModel) -> bool {
    value matches JsonModel::Text(text) && is_me(text)
}

/// Whether one of the items is a string that holds the `me()` shortcut.
pub open spec fn holds_me(items: Seq<JsonModel>) -> bool {
    exists|i: int| 0 <= i < items.len() && is_me_value(#[trigger] items[i])
}

/// Whether a value asks for the current user: a string that is the shortcut,
/// or an array with such a string in it.
pub open spec fn wants_login(value: JsonModel) -> bool {
    match value {
        JsonModel::Text(text) => is_me(text),
        JsonModel::Array(items) => holds_me(items),
        _ => false,
    }
}

/// The items with every shortcut replaced by the login.
pub open spec fn replaced_of(items: Seq<JsonModel>, login: Seq<char>) -> Seq<JsonModel> {
    Seq::new(
        items.len(),
        |i: int|
            if is_me_value(items[i]) {
                JsonModel::Text(login)
            } else {
                items[i]
            },
    )
}

/// Whether the item at `at` is a string that occurs earlier in the items.
pub open spec fn repeats(items: Seq<JsonModel>, at: int) -> bool {
    items[at] is Text && exists|j: int| 0 <= j < at && #[trigger] items[j] == items[at]
}

/// The items without the strings that occurred before; everything that is
/// not a string stays.
pub open spec fn deduped_of(items: Seq<JsonModel>) -> Seq<JsonModel>
    decreases items.len(),
{
    if items.len() == 0 {
        Seq::empty()
    } else if repeats(items, items.len() - 1) {
        deduped_of(items.drop_last())
    } else {
        deduped_of(items.drop_last()).push(items.last())
    }
}

/// The value with the shortcut replaced by the login: a string that is the
/// shortcut becomes the login; an array that holds the shortcut gets every
/// shortcut replaced and then loses repeated strings; every other value
/// stays as it is.
pub open spec fn rewritten_of(value: JsonModel, login: Seq<char>) -> JsonModel {
    match value {
        JsonModel::Text(text) => if is_me(text) {
            JsonModel::Text(login)
        } else {
            value
        },
        JsonModel::Array(items) => if wants_login(value) {
            JsonModel::Array(deduped_of(replaced_of(items, login)))
        } else {
            value
        },
        _ => value,
    }
}

/// Tells whether a text is the `me()` shortcut.
pub fn is_me_token(value: &str) -> (me: bool)
    ensures
        me == is_me(value@),
{
    let chars = chars_of(value);
    let text = trim_chars(&chars);
    let token = chars_of(ME_TOKEN);
    chars_eq_ignore_ascii_case(&text, &token)
}

/// Tells whether a value is a string that holds the `me()` shortcut.
fn is_me_item(value: &JsonValue) -> (me: bool)
    ensures
        me == is_me_value(value@),
{
    match value {
        JsonValue::Text(text) => is_me_token(text.as_str()),
        _ => false,
    }
}

/// Tells whether a value asks for the current user.
pub fn needs_current_login(value: &JsonValue) -> (needed: bool)
    ensures
        needed == wants_login(value@),
{
    match value {
        JsonValue::Text(text) => is_me_token(text.as_str()),
        JsonValue::Array(items) => {
            proof {
                lemma_array_view(*items);
            }
            let mut i: usize = 0;
            while i < items.len()
                invariant
                    i <= items.len(),
                    value@ == JsonModel::Array(models_of(items@)),
                    forall|k: int| 0 <= k < i ==> !is_me_value(#[trigger] models_of(items@)[k]),
                decreases items.len() - i,
            {
                if is_me_item(&items[i]) {
                    proof {
                        let all = models_of(items@);
                        let at = i as int;
                        assert(0 <= at < all.len() && is_me_value(all[at]));
                        assert(holds_me(all));
                    }
                    return true;
                }
                i += 1;
            }
            false
        },
        _ => false,
    }
}

/// Tells whether the item at `at` is a string that occurs earlier.
fn repeats_at(items: &Vec<JsonValue>, at: usize) -> (repeated: bool)
    requires
        at < items.len(),
    ensures
        repeated == repeats(models_of(items@), at as int),
{
    match &items[at] {
        JsonValue::Text(text) => {
            let mut j: usize = 0;
            while j < at
                invariant
                    j <= at < items.len(),
                    items@[at as int] == JsonValue::Text(*text),
                    forall|k: int|
                        0 <= k < j ==> #[trigger] models_of(items@)[k] != models_of(items@)[at as int],
                decreases at - j,
            {
                let same = match &items[j] {
                    JsonValue::Text(other) => str_eq(other.as_str(), text.as_str()),
                    _ => false,
                };
                if same {
                    assert(models_of(items@)[j as int] == models_of(items@)[at as int]);
                    return true;
                }
                proof {
                    lemma_not_that_text(items@[j as int], text@);
                }
                j += 1;
            }
            false
        },
        _ => false,
    }
}

/// A value that is not a string with the given text does not stand for that
/// string.
pub proof fn lemma_not_that_text(value: JsonValue, text: Seq<char>)
    requires
        !(value matches JsonValue::Text(other) && other@ == text),
    ensures
        value@ != JsonModel::Text(text),
{
    match value {
        JsonValue::Array(items) => {
            lemma_array_view(items);
        },
        JsonValue::Object(members) => {
            crate::json::lemma_object_view(members);
        },
        _ => {},
    }
}

/// The items without the strings that occurred before.
pub fn dedupe_string_array(items: &Vec<JsonValue>) -> (kept: Vec<JsonValue>)
    ensures
        models_of(kept@) == deduped_of(models_of(items@)),
{
    let ghost all = models_of(items@);
    let mut kept: Vec<JsonValue> = Vec::new();
    let mut i: usize = 0;
    assert(all.take(0) =~= Seq::<JsonModel>::empty());
    assert(models_of(kept@) =~= Seq::<JsonModel>::empty());
    while i < items.len()
        invariant
            i <= items.len(),
            all == models_of(items@),
            models_of(kept@) == deduped_of(all.take(i as int)),
        decreases items.len() - i,
    {
        let repeated = repeats_at(items, i);
        proof {
            let upto = all.take(i + 1);
            assert(upto.drop_last() =~= all.take(i as int));
            assert(upto.last() == all[i as int]);
            assert(repeats(upto, i as int) == repeats(all, i as int)) by {
                if repeats(all, i as int) {
                    let j = choose|j: int| 0 <= j < i && #[trigger] all[j] == all[i as int];
                    assert(upto[j] == upto[i as int]);
                }
                if repeats(upto, i as int) {
                    let j = choose|j: int| 0 <= j < i && #[trigger] upto[j] == upto[i as int];
                    assert(all[j] == all[i as int]);
                }
            }
        }
        if !repeated {
            let ghost before = models_of(kept@);
            kept.push(duplicate_json(&items[i]));
            assert(models_of(kept@) =~= before.push(all[i as int]));
        }
        i += 1;
    }
    assert(all.take(items.len() as int) =~= all);
    kept
}

/// The value with the shortcut replaced by the login.
pub fn rewrite_me_tokens(value: &JsonValue, login: &str) -> (rewritten: JsonValue)
    ensures
        rewritten@ == rewritten_of(value@, login@),
{
    match value {
        JsonValue::Text(text) => {
            if is_me_token(text.as_str()) {
                JsonValue::Text(login.to_owned())
            } else {
                duplicate_json(value)
            }
        },
        JsonValue::Array(items) => {
            if !needs_current_login(value) {
                return duplicate_json(value);
            }
            proof {
                lemma_array_view(*items);
            }
            let mut replaced: Vec<JsonValue> = Vec::new();
            let mut i: usize = 0;
            while i < items.len()
                invariant
                    i <= items.len(),
                    replaced.len() == i,
                    forall|k: int|
                        0 <= k < i ==> (#[trigger] replaced@[k])@ == replaced_of(
                            models_of(items@),
                            login@,
                        )[k],
                decreases items.len() - i,
            {
                if is_me_item(&items[i]) {
                    replaced.push(JsonValue::Text(login.to_owned()));
                } else {
                    replaced.push(duplicate_json(&items[i]));
                }
                i += 1;
            }
            assert(models_of(replaced@) =~= replaced_of(models_of(items@), login@));
            let kept = dedupe_string_array(&replaced);
            proof {
                lemma_array_view(kept);
            }
            JsonValue::Array(kept)
        },
        _ => duplicate_json(value),
    }
}

/// Whether a filter asks for the current user: whether its `assignee` does.
pub open spec fn filter_wants_login(members: Seq<(Seq<char>, JsonModel)>) -> bool {
    let at = member_index_from(members, "assignee"@, 0);
    0 <= at < members.len() && wants_login(members[at].1)
}

/// The filter with the shortcut in its `assignee` replaced by the login.
pub open spec fn resolved_filter_of(members: Seq<(Seq<char>, JsonModel)>, login: Seq<char>) -> Seq<
    (Seq<char>, JsonModel),
> {
    let at = member_index_from(members, "assignee"@, 0);
    if 0 <= at < members.len() {
        members.update(at, (members[at].0, rewritten_of(members[at].1, login)))
    } else {
        members
    }
}

/// Position of the first member whose key is `assignee`, or the number of
/// members.
fn assignee_index(members: &Vec<JsonMember>) -> (at: usize)
    ensures
        at == member_index_from(members_of(members@), "assignee"@, 0),
        at <= members.len(),
{
    let mut i: usize = 0;
    while i < members.len()
        invariant
            i <= members.len(),
            member_index_from(members_of(members@), "assignee"@, 0) == member_index_from(
                members_of(members@),
                "assignee"@,
                i as int,
            ),
        decreases members.len() - i,
    {
        if str_eq(members[i].key.as_str(), "assignee") {
            return i;
        }
        i += 1;
    }
    i
}

/// Tells whether the search asks for the current user, so that the login has
/// to be fetched before the search.
pub fn search_needs_login(params: &IssueSearchParams) -> (needed: bool)
    ensures
        needed == match opt_members(params.filter) {
            Some(members) => filter_wants_login(members),
            None => false,
        },
{
    match &params.filter {
        Some(members) => {
            let at = assignee_index(members);
            if at < members.len() {
                needs_current_login(&members[at].value)
            } else {
                false
            }
        },
        None => false,
    }
}

/// The search with the shortcut in the `assignee` of its filter replaced by
/// the login. The query stays as it is.
pub fn resolve_filter_shortcuts(params: &IssueSearchParams, login: &str) -> (resolved:
    IssueSearchParams)
    ensures
        resolved.query == params.query,
        opt_members(resolved.filter) == match opt_members(params.filter) {
            Some(members) => Some(resolved_filter_of(members, login@)),
            None => None,
        },
{
    let filter = match &params.filter {
        Some(members) => {
            let at = assignee_index(members);
            let mut out: Vec<JsonMember> = Vec::new();
            let mut i: usize = 0;
            while i < members.len()
                invariant
                    i <= members.len(),
                    out.len() == i,
                    at == member_index_from(members_of(members@), "assignee"@, 0),
                    forall|k: int|
                        0 <= k < i ==> ((#[trigger] out@[k]).key@, out@[k].value@)
                            == resolved_filter_of(members_of(members@), login@)[k],
                decreases members.len() - i,
            {
                let member = &members[i];
                let value = if i == at {
                    rewrite_me_tokens(&member.value, login)
                } else {
                    duplicate_json(&member.value)
                };
                out.push(JsonMember { key: member.key.clone(), value });
                i += 1;
            }
            assert(members_of(out@) =~= resolved_filter_of(members_of(members@), login@));
            Some(out)
        },
        None => None,
    };
    IssueSearchParams { query: clone_text_option(&params.query), filter }
}

} // verus!
