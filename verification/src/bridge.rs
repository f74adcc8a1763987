//! The tracker's entities as the application shows them, and the rules that
//! make them from what arrives on the wire.

use crate::duration::{parse_tracker_duration_to_seconds, tracker_seconds_of};
use crate::json::{
    lemma_array_view, lemma_object_view, members_of, models_of, nonblank, nonblank_text, JsonMember,
    JsonModel, JsonValue,
};
use crate::models;
use crate::text::{clone_text_option, opt_text, reversed, str_eq, trim_str, trimmed};
use vstd::prelude::*;

verus! {

/// The status of an issue.
#[derive(Debug)]
pub struct Status {
    pub key: String,
    pub display: String,
}

/// The priority of an issue.
#[derive(Debug)]
pub struct Priority {
    pub key: String,
    pub display: String,
}

/// An issue.
#[derive(Debug)]
pub struct Issue {
    pub key: String,
    pub summary: String,
    pub description: String,
    pub status: Status,
    pub priority: Priority,
    pub tracked_seconds: Option<u64>,
}

/// An entry of a directory.
#[derive(Debug)]
pub struct SimpleEntity {
    pub key: String,
    pub display: String,
}

/// A comment.
#[derive(Debug)]
pub struct Comment {
    pub id: String,
    pub text: String,
    pub author: String,
    pub created_at: String,
}

/// An attachment.
#[derive(Debug)]
pub struct Attachment {
    pub id: String,
    pub name: String,
    pub url: String,
    pub mime_type: Option<String>,
}

/// A transition.
#[derive(Debug)]
pub struct Transition {
    pub id: String,
    pub name: String,
    pub to_status: Option<Status>,
}

/// The content of an attachment, ready to be shown.
#[derive(Debug)]
pub struct AttachmentPreview {
    pub mime_type: String,
    pub data_base64: String,
}

/// The profile of a user.
#[derive(Debug)]
pub struct UserProfile {
    pub display: Option<String>,
    pub login: Option<String>,
    pub email: Option<String>,
    pub avatar_url: Option<String>,
}

/// An item of a checklist.
#[derive(Debug)]
pub struct ChecklistItem {
    pub id: String,
    pub text: String,
    pub checked: bool,
    pub assignee: Option<String>,
    pub deadline: Option<String>,
    pub deadline_type: Option<String>,
    pub is_exceeded: Option<bool>,
    pub item_type: Option<String>,
}

/// An entry of a worklog.
#[derive(Debug)]
pub struct WorklogEntry {
    pub id: String,
    pub date: String,
    pub duration_seconds: u64,
    pub comment: String,
    pub author: String,
}

/// What a scalar field holds once it is read as text.
#[derive(Debug)]
pub enum ScalarText {
    /// Nothing: `null`, or a string that is blank.
    Absent,
    /// The text of a string, a number or a boolean.
    Text(String),
    /// An array or an object, which has no text of its own.
    Composite,
}

/// The keys under which an object is looked up for its display text, in
/// order.
pub open spec fn display_key_of(rank: int) -> Seq<char> {
    if rank == 0 {
        "display"@
    } else if rank == 1 {
        "name"@
    } else if rank == 2 {
        "value"@
    } else if rank == 3 {
        "en"@
    } else {
        "ru"@
    }
}

/// The keys under which an object is looked up for a duration, in order.
pub open spec fn duration_key_of(rank: int) -> Seq<char> {
    if rank == 0 {
        "duration"@
    } else if rank == 1 {
        "value"@
    } else if rank == 2 {
        "display"@
    } else if rank == 3 {
        "text"@
    } else if rank == 4 {
        "en"@
    } else {
        "ru"@
    }
}

/// Position of the first member at or after `from` whose key is `key`, or
/// the number of members where there is none.
pub open spec fn member_index_from(
    members: Seq<(Seq<char>, JsonModel)>,
    key: Seq<char>,
    from: int,
) -> int
    decreases members.len() - from,
{
    if 0 <= from < members.len() {
        if members[from].0 == key {
            from
        } else {
            member_index_from(members, key, from + 1)
        }
    } else {
        members.len() as int
    }
}

/// The text of a boolean.
pub open spec fn bool_text_of(flag: bool) -> Seq<char> {
    if flag {
        "true"@
    } else {
        "false"@
    }
}

/// The display text of a loosely typed value: a string trimmed, where
/// something is left; a number or a boolean as it prints; of an array the
/// text of its first item that has one; of an object the text under
/// `display`, `name`, `value`, `en` or `ru`, in this order, and else the text
/// of its first member that has one.
pub open spec fn display_of(value: JsonModel) -> Option<Seq<char>>
    decreases value,
{
    match value {
        JsonModel::Null => None,
        JsonModel::Bool(flag) => Some(bool_text_of(flag)),
        JsonModel::Number { text, unsigned } => Some(text),
        JsonModel::Text(text) => nonblank(text),
        JsonModel::Array(items) => first_display(items, 0),
        JsonModel::Object(members) => match keyed_display(members, 0) {
            Some(text) => Some(text),
            None => first_member_display(members, 0),
        },
    }
}

/// The display text of the first item at or after `from` that has one.
pub open spec fn first_display(items: Seq<JsonModel>, from: int) -> Option<Seq<char>>
    decreases items, items.len() - from,
{
    if 0 <= from < items.len() {
        match display_of(items[from]) {
            Some(text) => Some(text),
            None => first_display(items, from + 1),
        }
    } else {
        None
    }
}

/// The display text under the first of the preferred keys, from `rank` on,
/// that has one.
pub open spec fn keyed_display(members: Seq<(Seq<char>, JsonModel)>, rank: int) -> Option<
    Seq<char>,
>
    decreases members, 5 - rank,
{
    if 0 <= rank < 5 {
        let at = member_index_from(members, display_key_of(rank), 0);
        let found = if 0 <= at < members.len() {
            display_of(members[at].1)
        } else {
            None
        };
        match found {
            Some(text) => Some(text),
            None => keyed_display(members, rank + 1),
        }
    } else {
        None
    }
}

/// The display text of the first member at or after `from` that has one.
pub open spec fn first_member_display(members: Seq<(Seq<char>, JsonModel)>, from: int) -> Option<
    Seq<char>,
>
    decreases members, members.len() - from,
{
    if 0 <= from < members.len() {
        match display_of(members[from].1) {
            Some(text) => Some(text),
            None => first_member_display(members, from + 1),
        }
    } else {
        None
    }
}

/// The seconds that a loosely typed duration stands for: a string is read as
/// a tracker duration; a number counts where it is a non-negative integer;
/// of an array the first item that gives seconds counts; of an object the
/// value under `duration`, `value`, `display`, `text`, `en` or `ru`, in this
/// order.
pub open spec fn duration_value_of(value: JsonModel, workday_hours: u64) -> Option<u64>
    decreases value,
{
    match value {
        JsonModel::Null => None,
        JsonModel::Bool(flag) => None,
        JsonModel::Number { text, unsigned } => unsigned,
        JsonModel::Text(text) => tracker_seconds_of(text, workday_hours),
        JsonModel::Array(items) => first_duration(items, 0, workday_hours),
        JsonModel::Object(members) => keyed_duration(members, 0, workday_hours),
    }
}

/// The seconds of the first item at or after `from` that gives some.
pub open spec fn first_duration(items: Seq<JsonModel>, from: int, workday_hours: u64) -> Option<u64>
    decreases items, items.len() - from,
{
    if 0 <= from < items.len() {
        match duration_value_of(items[from], workday_hours) {
            Some(seconds) => Some(seconds),
            None => first_duration(items, from + 1, workday_hours),
        }
    } else {
        None
    }
}

/// The seconds under the first of the preferred keys, from `rank` on, that
/// gives some.
pub open spec fn keyed_duration(
    members: Seq<(Seq<char>, JsonModel)>,
    rank: int,
    workday_hours: u64,
) -> Option<u64>
    decreases members, 6 - rank,
{
    if 0 <= rank < 6 {
        let at = member_index_from(members, duration_key_of(rank), 0);
        let found = if 0 <= at < members.len() {
            duration_value_of(members[at].1, workday_hours)
        } else {
            None
        };
        match found {
            Some(seconds) => Some(seconds),
            None => keyed_duration(members, rank + 1, workday_hours),
        }
    } else {
        None
    }
}

/// The key under which an object is looked up for its display text.
fn display_key(rank: usize) -> (key: &'static str)
    requires
        rank < 5,
    ensures
        key@ == display_key_of(rank as int),
{
    if rank == 0 {
        "display"
    } else if rank == 1 {
        "name"
    } else if rank == 2 {
        "value"
    } else if rank == 3 {
        "en"
    } else {
        "ru"
    }
}

/// The key under which an object is looked up for a duration.
fn duration_key(rank: usize) -> (key: &'static str)
    requires
        rank < 6,
    ensures
        key@ == duration_key_of(rank as int),
{
    if rank == 0 {
        "duration"
    } else if rank == 1 {
        "value"
    } else if rank == 2 {
        "display"
    } else if rank == 3 {
        "text"
    } else if rank == 4 {
        "en"
    } else {
        "ru"
    }
}

/// Position of the first member whose key is `key`, or the number of
/// members where there is none.
fn member_index(members: &Vec<JsonMember>, key: &str) -> (at: usize)
    ensures
        at == member_index_from(members_of(members@), key@, 0),
        at <= members.len(),
{
    let mut i: usize = 0;
    while i < members.len()
        invariant
            i <= members.len(),
            member_index_from(members_of(members@), key@, 0) == member_index_from(
                members_of(members@),
                key@,
                i as int,
            ),
        decreases members.len() - i,
    {
        if str_eq(members[i].key.as_str(), key) {
            return i;
        }
        i += 1;
    }
    i
}

/// The display text of a loosely typed value.
pub fn coerce_display_value(value: &JsonValue) -> (text: Option<String>)
    ensures
        opt_text(text) == display_of(value@),
    decreases value,
{
    match value {
        JsonValue::Null => None,
        JsonValue::Bool(flag) => {
            if *flag {
                Some("true".to_owned())
            } else {
                Some("false".to_owned())
            }
        },
        JsonValue::Number(number) => Some(number.text.clone()),
        JsonValue::Text(text) => nonblank_text(text.as_str()),
        JsonValue::Array(items) => {
            proof {
                lemma_array_view(*items);
            }
            let mut i: usize = 0;
            while i < items.len()
                invariant
                    i <= items.len(),
                    value is Array,
                    *items == value->Array_0,
                    display_of(value@) == first_display(models_of(items@), i as int),
                decreases items.len() - i,
            {
                let found = coerce_display_value(&items[i]);
                if found.is_some() {
                    return found;
                }
                i += 1;
            }
            None
        },
        JsonValue::Object(members) => {
            proof {
                lemma_object_view(*members);
            }
            let ghost all = members_of(members@);
            let mut rank: usize = 0;
            while rank < 5
                invariant
                    rank <= 5,
                    value is Object,
                    *members == value->Object_0,
                    all == members_of(members@),
                    value@ == JsonModel::Object(all),
                    keyed_display(all, 0) == keyed_display(all, rank as int),
                decreases 5 - rank,
            {
                let at = member_index(members, display_key(rank));
                if at < members.len() {
                    let found = coerce_display_value(&members[at].value);
                    if found.is_some() {
                        return found;
                    }
                }
                rank += 1;
            }
            let mut i: usize = 0;
            while i < members.len()
                invariant
                    i <= members.len(),
                    value is Object,
                    *members == value->Object_0,
                    all == members_of(members@),
                    keyed_display(all, 0) is None,
                    display_of(value@) == first_member_display(all, i as int),
                decreases members.len() - i,
            {
                let found = coerce_display_value(&members[i].value);
                if found.is_some() {
                    return found;
                }
                i += 1;
            }
            None
        },
    }
}

/// The seconds that a loosely typed duration stands for.
pub fn parse_duration_value_to_seconds(value: &JsonValue, workday_hours: u64) -> (seconds: Option<
    u64,
>)
    ensures
        seconds == duration_value_of(value@, workday_hours),
    decreases value,
{
    match value {
        JsonValue::Null => None,
        JsonValue::Bool(flag) => None,
        JsonValue::Number(number) => number.unsigned,
        JsonValue::Text(text) => parse_tracker_duration_to_seconds(text.as_str(), workday_hours),
        JsonValue::Array(items) => {
            proof {
                lemma_array_view(*items);
            }
            let mut i: usize = 0;
            while i < items.len()
                invariant
                    i <= items.len(),
                    value is Array,
                    *items == value->Array_0,
                    duration_value_of(value@, workday_hours) == first_duration(
                        models_of(items@),
                        i as int,
                        workday_hours,
                    ),
                decreases items.len() - i,
            {
                let found = parse_duration_value_to_seconds(&items[i], workday_hours);
                if found.is_some() {
                    return found;
                }
                i += 1;
            }
            None
        },
        JsonValue::Object(members) => {
            proof {
                lemma_object_view(*members);
            }
            let ghost all = members_of(members@);
            let mut rank: usize = 0;
            while rank < 6
                invariant
                    rank <= 6,
                    value is Object,
                    *members == value->Object_0,
                    all == members_of(members@),
                    duration_value_of(value@, workday_hours) == keyed_duration(
                        all,
                        rank as int,
                        workday_hours,
                    ),
                decreases 6 - rank,
            {
                let at = member_index(members, duration_key(rank));
                if at < members.len() {
                    let found = parse_duration_value_to_seconds(&members[at].value, workday_hours);
                    if found.is_some() {
                        return found;
                    }
                }
                rank += 1;
            }
            None
        },
    }
}

/// The display text of an optional loosely typed value.
pub open spec fn opt_display_of(value: Option<JsonValue>) -> Option<Seq<char>> {
    match value {
        Some(v) => display_of(v@),
        None => None,
    }
}

/// The display text of an optional loosely typed value.
pub fn coerce_optional(value: &Option<JsonValue>) -> (text: Option<String>)
    ensures
        opt_text(text) == opt_display_of(*value),
{
    match value {
        Some(v) => coerce_display_value(v),
        None => None,
    }
}

/// The first of two optional texts that is there.
pub open spec fn or_text(first: Option<Seq<char>>, second: Option<Seq<char>>) -> Option<Seq<char>> {
    if first is Some {
        first
    } else {
        second
    }
}

/// The text, or the fallback where there is none.
pub open spec fn text_or(value: Option<Seq<char>>, fallback: Seq<char>) -> Seq<char> {
    match value {
        Some(text) => text,
        None => fallback,
    }
}

/// The text of an optional string, or nothing where there is none.
pub fn text_or_empty(value: Option<String>) -> (text: String)
    ensures
        text@ == text_or(opt_text(value), Seq::empty()),
{
    match value {
        Some(text) => text,
        None => String::new(),
    }
}

/// The text, or the fallback where there is none.
pub fn text_or_else(value: Option<String>, fallback: &str) -> (text: String)
    ensures
        text@ == text_or(opt_text(value), fallback@),
{
    match value {
        Some(text) => text,
        None => fallback.to_owned(),
    }
}

/// The trimmed text of an optional string, or nothing where it is absent or
/// blank.
pub open spec fn opt_nonblank(value: Option<Seq<char>>) -> Option<Seq<char>> {
    match value {
        Some(text) => nonblank(text),
        None => None,
    }
}

/// The trimmed text of an optional string, or nothing where it is absent or
/// blank.
pub fn normalize_owned_string(value: Option<String>) -> (kept: Option<String>)
    ensures
        opt_text(kept) == opt_nonblank(opt_text(value)),
{
    match value {
        Some(text) => nonblank_text(text.as_str()),
        None => None,
    }
}

/// Key and label of a field: the key of the field where it is not blank, and
/// the display text of its display value. Where one of the two is missing
/// the other stands for both; where both are missing, or there is no field,
/// they are `unknown` and `Unknown`.
pub open spec fn field_ref_of(field: Option<models::IssueFieldRef>) -> (Seq<char>, Seq<char>) {
    match field {
        Some(value) => {
            let key = match opt_text(value.key_of()) {
                Some(text) => if crate::text::is_blank(text) {
                    None
                } else {
                    Some(text)
                },
                None => None,
            };
            let label = match value.display_value_of() {
                Some(display) => display_of(display),
                None => None,
            };
            match (key, label) {
                (Some(k), Some(l)) => (k, l),
                (Some(k), None) => (k, k),
                (None, Some(l)) => (l, l),
                (None, None) => ("unknown"@, "Unknown"@),
            }
        },
        None => ("unknown"@, "Unknown"@),
    }
}

/// Key and label of a field.
pub fn coerce_field_ref(field: Option<&models::IssueFieldRef>) -> (pair: (String, String))
    ensures
        (pair.0@, pair.1@) == field_ref_of(
            match field {
                Some(value) => Some(*value),
                None => None,
            },
        ),
{
    match field {
        Some(value) => {
            let key = match value.key() {
                Some(text) => if crate::text::str_is_blank(text.as_str()) {
                    None
                } else {
                    Some(text)
                },
                None => None,
            };
            let label = match value.display_value() {
                Some(display) => coerce_display_value(&display),
                None => None,
            };
            match (key, label) {
                (Some(k), Some(l)) => (k, l),
                (Some(k), None) => {
                    let copy = k.clone();
                    (k, copy)
                },
                (None, Some(l)) => {
                    let copy = l.clone();
                    (copy, l)
                },
                (None, None) => ("unknown".to_owned(), "Unknown".to_owned()),
            }
        },
        None => ("unknown".to_owned(), "Unknown".to_owned()),
    }
}

/// The seconds tracked on an issue: what `spent` gives, else what
/// `timeSpent` gives.
pub open spec fn tracked_seconds_of(issue: models::Issue, workday_hours: u64) -> Option<u64> {
    let spent = match issue.spent {
        Some(value) => duration_value_of(value@, workday_hours),
        None => None,
    };
    if spent is Some {
        spent
    } else {
        match issue.time_spent {
            Some(value) => duration_value_of(value@, workday_hours),
            None => None,
        }
    }
}

/// Whether `shown` is the issue as it is shown.
pub open spec fn is_issue_of(shown: Issue, issue: models::Issue, workday_hours: u64) -> bool {
    &&& shown.key@ == issue.key@
    &&& shown.summary@ == text_or(opt_text(issue.summary), Seq::empty())
    &&& shown.description@ == text_or(opt_text(issue.description), Seq::empty())
    &&& (shown.status.key@, shown.status.display@) == field_ref_of(issue.status)
    &&& (shown.priority.key@, shown.priority.display@) == field_ref_of(issue.priority)
    &&& shown.tracked_seconds == tracked_seconds_of(issue, workday_hours)
}

/// The issue as it is shown.
pub fn convert_issue_native(issue: models::Issue, workday_hours: u64) -> (shown: Issue)
    ensures
        is_issue_of(shown, issue, workday_hours),
{
    let (status_key, status_display) = coerce_field_ref(issue.status.as_ref());
    let (priority_key, priority_display) = coerce_field_ref(issue.priority.as_ref());
    let spent = match &issue.spent {
        Some(value) => parse_duration_value_to_seconds(value, workday_hours),
        None => None,
    };
    let tracked_seconds = if spent.is_some() {
        spent
    } else {
        match &issue.time_spent {
            Some(value) => parse_duration_value_to_seconds(value, workday_hours),
            None => None,
        }
    };
    Issue {
        key: issue.key,
        summary: text_or_empty(issue.summary),
        description: text_or_empty(issue.description),
        status: Status { key: status_key, display: status_display },
        priority: Priority { key: priority_key, display: priority_display },
        tracked_seconds,
    }
}

/// The issues as they are shown, in order.
pub fn convert_issues_native(items: Vec<models::Issue>, workday_hours: u64) -> (shown: Vec<Issue>)
    ensures
        shown.len() == items.len(),
        forall|i: int| 0 <= i < items.len() ==> is_issue_of(#[trigger] shown[i], items[i], workday_hours),
{
    let ghost given = items@;
    let mut rest = reversed(items);
    let mut shown: Vec<Issue> = Vec::new();
    while rest.len() > 0
        invariant
            rest.len() + shown.len() == given.len(),
            rest@ == given.reverse().take(rest.len() as int),
            forall|k: int| 0 <= k < shown.len() ==> is_issue_of(#[trigger] shown[k], given[k], workday_hours),
        decreases rest.len(),
    {
        let item = rest.pop().unwrap();
        assert(rest@ =~= given.reverse().take(rest.len() as int));
        assert(item == given[shown.len() as int]);
        shown.push(convert_issue_native(item, workday_hours));
    }
    shown
}

/// The key of a directory entry: the first of the two ids that is there,
/// trimmed; `unknown` where none is there or it is blank.
pub open spec fn entity_key_of(first: Option<Seq<char>>, second: Option<Seq<char>>) -> Seq<char> {
    text_or(opt_nonblank(or_text(first, second)), "unknown"@)
}

/// The display text of an entity: that of `display`, else that of `name`.
pub open spec fn entity_display_of(display: Option<JsonValue>, name: Option<JsonValue>) -> Option<
    Seq<char>,
> {
    or_text(opt_display_of(display), opt_display_of(name))
}

/// Whether `shown` is the directory entry as it is shown, its key taken from
/// `key` before `id`.
pub open spec fn is_simple_entity_of(shown: SimpleEntity, entity: models::SimpleEntityRaw) -> bool {
    &&& shown.key@ == entity_key_of(opt_text(entity.key), opt_text(entity.id))
    &&& shown.display@ == text_or(entity_display_of(entity.display, entity.name), shown.key@)
}

/// Whether `shown` is the project as it is shown, its key taken from `id`
/// before `key`.
pub open spec fn is_project_entity_of(shown: SimpleEntity, entity: models::SimpleEntityRaw) -> bool {
    &&& shown.key@ == entity_key_of(opt_text(entity.id), opt_text(entity.key))
    &&& shown.display@ == text_or(entity_display_of(entity.display, entity.name), shown.key@)
}

/// The key of a directory entry.
fn entity_key(first: &Option<String>, second: &Option<String>) -> (key: String)
    ensures
        key@ == entity_key_of(opt_text(*first), opt_text(*second)),
{
    let picked = match first {
        Some(text) => Some(text),
        None => match second {
            Some(text) => Some(text),
            None => None,
        },
    };
    match picked {
        Some(text) => text_or_else(nonblank_text(text.as_str()), "unknown"),
        None => "unknown".to_owned(),
    }
}

/// The display text of an entity.
fn entity_display(display: &Option<JsonValue>, name: &Option<JsonValue>) -> (text: Option<String>)
    ensures
        opt_text(text) == entity_display_of(*display, *name),
{
    let first = coerce_optional(display);
    if first.is_some() {
        first
    } else {
        coerce_optional(name)
    }
}

/// The directory entry as it is shown.
pub fn convert_simple_entity_native(entity: models::SimpleEntityRaw) -> (shown: SimpleEntity)
    ensures
        is_simple_entity_of(shown, entity),
{
    let key = entity_key(&entity.key, &entity.id);
    let display = match entity_display(&entity.display, &entity.name) {
        Some(text) => text,
        None => key.clone(),
    };
    SimpleEntity { key, display }
}

/// The project as it is shown.
pub fn convert_project_entity_native(entity: models::SimpleEntityRaw) -> (shown: SimpleEntity)
    ensures
        is_project_entity_of(shown, entity),
{
    let key = entity_key(&entity.id, &entity.key);
    let display = match entity_display(&entity.display, &entity.name) {
        Some(text) => text,
        None => key.clone(),
    };
    SimpleEntity { key, display }
}

/// The status that a transition leads to, as it is shown: key and display
/// text where the destination has a key that is not blank; the key stands
/// for a missing display text. Nothing where there is no destination or no
/// key.
pub open spec fn transition_status_of(status: Option<models::TransitionDestination>) -> Option<
    (Seq<char>, Seq<char>),
> {
    match status {
        Some(destination) => {
            let key = opt_nonblank(or_text(opt_text(destination.key), opt_text(destination.id)));
            match key {
                Some(k) => Some(
                    (k, text_or(entity_display_of(destination.display, destination.name), k)),
                ),
                None => None,
            }
        },
        None => None,
    }
}

/// Key and display text of an optional status.
pub open spec fn opt_status_text(status: Option<Status>) -> Option<(Seq<char>, Seq<char>)> {
    match status {
        Some(s) => Some((s.key@, s.display@)),
        None => None,
    }
}

/// The status that a transition leads to, as it is shown.
pub fn convert_transition_status(status: Option<&models::TransitionDestination>) -> (shown: Option<
    Status,
>)
    ensures
        opt_status_text(shown) == transition_status_of(
            match status {
                Some(destination) => Some(*destination),
                None => None,
            },
        ),
{
    match status {
        Some(destination) => {
            let picked = match &destination.key {
                Some(text) => Some(text),
                None => match &destination.id {
                    Some(text) => Some(text),
                    None => None,
                },
            };
            let key = match picked {
                Some(text) => nonblank_text(text.as_str()),
                None => None,
            };
            match key {
                Some(k) => {
                    let display = match entity_display(&destination.display, &destination.name) {
                        Some(text) => text,
                        None => k.clone(),
                    };
                    Some(Status { key: k, display })
                },
                None => None,
            }
        },
        None => None,
    }
}

/// The name of an author: the display text, else the login, else the email,
/// else `Unknown`.
pub open spec fn author_of(author: Option<models::CommentAuthor>) -> Seq<char> {
    match author {
        Some(user) => text_or(
            or_text(or_text(opt_display_of(user.display), opt_text(user.login)), opt_text(user.email)),
            "Unknown"@,
        ),
        None => "Unknown"@,
    }
}

/// The name of an author.
pub fn coerce_comment_author(author: &Option<models::CommentAuthor>) -> (name: String)
    ensures
        name@ == author_of(*author),
{
    match author {
        Some(user) => {
            match coerce_optional(&user.display) {
                Some(text) => text,
                None => match &user.login {
                    Some(login) => login.clone(),
                    None => match &user.email {
                        Some(email) => email.clone(),
                        None => "Unknown".to_owned(),
                    },
                },
            }
        },
        None => "Unknown".to_owned(),
    }
}

/// Whether `shown` is the transition as it is shown.
pub open spec fn is_transition_of(shown: Transition, transition: models::Transition) -> bool {
    &&& shown.id@ == text_or(opt_text(transition.id), "unknown"@)
    &&& shown.name@ == text_or(
        entity_display_of(transition.display, transition.name),
        "Transition"@,
    )
    &&& opt_status_text(shown.to_status) == if transition_status_of(transition.status) is Some {
        transition_status_of(transition.status)
    } else {
        transition_status_of(transition.to)
    }
}

/// The transition as it is shown.
pub fn convert_transition_native(transition: models::Transition) -> (shown: Transition)
    ensures
        is_transition_of(shown, transition),
{
    let name = text_or_else(entity_display(&transition.display, &transition.name), "Transition");
    let first = convert_transition_status(transition.status.as_ref());
    let to_status = if first.is_some() {
        first
    } else {
        convert_transition_status(transition.to.as_ref())
    };
    Transition { id: text_or_else(transition.id, "unknown"), name, to_status }
}

/// Whether `shown` is the comment as it is shown.
pub open spec fn is_comment_of(shown: Comment, comment: models::Comment) -> bool {
    &&& shown.id@ == text_or(display_of(comment.id@), Seq::empty())
    &&& shown.text@ == text_or(opt_text(comment.text), Seq::empty())
    &&& shown.author@ == author_of(comment.created_by)
    &&& shown.created_at@ == text_or(opt_text(comment.created_at), Seq::empty())
}

/// The comment as it is shown.
pub fn convert_comment_native(comment: models::Comment) -> (shown: Comment)
    ensures
        is_comment_of(shown, comment),
{
    Comment {
        id: text_or_empty(coerce_display_value(&comment.id)),
        author: coerce_comment_author(&comment.created_by),
        text: text_or_empty(comment.text),
        created_at: text_or_empty(comment.created_at),
    }
}

/// Whether `shown` is the attachment as it is shown.
pub open spec fn is_attachment_of(shown: Attachment, attachment: models::AttachmentMetadata) -> bool {
    &&& shown.id@ == text_or(display_of(attachment.id@), Seq::empty())
    &&& shown.name@ == text_or(opt_display_of(attachment.name), "Attachment"@)
    &&& shown.url@ == text_or(opt_text(attachment.content), Seq::empty())
    &&& opt_text(shown.mime_type) == or_text(
        opt_text(attachment.mime_type),
        opt_text(attachment.mimetype),
    )
}

/// The attachment as it is shown.
pub fn convert_attachment_native(attachment: models::AttachmentMetadata) -> (shown: Attachment)
    ensures
        is_attachment_of(shown, attachment),
{
    let id = text_or_empty(coerce_display_value(&attachment.id));
    let name = text_or_else(coerce_optional(&attachment.name), "Attachment");
    let mime_type = if attachment.mime_type.is_some() {
        attachment.mime_type
    } else {
        attachment.mimetype
    };
    Attachment { id, name, url: text_or_empty(attachment.content), mime_type }
}

/// The address to download an attachment from: its `content`, where that is
/// not blank.
pub fn attachment_download_url(attachment: &models::AttachmentMetadata) -> (url: Result<
    String,
    String,
>)
    ensures
        match attachment.content {
            Some(content) => if crate::text::is_blank(content@) {
                url matches Err(m) && m@ == "Attachment is missing download URL"@
            } else {
                url matches Ok(u) && u@ == content@
            },
            None => url matches Err(m) && m@ == "Attachment is missing download URL"@,
        },
{
    match &attachment.content {
        Some(content) => {
            if crate::text::str_is_blank(content.as_str()) {
                Err("Attachment is missing download URL".to_owned())
            } else {
                Ok(content.clone())
            }
        },
        None => Err("Attachment is missing download URL".to_owned()),
    }
}

/// The content type of an attachment: that of the response, else `mimeType`,
/// else `mimetype`, else `application/octet-stream`.
pub fn attachment_mime_type(attachment: &models::AttachmentMetadata, response_mime: Option<String>) -> (mime:
    String)
    ensures
        mime@ == text_or(
            or_text(
                or_text(opt_text(response_mime), opt_text(attachment.mime_type)),
                opt_text(attachment.mimetype),
            ),
            "application/octet-stream"@,
        ),
{
    match response_mime {
        Some(mime) => mime,
        None => match &attachment.mime_type {
            Some(mime) => mime.clone(),
            None => match &attachment.mimetype {
                Some(mime) => mime.clone(),
                None => "application/octet-stream".to_owned(),
            },
        },
    }
}

/// The profile of a user as it is shown.
pub fn convert_user_profile(profile: models::UserProfile) -> (shown: UserProfile)
    ensures
        shown.display == profile.display,
        shown.login == profile.login,
        shown.email == profile.email,
        shown.avatar_url == profile.avatar_of(),
{
    let avatar_url = profile.avatar();
    UserProfile {
        display: profile.display,
        login: profile.login,
        email: profile.email,
        avatar_url,
    }
}

/// The text of a scalar field: a string trimmed, where something is left; a
/// number or a boolean as it prints.
pub open spec fn scalar_text_of(value: JsonModel) -> Option<Seq<char>> {
    match value {
        JsonModel::Text(text) => nonblank(text),
        JsonModel::Number { text, unsigned } => Some(text),
        JsonModel::Bool(flag) => Some(bool_text_of(flag)),
        _ => None,
    }
}

/// The text of a scalar field. An array or an object is reported as such.
pub fn string_field(value: &JsonValue) -> (field: ScalarText)
    ensures
        match field {
            ScalarText::Text(text) => scalar_text_of(value@) == Some(text@),
            ScalarText::Absent => scalar_text_of(value@) is None && !(value@ is Array) && !(value@
                is Object),
            ScalarText::Composite => value@ is Array || value@ is Object,
        },
{
    match value {
        JsonValue::Null => ScalarText::Absent,
        JsonValue::Bool(flag) => {
            if *flag {
                ScalarText::Text("true".to_owned())
            } else {
                ScalarText::Text("false".to_owned())
            }
        },
        JsonValue::Number(number) => ScalarText::Text(number.text.clone()),
        JsonValue::Text(text) => match nonblank_text(text.as_str()) {
            Some(kept) => ScalarText::Text(kept),
            None => ScalarText::Absent,
        },
        JsonValue::Array(items) => ScalarText::Composite,
        JsonValue::Object(members) => ScalarText::Composite,
    }
}

/// The id of a checklist item as text: a string trimmed, a number, a boolean
/// or `null` as it prints. Nothing for an array or an object.
pub open spec fn checklist_id_of(value: JsonModel) -> Option<Seq<char>> {
    match value {
        JsonModel::Text(text) => Some(trimmed(text)),
        JsonModel::Number { text, unsigned } => Some(text),
        JsonModel::Bool(flag) => Some(bool_text_of(flag)),
        JsonModel::Null => Some("null"@),
        _ => None,
    }
}

/// The id of a checklist item as text.
pub fn checklist_item_id_string(value: &JsonValue) -> (id: Option<String>)
    ensures
        opt_text(id) == checklist_id_of(value@),
{
    match value {
        JsonValue::Text(text) => Some(trim_str(text.as_str())),
        JsonValue::Number(number) => Some(number.text.clone()),
        JsonValue::Bool(flag) => {
            if *flag {
                Some("true".to_owned())
            } else {
                Some("false".to_owned())
            }
        },
        JsonValue::Null => Some("null".to_owned()),
        JsonValue::Array(items) => None,
        JsonValue::Object(members) => None,
    }
}

/// Whether `shown` is the checklist item as it is shown, with the given id.
pub open spec fn is_checklist_item_of(shown: ChecklistItem, item: models::ChecklistItem) -> bool {
    &&& shown.id@ == text_or(checklist_id_of(item.id@), Seq::empty())
    &&& shown.text@ == text_or(opt_text(item.text), Seq::empty())
    &&& shown.checked == (item.checked == Some(true))
    &&& shown.assignee == match item.assignee {
        Some(a) => if a.display is Some {
            a.display
        } else {
            a.login
        },
        None => None,
    }
    &&& shown.deadline == match item.deadline {
        Some(d) => d.date,
        None => None,
    }
    &&& shown.deadline_type == match item.deadline {
        Some(d) => d.deadline_type,
        None => None,
    }
    &&& shown.is_exceeded == match item.deadline {
        Some(d) => d.is_exceeded,
        None => None,
    }
    &&& shown.item_type == item.checklist_item_type
}

/// The checklist item as it is shown. The id of an item whose id is an
/// array or an object is left empty.
pub fn convert_checklist_item_native(item: models::ChecklistItem) -> (shown: ChecklistItem)
    ensures
        is_checklist_item_of(shown, item),
{
    let id = text_or_empty(checklist_item_id_string(&item.id));
    let assignee = match &item.assignee {
        Some(a) => match &a.display {
            Some(display) => Some(display.clone()),
            None => clone_text_option(&a.login),
        },
        None => None,
    };
    let (deadline, deadline_type, is_exceeded) = match &item.deadline {
        Some(d) => (clone_text_option(&d.date), clone_text_option(&d.deadline_type), d.is_exceeded),
        None => (None, None, None),
    };
    let checked = match item.checked {
        Some(flag) => flag,
        None => false,
    };
    ChecklistItem {
        id,
        text: text_or_empty(item.text),
        checked,
        assignee,
        deadline,
        deadline_type,
        is_exceeded,
        item_type: item.checklist_item_type,
    }
}

/// Whether `shown` is the worklog entry as it is shown.
pub open spec fn is_worklog_of(
    shown: WorklogEntry,
    entry: models::WorklogEntry,
    workday_hours: u64,
) -> bool {
    &&& shown.id@ == text_or(display_of(entry.id@), Seq::empty())
    &&& shown.date@ == text_or(
        or_text(opt_text(entry.start), opt_text(entry.created_at)),
        Seq::empty(),
    )
    &&& shown.duration_seconds == match entry.duration {
        Some(text) => match tracker_seconds_of(text@, workday_hours) {
            Some(seconds) => seconds,
            None => 0,
        },
        None => 0,
    }
    &&& shown.comment@ == text_or(opt_text(entry.comment), Seq::empty())
    &&& shown.author@ == author_of(entry.created_by)
}

/// The worklog entry as it is shown.
pub fn convert_worklog_native(entry: models::WorklogEntry, workday_hours: u64) -> (shown:
    WorklogEntry)
    ensures
        is_worklog_of(shown, entry, workday_hours),
{
    let id = text_or_empty(coerce_display_value(&entry.id));
    let author = coerce_comment_author(&entry.created_by);
    let duration_seconds: u64 = match &entry.duration {
        Some(text) => match parse_tracker_duration_to_seconds(text.as_str(), workday_hours) {
            Some(seconds) => seconds,
            None => 0,
        },
        None => 0,
    };
    let date = if entry.start.is_some() {
        text_or_empty(entry.start)
    } else {
        text_or_empty(entry.created_at)
    };
    WorklogEntry { id, date, duration_seconds, comment: text_or_empty(entry.comment), author }
}

/// The directory entries as they are shown, in order.
pub fn convert_simple_entities_native(items: Vec<models::SimpleEntityRaw>) -> (shown: Vec<SimpleEntity>)
    ensures
        shown.len() == items.len(),
        forall|i: int| 0 <= i < items.len() ==> is_simple_entity_of(#[trigger] shown[i], items[i]),
{
    let ghost given = items@;
    let mut rest = reversed(items);
    let mut shown: Vec<SimpleEntity> = Vec::new();
    while rest.len() > 0
        invariant
            rest.len() + shown.len() == given.len(),
            rest@ == given.reverse().take(rest.len() as int),
            forall|k: int| 0 <= k < shown.len() ==> is_simple_entity_of(#[trigger] shown[k], given[k]),
        decreases rest.len(),
    {
        let item = rest.pop().unwrap();
        assert(rest@ =~= given.reverse().take(rest.len() as int));
        assert(item == given[shown.len() as int]);
        shown.push(convert_simple_entity_native(item));
    }
    shown
}

/// The projects as they are shown, in order.
pub fn convert_project_entities_native(items: Vec<models::SimpleEntityRaw>) -> (shown: Vec<SimpleEntity>)
    ensures
        shown.len() == items.len(),
        forall|i: int| 0 <= i < items.len() ==> is_project_entity_of(#[trigger] shown[i], items[i]),
{
    let ghost given = items@;
    let mut rest = reversed(items);
    let mut shown: Vec<SimpleEntity> = Vec::new();
    while rest.len() > 0
        invariant
            rest.len() + shown.len() == given.len(),
            rest@ == given.reverse().take(rest.len() as int),
            forall|k: int| 0 <= k < shown.len() ==> is_project_entity_of(#[trigger] shown[k], given[k]),
        decreases rest.len(),
    {
        let item = rest.pop().unwrap();
        assert(rest@ =~= given.reverse().take(rest.len() as int));
        assert(item == given[shown.len() as int]);
        shown.push(convert_project_entity_native(item));
    }
    shown
}

/// The transitions as they are shown, in order.
pub fn convert_transitions_native(items: Vec<models::Transition>) -> (shown: Vec<Transition>)
    ensures
        shown.len() == items.len(),
        forall|i: int| 0 <= i < items.len() ==> is_transition_of(#[trigger] shown[i], items[i]),
{
    let ghost given = items@;
    let mut rest = reversed(items);
    let mut shown: Vec<Transition> = Vec::new();
    while rest.len() > 0
        invariant
            rest.len() + shown.len() == given.len(),
            rest@ == given.reverse().take(rest.len() as int),
            forall|k: int| 0 <= k < shown.len() ==> is_transition_of(#[trigger] shown[k], given[k]),
        decreases rest.len(),
    {
        let item = rest.pop().unwrap();
        assert(rest@ =~= given.reverse().take(rest.len() as int));
        assert(item == given[shown.len() as int]);
        shown.push(convert_transition_native(item));
    }
    shown
}

/// The comments as they are shown, in order.
pub fn convert_comments_native(items: Vec<models::Comment>) -> (shown: Vec<Comment>)
    ensures
        shown.len() == items.len(),
        forall|i: int| 0 <= i < items.len() ==> is_comment_of(#[trigger] shown[i], items[i]),
{
    let ghost given = items@;
    let mut rest = reversed(items);
    let mut shown: Vec<Comment> = Vec::new();
    while rest.len() > 0
        invariant
            rest.len() + shown.len() == given.len(),
            rest@ == given.reverse().take(rest.len() as int),
            forall|k: int| 0 <= k < shown.len() ==> is_comment_of(#[trigger] shown[k], given[k]),
        decreases rest.len(),
    {
        let item = rest.pop().unwrap();
        assert(rest@ =~= given.reverse().take(rest.len() as int));
        assert(item == given[shown.len() as int]);
        shown.push(convert_comment_native(item));
    }
    shown
}

/// The attachments as they are shown, in order.
pub fn convert_attachments_native(items: Vec<models::AttachmentMetadata>) -> (shown: Vec<Attachment>)
    ensures
        shown.len() == items.len(),
        forall|i: int| 0 <= i < items.len() ==> is_attachment_of(#[trigger] shown[i], items[i]),
{
    let ghost given = items@;
    let mut rest = reversed(items);
    let mut shown: Vec<Attachment> = Vec::new();
    while rest.len() > 0
        invariant
            rest.len() + shown.len() == given.len(),
            rest@ == given.reverse().take(rest.len() as int),
            forall|k: int| 0 <= k < shown.len() ==> is_attachment_of(#[trigger] shown[k], given[k]),
        decreases rest.len(),
    {
        let item = rest.pop().unwrap();
        assert(rest@ =~= given.reverse().take(rest.len() as int));
        assert(item == given[shown.len() as int]);
        shown.push(convert_attachment_native(item));
    }
    shown
}

/// The checklist items as they are shown, in order.
pub fn convert_checklist_items_native(items: Vec<models::ChecklistItem>) -> (shown: Vec<ChecklistItem>)
    ensures
        shown.len() == items.len(),
        forall|i: int| 0 <= i < items.len() ==> is_checklist_item_of(#[trigger] shown[i], items[i]),
{
    let ghost given = items@;
    let mut rest = reversed(items);
    let mut shown: Vec<ChecklistItem> = Vec::new();
    while rest.len() > 0
        invariant
            rest.len() + shown.len() == given.len(),
            rest@ == given.reverse().take(rest.len() as int),
            forall|k: int| 0 <= k < shown.len() ==> is_checklist_item_of(#[trigger] shown[k], given[k]),
        decreases rest.len(),
    {
        let item = rest.pop().unwrap();
        assert(rest@ =~= given.reverse().take(rest.len() as int));
        assert(item == given[shown.len() as int]);
        shown.push(convert_checklist_item_native(item));
    }
    shown
}

/// The worklog entries as they are shown, in order.
pub fn convert_worklogs_native(items: Vec<models::WorklogEntry>, workday_hours: u64) -> (shown: Vec<WorklogEntry>)
    ensures
        shown.len() == items.len(),
        forall|i: int| 0 <= i < items.len() ==> is_worklog_of(#[trigger] shown[i], items[i], workday_hours),
{
    let ghost given = items@;
    let mut rest = reversed(items);
    let mut shown: Vec<WorklogEntry> = Vec::new();
    while rest.len() > 0
        invariant
            rest.len() + shown.len() == given.len(),
            rest@ == given.reverse().take(rest.len() as int),
            forall|k: int| 0 <= k < shown.len() ==> is_worklog_of(#[trigger] shown[k], given[k], workday_hours),
        decreases rest.len(),
    {
        let item = rest.pop().unwrap();
        assert(rest@ =~= given.reverse().take(rest.len() as int));
        assert(item == given[shown.len() as int]);
        shown.push(convert_worklog_native(item, workday_hours));
    }
    shown
}

} // verus!
