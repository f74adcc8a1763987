//! The tracker's entities as they arrive on the wire.
//!
//! Loosely typed fields are kept as `JsonValue`; the rules that read them are
//! in the `bridge` module.

use crate::json::{duplicate_json, opt_json, JsonMember, JsonModel, JsonValue};
use crate::text::clone_text_option;
use vstd::prelude::*;

verus! {

/// The profile of a user.
#[derive(Debug)]
pub struct UserProfile {
    pub display: Option<String>,
    pub login: Option<String>,
    pub email: Option<String>,
    pub avatar_url: Option<String>,
    pub avatar_id: Option<String>,
}

impl UserProfile {
    /// The avatar of the user: its URL where there is one, else its id.
    pub open spec fn avatar_of(self) -> Option<String> {
        if self.avatar_url is Some {
            self.avatar_url
        } else {
            self.avatar_id
        }
    }

    /// The avatar of the user: its URL where there is one, else its id.
    pub fn avatar(&self) -> (avatar: Option<String>)
        ensures
            avatar == self.avatar_of(),
    {
        match &self.avatar_url {
            Some(url) => Some(url.clone()),
            None => clone_text_option(&self.avatar_id),
        }
    }
}

/// A field reference in its structured form.
#[derive(Debug)]
pub struct IssueFieldPayload {
    pub id: Option<String>,
    pub key: Option<String>,
    pub display: Option<JsonValue>,
    pub name: Option<JsonValue>,
    pub extra: Vec<JsonMember>,
}

/// A status, priority or similar field, which the server sends either as a
/// bare string or as an object.
#[derive(Debug)]
pub enum IssueFieldRef {
    Object(IssueFieldPayload),
    Text(String),
}

impl IssueFieldRef {
    /// The key of the field: of an object its `key`, else its `id`; of a bare
    /// string the string.
    pub open spec fn key_of(self) -> Option<String> {
        match self {
            IssueFieldRef::Object(payload) => if payload.key is Some {
                payload.key
            } else {
                payload.id
            },
            IssueFieldRef::Text(value) => Some(value),
        }
    }

    /// The display value of the field: of an object its `display`, else its
    /// `name`; of a bare string the string as a JSON string.
    pub open spec fn display_value_of(self) -> Option<JsonModel> {
        match self {
            IssueFieldRef::Object(payload) => if payload.display is Some {
                opt_json(payload.display)
            } else {
                opt_json(payload.name)
            },
            IssueFieldRef::Text(value) => Some(JsonModel::Text(value@)),
        }
    }

    /// The key of the field.
    pub fn key(&self) -> (key: Option<String>)
        ensures
            key == self.key_of(),
    {
        match self {
            IssueFieldRef::Object(payload) => match &payload.key {
                Some(key) => Some(key.clone()),
                None => clone_text_option(&payload.id),
            },
            IssueFieldRef::Text(value) => Some(value.clone()),
        }
    }

    /// The display value of the field.
    pub fn display_value(&self) -> (value: Option<JsonValue>)
        ensures
            opt_json(value) == self.display_value_of(),
    {
        match self {
            IssueFieldRef::Object(payload) => match &payload.display {
                Some(display) => Some(duplicate_json(display)),
                None => match &payload.name {
                    Some(name) => Some(duplicate_json(name)),
                    None => None,
                },
            },
            IssueFieldRef::Text(value) => Some(JsonValue::Text(value.clone())),
        }
    }
}

/// An issue.
#[derive(Debug)]
pub struct Issue {
    pub key: String,
    pub summary: Option<String>,
    pub description: Option<String>,
    pub status: Option<IssueFieldRef>,
    pub priority: Option<IssueFieldRef>,
    pub spent: Option<JsonValue>,
    pub time_spent: Option<JsonValue>,
}

/// A status, resolution, queue, project or similar directory entry.
#[derive(Debug)]
pub struct SimpleEntityRaw {
    pub id: Option<String>,
    pub key: Option<String>,
    pub name: Option<JsonValue>,
    pub display: Option<JsonValue>,
    pub extra: Vec<JsonMember>,
}

/// The status a transition leads to.
#[derive(Debug)]
pub struct TransitionDestination {
    pub id: Option<String>,
    pub key: Option<String>,
    pub display: Option<JsonValue>,
    pub name: Option<JsonValue>,
    pub kind: Option<String>,
}

/// A transition that an issue can take.
#[derive(Debug)]
pub struct Transition {
    pub id: Option<String>,
    pub name: Option<JsonValue>,
    pub display: Option<JsonValue>,
    pub description: Option<String>,
    pub to: Option<TransitionDestination>,
    pub status: Option<TransitionDestination>,
}

/// The author of a comment or a worklog entry.
#[derive(Debug)]
pub struct CommentAuthor {
    pub display: Option<JsonValue>,
    pub login: Option<String>,
    pub email: Option<String>,
}

/// A comment on an issue.
#[derive(Debug)]
pub struct Comment {
    pub id: JsonValue,
    pub text: Option<String>,
    pub text_html: Option<String>,
    pub created_at: Option<String>,
    pub updated_at: Option<String>,
    pub created_by: Option<CommentAuthor>,
    pub updated_by: Option<CommentAuthor>,
}

/// What the server tells of an attachment.
#[derive(Debug)]
pub struct AttachmentMetadata {
    pub id: JsonValue,
    pub name: Option<JsonValue>,
    pub content: Option<String>,
    pub thumbnail: Option<String>,
    pub mimetype: Option<String>,
    pub mime_type: Option<String>,
    pub size: Option<u64>,
}

/// The assignee of a checklist item.
#[derive(Debug)]
pub struct ChecklistAssignee {
    pub id: Option<JsonValue>,
    pub display: Option<String>,
    pub login: Option<String>,
}

/// The deadline of a checklist item.
#[derive(Debug)]
pub struct ChecklistDeadline {
    pub date: Option<String>,
    pub deadline_type: Option<String>,
    pub is_exceeded: Option<bool>,
}

/// One item of an issue's checklist.
#[derive(Debug)]
pub struct ChecklistItem {
    pub id: JsonValue,
    pub text: Option<String>,
    pub text_html: Option<String>,
    pub checked: Option<bool>,
    pub assignee: Option<ChecklistAssignee>,
    pub deadline: Option<ChecklistDeadline>,
    pub checklist_item_type: Option<String>,
}

/// The deadline sent when a checklist item is created or edited.
#[derive(Debug)]
pub struct ChecklistDeadlineInput {
    pub date: String,
    pub deadline_type: Option<String>,
}

/// What is sent to create a checklist item.
#[derive(Debug)]
pub struct ChecklistItemCreate {
    pub text: String,
    pub checked: Option<bool>,
    pub assignee: Option<String>,
    pub deadline: Option<ChecklistDeadlineInput>,
}

/// What is sent to edit a checklist item.
#[derive(Debug)]
pub struct ChecklistItemUpdate {
    pub text: Option<String>,
    pub checked: Option<bool>,
    pub assignee: Option<String>,
    pub deadline: Option<ChecklistDeadlineInput>,
}

/// One entry of an issue's worklog.
#[derive(Debug)]
pub struct WorklogEntry {
    pub id: JsonValue,
    pub issue: Option<SimpleEntityRaw>,
    pub comment: Option<String>,
    pub created_by: Option<CommentAuthor>,
    pub created_at: Option<String>,
    pub start: Option<String>,
    pub duration: Option<String>,
}

/// The answer of the token endpoint.
#[derive(Debug)]
pub struct TokenResponse {
    pub access_token: String,
    pub token_type: Option<String>,
    pub expires_in: Option<i64>,
    pub scope: Option<String>,
}

/// A downloaded body and the content type that came with it.
#[derive(Debug)]
pub struct BinaryContent {
    pub bytes: Vec<u8>,
    pub mime_type: Option<String>,
}

} // verus!
