use ytracker::bridge::{
    attachment_download_url, attachment_mime_type, checklist_item_id_string, coerce_comment_author,
    coerce_display_value, coerce_field_ref, convert_attachments_native,
    convert_checklist_items_native, convert_comments_native, convert_issue_native,
    convert_issues_native, convert_project_entities_native, convert_project_entity_native,
    convert_simple_entities_native, convert_simple_entity_native, convert_transition_status,
    convert_transitions_native, convert_user_profile, convert_worklogs_native,
    normalize_owned_string, parse_duration_value_to_seconds, string_field, ScalarText,
};
use ytracker::json::{JsonMember, JsonNumber, JsonValue};
use ytracker::models::{
    AttachmentMetadata, ChecklistAssignee, ChecklistDeadline, ChecklistItem, Comment,
    CommentAuthor, Issue, IssueFieldPayload, IssueFieldRef, SimpleEntityRaw, Transition,
    TransitionDestination, UserProfile, WorklogEntry,
};

fn text(value: &str) -> JsonValue {
    JsonValue::Text(value.to_string())
}

fn number(n: u64) -> JsonValue {
    JsonValue::Number(JsonNumber { text: n.to_string(), unsigned: Some(n) })
}

fn object(members: Vec<(&str, JsonValue)>) -> JsonValue {
    JsonValue::Object(members.into_iter().map(|(key, value)| JsonMember { key: key.to_string(), value }).collect())
}

fn some(value: &str) -> Option<String> {
    Some(value.to_string())
}

fn payload(id: Option<&str>, key: Option<&str>, display: Option<JsonValue>, name: Option<JsonValue>) -> IssueFieldRef {
    IssueFieldRef::Object(IssueFieldPayload {
        id: id.map(str::to_string),
        key: key.map(str::to_string),
        display,
        name,
        extra: Vec::new(),
    })
}

fn entity(id: Option<&str>, key: Option<&str>, name: Option<JsonValue>, display: Option<JsonValue>) -> SimpleEntityRaw {
    SimpleEntityRaw { id: id.map(str::to_string), key: key.map(str::to_string), name, display, extra: Vec::new() }
}

fn destination(id: Option<&str>, key: Option<&str>, display: Option<JsonValue>, name: Option<JsonValue>) -> TransitionDestination {
    TransitionDestination { id: id.map(str::to_string), key: key.map(str::to_string), display, name, kind: None }
}

#[test]
fn display_text_of_scalars() {
    assert_eq!(coerce_display_value(&text("  Open ")).as_deref(), Some("Open"));
    assert_eq!(coerce_display_value(&text("   ")), None);
    assert_eq!(coerce_display_value(&number(7)).as_deref(), Some("7"));
    assert_eq!(coerce_display_value(&JsonValue::Bool(true)).as_deref(), Some("true"));
    assert_eq!(coerce_display_value(&JsonValue::Bool(false)).as_deref(), Some("false"));
    assert_eq!(coerce_display_value(&JsonValue::Null), None);
}

#[test]
fn display_text_of_objects_prefers_known_keys_in_order() {
    let value = object(vec![("ru", text("Открыт")), ("en", text("Open")), ("name", text("Named")), ("display", text("Shown"))]);
    assert_eq!(coerce_display_value(&value).as_deref(), Some("Shown"));
    let value = object(vec![("ru", text("Открыт")), ("en", text("Open")), ("name", text(" ")), ("display", JsonValue::Null)]);
    assert_eq!(coerce_display_value(&value).as_deref(), Some("Open"));
    let value = object(vec![("ru", text("Открыт")), ("value", number(3))]);
    assert_eq!(coerce_display_value(&value).as_deref(), Some("3"));
    let value = object(vec![("zz", JsonValue::Null), ("other", text(" first ")), ("more", text("second"))]);
    assert_eq!(coerce_display_value(&value).as_deref(), Some("first"));
    let value = object(vec![("display", object(vec![("en", text("Deep"))]))]);
    assert_eq!(coerce_display_value(&value).as_deref(), Some("Deep"));
    assert_eq!(coerce_display_value(&object(Vec::new())), None);
    assert_eq!(coerce_display_value(&object(vec![("a", JsonValue::Null), ("b", text(""))])), None);
}

#[test]
fn display_text_of_arrays_is_that_of_the_first_item_that_has_one() {
    let value = JsonValue::Array(vec![JsonValue::Null, text(" "), object(vec![("name", text("N"))]), text("later")]);
    assert_eq!(coerce_display_value(&value).as_deref(), Some("N"));
    assert_eq!(coerce_display_value(&JsonValue::Array(Vec::new())), None);
    assert_eq!(coerce_display_value(&JsonValue::Array(vec![JsonValue::Array(vec![number(1)])])).as_deref(), Some("1"));
}

#[test]
fn durations_are_read_from_loosely_typed_values() {
    assert_eq!(parse_duration_value_to_seconds(&text("1h 30m"), 8), Some(5400));
    assert_eq!(parse_duration_value_to_seconds(&text("PT2H"), 8), Some(7200));
    assert_eq!(parse_duration_value_to_seconds(&text("soon"), 8), None);
    assert_eq!(parse_duration_value_to_seconds(&number(90), 8), Some(90));
    let negative = JsonValue::Number(JsonNumber { text: "-5".to_string(), unsigned: None });
    assert_eq!(parse_duration_value_to_seconds(&negative, 8), None);
    assert_eq!(parse_duration_value_to_seconds(&JsonValue::Bool(true), 8), None);
    assert_eq!(parse_duration_value_to_seconds(&JsonValue::Null, 8), None);
    let value = object(vec![("ru", text("1d")), ("text", text("2h")), ("duration", text("none")), ("other", text("3h"))]);
    assert_eq!(parse_duration_value_to_seconds(&value, 8), Some(7200));
    assert_eq!(parse_duration_value_to_seconds(&object(vec![("other", text("3h"))]), 8), None);
    let value = JsonValue::Array(vec![JsonValue::Null, text("x"), object(vec![("value", number(5))]), number(9)]);
    assert_eq!(parse_duration_value_to_seconds(&value, 8), Some(5));
    assert_eq!(parse_duration_value_to_seconds(&text("1d"), 6), Some(21_600));
}

#[test]
fn field_references_give_key_and_label() {
    assert_eq!(coerce_field_ref(None), ("unknown".to_string(), "Unknown".to_string()));
    let field = IssueFieldRef::Text("open".to_string());
    assert_eq!(coerce_field_ref(Some(&field)), ("open".to_string(), "open".to_string()));
    let field = IssueFieldRef::Text("  ".to_string());
    assert_eq!(coerce_field_ref(Some(&field)), ("unknown".to_string(), "Unknown".to_string()));
    let field = payload(Some("1"), Some("open"), Some(text("Open")), Some(text("Name")));
    assert_eq!(coerce_field_ref(Some(&field)), ("open".to_string(), "Open".to_string()));
    let field = payload(Some("1"), None, None, Some(object(vec![("en", text("Named"))])));
    assert_eq!(coerce_field_ref(Some(&field)), ("1".to_string(), "Named".to_string()));
    let field = payload(Some("1"), Some(" "), Some(text("Open")), None);
    assert_eq!(coerce_field_ref(Some(&field)), ("Open".to_string(), "Open".to_string()));
    let field = payload(None, Some("k"), Some(text(" ")), None);
    assert_eq!(coerce_field_ref(Some(&field)), ("k".to_string(), "k".to_string()));
    let field = payload(None, None, None, None);
    assert_eq!(coerce_field_ref(Some(&field)), ("unknown".to_string(), "Unknown".to_string()));
    assert_eq!(payload(Some("i"), Some("k"), None, None).key().as_deref(), Some("k"));
    assert_eq!(payload(Some("i"), None, None, None).key().as_deref(), Some("i"));
    assert!(matches!(IssueFieldRef::Text("t".to_string()).display_value(), Some(JsonValue::Text(t)) if t == "t"));
    assert!(matches!(payload(None, None, None, Some(number(4))).display_value(), Some(JsonValue::Number(n)) if n.text == "4"));
    assert!(payload(None, None, None, None).display_value().is_none());
}

#[test]
fn issues_are_shown_with_defaults_for_what_is_missing() {
    let issue = Issue {
        key: "A-1".to_string(),
        summary: some("Summary"),
        description: None,
        status: Some(IssueFieldRef::Text("open".to_string())),
        priority: Some(payload(Some("2"), Some("normal"), Some(text("Normal")), None)),
        spent: Some(text("nothing")),
        time_spent: Some(text("1d 1h")),
    };
    let shown = convert_issue_native(issue, 8);
    assert_eq!(shown.key, "A-1");
    assert_eq!(shown.summary, "Summary");
    assert_eq!(shown.description, "");
    assert_eq!((shown.status.key.as_str(), shown.status.display.as_str()), ("open", "open"));
    assert_eq!((shown.priority.key.as_str(), shown.priority.display.as_str()), ("normal", "Normal"));
    assert_eq!(shown.tracked_seconds, Some(32_400));

    let bare = |key: &str, spent: Option<JsonValue>| Issue {
        key: key.to_string(),
        summary: None,
        description: None,
        status: None,
        priority: None,
        spent,
        time_spent: Some(number(1)),
    };
    let shown = convert_issues_native(vec![bare("A-1", None), bare("A-2", Some(text("2m"))), bare("A-3", Some(JsonValue::Null))], 8);
    assert_eq!(shown.iter().map(|i| i.key.as_str()).collect::<Vec<_>>(), vec!["A-1", "A-2", "A-3"]);
    assert_eq!(shown.iter().map(|i| i.tracked_seconds).collect::<Vec<_>>(), vec![Some(1), Some(120), Some(1)]);
    assert_eq!(shown[0].status.key, "unknown");
    assert_eq!(shown[0].priority.display, "Unknown");
    assert!(convert_issues_native(Vec::new(), 8).is_empty());
}

#[test]
fn directory_entries_take_their_key_from_key_and_projects_from_id() {
    let shown = convert_simple_entity_native(entity(Some("1"), Some(" open "), Some(text("Name")), Some(text("Shown"))));
    assert_eq!((shown.key.as_str(), shown.display.as_str()), ("open", "Shown"));
    let shown = convert_project_entity_native(entity(Some("1"), Some("open"), Some(text("Name")), None));
    assert_eq!((shown.key.as_str(), shown.display.as_str()), ("1", "Name"));
    let shown = convert_simple_entity_native(entity(Some("1"), None, None, None));
    assert_eq!((shown.key.as_str(), shown.display.as_str()), ("1", "1"));
    let shown = convert_simple_entity_native(entity(Some("1"), Some("  "), None, None));
    assert_eq!((shown.key.as_str(), shown.display.as_str()), ("unknown", "unknown"));
    let shown = convert_project_entity_native(entity(None, None, Some(text(" ")), Some(JsonValue::Null)));
    assert_eq!((shown.key.as_str(), shown.display.as_str()), ("unknown", "unknown"));
    let shown = convert_simple_entities_native(vec![entity(None, Some("a"), None, None), entity(None, Some("b"), None, Some(text("B")))]);
    assert_eq!(shown.iter().map(|e| (e.key.as_str(), e.display.as_str())).collect::<Vec<_>>(), vec![("a", "a"), ("b", "B")]);
    let shown = convert_project_entities_native(vec![entity(Some("9"), Some("b"), None, None)]);
    assert_eq!(shown[0].key, "9");
}

#[test]
fn transitions_show_the_status_they_lead_to() {
    assert!(convert_transition_status(None).is_none());
    let status = convert_transition_status(Some(&destination(Some("1"), Some(" done "), Some(text("Done")), None))).expect("status");
    assert_eq!((status.key.as_str(), status.display.as_str()), ("done", "Done"));
    let status = convert_transition_status(Some(&destination(Some("1"), None, None, None))).expect("status");
    assert_eq!((status.key.as_str(), status.display.as_str()), ("1", "1"));
    assert!(convert_transition_status(Some(&destination(None, None, Some(text("Done")), None))).is_none());
    assert!(convert_transition_status(Some(&destination(Some("1"), Some(" "), Some(text("Done")), None))).is_none());

    let transitions = vec![
        Transition {
            id: some("t1"),
            name: Some(text("Name")),
            display: Some(text("Close")),
            description: None,
            to: Some(destination(None, Some("to"), None, None)),
            status: Some(destination(None, Some("status"), None, Some(text("Status")))),
        },
        Transition { id: None, name: None, display: None, description: None, to: Some(destination(None, Some("to"), None, None)), status: None },
        Transition { id: some("t3"), name: Some(text("Only name")), display: None, description: None, to: None, status: None },
    ];
    let shown = convert_transitions_native(transitions);
    assert_eq!(shown.iter().map(|t| (t.id.as_str(), t.name.as_str())).collect::<Vec<_>>(), vec![("t1", "Close"), ("unknown", "Transition"), ("t3", "Only name")]);
    assert_eq!(shown[0].to_status.as_ref().map(|s| (s.key.as_str(), s.display.as_str())), Some(("status", "Status")));
    assert_eq!(shown[1].to_status.as_ref().map(|s| (s.key.as_str(), s.display.as_str())), Some(("to", "to")));
    assert!(shown[2].to_status.is_none());
}

#[test]
fn authors_fall_back_from_display_to_login_to_email() {
    let author = |display: Option<JsonValue>, login: Option<&str>, email: Option<&str>| {
        Some(CommentAuthor { display, login: login.map(str::to_string), email: email.map(str::to_string) })
    };
    assert_eq!(coerce_comment_author(&None), "Unknown");
    assert_eq!(coerce_comment_author(&author(Some(text(" Ann ")), Some("ann"), Some("a@x"))), "Ann");
    assert_eq!(coerce_comment_author(&author(Some(text(" ")), Some("ann"), Some("a@x"))), "ann");
    assert_eq!(coerce_comment_author(&author(None, None, Some("a@x"))), "a@x");
    assert_eq!(coerce_comment_author(&author(None, None, None)), "Unknown");
    assert_eq!(coerce_comment_author(&author(None, Some(""), Some("a@x"))), "");
}

#[test]
fn comments_attachments_and_worklogs_are_shown_in_order() {
    let comments = vec![
        Comment { id: number(5), text: some("hi"), text_html: None, created_at: some("2024"), updated_at: None, created_by: None, updated_by: None },
        Comment { id: JsonValue::Null, text: None, text_html: None, created_at: None, updated_at: None, created_by: Some(CommentAuthor { display: None, login: some("bob"), email: None }), updated_by: None },
    ];
    let shown = convert_comments_native(comments);
    assert_eq!((shown[0].id.as_str(), shown[0].text.as_str(), shown[0].author.as_str(), shown[0].created_at.as_str()), ("5", "hi", "Unknown", "2024"));
    assert_eq!((shown[1].id.as_str(), shown[1].text.as_str(), shown[1].author.as_str(), shown[1].created_at.as_str()), ("", "", "bob", ""));

    let attachment = |id: JsonValue, name: Option<JsonValue>, content: Option<&str>, mimetype: Option<&str>, mime_type: Option<&str>| AttachmentMetadata {
        id,
        name,
        content: content.map(str::to_string),
        thumbnail: None,
        mimetype: mimetype.map(str::to_string),
        mime_type: mime_type.map(str::to_string),
        size: None,
    };
    let shown = convert_attachments_native(vec![
        attachment(text(" 7 "), Some(text("cat.png")), Some("/files/7"), Some("old"), Some("image/png")),
        attachment(JsonValue::Null, None, None, Some("old"), None),
    ]);
    assert_eq!((shown[0].id.as_str(), shown[0].name.as_str(), shown[0].url.as_str(), shown[0].mime_type.as_deref()), ("7", "cat.png", "/files/7", Some("image/png")));
    assert_eq!((shown[1].id.as_str(), shown[1].name.as_str(), shown[1].url.as_str(), shown[1].mime_type.as_deref()), ("", "Attachment", "", Some("old")));

    let with_url = attachment(number(1), None, Some(" /files/1 "), None, Some("a/b"));
    assert_eq!(attachment_download_url(&with_url), Ok(" /files/1 ".to_string()));
    assert_eq!(attachment_download_url(&attachment(number(1), None, Some("  "), None, None)), Err("Attachment is missing download URL".to_string()));
    assert_eq!(attachment_download_url(&attachment(number(1), None, None, None, None)), Err("Attachment is missing download URL".to_string()));
    assert_eq!(attachment_mime_type(&with_url, some("from/response")), "from/response");
    assert_eq!(attachment_mime_type(&with_url, None), "a/b");
    assert_eq!(attachment_mime_type(&attachment(number(1), None, None, Some("old"), None), None), "old");
    assert_eq!(attachment_mime_type(&attachment(number(1), None, None, None, None), None), "application/octet-stream");

    let worklog = |id: JsonValue, start: Option<&str>, created_at: Option<&str>, duration: Option<&str>| WorklogEntry {
        id,
        issue: None,
        comment: None,
        created_by: None,
        created_at: created_at.map(str::to_string),
        start: start.map(str::to_string),
        duration: duration.map(str::to_string),
    };
    let shown = convert_worklogs_native(vec![
        worklog(number(1), Some("s"), Some("c"), Some("PT1H30M")),
        worklog(text("w2"), None, Some("c"), Some("bogus")),
        worklog(JsonValue::Null, None, None, None),
    ], 8);
    assert_eq!(shown.iter().map(|w| (w.id.as_str(), w.date.as_str(), w.duration_seconds)).collect::<Vec<_>>(), vec![("1", "s", 5400), ("w2", "c", 0), ("", "", 0)]);
    assert_eq!(shown[0].author, "Unknown");
    assert_eq!(shown[0].comment, "");
}

#[test]
fn checklist_items_are_flattened() {
    let items = vec![
        ChecklistItem {
            id: text(" i1 "),
            text: some("do"),
            text_html: None,
            checked: Some(true),
            assignee: Some(ChecklistAssignee { id: None, display: some("Ann"), login: some("ann") }),
            deadline: Some(ChecklistDeadline { date: some("2024-05-01"), deadline_type: some("date"), is_exceeded: Some(false) }),
            checklist_item_type: some("standard"),
        },
        ChecklistItem {
            id: number(2),
            text: None,
            text_html: None,
            checked: None,
            assignee: Some(ChecklistAssignee { id: None, display: None, login: some("bob") }),
            deadline: None,
            checklist_item_type: None,
        },
    ];
    let shown = convert_checklist_items_native(items);
    assert_eq!((shown[0].id.as_str(), shown[0].text.as_str(), shown[0].checked), ("i1", "do", true));
    assert_eq!(shown[0].assignee.as_deref(), Some("Ann"));
    assert_eq!((shown[0].deadline.as_deref(), shown[0].deadline_type.as_deref(), shown[0].is_exceeded), (Some("2024-05-01"), Some("date"), Some(false)));
    assert_eq!(shown[0].item_type.as_deref(), Some("standard"));
    assert_eq!((shown[1].id.as_str(), shown[1].text.as_str(), shown[1].checked), ("2", "", false));
    assert_eq!(shown[1].assignee.as_deref(), Some("bob"));
    assert_eq!((shown[1].deadline.clone(), shown[1].deadline_type.clone(), shown[1].is_exceeded), (None, None, None));

    assert_eq!(checklist_item_id_string(&text("  ")).as_deref(), Some(""));
    assert_eq!(checklist_item_id_string(&JsonValue::Bool(false)).as_deref(), Some("false"));
    assert_eq!(checklist_item_id_string(&JsonValue::Null).as_deref(), Some("null"));
    assert_eq!(checklist_item_id_string(&JsonValue::Array(Vec::new())), None);
    assert_eq!(checklist_item_id_string(&object(Vec::new())), None);
}

#[test]
fn scalar_fields_and_profiles() {
    assert!(matches!(string_field(&text(" x ")), ScalarText::Text(t) if t == "x"));
    assert!(matches!(string_field(&text(" ")), ScalarText::Absent));
    assert!(matches!(string_field(&number(3)), ScalarText::Text(t) if t == "3"));
    assert!(matches!(string_field(&JsonValue::Bool(true)), ScalarText::Text(t) if t == "true"));
    assert!(matches!(string_field(&JsonValue::Null), ScalarText::Absent));
    assert!(matches!(string_field(&JsonValue::Array(Vec::new())), ScalarText::Composite));
    assert!(matches!(string_field(&object(Vec::new())), ScalarText::Composite));
    assert_eq!(normalize_owned_string(some("  a b ")).as_deref(), Some("a b"));
    assert_eq!(normalize_owned_string(some("  ")), None);
    assert_eq!(normalize_owned_string(None), None);

    let profile = |url: Option<&str>, id: Option<&str>| UserProfile {
        display: some("Ann"),
        login: some("ann"),
        email: None,
        avatar_url: url.map(str::to_string),
        avatar_id: id.map(str::to_string),
    };
    assert_eq!(profile(Some("u"), Some("i")).avatar().as_deref(), Some("u"));
    assert_eq!(profile(None, Some("i")).avatar().as_deref(), Some("i"));
    assert_eq!(profile(None, None).avatar(), None);
    let shown = convert_user_profile(profile(None, Some("i")));
    assert_eq!((shown.display.as_deref(), shown.login.as_deref(), shown.email.as_deref(), shown.avatar_url.as_deref()), (Some("Ann"), Some("ann"), None, Some("i")));
}
