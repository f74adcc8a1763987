use ytracker::attachments::{
    find_attachment_metadata, preview_attachment, preview_inline_resource,
    resolve_download_destination, Destination,
};
use ytracker::bridge::Issue as ShownIssue;
use ytracker::bridge::{Priority, Status};
use ytracker::client::IssueSearchParams;
use ytracker::commands::{
    check_comment_text, check_resource_path, greet, issue_page, releases_scroll, replaces_cache,
    work_comment,
};
use ytracker::config::OrgType;
use ytracker::filters::{
    active_query, dedupe_string_array, default_filter_map, is_me_token, needs_current_login,
    normalize_filter_map, resolve_filter_shortcuts, rewrite_me_tokens, search_needs_login,
    DEFAULT_ISSUE_QUERY,
};
use ytracker::json::{JsonMember, JsonNumber, JsonValue};
use ytracker::models::{AttachmentMetadata, BinaryContent};
use ytracker::notices::{
    expected_workday_seconds, timer_running_notice, timer_started_notice, timer_stopped_notice,
    tracked_total, workday_notice, workday_notice_due,
};
use ytracker::session::{
    canonical_org_type, config_for_session, credentials_of, current_login_of, keyring_service,
    lowered_is_cloud, normalize_org_type, parse_org_type, prepare_session, public_info_of,
    SessionToken,
};
use ytracker::settings::{
    normalize_config, notification_interval_secs, parse_workday_time, sanitize_workday_hours,
    sanitize_workday_time, Config,
};
use ytracker::store::IssueStore;
use ytracker::timer::TimerState;
use ytracker::tray::{build_tray_menu, tray_action, TrayAction, TrayEntry};
use ytracker::worklog::{logged_seconds, today_logged_seconds, unique_issue_keys, LoggedEntry};

fn text(value: &str) -> JsonValue {
    JsonValue::Text(value.to_string())
}

fn number(n: u64) -> JsonValue {
    JsonValue::Number(JsonNumber { text: n.to_string(), unsigned: Some(n) })
}

fn member(key: &str, value: JsonValue) -> JsonMember {
    JsonMember { key: key.to_string(), value }
}

fn render(value: &JsonValue) -> String {
    match value {
        JsonValue::Null => "null".to_string(),
        JsonValue::Bool(flag) => flag.to_string(),
        JsonValue::Number(n) => n.text.clone(),
        JsonValue::Text(t) => format!("{:?}", t),
        JsonValue::Array(items) => format!("[{}]", items.iter().map(render).collect::<Vec<_>>().join(",")),
        JsonValue::Object(members) => format!(
            "{{{}}}",
            members.iter().map(|m| format!("{:?}:{}", m.key, render(&m.value))).collect::<Vec<_>>().join(",")
        ),
    }
}

fn issue(key: &str, summary: &str) -> ShownIssue {
    ShownIssue {
        key: key.to_string(),
        summary: summary.to_string(),
        description: String::new(),
        status: Status { key: "open".to_string(), display: "Open".to_string() },
        priority: Priority { key: "normal".to_string(), display: "Normal".to_string() },
        tracked_seconds: None,
    }
}

fn idle() -> TimerState {
    TimerState { active: false, issue_key: None, issue_summary: None, start_time: None, elapsed: 0 }
}

fn running(key: &str, elapsed: u64) -> TimerState {
    TimerState { active: true, issue_key: Some(key.to_string()), issue_summary: Some("Work".to_string()), start_time: Some(0), elapsed }
}

#[test]
fn the_default_search_is_my_unresolved_issues() {
    assert_eq!(DEFAULT_ISSUE_QUERY, "Assignee: me() Resolution: empty()");
    assert_eq!(render(&JsonValue::Object(default_filter_map())), "{\"assignee\":\"me()\",\"resolution\":\"empty()\"}");
    assert_eq!(active_query(Some("  q ".to_string()), true).as_deref(), Some("q"));
    assert_eq!(active_query(Some(" ".to_string()), true), None);
    assert_eq!(active_query(None, true), None);
    assert_eq!(active_query(None, false).as_deref(), Some(DEFAULT_ISSUE_QUERY));
    assert_eq!(active_query(Some("".to_string()), false).as_deref(), Some(DEFAULT_ISSUE_QUERY));
    let kept = normalize_filter_map(Some(JsonValue::Object(vec![member("a", number(1))]))).expect("filter");
    assert_eq!(kept.len(), 1);
    assert!(normalize_filter_map(Some(JsonValue::Object(Vec::new()))).is_none());
    assert!(normalize_filter_map(Some(text("a"))).is_none());
    assert!(normalize_filter_map(Some(JsonValue::Array(vec![number(1)]))).is_none());
    assert!(normalize_filter_map(None).is_none());
}

#[test]
fn the_me_shortcut_is_found_in_any_case_and_replaced_by_the_login() {
    for token in ["me()", " ME() ", "Me()", "\tmE()\n"] {
        assert!(is_me_token(token), "{:?}", token);
    }
    for token in ["me", "me( )", "", "me()x", "mé()"] {
        assert!(!is_me_token(token), "{:?}", token);
    }
    assert!(needs_current_login(&text(" me() ")));
    assert!(!needs_current_login(&text("bob")));
    assert!(needs_current_login(&JsonValue::Array(vec![text("bob"), text("ME()")])));
    assert!(!needs_current_login(&JsonValue::Array(vec![text("bob"), JsonValue::Array(vec![text("me()")])])));
    assert!(!needs_current_login(&JsonValue::Object(vec![member("x", text("me()"))])));
    assert!(!needs_current_login(&JsonValue::Null));

    assert_eq!(render(&rewrite_me_tokens(&text(" me() "), "alice")), "\"alice\"");
    assert_eq!(render(&rewrite_me_tokens(&text("bob"), "alice")), "\"bob\"");
    assert_eq!(render(&rewrite_me_tokens(&number(3), "alice")), "3");
    let list = JsonValue::Array(vec![text("me()"), text("bob"), number(1), text("ME()"), text("bob"), number(1), text("alice")]);
    assert_eq!(render(&rewrite_me_tokens(&list, "alice")), "[\"alice\",\"bob\",1,1]");
    let untouched = JsonValue::Array(vec![text("bob"), text("bob")]);
    assert_eq!(render(&rewrite_me_tokens(&untouched, "alice")), "[\"bob\",\"bob\"]");
    let kept = dedupe_string_array(&vec![text("a"), text("b"), text("a"), JsonValue::Null, JsonValue::Null, text("a "), text("b")]);
    assert_eq!(render(&JsonValue::Array(kept)), "[\"a\",\"b\",null,null,\"a \"]");
}

#[test]
fn only_the_assignee_of_a_filter_is_resolved() {
    let params = IssueSearchParams::new(
        Some("q".to_string()),
        Some(vec![member("queue", text("me()")), member("assignee", JsonValue::Array(vec![text("me()"), text("bob")])), member("assignee", text("me()"))]),
    );
    assert!(search_needs_login(&params));
    let resolved = resolve_filter_shortcuts(&params, "alice");
    assert_eq!(resolved.query.as_deref(), Some("q"));
    assert_eq!(
        render(&JsonValue::Object(resolved.filter.expect("filter"))),
        "{\"queue\":\"me()\",\"assignee\":[\"alice\",\"bob\"],\"assignee\":\"me()\"}"
    );
    let params = IssueSearchParams::new(None, Some(vec![member("assignee", text("bob")), member("author", text("me()"))]));
    assert!(!search_needs_login(&params));
    assert_eq!(render(&JsonValue::Object(resolve_filter_shortcuts(&params, "alice").filter.expect("filter"))), "{\"assignee\":\"bob\",\"author\":\"me()\"}");
    let params = IssueSearchParams::new(Some("me()".to_string()), None);
    assert!(!search_needs_login(&params));
    assert!(resolve_filter_shortcuts(&params, "alice").filter.is_none());
}

#[test]
fn organization_types_are_cloud_or_the_default() {
    for name in ["cloud", " Cloud ", "CLOUD\n"] {
        assert_eq!(canonical_org_type(name), "cloud");
        assert_eq!(normalize_org_type(name), "cloud");
        assert_eq!(parse_org_type(name), OrgType::Cloud);
    }
    for name in ["", "yandex360", "clouds", "c loud", "360"] {
        assert_eq!(canonical_org_type(name), "yandex360");
        assert_eq!(parse_org_type(name), OrgType::Yandex360);
    }
    assert!(lowered_is_cloud("cloud"));
    assert!(!lowered_is_cloud("Cloud"));
    assert!(!lowered_is_cloud(" cloud"));
    assert_eq!(OrgType::Cloud.header_name(), "X-Cloud-Org-ID");
    assert_eq!(OrgType::Yandex360.header_name(), "X-Org-ID");
}

#[test]
fn sessions_are_trimmed_before_they_are_stored() {
    let session = prepare_session("  tok  ", Some(" 42 "), " CLOUD ").expect("session");
    assert_eq!((session.token.as_str(), session.org_id.as_deref(), session.org_type.as_str()), ("tok", Some("42"), "cloud"));
    let session = prepare_session("tok", Some("  "), "other").expect("session");
    assert_eq!((session.org_id.clone(), session.org_type.as_str()), (None, "yandex360"));
    let session = prepare_session("tok", None, "").expect("session");
    assert_eq!(session.org_id, None);
    assert_eq!(prepare_session("   ", Some("42"), "cloud").err().as_deref(), Some("Access token must not be empty"));
    assert_eq!(prepare_session("", None, "cloud").err().as_deref(), Some("Access token must not be empty"));

    let config = config_for_session(&SessionToken { token: "tok".to_string(), org_id: Some("42".to_string()), org_type: "Cloud".to_string() });
    assert_eq!((config.token.as_str(), config.org_id.as_deref(), config.org_type), ("tok", Some("42"), OrgType::Cloud));
    assert_eq!(config.api_root(), "https://api.tracker.yandex.net/v3/");
    let config = config_for_session(&SessionToken { token: "tok".to_string(), org_id: None, org_type: "x".to_string() });
    assert_eq!((config.org_id.clone(), config.org_type), (None, OrgType::Yandex360));

    assert_eq!(keyring_service("ru.example.app"), "ru.example.app");
    assert_eq!(keyring_service("  "), "ru.sovego.ytracker-tauri");
    assert_eq!(keyring_service(""), "ru.sovego.ytracker-tauri");
}

#[test]
fn credentials_need_both_id_and_secret() {
    let id = Some("id".to_string());
    let secret = Some("secret".to_string());
    let both = credentials_of(&id, &secret).expect("credentials");
    assert_eq!((both.client_id.as_str(), both.client_secret.as_str()), ("id", "secret"));
    assert!(credentials_of(&id, &None).is_none());
    assert!(credentials_of(&None, &secret).is_none());
    assert!(credentials_of(&None, &None).is_none());
    let info = public_info_of(&id, &None);
    assert_eq!((info.client_id.as_deref(), info.has_client_secret), (Some("id"), false));
    let info = public_info_of(&None, &secret);
    assert_eq!((info.client_id.clone(), info.has_client_secret), (None, true));
    assert_eq!(current_login_of(Some(" ann ".to_string()), Some("a@x".to_string())), Ok("ann".to_string()));
    assert_eq!(current_login_of(Some("  ".to_string()), Some(" a@x".to_string())), Ok("a@x".to_string()));
    assert_eq!(current_login_of(None, None), Err("Unable to determine current user login".to_string()));
    assert_eq!(current_login_of(Some("".to_string()), Some(" ".to_string())), Err("Unable to determine current user login".to_string()));
}

#[test]
fn settings_are_kept_within_their_limits() {
    assert_eq!(sanitize_workday_hours(0), 1);
    assert_eq!(sanitize_workday_hours(1), 1);
    assert_eq!(sanitize_workday_hours(8), 8);
    assert_eq!(sanitize_workday_hours(24), 24);
    assert_eq!(sanitize_workday_hours(25), 24);
    assert_eq!(sanitize_workday_hours(255), 24);
    assert_eq!(parse_workday_time(" 08:30 "), Some((8, 30)));
    assert_eq!(parse_workday_time("23:59"), Some((23, 59)));
    assert_eq!(parse_workday_time("24:00"), None);
    assert_eq!(parse_workday_time("12:60"), None);
    assert_eq!(parse_workday_time("noon"), None);
    assert_eq!(parse_workday_time(""), None);
    assert_eq!(sanitize_workday_time(" 08:30 ".to_string(), "09:00"), "08:30");
    assert_eq!(sanitize_workday_time("25:00".to_string(), "09:00"), "09:00");
    assert_eq!(sanitize_workday_time("".to_string(), "17:00"), "17:00");
    assert_eq!(sanitize_workday_time("  ".to_string(), "17:00"), "17:00");
    assert_eq!(sanitize_workday_time("8:30 pm".to_string(), "17:00"), "17:00");

    let defaults = Config::default();
    assert_eq!((defaults.timer_notification_interval, defaults.workday_hours), (15, 8));
    assert_eq!((defaults.workday_start_time.as_str(), defaults.workday_end_time.as_str()), ("09:00", "17:00"));
    let kept = normalize_config(Config { timer_notification_interval: 0, workday_hours: 0, workday_start_time: "late".to_string(), workday_end_time: " 18:15 ".to_string() });
    assert_eq!((kept.timer_notification_interval, kept.workday_hours), (1, 1));
    assert_eq!((kept.workday_start_time.as_str(), kept.workday_end_time.as_str()), ("09:00", "18:15"));
    let kept = normalize_config(Config { timer_notification_interval: 30, workday_hours: 99, workday_start_time: "07:00".to_string(), workday_end_time: "".to_string() });
    assert_eq!((kept.timer_notification_interval, kept.workday_hours), (30, 24));
    assert_eq!((kept.workday_start_time.as_str(), kept.workday_end_time.as_str()), ("07:00", "17:00"));
    assert_eq!(notification_interval_secs(&defaults), 900);
    assert_eq!(notification_interval_secs(&Config { timer_notification_interval: 0, ..Config::default() }), 60);
    assert_eq!(notification_interval_secs(&Config { timer_notification_interval: u32::MAX, ..Config::default() }), 257_698_037_700);
}

#[test]
fn logged_time_is_summed_over_the_entries_of_the_day() {
    let entry = |key: Option<&str>, on_day: bool, duration: Option<&str>| LoggedEntry {
        issue_key: key.map(str::to_string),
        on_day,
        duration: duration.map(str::to_string),
    };
    let entries = vec![
        entry(Some("A-1"), true, Some("PT1H")),
        entry(Some(" A-2 "), true, Some("30m")),
        entry(Some("A-3"), true, Some("1d")),
        entry(Some("A-1"), false, Some("PT8H")),
        entry(None, true, Some("PT2H")),
        entry(Some("A-1"), true, None),
        entry(Some("A-1"), true, Some("bogus")),
    ];
    let keys = vec![" A-1 ".to_string(), "".to_string(), "A-2".to_string(), "A-1".to_string(), "  ".to_string()];
    assert_eq!(unique_issue_keys(&keys), vec!["A-1".to_string(), "A-2".to_string()]);
    assert_eq!(today_logged_seconds(&entries, &keys, 8), 5400);
    assert_eq!(today_logged_seconds(&entries, &Vec::new(), 8), 3600 + 1800 + 28_800 + 7200);
    assert_eq!(today_logged_seconds(&entries, &vec!["  ".to_string()], 8), 3600 + 1800 + 28_800 + 7200);
    assert_eq!(today_logged_seconds(&entries, &vec!["A-9".to_string()], 8), 0);
    assert_eq!(logged_seconds(&entries, &vec!["A-3".to_string()], 6), 21_600);
    assert_eq!(logged_seconds(&Vec::new(), &Vec::new(), 8), 0);
    let huge = vec![entry(None, true, Some("18446744073709551615m 0h")), entry(None, true, Some("5124095576030431h")), entry(None, true, Some("5124095576030431h"))];
    assert_eq!(logged_seconds(&huge, &Vec::new(), 8), u64::MAX);
}

#[test]
fn attachments_are_found_saved_and_previewed() {
    let attachment = |id: JsonValue, mime: Option<&str>| AttachmentMetadata {
        id,
        name: None,
        content: None,
        thumbnail: None,
        mimetype: None,
        mime_type: mime.map(str::to_string),
        size: None,
    };
    let list = vec![attachment(number(5), None), attachment(text(" 7 "), Some("image/png")), attachment(number(7), None)];
    assert_eq!(find_attachment_metadata(&list, "A-1", "5"), Ok(0));
    assert_eq!(find_attachment_metadata(&list, "A-1", "7"), Ok(1));
    assert_eq!(find_attachment_metadata(&list, "A-1", " 7 "), Err("Attachment  7  not found on issue A-1".to_string()));
    assert_eq!(find_attachment_metadata(&Vec::new(), "A-1", "x"), Err("Attachment x not found on issue A-1".to_string()));

    assert!(matches!(resolve_download_destination("  cat.png "), Ok(Destination::FileName(name)) if name == "cat.png"));
    assert!(matches!(resolve_download_destination(" /tmp/cat.png"), Ok(Destination::Path(path)) if path == "/tmp/cat.png"));
    assert!(matches!(resolve_download_destination("dir\\cat.png"), Ok(Destination::Path(path)) if path == "dir\\cat.png"));
    assert_eq!(resolve_download_destination("   ").err().as_deref(), Some("Destination path cannot be empty"));
    assert_eq!(resolve_download_destination("").err().as_deref(), Some("Destination path cannot be empty"));

    let content = BinaryContent { bytes: b"hello".to_vec(), mime_type: None };
    let preview = preview_attachment(&list[1], &content).expect("preview");
    assert_eq!((preview.mime_type.as_str(), preview.data_base64.as_str()), ("image/png", "aGVsbG8="));
    let preview = preview_attachment(&list[0], &content).expect("preview");
    assert_eq!(preview.mime_type, "application/octet-stream");
    let content = BinaryContent { bytes: vec![0xff, 0x00, 0xfe], mime_type: Some("text/plain".to_string()) };
    let preview = preview_attachment(&list[1], &content).expect("preview");
    assert_eq!((preview.mime_type.as_str(), preview.data_base64.as_str()), ("text/plain", "/wD+"));
    let preview = preview_inline_resource(&content).expect("preview");
    assert_eq!((preview.mime_type.as_str(), preview.data_base64.as_str()), ("text/plain", "/wD+"));
    let preview = preview_inline_resource(&BinaryContent { bytes: Vec::new(), mime_type: None }).expect("preview");
    assert_eq!((preview.mime_type.as_str(), preview.data_base64.as_str()), ("application/octet-stream", ""));
}

#[test]
fn the_tray_menu_lists_the_state_and_the_issues() {
    let issues: Vec<ShownIssue> = (1..=14).map(|n| issue(&format!("A-{}", n), &format!("Summary  {}", n))).collect();
    let menu = build_tray_menu(&issues, &running("A-2", 3900));
    assert_eq!(menu.len(), 8);
    assert!(matches!(&menu[0], TrayEntry::Item(item) if item.id == "tray_running_label" && item.label == "Running: A-2 — Work (1h 05m)" && !item.enabled));
    assert!(matches!(&menu[1], TrayEntry::Item(item) if item.id == "tray_stop_timer" && item.label == "Stop Timer" && item.enabled));
    assert!(matches!(&menu[2], TrayEntry::Separator));
    match &menu[3] {
        TrayEntry::Submenu { id, label, items } => {
            assert_eq!((id.as_str(), label.as_str()), ("tray_start_submenu", "Start Timer"));
            assert_eq!(items.len(), 13);
            assert_eq!((items[0].id.as_str(), items[0].label.as_str(), items[0].enabled), ("tray_issue::A-1", "A-1: Summary 1", true));
            assert_eq!((items[1].id.as_str(), items[1].enabled), ("tray_issue::A-2", false));
            assert_eq!(items[11].id, "tray_issue::A-12");
            assert_eq!((items[12].id.as_str(), items[12].label.as_str(), items[12].enabled), ("tray_more_issues", "+2 more issues…", false));
        }
        other => panic!("unexpected {:?}", other),
    }
    assert!(matches!(&menu[4], TrayEntry::Item(item) if item.id == "tray_refresh" && item.label == "Refresh Issues" && item.enabled));
    assert!(matches!(&menu[5], TrayEntry::Separator));
    assert!(matches!(&menu[6], TrayEntry::Item(item) if item.id == "show" && item.label == "Show" && item.enabled));
    assert!(matches!(&menu[7], TrayEntry::Item(item) if item.id == "quit" && item.label == "Quit" && item.enabled));

    let menu = build_tray_menu(&Vec::new(), &idle());
    assert_eq!(menu.len(), 7);
    assert!(matches!(&menu[0], TrayEntry::Item(item) if item.id == "tray_idle_label" && item.label == "Timer idle" && !item.enabled));
    assert!(matches!(&menu[2], TrayEntry::Item(item) if item.id == "tray_no_issues" && item.label == "No issues found" && !item.enabled));
    let menu = build_tray_menu(&issues[..12].iter().map(|i| issue(&i.key, "")).collect(), &idle());
    assert!(matches!(&menu[2], TrayEntry::Submenu { items, .. } if items.len() == 12 && items[0].label == "A-1" && items.iter().all(|i| i.enabled)));
}

#[test]
fn menu_clicks_are_told_apart_by_their_id() {
    assert!(matches!(tray_action("quit", None), TrayAction::Quit));
    assert!(matches!(tray_action("show", Some("A-1")), TrayAction::Show));
    assert!(matches!(tray_action("tray_refresh", None), TrayAction::Refresh));
    assert!(matches!(tray_action("tray_stop_timer", None), TrayAction::Stop));
    assert!(matches!(tray_action("tray_issue::A-1", None), TrayAction::Start(key) if key == "A-1"));
    assert!(matches!(tray_action("tray_issue::A-1", Some("A-2")), TrayAction::Start(key) if key == "A-1"));
    assert!(matches!(tray_action("tray_issue::A-1", Some("A-1")), TrayAction::Ignore));
    assert!(matches!(tray_action("tray_issue::", None), TrayAction::Start(key) if key.is_empty()));
    assert!(matches!(tray_action("tray_issue:A-1", None), TrayAction::Ignore));
    assert!(matches!(tray_action("tray_running_label", None), TrayAction::Ignore));
    assert!(matches!(tray_action("", None), TrayAction::Ignore));
}

#[test]
fn notices_carry_their_texts() {
    let notice = timer_started_notice("A-1", Some("  Fix   it "));
    assert_eq!((notice.title.as_str(), notice.body.as_str()), ("Timer started: A-1", "Fix it"));
    assert_eq!(timer_started_notice("A-1", Some("  ")).body, "Tracking time from tray");
    assert_eq!(timer_started_notice("A-1", None).body, "Tracking time from tray");
    assert_eq!(timer_started_notice("A-1", Some(&"w".repeat(90))).body, format!("{}…", "w".repeat(79)));
    let notice = timer_stopped_notice("A-1", 3725);
    assert_eq!((notice.title.as_str(), notice.body.as_str()), ("Timer stopped: A-1", "Tracked 1h 02m"));
    let notice = timer_running_notice(&running("A-1", 120));
    assert_eq!((notice.title.as_str(), notice.body.as_str()), ("A-1", "Work\nTime spent: 2m"));
    let notice = timer_running_notice(&TimerState { active: true, issue_key: None, issue_summary: None, start_time: None, elapsed: 0 });
    assert_eq!((notice.title.as_str(), notice.body.as_str()), ("Task timer", "Timer running\nTime spent: 0m"));

    assert_eq!(expected_workday_seconds(8), 28_800);
    assert_eq!(expected_workday_seconds(255), 918_000);
    let notice = workday_notice(3600, 28_800, "Keep going.");
    assert_eq!((notice.title.as_str(), notice.body.as_str()), ("Workday wrap-up", "Tracked 1h 00m of 8h 00m today. Keep going."));
    let notice = workday_notice(28_800, 28_800, "unused");
    assert_eq!((notice.title.as_str(), notice.body.as_str()), ("Great job today!", "You tracked 8h 00m today. Have a good evening!"));
    assert_eq!(tracked_total(10, 5), 15);
    assert_eq!(tracked_total(u64::MAX, 1), u64::MAX);
    assert_eq!(tracked_total(u64::MAX - 1, 1), u64::MAX);
}

#[test]
fn the_workday_notice_is_due_once_a_day_after_the_end() {
    assert!(workday_notice_due(None, "2024-05-01", 17, 0, Some((17, 0))));
    assert!(workday_notice_due(Some("2024-04-30"), "2024-05-01", 18, 0, Some((17, 30))));
    assert!(workday_notice_due(None, "2024-05-01", 17, 31, Some((17, 30))));
    assert!(!workday_notice_due(None, "2024-05-01", 17, 29, Some((17, 30))));
    assert!(!workday_notice_due(None, "2024-05-01", 16, 59, Some((17, 0))));
    assert!(!workday_notice_due(Some("2024-05-01"), "2024-05-01", 23, 59, Some((17, 0))));
    assert!(!workday_notice_due(None, "2024-05-01", 23, 59, None));
}

#[test]
fn commands_check_their_input() {
    assert!(check_comment_text(" hi ").is_ok());
    assert_eq!(check_comment_text(" \n").err().as_deref(), Some("Comment text cannot be empty"));
    assert!(check_resource_path("/x").is_ok());
    assert_eq!(check_resource_path("").err().as_deref(), Some("Resource path is empty"));
    assert!(releases_scroll("c1"));
    assert!(!releases_scroll("  "));
    assert_eq!(work_comment("  note "), Some("note".to_string()));
    assert_eq!(work_comment("   "), None);
    assert!(replaces_cache(None));
    assert!(!replaces_cache(Some("c1")));
    assert_eq!(greet("Ann"), "Hello, Ann! You've been greeted from Rust!");
    let page = issue_page(vec![issue("A-1", "s")], Some("c2".to_string()), Some(9));
    assert_eq!((page.issues.len(), page.next_scroll_id.as_deref(), page.total_count, page.has_more), (1, Some("c2"), Some(9), true));
    let page = issue_page(Vec::new(), None, None);
    assert!(!page.has_more);
}

#[test]
fn the_store_finds_the_first_issue_with_a_key() {
    let mut store = IssueStore::new();
    assert!(store.snapshot().is_empty());
    assert!(store.find("A-1").is_none());
    store.set(vec![issue("A-1", "first"), issue("A-2", "second"), issue("A-1", "third")]);
    assert_eq!(store.snapshot().len(), 3);
    assert_eq!(store.find("A-1").map(|i| i.summary.as_str()), Some("first"));
    assert_eq!(store.find("A-2").map(|i| i.summary.as_str()), Some("second"));
    assert!(store.find("a-1").is_none());
    assert!(store.find("").is_none());
    store.set(Vec::new());
    assert!(store.find("A-1").is_none());
}
