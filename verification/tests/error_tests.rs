use ytracker::auth::{exchange_form, exchange_outcome, TOKEN_URL};
use ytracker::json::{parse_json, JsonValue};
use ytracker::error::{
    access_denied_message, build_http_error, ensure_success, exchange_failure, extract_error_code,
    failure_for, is_success, push_status_with_reason, TrackerError, TransportFailure,
};

fn http_parts(error: TrackerError) -> (u16, Option<String>, String) {
    match error {
        TrackerError::Http { status, code, message } => (status, code, message),
        other => panic!("expected an http failure, got {:?}", other),
    }
}

#[test]
fn success_statuses_are_exactly_2xx() {
    for status in [200u16, 201, 204, 299] {
        assert!(is_success(status));
        assert!(ensure_success(status, "ignored").is_ok());
    }
    for status in [0u16, 100, 199, 300, 301, 400, 401, 403, 404, 500, 999, u16::MAX] {
        assert!(!is_success(status));
        assert!(ensure_success(status, "body").is_err());
    }
}

#[test]
fn denied_statuses_map_to_authentication_never_to_http() {
    match ensure_success(401, "nope") {
        Err(TrackerError::Authentication(message)) => {
            assert_eq!(message, "Access denied (401 Unauthorized) - nope")
        }
        other => panic!("unexpected {:?}", other),
    }
    match ensure_success(403, "{\"code\":\"forbidden\"}") {
        Err(TrackerError::Authentication(message)) => {
            assert_eq!(message, "Access denied (403 Forbidden) - {\"code\":\"forbidden\"}")
        }
        other => panic!("unexpected {:?}", other),
    }
    assert_eq!(access_denied_message(401, ""), "Access denied (401 Unauthorized) - ");
    assert!(matches!(failure_for(403, "x"), TrackerError::Authentication(_)));
}

#[test]
fn other_statuses_map_to_http_with_the_code_of_a_json_body() {
    let body = "{\"code\":\"not_found\",\"message\":\"missing\"}";
    let (status, code, message) = http_parts(ensure_success(404, body).unwrap_err());
    assert_eq!(status, 404);
    assert_eq!(code.as_deref(), Some("not_found"));
    assert_eq!(message, body);

    let (status, code, message) = http_parts(build_http_error(500, "oops"));
    assert_eq!(status, 500);
    assert_eq!(code, None);
    assert_eq!(message, "oops");

    let (status, code, _) = http_parts(failure_for(302, "{\"code\": 5}"));
    assert_eq!(status, 302);
    assert_eq!(code, None);
}

#[test]
fn error_code_is_read_only_from_a_string_member_of_an_object() {
    assert_eq!(extract_error_code("{\"code\":\"E42\"}").as_deref(), Some("E42"));
    assert_eq!(extract_error_code("{\"code\":\"\"}").as_deref(), Some(""));
    assert_eq!(extract_error_code("{\"Code\":\"E42\"}"), None);
    assert_eq!(extract_error_code("{\"code\":42}"), None);
    assert_eq!(extract_error_code("{\"code\":null}"), None);
    assert_eq!(extract_error_code("[\"code\"]"), None);
    assert_eq!(extract_error_code("\"code\""), None);
    assert_eq!(extract_error_code("not json"), None);
    assert_eq!(extract_error_code(""), None);
    assert_eq!(extract_error_code("{\"code\":\"first\",\"code\":\"last\"}").as_deref(), Some("last"));
}

#[test]
fn exchange_failure_keeps_status_and_body_and_has_no_code() {
    let (status, code, message) = http_parts(exchange_failure(400, "invalid_grant"));
    assert_eq!(status, 400);
    assert_eq!(code, None);
    assert_eq!(message, "invalid_grant");

    let (status, code, message) = http_parts(exchange_outcome(400, "invalid_grant").unwrap_err());
    assert_eq!((status, code, message.as_str()), (400, None, "invalid_grant"));
    let (status, code, _) = http_parts(exchange_outcome(401, "{\"code\":\"x\"}").unwrap_err());
    assert_eq!((status, code), (401, None));
    assert!(exchange_outcome(200, "{}").is_ok());
}

#[test]
fn exchange_form_has_the_four_fields_in_order() {
    let form = exchange_form("the-code", "id", "secret");
    let expected = [
        ("grant_type", "authorization_code"),
        ("code", "the-code"),
        ("client_id", "id"),
        ("client_secret", "secret"),
    ];
    assert_eq!(form.len(), expected.len());
    for (pair, (name, value)) in form.iter().zip(expected) {
        assert_eq!((pair.0.as_str(), pair.1.as_str()), (name, value));
    }
    assert_eq!(TOKEN_URL, "https://oauth.yandex.ru/token");
}

#[test]
fn transport_failures_are_sorted_by_their_classification() {
    let failure = |timed_out, connect| TransportFailure {
        timed_out,
        connect,
        message: "details".to_string(),
    };
    assert!(matches!(TrackerError::from_transport(failure(true, false)), TrackerError::Timeout(m) if m == "details"));
    assert!(matches!(TrackerError::from_transport(failure(true, true)), TrackerError::Timeout(_)));
    assert!(matches!(TrackerError::from_transport(failure(false, true)), TrackerError::Network(m) if m == "details"));
    assert!(matches!(TrackerError::from_transport(failure(false, false)), TrackerError::Other(m) if m == "details"));
}

#[test]
fn a_status_prints_with_its_reason_phrase() {
    let mut out: Vec<char> = "<".chars().collect();
    push_status_with_reason(&mut out, 418, Some("I'm a teapot"));
    out.push('|');
    push_status_with_reason(&mut out, 7, None);
    assert_eq!(out.into_iter().collect::<String>(), "<418 I'm a teapot|7 <unknown status code>");
}

#[test]
fn every_kind_of_failure_prints_with_its_prefix() {
    assert_eq!(TrackerError::http(404, None, "gone").to_text(), "http 404 Not Found: gone");
    assert_eq!(
        TrackerError::http(400, Some("bad".to_string()), "invalid_grant").to_text(),
        "http 400 Bad Request: invalid_grant"
    );
    assert_eq!(TrackerError::http(799, None, "m").to_text(), "http 799 <unknown status code>: m");
    assert_eq!(TrackerError::http(42, None, "m").to_text(), "http 42 <unknown status code>: m");
    assert_eq!(TrackerError::Authentication("a".to_string()).to_text(), "authentication error: a");
    assert_eq!(TrackerError::Timeout("t".to_string()).to_text(), "request timed out: t");
    assert_eq!(TrackerError::Network("n".to_string()).to_text(), "network error: n");
    assert_eq!(TrackerError::serialization("s").to_text(), "serialization error: s");
    assert_eq!(TrackerError::io("i").to_text(), "io error: i");
    assert_eq!(TrackerError::Other("o".to_string()).to_text(), "unexpected error: o");
}

#[test]
fn json_texts_parse_into_values_with_sorted_members() {
    let value = parse_json(" {\"b\": [1, -2, 2.5, true, null, \"x\"], \"a\": {\"n\": 18446744073709551615}, \"b\": \"last\"} ")
        .expect("valid json");
    let members = match value {
        JsonValue::Object(members) => members,
        other => panic!("unexpected {:?}", other),
    };
    assert_eq!(members.iter().map(|m| m.key.as_str()).collect::<Vec<_>>(), vec!["a", "b"]);
    match &members[0].value {
        JsonValue::Object(inner) => match &inner[0].value {
            JsonValue::Number(n) => {
                assert_eq!((n.text.as_str(), n.unsigned), ("18446744073709551615", Some(u64::MAX)))
            }
            other => panic!("unexpected {:?}", other),
        },
        other => panic!("unexpected {:?}", other),
    }
    assert!(matches!(&members[1].value, JsonValue::Text(t) if t == "last"));

    let items = match parse_json("[1, -2, 2.5, true, null, \"x\", []]").expect("valid json") {
        JsonValue::Array(items) => items,
        other => panic!("unexpected {:?}", other),
    };
    assert!(matches!(&items[0], JsonValue::Number(n) if n.text == "1" && n.unsigned == Some(1)));
    assert!(matches!(&items[1], JsonValue::Number(n) if n.text == "-2" && n.unsigned.is_none()));
    assert!(matches!(&items[2], JsonValue::Number(n) if n.text == "2.5" && n.unsigned.is_none()));
    assert!(matches!(&items[3], JsonValue::Bool(true)));
    assert!(matches!(&items[4], JsonValue::Null));
    assert!(matches!(&items[5], JsonValue::Text(t) if t == "x"));
    assert!(matches!(&items[6], JsonValue::Array(inner) if inner.is_empty()));
    assert!(parse_json("").is_none());
    assert!(parse_json("{").is_none());
    assert!(parse_json("nul").is_none());
    assert!(matches!(parse_json("null"), Some(JsonValue::Null)));
    let copy = items[2].duplicate();
    assert!(matches!(copy, JsonValue::Number(n) if n.text == "2.5"));
    assert_eq!(members[0].value.get("n").and_then(|v| v.normalized_id()).as_deref(), Some("18446744073709551615"));
    assert!(members[0].value.get("m").is_none());
    assert_eq!(members[1].value.as_text().map(String::as_str), Some("last"));
}
