use bexo_services::json::{content_text, get, JsonValue};
use bexo_services::session_parse::{
    infer_uuid_from_filename, message_from_line, parse_session, parse_timestamp_value,
};

fn text(s: &str) -> JsonValue {
    JsonValue::Text(s.to_string())
}

fn obj(members: Vec<(&str, JsonValue)>) -> JsonValue {
    JsonValue::Object(members.into_iter().map(|(k, v)| (k.to_string(), v)).collect())
}

fn meta(id: &str, cwd: &str, timestamp: &str) -> JsonValue {
    obj(vec![
        ("type", text("session_meta")),
        ("timestamp", text(timestamp)),
        ("payload", obj(vec![("id", text(id)), ("cwd", text(cwd))])),
    ])
}

fn message(role: &str, body: &str, timestamp: &str) -> JsonValue {
    obj(vec![
        ("type", text("response_item")),
        ("timestamp", text(timestamp)),
        (
            "payload",
            obj(vec![
                ("type", text("message")),
                ("role", text(role)),
                (
                    "content",
                    JsonValue::Array(vec![obj(vec![
                        ("type", text("input_text")),
                        ("text", text(body)),
                    ])]),
                ),
            ]),
        ),
    ])
}

#[test]
fn timestamps_read_numbers_and_rfc3339_text() {
    let seconds = parse_timestamp_value(&JsonValue::Number(1_700_000_000)).unwrap();
    assert_eq!(seconds.ms, 1_700_000_000_000);
    assert_eq!(seconds.display, "2023-11-14T22:13:20+00:00");
    let millis = parse_timestamp_value(&JsonValue::Number(1_700_000_000_123)).unwrap();
    assert_eq!(millis.ms, 1_700_000_000_123);
    let parsed = parse_timestamp_value(&text("2026-01-02T03:04:05Z")).unwrap();
    assert_eq!(parsed.ms, 1_767_323_045_000);
    assert_eq!(parsed.display, "2026-01-02T03:04:05+00:00");
    assert!(parse_timestamp_value(&text("yesterday")).is_none());
    assert!(parse_timestamp_value(&JsonValue::Bool(true)).is_none());
    assert!(parse_timestamp_value(&JsonValue::Number(i64::MIN)).is_none());
}

#[test]
fn content_text_joins_non_blank_items() {
    let content = JsonValue::Array(vec![
        obj(vec![("text", text("first"))]),
        obj(vec![("text", text("   "))]),
        obj(vec![("output_text", text("second"))]),
        obj(vec![("content", JsonValue::Array(vec![obj(vec![("input_text", text("nested"))])]))]),
        JsonValue::Number(3),
    ]);
    assert_eq!(content_text(&content), "first\nsecond\nnested");
    assert_eq!(content_text(&obj(vec![("input_text", text("only"))])), "only");
    assert_eq!(content_text(&JsonValue::Null), "");
    assert!(get(&obj(vec![("a", JsonValue::Null)]), "b").is_none());
}

#[test]
fn session_ids_are_inferred_from_file_names() {
    let name = Some("rollout-2026-01-01T00-00-00-550e8400-e29b-41d4-a716-446655440000.jsonl".to_string());
    assert_eq!(
        infer_uuid_from_filename(&name).as_deref(),
        Some("550e8400-e29b-41d4-a716-446655440000")
    );
    assert_eq!(infer_uuid_from_filename(&Some("short.jsonl".to_string())), None);
    assert_eq!(infer_uuid_from_filename(&None), None);
}

#[test]
fn sessions_take_metadata_from_head_and_activity_from_tail() {
    let head = vec![
        Some(meta("session-1", "D:\\work\\bexo", "2026-01-01T00:00:00Z")),
        None,
        Some(message("user", "# AGENTS.md instructions", "2026-01-01T00:00:01Z")),
        Some(message("user", "  Fix the build  ", "2026-01-01T00:00:02Z")),
    ];
    let tail = vec![
        Some(message("assistant", "Done.", "2026-01-01T00:05:00Z")),
        Some(obj(vec![("type", text("event")), ("timestamp", text("2026-01-01T00:06:00Z"))])),
    ];
    let parsed = parse_session(&head, &tail, &None, "\\\\?\\D:\\sessions\\a.jsonl", 42).unwrap();
    let session = parsed.session;
    assert_eq!(session.provider_id, "codex");
    assert_eq!(session.session_id, "session-1");
    assert_eq!(session.title.as_deref(), Some("Fix the build"));
    assert_eq!(session.summary.as_deref(), Some("Done."));
    assert_eq!(session.project_dir.as_deref(), Some("D:\\work\\bexo"));
    assert_eq!(session.created_at.as_deref(), Some("2026-01-01T00:00:00+00:00"));
    assert_eq!(session.last_active_at.as_deref(), Some("2026-01-01T00:06:00+00:00"));
    assert_eq!(session.source_path, "D:\\sessions\\a.jsonl");
    assert_eq!(session.file_size_bytes, 42);
    assert_eq!(parsed.sort_ms, 1_767_225_960_000);
}

#[test]
fn sessions_without_user_message_are_titled_by_project() {
    let head = vec![Some(meta("s", "/home/me/project/", "2026-01-01T00:00:00Z"))];
    let parsed = parse_session(&head, &Vec::new(), &None, "/tmp/a.jsonl", 0).unwrap();
    assert_eq!(parsed.session.title.as_deref(), Some("project"));
    assert_eq!(parsed.session.summary, None);
    assert_eq!(parsed.sort_ms, 1_767_225_600_000);
}

#[test]
fn subagent_sessions_and_sessions_without_id_are_refused() {
    let subagent = obj(vec![
        ("type", text("session_meta")),
        (
            "payload",
            obj(vec![("id", text("s")), ("source", obj(vec![("subagent", text("review"))]))]),
        ),
    ]);
    let error = parse_session(&vec![Some(subagent)], &Vec::new(), &None, "/tmp/a.jsonl", 0).unwrap_err();
    assert_eq!(error.code, "CODEX_HISTORY_SUBAGENT_SESSION");

    let error = parse_session(&vec![None], &Vec::new(), &Some("notes.jsonl".to_string()), "/tmp/notes.jsonl", 0)
        .unwrap_err();
    assert_eq!(error.code, "CODEX_HISTORY_PARSE_FAILED");
    assert_eq!(
        error.details.as_ref().and_then(|d| d.get("path")).map(|s| s.as_str()),
        Some("/tmp/notes.jsonl")
    );
}

#[test]
fn message_lines_become_history_messages() {
    let user = message_from_line(&message("user", "  hello  ", "2026-01-01T00:00:00Z")).unwrap();
    assert_eq!(user.role, "user");
    assert_eq!(user.content, "hello");
    assert_eq!(user.item_type, "message");
    assert_eq!(user.timestamp.as_deref(), Some("2026-01-01T00:00:00+00:00"));
    assert!(!user.truncated);

    let call = obj(vec![
        ("type", text("response_item")),
        (
            "payload",
            obj(vec![
                ("type", text("function_call")),
                ("name", text("shell")),
                ("arguments", text(" {\"cmd\":\"ls\"} ")),
            ]),
        ),
    ]);
    let call = message_from_line(&call).unwrap();
    assert_eq!(call.role, "assistant");
    assert_eq!(call.content, "[Tool: shell]\n{\"cmd\":\"ls\"}");
    assert_eq!(call.timestamp, None);

    let output = obj(vec![
        ("type", text("response_item")),
        ("payload", obj(vec![("type", text("function_call_output")), ("output", text("ok"))])),
    ]);
    assert_eq!(message_from_line(&output).unwrap().role, "tool");

    let search = obj(vec![
        ("type", text("response_item")),
        ("payload", obj(vec![("type", text("web_search_call"))])),
    ]);
    assert_eq!(message_from_line(&search).unwrap().content, "[Web Search]");

    let reasoning = obj(vec![
        ("type", text("response_item")),
        (
            "payload",
            obj(vec![
                ("type", text("reasoning")),
                ("summary", JsonValue::Array(Vec::new())),
                ("content", text("thinking")),
            ]),
        ),
    ]);
    assert_eq!(message_from_line(&reasoning).unwrap().content, "thinking");

    let long = "x".repeat(12_001);
    let cut = message_from_line(&message("assistant", &long, "2026-01-01T00:00:00Z")).unwrap();
    assert!(cut.truncated);
    assert!(cut.content.ends_with("[内容过长，已截断]"));

    assert!(message_from_line(&message("user", "   ", "2026-01-01T00:00:00Z")).is_none());
    assert!(message_from_line(&meta("s", "/", "2026-01-01T00:00:00Z")).is_none());
    let unknown = obj(vec![
        ("type", text("response_item")),
        ("payload", obj(vec![("type", text("other"))])),
    ]);
    assert!(message_from_line(&unknown).is_none());
}
