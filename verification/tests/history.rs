use bexo_services::error::{AppError, TaskOutcome};
use bexo_services::history::{
    check_cancelled, check_session_source_path, distinct_session_roots, history_task_result,
    message_limit, session_root_homes, history_window_label, normalize_compare_path, normalize_display_path,
    order_sessions, path_basename, path_is_under_workspace, select_workspace_sessions,
    trim_line_end, truncate_chars, truncate_message_content, CodexHistorySession, ParsedSession,
};

fn parsed(id: &str, dir: Option<&str>, sort_ms: i64) -> ParsedSession {
    ParsedSession {
        session: CodexHistorySession {
            provider_id: "codex".to_string(),
            session_id: id.to_string(),
            title: None,
            summary: None,
            project_dir: dir.map(str::to_string),
            created_at: None,
            last_active_at: None,
            source_path: format!("C:\\sessions\\{id}.jsonl"),
            file_size_bytes: 0,
        },
        sort_ms,
    }
}

#[test]
fn line_ends_and_long_texts_are_trimmed() {
    assert_eq!(trim_line_end(b"{\"a\":1}\r\n\n"), b"{\"a\":1}".to_vec());
    assert_eq!(trim_line_end(b"\n"), Vec::<u8>::new());
    assert_eq!(truncate_chars("  short  ", 80), "short");
    assert_eq!(truncate_chars("abcdef", 3), "abc...");
    assert_eq!(truncate_message_content("abc", 3), ("abc".to_string(), false));
    assert_eq!(
        truncate_message_content("abcd", 3),
        ("abc\n\n[内容过长，已截断]".to_string(), true)
    );
}

#[test]
fn paths_are_named_and_compared_in_windows_form() {
    assert_eq!(path_basename("C:\\work\\bexo\\").as_deref(), Some("bexo"));
    assert_eq!(path_basename("/home/me/app").as_deref(), Some("app"));
    assert_eq!(path_basename("  //  "), None);
    assert_eq!(normalize_display_path("\\\\?\\C:\\work".to_string()), "C:\\work");
    assert_eq!(normalize_display_path("\\\\?\\UNC\\server\\share".to_string()), "\\\\server\\share");
    assert_eq!(normalize_display_path("D:\\plain".to_string()), "D:\\plain");
    assert_eq!(normalize_compare_path("  C:/Work/Bexo/  "), "c:\\work\\bexo");
    assert_eq!(normalize_compare_path("C:\\"), "c:\\");
    assert!(path_is_under_workspace("C:/Work/Bexo", "c:\\work\\bexo"));
    assert!(path_is_under_workspace("C:\\Work\\Bexo\\src", "c:\\work\\bexo"));
    assert!(!path_is_under_workspace("C:\\Work\\Bexo2", "c:\\work\\bexo"));
}

#[test]
fn window_labels_and_cancellation() {
    assert_eq!(history_window_label("ws-1 a"), "codex_history_ws_1_a");
    assert!(check_cancelled(false).is_ok());
    let error = check_cancelled(true).unwrap_err();
    assert_eq!(error.code, "CODEX_HISTORY_CANCELLED");
    assert_eq!(error.retryable, Some(true));
}

#[test]
fn sessions_are_listed_newest_first_and_filtered_by_workspace() {
    let all = vec![
        parsed("a", Some("C:\\work\\bexo"), 10),
        parsed("b", Some("C:\\other"), 30),
        parsed("c", None, 20),
        parsed("d", Some("C:\\work\\bexo\\sub"), 30),
    ];
    let ordered: Vec<String> = order_sessions(all).into_iter().map(|s| s.session_id).collect();
    assert_eq!(ordered, vec!["b", "d", "c", "a"]);

    let all = vec![
        parsed("a", Some("C:\\work\\bexo"), 10),
        parsed("b", Some("C:\\other"), 30),
        parsed("c", None, 20),
        parsed("d", Some("C:\\work\\bexo\\sub"), 30),
    ];
    let selected: Vec<String> = select_workspace_sessions(all, "c:\\work\\bexo")
        .into_iter()
        .map(|s| s.session_id)
        .collect();
    assert_eq!(selected, vec!["d", "a"]);
}

#[test]
fn message_limit_defaults_and_clamps() {
    assert_eq!(message_limit(None), 40);
    assert_eq!(message_limit(Some(0)), 1);
    assert_eq!(message_limit(Some(50)), 50);
    assert_eq!(message_limit(Some(500)), 120);
}

#[test]
fn session_source_path_must_be_an_absolute_jsonl_file() {
    assert_eq!(
        check_session_source_path("  C:\\Users\\me\\.codex\\sessions\\a.jsonl ").unwrap(),
        "C:\\Users\\me\\.codex\\sessions\\a.jsonl"
    );
    let missing = check_session_source_path("  ").unwrap_err();
    assert_eq!(missing.code, "VALIDATION_ERROR");
    assert_eq!(missing.message, "sourcePath is required");
    let relative = check_session_source_path("sessions\\a.jsonl").unwrap_err();
    assert_eq!(relative.code, "CODEX_HISTORY_SOURCE_INVALID");
    assert_eq!(relative.message, "sourcePath must be absolute");
    let other = check_session_source_path("C:\\sessions\\a.json").unwrap_err();
    assert_eq!(other.message, "sourcePath must point to a Codex JSONL session");
    assert_eq!(
        other.details.as_ref().and_then(|d| d.get("sourcePath")).map(String::as_str),
        Some("C:\\sessions\\a.json")
    );
    assert!(check_session_source_path("C:\\sessions\\.jsonl").is_err());
}

#[test]
fn history_tasks_report_join_failures_and_timeouts() {
    let ok = history_task_result("list", TaskOutcome::Finished(Ok(3)));
    assert_eq!(ok.unwrap(), 3);
    let failed: Result<u8, AppError> = history_task_result("list", TaskOutcome::Aborted("boom".to_string()));
    let error = failed.unwrap_err();
    assert_eq!(error.code, "CODEX_HISTORY_TASK_FAILED");
    assert_eq!(error.details.as_ref().and_then(|d| d.get("reason")).map(String::as_str), Some("boom"));
    let slow: Result<u8, AppError> = history_task_result("list", TaskOutcome::TimedOut);
    let error = slow.unwrap_err();
    assert_eq!(error.code, "CODEX_HISTORY_TIMEOUT");
    assert_eq!(error.retryable, Some(true));
}

#[test]
fn session_roots_come_from_codex_home_and_profiles_without_repeats() {
    let profiles = vec!["C:\\Work".to_string(), "  ".to_string(), " D:\\Other ".to_string()];
    let (configured, homes) = session_root_homes(&Some("  E:\\Codex  ".to_string()), &profiles);
    assert_eq!(configured.as_deref(), Some("E:\\Codex"));
    assert_eq!(homes, vec!["C:\\Work".to_string(), " D:\\Other ".to_string()]);
    let (unset, _) = session_root_homes(&Some("   ".to_string()), &profiles);
    assert_eq!(unset, None);

    let roots = vec![
        "C:\\Users\\me\\.codex\\sessions".to_string(),
        "c:/users/me/.codex/sessions/".to_string(),
        "\\\\?\\C:\\Users\\me\\.codex\\sessions".to_string(),
        "D:\\work\\sessions".to_string(),
    ];
    assert_eq!(
        distinct_session_roots(&roots),
        vec!["C:\\Users\\me\\.codex\\sessions".to_string(), "D:\\work\\sessions".to_string()]
    );
}
