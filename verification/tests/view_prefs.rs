use bexo_services::preferences::{
    CodexAuthPreferences, CodexAuthProxyPreferences, CodexHistoryViewPreferences,
};
use bexo_services::view_prefs::{
    sanitize_codex_auth_preferences, sanitize_codex_history_view_preferences,
    validate_codex_auth_preferences, validate_codex_history_font_family,
    validate_codex_history_view_preferences,
};

#[test]
fn repaired_history_preferences_validate_and_settle() {
    let input = CodexHistoryViewPreferences {
        message_font_family: "Fira\nCode".to_string(),
        message_font_size: 40,
    };
    let first = sanitize_codex_history_view_preferences(input);
    assert!(first.changed);
    assert_eq!(first.preferences.message_font_family, "");
    assert_eq!(first.preferences.message_font_size, 12);
    let again = sanitize_codex_history_view_preferences(first.preferences.clone());
    assert!(!again.changed);
    assert!(validate_codex_history_view_preferences(first.preferences).is_ok());

    let trimmed = sanitize_codex_history_view_preferences(CodexHistoryViewPreferences {
        message_font_family: "  Consolas ".to_string(),
        message_font_size: 14,
    });
    assert!(trimmed.changed);
    assert_eq!(trimmed.preferences.message_font_family, "Consolas");
    assert!(!sanitize_codex_history_view_preferences(trimmed.preferences).changed);
}

#[test]
fn font_family_limits() {
    assert_eq!(validate_codex_history_font_family(" Sans ".to_string()).unwrap(), "Sans");
    assert!(validate_codex_history_font_family("x".repeat(160)).is_ok());
    let error = validate_codex_history_font_family("x".repeat(161)).unwrap_err();
    assert_eq!(
        error.details.as_ref().and_then(|d| d.get("field")).map(String::as_str),
        Some("codexHistory.messageFontFamily")
    );
}

#[test]
fn repaired_auth_preferences_validate_and_settle() {
    let input = CodexAuthPreferences {
        quota_refresh_interval_seconds: 5,
        proxy: CodexAuthProxyPreferences {
            mode: "manual".to_string(),
            manual_proxy_url: "ftp://proxy".to_string(),
        },
    };
    let first = sanitize_codex_auth_preferences(input);
    assert!(first.changed);
    assert_eq!(first.preferences.quota_refresh_interval_seconds, 60);
    assert_eq!(first.preferences.proxy.mode, "system");
    assert_eq!(first.preferences.proxy.manual_proxy_url, "");
    assert!(validate_codex_auth_preferences(first.preferences.clone()).is_ok());
    assert!(!sanitize_codex_auth_preferences(first.preferences).changed);

    let tidy = sanitize_codex_auth_preferences(CodexAuthPreferences {
        quota_refresh_interval_seconds: 120,
        proxy: CodexAuthProxyPreferences {
            mode: " Manual ".to_string(),
            manual_proxy_url: " http://127.0.0.1:7890 ".to_string(),
        },
    });
    assert!(tidy.changed);
    assert_eq!(tidy.preferences.proxy.mode, "manual");
    assert_eq!(tidy.preferences.proxy.manual_proxy_url, "http://127.0.0.1:7890");
    assert!(!sanitize_codex_auth_preferences(tidy.preferences).changed);
}
