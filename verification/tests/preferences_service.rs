use bexo_services::error::AppError;
use bexo_services::hotkey::{validate_hotkey_shortcut, HotkeyAction};
use bexo_services::hotkey_prefs::validate_hotkey_preferences;
use bexo_services::hotkey_repair::sanitize_hotkey_preferences;
use bexo_services::preferences::{
    apply_preferences_patch, migrate_legacy_preferences, AppPreferences, AppPreferencesPatch,
    CodexAuthPreferences, CodexAuthProxyPreferences, CodexHistoryViewPreferences,
    PromptQuickPasteHotkeySlot, StartupPreferences, WorkspacePreferencesPatch,
    DEFAULT_CODEX_AUTH_PROXY_MODE, DEFAULT_CODEX_AUTH_QUOTA_REFRESH_INTERVAL_SECONDS,
    DEFAULT_CODEX_HISTORY_MESSAGE_FONT_SIZE, DEFAULT_PROMPT_QUICK_PASTE_HOTKEYS,
    DEFAULT_SCREENSHOT_CAPTURE_HOTKEY, EARLIER_DEFAULT_SCREENSHOT_CAPTURE_HOTKEY,
    LEGACY_SCREENSHOT_CAPTURE_HOTKEY, PREVIOUS_DEFAULT_SCREENSHOT_CAPTURE_HOTKEY,
    PROMPT_QUICK_PASTE_SLOT_COUNT,
};
use bexo_services::prefs_service::{attach_preference_rollback_failures, load_stored_preferences};
use bexo_services::view_prefs::{
    sanitize_codex_auth_preferences, sanitize_codex_history_view_preferences,
    validate_codex_auth_proxy_preferences, validate_codex_auth_quota_refresh_interval_seconds,
    validate_codex_history_message_font_size,
};

fn detail<'a>(error: &'a AppError, key: &str) -> Option<&'a str> {
    error
        .details
        .as_ref()
        .and_then(|details| details.get(key))
        .map(String::as_str)
}

#[test]
fn preferences_patch_merges_against_latest_workspace_state() {
    let mut preferences = AppPreferences::default();
    preferences.workspace.selected_workspace_ids = vec!["selected-a".to_string()];
    preferences.workspace.pinned_workspace_ids = vec!["pinned-a".to_string()];

    let mut first = AppPreferencesPatch::default();
    first.workspace = Some(WorkspacePreferencesPatch {
        selected_workspace_ids: Some(vec!["selected-b".to_string()]),
        pinned_workspace_ids: None,
    });
    let preferences = apply_preferences_patch(preferences, first);
    let mut second = AppPreferencesPatch::default();
    second.workspace = Some(WorkspacePreferencesPatch {
        selected_workspace_ids: None,
        pinned_workspace_ids: Some(vec!["pinned-b".to_string()]),
    });
    let preferences = apply_preferences_patch(preferences, second);

    assert_eq!(
        preferences.workspace.selected_workspace_ids,
        vec!["selected-b".to_string()]
    );
    assert_eq!(
        preferences.workspace.pinned_workspace_ids,
        vec!["pinned-b".to_string()]
    );
}

#[test]
fn preferences_patch_does_not_replace_unrelated_domains() {
    let mut preferences = AppPreferences::default();
    preferences.workspace.pinned_workspace_ids = vec!["pinned".to_string()];

    let mut patch = AppPreferencesPatch::default();
    patch.startup = Some(StartupPreferences {
        launch_at_login: true,
        start_silently: true,
    });
    let patched = apply_preferences_patch(preferences, patch);

    assert!(patched.startup.launch_at_login);
    assert!(patched.startup.start_silently);
    assert_eq!(
        patched.workspace.pinned_workspace_ids,
        vec!["pinned".to_string()]
    );
}

#[test]
fn preference_rollback_failures_preserve_error_and_mark_unknown_consistency() {
    let error = AppError::new("PREFERENCES_STORE_WRITE_FAILED", "保存设置失败");
    let error = attach_preference_rollback_failures(error, vec!["store: write failed".to_string()]);

    assert_eq!(error.code, "PREFERENCES_STORE_WRITE_FAILED");
    assert_eq!(error.message, "保存设置失败");
    assert_eq!(detail(&error, "rollbackFailure"), Some("store: write failed"));
    assert_eq!(detail(&error, "stateConsistency"), Some("unknown"));
}

#[test]
fn migrate_legacy_preferences_updates_legacy_screenshot_hotkey() {
    let mut preferences = AppPreferences::default();
    preferences.hotkey.screenshot_capture = LEGACY_SCREENSHOT_CAPTURE_HOTKEY.to_string();

    let migrated = migrate_legacy_preferences(preferences);
    assert!(migrated.changed);
    assert_eq!(
        migrated.preferences.hotkey.screenshot_capture,
        DEFAULT_SCREENSHOT_CAPTURE_HOTKEY
    );
}

#[test]
fn migrate_legacy_preferences_preserves_custom_screenshot_hotkey() {
    let mut preferences = AppPreferences::default();
    preferences.hotkey.screenshot_capture = "Ctrl+Shift+Q".to_string();

    let migrated = migrate_legacy_preferences(preferences);
    assert!(!migrated.changed);
    assert_eq!(
        migrated.preferences.hotkey.screenshot_capture,
        "Ctrl+Shift+Q"
    );
}

#[test]
fn codex_history_font_size_default_is_twelve_pixels() {
    let preferences = CodexHistoryViewPreferences::default();
    assert_eq!(
        preferences.message_font_size,
        DEFAULT_CODEX_HISTORY_MESSAGE_FONT_SIZE
    );
    assert_eq!(preferences.message_font_size, 12);
}

#[test]
fn codex_history_font_size_validation_rejects_out_of_range_values() {
    let error = validate_codex_history_message_font_size(9)
        .expect_err("font size below range should be rejected");
    assert_eq!(error.code, "VALIDATION_ERROR");
    assert_eq!(detail(&error, "field"), Some("codexHistory.messageFontSize"));
}

#[test]
fn codex_history_preferences_repair_restores_invalid_size() {
    let repaired = sanitize_codex_history_view_preferences(CodexHistoryViewPreferences {
        message_font_family: "  Microsoft YaHei  ".to_string(),
        message_font_size: -2,
    });

    assert!(repaired.changed);
    assert_eq!(repaired.preferences.message_font_family, "Microsoft YaHei");
    assert_eq!(
        repaired.preferences.message_font_size,
        DEFAULT_CODEX_HISTORY_MESSAGE_FONT_SIZE
    );
}

#[test]
fn codex_auth_quota_refresh_interval_default_is_sixty_seconds() {
    let preferences = CodexAuthPreferences::default();
    assert_eq!(
        preferences.quota_refresh_interval_seconds,
        DEFAULT_CODEX_AUTH_QUOTA_REFRESH_INTERVAL_SECONDS
    );
    assert_eq!(preferences.quota_refresh_interval_seconds, 60);
}

#[test]
fn codex_auth_quota_refresh_interval_validation_rejects_out_of_range_values() {
    let error = validate_codex_auth_quota_refresh_interval_seconds(9)
        .expect_err("refresh interval below range should be rejected");
    assert_eq!(error.code, "VALIDATION_ERROR");
    assert_eq!(
        detail(&error, "field"),
        Some("codexAuth.quotaRefreshIntervalSeconds")
    );
}

#[test]
fn codex_auth_preferences_repair_restores_invalid_interval() {
    let repaired = sanitize_codex_auth_preferences(CodexAuthPreferences {
        quota_refresh_interval_seconds: 0,
        proxy: CodexAuthProxyPreferences::default(),
    });

    assert!(repaired.changed);
    assert_eq!(
        repaired.preferences.quota_refresh_interval_seconds,
        DEFAULT_CODEX_AUTH_QUOTA_REFRESH_INTERVAL_SECONDS
    );
}

#[test]
fn codex_auth_proxy_default_uses_system_proxy() {
    let preferences = CodexAuthProxyPreferences::default();
    assert_eq!(preferences.mode, DEFAULT_CODEX_AUTH_PROXY_MODE);
    assert_eq!(preferences.mode, "system");
    assert!(preferences.manual_proxy_url.is_empty());
}

#[test]
fn codex_auth_proxy_validation_accepts_manual_http_proxy() {
    let validated = validate_codex_auth_proxy_preferences(CodexAuthProxyPreferences {
        mode: "manual".to_string(),
        manual_proxy_url: "  http://127.0.0.1:7890  ".to_string(),
    })
    .expect("manual HTTP proxy should be valid");

    assert_eq!(validated.mode, "manual");
    assert_eq!(validated.manual_proxy_url, "http://127.0.0.1:7890");
}

#[test]
fn codex_auth_proxy_validation_rejects_manual_proxy_without_supported_scheme() {
    let error = validate_codex_auth_proxy_preferences(CodexAuthProxyPreferences {
        mode: "manual".to_string(),
        manual_proxy_url: "127.0.0.1:7890".to_string(),
    })
    .expect_err("manual proxy without scheme should be rejected");

    assert_eq!(error.code, "VALIDATION_ERROR");
    assert_eq!(detail(&error, "field"), Some("codexAuth.proxy.manualProxyUrl"));
}

#[test]
fn migrate_legacy_preferences_updates_previous_default_screenshot_hotkey() {
    let mut preferences = AppPreferences::default();
    preferences.hotkey.screenshot_capture = PREVIOUS_DEFAULT_SCREENSHOT_CAPTURE_HOTKEY.to_string();

    let migrated = migrate_legacy_preferences(preferences);
    assert!(migrated.changed);
    assert_eq!(
        migrated.preferences.hotkey.screenshot_capture,
        DEFAULT_SCREENSHOT_CAPTURE_HOTKEY
    );
}

#[test]
fn validate_hotkey_shortcut_rejects_modifier_only_screenshot_shortcut() {
    let error = validate_hotkey_shortcut(
        HotkeyAction::ScreenshotCapture,
        "LCtrl+LShift".to_string(),
        true,
    )
    .expect_err("modifier-only screenshot shortcut should be rejected");
    assert_eq!(error.code, "HOTKEY_SHORTCUT_INVALID");
    assert_eq!(
        detail(&error, "reason"),
        Some("截图热键至少包含一个非修饰键，例如 Ctrl+Shift+X")
    );
}

#[test]
fn validate_hotkey_shortcut_accepts_ralt_for_voice_toggle() {
    let validated =
        validate_hotkey_shortcut(HotkeyAction::VoiceInputToggle, "RAlt".to_string(), false)
            .expect("voice toggle should allow side-specific modifier-only shortcut");
    assert_eq!(validated.as_deref(), Some("RAlt"));
}

#[test]
fn sanitize_hotkey_preferences_repairs_invalid_capture_shortcut() {
    let mut preferences = AppPreferences::default();
    preferences.hotkey.screenshot_capture = "LCtrl+LShift".to_string();

    let repaired = sanitize_hotkey_preferences(preferences.hotkey);
    assert!(repaired.changed);
    assert_eq!(
        repaired.preferences.screenshot_capture,
        DEFAULT_SCREENSHOT_CAPTURE_HOTKEY
    );
}

#[test]
fn validate_prompt_quick_paste_requires_prompt_before_enable() {
    let mut preferences = AppPreferences::default();
    preferences.hotkey.prompt_quick_paste_slots[0].enabled = true;

    let error = validate_hotkey_preferences(preferences.hotkey)
        .expect_err("enabled slot without a prompt must fail");
    assert_eq!(error.code, "PROMPT_QUICK_PASTE_PROMPT_REQUIRED");
}

#[test]
fn validate_prompt_quick_paste_rejects_active_shortcut_conflicts() {
    let mut preferences = AppPreferences::default();
    let slot = &mut preferences.hotkey.prompt_quick_paste_slots[0];
    slot.enabled = true;
    slot.prompt_id = Some(uuid::Uuid::new_v4().to_string());
    slot.shortcut = DEFAULT_SCREENSHOT_CAPTURE_HOTKEY.to_string();

    let error = validate_hotkey_preferences(preferences.hotkey)
        .expect_err("active slots must not conflict with screenshot hotkey");
    assert_eq!(error.code, "HOTKEY_DUPLICATE_SHORTCUT");
}

#[test]
fn sanitize_prompt_quick_paste_repairs_invalid_slot_without_losing_defaults() {
    let mut preferences = AppPreferences::default();
    preferences.hotkey.prompt_quick_paste_slots[0] = PromptQuickPasteHotkeySlot {
        slot: 1,
        enabled: true,
        prompt_id: Some("not-a-uuid".to_string()),
        shortcut: "modifier-only".to_string(),
    };

    let repaired = sanitize_hotkey_preferences(preferences.hotkey);
    assert!(repaired.changed);
    assert_eq!(
        repaired.preferences.prompt_quick_paste_slots.len(),
        PROMPT_QUICK_PASTE_SLOT_COUNT
    );
    assert!(!repaired.preferences.prompt_quick_paste_slots[0].enabled);
    assert!(repaired.preferences.prompt_quick_paste_slots[0]
        .prompt_id
        .is_none());
    assert_eq!(
        repaired.preferences.prompt_quick_paste_slots[0].shortcut,
        DEFAULT_PROMPT_QUICK_PASTE_HOTKEYS[0]
    );
}

#[test]
fn migrate_legacy_preferences_updates_earlier_default_screenshot_hotkey() {
    let mut preferences = AppPreferences::default();
    preferences.hotkey.screenshot_capture = EARLIER_DEFAULT_SCREENSHOT_CAPTURE_HOTKEY.to_string();

    let migrated = migrate_legacy_preferences(preferences);
    assert!(migrated.changed);
    assert_eq!(
        migrated.preferences.hotkey.screenshot_capture,
        DEFAULT_SCREENSHOT_CAPTURE_HOTKEY
    );
}

#[test]
fn stored_preferences_load_migrated_and_repaired() {
    let (defaults, write_back) = load_stored_preferences(None);
    assert!(write_back);
    assert_eq!(defaults, AppPreferences::default());

    let (same, write_back) = load_stored_preferences(Some(AppPreferences::default()));
    assert!(!write_back);
    assert_eq!(same, AppPreferences::default());

    let mut legacy = AppPreferences::default();
    legacy.hotkey.screenshot_capture = LEGACY_SCREENSHOT_CAPTURE_HOTKEY.to_string();
    legacy.codex_history.message_font_size = 99;
    let (loaded, write_back) = load_stored_preferences(Some(legacy));
    assert!(write_back);
    assert_eq!(loaded.hotkey.screenshot_capture, DEFAULT_SCREENSHOT_CAPTURE_HOTKEY);
    assert_eq!(loaded.codex_history.message_font_size, DEFAULT_CODEX_HISTORY_MESSAGE_FONT_SIZE);
    let (again, write_back) = load_stored_preferences(Some(loaded.clone()));
    assert!(!write_back);
    assert_eq!(again, loaded);
}
