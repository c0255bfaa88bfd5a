use bexo_services::error::AppError;
use bexo_services::hotkey::HotkeyAction;
use bexo_services::preferences::PromptQuickPasteHotkeySlot;
use bexo_services::quick_paste::{
    check_prompt_content, needs_failure_notification, quick_paste_result_event,
    resolve_quick_paste_slot, PromptQuickPasteResultStatus,
};

fn slot(n: u8, enabled: bool, prompt: Option<&str>, shortcut: &str) -> PromptQuickPasteHotkeySlot {
    PromptQuickPasteHotkeySlot {
        slot: n,
        enabled,
        prompt_id: prompt.map(str::to_string),
        shortcut: shortcut.to_string(),
    }
}

fn detail(error: &AppError, key: &str) -> Option<String> {
    error.details.as_ref().and_then(|d| d.get(key)).cloned()
}

#[test]
fn quick_paste_resolves_the_slot_prompt() {
    let slots = vec![slot(1, true, Some("p1"), "Ctrl+Alt+1"), slot(2, true, Some("p2"), "Ctrl+Alt+2")];
    let (n, prompt) = resolve_quick_paste_slot(HotkeyAction::PromptQuickPaste2, &slots, "ctrl+alt+2").unwrap();
    assert_eq!(n, 2);
    assert_eq!(prompt, "p2");
}

#[test]
fn quick_paste_refusals_name_the_slot() {
    let slots = vec![
        slot(1, false, Some("p1"), "Ctrl+Alt+1"),
        slot(2, true, None, "Ctrl+Alt+2"),
        slot(3, true, Some("p3"), "Ctrl+Alt+3"),
    ];
    let invalid = resolve_quick_paste_slot(HotkeyAction::ScreenshotCapture, &slots, "x").unwrap_err();
    assert_eq!(invalid.code, "PROMPT_QUICK_PASTE_ACTION_INVALID");
    let missing = resolve_quick_paste_slot(HotkeyAction::PromptQuickPaste5, &slots, "x").unwrap_err();
    assert_eq!(missing.code, "PROMPT_QUICK_PASTE_SLOT_MISSING");
    assert_eq!(detail(&missing, "slot").as_deref(), Some("5"));
    let disabled = resolve_quick_paste_slot(HotkeyAction::PromptQuickPaste1, &slots, "Ctrl+Alt+1").unwrap_err();
    assert_eq!(disabled.code, "PROMPT_QUICK_PASTE_SLOT_DISABLED");
    let required = resolve_quick_paste_slot(HotkeyAction::PromptQuickPaste2, &slots, "Ctrl+Alt+2").unwrap_err();
    assert_eq!(required.code, "PROMPT_QUICK_PASTE_PROMPT_REQUIRED");
    let stale = resolve_quick_paste_slot(HotkeyAction::PromptQuickPaste3, &slots, "Ctrl+Alt+9").unwrap_err();
    assert_eq!(stale.code, "PROMPT_QUICK_PASTE_BINDING_STALE");
    assert_eq!(detail(&stale, "shortcut").as_deref(), Some("Ctrl+Alt+9"));
}

#[test]
fn blank_prompt_content_is_not_pasted() {
    assert!(check_prompt_content(1, "p1", "hello").is_ok());
    let error = check_prompt_content(4, "p4", "  \n").unwrap_err();
    assert_eq!(error.code, "PROMPT_QUICK_PASTE_CONTENT_EMPTY");
    assert_eq!(detail(&error, "slot").as_deref(), Some("4"));
    assert_eq!(detail(&error, "promptId").as_deref(), Some("p4"));
}

#[test]
fn result_events_report_sent_and_failed_pastes() {
    let sent = quick_paste_result_event(
        HotkeyAction::PromptQuickPaste1,
        "Ctrl+Alt+1".to_string(),
        Ok((1, "p1".to_string(), "Greeting".to_string())),
        "now".to_string(),
    );
    assert_eq!(sent.status, PromptQuickPasteResultStatus::Sent);
    assert_eq!(sent.message, "已发送粘贴：Greeting");
    assert_eq!(sent.prompt_id.as_deref(), Some("p1"));
    assert!(!needs_failure_notification(&sent));

    let error = check_prompt_content(3, "p3", "").unwrap_err();
    let failed = quick_paste_result_event(
        HotkeyAction::PromptQuickPaste3,
        "Ctrl+Alt+3".to_string(),
        Err(error),
        "now".to_string(),
    );
    assert_eq!(failed.status, PromptQuickPasteResultStatus::Failed);
    assert_eq!(failed.slot, 3);
    assert_eq!(failed.prompt_id.as_deref(), Some("p3"));
    assert_eq!(failed.message, "绑定的 Prompt 正文为空，未发送粘贴");
    assert!(failed.prompt_title.is_none());
    assert!(needs_failure_notification(&failed));

    let other = quick_paste_result_event(
        HotkeyAction::ScreenshotCapture,
        "x".to_string(),
        Err(AppError::new("PROMPT_QUICK_PASTE_ACTION_INVALID", "无法识别 Prompt 快速粘贴动作")),
        "now".to_string(),
    );
    assert_eq!(other.slot, 0);
    assert!(other.prompt_id.is_none());
}
