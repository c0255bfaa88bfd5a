use bexo_services::error::AppError;
use bexo_services::hotkey::HotkeyAction;
use bexo_services::hotkey_bindings::{
    HotkeyService,
    build_desired_bindings, classify_bindings, invalid_shortcut_error, normalize_optional_shortcut,
    register_hook_bindings_error, register_shortcut_error, same_bindings, settle_hotkey_apply,
    uses_windows_hook, RegisteredHotkeyBinding, WindowsHookHotkeyBinding,
};
use bexo_services::preferences::AppPreferences;

fn detail<'a>(error: &'a AppError, key: &str) -> Option<&'a str> {
    error
        .details
        .as_ref()
        .and_then(|details| details.get(key))
        .map(|value| value.as_str())
}

fn binding(action: HotkeyAction, shortcut: &str) -> RegisteredHotkeyBinding {
    RegisteredHotkeyBinding { action, shortcut: shortcut.to_string() }
}

#[test]
fn desired_bindings_follow_the_preferences() {
    let mut prefs = AppPreferences::default();
    prefs.hotkey.screenshot_capture = "  Ctrl+Shift+X ".to_string();
    prefs.hotkey.voice_input_toggle = Some("   ".to_string());
    prefs.hotkey.voice_input_hold = Some(" RAlt ".to_string());
    let bindings = build_desired_bindings(&prefs);
    assert_eq!(bindings.len(), 2);
    assert!(bindings[0].action == HotkeyAction::ScreenshotCapture);
    assert_eq!(bindings[0].shortcut, "Ctrl+Shift+X");
    assert!(bindings[1].action == HotkeyAction::VoiceInputHold);
    assert_eq!(bindings[1].shortcut, "RAlt");

    prefs.hotkey.screenshot_capture = "  ".to_string();
    prefs.hotkey.voice_input_hold = None;
    assert!(build_desired_bindings(&prefs).is_empty());

    assert_eq!(normalize_optional_shortcut(Some(" F9 ")).as_deref(), Some("F9"));
    assert_eq!(normalize_optional_shortcut(Some("")), None);
    assert_eq!(normalize_optional_shortcut(None), None);
}

#[test]
fn bindings_split_by_registration_path() {
    let bindings = vec![
        binding(HotkeyAction::ScreenshotCapture, "Ctrl+Shift+X"),
        binding(HotkeyAction::VoiceInputToggle, "RAlt"),
        binding(HotkeyAction::VoiceInputHold, "Alt+F9"),
    ];
    let classified = classify_bindings(&bindings).unwrap();
    let basic: Vec<&str> = classified.basic.iter().map(|b| b.shortcut.as_str()).collect();
    let hook: Vec<&str> = classified.hook.iter().map(|b| b.shortcut.as_str()).collect();
    assert_eq!(basic, vec!["Ctrl+Shift+X", "Alt+F9"]);
    assert_eq!(hook, vec!["RAlt"]);
    assert!(uses_windows_hook(&bindings));
    assert!(!uses_windows_hook(&vec![binding(HotkeyAction::ScreenshotCapture, "Ctrl+X")]));

    let invalid = vec![
        binding(HotkeyAction::ScreenshotCapture, "Ctrl+X"),
        binding(HotkeyAction::VoiceInputToggle, "Ctrl+Bogus"),
    ];
    let error = classify_bindings(&invalid).unwrap_err();
    assert_eq!(error.code, "HOTKEY_SHORTCUT_INVALID");
    assert_eq!(detail(&error, "action"), Some("voice_input_toggle"));
    assert_eq!(detail(&error, "field"), Some("hotkey.voiceInputToggle"));
    assert_eq!(detail(&error, "shortcut"), Some("Ctrl+Bogus"));
    assert_eq!(detail(&error, "reason"), Some("热键包含不支持的按键"));
}

#[test]
fn registration_errors_name_the_binding() {
    let b = binding(HotkeyAction::ScreenshotCapture, "Ctrl+X");
    let taken = register_shortcut_error(&b, "HotKey Already Registered".to_string());
    assert_eq!(taken.code, "HOTKEY_REGISTER_FAILED");
    assert_eq!(taken.message, "热键已被占用，请更换组合键");
    let other = register_shortcut_error(&b, "os error".to_string());
    assert_eq!(other.message, "热键注册失败");
    assert_eq!(detail(&other, "reason"), Some("os error"));
    let invalid = invalid_shortcut_error(&b, "bad".to_string());
    assert_eq!(invalid.message, "热键格式无效");

    let hooks = vec![
        WindowsHookHotkeyBinding { action: HotkeyAction::VoiceInputToggle, shortcut: "RAlt".to_string() },
        WindowsHookHotkeyBinding { action: HotkeyAction::VoiceInputHold, shortcut: "LWin+LAlt".to_string() },
    ];
    let error = register_hook_bindings_error(&hooks, "hook failed".to_string());
    assert_eq!(detail(&error, "actions"), Some("voice_input_toggle,voice_input_hold"));
    assert_eq!(detail(&error, "shortcuts"), Some("RAlt,LWin+LAlt"));
    assert_eq!(detail(&error, "source"), Some("windows_hook"));
    assert_eq!(detail(&error, "reason"), Some("hook failed"));
}

#[test]
fn failed_application_restores_or_clears_the_registered_set() {
    let previous = vec![binding(HotkeyAction::ScreenshotCapture, "Ctrl+X")];
    let desired = vec![binding(HotkeyAction::ScreenshotCapture, "Ctrl+Y")];
    assert!(!same_bindings(&previous, &desired));
    assert!(same_bindings(&previous, &vec![binding(HotkeyAction::ScreenshotCapture, "Ctrl+X")]));

    let (state, result) = settle_hotkey_apply(previous, desired, Ok(()), None);
    assert_eq!(state[0].shortcut, "Ctrl+Y");
    assert!(result.is_ok());

    let previous = vec![binding(HotkeyAction::ScreenshotCapture, "Ctrl+X")];
    let desired = vec![binding(HotkeyAction::ScreenshotCapture, "Ctrl+Y")];
    let failure = AppError::new("HOTKEY_REGISTER_FAILED", "热键注册失败");
    let (state, result) = settle_hotkey_apply(previous, desired, Err(failure.clone()), Some(Ok(())));
    assert_eq!(state[0].shortcut, "Ctrl+X");
    assert_eq!(result.unwrap_err().code, "HOTKEY_REGISTER_FAILED");

    let previous = vec![binding(HotkeyAction::ScreenshotCapture, "Ctrl+X")];
    let desired = vec![binding(HotkeyAction::ScreenshotCapture, "Ctrl+Y")];
    let (state, result) = settle_hotkey_apply(
        previous,
        desired,
        Err(failure),
        Some(Err("still busy".to_string())),
    );
    assert!(state.is_empty());
    let error = result.unwrap_err();
    assert_eq!(detail(&error, "rollback"), Some("failed"));
    assert_eq!(detail(&error, "rollbackReason"), Some("still busy"));
}

#[test]
fn hotkey_service_keeps_what_each_apply_leaves() {
    let binding = |shortcut: &str| RegisteredHotkeyBinding {
        action: HotkeyAction::ScreenshotCapture,
        shortcut: shortcut.to_string(),
    };
    let mut service = HotkeyService::new();
    assert!(service.current_registered().is_empty());
    assert!(service.finish_apply(vec![binding("Ctrl+Shift+A")], Ok(()), None).is_ok());
    assert_eq!(service.current_registered()[0].shortcut, "Ctrl+Shift+A");

    let failure = AppError::new("HOTKEY_REGISTER_FAILED", "热键注册失败");
    let result = service.finish_apply(vec![binding("Ctrl+B")], Err(failure.clone()), Some(Ok(())));
    assert_eq!(result.unwrap_err().code, "HOTKEY_REGISTER_FAILED");
    assert_eq!(service.current_registered()[0].shortcut, "Ctrl+Shift+A");

    let result = service.finish_apply(vec![binding("Ctrl+B")], Err(failure), Some(Err("busy".to_string())));
    let error = result.unwrap_err();
    let details = error.details.as_ref().expect("details");
    assert_eq!(details.get("rollback").map(String::as_str), Some("failed"));
    assert_eq!(details.get("rollbackReason").map(String::as_str), Some("busy"));
    assert!(service.current_registered().is_empty());
}
