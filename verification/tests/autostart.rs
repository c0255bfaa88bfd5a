use bexo_services::autostart::{
    build_registry_run_command_line, check_disabled_registration, check_enabled_registration,
    decode_registry_string_value, extract_windows_command_executable, is_development_executable,
    plan_enable_registration, quote_windows_command_arg, registry_rollback_error,
    registry_string_value_snapshot, resolve_registration_executable,
    should_keep_existing_release_command, startup_approved_value_is_enabled, sync_launch_at_login,
    validate_registry_run_command_line, validate_registry_value_size, AutostartSync,
    RegistryValueSnapshot, MAX_REGISTRY_VALUE_BYTES, REG_BINARY, REG_EXPAND_SZ, REG_SZ,
    TASK_MANAGER_ENABLED_VALUE,
};
use bexo_services::error::AppError;

fn registry_string_snapshot(value_type: u32, value: &str) -> RegistryValueSnapshot {
    let bytes = value
        .encode_utf16()
        .chain([0])
        .flat_map(u16::to_le_bytes)
        .collect();
    RegistryValueSnapshot { value_type, bytes }
}

#[test]
fn registry_run_command_quotes_executable_path_and_autostart_arg() {
    let command = build_registry_run_command_line(
        r"C:\Users\aka86\AppData\Local\Bexo Studio\Bexo Studio.exe",
        &["--autostart"],
    );

    assert_eq!(
        command,
        r#""C:\Users\aka86\AppData\Local\Bexo Studio\Bexo Studio.exe" "--autostart""#
    );
}

#[test]
fn command_arg_quote_escapes_embedded_quotes_and_trailing_slash() {
    assert_eq!(
        quote_windows_command_arg(r#"C:\Path With "Quote"\"#),
        r#""C:\Path With \"Quote\"\\""#
    );
}

#[test]
fn command_executable_extracts_quoted_path() {
    assert_eq!(
        extract_windows_command_executable(
            r#""C:\Users\aka86\AppData\Local\Bexo Studio\bexo-studio.exe" "--autostart""#
        )
        .as_deref(),
        Some(r"C:\Users\aka86\AppData\Local\Bexo Studio\bexo-studio.exe")
    );
}

#[test]
fn command_executable_repairs_legacy_unquoted_path_with_spaces() {
    assert_eq!(
        extract_windows_command_executable(
            r#"C:\Users\aka86\AppData\Local\Bexo Studio\bexo-studio.exe --autostart"#
        )
        .as_deref(),
        Some(r"C:\Users\aka86\AppData\Local\Bexo Studio\bexo-studio.exe")
    );
}

#[test]
fn registry_string_decode_supports_sz_and_expand_sz_without_pointer_casts() {
    let expected = r#""C:\Program Files\Bexo Studio\bexo-studio.exe" "--autostart""#;
    assert_eq!(
        decode_registry_string_value(&registry_string_snapshot(REG_SZ, expected)).as_deref(),
        Some(expected)
    );
    assert_eq!(
        decode_registry_string_value(&registry_string_snapshot(REG_EXPAND_SZ, expected))
            .as_deref(),
        Some(expected)
    );
    assert!(decode_registry_string_value(&RegistryValueSnapshot {
        value_type: REG_SZ,
        bytes: vec![0x41],
    })
    .is_none());
}

#[test]
fn startup_approval_matches_locked_auto_launch_compatibility_rules() {
    for state in [0x00, 0x02, 0x06] {
        let mut enabled = TASK_MANAGER_ENABLED_VALUE.to_vec();
        enabled[0] = state;
        assert!(startup_approved_value_is_enabled(&RegistryValueSnapshot {
            value_type: REG_BINARY,
            bytes: enabled,
        }));
    }

    let mut disabled = TASK_MANAGER_ENABLED_VALUE.to_vec();
    disabled[0] = 0x03;
    disabled[4] = 0x01;
    assert!(!startup_approved_value_is_enabled(&RegistryValueSnapshot {
        value_type: REG_BINARY,
        bytes: disabled,
    }));
    assert!(!startup_approved_value_is_enabled(&registry_string_snapshot(
        REG_SZ, "enabled"
    )));
}

#[test]
fn registry_run_command_rejects_windows_limit_overflow() {
    assert!(validate_registry_run_command_line(&"x".repeat(260)).is_ok());
    let error = validate_registry_run_command_line(&"x".repeat(261))
        .expect_err("command longer than the documented limit must fail");
    assert_eq!(error.code, "AUTOSTART_COMMAND_TOO_LONG");
}

#[test]
fn registry_value_size_is_bounded_before_allocation() {
    assert!(validate_registry_value_size(MAX_REGISTRY_VALUE_BYTES).is_ok());
    let error = validate_registry_value_size(MAX_REGISTRY_VALUE_BYTES + 1)
        .expect_err("oversized registry value must be rejected");
    assert_eq!(error.code, "AUTOSTART_REGISTRY_VALUE_TOO_LARGE");
}

#[test]
fn development_executable_detects_tauri_target_paths() {
    assert!(is_development_executable(
        r"D:\Desktop\rust\BexoStudio\src-tauri\target\debug\bexo-studio.exe"
    ));
    assert!(!is_development_executable(
        r"C:\Users\aka86\AppData\Local\Bexo Studio\bexo-studio.exe"
    ));
}

#[test]
fn development_build_keeps_existing_installed_release_command() {
    let current = r"D:\Desktop\rust\BexoStudio\src-tauri\target\debug\bexo-studio.exe";
    let existing = r"C:\Program Files\Bexo Studio\bexo-studio.exe --autostart";
    assert!(should_keep_existing_release_command(current, Some(existing), true));
    assert!(!should_keep_existing_release_command(current, Some(existing), false));
    assert_eq!(
        resolve_registration_executable(current, Some(existing), true),
        r"C:\Program Files\Bexo Studio\bexo-studio.exe"
    );
    assert_eq!(
        resolve_registration_executable(current, Some(existing), false),
        current
    );
}

#[test]
fn release_build_registers_itself() {
    let current = r"C:\Program Files\Bexo Studio\BEXO-STUDIO.EXE";
    let existing = r#""C:\Old\bexo-studio.exe" "--autostart""#;
    assert!(!should_keep_existing_release_command(current, Some(existing), true));
}

#[test]
fn written_registry_string_reads_back_trimmed() {
    let snapshot = registry_string_value_snapshot("  \"C:\\A B\\app.exe\" \"--autostart\"  ");
    assert_eq!(snapshot.value_type, REG_SZ);
    assert_eq!(
        decode_registry_string_value(&snapshot).as_deref(),
        Some("\"C:\\A B\\app.exe\" \"--autostart\"")
    );
    let astral = registry_string_value_snapshot("app-😀");
    assert_eq!(astral.bytes, registry_string_snapshot(REG_SZ, "app-😀").bytes);
    assert_eq!(decode_registry_string_value(&astral).as_deref(), Some("app-😀"));
    assert!(decode_registry_string_value(&registry_string_value_snapshot("   ")).is_none());
}

#[test]
fn unpaired_surrogate_is_not_text() {
    let value = RegistryValueSnapshot {
        value_type: REG_SZ,
        bytes: vec![0x00, 0xD8, 0x41, 0x00, 0x00, 0x00],
    };
    assert!(decode_registry_string_value(&value).is_none());
    let binary = registry_string_snapshot(REG_BINARY, "text");
    assert!(decode_registry_string_value(&binary).is_none());
}

#[test]
fn enable_plan_detects_existing_registration() {
    let exe = r"C:\Program Files\Bexo Studio\bexo-studio.exe";
    let expected = r#""C:\Program Files\Bexo Studio\bexo-studio.exe" "--autostart""#;
    let current = Some(registry_string_snapshot(REG_SZ, expected));
    let plan = plan_enable_registration(exe, &current, &None).expect("short command");
    assert_eq!(plan.command_line, expected);
    assert!(!plan.write_run);
    assert!(!plan.repair_approval);
    assert_eq!(plan.expected_approval_value.bytes, TASK_MANAGER_ENABLED_VALUE.to_vec());

    let mut disabled = TASK_MANAGER_ENABLED_VALUE.to_vec();
    disabled[4] = 1;
    let approval = Some(RegistryValueSnapshot { value_type: REG_BINARY, bytes: disabled });
    let plan = plan_enable_registration(exe, &None, &approval).expect("short command");
    assert!(plan.write_run);
    assert!(plan.repair_approval);

    let long_exe = format!(r"C:\{}\app.exe", "x".repeat(300));
    let error = plan_enable_registration(&long_exe, &None, &None)
        .err()
        .expect("too long");
    assert_eq!(error.code, "AUTOSTART_COMMAND_TOO_LONG");
}

#[test]
fn verification_of_registration_reports_each_failure() {
    let expected = r#""C:\app.exe" "--autostart""#;
    let good = Some(registry_string_snapshot(REG_SZ, expected));
    assert!(check_enabled_registration(&good, expected, true, &None).is_ok());
    let missing = check_enabled_registration(&None, expected, true, &None)
        .err()
        .expect("missing value");
    assert_eq!(missing.code, "AUTOSTART_VERIFY_FAILED");
    let expand = Some(registry_string_snapshot(REG_EXPAND_SZ, expected));
    assert_eq!(
        check_enabled_registration(&expand, expected, false, &None)
            .err()
            .expect("wrong type")
            .code,
        "AUTOSTART_VERIFY_FAILED"
    );
    let mut disabled = TASK_MANAGER_ENABLED_VALUE.to_vec();
    disabled[11] = 1;
    let approval = Some(RegistryValueSnapshot { value_type: REG_BINARY, bytes: disabled });
    assert_eq!(
        check_enabled_registration(&good, expected, true, &approval)
            .err()
            .expect("disabled approval")
            .code,
        "AUTOSTART_APPROVAL_VERIFY_FAILED"
    );
    assert!(check_enabled_registration(&good, expected, false, &approval).is_ok());
    assert!(check_disabled_registration(&None).is_ok());
    assert!(check_disabled_registration(&good).is_err());
}

#[test]
fn rollback_failures_are_labelled_and_joined() {
    let error = registry_rollback_error(
        AppError::new("AUTOSTART_VERIFY_FAILED", "x"),
        Some("a".to_string()),
        Some("b".to_string()),
    );
    let details = error.details.as_ref().expect("details");
    assert_eq!(
        details.get("rollbackFailure").map(String::as_str),
        Some("Run: a; StartupApproved: b")
    );
    assert_eq!(details.get("stateConsistency").map(String::as_str), Some("unknown"));
    let untouched = registry_rollback_error(AppError::new("X", "y"), None, None);
    assert!(untouched.details.is_none());
}

#[test]
fn blank_app_name_is_refused() {
    let error = sync_launch_at_login("   ", true).err().expect("blank name");
    assert_eq!(error.code, "AUTOSTART_APP_NAME_INVALID");
    match sync_launch_at_login("  Bexo Studio ", false) {
        Ok(AutostartSync::Disable(name)) => assert_eq!(name, "Bexo Studio"),
        _ => panic!("expected a disable step"),
    }
}

#[test]
fn development_paths_are_recognised_in_any_case() {
    assert!(is_development_executable(r"D:\Repo\SRC-TAURI\Target\Release\bexo.exe"));
    assert!(is_development_executable("D:/repo/src-tauri/target/debug/bexo.exe"));
    assert!(!is_development_executable(r"D:\Repo\src-tauri\bexo.exe"));
}

#[test]
fn built_command_line_names_its_executable_again() {
    for path in [r"C:\Program Files\Bexo Studio\bexo-studio.exe", r"D:\a\\b\app.exe", "app"] {
        let line = build_registry_run_command_line(path, &["--autostart", "x \"y\""]);
        assert_eq!(extract_windows_command_executable(&line).as_deref(), Some(path));
    }
    assert_eq!(quote_windows_command_arg(r#"a"b\"#), r#""a\"b\\""#);
}
