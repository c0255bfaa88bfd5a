use bexo_services::ids::{format_uuid, is_uuid, normalize_uuid, to_hex_lower};
use bexo_services::prompt_transfer::{
    check_cancelled, file_too_large_error, sha256_hex, validate_absolute_path,
    prompt_task_result, strip_utf8_bom, validate_destination_path, validate_expected_hash, validate_source_path,
};

#[test]
fn sha256_of_known_inputs() {
    assert_eq!(
        sha256_hex(b""),
        "e3b0c44298fc1c149afbf4c8996fb92427ae41e4649b934ca495991b7852b855"
    );
    assert_eq!(
        sha256_hex(b"abc"),
        "ba7816bf8f01cfea414140de5dae2223b00361a396177a9cb410ff61f20015ad"
    );
}

#[test]
fn preview_hash_must_be_sixty_four_hex_digits() {
    let hash = sha256_hex(b"prompts");
    assert!(validate_expected_hash(&hash).is_ok());
    assert!(validate_expected_hash(&format!("  {}  ", hash.to_uppercase())).is_ok());
    assert_eq!(
        validate_expected_hash(&hash[..63]).unwrap_err().code,
        "PROMPT_TRANSFER_SELECTION_INVALID"
    );
    let mut bad = hash.clone();
    bad.replace_range(0..1, "g");
    assert!(validate_expected_hash(&bad).is_err());
}

#[test]
fn prompt_file_paths_must_be_absolute() {
    assert_eq!(validate_absolute_path("  C:\\prompts\\list.json ").unwrap(), "C:\\prompts\\list.json");
    let error = validate_absolute_path("prompts.json").unwrap_err();
    assert_eq!(error.code, "PROMPT_TRANSFER_PATH_INVALID");
    assert_eq!(
        error.details.as_ref().and_then(|d| d.get("path")).map(String::as_str),
        Some("prompts.json")
    );
    assert_eq!(validate_absolute_path("   ").unwrap_err().code, "PROMPT_TRANSFER_PATH_INVALID");
    assert!(validate_source_path("D:\\a.json").is_ok());
    assert!(validate_destination_path("D:\\exports\\a.json").is_ok());
    assert!(validate_destination_path("relative\\a.json").is_err());
}

#[test]
fn cancellation_and_size_errors() {
    assert!(check_cancelled(false).is_ok());
    assert_eq!(check_cancelled(true).unwrap_err().code, "PROMPT_TRANSFER_CANCELLED");
    let error = file_too_large_error(70_000_000);
    assert_eq!(error.code, "PROMPT_TRANSFER_TOO_LARGE");
    let details = error.details.as_ref().expect("details");
    assert_eq!(details.get("sizeBytes").map(String::as_str), Some("70000000"));
    assert_eq!(details.get("limitBytes").map(String::as_str), Some("67108864"));
}

#[test]
fn uuids_are_normalized_to_lower_case_hyphenated_text() {
    assert_eq!(
        normalize_uuid("550E8400-E29B-41D4-A716-446655440000").as_deref(),
        Some("550e8400-e29b-41d4-a716-446655440000")
    );
    assert_eq!(
        normalize_uuid("550e8400e29b41d4a716446655440000").as_deref(),
        Some("550e8400-e29b-41d4-a716-446655440000")
    );
    assert_eq!(normalize_uuid("not-a-uuid"), None);
    assert!(is_uuid("550e8400-e29b-41d4-a716-446655440000"));
    assert!(!is_uuid(""));
    let bytes = [0u8, 1, 2, 3, 4, 5, 6, 7, 8, 9, 10, 11, 12, 13, 14, 255];
    assert_eq!(format_uuid(&bytes), "00010203-0405-0607-0809-0a0b0c0d0eff");
    assert_eq!(to_hex_lower(&[0xab, 0x01]), "ab01");
}

#[test]
fn byte_order_mark_is_dropped_before_parsing() {
    assert_eq!(strip_utf8_bom(&[0xEF, 0xBB, 0xBF, b'{', b'}']), b"{}".to_vec());
    assert_eq!(strip_utf8_bom(b"{}"), b"{}".to_vec());
    assert_eq!(strip_utf8_bom(&[0xEF, 0xBB]), vec![0xEF, 0xBB]);
}

#[test]
fn prompt_tasks_prefer_late_results_over_timeouts() {
    assert_eq!(prompt_task_result("export", false, Ok(Ok(1))).unwrap(), 1);
    assert_eq!(prompt_task_result("export", true, Ok(Ok(2))).unwrap(), 2);
    let cancelled = check_cancelled(true).unwrap_err();
    let timeout: Result<u8, _> = prompt_task_result("export", true, Ok(Err(cancelled.clone())));
    let error = timeout.unwrap_err();
    assert_eq!(error.code, "PROMPT_TRANSFER_TIMEOUT");
    assert_eq!(error.message, "Prompts 本地文件操作超时");
    assert_eq!(error.retryable, Some(true));
    let in_time: Result<u8, _> = prompt_task_result("export", false, Ok(Err(cancelled)));
    assert_eq!(in_time.unwrap_err().code, "PROMPT_TRANSFER_CANCELLED");
    let lost: Result<u8, _> = prompt_task_result("export", true, Err("gone".to_string()));
    assert_eq!(lost.unwrap_err().message, "Prompts 本地文件操作超时且回收失败");
    let aborted: Result<u8, _> = prompt_task_result("export", false, Err("panic".to_string()));
    assert_eq!(aborted.unwrap_err().message, "Prompts 本地文件操作异常终止");
}
