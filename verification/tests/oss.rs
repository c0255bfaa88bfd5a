use bexo_services::error::AppError;
use bexo_services::oss::{
    calculate_part_size, check_cancel, content_type_for_path, ensure_key_within_target,
    ensure_prefix_within_target, is_unknown_remote_result, part_count, part_size_for,
    transfer_retry_delay, unknown_upload_cancellation_error, unknown_upload_result_error,
    validate_continuation_token, validate_local_path, validate_same_file,
    validate_upload_checkpoint, FileSnapshot, OssTargetRecord, UploadCheckpoint,
    UploadPartCheckpoint,
};

fn target(prefix: &str) -> OssTargetRecord {
    OssTargetRecord {
        id: "550e8400-e29b-41d4-a716-446655440000".into(),
        account_id: "550e8400-e29b-41d4-a716-446655440001".into(),
        display_name: "Assets".into(),
        bucket: "example-bucket".into(),
        region: "cn-hangzhou".into(),
        endpoint: "https://oss-cn-hangzhou.aliyuncs.com".into(),
        prefix: prefix.into(),
        is_default: true,
        sort_order: 0,
        created_at: "2026-07-12T00:00:00Z".into(),
        updated_at: "2026-07-12T00:00:00Z".into(),
    }
}

#[test]
fn target_prefix_limits_object_and_listing_scope() {
    let target = target("assets/");
    assert!(ensure_prefix_within_target(&target, "assets/images/").is_ok());
    assert!(ensure_key_within_target(&target, "assets/readme.txt").is_ok());
    assert!(ensure_prefix_within_target(&target, "private/").is_err());
    assert!(ensure_key_within_target(&target, "private.txt").is_err());
}

#[test]
fn multipart_part_size_stays_within_oss_part_limit() {
    assert_eq!(calculate_part_size(0), 4 * 1024 * 1024);
    assert_eq!(part_count(32 * 1024 * 1024, 16 * 1024 * 1024).unwrap(), 2);
    assert_eq!(
        part_size_for(17 * 1024 * 1024, 16 * 1024 * 1024, 2),
        1024 * 1024
    );
}

#[test]
fn local_transfer_paths_must_be_absolute() {
    assert!(validate_local_path("relative.txt".into(), "localPath").is_err());
    assert!(validate_local_path(r"D:\downloads\file.txt".into(), "localPath").is_ok());
}

#[test]
fn empty_prefix_reaches_everything_and_errors_name_the_target() {
    let open = target("");
    assert!(ensure_key_within_target(&open, "anything").is_ok());
    let error = ensure_key_within_target(&target("assets/"), "other/x")
        .err()
        .expect("outside");
    assert_eq!(error.code, "OSS_OBJECT_OUT_OF_SCOPE");
    assert_eq!(
        error.details.as_ref().and_then(|d| d.get("targetId")).map(String::as_str),
        Some("550e8400-e29b-41d4-a716-446655440000")
    );
    let error = ensure_prefix_within_target(&target("assets/"), "asset")
        .err()
        .expect("outside");
    assert_eq!(error.code, "OSS_PREFIX_OUT_OF_SCOPE");
}

#[test]
fn part_size_grows_past_ten_thousand_default_parts() {
    let total = 10_000 * 4 * 1024 * 1024 + 1;
    let size = calculate_part_size(total);
    assert_eq!(size, 4 * 1024 * 1024 + 1);
    assert_eq!(part_count(total, size).unwrap(), 10_000);
    assert_eq!(calculate_part_size(1), 4 * 1024 * 1024);
    assert_eq!(part_count(0, 16).unwrap(), 0);
    assert_eq!(part_count(10, 0).err().expect("zero part size").code, "OSS_MULTIPART_INCOMPLETE");
    assert_eq!(part_count(10_001, 1).err().expect("too many").code, "OSS_MULTIPART_INCOMPLETE");
    assert_eq!(part_size_for(32, 16, 1), 16);
}

#[test]
fn continuation_tokens_are_bounded_and_printable() {
    assert_eq!(validate_continuation_token(None).unwrap(), None);
    assert_eq!(
        validate_continuation_token(Some("abc".into())).unwrap(),
        Some("abc".to_string())
    );
    for bad in ["".to_string(), "a\nb".to_string(), "x".repeat(4097)] {
        let error = validate_continuation_token(Some(bad)).err().expect("invalid token");
        assert_eq!(error.code, "VALIDATION_ERROR");
        assert_eq!(
            error.details.as_ref().and_then(|d| d.get("field")).map(String::as_str),
            Some("continuationToken")
        );
    }
    assert!(validate_continuation_token(Some("x".repeat(4096))).is_ok());
}

#[test]
fn local_paths_are_trimmed_and_checked() {
    assert_eq!(
        validate_local_path("  C:/data/a.bin ".into(), "localPath").unwrap(),
        "C:/data/a.bin"
    );
    assert!(validate_local_path(r"\\server\share\a.bin".into(), "localPath").is_ok());
    let error = validate_local_path("C:\\a\u{0}b".into(), "localPath").err().expect("nul");
    assert_eq!(error.message, "localPath is invalid");
    let error = validate_local_path("docs/a.txt".into(), "localPath").err().expect("relative");
    assert_eq!(error.message, "localPath must be absolute");
}

fn checkpoint(parts: Vec<UploadPartCheckpoint>) -> UploadCheckpoint {
    UploadCheckpoint {
        kind: "upload".into(),
        file_size: 40,
        modified_millis: 7,
        part_size: 16,
        overwrite: false,
        parts,
    }
}

fn part(part_number: u32, size: u64) -> UploadPartCheckpoint {
    UploadPartCheckpoint { part_number, size, etag: "e".into() }
}

#[test]
fn upload_checkpoints_must_match_the_file_and_its_parts() {
    let snapshot = FileSnapshot { size: 40, modified_millis: 7 };
    assert!(validate_upload_checkpoint(&checkpoint(vec![part(1, 16), part(3, 8)]), &snapshot).is_ok());
    let changed = FileSnapshot { size: 41, modified_millis: 7 };
    assert_eq!(
        validate_upload_checkpoint(&checkpoint(vec![]), &changed).err().unwrap().code,
        "OSS_TRANSFER_SOURCE_CHANGED"
    );
    for parts in [
        vec![part(0, 16)],
        vec![part(4, 16)],
        vec![part(1, 16), part(1, 16)],
        vec![part(3, 16)],
        vec![UploadPartCheckpoint { part_number: 2, size: 16, etag: String::new() }],
    ] {
        assert_eq!(
            validate_upload_checkpoint(&checkpoint(parts), &snapshot).err().unwrap().code,
            "OSS_TRANSFER_CHECKPOINT_INVALID"
        );
    }
    assert!(validate_same_file(snapshot, snapshot).is_ok());
    assert_eq!(
        validate_same_file(snapshot, changed).err().unwrap().code,
        "OSS_TRANSFER_SOURCE_CHANGED"
    );
}

#[test]
fn retry_delays_double_up_to_four_seconds() {
    let delays: Vec<u64> = (0..7).map(transfer_retry_delay).collect();
    assert_eq!(delays, vec![250, 500, 1000, 2000, 4000, 4000, 4000]);
}

#[test]
fn unknown_remote_results_need_confirmation() {
    for code in ["OSS_NETWORK_TIMEOUT", "OSS_NETWORK_ERROR", "OSS_REMOTE_RETRYABLE", "OSS_REMOTE_500"] {
        assert!(is_unknown_remote_result(&AppError::new(code, "x")));
    }
    assert!(!is_unknown_remote_result(&AppError::new("OSS_ACCESS_DENIED", "x")));
    let error = unknown_upload_result_error(AppError::new("OSS_NETWORK_ERROR", "x"));
    assert_eq!(error.code, "OSS_TRANSFER_NEEDS_CONFIRMATION");
    assert_eq!(
        error.details.as_ref().and_then(|d| d.get("cause")).map(String::as_str),
        Some("OSS_NETWORK_ERROR")
    );
    let cancelled = unknown_upload_cancellation_error();
    assert_eq!(
        cancelled.details.as_ref().and_then(|d| d.get("cause")).map(String::as_str),
        Some("OSS_TRANSFER_CANCELLED")
    );
    assert!(check_cancel(false).is_ok());
    assert_eq!(check_cancel(true).err().unwrap().code, "OSS_TRANSFER_CANCELLED");
}

#[test]
fn content_types_follow_the_extension() {
    assert_eq!(content_type_for_path(r"C:\a\Report.PDF").as_deref(), Some("application/pdf"));
    assert_eq!(content_type_for_path("C:/a/b.tar.zip").as_deref(), Some("application/zip"));
    assert_eq!(content_type_for_path(r"C:\a\.hidden"), None);
    assert_eq!(content_type_for_path(r"C:\a\noext"), None);
    assert_eq!(content_type_for_path(r"C:\a\x.bin"), None);
    assert_eq!(content_type_for_path(r"C:\a\photo.JPEG").as_deref(), Some("image/jpeg"));
}
