use bexo_services::error::AppError;
use bexo_services::oss::{calculate_part_size, part_count, part_size_for, DownloadCheckpoint, UploadPartCheckpoint};
use bexo_services::oss_transfer::{
    check_download_checkpoint, classify_upload_failure, next_download_action, next_download_range,
    next_missing_part, next_range_step, next_upload_action, range_budget_exhausted_error,
    record_uploaded_part, stream_failure_error, temp_file_needs_reset, upload_uses_single_request,
    DownloadAction, RangeAttempt, RangeStep, UploadAction,
};

fn part(n: u32, size: u64) -> UploadPartCheckpoint {
    UploadPartCheckpoint { part_number: n, size, etag: format!("etag-{}", n) }
}

#[test]
fn small_new_upload_uses_one_request() {
    assert!(upload_uses_single_request(10, 16, false));
    assert!(upload_uses_single_request(16, 16, false));
    assert!(!upload_uses_single_request(17, 16, false));
    assert!(!upload_uses_single_request(10, 16, true));
}

#[test]
fn cancelled_or_network_failures_need_confirmation() {
    let cancelled = classify_upload_failure(AppError::new("OSS_TRANSFER_CANCELLED", "stop"));
    assert_eq!(cancelled.code, "OSS_TRANSFER_NEEDS_CONFIRMATION");
    assert_eq!(
        cancelled.details.as_ref().and_then(|d| d.get("cause")).map(String::as_str),
        Some("OSS_TRANSFER_CANCELLED")
    );
    let timeout = classify_upload_failure(AppError::new("OSS_NETWORK_TIMEOUT", "slow"));
    assert_eq!(timeout.code, "OSS_TRANSFER_NEEDS_CONFIRMATION");
    let remote = classify_upload_failure(AppError::new("OSS_REMOTE_ACCESS_DENIED", "no"));
    assert_eq!(remote.code, "OSS_TRANSFER_NEEDS_CONFIRMATION");
    let other = classify_upload_failure(AppError::new("OSS_TRANSFER_SOURCE_CHANGED", "changed"));
    assert_eq!(other.code, "OSS_TRANSFER_SOURCE_CHANGED");
    assert_eq!(other.message, "changed");
}

#[test]
fn next_missing_part_skips_recorded_parts() {
    let parts = vec![part(1, 4), part(2, 4), part(4, 4)];
    assert_eq!(next_missing_part(&parts, 5, 1), Some(3));
    assert_eq!(next_missing_part(&parts, 5, 4), Some(5));
    assert_eq!(next_missing_part(&parts, 4, 4), None);
    assert_eq!(next_missing_part(&parts, 2, 1), None);
    assert_eq!(next_missing_part(&Vec::new(), 0, 1), None);
}

#[test]
fn recorded_parts_stay_sorted_and_sum_their_sizes() {
    let (parts, total) = record_uploaded_part(vec![part(1, 4), part(3, 4)], part(2, 3));
    let numbers: Vec<u32> = parts.iter().map(|p| p.part_number).collect();
    assert_eq!(numbers, vec![1, 2, 3]);
    assert_eq!(total, 11);
    let (parts, total) = record_uploaded_part(Vec::new(), part(7, 9));
    assert_eq!(parts.len(), 1);
    assert_eq!(parts[0].etag, "etag-7");
    assert_eq!(total, 9);
}

#[test]
fn download_checkpoint_must_match_the_remote_object() {
    let checkpoint = DownloadCheckpoint {
        kind: "download".to_string(),
        object_size: 100,
        etag: Some("e1".to_string()),
        bytes_completed: 40,
        overwrite: false,
    };
    assert_eq!(check_download_checkpoint(&checkpoint, Some(100), &Some("e1".to_string())).unwrap(), 100);
    assert_eq!(
        check_download_checkpoint(&checkpoint, None, &Some("e1".to_string())).unwrap_err().code,
        "OSS_RESPONSE_INVALID"
    );
    assert_eq!(
        check_download_checkpoint(&checkpoint, Some(100), &Some("e2".to_string())).unwrap_err().code,
        "OSS_TRANSFER_SOURCE_CHANGED"
    );
    assert_eq!(
        check_download_checkpoint(&checkpoint, Some(99), &Some("e1".to_string())).unwrap_err().code,
        "OSS_TRANSFER_SOURCE_CHANGED"
    );
    let ahead = DownloadCheckpoint { bytes_completed: 120, ..checkpoint };
    assert_eq!(
        check_download_checkpoint(&ahead, Some(100), &Some("e1".to_string())).unwrap_err().code,
        "OSS_TRANSFER_CHECKPOINT_INVALID"
    );
}

#[test]
fn temp_file_is_reset_unless_it_matches_the_checkpoint() {
    assert_eq!(temp_file_needs_reset(Some(40), 40).unwrap(), false);
    assert_eq!(temp_file_needs_reset(Some(50), 40).unwrap(), true);
    assert_eq!(temp_file_needs_reset(None, 0).unwrap(), true);
    assert_eq!(temp_file_needs_reset(None, 40).unwrap_err().code, "OSS_TRANSFER_CHECKPOINT_INVALID");
}

#[test]
fn download_ranges_are_at_most_one_part_long() {
    assert_eq!(next_download_range(0, 10), (0, 9, 10));
    assert_eq!(next_download_range(0, 10_000_000), (0, 4_194_303, 4_194_304));
    assert_eq!(next_download_range(8_388_608, 10_000_000), (8_388_608, 9_999_999, 1_611_392));
}

#[test]
fn range_attempts_retry_with_growing_delay_until_the_budget_runs_out() {
    let retryable = AppError::new("OSS_NETWORK_ERROR", "reset").retryable(true);
    match next_range_step(0, 3, 10, RangeAttempt::RequestFailed(retryable.clone())) {
        RangeStep::Retry(delay, e) => {
            assert_eq!(delay, 250);
            assert_eq!(e.code, "OSS_NETWORK_ERROR");
        }
        _ => panic!("expected a retry"),
    }
    match next_range_step(2, 3, 10, RangeAttempt::RequestFailed(retryable)) {
        RangeStep::Fail(e) => assert_eq!(e.code, "OSS_NETWORK_ERROR"),
        _ => panic!("expected a failure"),
    }
    let permanent = AppError::new("OSS_REMOTE_ACCESS_DENIED", "denied");
    assert!(matches!(next_range_step(0, 3, 10, RangeAttempt::RequestFailed(permanent)), RangeStep::Fail(_)));
    match next_range_step(1, 3, 10, RangeAttempt::Received(7)) {
        RangeStep::Retry(delay, e) => {
            assert_eq!(delay, 500);
            assert_eq!(e.code, "OSS_RESPONSE_INVALID");
            assert_eq!(e.retryable, Some(true));
        }
        _ => panic!("expected a retry"),
    }
    assert!(matches!(next_range_step(1, 3, 10, RangeAttempt::Received(10)), RangeStep::Done));
    match next_range_step(0, 3, 10, RangeAttempt::LengthMismatch(12)) {
        RangeStep::Fail(e) => {
            assert_eq!(e.code, "OSS_RESPONSE_INVALID");
            let details = e.details.as_ref().expect("details");
            assert_eq!(details.get("expected").map(String::as_str), Some("10"));
            assert_eq!(details.get("actual").map(String::as_str), Some("12"));
        }
        _ => panic!("expected a failure"),
    }
    assert!(matches!(next_range_step(0, 3, 10, RangeAttempt::Overflowed), RangeStep::Fail(_)));
    let stream = stream_failure_error(true, "stalled");
    match next_range_step(3, 5, 10, RangeAttempt::StreamFailed(stream)) {
        RangeStep::Retry(delay, _) => assert_eq!(delay, 2000),
        _ => panic!("expected a retry"),
    }
    assert!(!range_budget_exhausted_error().code.is_empty());
}

#[test]
fn parts_cover_the_whole_file() {
    for total in [1u64, 4_194_303, 4_194_304, 4_194_305, 10_000_000, 50_000_000_000] {
        let size = calculate_part_size(total);
        let count = part_count(total, size).expect("count");
        let mut sum = 0u64;
        for n in 1..=count {
            let len = part_size_for(total, size, n);
            assert!(len > 0 && len <= size);
            sum += len;
        }
        assert_eq!(sum, total);
    }
    assert_eq!(part_count(0, calculate_part_size(0)).unwrap(), 0);
    assert_eq!(part_count(10, 0).unwrap_err().code, "OSS_MULTIPART_INCOMPLETE");
}

#[test]
fn upload_run_starts_sends_missing_parts_in_order_then_completes() {
    let mut parts = vec![part(2, 4)];
    assert!(matches!(next_upload_action(3, 4, false, &parts, 1), Ok(UploadAction::PutObject)));
    assert!(matches!(next_upload_action(10, 4, false, &parts, 1), Ok(UploadAction::InitiateMultipart)));
    let mut from = 1;
    let mut sent = Vec::new();
    loop {
        match next_upload_action(10, 4, true, &parts, from) {
            Ok(UploadAction::UploadPart { number, offset, size }) => {
                sent.push((number, offset, size));
                let (next, _) = record_uploaded_part(parts, part(number as u32, size));
                parts = next;
                from = number + 1;
            }
            Ok(UploadAction::Complete) => break,
            _ => panic!("unexpected upload step"),
        }
    }
    assert_eq!(sent, vec![(1, 0, 4), (3, 8, 2)]);
    let numbers: Vec<u32> = parts.iter().map(|p| p.part_number).collect();
    assert_eq!(numbers, vec![1, 2, 3]);
}

#[test]
fn upload_run_refuses_a_part_size_that_cannot_cut_the_file() {
    let parts = Vec::new();
    match next_upload_action(10, 0, true, &parts, 1) {
        Err(e) => assert_eq!(e.code, "OSS_MULTIPART_INCOMPLETE"),
        _ => panic!("expected an error"),
    }
    match next_upload_action(100_001, 10, true, &parts, 1) {
        Err(e) => assert_eq!(e.code, "OSS_MULTIPART_INCOMPLETE"),
        _ => panic!("expected an error"),
    }
}

#[test]
fn download_run_fetches_ranges_until_the_object_is_complete() {
    let size: u64 = 10_000_000;
    let mut done: u64 = 0;
    let mut ranges = Vec::new();
    loop {
        match next_download_action(done, size) {
            DownloadAction::FetchRange { start, end, len } => {
                ranges.push((start, end, len));
                done += len;
            }
            DownloadAction::Finalize => break,
        }
    }
    assert_eq!(
        ranges,
        vec![(0, 4_194_303, 4_194_304), (4_194_304, 8_388_607, 4_194_304), (8_388_608, 9_999_999, 1_611_392)]
    );
    assert!(matches!(next_download_action(0, 0), DownloadAction::Finalize));
}
