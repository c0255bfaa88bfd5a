use bexo_services::error::{AppError, TaskOutcome};
use bexo_services::oss_ops::{
    attach_credential_rollback, check_delete_count, check_distinct_copy_keys,
    credential_rollback, delete_failure_error, distinct_keys, ensure_account_enabled,
    folder_creation_error, folder_object_key, probe_result, resolve_access_key_secret,
    credential_operation_result, CredentialRollback,
};
use bexo_services::oss_tasks::{
    after_upload_abort, cancel_step, check_confirmation, check_download_destination,
    find_resumable_task, mark_cancelled, mark_cancelling, mark_queued, mark_running,
    new_transfer_task, recover_interrupted_task, required_object_size, resume_step,
    settle_confirmation, settle_run, CancelStep, OssTransferTaskRecord, ResumeStep,
};

fn detail<'a>(error: &'a AppError, key: &str) -> Option<&'a str> {
    error
        .details
        .as_ref()
        .and_then(|details| details.get(key))
        .map(|value| value.as_str())
}

fn task(status: &str) -> OssTransferTaskRecord {
    let mut t = new_transfer_task(
        "t1".to_string(),
        "a1".to_string(),
        "g1".to_string(),
        "upload",
        "assets/a.bin".to_string(),
        "C:\\data\\a.bin".to_string(),
        100,
        Some("{}".to_string()),
        "2026-01-01T00:00:00+00:00".to_string(),
    );
    t.status = status.to_string();
    t
}

#[test]
fn new_tasks_start_queued() {
    let t = task("queued");
    assert_eq!(t.status, "queued");
    assert_eq!(t.bytes_completed, 0);
    assert_eq!(t.created_at, t.updated_at);
    assert!(t.upload_id.is_none());
}

#[test]
fn interrupted_tasks_are_paused_after_restart() {
    let mut running = task("running");
    assert!(recover_interrupted_task(&mut running));
    assert_eq!(running.status, "paused");
    assert_eq!(running.last_error_code.as_deref(), Some("OSS_TRANSFER_INTERRUPTED"));
    assert!(!recover_interrupted_task(&mut running));
    let mut failed = task("failed");
    assert!(!recover_interrupted_task(&mut failed));
    assert_eq!(failed.status, "failed");
}

#[test]
fn runs_settle_by_error_code() {
    let mut t = task("queued");
    mark_running(&mut t);
    assert_eq!(t.status, "running");
    settle_run(&mut t, Ok(()));
    assert_eq!(t.status, "completed");
    assert_eq!(t.bytes_completed, 100);
    assert!(t.checkpoint_json.is_none());

    for (code, status) in [
        ("OSS_TRANSFER_CANCELLED", "cancelled"),
        ("OSS_MULTIPART_CLEANUP_REQUIRED", "paused"),
        ("OSS_TRANSFER_NEEDS_CONFIRMATION", "needs_confirmation"),
        ("OSS_NETWORK_ERROR", "failed"),
    ] {
        let mut t = task("running");
        settle_run(&mut t, Err(AppError::new(code, "boom")));
        assert_eq!(t.status, status);
        if status == "cancelled" {
            assert_eq!(t.last_error_code, None);
        } else {
            assert_eq!(t.last_error_code.as_deref(), Some(code));
            assert_eq!(t.last_error_message.as_deref(), Some("boom"));
        }
    }
}

#[test]
fn resuming_depends_on_status_and_activity() {
    assert_eq!(
        resume_step(&task("completed"), false).unwrap_err().code,
        "OSS_TRANSFER_ALREADY_COMPLETED"
    );
    assert_eq!(
        resume_step(&task("needs_confirmation"), true).unwrap_err().code,
        "OSS_TRANSFER_NEEDS_CONFIRMATION"
    );
    assert_eq!(resume_step(&task("cancelled"), true).unwrap(), ResumeStep::AlreadyActive);
    assert_eq!(resume_step(&task("paused"), false).unwrap(), ResumeStep::Requeue);
    let error = resume_step(&task("cancelled"), false).unwrap_err();
    assert_eq!(error.code, "OSS_TRANSFER_NOT_RESUMABLE");
    assert_eq!(detail(&error, "status"), Some("cancelled"));
    let mut t = task("failed");
    t.last_error_code = Some("X".to_string());
    mark_queued(&mut t);
    assert_eq!(t.status, "queued");
    assert_eq!(t.last_error_code, None);
}

#[test]
fn cancelling_signals_aborts_or_marks() {
    assert_eq!(cancel_step(&task("completed"), true).unwrap(), CancelStep::Unchanged);
    assert!(cancel_step(&task("needs_confirmation"), false).is_err());
    assert_eq!(cancel_step(&task("running"), true).unwrap(), CancelStep::SignalRunning);
    let mut with_upload = task("paused");
    with_upload.upload_id = Some("u1".to_string());
    assert_eq!(cancel_step(&with_upload, false).unwrap(), CancelStep::AbortUpload);
    assert_eq!(cancel_step(&task("paused"), false).unwrap(), CancelStep::MarkCancelled);

    let mut t = with_upload;
    let error = after_upload_abort(&mut t, Err(AppError::new("OSS_NETWORK_ERROR", "offline"))).unwrap_err();
    assert_eq!(t.status, "paused");
    assert_eq!(t.last_error_code.as_deref(), Some("OSS_MULTIPART_CLEANUP_REQUIRED"));
    assert_eq!(t.last_error_message.as_deref(), Some("offline"));
    assert_eq!(detail(&error, "cleanup"), Some("multipart upload remains on OSS and requires cleanup"));
    assert!(after_upload_abort(&mut t, Ok(())).is_ok());
    assert!(t.upload_id.is_none());
    mark_cancelled(&mut t);
    assert_eq!(t.status, "cancelled");
    assert_eq!(t.last_error_message.as_deref(), Some("传输已取消"));
    let mut r = task("running");
    mark_cancelling(&mut r);
    assert_eq!(r.status, "cancelling");
}

#[test]
fn confirmations_complete_pause_or_refuse() {
    assert_eq!(
        check_confirmation(&task("paused")).unwrap_err().code,
        "OSS_TRANSFER_CONFIRMATION_NOT_REQUIRED"
    );
    let mut download = task("needs_confirmation");
    download.operation = "download".to_string();
    assert_eq!(
        check_confirmation(&download).unwrap_err().code,
        "OSS_TRANSFER_CONFIRMATION_UNSUPPORTED"
    );
    assert!(check_confirmation(&task("needs_confirmation")).is_ok());

    let mut t = task("needs_confirmation");
    assert!(settle_confirmation(&mut t, Err(AppError::new("OSS_OBJECT_NOT_FOUND", "missing"))).is_ok());
    assert_eq!(t.status, "paused");
    assert_eq!(t.last_error_code.as_deref(), Some("OSS_TRANSFER_REMOTE_NOT_FOUND"));

    let mut t = task("needs_confirmation");
    let error = settle_confirmation(&mut t, Ok(Some(99))).unwrap_err();
    assert_eq!(error.code, "OSS_TRANSFER_REMOTE_MISMATCH");
    assert_eq!(detail(&error, "expected"), Some("100"));
    assert_eq!(detail(&error, "actual"), Some("99"));
    assert_eq!(t.status, "needs_confirmation");
    assert_eq!(settle_confirmation(&mut t, Ok(None)).unwrap_err().code, "OSS_RESPONSE_INVALID");
    assert_eq!(
        settle_confirmation(&mut t, Err(AppError::new("OSS_NETWORK_ERROR", "x"))).unwrap_err().code,
        "OSS_NETWORK_ERROR"
    );
    assert!(settle_confirmation(&mut t, Ok(Some(100))).is_ok());
    assert_eq!(t.status, "completed");
    assert_eq!(t.bytes_completed, 100);
    assert!(t.upload_id.is_none() && t.checkpoint_json.is_none());
}

#[test]
fn starting_transfers_checks_destination_and_existing_tasks() {
    let error = check_download_destination(false, true, "C:\\a.bin").unwrap_err();
    assert_eq!(error.code, "OSS_DOWNLOAD_CONFLICT");
    assert_eq!(detail(&error, "localPath"), Some("C:\\a.bin"));
    assert!(check_download_destination(true, true, "C:\\a.bin").is_ok());
    assert_eq!(required_object_size(Some(7)).unwrap(), 7);
    assert!(required_object_size(None).is_err());

    let mut other = task("paused");
    other.object_key = "assets/b.bin".to_string();
    let tasks = vec![other, task("paused"), task("failed")];
    assert_eq!(find_resumable_task(&tasks, "upload", "g1", "assets/a.bin", "C:\\data\\a.bin"), Some(1));
    assert_eq!(find_resumable_task(&tasks, "download", "g1", "assets/a.bin", "C:\\data\\a.bin"), None);
}

#[test]
fn oss_service_decisions() {
    assert!(check_delete_count(0).is_err());
    assert!(check_delete_count(1).is_ok());
    assert!(check_delete_count(100).is_ok());
    let error = check_delete_count(101).unwrap_err();
    assert_eq!(detail(&error, "field"), Some("objectKeys"));

    let keys = vec!["a".to_string(), "b".to_string(), "a".to_string(), "c".to_string(), "b".to_string()];
    assert_eq!(distinct_keys(&keys), vec!["a".to_string(), "b".to_string(), "c".to_string()]);

    let error = delete_failure_error(AppError::new("OSS_DELETE_FAILED", "denied"), 2, "c");
    assert_eq!(detail(&error, "deletedCount"), Some("2"));
    assert_eq!(detail(&error, "failedObjectKey"), Some("c"));

    assert_eq!(folder_object_key("assets/", "docs"), "assets/docs/");
    let conflict = folder_creation_error(AppError::new("OSS_UPLOAD_CONFLICT", "exists"), "g1", "assets/docs/");
    assert_eq!(conflict.code, "OSS_FOLDER_ALREADY_EXISTS");
    assert_eq!(detail(&conflict, "objectKey"), Some("assets/docs/"));
    let other = folder_creation_error(AppError::new("OSS_ACCESS_DENIED", "no"), "g1", "k");
    assert_eq!(other.code, "OSS_ACCESS_DENIED");

    assert!(check_distinct_copy_keys("a", "a").is_err());
    assert!(check_distinct_copy_keys("a", "b").is_ok());
    assert_eq!(ensure_account_enabled(true, "a1").unwrap_err().code, "OSS_ACCOUNT_DISABLED");

    assert_eq!(resolve_access_key_secret("new".to_string(), Some("old".to_string())).unwrap(), "new");
    assert_eq!(resolve_access_key_secret(String::new(), Some("old".to_string())).unwrap(), "old");
    let missing = resolve_access_key_secret(String::new(), None).unwrap_err();
    assert_eq!(detail(&missing, "field"), Some("accessKeySecret"));

    assert_eq!(credential_rollback(true), CredentialRollback::RestorePrevious);
    assert_eq!(credential_rollback(false), CredentialRollback::RemoveNew);
    let error = attach_credential_rollback(AppError::new("DB", "locked"), false);
    assert_eq!(
        detail(&error, "credentialRollback"),
        Some("failed; secure credential state requires repair")
    );
    assert!(attach_credential_rollback(AppError::new("DB", "locked"), true).details.is_none());

    let probe = probe_result("g1".to_string(), "bucket".to_string(), "now".to_string(), Ok(())).unwrap();
    assert!(probe.reachable && probe.can_list_objects);
    assert_eq!(probe.message, "OSS target is reachable");
    let failed = probe_result("g1".to_string(), "bucket".to_string(), "now".to_string(), Err(AppError::new("OSS_AUTH", "bad key")))
        .unwrap_err();
    assert_eq!(detail(&failed, "targetId"), Some("g1"));
}

#[test]
fn credential_store_operations_report_failures_and_timeouts() {
    let ok = credential_operation_result("read_oss_credential", TaskOutcome::Finished(Ok(7)));
    assert_eq!(ok.unwrap(), 7);
    let aborted: Result<u8, AppError> =
        credential_operation_result("write_oss_credential", TaskOutcome::Aborted("panicked".to_string()));
    let error = aborted.unwrap_err();
    assert_eq!(error.code, "OSS_CREDENTIAL_STORE_UNAVAILABLE");
    let details = error.details.as_ref().expect("details");
    assert_eq!(details.get("operation").map(String::as_str), Some("write_oss_credential"));
    assert_eq!(details.get("reason").map(String::as_str), Some("panicked"));
    let timed_out: Result<u8, AppError> =
        credential_operation_result("delete_oss_credential", TaskOutcome::TimedOut);
    let error = timed_out.unwrap_err();
    assert_eq!(error.code, "OSS_CREDENTIAL_STORE_TIMEOUT");
    assert_eq!(error.retryable, Some(true));
}
