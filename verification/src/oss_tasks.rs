//! The life of an OSS transfer task: how it is created, started, settled,
//! resumed, cancelled and confirmed, and which task a new transfer resumes.
//!
//! The caller loads and stores tasks and talks to OSS; these functions
//! decide what each step does to the task and what it answers.
use vstd::prelude::*;

use crate::error::{lemma_detail_keys_distinct, AppError, AppResult};
use crate::text::{chars_eq_str, chars_of, decimal, decimal_string};

verus! {

/// A transfer task as stored.
#[derive(Debug)]
pub struct OssTransferTaskRecord {
    pub id: String,
    pub account_id: String,
    pub target_id: String,
    pub operation: String,
    pub object_key: String,
    pub local_path: String,
    pub status: String,
    pub bytes_completed: u64,
    pub total_bytes: u64,
    pub upload_id: Option<String>,
    pub checkpoint_json: Option<String>,
    pub last_error_code: Option<String>,
    pub last_error_message: Option<String>,
    pub created_at: String,
    pub updated_at: String,
}

pub open spec fn sv(o: Option<String>) -> Option<Seq<char>> {
    match o {
        Some(s) => Some(s@),
        None => None,
    }
}

/// Whether two tasks agree on everything but the status, progress, upload,
/// checkpoint and last error.
pub open spec fn same_identity(a: OssTransferTaskRecord, b: OssTransferTaskRecord) -> bool {
    &&& a.id == b.id
    &&& a.account_id == b.account_id
    &&& a.target_id == b.target_id
    &&& a.operation == b.operation
    &&& a.object_key == b.object_key
    &&& a.local_path == b.local_path
    &&& a.total_bytes == b.total_bytes
    &&& a.created_at == b.created_at
    &&& a.updated_at == b.updated_at
}

/// Whether `b` is `a` with the given status and last error, all else kept.
pub open spec fn with_status(
    a: OssTransferTaskRecord,
    b: OssTransferTaskRecord,
    status: Seq<char>,
    code: Option<Seq<char>>,
    message: Option<Seq<char>>,
) -> bool {
    &&& same_identity(a, b)
    &&& b.status@ == status
    &&& b.bytes_completed == a.bytes_completed
    &&& b.upload_id == a.upload_id
    &&& b.checkpoint_json == a.checkpoint_json
    &&& sv(b.last_error_code) == code
    &&& sv(b.last_error_message) == message
}

fn set_status(task: &mut OssTransferTaskRecord, status: &str, code: Option<&str>, message: Option<&str>)
    ensures
        with_status(
            *old(task),
            *final(task),
            status@,
            match code {
                Some(c) => Some(c@),
                None => None,
            },
            match message {
                Some(m) => Some(m@),
                None => None,
            },
        ),
{
    task.status = status.to_owned();
    task.last_error_code = match code {
        Some(c) => Some(c.to_owned()),
        None => None,
    };
    task.last_error_message = match message {
        Some(m) => Some(m.to_owned()),
        None => None,
    };
}

/// A new task: queued, nothing done, no upload and no error, created and
/// updated at `timestamp`.
pub fn new_transfer_task(
    id: String,
    account_id: String,
    target_id: String,
    operation: &str,
    object_key: String,
    local_path: String,
    total_bytes: u64,
    checkpoint_json: Option<String>,
    timestamp: String,
) -> (t: OssTransferTaskRecord)
    ensures
        t.id == id,
        t.account_id == account_id,
        t.target_id == target_id,
        t.operation@ == operation@,
        t.object_key == object_key,
        t.local_path == local_path,
        t.status@ == "queued"@,
        t.bytes_completed == 0,
        t.total_bytes == total_bytes,
        t.upload_id is None,
        t.checkpoint_json == checkpoint_json,
        t.last_error_code is None,
        t.last_error_message is None,
        t.created_at == timestamp,
        t.updated_at == timestamp,
{
    OssTransferTaskRecord {
        id,
        account_id,
        target_id,
        operation: operation.to_owned(),
        object_key,
        local_path,
        status: "queued".to_owned(),
        bytes_completed: 0,
        total_bytes,
        upload_id: None,
        checkpoint_json,
        last_error_code: None,
        last_error_message: None,
        created_at: timestamp.clone(),
        updated_at: timestamp,
    }
}

proof fn lemma_final_statuses_distinct()
    ensures
        "completed"@ != "needs_confirmation"@,
        "cancelled"@ != "needs_confirmation"@,
{
    reveal_strlit("completed");
    reveal_strlit("cancelled");
    reveal_strlit("needs_confirmation");
    assert("completed"@.len() == 9);
    assert("cancelled"@.len() == 9);
    assert("needs_confirmation"@.len() == 18);
}

/// Whether a task was under way (running, queued or cancelling).
pub open spec fn was_under_way(status: Seq<char>) -> bool {
    status == "running"@ || status == "queued"@ || status == "cancelling"@
}

fn status_is(task: &OssTransferTaskRecord, status: &str) -> (r: bool)
    ensures
        r == (task.status@ == status@),
{
    chars_eq_str(chars_of(task.status.as_str()).as_slice(), status)
}

/// A task recovery paused is no longer under way, so recovering it again
/// leaves it alone.
pub proof fn law_recovery_settles(before: OssTransferTaskRecord, after: OssTransferTaskRecord)
    requires
        with_status(
            before,
            after,
            "paused"@,
            Some("OSS_TRANSFER_INTERRUPTED"@),
            Some("应用退出时传输尚未完成，可在传输队列中恢复。"@),
        ),
    ensures
        !was_under_way(after.status@),
{
    reveal_strlit("paused");
    reveal_strlit("running");
    reveal_strlit("queued");
    reveal_strlit("cancelling");
    assert("paused"@[0] != "running"@[0]);
    assert("paused"@[0] != "queued"@[0]);
    assert("paused"@.len() != "cancelling"@.len());
}

/// After a restart, a task that was under way is paused with an
/// interruption notice; other tasks are left alone. Says whether the task
/// changed.
pub fn recover_interrupted_task(task: &mut OssTransferTaskRecord) -> (changed: bool)
    ensures
        changed == was_under_way(old(task).status@),
        changed ==> with_status(
            *old(task),
            *final(task),
            "paused"@,
            Some("OSS_TRANSFER_INTERRUPTED"@),
            Some("应用退出时传输尚未完成，可在传输队列中恢复。"@),
        ),
        !changed ==> *final(task) == *old(task),
{
    if status_is(task, "running") || status_is(task, "queued") || status_is(task, "cancelling") {
        set_status(
            task,
            "paused",
            Some("OSS_TRANSFER_INTERRUPTED"),
            Some("应用退出时传输尚未完成，可在传输队列中恢复。"),
        );
        true
    } else {
        false
    }
}

/// Marks a task running, with no error.
pub fn mark_running(task: &mut OssTransferTaskRecord)
    ensures
        with_status(*old(task), *final(task), "running"@, None, None),
{
    set_status(task, "running", None, None);
}

/// The status a finished run leaves, with its error code and message.
pub open spec fn run_outcome(result: Result<(), AppError>) -> (Seq<char>, Option<Seq<char>>, Option<Seq<char>>) {
    match result {
        Ok(()) => ("completed"@, None, None),
        Err(e) => if e.code@ == "OSS_TRANSFER_CANCELLED"@ {
            ("cancelled"@, None, None)
        } else if e.code@ == "OSS_MULTIPART_CLEANUP_REQUIRED"@ {
            ("paused"@, Some(e.code@), Some(e.message@))
        } else if e.code@ == "OSS_TRANSFER_NEEDS_CONFIRMATION"@ {
            ("needs_confirmation"@, Some(e.code@), Some(e.message@))
        } else {
            ("failed"@, Some(e.code@), Some(e.message@))
        },
    }
}

/// Settles a task after its run: a completed task has all its bytes and
/// no upload or checkpoint left (its last error is kept); a cancelled one
/// has no error; a multipart cleanup failure pauses it, an unknown
/// completion waits for confirmation, and any other error fails it, each
/// with the error recorded.
pub fn settle_run(task: &mut OssTransferTaskRecord, result: AppResult<()>)
    ensures
        same_identity(*old(task), *final(task)),
        final(task).status@ == run_outcome(result).0,
        result is Ok ==> final(task).bytes_completed == old(task).total_bytes
            && final(task).upload_id is None && final(task).checkpoint_json is None
            && final(task).last_error_code == old(task).last_error_code
            && final(task).last_error_message == old(task).last_error_message,
        result is Err ==> final(task).bytes_completed == old(task).bytes_completed
            && final(task).upload_id == old(task).upload_id && final(task).checkpoint_json == old(
            task,
        ).checkpoint_json && sv(final(task).last_error_code) == run_outcome(result).1 && sv(
            final(task).last_error_message,
        ) == run_outcome(result).2,
{
    match result {
        Ok(()) => {
            task.status = "completed".to_owned();
            task.bytes_completed = task.total_bytes;
            task.upload_id = None;
            task.checkpoint_json = None;
        },
        Err(error) => {
            let code = chars_of(error.code.as_str());
            if chars_eq_str(code.as_slice(), "OSS_TRANSFER_CANCELLED") {
                set_status(task, "cancelled", None, None);
            } else if chars_eq_str(code.as_slice(), "OSS_MULTIPART_CLEANUP_REQUIRED") {
                set_status(task, "paused", Some(error.code.as_str()), Some(error.message.as_str()));
            } else if chars_eq_str(code.as_slice(), "OSS_TRANSFER_NEEDS_CONFIRMATION") {
                set_status(
                    task,
                    "needs_confirmation",
                    Some(error.code.as_str()),
                    Some(error.message.as_str()),
                );
            } else {
                set_status(task, "failed", Some(error.code.as_str()), Some(error.message.as_str()));
            }
        },
    }
}

/// The error of a cancelled multipart upload whose parts could not be
/// removed from OSS.
pub fn cancelled_upload_cleanup_error(reason: &str) -> (e: AppError)
    ensures
        e.code@ == "OSS_MULTIPART_CLEANUP_REQUIRED"@,
        e.message@ == "multipart upload was cancelled but OSS cleanup failed"@,
        e.detail_map() == map!["reason"@ => reason@],
{
    AppError::new("OSS_MULTIPART_CLEANUP_REQUIRED", "multipart upload was cancelled but OSS cleanup failed").with_detail(
        "reason",
        reason,
    )
}

// ---------------------------------------------------------------------------
// Resuming
// ---------------------------------------------------------------------------

/// What resuming a task does: nothing when it is already running here, or
/// queue it again.
#[derive(Debug, Clone, Copy, PartialEq, Eq, Structural)]
pub enum ResumeStep {
    AlreadyActive,
    Requeue,
}

pub open spec fn resumable_status(s: Seq<char>) -> bool {
    s == "paused"@ || s == "failed"@ || s == "queued"@ || s == "running"@
}

/// A run that ends in an error, other than a cancellation or an unknown
/// completion, leaves a task that resuming queues again (when it is not
/// running here): failed and paused tasks are resumable, and neither is
/// completed nor waiting for confirmation. So is a task that recovery
/// paused after a restart.
pub proof fn law_failed_and_paused_runs_can_resume(e: AppError)
    requires
        e.code@ != "OSS_TRANSFER_CANCELLED"@,
        e.code@ != "OSS_TRANSFER_NEEDS_CONFIRMATION"@,
    ensures
        resumable_status(run_outcome(Err(e)).0),
        run_outcome(Err(e)).0 != "completed"@,
        run_outcome(Err(e)).0 != "needs_confirmation"@,
        resumable_status("paused"@),
{
    reveal_strlit("failed");
    reveal_strlit("paused");
    reveal_strlit("completed");
    reveal_strlit("needs_confirmation");
    assert("failed"@.len() != "completed"@.len());
    assert("failed"@.len() != "needs_confirmation"@.len());
    assert("paused"@.len() != "completed"@.len());
    assert("paused"@.len() != "needs_confirmation"@.len());
}

/// Decides how to resume a task: a completed task or one waiting for
/// confirmation is refused; one running here is left as it is; a paused,
/// failed, queued or running one is queued again; any other is refused
/// with its status.
pub fn resume_step(task: &OssTransferTaskRecord, is_active: bool) -> (r: AppResult<ResumeStep>)
    ensures
        task.status@ == "completed"@ ==> (r matches Err(e) && e.code@
            == "OSS_TRANSFER_ALREADY_COMPLETED"@ && e.message@
            == "OSS transfer task is already completed"@ && e.detail_map() == Map::<
            Seq<char>,
            Seq<char>,
        >::empty()),
        task.status@ == "needs_confirmation"@ ==> (r matches Err(e) && e.code@
            == "OSS_TRANSFER_NEEDS_CONFIRMATION"@ && e.message@
            == "the previous completion result is unknown; confirm the remote object before resuming"@
            && e.detail_map() == Map::<Seq<char>, Seq<char>>::empty()),
        task.status@ != "completed"@ && task.status@ != "needs_confirmation"@ ==> (if is_active {
            r == Ok::<ResumeStep, AppError>(ResumeStep::AlreadyActive)
        } else if resumable_status(task.status@) {
            r == Ok::<ResumeStep, AppError>(ResumeStep::Requeue)
        } else {
            r matches Err(e) && e.code@ == "OSS_TRANSFER_NOT_RESUMABLE"@ && e.message@
                == "OSS transfer task cannot be resumed from its current state"@ && e.detail_map()
                == map!["status"@ => task.status@]
        }),
{
    proof {
        lemma_final_statuses_distinct();
    }
    if status_is(task, "completed") {
        return Err(AppError::new("OSS_TRANSFER_ALREADY_COMPLETED", "OSS transfer task is already completed"));
    }
    if status_is(task, "needs_confirmation") {
        return Err(
            AppError::new(
                "OSS_TRANSFER_NEEDS_CONFIRMATION",
                "the previous completion result is unknown; confirm the remote object before resuming",
            ),
        );
    }
    if is_active {
        return Ok(ResumeStep::AlreadyActive);
    }
    if status_is(task, "paused") || status_is(task, "failed") || status_is(task, "queued")
        || status_is(task, "running") {
        return Ok(ResumeStep::Requeue);
    }
    Err(
        AppError::new(
            "OSS_TRANSFER_NOT_RESUMABLE",
            "OSS transfer task cannot be resumed from its current state",
        ).with_detail("status", task.status.as_str()),
    )
}

/// Queues a task again, with no error.
pub fn mark_queued(task: &mut OssTransferTaskRecord)
    ensures
        with_status(*old(task), *final(task), "queued"@, None, None),
{
    set_status(task, "queued", None, None);
}

// ---------------------------------------------------------------------------
// Cancelling
// ---------------------------------------------------------------------------

/// What cancelling a task does.
#[derive(Debug, Clone, Copy, PartialEq, Eq, Structural)]
pub enum CancelStep {
    /// Already completed or cancelled: nothing to do.
    Unchanged,
    /// Running here: signal it and mark it cancelling.
    SignalRunning,
    /// Not running, with a multipart upload on OSS: abort the upload first.
    AbortUpload,
    /// Not running and nothing on OSS: mark it cancelled.
    MarkCancelled,
}

/// Decides how to cancel a task: a task waiting for confirmation must be
/// confirmed first.
pub fn cancel_step(task: &OssTransferTaskRecord, is_active: bool) -> (r: AppResult<CancelStep>)
    ensures
        (task.status@ == "completed"@ || task.status@ == "cancelled"@) ==> r == Ok::<
            CancelStep,
            AppError,
        >(CancelStep::Unchanged),
        task.status@ == "needs_confirmation"@ ==> (r matches Err(e) && e.code@
            == "OSS_TRANSFER_NEEDS_CONFIRMATION"@ && e.message@
            == "confirm the remote object before cancelling this transfer"@ && e.detail_map()
            == Map::<Seq<char>, Seq<char>>::empty()),
        task.status@ != "completed"@ && task.status@ != "cancelled"@ && task.status@
            != "needs_confirmation"@ ==> r == Ok::<CancelStep, AppError>(
            if is_active {
                CancelStep::SignalRunning
            } else if task.upload_id is Some {
                CancelStep::AbortUpload
            } else {
                CancelStep::MarkCancelled
            },
        ),
{
    proof {
        lemma_final_statuses_distinct();
    }
    if status_is(task, "completed") || status_is(task, "cancelled") {
        return Ok(CancelStep::Unchanged);
    }
    if status_is(task, "needs_confirmation") {
        return Err(
            AppError::new(
                "OSS_TRANSFER_NEEDS_CONFIRMATION",
                "confirm the remote object before cancelling this transfer",
            ),
        );
    }
    if is_active {
        Ok(CancelStep::SignalRunning)
    } else if task.upload_id.is_some() {
        Ok(CancelStep::AbortUpload)
    } else {
        Ok(CancelStep::MarkCancelled)
    }
}

/// Marks a running task as being cancelled.
pub fn mark_cancelling(task: &mut OssTransferTaskRecord)
    ensures
        same_identity(*old(task), *final(task)),
        final(task).status@ == "cancelling"@,
        final(task).bytes_completed == old(task).bytes_completed,
        final(task).upload_id == old(task).upload_id,
        final(task).checkpoint_json == old(task).checkpoint_json,
        final(task).last_error_code == old(task).last_error_code,
        final(task).last_error_message == old(task).last_error_message,
{
    task.status = "cancelling".to_owned();
}

/// After aborting the multipart upload: on success the upload and its
/// checkpoint are gone; on failure the task is paused awaiting cleanup and
/// the error says the upload remains on OSS.
pub fn after_upload_abort(task: &mut OssTransferTaskRecord, abort: Result<(), AppError>) -> (r: AppResult<()>)
    ensures
        same_identity(*old(task), *final(task)),
        abort is Ok ==> r is Ok && final(task).upload_id is None && final(task).checkpoint_json
            is None && final(task).status == old(task).status && final(task).bytes_completed == old(
            task,
        ).bytes_completed && final(task).last_error_code == old(task).last_error_code
            && final(task).last_error_message == old(task).last_error_message,
        abort matches Err(error) ==> with_status(
            *old(task),
            *final(task),
            "paused"@,
            Some("OSS_MULTIPART_CLEANUP_REQUIRED"@),
            Some(error.message@),
        ) && (r matches Err(e) && e.code == error.code && e.message == error.message && e.retryable
            == error.retryable && e.detail_map() == error.detail_map().insert(
            "cleanup"@,
            "multipart upload remains on OSS and requires cleanup"@,
        )),
{
    match abort {
        Ok(()) => {
            task.upload_id = None;
            task.checkpoint_json = None;
            Ok(())
        },
        Err(error) => {
            set_status(task, "paused", Some("OSS_MULTIPART_CLEANUP_REQUIRED"), Some(error.message.as_str()));
            Err(error.with_detail("cleanup", "multipart upload remains on OSS and requires cleanup"))
        },
    }
}

/// Marks a task cancelled.
pub fn mark_cancelled(task: &mut OssTransferTaskRecord)
    ensures
        with_status(
            *old(task),
            *final(task),
            "cancelled"@,
            Some("OSS_TRANSFER_CANCELLED"@),
            Some("传输已取消"@),
        ),
{
    set_status(task, "cancelled", Some("OSS_TRANSFER_CANCELLED"), Some("传输已取消"));
}

// ---------------------------------------------------------------------------
// Confirming a completion
// ---------------------------------------------------------------------------

/// Only an upload waiting for confirmation can be confirmed.
pub fn check_confirmation(task: &OssTransferTaskRecord) -> (r: AppResult<()>)
    ensures
        task.status@ != "needs_confirmation"@ ==> (r matches Err(e) && e.code@
            == "OSS_TRANSFER_CONFIRMATION_NOT_REQUIRED"@ && e.message@
            == "OSS transfer is not waiting for remote completion confirmation"@ && e.detail_map()
            == map!["status"@ => task.status@]),
        task.status@ == "needs_confirmation"@ && task.operation@ != "upload"@ ==> (r matches Err(e)
            && e.code@ == "OSS_TRANSFER_CONFIRMATION_UNSUPPORTED"@ && e.message@
            == "remote completion confirmation is only supported for uploads"@ && e.detail_map()
            == Map::<Seq<char>, Seq<char>>::empty()),
        task.status@ == "needs_confirmation"@ && task.operation@ == "upload"@ ==> r is Ok,
{
    if !status_is(task, "needs_confirmation") {
        return Err(
            AppError::new(
                "OSS_TRANSFER_CONFIRMATION_NOT_REQUIRED",
                "OSS transfer is not waiting for remote completion confirmation",
            ).with_detail("status", task.status.as_str()),
        );
    }
    if !chars_eq_str(chars_of(task.operation.as_str()).as_slice(), "upload") {
        return Err(
            AppError::new(
                "OSS_TRANSFER_CONFIRMATION_UNSUPPORTED",
                "remote completion confirmation is only supported for uploads",
            ),
        );
    }
    Ok(())
}

/// Whether a storage error says the object (or its bucket) is not there.
pub open spec fn not_found_code(code: Seq<char>) -> bool {
    code == "OSS_OBJECT_NOT_FOUND"@ || code == "OSS_OBJECT_OR_BUCKET_NOT_FOUND"@
}

/// Settles a confirmation from what looking up the remote object gave (its
/// size, if it has one): a missing object pauses the task; a remote object
/// of the transfer's size completes it; otherwise the task is unchanged
/// and an error says why.
pub fn settle_confirmation(task: &mut OssTransferTaskRecord, head: Result<Option<u64>, AppError>) -> (r:
    AppResult<()>)
    ensures
        same_identity(*old(task), *final(task)),
        match head {
            Err(error) => if not_found_code(error.code@) {
                r is Ok && with_status(
                    *old(task),
                    *final(task),
                    "paused"@,
                    Some("OSS_TRANSFER_REMOTE_NOT_FOUND"@),
                    Some("未发现已完成的远端对象，可恢复上传或取消并清理未完成分片。"@),
                )
            } else {
                r == Err::<(), AppError>(error) && *final(task) == *old(task)
            },
            Ok(None) => *final(task) == *old(task) && (r matches Err(e) && e.code@
                == "OSS_RESPONSE_INVALID"@ && e.message@
                == "confirmed OSS object metadata did not contain a size"@ && e.detail_map()
                == Map::<Seq<char>, Seq<char>>::empty()),
            Ok(Some(size)) => if size != old(task).total_bytes {
                *final(task) == *old(task) && (r matches Err(e) && e.code@
                    == "OSS_TRANSFER_REMOTE_MISMATCH"@ && e.message@
                    == "remote object size does not match the transfer"@ && e.detail_map() == map![
                    "expected"@ => decimal(old(task).total_bytes as nat),
                    "actual"@ => decimal(size as nat),
                ])
            } else {
                r is Ok && final(task).status@ == "completed"@ && final(task).bytes_completed == old(
                    task,
                ).total_bytes && final(task).upload_id is None && final(task).checkpoint_json
                    is None && final(task).last_error_code is None
                    && final(task).last_error_message is None
            },
        },
{
    match head {
        Err(error) => {
            let code = chars_of(error.code.as_str());
            if chars_eq_str(code.as_slice(), "OSS_OBJECT_NOT_FOUND") || chars_eq_str(
                code.as_slice(),
                "OSS_OBJECT_OR_BUCKET_NOT_FOUND",
            ) {
                set_status(
                    task,
                    "paused",
                    Some("OSS_TRANSFER_REMOTE_NOT_FOUND"),
                    Some("未发现已完成的远端对象，可恢复上传或取消并清理未完成分片。"),
                );
                Ok(())
            } else {
                Err(error)
            }
        },
        Ok(None) => Err(
            AppError::new("OSS_RESPONSE_INVALID", "confirmed OSS object metadata did not contain a size"),
        ),
        Ok(Some(size)) => {
            if size != task.total_bytes {
                let expected = decimal_string(task.total_bytes);
                let actual = decimal_string(size);
                return Err(
                    AppError::new(
                        "OSS_TRANSFER_REMOTE_MISMATCH",
                        "remote object size does not match the transfer",
                    ).with_detail("expected", expected.as_str()).with_detail("actual", actual.as_str()),
                );
            }
            task.status = "completed".to_owned();
            task.bytes_completed = task.total_bytes;
            task.upload_id = None;
            task.checkpoint_json = None;
            task.last_error_code = None;
            task.last_error_message = None;
            Ok(())
        },
    }
}

// ---------------------------------------------------------------------------
// Starting
// ---------------------------------------------------------------------------

/// A download may not replace an existing local file unless asked to.
pub fn check_download_destination(overwrite: bool, exists: bool, local_path: &str) -> (r: AppResult<()>)
    ensures
        r is Ok <==> (overwrite || !exists),
        r matches Err(e) ==> e.code@ == "OSS_DOWNLOAD_CONFLICT"@ && e.message@
            == "the local destination already exists"@ && e.detail_map() == map![
            "localPath"@ => local_path@,
        ],
{
    if !overwrite && exists {
        return Err(
            AppError::new("OSS_DOWNLOAD_CONFLICT", "the local destination already exists").with_detail(
                "localPath",
                local_path,
            ),
        );
    }
    Ok(())
}

/// The size a download starts from: the object's metadata must give one.
pub fn required_object_size(size: Option<u64>) -> (r: AppResult<u64>)
    ensures
        match size {
            Some(s) => r == Ok::<u64, AppError>(s),
            None => r matches Err(e) && e.code@ == "OSS_RESPONSE_INVALID"@ && e.message@
                == "OSS object metadata did not contain a size"@ && e.detail_map() == Map::<
                Seq<char>,
                Seq<char>,
            >::empty(),
        },
{
    match size {
        Some(s) => Ok(s),
        None => Err(AppError::new("OSS_RESPONSE_INVALID", "OSS object metadata did not contain a size")),
    }
}

/// Whether a stored task is the same transfer: same target, operation,
/// object key and local path.
pub open spec fn same_transfer(
    t: OssTransferTaskRecord,
    operation: Seq<char>,
    target_id: Seq<char>,
    object_key: Seq<char>,
    local_path: Seq<char>,
) -> bool {
    t.target_id@ == target_id && t.operation@ == operation && t.object_key@ == object_key
        && t.local_path@ == local_path
}

/// The first resumable task that is the same transfer, which a new request
/// for it resumes instead of starting another.
pub fn find_resumable_task(
    tasks: &Vec<OssTransferTaskRecord>,
    operation: &str,
    target_id: &str,
    object_key: &str,
    local_path: &str,
) -> (r: Option<usize>)
    ensures
        match r {
            Some(i) => i < tasks@.len() && same_transfer(
                tasks@[i as int],
                operation@,
                target_id@,
                object_key@,
                local_path@,
            ) && forall|k: int|
                0 <= k < i ==> !same_transfer(
                    #[trigger] tasks@[k],
                    operation@,
                    target_id@,
                    object_key@,
                    local_path@,
                ),
            None => forall|k: int|
                0 <= k < tasks@.len() ==> !same_transfer(
                    #[trigger] tasks@[k],
                    operation@,
                    target_id@,
                    object_key@,
                    local_path@,
                ),
        },
{
    let mut i: usize = 0;
    while i < tasks.len()
        invariant
            i <= tasks@.len(),
            forall|k: int|
                0 <= k < i ==> !same_transfer(
                    #[trigger] tasks@[k],
                    operation@,
                    target_id@,
                    object_key@,
                    local_path@,
                ),
        decreases tasks@.len() - i,
    {
        let t = &tasks[i];
        if chars_eq_str(chars_of(t.target_id.as_str()).as_slice(), target_id) && chars_eq_str(
            chars_of(t.operation.as_str()).as_slice(),
            operation,
        ) && chars_eq_str(chars_of(t.object_key.as_str()).as_slice(), object_key) && chars_eq_str(
            chars_of(t.local_path.as_str()).as_slice(),
            local_path,
        ) {
            return Some(i);
        }
        i = i + 1;
    }
    None
}

} // verus!
