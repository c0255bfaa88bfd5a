//! The decisions of resumable object transfers: which upload strategy to
//! use, which part comes next, how the checkpoint grows, how a download
//! resumes, and when a failed range request is retried.
//!
//! The caller performs the file and network operations and reports their
//! outcomes; these functions say what happens next.
use vstd::prelude::*;

use crate::error::{lemma_detail_keys_distinct, AppError, AppResult};
use crate::oss::{
    law_parts_start_inside_file, part_count, part_len, part_size_for, parts_needed,
    retry_delay_ms, transfer_retry_delay, unknown_remote_code, unknown_upload_cancellation_error,
    unknown_upload_result_error, DownloadCheckpoint, UploadPartCheckpoint, DEFAULT_PART_SIZE,
};
use crate::text::{chars_eq_str, chars_of, decimal, decimal_string};

verus! {

// ---------------------------------------------------------------------------
// Uploads
// ---------------------------------------------------------------------------

/// A file that fits in one part, with no multipart upload started yet, is
/// sent with a single request.
pub fn upload_uses_single_request(file_size: u64, part_size: u64, has_upload_id: bool) -> (r: bool)
    ensures
        r == (file_size <= part_size && !has_upload_id),
{
    file_size <= part_size && !has_upload_id
}

/// How a failed upload or completion request is reported. A cancellation,
/// or a network or remote failure, leaves the remote outcome unknown and
/// asks for confirmation; any other error is passed on.
pub fn classify_upload_failure(error: AppError) -> (r: AppError)
    ensures
        error.code@ == "OSS_TRANSFER_CANCELLED"@ ==> r.code@ == "OSS_TRANSFER_NEEDS_CONFIRMATION"@
            && r.has_detail("cause"@, "OSS_TRANSFER_CANCELLED"@),
        error.code@ != "OSS_TRANSFER_CANCELLED"@ && unknown_remote_code(error.code@) ==> r.code@
            == "OSS_TRANSFER_NEEDS_CONFIRMATION"@ && r.has_detail("cause"@, error.code@),
        error.code@ != "OSS_TRANSFER_CANCELLED"@ && !unknown_remote_code(error.code@) ==> r == error,
{
    let code = chars_of(error.code.as_str());
    if chars_eq_str(code.as_slice(), "OSS_TRANSFER_CANCELLED") {
        return unknown_upload_cancellation_error();
    }
    if crate::oss::is_unknown_remote_result(&error) {
        return unknown_upload_result_error(error);
    }
    error
}

/// Part `n` is among the recorded parts.
pub open spec fn part_recorded(parts: Seq<UploadPartCheckpoint>, n: int) -> bool {
    exists|i: int| 0 <= i < parts.len() && (#[trigger] parts[i]).part_number == n
}

/// The first part number in `from..=count` that is not recorded yet.
pub open spec fn first_missing_part(parts: Seq<UploadPartCheckpoint>, count: int, from: int) -> Option<int>
    decreases count + 1 - from,
{
    if from > count || from < 1 {
        None
    } else if !part_recorded(parts, from) {
        Some(from)
    } else {
        first_missing_part(parts, count, from + 1)
    }
}

fn is_recorded(parts: &Vec<UploadPartCheckpoint>, n: u64) -> (r: bool)
    ensures
        r == part_recorded(parts@, n as int),
{
    let mut i: usize = 0;
    while i < parts.len()
        invariant
            i <= parts@.len(),
            forall|k: int| 0 <= k < i ==> (#[trigger] parts@[k]).part_number != n,
        decreases parts@.len() - i,
    {
        if parts[i].part_number as u64 == n {
            return true;
        }
        i = i + 1;
    }
    false
}

/// The next part to upload, counting from `from`: parts already in the
/// checkpoint are skipped.
pub fn next_missing_part(parts: &Vec<UploadPartCheckpoint>, part_count: u64, from: u64) -> (r: Option<u64>)
    requires
        1 <= from,
    ensures
        match first_missing_part(parts@, part_count as int, from as int) {
            Some(n) => r == Some(n as u64),
            None => r is None,
        },
{
    if from > part_count {
        return None;
    }
    let mut n = from;
    loop
        invariant
            1 <= from <= n <= part_count,
            first_missing_part(parts@, part_count as int, from as int) == first_missing_part(
                parts@,
                part_count as int,
                n as int,
            ),
        decreases part_count - n,
    {
        if !is_recorded(parts, n) {
            return Some(n);
        }
        if n == part_count {
            return None;
        }
        n = n + 1;
    }
}

/// Stable insertion by part number.
pub open spec fn insert_by_number(s: Seq<UploadPartCheckpoint>, x: UploadPartCheckpoint) -> Seq<
    UploadPartCheckpoint,
>
    decreases s.len(),
{
    if s.len() == 0 {
        seq![x]
    } else if s.last().part_number <= x.part_number {
        s.push(x)
    } else {
        insert_by_number(s.drop_last(), x).push(s.last())
    }
}

/// The parts in the order of a stable sort by part number.
pub open spec fn sort_by_number(s: Seq<UploadPartCheckpoint>) -> Seq<UploadPartCheckpoint>
    decreases s.len(),
{
    if s.len() == 0 {
        Seq::empty()
    } else {
        insert_by_number(sort_by_number(s.drop_last()), s.last())
    }
}

pub open spec fn total_size(s: Seq<UploadPartCheckpoint>) -> int
    decreases s.len(),
{
    if s.len() == 0 {
        0
    } else {
        total_size(s.drop_last()) + s.last().size
    }
}

proof fn lemma_insert_by_number_at(s: Seq<UploadPartCheckpoint>, x: UploadPartCheckpoint, j: int)
    requires
        0 <= j <= s.len(),
        forall|m: int| j <= m < s.len() ==> (#[trigger] s[m]).part_number > x.part_number,
        j == 0 || s[j - 1].part_number <= x.part_number,
    ensures
        insert_by_number(s, x) == s.insert(j, x),
    decreases s.len() - j,
{
    if j == s.len() {
        assert(s.insert(j, x) =~= s.push(x));
    } else {
        let t = s.drop_last();
        assert forall|m: int| j <= m < t.len() implies (#[trigger] t[m]).part_number > x.part_number by {
            assert(t[m] == s[m]);
        }
        if j > 0 {
            assert(t[j - 1] == s[j - 1]);
        }
        lemma_insert_by_number_at(t, x, j);
        assert(t.insert(j, x).push(s.last()) =~= s.insert(j, x));
    }
}

proof fn lemma_total_size_insert(s: Seq<UploadPartCheckpoint>, x: UploadPartCheckpoint, j: int)
    requires
        0 <= j <= s.len(),
    ensures
        total_size(s.insert(j, x)) == total_size(s) + x.size,
    decreases s.len(),
{
    if j == s.len() {
        assert(s.insert(j, x) =~= s.push(x));
        assert(s.push(x).drop_last() =~= s);
    } else {
        let t = s.drop_last();
        lemma_total_size_insert(t, x, j);
        assert(s.insert(j, x) =~= t.insert(j, x).push(s.last()));
        assert(s.insert(j, x).drop_last() =~= t.insert(j, x));
    }
}

proof fn lemma_sort_keeps_total(s: Seq<UploadPartCheckpoint>)
    ensures
        total_size(sort_by_number(s)) == total_size(s),
        sort_by_number(s).len() == s.len(),
    decreases s.len(),
{
    if s.len() > 0 {
        lemma_sort_keeps_total(s.drop_last());
        let t = sort_by_number(s.drop_last());
        let x = s.last();
        let j = insertion_point(t, x);
        lemma_insertion_point(t, x);
        lemma_insert_by_number_at(t, x, j);
        lemma_total_size_insert(t, x, j);
    }
}

/// Where stable insertion puts `x`: after the last element whose number is
/// not larger.
pub open spec fn insertion_point(s: Seq<UploadPartCheckpoint>, x: UploadPartCheckpoint) -> int
    decreases s.len(),
{
    if s.len() == 0 || s.last().part_number <= x.part_number {
        s.len() as int
    } else {
        insertion_point(s.drop_last(), x)
    }
}

proof fn lemma_insertion_point(s: Seq<UploadPartCheckpoint>, x: UploadPartCheckpoint)
    ensures
        0 <= insertion_point(s, x) <= s.len(),
        forall|m: int| insertion_point(s, x) <= m < s.len() ==> (#[trigger] s[m]).part_number > x.part_number,
        insertion_point(s, x) == 0 || s[insertion_point(s, x) - 1].part_number <= x.part_number,
    decreases s.len(),
{
    if s.len() > 0 && s.last().part_number > x.part_number {
        let t = s.drop_last();
        lemma_insertion_point(t, x);
        assert forall|m: int| insertion_point(s, x) <= m < s.len() implies (#[trigger] s[m]).part_number
            > x.part_number by {
            if m < t.len() {
                assert(s[m] == t[m]);
            }
        }
        if insertion_point(s, x) > 0 {
            assert(s[insertion_point(s, x) - 1] == t[insertion_point(s, x) - 1]);
        }
    }
}

/// Records a part that was just uploaded: the parts stay sorted by number
/// (stably), and the bytes completed are the sum of their sizes.
pub fn record_uploaded_part(parts: Vec<UploadPartCheckpoint>, part: UploadPartCheckpoint) -> (r: (
    Vec<UploadPartCheckpoint>,
    u64,
))
    requires
        total_size(parts@) + part.size <= u64::MAX,
    ensures
        r.0@ == sort_by_number(parts@.push(part)),
        r.1 == total_size(parts@.push(part)),
{
    let ghost orig = parts@.push(part);
    let mut rest = parts;
    rest.push(part);
    assert(orig.push(part).len() > 0);
    let n = rest.len();
    let mut out: Vec<UploadPartCheckpoint> = Vec::new();
    let mut k: usize = 0;
    proof {
        assert(orig.drop_last() =~= parts@);
        assert(total_size(orig) == total_size(parts@) + part.size);
    }
    while k < n
        invariant
            k <= n == orig.len(),
            rest@ == orig.skip(k as int),
            out@ == sort_by_number(orig.take(k as int)),
        decreases n - k,
    {
        let x = rest.remove(0);
        assert(x == orig[k as int]);
        let mut j: usize = out.len();
        while j > 0 && out[j - 1].part_number > x.part_number
            invariant
                j <= out@.len(),
                forall|m: int| j <= m < out@.len() ==> (#[trigger] out@[m]).part_number > x.part_number,
            decreases j,
        {
            j = j - 1;
        }
        proof {
            lemma_insert_by_number_at(out@, x, j as int);
            assert(orig.take(k + 1).drop_last() =~= orig.take(k as int));
            assert(orig.take(k + 1).last() == x);
            assert(orig.skip(k as int).remove(0) =~= orig.skip(k + 1));
        }
        out.insert(j, x);
        k = k + 1;
    }
    assert(orig.take(n as int) =~= orig);
    proof {
        lemma_sort_keeps_total(orig);
    }
    let mut total: u64 = 0;
    let mut i: usize = 0;
    while i < out.len()
        invariant
            i <= out@.len(),
            out@ == sort_by_number(orig),
            total_size(out@) == total_size(orig),
            total_size(orig) <= u64::MAX,
            total == total_size(out@.take(i as int)),
        decreases out@.len() - i,
    {
        proof {
            assert(out@.take(i + 1).drop_last() =~= out@.take(i as int));
            lemma_total_size_prefix(out@, i + 1);
        }
        total = total + out[i].size;
        i = i + 1;
    }
    assert(out@.take(out@.len() as int) =~= out@);
    (out, total)
}

proof fn lemma_total_size_prefix(s: Seq<UploadPartCheckpoint>, k: int)
    requires
        0 <= k <= s.len(),
    ensures
        total_size(s.take(k)) <= total_size(s),
    decreases s.len() - k,
{
    if k < s.len() {
        lemma_total_size_prefix(s.drop_last(), k);
        assert(s.drop_last().take(k) =~= s.take(k));
    } else {
        assert(s.take(k) =~= s);
    }
}

/// The part search stops at the first part of `from..=count` that is not
/// recorded, and finds none only when all of them are.
pub proof fn lemma_first_missing_part(parts: Seq<UploadPartCheckpoint>, count: int, from: int)
    requires
        1 <= from,
    ensures
        match first_missing_part(parts, count, from) {
            Some(n) => from <= n <= count && !part_recorded(parts, n) && forall|k: int|
                from <= k < n ==> #[trigger] part_recorded(parts, k),
            None => forall|k: int| from <= k <= count ==> #[trigger] part_recorded(parts, k),
        },
    decreases count + 1 - from,
{
    if from <= count && part_recorded(parts, from) {
        lemma_first_missing_part(parts, count, from + 1);
    }
}

/// What an upload run does next.
pub enum UploadAction {
    /// Send the whole file with one request.
    PutObject,
    /// Start a multipart upload; its upload ID is recorded before any part.
    InitiateMultipart,
    /// Send part `number`: `size` bytes of the file from `offset`.
    UploadPart { number: u64, offset: u64, size: u64 },
    /// Complete the multipart upload with the recorded parts.
    Complete,
}

/// The next step of an upload whose parts after `from - 1` are still to be
/// looked at: a small file without an upload ID goes in one request; a
/// multipart upload is started first; then each part of `from..` that is
/// not recorded is sent, in order; then the upload is completed. `None`
/// when the part size cannot cut the file into allowed parts.
pub open spec fn upload_action_of(
    file_size: u64,
    part_size: u64,
    has_upload_id: bool,
    parts: Seq<UploadPartCheckpoint>,
    from: int,
) -> Option<UploadAction> {
    if file_size <= part_size && !has_upload_id {
        Some(UploadAction::PutObject)
    } else if !has_upload_id {
        Some(UploadAction::InitiateMultipart)
    } else if part_size == 0 || parts_needed(file_size, part_size) > 10000 {
        None
    } else {
        match first_missing_part(parts, parts_needed(file_size, part_size), from) {
            Some(n) => Some(
                UploadAction::UploadPart {
                    number: n as u64,
                    offset: ((n - 1) * part_size) as u64,
                    size: part_len(file_size, part_size, n as u64) as u64,
                },
            ),
            None => Some(UploadAction::Complete),
        }
    }
}

/// The step an upload run takes next (see `upload_action_of`). After
/// `UploadPart` the run goes on from the part after it; a part is sent at
/// most once per run, lies inside the file, and `Complete` comes only when
/// every part from `from` on is recorded.
pub fn next_upload_action(
    file_size: u64,
    part_size: u64,
    has_upload_id: bool,
    parts: &Vec<UploadPartCheckpoint>,
    from: u64,
) -> (r: AppResult<UploadAction>)
    requires
        1 <= from,
    ensures
        match upload_action_of(file_size, part_size, has_upload_id, parts@, from as int) {
            Some(a) => r == Ok::<UploadAction, AppError>(a),
            None => r matches Err(e) && e.code@ == "OSS_MULTIPART_INCOMPLETE"@,
        },
        r matches Ok(UploadAction::UploadPart { number, offset, size }) ==> {
            &&& from <= number <= parts_needed(file_size, part_size)
            &&& !part_recorded(parts@, number as int)
            &&& forall|k: int| from <= k < number ==> #[trigger] part_recorded(parts@, k)
            &&& offset == (number - 1) * part_size
            &&& 0 < size <= part_size
            &&& offset + size <= file_size
        },
        r matches Ok(UploadAction::Complete) ==> forall|k: int|
            from <= k <= parts_needed(file_size, part_size) ==> #[trigger] part_recorded(parts@, k),
{
    if upload_uses_single_request(file_size, part_size, has_upload_id) {
        return Ok(UploadAction::PutObject);
    }
    if !has_upload_id {
        return Ok(UploadAction::InitiateMultipart);
    }
    let count = match part_count(file_size, part_size) {
        Ok(c) => c,
        Err(e) => {
            return Err(e);
        },
    };
    proof {
        lemma_first_missing_part(parts@, count as int, from as int);
    }
    match next_missing_part(parts, count, from) {
        Some(n) => {
            proof {
                law_parts_start_inside_file(file_size, part_size, n);
            }
            let offset = (n - 1) * part_size;
            let size = part_size_for(file_size, part_size, n);
            Ok(UploadAction::UploadPart { number: n, offset, size })
        },
        None => Ok(UploadAction::Complete),
    }
}

// ---------------------------------------------------------------------------
// Downloads

// ---------------------------------------------------------------------------

pub open spec fn opt_view(o: Option<String>) -> Option<Seq<char>> {
    match o {
        Some(s) => Some(s@),
        None => None,
    }
}

/// Checks a download checkpoint against the remote object's metadata and
/// returns the object's size.
pub fn check_download_checkpoint(
    checkpoint: &DownloadCheckpoint,
    object_size: Option<u64>,
    etag: &Option<String>,
) -> (r: AppResult<u64>)
    ensures
        object_size is None ==> (r matches Err(e) && e.code@ == "OSS_RESPONSE_INVALID"@),
        object_size matches Some(size) ==> if checkpoint.object_size != size || opt_view(checkpoint.etag)
            != opt_view(*etag) {
            r matches Err(e) && e.code@ == "OSS_TRANSFER_SOURCE_CHANGED"@
        } else if checkpoint.bytes_completed > size {
            r matches Err(e) && e.code@ == "OSS_TRANSFER_CHECKPOINT_INVALID"@
        } else {
            r == Ok::<u64, AppError>(size)
        },
{
    let size = match object_size {
        Some(s) => s,
        None => {
            return Err(AppError::new("OSS_RESPONSE_INVALID", "OSS object metadata did not contain a size"));
        },
    };
    let same_etag = match (&checkpoint.etag, etag) {
        (Some(a), Some(b)) => a.eq(b),
        (None, None) => true,
        _ => false,
    };
    if checkpoint.object_size != size || !same_etag {
        return Err(
            AppError::new(
                "OSS_TRANSFER_SOURCE_CHANGED",
                "remote object changed after the transfer was created",
            ),
        );
    }
    if checkpoint.bytes_completed > size {
        return Err(
            AppError::new(
                "OSS_TRANSFER_CHECKPOINT_INVALID",
                "download checkpoint exceeds the remote object size",
            ),
        );
    }
    Ok(size)
}

/// Whether the temporary download file has to be created or cut back to
/// the checkpoint before resuming. A checkpoint that has made progress
/// without its temporary file is refused.
pub fn temp_file_needs_reset(existing_temp_size: Option<u64>, bytes_completed: u64) -> (r: AppResult<bool>)
    ensures
        existing_temp_size is None && bytes_completed > 0 ==> (r matches Err(e) && e.code@
            == "OSS_TRANSFER_CHECKPOINT_INVALID"@),
        !(existing_temp_size is None && bytes_completed > 0) ==> r == Ok::<bool, AppError>(
            existing_temp_size != Some(bytes_completed),
        ),
{
    match existing_temp_size {
        None => {
            if bytes_completed > 0 {
                return Err(
                    AppError::new(
                        "OSS_TRANSFER_CHECKPOINT_INVALID",
                        "download checkpoint exists but its temporary file is missing",
                    ),
                );
            }
            Ok(true)
        },
        Some(size) => Ok(size != bytes_completed),
    }
}

/// The next byte range to fetch: from the checkpoint, at most one default
/// part long, inclusive of `end`.
pub fn next_download_range(bytes_completed: u64, object_size: u64) -> (r: (u64, u64, u64))
    requires
        bytes_completed < object_size,
        bytes_completed + DEFAULT_PART_SIZE <= u64::MAX,
    ensures
        r.0 == bytes_completed,
        r.1 == (if bytes_completed + DEFAULT_PART_SIZE < object_size {
            bytes_completed + DEFAULT_PART_SIZE
        } else {
            object_size as int
        }) - 1,
        r.2 == r.1 - r.0 + 1,
        r.0 <= r.1 < object_size,
{
    let start = bytes_completed;
    let limit = start + DEFAULT_PART_SIZE;
    let end = if limit < object_size {
        limit
    } else {
        object_size
    } - 1;
    (start, end, end - start + 1)
}

/// What one attempt at fetching a range came to.
pub enum RangeAttempt {
    /// The request failed before a response arrived.
    RequestFailed(AppError),
    /// The response announced a length other than the one requested.
    LengthMismatch(u64),
    /// The body stream failed or timed out.
    StreamFailed(AppError),
    /// The body grew past the requested length.
    Overflowed,
    /// The body ended after this many bytes.
    Received(u64),
}

/// What to do after an attempt.
pub enum RangeStep {
    Done,
    Retry(u64, AppError),
    Fail(AppError),
}

/// The decision after attempt `attempt` (counted from 0) of at most
/// `max_attempts`, for a range of `expected` bytes. Retrying waits
/// `transfer_retry_delay(attempt)`; the error kept is reported if the
/// budget runs out.
pub fn next_range_step(attempt: u32, max_attempts: u32, expected: u64, outcome: RangeAttempt) -> (r:
    RangeStep)
    requires
        attempt < max_attempts,
    ensures
        match outcome {
            RangeAttempt::RequestFailed(e) => if e.retryable != Some(true) || attempt + 1 >= max_attempts {
                r == RangeStep::Fail(e)
            } else {
                r == RangeStep::Retry(retry_delay_ms(attempt) as u64, e)
            },
            RangeAttempt::LengthMismatch(actual) => r matches RangeStep::Fail(e) && e.code@
                == "OSS_RESPONSE_INVALID"@ && e.has_detail("expected"@, decimal(expected as nat))
                && e.has_detail("actual"@, decimal(actual as nat)),
            RangeAttempt::StreamFailed(e) => if attempt + 1 >= max_attempts {
                r == RangeStep::Fail(e)
            } else {
                r == RangeStep::Retry(retry_delay_ms(attempt) as u64, e)
            },
            RangeAttempt::Overflowed => r matches RangeStep::Fail(e) && e.code@ == "OSS_RESPONSE_INVALID"@,
            RangeAttempt::Received(len) => if len == expected {
                r is Done
            } else if attempt + 1 < max_attempts {
                r matches RangeStep::Retry(d, e) && d == retry_delay_ms(attempt) && e.code@
                    == "OSS_RESPONSE_INVALID"@ && e.retryable == Some(true)
            } else {
                r matches RangeStep::Fail(e) && e.code@ == "OSS_RESPONSE_INVALID"@ && e.retryable == Some(
                    true,
                )
            },
        },
{
    match outcome {
        RangeAttempt::RequestFailed(e) => {
            let retryable = match e.retryable {
                Some(b) => b,
                None => false,
            };
            if !retryable || attempt + 1 >= max_attempts {
                RangeStep::Fail(e)
            } else {
                RangeStep::Retry(transfer_retry_delay(attempt), e)
            }
        },
        RangeAttempt::LengthMismatch(actual) => {
            let expected_text = decimal_string(expected);
            let actual_text = decimal_string(actual);
            proof {
                reveal_strlit("expected");
                reveal_strlit("actual");
                assert("expected"@[0] != "actual"@[0]);
            }
            RangeStep::Fail(
                AppError::new(
                    "OSS_RESPONSE_INVALID",
                    "OSS range response length does not match the requested size",
                ).with_detail("expected", expected_text.as_str()).with_detail("actual", actual_text.as_str()),
            )
        },
        RangeAttempt::StreamFailed(e) => {
            if attempt + 1 >= max_attempts {
                RangeStep::Fail(e)
            } else {
                RangeStep::Retry(transfer_retry_delay(attempt), e)
            }
        },
        RangeAttempt::Overflowed => RangeStep::Fail(
            AppError::new("OSS_RESPONSE_INVALID", "OSS range response exceeded the requested size"),
        ),
        RangeAttempt::Received(len) => {
            if len == expected {
                return RangeStep::Done;
            }
            let short = AppError::new(
                "OSS_RESPONSE_INVALID",
                "OSS range response was shorter than requested",
            ).retryable(true);
            if attempt + 1 < max_attempts {
                RangeStep::Retry(transfer_retry_delay(attempt), short)
            } else {
                RangeStep::Fail(short)
            }
        },
    }
}

/// The error of a body stream that failed (`timed_out` false, with its
/// reason) or timed out; both may be retried.
pub fn stream_failure_error(timed_out: bool, reason: &str) -> (r: AppError)
    ensures
        timed_out ==> r.code@ == "OSS_NETWORK_TIMEOUT"@,
        !timed_out ==> r.code@ == "OSS_NETWORK_ERROR"@ && r.has_detail("reason"@, reason@),
        r.retryable == Some(true),
{
    if timed_out {
        AppError::new("OSS_NETWORK_TIMEOUT", "OSS download stream timed out").retryable(true)
    } else {
        AppError::new("OSS_NETWORK_ERROR", "OSS download stream failed").with_detail("reason", reason).retryable(
            true,
        )
    }
}

/// The error reported when no attempt was made at all.
pub fn range_budget_exhausted_error() -> (r: AppError)
    ensures
        r.code@ == "OSS_NETWORK_ERROR"@,
{
    AppError::new("OSS_NETWORK_ERROR", "OSS download range exhausted its retry budget")
}

/// What a download run does next.
pub enum DownloadAction {
    /// Fetch bytes `start..=end` (`len` of them) and append them to the
    /// temporary file.
    FetchRange { start: u64, end: u64, len: u64 },
    /// All bytes are there: move the temporary file into place.
    Finalize,
}

/// The step a download run takes next from its checkpoint: the next range
/// (see `next_download_range`) while bytes are missing, else finishing.
/// Each range starts at the checkpoint and is not empty, so recording it
/// moves the checkpoint forward, and never past the object's end.
pub fn next_download_action(bytes_completed: u64, object_size: u64) -> (r: DownloadAction)
    requires
        bytes_completed < object_size ==> bytes_completed + DEFAULT_PART_SIZE <= u64::MAX,
    ensures
        bytes_completed >= object_size ==> r is Finalize,
        bytes_completed < object_size ==> (r matches DownloadAction::FetchRange { start, end, len } && {
            &&& start == bytes_completed
            &&& end == (if bytes_completed + DEFAULT_PART_SIZE < object_size {
                bytes_completed + DEFAULT_PART_SIZE
            } else {
                object_size as int
            }) - 1
            &&& len == end - start + 1
            &&& 0 < len <= DEFAULT_PART_SIZE
            &&& start + len <= object_size
        }),
{
    if bytes_completed >= object_size {
        return DownloadAction::Finalize;
    }
    let (start, end, len) = next_download_range(bytes_completed, object_size);
    DownloadAction::FetchRange { start, end, len }
}

} // verus!
