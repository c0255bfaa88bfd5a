//! Object storage rules: what a target's prefix allows, continuation
//! tokens, local transfer paths, multipart arithmetic and upload
//! checkpoints, and how transfer errors are classified.
use vstd::prelude::*;

use crate::error::{lemma_detail_keys_distinct, AppError, AppResult};
use crate::text::{
    chars_of, extend_str, has_ctl, has_ctl_chars, has_char, has_char_exec, is_prefix, is_windows_absolute,
    is_windows_absolute_path, lower, lower_chars, starts_with_chars, starts_with_str, string_from,
    trim, trim_chars, utf8_len, utf8_len_exceeds,
};
use crate::view_prefs::field_error;

verus! {

pub const MAX_CONTINUATION_TOKEN_BYTES: usize = 4096;

pub const DEFAULT_PART_SIZE: u64 = 4194304;

pub const MAX_PART_COUNT: u64 = 10000;

/// A configured bucket location.
pub struct OssTargetRecord {
    pub id: String,
    pub account_id: String,
    pub display_name: String,
    pub bucket: String,
    pub region: String,
    pub endpoint: String,
    pub prefix: String,
    pub is_default: bool,
    pub sort_order: i64,
    pub created_at: String,
    pub updated_at: String,
}

// ---------------------------------------------------------------------------
// Scope and tokens
// ---------------------------------------------------------------------------

/// A target with a prefix only reaches names that start with it.
pub open spec fn within_target(prefix: Seq<char>, name: Seq<char>) -> bool {
    prefix.len() == 0 || is_prefix(prefix, name)
}

fn scope_error(code: &str, message: &str, target: &OssTargetRecord) -> (e: AppError)
    ensures
        e.code@ == code@,
        e.has_detail("targetId"@, target.id@),
{
    AppError::new(code, message).with_detail("targetId", target.id.as_str())
}

pub fn ensure_prefix_within_target(target: &OssTargetRecord, prefix: &str) -> (r: AppResult<()>)
    ensures
        r is Ok <==> within_target(target.prefix@, prefix@),
        r matches Err(e) ==> e.code@ == "OSS_PREFIX_OUT_OF_SCOPE"@ && e.has_detail(
            "targetId"@,
            target.id@,
        ),
{
    let p = chars_of(prefix);
    let tp = chars_of(target.prefix.as_str());
    if tp.len() > 0 && !starts_with_chars(p.as_slice(), tp.as_slice()) {
        return Err(
            scope_error(
                "OSS_PREFIX_OUT_OF_SCOPE",
                "requested prefix is outside the configured OSS target",
                target,
            ),
        );
    }
    Ok(())
}

pub fn ensure_key_within_target(target: &OssTargetRecord, key: &str) -> (r: AppResult<()>)
    ensures
        r is Ok <==> within_target(target.prefix@, key@),
        r matches Err(e) ==> e.code@ == "OSS_OBJECT_OUT_OF_SCOPE"@ && e.has_detail(
            "targetId"@,
            target.id@,
        ),
{
    let k = chars_of(key);
    let tp = chars_of(target.prefix.as_str());
    if tp.len() > 0 && !starts_with_chars(k.as_slice(), tp.as_slice()) {
        return Err(
            scope_error(
                "OSS_OBJECT_OUT_OF_SCOPE",
                "requested object is outside the configured OSS target",
                target,
            ),
        );
    }
    Ok(())
}

/// A continuation token is accepted when it is non-empty, at most 4 KiB
/// long and free of control characters.
pub open spec fn token_ok(t: Seq<char>) -> bool {
    t.len() > 0 && utf8_len(t) <= 4096 && !has_ctl(t)
}

pub fn validate_continuation_token(token: Option<String>) -> (r: AppResult<Option<String>>)
    ensures
        token is None ==> (r matches Ok(x) && x is None),
        token matches Some(t) ==> if token_ok(t@) {
            r matches Ok(x) && x == Some(t)
        } else {
            r matches Err(e) && field_error(e, "continuationToken"@)
        },
{
    let token = match token {
        Some(t) => t,
        None => {
            return Ok(None);
        },
    };
    let chars = chars_of(token.as_str());
    if chars.len() == 0 || utf8_len_exceeds(chars.as_slice(), MAX_CONTINUATION_TOKEN_BYTES)
        || has_ctl_chars(chars.as_slice()) {
        return Err(
            AppError::validation("continuationToken is invalid").with_detail(
                "field",
                "continuationToken",
            ),
        );
    }
    Ok(Some(token))
}

// ---------------------------------------------------------------------------
// Local paths
// ---------------------------------------------------------------------------

pub enum LocalPathRejection {
    Invalid,
    NotAbsolute,
}

/// Why a local transfer path is refused: once trimmed it must be non-empty,
/// at most 4 KiB, free of NUL and control characters, and absolute.
pub open spec fn local_path_rejection(v: Seq<char>) -> Option<LocalPathRejection> {
    let t = trim(v);
    if t.len() == 0 || utf8_len(t) > 4096 || has_char(t, '\0') || has_ctl(t) {
        Some(LocalPathRejection::Invalid)
    } else if !is_windows_absolute(t) {
        Some(LocalPathRejection::NotAbsolute)
    } else {
        None
    }
}

pub fn validate_local_path(value: String, field: &str) -> (r: AppResult<String>)
    ensures
        match local_path_rejection(value@) {
            Some(LocalPathRejection::Invalid) => r matches Err(e) && field_error(e, field@)
                && e.message@ == field@ + " is invalid"@,
            Some(LocalPathRejection::NotAbsolute) => r matches Err(e) && field_error(e, field@)
                && e.message@ == field@ + " must be absolute"@,
            None => r matches Ok(p) && p@ == trim(value@),
        },
{
    let t = trim_chars(value.as_str());
    if t.len() == 0 || utf8_len_exceeds(t.as_slice(), 4096) || has_char_exec(t.as_slice(), '\0')
        || has_ctl_chars(t.as_slice()) {
        let mut m: Vec<char> = Vec::new();
        extend_str(&mut m, field);
        extend_str(&mut m, " is invalid");
        let message = string_from(m.as_slice());
        return Err(AppError::validation(message.as_str()).with_detail("field", field));
    }
    if !is_windows_absolute_path(t.as_slice()) {
        let mut m: Vec<char> = Vec::new();
        extend_str(&mut m, field);
        extend_str(&mut m, " must be absolute");
        let message = string_from(m.as_slice());
        return Err(AppError::validation(message.as_str()).with_detail("field", field));
    }
    Ok(string_from(t.as_slice()))
}

// ---------------------------------------------------------------------------
// Multipart arithmetic
// ---------------------------------------------------------------------------

/// `a / b` rounded up.
pub open spec fn ceil_div(a: int, b: int) -> int {
    if a % b == 0 {
        a / b
    } else {
        a / b + 1
    }
}

fn div_ceil_u64(a: u64, b: u64) -> (r: u64)
    requires
        b > 0,
    ensures
        r == ceil_div(a as int, b as int),
{
    let q = a / b;
    if a % b == 0 {
        q
    } else {
        assert(q < a || q == a) by (nonlinear_arith)
            requires
                q == a / b,
                b > 0,
        ;
        assert(q + 1 <= u64::MAX) by (nonlinear_arith)
            requires
                q == a / b,
                b > 0,
                a % b != 0,
                a <= u64::MAX,
        ;
        q + 1
    }
}

/// The part size for a file: 4 MiB, or larger when 10,000 parts of 4 MiB
/// would not hold the file.
pub open spec fn part_size(total: u64) -> int {
    let wanted = if total == 0 {
        DEFAULT_PART_SIZE as int
    } else {
        ceil_div(total as int, 10000)
    };
    if wanted > DEFAULT_PART_SIZE {
        wanted
    } else {
        DEFAULT_PART_SIZE as int
    }
}

pub fn calculate_part_size(total_bytes: u64) -> (r: u64)
    ensures
        r == part_size(total_bytes),
{
    let wanted = if total_bytes == 0 {
        DEFAULT_PART_SIZE
    } else {
        div_ceil_u64(total_bytes, MAX_PART_COUNT)
    };
    if wanted > DEFAULT_PART_SIZE {
        wanted
    } else {
        DEFAULT_PART_SIZE
    }
}

/// The number of parts of `part_size` bytes that hold `total` bytes.
pub open spec fn parts_needed(total: u64, part_size: u64) -> int {
    if total == 0 {
        0
    } else {
        ceil_div(total as int, part_size as int)
    }
}

pub fn part_count(total_bytes: u64, part_size: u64) -> (r: AppResult<u64>)
    ensures
        r is Ok <==> part_size > 0 && parts_needed(total_bytes, part_size) <= 10000,
        r matches Ok(n) ==> n == parts_needed(total_bytes, part_size),
        r matches Err(e) ==> e.code@ == "OSS_MULTIPART_INCOMPLETE"@,
{
    if part_size == 0 {
        return Err(AppError::new("OSS_MULTIPART_INCOMPLETE", "multipart part size is invalid"));
    }
    let count = if total_bytes == 0 {
        0
    } else {
        div_ceil_u64(total_bytes, part_size)
    };
    if count > MAX_PART_COUNT {
        return Err(
            AppError::new("OSS_MULTIPART_INCOMPLETE", "file requires more than 10,000 multipart parts"),
        );
    }
    Ok(count)
}

/// The size of part `part_number` (counted from 1): a full part, or what
/// is left of the file for the last one.
pub open spec fn part_len(total: u64, part_size: u64, part_number: u64) -> int {
    let rest = total - (part_number - 1) * part_size;
    if rest < part_size {
        rest
    } else {
        part_size as int
    }
}

pub fn part_size_for(total_bytes: u64, part_size: u64, part_number: u64) -> (r: u64)
    requires
        part_number >= 1,
        (part_number - 1) * part_size <= total_bytes,
    ensures
        r == part_len(total_bytes, part_size, part_number),
{
    let k = part_number - 1;
    assert(k * part_size <= u64::MAX);
    let offset = k * part_size;
    let rest = total_bytes - offset;
    if rest < part_size {
        rest
    } else {
        part_size
    }
}

/// Every part that `part_count` allows starts inside the file.
pub proof fn law_parts_start_inside_file(total: u64, part_size: u64, part_number: u64)
    requires
        part_size > 0,
        1 <= part_number <= parts_needed(total, part_size),
    ensures
        (part_number - 1) * part_size < total,
        0 < part_len(total, part_size, part_number) <= part_size,
{
    let n = part_number as int;
    let ps = part_size as int;
    let t = total as int;
    assert(t > 0);
    assert((n - 1) * ps < t) by (nonlinear_arith)
        requires
            ps > 0,
            t > 0,
            1 <= n <= ceil_div(t, ps),
    {
        if t % ps == 0 {
            assert(t == (t / ps) * ps);
            assert((n - 1) * ps <= (t / ps - 1) * ps);
        } else {
            assert(t == (t / ps) * ps + t % ps);
            assert((n - 1) * ps <= (t / ps) * ps);
        }
    }
}

/// The bytes held by parts `1..=n`.
pub open spec fn parts_total(total: u64, part_size: u64, n: nat) -> int
    decreases n,
{
    if n == 0 {
        0
    } else {
        parts_total(total, part_size, (n - 1) as nat) + part_len(total, part_size, n as u64)
    }
}

proof fn lemma_parts_total(total: u64, part_size: u64, n: nat)
    requires
        part_size > 0,
        n <= parts_needed(total, part_size),
    ensures
        parts_total(total, part_size, n) == (if n * part_size < total {
            n * part_size
        } else {
            total as int
        }),
    decreases n,
{
    if n > 0 {
        lemma_parts_total(total, part_size, (n - 1) as nat);
        let t = total as int;
        let ps = part_size as int;
        assert(n <= t) by (nonlinear_arith)
            requires
                ps > 0,
                t > 0,
                n <= ceil_div(t, ps),
        {
            assert(t == (t / ps) * ps + t % ps);
            assert(t / ps <= t);
            if t / ps == t {
                assert(ps == 1);
            }
        }
        assert((n as u64) as int == n);
        law_parts_start_inside_file(total, part_size, n as u64);
        let m = (n - 1) as int;
        assert(m * ps + ps == n * ps) by (nonlinear_arith)
            requires
                m == n - 1,
        ;
        assert(part_len(total, part_size, n as u64) == (if t - m * ps < ps {
            t - m * ps
        } else {
            ps
        }));
        assert(m * ps < t);
        assert(parts_total(total, part_size, (n - 1) as nat) == m * ps);
        assert(parts_total(total, part_size, n) == m * ps + part_len(total, part_size, n as u64));
        assert(n * part_size == n * ps);
    } else {
        assert(n * part_size == 0) by (nonlinear_arith)
            requires
                n == 0,
        ;
    }
}

/// The parts that `part_count` gives hold the whole file, each byte once:
/// their sizes add up to the file's size.
pub proof fn law_parts_cover_file(total: u64, part_size: u64)
    requires
        part_size > 0,
    ensures
        parts_total(total, part_size, parts_needed(total, part_size) as nat) == total,
{
    let c = parts_needed(total, part_size);
    lemma_parts_total(total, part_size, c as nat);
    if total > 0 {
        let t = total as int;
        let ps = part_size as int;
        assert(c * ps >= t) by (nonlinear_arith)
            requires
                ps > 0,
                t > 0,
                c == ceil_div(t, ps),
        {
            assert(t == (t / ps) * ps + t % ps);
        }
    }
}

// ---------------------------------------------------------------------------
// Files and checkpoints
// ---------------------------------------------------------------------------

/// The size and modification time of a local file.
#[derive(Debug, Clone, Copy, PartialEq, Eq, Structural)]
pub struct FileSnapshot {
    pub size: u64,
    pub modified_millis: u64,
}

pub fn validate_same_file(before: FileSnapshot, after: FileSnapshot) -> (r: AppResult<()>)
    ensures
        r is Ok <==> before == after,
        r matches Err(e) ==> e.code@ == "OSS_TRANSFER_SOURCE_CHANGED"@,
{
    if before.size != after.size || before.modified_millis != after.modified_millis {
        return Err(
            AppError::new(
                "OSS_TRANSFER_SOURCE_CHANGED",
                "local file changed while it was being uploaded",
            ),
        );
    }
    Ok(())
}

pub struct UploadPartCheckpoint {
    pub part_number: u32,
    pub size: u64,
    pub etag: String,
}

/// What an interrupted upload has done so far.
pub struct UploadCheckpoint {
    pub kind: String,
    pub file_size: u64,
    pub modified_millis: u64,
    pub part_size: u64,
    pub overwrite: bool,
    pub parts: Vec<UploadPartCheckpoint>,
}

/// What an interrupted download has done so far.
pub struct DownloadCheckpoint {
    pub kind: String,
    pub object_size: u64,
    pub etag: Option<String>,
    pub bytes_completed: u64,
    pub overwrite: bool,
}

/// A checkpoint part is well formed: numbered within the expected count,
/// with an etag, no earlier part with the same number, and the size that
/// part must have.
pub open spec fn part_ok(parts: Seq<UploadPartCheckpoint>, i: int, total: u64, part_size: u64, count: int) -> bool {
    let p = parts[i];
    &&& p.part_number != 0
    &&& p.part_number <= count
    &&& p.etag@.len() > 0
    &&& forall|j: int| 0 <= j < i ==> (#[trigger] parts[j]).part_number != p.part_number
    &&& p.size == part_len(total, part_size, p.part_number as u64)
}

pub open spec fn checkpoint_matches(c: UploadCheckpoint, s: FileSnapshot) -> bool {
    c.kind@ == "upload"@ && c.file_size == s.size && c.modified_millis == s.modified_millis && c.part_size
        != 0
}

/// Checks that a stored upload checkpoint still fits the file and that its
/// parts are consistent.
pub fn validate_upload_checkpoint(checkpoint: &UploadCheckpoint, snapshot: &FileSnapshot) -> (r:
    AppResult<()>)
    ensures
        !checkpoint_matches(*checkpoint, *snapshot) ==> (r matches Err(e) && e.code@
            == "OSS_TRANSFER_SOURCE_CHANGED"@),
        checkpoint_matches(*checkpoint, *snapshot) && parts_needed(snapshot.size, checkpoint.part_size)
            > 10000 ==> (r matches Err(e) && e.code@ == "OSS_MULTIPART_INCOMPLETE"@),
        checkpoint_matches(*checkpoint, *snapshot) && parts_needed(snapshot.size, checkpoint.part_size)
            <= 10000 ==> {
            let count = parts_needed(snapshot.size, checkpoint.part_size);
            let parts = checkpoint.parts@;
            if forall|i: int| 0 <= i < parts.len() ==> part_ok(parts, i, snapshot.size, checkpoint.part_size, count) {
                r is Ok
            } else {
                r matches Err(e) && e.code@ == "OSS_TRANSFER_CHECKPOINT_INVALID"@
            }
        },
{
    if !crate::text::chars_eq_str(chars_of(checkpoint.kind.as_str()).as_slice(), "upload")
        || checkpoint.file_size != snapshot.size || checkpoint.modified_millis != snapshot.modified_millis
        || checkpoint.part_size == 0 {
        return Err(
            AppError::new(
                "OSS_TRANSFER_SOURCE_CHANGED",
                "local file or upload checkpoint no longer matches",
            ),
        );
    }
    let expected_count = match part_count(snapshot.size, checkpoint.part_size) {
        Ok(n) => n,
        Err(e) => {
            return Err(e);
        },
    };
    let parts = &checkpoint.parts;
    let mut i: usize = 0;
    while i < parts.len()
        invariant
            i <= parts@.len(),
            parts@ == checkpoint.parts@,
            checkpoint.part_size > 0,
            checkpoint_matches(*checkpoint, *snapshot),
            expected_count <= 10000,
            expected_count == parts_needed(snapshot.size, checkpoint.part_size),
            forall|k: int| 0 <= k < i ==> part_ok(parts@, k, snapshot.size, checkpoint.part_size, expected_count as int),
        decreases parts@.len() - i,
    {
        let part = &parts[i];
        let number = part.part_number as u64;
        let mut duplicate = false;
        let mut j: usize = 0;
        while j < i
            invariant
                j <= i < parts@.len(),
                *part == parts@[i as int],
                !duplicate ==> forall|m: int| 0 <= m < j ==> (#[trigger] parts@[m]).part_number
                    != parts@[i as int].part_number,
                duplicate ==> exists|m: int| 0 <= m < i && (#[trigger] parts@[m]).part_number
                    == parts@[i as int].part_number,
            decreases i - j,
        {
            if parts[j].part_number == part.part_number {
                duplicate = true;
            }
            j = j + 1;
        }
        let etag_empty = chars_of(part.etag.as_str()).len() == 0;
        let bad = if part.part_number == 0 || number > expected_count || etag_empty || duplicate {
            true
        } else {
            proof {
                law_parts_start_inside_file(snapshot.size, checkpoint.part_size, number);
            }
            part.size != part_size_for(snapshot.size, checkpoint.part_size, number)
        };
        if bad {
            assert(!part_ok(parts@, i as int, snapshot.size, checkpoint.part_size, expected_count as int));
            return Err(
                AppError::new(
                    "OSS_TRANSFER_CHECKPOINT_INVALID",
                    "upload checkpoint contains invalid part metadata",
                ),
            );
        }
        i = i + 1;
    }
    Ok(())
}

pub fn check_cancel(cancel_requested: bool) -> (r: AppResult<()>)
    ensures
        r is Ok <==> !cancel_requested,
        r matches Err(e) ==> e.code@ == "OSS_TRANSFER_CANCELLED"@,
{
    if cancel_requested {
        Err(AppError::new("OSS_TRANSFER_CANCELLED", "OSS transfer cancellation requested"))
    } else {
        Ok(())
    }
}

// ---------------------------------------------------------------------------
// Errors, retries, content types
// ---------------------------------------------------------------------------

/// The wait before retry `attempt`, in milliseconds: 250 ms doubled per
/// attempt, at most 4 s.
pub open spec fn retry_delay_ms(attempt: u32) -> int {
    if attempt == 0 {
        250
    } else if attempt == 1 {
        500
    } else if attempt == 2 {
        1000
    } else if attempt == 3 {
        2000
    } else {
        4000
    }
}

pub fn transfer_retry_delay(attempt: u32) -> (ms: u64)
    ensures
        ms == retry_delay_ms(attempt),
{
    let shift: u32 = if attempt < 4 { attempt } else { 4 };
    let mut factor: u64 = 1;
    let mut k: u32 = 0;
    while k < shift
        invariant
            k <= shift <= 4,
            factor == (if k == 0 { 1u64 } else if k == 1 { 2u64 } else if k == 2 { 4u64 } else if k == 3 { 8u64 } else { 16u64 }),
        decreases shift - k,
    {
        factor = factor * 2;
        k = k + 1;
    }
    250 * factor
}

/// An error after which the remote outcome of an upload is unknown.
pub open spec fn unknown_remote_code(code: Seq<char>) -> bool {
    code == "OSS_NETWORK_TIMEOUT"@ || code == "OSS_NETWORK_ERROR"@ || code == "OSS_REMOTE_RETRYABLE"@
        || is_prefix("OSS_REMOTE_"@, code)
}

pub fn is_unknown_remote_result(error: &AppError) -> (r: bool)
    ensures
        r == unknown_remote_code(error.code@),
{
    let code = chars_of(error.code.as_str());
    crate::text::chars_eq_str(code.as_slice(), "OSS_NETWORK_TIMEOUT") || crate::text::chars_eq_str(
        code.as_slice(),
        "OSS_NETWORK_ERROR",
    ) || crate::text::chars_eq_str(code.as_slice(), "OSS_REMOTE_RETRYABLE") || starts_with_str(
        code.as_slice(),
        "OSS_REMOTE_",
    )
}

/// The error that asks the user to confirm the remote object, naming the
/// cause.
pub fn unknown_upload_result_error(error: AppError) -> (r: AppError)
    ensures
        r.code@ == "OSS_TRANSFER_NEEDS_CONFIRMATION"@,
        r.has_detail("cause"@, error.code@),
{
    AppError::new(
        "OSS_TRANSFER_NEEDS_CONFIRMATION",
        "OSS upload result is unknown; confirm the remote object before retrying",
    ).with_detail("cause", error.code.as_str())
}

pub fn unknown_upload_cancellation_error() -> (r: AppError)
    ensures
        r.code@ == "OSS_TRANSFER_NEEDS_CONFIRMATION"@,
        r.has_detail("cause"@, "OSS_TRANSFER_CANCELLED"@),
{
    unknown_upload_result_error(
        AppError::new(
            "OSS_TRANSFER_CANCELLED",
            "upload cancellation happened while the remote result was still unknown",
        ),
    )
}

/// Index of the last `.` among the first `k` characters.
pub open spec fn last_dot(name: Seq<char>, k: int) -> Option<int>
    decreases k,
{
    if k <= 0 {
        None
    } else if name[k - 1] == '.' {
        Some(k - 1)
    } else {
        last_dot(name, k - 1)
    }
}

/// The extension of a Windows path: what follows the last `.` of its file
/// name; none without a file name or a dot, or for a name like `.hidden`.
pub open spec fn path_extension(p: Seq<char>) -> Option<Seq<char>> {
    match crate::autostart::path_file_name(p) {
        Some(name) => match last_dot(name, name.len() as int) {
            Some(d) => if d == 0 {
                None
            } else {
                Some(name.skip(d + 1))
            },
            None => None,
        },
        None => None,
    }
}

/// The MIME type announced for an upload, by lower-cased extension.
pub open spec fn content_type_of(ext: Seq<char>) -> Option<Seq<char>> {
    if ext == "txt"@ || ext == "log"@ || ext == "md"@ {
        Some("text/plain"@)
    } else if ext == "json"@ {
        Some("application/json"@)
    } else if ext == "html"@ || ext == "htm"@ {
        Some("text/html"@)
    } else if ext == "css"@ {
        Some("text/css"@)
    } else if ext == "js"@ || ext == "mjs"@ {
        Some("text/javascript"@)
    } else if ext == "ts"@ || ext == "tsx"@ {
        Some("text/typescript"@)
    } else if ext == "xml"@ {
        Some("application/xml"@)
    } else if ext == "pdf"@ {
        Some("application/pdf"@)
    } else if ext == "png"@ {
        Some("image/png"@)
    } else if ext == "jpg"@ || ext == "jpeg"@ {
        Some("image/jpeg"@)
    } else if ext == "gif"@ {
        Some("image/gif"@)
    } else if ext == "webp"@ {
        Some("image/webp"@)
    } else if ext == "zip"@ {
        Some("application/zip"@)
    } else {
        None
    }
}

fn content_type_of_exec(ext: &[char]) -> (r: Option<&'static str>)
    ensures
        match content_type_of(ext@) {
            Some(t) => r matches Some(s) && s@ == t,
            None => r is None,
        },
{
    let e = |w: &str| -> (b: bool)
        ensures
            b == (ext@ == w@),
        { crate::text::chars_eq_str(ext, w) };
    if e("txt") || e("log") || e("md") {
        Some("text/plain")
    } else if e("json") {
        Some("application/json")
    } else if e("html") || e("htm") {
        Some("text/html")
    } else if e("css") {
        Some("text/css")
    } else if e("js") || e("mjs") {
        Some("text/javascript")
    } else if e("ts") || e("tsx") {
        Some("text/typescript")
    } else if e("xml") {
        Some("application/xml")
    } else if e("pdf") {
        Some("application/pdf")
    } else if e("png") {
        Some("image/png")
    } else if e("jpg") || e("jpeg") {
        Some("image/jpeg")
    } else if e("gif") {
        Some("image/gif")
    } else if e("webp") {
        Some("image/webp")
    } else if e("zip") {
        Some("application/zip")
    } else {
        None
    }
}

/// The extension of a path (see `path_extension`).
pub(crate) fn extension_of(path: &[char]) -> (r: Option<Vec<char>>)
    ensures
        match path_extension(path@) {
            Some(ext) => r matches Some(v) && v@ == ext,
            None => r is None,
        },
{
    let name = match crate::autostart::file_name_of(path) {
        Some(n) => n,
        None => {
            return None;
        },
    };
    let mut k: usize = name.len();
    while k > 0 && name[k - 1] != '.'
        invariant
            k <= name@.len(),
            last_dot(name@, name@.len() as int) == last_dot(name@, k as int),
        decreases k,
    {
        k = k - 1;
    }
    if k <= 1 {
        return None;
    }
    let ext = crate::text::slice_chars(name.as_slice(), k, name.len());
    assert(ext@ =~= name@.skip(k as int));
    Some(ext)
}

pub fn content_type_for_path(path: &str) -> (r: Option<String>)
    ensures
        match path_extension(path@) {
            Some(ext) => match content_type_of(lower(ext)) {
                Some(t) => r matches Some(s) && s@ == t,
                None => r is None,
            },
            None => r is None,
        },
{
    let chars = chars_of(path);
    let ext = match extension_of(chars.as_slice()) {
        Some(e) => e,
        None => {
            return None;
        },
    };
    let lowered = lower_chars(ext.as_slice());
    match content_type_of_exec(lowered.as_slice()) {
        Some(t) => Some(t.to_owned()),
        None => None,
    }
}

} // verus!
