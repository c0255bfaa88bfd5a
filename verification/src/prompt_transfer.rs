//! Prompt list import and export: file path checks, the preview hash, and
//! size limits.
use vstd::prelude::*;

use sha2::Digest;

use crate::error::{AppError, AppResult};
use crate::ids::{hex_lower, to_hex_lower};
use crate::text::{
    chars_of, decimal, decimal_string, is_ascii_hex, is_windows_absolute, is_windows_absolute_path,
    string_from, trim, trim_chars, utf8_len, utf8_len_exceeds,
};

verus! {

/// The largest prompt file that is read or written: 64 MiB.
pub const PROMPT_TRANSFER_MAX_FILE_BYTES: u64 = 67108864;

pub enum PathRejection {
    Empty,
    NotAbsolute,
    NoParent,
    NoFileName,
}

/// Why a prompt file path is refused: blank, or not absolute once trimmed.
pub open spec fn absolute_path_rejection(v: Seq<char>) -> Option<PathRejection> {
    let t = trim(v);
    if t.len() == 0 {
        Some(PathRejection::Empty)
    } else if !is_windows_absolute(t) {
        Some(PathRejection::NotAbsolute)
    } else {
        None
    }
}

pub fn validate_absolute_path(value: &str) -> (r: AppResult<String>)
    ensures
        match absolute_path_rejection(value@) {
            Some(PathRejection::NotAbsolute) => r matches Err(e) && e.code@ == "PROMPT_TRANSFER_PATH_INVALID"@
                && e.has_detail("path"@, trim(value@)),
            Some(_) => r matches Err(e) && e.code@ == "PROMPT_TRANSFER_PATH_INVALID"@,
            None => r matches Ok(p) && p@ == trim(value@),
        },
{
    let t = trim_chars(value);
    if t.len() == 0 {
        return Err(AppError::new("PROMPT_TRANSFER_PATH_INVALID", "文件路径不能为空"));
    }
    let text = string_from(t.as_slice());
    if !is_windows_absolute_path(t.as_slice()) {
        return Err(
            AppError::new("PROMPT_TRANSFER_PATH_INVALID", "文件路径必须是绝对路径").with_detail(
                "path",
                text.as_str(),
            ),
        );
    }
    Ok(text)
}

pub fn validate_source_path(value: &str) -> (r: AppResult<String>)
    ensures
        match absolute_path_rejection(value@) {
            Some(_) => r matches Err(e) && e.code@ == "PROMPT_TRANSFER_PATH_INVALID"@,
            None => r matches Ok(p) && p@ == trim(value@),
        },
{
    validate_absolute_path(value)
}

/// An absolute Windows path with no component after its root (such as
/// `C:\` or `\\server\share`) has no parent directory.
pub open spec fn is_root_only(t: Seq<char>) -> bool {
    let q = crate::autostart::drop_trailing_separators(t);
    if q.len() >= 2 && q[0] == '\\' && q[1] == '\\' {
        separators_after(q, 2) <= 1
    } else {
        q.len() <= 2
    }
}

/// How many separators follow position `from`.
pub open spec fn separators_after(q: Seq<char>, from: int) -> int
    decreases q.len() - from,
{
    if from < 0 || from >= q.len() {
        0
    } else {
        separators_after(q, from + 1) + if crate::text::is_path_separator(q[from]) {
            1int
        } else {
            0int
        }
    }
}

pub open spec fn destination_rejection(v: Seq<char>) -> Option<PathRejection> {
    match absolute_path_rejection(v) {
        Some(r) => Some(r),
        None => if is_root_only(trim(v)) {
            Some(PathRejection::NoParent)
        } else if crate::autostart::path_file_name(trim(v)) is None {
            Some(PathRejection::NoFileName)
        } else {
            None
        },
    }
}

fn root_only(t: &[char]) -> (r: bool)
    ensures
        r == is_root_only(t@),
{
    let mut end: usize = t.len();
    assert(t@.take(end as int) =~= t@);
    while end > 0 && (t[end - 1] == '\\' || t[end - 1] == '/')
        invariant
            end <= t@.len(),
            crate::autostart::drop_trailing_separators(t@) == crate::autostart::drop_trailing_separators(
                t@.take(end as int),
            ),
        decreases end,
    {
        assert(t@.take(end as int).drop_last() =~= t@.take(end - 1));
        end = end - 1;
    }
    let ghost q = t@.take(end as int);
    assert(crate::autostart::drop_trailing_separators(q) == q);
    if end >= 2 && t[0] == '\\' && t[1] == '\\' {
        let mut count: usize = 0;
        let mut i: usize = end;
        while i > 2
            invariant
                2 <= i <= end <= t@.len(),
                q == t@.take(end as int),
                count <= end - i,
                separators_after(q, i as int) == count,
            decreases i,
        {
            if t[i - 1] == '\\' || t[i - 1] == '/' {
                count = count + 1;
            }
            i = i - 1;
        }
        return count <= 1;
    }
    end <= 2
}

pub fn validate_destination_path(value: &str) -> (r: AppResult<String>)
    ensures
        match destination_rejection(value@) {
            Some(_) => r matches Err(e) && e.code@ == "PROMPT_TRANSFER_PATH_INVALID"@,
            None => r matches Ok(p) && p@ == trim(value@),
        },
{
    let path = match validate_absolute_path(value) {
        Ok(p) => p,
        Err(e) => {
            return Err(e);
        },
    };
    let chars = chars_of(path.as_str());
    if root_only(chars.as_slice()) {
        return Err(AppError::new("PROMPT_TRANSFER_PATH_INVALID", "导出文件路径缺少父目录"));
    }
    if crate::autostart::file_name_of(chars.as_slice()).is_none() {
        return Err(AppError::new("PROMPT_TRANSFER_PATH_INVALID", "导出文件名不能为空"));
    }
    Ok(path)
}

/// A preview hash: 64 hexadecimal digits once trimmed.
pub open spec fn hash_ok(v: Seq<char>) -> bool {
    let t = trim(v);
    utf8_len(t) == 64 && forall|i: int| 0 <= i < t.len() ==> is_ascii_hex(#[trigger] t[i])
}

pub fn validate_expected_hash(value: &str) -> (r: AppResult<()>)
    ensures
        r is Ok <==> hash_ok(value@),
        r matches Err(e) ==> e.code@ == "PROMPT_TRANSFER_SELECTION_INVALID"@,
{
    let t = trim_chars(value);
    let mut all_hex = true;
    let mut i: usize = 0;
    while i < t.len()
        invariant
            i <= t@.len(),
            all_hex == forall|k: int| 0 <= k < i ==> is_ascii_hex(#[trigger] t@[k]),
        decreases t@.len() - i,
    {
        let c = t[i];
        let hex = ('0' <= c && c <= '9') || ('a' <= c && c <= 'f') || ('A' <= c && c <= 'F');
        if !hex {
            all_hex = false;
        }
        i = i + 1;
    }
    let wrong_len = utf8_len_exceeds(t.as_slice(), 64) || !utf8_len_exceeds(t.as_slice(), 63);
    if wrong_len || !all_hex {
        return Err(AppError::new("PROMPT_TRANSFER_SELECTION_INVALID", "预检文件哈希无效，请重新预检"));
    }
    Ok(())
}

pub fn check_cancelled(cancelled: bool) -> (r: AppResult<()>)
    ensures
        r is Ok <==> !cancelled,
        r matches Err(e) ==> e.code@ == "PROMPT_TRANSFER_CANCELLED"@,
{
    if cancelled {
        return Err(AppError::new("PROMPT_TRANSFER_CANCELLED", "Prompts 文件操作已取消"));
    }
    Ok(())
}

/// The result of a prompt file operation named `operation` run with a time
/// limit, given how its task was joined (its result, or the reason it ended
/// abnormally) and whether the time ran out first, in which case the
/// operation was told to stop and then awaited. A late result still counts
/// unless it is the cancellation; a cancelled or lost late task is reported
/// as a timeout.
pub fn prompt_task_result<T>(operation: &str, timed_out: bool, joined: Result<AppResult<T>, String>) -> (r:
    AppResult<T>)
    ensures
        match joined {
            Ok(Ok(v)) => r == Ok::<T, AppError>(v),
            Ok(Err(e)) => if !timed_out || e.code@ != "PROMPT_TRANSFER_CANCELLED"@ {
                r == Err::<T, AppError>(e)
            } else {
                r matches Err(t) && t.code@ == "PROMPT_TRANSFER_TIMEOUT"@ && t.message@
                    == "Prompts 本地文件操作超时"@ && t.retryable == Some(true) && t.detail_map()
                    == map!["operation"@ => operation@]
            },
            Err(reason) => r matches Err(t) && t.code@ == "PROMPT_TRANSFER_TIMEOUT"@ && t.retryable is None
                && t.message@ == (if timed_out {
                "Prompts 本地文件操作超时且回收失败"@
            } else {
                "Prompts 本地文件操作异常终止"@
            }) && t.detail_map() == map!["operation"@ => operation@, "reason"@ => reason@],
        },
{
    proof {
        crate::error::lemma_detail_keys_distinct();
        reveal_strlit("operation");
        reveal_strlit("reason");
        assert("operation"@.len() != "reason"@.len());
    }
    match joined {
        Ok(Ok(v)) => Ok(v),
        Ok(Err(e)) => {
            if timed_out && crate::text::chars_eq_str(chars_of(e.code.as_str()).as_slice(), "PROMPT_TRANSFER_CANCELLED") {
                Err(
                    AppError::new("PROMPT_TRANSFER_TIMEOUT", "Prompts 本地文件操作超时").with_detail(
                        "operation",
                        operation,
                    ).retryable(true),
                )
            } else {
                Err(e)
            }
        },
        Err(reason) => {
            let message = if timed_out {
                "Prompts 本地文件操作超时且回收失败"
            } else {
                "Prompts 本地文件操作异常终止"
            };
            Err(
                AppError::new("PROMPT_TRANSFER_TIMEOUT", message).with_detail("operation", operation).with_detail(
                    "reason",
                    reason.as_str(),
                ),
            )
        },
    }
}

pub fn file_too_large_error(size: u64) -> (e: AppError)
    ensures
        e.code@ == "PROMPT_TRANSFER_TOO_LARGE"@,
        e.has_detail("sizeBytes"@, decimal(size as nat)),
        e.has_detail("limitBytes"@, decimal(67108864)),
{
    let size_text = decimal_string(size);
    let limit_text = decimal_string(PROMPT_TRANSFER_MAX_FILE_BYTES);
    proof {
        reveal_strlit("sizeBytes");
        reveal_strlit("limitBytes");
        assert("sizeBytes"@[0] != "limitBytes"@[0]);
    }
    AppError::new("PROMPT_TRANSFER_TOO_LARGE", "Prompts 文件超过 64 MiB 限制").with_detail(
        "sizeBytes",
        size_text.as_str(),
    ).with_detail("limitBytes", limit_text.as_str())
}

/// The bytes of a prompt file without a leading UTF-8 byte order mark.
pub open spec fn without_bom(b: Seq<u8>) -> Seq<u8> {
    if b.len() >= 3 && b[0] == 0xEF && b[1] == 0xBB && b[2] == 0xBF {
        b.skip(3)
    } else {
        b
    }
}

/// Drops a leading UTF-8 byte order mark before the document is parsed.
pub fn strip_utf8_bom(bytes: &[u8]) -> (r: Vec<u8>)
    ensures
        r@ == without_bom(bytes@),
{
    let start: usize = if bytes.len() >= 3 && bytes[0] == 0xEF && bytes[1] == 0xBB && bytes[2] == 0xBF {
        3
    } else {
        0
    };
    let mut out: Vec<u8> = Vec::new();
    let mut i: usize = start;
    while i < bytes.len()
        invariant
            start <= i <= bytes@.len(),
            out@ == bytes@.subrange(start as int, i as int),
        decreases bytes@.len() - i,
    {
        out.push(bytes[i]);
        assert(out@ =~= bytes@.subrange(start as int, i + 1));
        i = i + 1;
    }
    assert(bytes@.subrange(start as int, bytes@.len() as int) =~= without_bom(bytes@));
    out
}

/// The SHA-256 digest of some bytes, as `sha2::Sha256` computes it.
pub uninterp spec fn sha256(bytes: Seq<u8>) -> Seq<u8>;

/// Calls `sha2::Sha256::digest`; its 32-byte result is named `sha256`.
#[verifier::external_body]
fn sha256_digest(bytes: &[u8]) -> (r: [u8; 32])
    ensures
        r@ == sha256(bytes@),
{
    let digest = sha2::Sha256::digest(bytes);
    digest.into()
}

/// The lower-case hexadecimal SHA-256 of some bytes.
pub fn sha256_hex(bytes: &[u8]) -> (r: String)
    ensures
        r@ == hex_lower(sha256(bytes@)),
{
    let digest = sha256_digest(bytes);
    let d: &[u8] = &digest;
    to_hex_lower(d)
}

} // verus!
