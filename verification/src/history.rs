//! Codex history: text shortening, session and workspace paths, window
//! labels, and the order in which sessions are listed.
use vstd::prelude::*;

use crate::error::{AppError, AppResult, TaskOutcome};
use crate::oss::{extension_of, path_extension};
use crate::text::{
    chars_eq, chars_eq_str, chars_of, extend_chars, extend_str, is_ascii_alnum, is_prefix,
    is_windows_absolute, is_windows_absolute_path, lower, lower_chars, starts_with_chars,
    starts_with_str, string_from, trim, trim_chars, utf8_len,
};

verus! {

pub const CODEX_PROVIDER_ID: &'static str = "codex";

pub const HISTORY_WINDOW_PREFIX: &'static str = "codex_history_";

pub const MAX_MESSAGE_CHARS: usize = 12000;

pub const TITLE_MAX_CHARS: usize = 80;

pub const SUMMARY_MAX_CHARS: usize = 160;

/// A Codex session as listed.
#[derive(Debug)]
pub struct CodexHistorySession {
    pub provider_id: String,
    pub session_id: String,
    pub title: Option<String>,
    pub summary: Option<String>,
    pub project_dir: Option<String>,
    pub created_at: Option<String>,
    pub last_active_at: Option<String>,
    pub source_path: String,
    pub file_size_bytes: u64,
}

/// A session with the time (in milliseconds) it is ordered by.
#[derive(Debug)]
pub struct ParsedSession {
    pub session: CodexHistorySession,
    pub sort_ms: i64,
}

// ---------------------------------------------------------------------------
// Text
// ---------------------------------------------------------------------------

/// The bytes without their trailing line breaks (`\n` and `\r`).
pub open spec fn without_line_end(b: Seq<u8>) -> Seq<u8>
    decreases b.len(),
{
    if b.len() > 0 && (b.last() == 10 || b.last() == 13) {
        without_line_end(b.drop_last())
    } else {
        b
    }
}

pub fn trim_line_end(bytes: &[u8]) -> (r: Vec<u8>)
    ensures
        r@ == without_line_end(bytes@),
{
    let mut end: usize = bytes.len();
    assert(bytes@.take(end as int) =~= bytes@);
    while end > 0 && (bytes[end - 1] == 10 || bytes[end - 1] == 13)
        invariant
            end <= bytes@.len(),
            without_line_end(bytes@) == without_line_end(bytes@.take(end as int)),
        decreases end,
    {
        assert(bytes@.take(end as int).drop_last() =~= bytes@.take(end - 1));
        end = end - 1;
    }
    let mut out: Vec<u8> = Vec::new();
    let mut i: usize = 0;
    while i < end
        invariant
            i <= end <= bytes@.len(),
            out@ == bytes@.take(i as int),
        decreases end - i,
    {
        out.push(bytes[i]);
        assert(bytes@.take(i + 1) =~= bytes@.take(i as int).push(bytes@[i as int]));
        i = i + 1;
    }
    out
}

/// The trimmed text, cut to `max` characters with `...` appended when it
/// is longer.
pub open spec fn shortened(text: Seq<char>, max: nat) -> Seq<char> {
    let t = trim(text);
    if t.len() <= max {
        t
    } else {
        t.take(max as int) + "..."@
    }
}

pub fn truncate_chars(text: &str, max_chars: usize) -> (r: String)
    ensures
        r@ == shortened(text@, max_chars as nat),
{
    let t = trim_chars(text);
    if t.len() <= max_chars {
        return string_from(t.as_slice());
    }
    let mut out = crate::text::slice_chars(t.as_slice(), 0, max_chars);
    extend_str(&mut out, "...");
    assert(out@ =~= t@.take(max_chars as int) + "..."@);
    string_from(out.as_slice())
}

/// A message cut to `max` characters, with a note appended, and whether it
/// was cut.
pub open spec fn cut_message(text: Seq<char>, max: nat) -> (Seq<char>, bool) {
    if text.len() <= max {
        (text, false)
    } else {
        (text.take(max as int) + "\n\n[内容过长，已截断]"@, true)
    }
}

pub fn truncate_message_content(text: &str, max_chars: usize) -> (r: (String, bool))
    ensures
        (r.0@, r.1) == cut_message(text@, max_chars as nat),
{
    let t = chars_of(text);
    if t.len() <= max_chars {
        return (text.to_owned(), false);
    }
    let mut out = crate::text::slice_chars(t.as_slice(), 0, max_chars);
    extend_str(&mut out, "\n\n[内容过长，已截断]");
    assert(out@ =~= t@.take(max_chars as int) + "\n\n[内容过长，已截断]"@);
    (string_from(out.as_slice()), true)
}

// ---------------------------------------------------------------------------
// Paths
// ---------------------------------------------------------------------------

pub open spec fn is_slash(c: char) -> bool {
    c == '/' || c == '\\'
}

pub open spec fn without_trailing_slashes(s: Seq<char>) -> Seq<char>
    decreases s.len(),
{
    if s.len() > 0 && is_slash(s.last()) {
        without_trailing_slashes(s.drop_last())
    } else {
        s
    }
}

/// Index just after the last slash among the first `k` characters.
pub open spec fn after_last_slash(s: Seq<char>, k: int) -> int
    decreases k,
{
    if k <= 0 {
        0
    } else if is_slash(s[k - 1]) {
        k
    } else {
        after_last_slash(s, k - 1)
    }
}

/// The last segment of a path written with `/` or `\`, trailing slashes
/// ignored; none when it is blank.
pub open spec fn basename(value: Seq<char>) -> Option<Seq<char>> {
    let t = without_trailing_slashes(trim(value));
    let seg = t.skip(after_last_slash(t, t.len() as int));
    if t.len() == 0 || trim(seg).len() == 0 {
        None
    } else {
        Some(seg)
    }
}

pub fn path_basename(value: &str) -> (r: Option<String>)
    ensures
        match basename(value@) {
            Some(b) => r matches Some(s) && s@ == b,
            None => r is None,
        },
{
    let t = trim_chars(value);
    let mut end: usize = t.len();
    assert(t@.take(end as int) =~= t@);
    while end > 0 && (t[end - 1] == '/' || t[end - 1] == '\\')
        invariant
            end <= t@.len(),
            without_trailing_slashes(t@) == without_trailing_slashes(t@.take(end as int)),
        decreases end,
    {
        assert(t@.take(end as int).drop_last() =~= t@.take(end - 1));
        end = end - 1;
    }
    let ghost u = t@.take(end as int);
    assert(without_trailing_slashes(u) == u);
    if end == 0 {
        return None;
    }
    let mut start: usize = end;
    while start > 0 && !(t[start - 1] == '/' || t[start - 1] == '\\')
        invariant
            start <= end <= t@.len(),
            u == t@.take(end as int),
            after_last_slash(u, u.len() as int) == after_last_slash(u, start as int),
        decreases start,
    {
        start = start - 1;
    }
    let seg = crate::text::slice_chars(t.as_slice(), start, end);
    assert(seg@ =~= u.skip(start as int));
    let seg_trimmed = crate::text::trim_slice(seg.as_slice());
    if seg_trimmed.len() == 0 {
        return None;
    }
    Some(string_from(seg.as_slice()))
}

/// The path without a `\\?\` (or `\\?\UNC\`) verbatim prefix.
pub open spec fn without_verbatim(p: Seq<char>) -> Seq<char> {
    if is_prefix("\\\\?\\UNC\\"@, p) {
        "\\\\"@ + p.skip(8)
    } else if is_prefix("\\\\?\\"@, p) {
        p.skip(4)
    } else {
        p
    }
}

fn strip_verbatim(p: &[char]) -> (r: Vec<char>)
    ensures
        r@ == without_verbatim(p@),
{
    proof {
        reveal_strlit("\\\\?\\UNC\\");
        reveal_strlit("\\\\?\\");
        reveal_strlit("\\\\");
    }
    if starts_with_str(p, "\\\\?\\UNC\\") {
        let mut out = chars_of("\\\\");
        let rest = crate::text::slice_chars(p, 8, p.len());
        extend_chars(&mut out, rest.as_slice());
        return out;
    }
    if starts_with_str(p, "\\\\?\\") {
        return crate::text::slice_chars(p, 4, p.len());
    }
    let mut out: Vec<char> = Vec::new();
    extend_chars(&mut out, p);
    out
}

pub fn normalize_display_path(path: String) -> (r: String)
    ensures
        r@ == without_verbatim(path@),
{
    let p = chars_of(path.as_str());
    let out = strip_verbatim(p.as_slice());
    string_from(out.as_slice())
}

pub open spec fn slashes_to_backslashes(s: Seq<char>) -> Seq<char> {
    Seq::new(s.len(), |i: int| if s[i] == '/' { '\\' } else { s[i] })
}

/// Drops trailing backslashes while the path is longer than three bytes.
pub open spec fn without_trailing_backslashes(s: Seq<char>) -> Seq<char>
    decreases s.len(),
{
    if utf8_len(s) > 3 && s.len() > 0 && s.last() == '\\' {
        without_trailing_backslashes(s.drop_last())
    } else {
        s
    }
}

/// A Windows path in the form it is compared in: trimmed, with `\`
/// separators, no verbatim prefix, no trailing separator (a root such as
/// `C:\` keeps its own), lower-cased (ASCII).
pub open spec fn compare_path(p: Seq<char>) -> Seq<char> {
    lower(without_trailing_backslashes(without_verbatim(slashes_to_backslashes(trim(p)))))
}

pub fn normalize_compare_path(path: &str) -> (r: String)
    ensures
        r@ == compare_path(path@),
{
    let t = trim_chars(path);
    let mut swapped: Vec<char> = Vec::new();
    let mut i: usize = 0;
    while i < t.len()
        invariant
            i <= t@.len(),
            swapped@ == slashes_to_backslashes(t@).take(i as int),
        decreases t@.len() - i,
    {
        let c = t[i];
        swapped.push(if c == '/' { '\\' } else { c });
        assert(slashes_to_backslashes(t@).take(i + 1) =~= slashes_to_backslashes(t@).take(i as int).push(
            slashes_to_backslashes(t@)[i as int],
        ));
        i = i + 1;
    }
    assert(slashes_to_backslashes(t@).take(t@.len() as int) =~= slashes_to_backslashes(t@));
    let mut value = strip_verbatim(swapped.as_slice());
    let ghost v0 = value@;
    while crate::text::utf8_len_exceeds(value.as_slice(), 3) && value.len() > 0 && value[value.len() - 1]
        == '\\'
        invariant
            without_trailing_backslashes(v0) == without_trailing_backslashes(value@),
        decreases value@.len(),
    {
        let ghost before = value@;
        value.pop();
        assert(before.drop_last() =~= value@);
    }
    let lowered = lower_chars(value.as_slice());
    string_from(lowered.as_slice())
}

/// A path lies in a workspace when it is the workspace directory or below
/// it, compared in normal form.
pub open spec fn under_workspace(path: Seq<char>, workspace_compare_path: Seq<char>) -> bool {
    let c = compare_path(path);
    c == workspace_compare_path || is_prefix(workspace_compare_path + "\\"@, c)
}

pub fn path_is_under_workspace(path: &str, workspace_compare_path: &str) -> (r: bool)
    ensures
        r == under_workspace(path@, workspace_compare_path@),
{
    let candidate = normalize_compare_path(path);
    let c = chars_of(candidate.as_str());
    let w = chars_of(workspace_compare_path);
    if chars_eq(c.as_slice(), w.as_slice()) {
        return true;
    }
    let mut prefix = w;
    prefix.push('\\');
    proof {
        reveal_strlit("\\");
        assert(prefix@ =~= workspace_compare_path@ + "\\"@);
    }
    starts_with_chars(c.as_slice(), prefix.as_slice())
}

/// The label of the history window of a workspace: the prefix, then the
/// workspace id with every character that is not an ASCII letter or digit
/// replaced by `_`.
pub open spec fn window_label(workspace_id: Seq<char>) -> Seq<char> {
    "codex_history_"@ + Seq::new(
        workspace_id.len(),
        |i: int| if is_ascii_alnum(workspace_id[i]) { workspace_id[i] } else { '_' },
    )
}

pub fn history_window_label(workspace_id: &str) -> (r: String)
    ensures
        r@ == window_label(workspace_id@),
{
    let id = chars_of(workspace_id);
    let mut out = chars_of(HISTORY_WINDOW_PREFIX);
    let ghost prefix = out@;
    let mut i: usize = 0;
    while i < id.len()
        invariant
            i <= id@.len(),
            prefix == "codex_history_"@,
            out@.len() == prefix.len() + i,
            out@.take(prefix.len() as int) == prefix,
            forall|k: int|
                0 <= k < i ==> out@[prefix.len() + k] == (if is_ascii_alnum(id@[k]) {
                    id@[k]
                } else {
                    '_'
                }),
        decreases id@.len() - i,
    {
        let c = id[i];
        let alnum = ('0' <= c && c <= '9') || ('A' <= c && c <= 'Z') || ('a' <= c && c <= 'z');
        out.push(if alnum { c } else { '_' });
        i = i + 1;
    }
    assert(out@ =~= window_label(workspace_id@));
    string_from(out.as_slice())
}

// ---------------------------------------------------------------------------
// Session roots
// ---------------------------------------------------------------------------

/// The Codex homes whose `sessions` directories are searched: the
/// `CODEX_HOME` setting when it is set and not blank (trimmed; otherwise the
/// user's `.codex` directory is used), then the home of every profile that
/// is not blank, in order.
pub open spec fn root_homes(codex_home_env: Option<Seq<char>>, profile_homes: Seq<Seq<char>>) -> (
    Option<Seq<char>>,
    Seq<Seq<char>>,
) {
    (
        match codex_home_env {
            Some(h) => if trim(h).len() > 0 {
                Some(trim(h))
            } else {
                None
            },
            None => None,
        },
        profile_homes.filter(|h: Seq<char>| trim(h).len() > 0),
    )
}

pub open spec fn texts(v: Seq<String>) -> Seq<Seq<char>> {
    v.map_values(|s: String| s@)
}

/// The Codex homes to search (see `root_homes`).
pub fn session_root_homes(codex_home_env: &Option<String>, profile_homes: &Vec<String>) -> (r: (
    Option<String>,
    Vec<String>,
))
    ensures
        (match r.0 {
            Some(h) => Some(h@),
            None => None,
        }, texts(r.1@)) == root_homes(
            match codex_home_env {
                Some(h) => Some(h@),
                None => None,
            },
            texts(profile_homes@),
        ),
{
    let env = match codex_home_env {
        Some(h) => {
            let t = trim_chars(h.as_str());
            if t.len() > 0 {
                Some(string_from(t.as_slice()))
            } else {
                None
            }
        },
        None => None,
    };
    let ghost f = |h: Seq<char>| trim(h).len() > 0;
    let mut kept: Vec<String> = Vec::new();
    let mut i: usize = 0;
    while i < profile_homes.len()
        invariant
            i <= profile_homes@.len(),
            f == (|h: Seq<char>| trim(h).len() > 0),
            texts(kept@) == texts(profile_homes@).take(i as int).filter(f),
        decreases profile_homes@.len() - i,
    {
        let ghost before = texts(profile_homes@).take(i as int);
        let ghost x = profile_homes@[i as int]@;
        let ghost prev = texts(kept@);
        assert(texts(profile_homes@).take(i + 1) =~= before.push(x));
        proof {
            reveal(Seq::filter);
            assert(before.push(x).drop_last() =~= before);
            assert(before.push(x).last() == x);
            assert(before.push(x).filter(f) == (if f(x) {
                before.filter(f).push(x)
            } else {
                before.filter(f)
            }));
        }
        let t = trim_chars(profile_homes[i].as_str());
        assert(f(x) == (t@.len() > 0));
        if t.len() > 0 {
            let home = profile_homes[i].clone();
            kept.push(home);
            assert(texts(kept@) =~= prev.push(x));
        }
        assert(texts(kept@) == texts(profile_homes@).take(i + 1).filter(f));
        i = i + 1;
    }
    assert(texts(profile_homes@).take(profile_homes@.len() as int) =~= texts(profile_homes@));
    (env, kept)
}

/// The resolved session roots without repeats: a root is kept unless an
/// earlier one compares equal to it (see `compare_path`).
pub open spec fn distinct_roots_of(roots: Seq<Seq<char>>) -> Seq<Seq<char>>
    decreases roots.len(),
{
    if roots.len() == 0 {
        Seq::empty()
    } else {
        let kept = distinct_roots_of(roots.drop_last());
        if exists|i: int| 0 <= i < roots.len() - 1 && compare_path(#[trigger] roots[i]) == compare_path(
            roots.last(),
        ) {
            kept
        } else {
            kept.push(roots.last())
        }
    }
}

/// Drops the roots that compare equal to an earlier one.
pub fn distinct_session_roots(roots: &Vec<String>) -> (r: Vec<String>)
    ensures
        texts(r@) == distinct_roots_of(texts(roots@)),
{
    let mut keys: Vec<String> = Vec::new();
    let mut kept: Vec<String> = Vec::new();
    let mut i: usize = 0;
    while i < roots.len()
        invariant
            i <= roots@.len(),
            keys@.len() == i,
            forall|k: int| 0 <= k < i ==> (#[trigger] keys@[k])@ == compare_path(roots@[k]@),
            texts(kept@) == distinct_roots_of(texts(roots@).take(i as int)),
        decreases roots@.len() - i,
    {
        let key = normalize_compare_path(roots[i].as_str());
        let mut seen = false;
        let mut j: usize = 0;
        while j < i
            invariant
                j <= i,
                i < roots@.len(),
                keys@.len() == i,
                forall|k: int| 0 <= k < i ==> (#[trigger] keys@[k])@ == compare_path(roots@[k]@),
                key@ == compare_path(roots@[i as int]@),
                seen == exists|k: int| 0 <= k < j && (#[trigger] keys@[k])@ == key@,
            decreases i - j,
        {
            if keys[j].eq(&key) {
                seen = true;
            }
            j = j + 1;
        }
        let ghost t = texts(roots@).take(i + 1);
        assert(t.drop_last() =~= texts(roots@).take(i as int));
        assert(t.last() == roots@[i as int]@);
        assert(seen == exists|k: int| 0 <= k < t.len() - 1 && compare_path(#[trigger] t[k]) == compare_path(
            t.last(),
        )) by {
            if seen {
                let k = choose|k: int| 0 <= k < i && (#[trigger] keys@[k])@ == key@;
                assert(t[k] == roots@[k]@);
            }
            if exists|k: int| 0 <= k < t.len() - 1 && compare_path(#[trigger] t[k]) == compare_path(t.last()) {
                let k = choose|k: int| 0 <= k < t.len() - 1 && compare_path(#[trigger] t[k]) == compare_path(
                    t.last(),
                );
                assert(t[k] == roots@[k]@);
                assert(keys@[k]@ == key@);
            }
        }
        if !seen {
            kept.push(roots[i].clone());
            assert(texts(kept@) =~= distinct_roots_of(t));
        }
        keys.push(key);
        i = i + 1;
    }
    assert(texts(roots@).take(roots@.len() as int) =~= texts(roots@));
    kept
}

/// Messages in a page when none is asked for, and at most.
pub const DEFAULT_MESSAGE_LIMIT: usize = 40;

pub const MAX_MESSAGE_LIMIT: usize = 120;

/// The number of messages a page holds: the one asked for (40 when none
/// is), kept between 1 and 120.
pub fn message_limit(requested: Option<usize>) -> (r: usize)
    ensures
        r == (match requested {
            Some(n) => if n < 1 {
                1
            } else if n > 120 {
                120
            } else {
                n
            },
            None => 40,
        }),
{
    let n = match requested {
        Some(n) => n,
        None => DEFAULT_MESSAGE_LIMIT,
    };
    if n < 1 {
        1
    } else if n > MAX_MESSAGE_LIMIT {
        MAX_MESSAGE_LIMIT
    } else {
        n
    }
}

/// Why the path of a session to read is refused before it is resolved on
/// disk: blank, not absolute, or not a `.jsonl` file.
pub enum SourcePathRejection {
    Missing,
    NotAbsolute,
    NotJsonl,
}

pub open spec fn source_path_rejection(v: Seq<char>) -> Option<SourcePathRejection> {
    let t = trim(v);
    if t.len() == 0 {
        Some(SourcePathRejection::Missing)
    } else if !is_windows_absolute(t) {
        Some(SourcePathRejection::NotAbsolute)
    } else if path_extension(t) != Some("jsonl"@) {
        Some(SourcePathRejection::NotJsonl)
    } else {
        None
    }
}

/// Checks the path of a session to read and returns it trimmed; it must
/// still be resolved among the known session roots.
pub fn check_session_source_path(source_path: &str) -> (r: AppResult<String>)
    ensures
        match source_path_rejection(source_path@) {
            None => r matches Ok(p) && p@ == trim(source_path@),
            Some(SourcePathRejection::Missing) => r matches Err(e) && e.code@ == "VALIDATION_ERROR"@
                && e.message@ == "sourcePath is required"@,
            Some(SourcePathRejection::NotAbsolute) => r matches Err(e) && e.code@
                == "CODEX_HISTORY_SOURCE_INVALID"@ && e.message@ == "sourcePath must be absolute"@
                && e.detail_map() == map!["sourcePath"@ => trim(source_path@)],
            Some(SourcePathRejection::NotJsonl) => r matches Err(e) && e.code@
                == "CODEX_HISTORY_SOURCE_INVALID"@ && e.message@
                == "sourcePath must point to a Codex JSONL session"@ && e.detail_map() == map![
                "sourcePath"@ => trim(source_path@),
            ],
        },
{
    let t = trim_chars(source_path);
    if t.len() == 0 {
        return Err(AppError::validation("sourcePath is required"));
    }
    let text = string_from(t.as_slice());
    if !is_windows_absolute_path(t.as_slice()) {
        return Err(
            AppError::new("CODEX_HISTORY_SOURCE_INVALID", "sourcePath must be absolute").with_detail(
                "sourcePath",
                text.as_str(),
            ),
        );
    }
    let jsonl = match extension_of(t.as_slice()) {
        Some(ext) => chars_eq_str(ext.as_slice(), "jsonl"),
        None => false,
    };
    if !jsonl {
        return Err(
            AppError::new(
                "CODEX_HISTORY_SOURCE_INVALID",
                "sourcePath must point to a Codex JSONL session",
            ).with_detail("sourcePath", text.as_str()),
        );
    }
    Ok(text)
}

/// The result of a history operation named `operation` run with a time
/// limit: its own result when it finished; otherwise
/// `CODEX_HISTORY_TASK_FAILED` with the reason, or the retryable
/// `CODEX_HISTORY_TIMEOUT` (the operation is then told to stop).
pub fn history_task_result<T>(operation: &str, outcome: TaskOutcome<T>) -> (r: AppResult<T>)
    ensures
        match outcome {
            TaskOutcome::Finished(result) => r == result,
            TaskOutcome::Aborted(reason) => r matches Err(e) && e.code@ == "CODEX_HISTORY_TASK_FAILED"@
                && e.message@ == "codex history task join failed"@ && e.retryable is None
                && e.detail_map() == map!["operation"@ => operation@, "reason"@ => reason@],
            TaskOutcome::TimedOut => r matches Err(e) && e.code@ == "CODEX_HISTORY_TIMEOUT"@
                && e.message@ == "codex history operation timed out"@ && e.retryable == Some(true)
                && e.detail_map() == map!["operation"@ => operation@],
        },
{
    proof {
        crate::error::lemma_detail_keys_distinct();
        reveal_strlit("operation");
        reveal_strlit("reason");
        assert("operation"@.len() != "reason"@.len());
    }
    match outcome {
        TaskOutcome::Finished(result) => result,
        TaskOutcome::Aborted(reason) => Err(
            AppError::new("CODEX_HISTORY_TASK_FAILED", "codex history task join failed").with_detail(
                "operation",
                operation,
            ).with_detail("reason", reason.as_str()),
        ),
        TaskOutcome::TimedOut => Err(
            AppError::new("CODEX_HISTORY_TIMEOUT", "codex history operation timed out").with_detail(
                "operation",
                operation,
            ).retryable(true),
        ),
    }
}

pub fn check_cancelled(cancelled: bool) -> (r: AppResult<()>)
    ensures
        r is Ok <==> !cancelled,
        r matches Err(e) ==> e.code@ == "CODEX_HISTORY_CANCELLED"@ && e.retryable == Some(true),
{
    if cancelled {
        return Err(
            AppError::new("CODEX_HISTORY_CANCELLED", "codex history operation was cancelled").retryable(true),
        );
    }
    Ok(())
}

// ---------------------------------------------------------------------------
// Session order
// ---------------------------------------------------------------------------

/// Stable insertion of `x` into `s`, newest first.
pub open spec fn insert_newest_first(s: Seq<ParsedSession>, x: ParsedSession) -> Seq<ParsedSession>
    decreases s.len(),
{
    if s.len() == 0 {
        seq![x]
    } else if s.last().sort_ms >= x.sort_ms {
        s.push(x)
    } else {
        insert_newest_first(s.drop_last(), x).push(s.last())
    }
}

/// The sessions in the order of a stable sort, newest first.
pub open spec fn newest_first(s: Seq<ParsedSession>) -> Seq<ParsedSession>
    decreases s.len(),
{
    if s.len() == 0 {
        Seq::empty()
    } else {
        insert_newest_first(newest_first(s.drop_last()), s.last())
    }
}

proof fn lemma_insert_newest_at(s: Seq<ParsedSession>, x: ParsedSession, j: int)
    requires
        0 <= j <= s.len(),
        forall|m: int| j <= m < s.len() ==> (#[trigger] s[m]).sort_ms < x.sort_ms,
        j == 0 || s[j - 1].sort_ms >= x.sort_ms,
    ensures
        insert_newest_first(s, x) == s.insert(j, x),
    decreases s.len() - j,
{
    if j == s.len() {
        assert(s.insert(j, x) =~= s.push(x));
    } else {
        let t = s.drop_last();
        assert forall|m: int| j <= m < t.len() implies (#[trigger] t[m]).sort_ms < x.sort_ms by {
            assert(t[m] == s[m]);
        }
        if j > 0 {
            assert(t[j - 1] == s[j - 1]);
        }
        lemma_insert_newest_at(t, x, j);
        assert(t.insert(j, x).push(s.last()) =~= s.insert(j, x));
    }
}

fn sort_newest_first(input: Vec<ParsedSession>) -> (r: Vec<ParsedSession>)
    ensures
        r@ == newest_first(input@),
{
    let ghost orig = input@;
    let mut rest = input;
    let mut out: Vec<ParsedSession> = Vec::new();
    let mut k: usize = 0;
    let n = rest.len();
    while k < n
        invariant
            k <= n == orig.len(),
            rest@ == orig.skip(k as int),
            out@ == newest_first(orig.take(k as int)),
        decreases n - k,
    {
        let x = rest.remove(0);
        assert(x == orig[k as int]);
        let mut j: usize = out.len();
        while j > 0 && out[j - 1].sort_ms < x.sort_ms
            invariant
                j <= out@.len(),
                forall|m: int| j <= m < out@.len() ==> (#[trigger] out@[m]).sort_ms < x.sort_ms,
            decreases j,
        {
            j = j - 1;
        }
        proof {
            lemma_insert_newest_at(out@, x, j as int);
            assert(orig.take(k + 1).drop_last() =~= orig.take(k as int));
            assert(orig.take(k + 1).last() == x);
            assert(orig.skip(k as int).remove(0) =~= orig.skip(k + 1));
        }
        out.insert(j, x);
        k = k + 1;
    }
    assert(orig.take(n as int) =~= orig);
    out
}

pub open spec fn sessions_of(s: Seq<ParsedSession>) -> Seq<CodexHistorySession> {
    s.map_values(|p: ParsedSession| p.session)
}

/// The sessions, newest first (sessions with equal times keep their
/// order).
pub fn order_sessions(parsed: Vec<ParsedSession>) -> (r: Vec<CodexHistorySession>)
    ensures
        r@ == sessions_of(newest_first(parsed@)),
{
    let sorted = sort_newest_first(parsed);
    let ghost s = sorted@;
    let mut rest = sorted;
    let mut out: Vec<CodexHistorySession> = Vec::new();
    let mut k: usize = 0;
    let n = rest.len();
    while k < n
        invariant
            k <= n == s.len(),
            rest@ == s.skip(k as int),
            out@ == sessions_of(s.take(k as int)),
        decreases n - k,
    {
        let p = rest.remove(0);
        assert(p == s[k as int]);
        assert(s.skip(k as int).remove(0) =~= s.skip(k + 1));
        out.push(p.session);
        assert(sessions_of(s.take(k + 1)) =~= sessions_of(s.take(k as int)).push(s[k as int].session));
        k = k + 1;
    }
    assert(s.take(n as int) =~= s);
    out
}

/// The sessions whose project directory lies in the workspace.
pub open spec fn in_workspace(s: Seq<ParsedSession>, ws: Seq<char>) -> Seq<ParsedSession> {
    s.filter(|p: ParsedSession| p.session.project_dir matches Some(d) && under_workspace(d@, ws))
}

/// The sessions of a workspace, newest first.
pub fn select_workspace_sessions(parsed: Vec<ParsedSession>, workspace_compare_path: &str) -> (r: Vec<
    CodexHistorySession,
>)
    ensures
        r@ == sessions_of(newest_first(in_workspace(parsed@, workspace_compare_path@))),
{
    let ghost orig = parsed@;
    let ghost ws = workspace_compare_path@;
    let mut rest = parsed;
    let mut kept: Vec<ParsedSession> = Vec::new();
    let mut k: usize = 0;
    let n = rest.len();
    while k < n
        invariant
            k <= n == orig.len(),
            ws == workspace_compare_path@,
            rest@ == orig.skip(k as int),
            kept@ == in_workspace(orig.take(k as int), ws),
        decreases n - k,
    {
        let p = rest.remove(0);
        assert(p == orig[k as int]);
        assert(orig.skip(k as int).remove(0) =~= orig.skip(k + 1));
        let keep = match &p.session.project_dir {
            Some(d) => path_is_under_workspace(d.as_str(), workspace_compare_path),
            None => false,
        };
        proof {
            assert(orig.take(k + 1).drop_last() =~= orig.take(k as int));
            reveal(Seq::filter);
        }
        if keep {
            kept.push(p);
        }
        k = k + 1;
    }
    assert(orig.take(n as int) =~= orig);
    order_sessions(kept)
}

} // verus!
