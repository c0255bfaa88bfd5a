//! Reading Codex session files: timestamps, the session listed for a file
//! from its first and last lines, and the message a line records.
//!
//! The caller reads the lines and parses each as JSON; a line that is not
//! JSON is given as `None`.
use vstd::prelude::*;

use crate::error::{AppError, AppResult};
use crate::history::{
    basename, cut_message, path_basename, shortened, truncate_chars, truncate_message_content,
    without_verbatim, normalize_display_path, CodexHistorySession, ParsedSession,
    CODEX_PROVIDER_ID, MAX_MESSAGE_CHARS, SUMMARY_MAX_CHARS, TITLE_MAX_CHARS,
};
use crate::ids::is_uuid;
use crate::ids::uuid_parse_bytes;
use crate::json::{
    content_text, extract_text, find_key_from, get, get_str, json_get, str_member, JsonValue,
};
use crate::text::{chars_of, is_prefix, slice_chars, starts_with_str, string_from, trim, trim_chars};
use crate::timestamps::{format_utc_millis, parse_rfc3339_millis, rfc3339_millis, utc_rfc3339_of_millis};

verus! {

// ---------------------------------------------------------------------------
// Timestamps
// ---------------------------------------------------------------------------

/// A time read from a session line: milliseconds since the epoch and its
/// RFC 3339 text.
#[derive(Debug)]
pub struct TimestampValue {
    pub ms: i64,
    pub display: String,
}

/// The milliseconds a timestamp value stands for: a number above 10^12 is
/// taken as milliseconds and any other as seconds (none when that overflows),
/// a string as an RFC 3339 time.
pub open spec fn timestamp_millis_of(v: JsonValue) -> Option<i64> {
    match v {
        JsonValue::Number(n) => if n > 1_000_000_000_000 {
            Some(n)
        } else if i64::MIN <= n * 1000 {
            Some((n * 1000) as i64)
        } else {
            None
        },
        JsonValue::Text(t) => rfc3339_millis(t@),
        _ => None,
    }
}

/// The milliseconds and RFC 3339 text of a timestamp value, when it has a
/// time that can be written.
pub open spec fn timestamp_of(v: JsonValue) -> Option<(i64, Seq<char>)> {
    match timestamp_millis_of(v) {
        Some(ms) => match utc_rfc3339_of_millis(ms) {
            Some(d) => Some((ms, d)),
            None => None,
        },
        None => None,
    }
}

pub open spec fn ts_view(t: Option<TimestampValue>) -> Option<(i64, Seq<char>)> {
    match t {
        Some(t) => Some((t.ms, t.display@)),
        None => None,
    }
}

/// Reads a timestamp value (see `timestamp_of`).
pub fn parse_timestamp_value(value: &JsonValue) -> (r: Option<TimestampValue>)
    ensures
        ts_view(r) == timestamp_of(*value),
{
    let ms: i64 = match value {
        JsonValue::Number(n) => {
            if *n > 1_000_000_000_000 {
                *n
            } else {
                match n.checked_mul(1000) {
                    Some(m) => m,
                    None => {
                        return None;
                    },
                }
            }
        },
        JsonValue::Text(raw) => match parse_rfc3339_millis(raw.as_str()) {
            Some(m) => m,
            None => {
                return None;
            },
        },
        _ => {
            return None;
        },
    };
    match format_utc_millis(ms) {
        Some(display) => Some(TimestampValue { ms, display }),
        None => None,
    }
}

/// The time in a member of a line, if the member is there and is a time.
pub open spec fn member_time(v: JsonValue, key: Seq<char>) -> Option<(i64, Seq<char>)> {
    match json_get(v, key) {
        Some(t) => timestamp_of(t),
        None => None,
    }
}

fn member_timestamp(v: &JsonValue, key: &str) -> (r: Option<TimestampValue>)
    ensures
        ts_view(r) == member_time(*v, key@),
{
    match get(v, key) {
        Some(t) => parse_timestamp_value(t),
        None => None,
    }
}

// ---------------------------------------------------------------------------
// The first present value of a sequence
// ---------------------------------------------------------------------------

/// The first value present in `s`.
pub open spec fn first_some<T>(s: Seq<Option<T>>) -> Option<T>
    decreases s.len(),
{
    if s.len() == 0 {
        None
    } else {
        match first_some(s.drop_last()) {
            Some(x) => Some(x),
            None => s.last(),
        }
    }
}

/// The last value present in `s`.
pub open spec fn last_some<T>(s: Seq<Option<T>>) -> Option<T>
    decreases s.len(),
{
    if s.len() == 0 {
        None
    } else {
        match last_some(s.drop_first()) {
            Some(x) => Some(x),
            None => s[0],
        }
    }
}

// ---------------------------------------------------------------------------
// Lines
// ---------------------------------------------------------------------------

/// Whether the line's `type` is `t`.
pub open spec fn line_type_is(v: JsonValue, t: Seq<char>) -> bool {
    str_member(v, "type"@) == Some(t)
}

/// The payload of a `session_meta` line.
pub open spec fn meta_payload(v: JsonValue) -> Option<JsonValue> {
    if line_type_is(v, "session_meta"@) {
        json_get(v, "payload"@)
    } else {
        None
    }
}

/// Whether a line is the metadata of a subagent session: its payload's
/// `source` is an object with a `subagent` member.
pub open spec fn is_subagent_meta(line: Option<JsonValue>) -> bool {
    match line {
        Some(v) => match meta_payload(v) {
            Some(p) => match json_get(p, "source"@) {
                Some(JsonValue::Object(es)) => find_key_from(es@, "subagent"@, 0) is Some,
                _ => false,
            },
            None => false,
        },
        None => false,
    }
}

/// The creation time a head line offers: its own `timestamp`, else that of
/// its metadata payload.
pub open spec fn created_candidate(line: Option<JsonValue>) -> Option<(i64, Seq<char>)> {
    match line {
        Some(v) => match member_time(v, "timestamp"@) {
            Some(t) => Some(t),
            None => match meta_payload(v) {
                Some(p) => member_time(p, "timestamp"@),
                None => None,
            },
        },
        None => None,
    }
}

/// A string member of a line's metadata payload.
pub open spec fn meta_member(line: Option<JsonValue>, key: Seq<char>) -> Option<Seq<char>> {
    match line {
        Some(v) => match meta_payload(v) {
            Some(p) => str_member(p, key),
            None => None,
        },
        None => None,
    }
}

/// The payload of a `response_item` line that is a `message`.
pub open spec fn message_payload(line: Option<JsonValue>) -> Option<JsonValue> {
    match line {
        Some(v) => if line_type_is(v, "response_item"@) {
            match json_get(v, "payload"@) {
                Some(p) => if str_member(p, "type"@) == Some("message"@) {
                    Some(p)
                } else {
                    None
                },
                None => None,
            }
        } else {
            None
        },
        None => None,
    }
}

/// The text of a payload's `content` (empty when there is none).
pub open spec fn payload_text(p: JsonValue) -> Seq<char> {
    match json_get(p, "content"@) {
        Some(c) => extract_text(c),
        None => Seq::empty(),
    }
}

/// What a head line offers as the first user message: the trimmed text of
/// a user message that is not blank and is not injected context.
pub open spec fn user_message_candidate(line: Option<JsonValue>) -> Option<Seq<char>> {
    match message_payload(line) {
        Some(p) => if str_member(p, "role"@) == Some("user"@) {
            let t = trim(payload_text(p));
            if t.len() > 0 && !is_prefix("# AGENTS.md"@, t) && !is_prefix(
                "<environment_context>"@,
                t,
            ) {
                Some(t)
            } else {
                None
            }
        } else {
            None
        },
        None => None,
    }
}

/// What a tail line offers as the summary: the shortened text of a message
/// that is not blank.
pub open spec fn summary_candidate(line: Option<JsonValue>) -> Option<Seq<char>> {
    match message_payload(line) {
        Some(p) => if trim(payload_text(p)).len() > 0 {
            Some(shortened(payload_text(p), SUMMARY_MAX_CHARS as nat))
        } else {
            None
        },
        None => None,
    }
}

/// The last-activity time a tail line offers.
pub open spec fn active_candidate(line: Option<JsonValue>) -> Option<(i64, Seq<char>)> {
    match line {
        Some(v) => member_time(v, "timestamp"@),
        None => None,
    }
}

pub open spec fn created_at_of(head: Seq<Option<JsonValue>>) -> Option<(i64, Seq<char>)> {
    first_some(head.map_values(|l: Option<JsonValue>| created_candidate(l)))
}

pub open spec fn meta_id_of(head: Seq<Option<JsonValue>>) -> Option<Seq<char>> {
    first_some(head.map_values(|l: Option<JsonValue>| meta_member(l, "id"@)))
}

pub open spec fn project_dir_of(head: Seq<Option<JsonValue>>) -> Option<Seq<char>> {
    first_some(head.map_values(|l: Option<JsonValue>| meta_member(l, "cwd"@)))
}

pub open spec fn first_user_message_of(head: Seq<Option<JsonValue>>) -> Option<Seq<char>> {
    first_some(head.map_values(|l: Option<JsonValue>| user_message_candidate(l)))
}

pub open spec fn last_active_of(tail: Seq<Option<JsonValue>>) -> Option<(i64, Seq<char>)> {
    last_some(tail.map_values(|l: Option<JsonValue>| active_candidate(l)))
}

pub open spec fn summary_of(tail: Seq<Option<JsonValue>>) -> Option<Seq<char>> {
    last_some(tail.map_values(|l: Option<JsonValue>| summary_candidate(l)))
}

proof fn lemma_last_some_none<T>(s: Seq<Option<T>>)
    requires
        forall|m: int| 0 <= m < s.len() ==> (#[trigger] s[m]) is None,
    ensures
        last_some(s) is None,
    decreases s.len(),
{
    if s.len() > 0 {
        assert forall|m: int| 0 <= m < s.drop_first().len() implies (#[trigger] s.drop_first()[m]) is None by {
            assert(s.drop_first()[m] == s[m + 1]);
        }
        lemma_last_some_none(s.drop_first());
    }
}

proof fn lemma_last_some_at<T>(s: Seq<Option<T>>, j: int)
    requires
        0 <= j < s.len(),
        s[j] is Some,
        forall|m: int| j < m < s.len() ==> (#[trigger] s[m]) is None,
    ensures
        last_some(s) == s[j],
    decreases s.len(),
{
    let t = s.drop_first();
    if j == 0 {
        assert forall|m: int| 0 <= m < t.len() implies (#[trigger] t[m]) is None by {
            assert(t[m] == s[m + 1]);
        }
        lemma_last_some_none(t);
    } else {
        assert forall|m: int| j - 1 < m < t.len() implies (#[trigger] t[m]) is None by {
            assert(t[m] == s[m + 1]);
        }
        assert(t[j - 1] == s[j]);
        lemma_last_some_at(t, j - 1);
    }
}

proof fn lemma_first_some_none<T>(s: Seq<Option<T>>)
    requires
        forall|m: int| 0 <= m < s.len() ==> (#[trigger] s[m]) is None,
    ensures
        first_some(s) is None,
    decreases s.len(),
{
    if s.len() > 0 {
        assert forall|m: int| 0 <= m < s.drop_last().len() implies (#[trigger] s.drop_last()[m]) is None by {
            assert(s.drop_last()[m] == s[m]);
        }
        lemma_first_some_none(s.drop_last());
    }
}

proof fn lemma_first_some_at<T>(s: Seq<Option<T>>, j: int)
    requires
        0 <= j < s.len(),
        s[j] is Some,
        forall|m: int| 0 <= m < j ==> (#[trigger] s[m]) is None,
    ensures
        first_some(s) == s[j],
    decreases s.len(),
{
    let t = s.drop_last();
    if j == s.len() - 1 {
        assert forall|m: int| 0 <= m < t.len() implies (#[trigger] t[m]) is None by {
            assert(t[m] == s[m]);
        }
        lemma_first_some_none(t);
    } else {
        assert forall|m: int| 0 <= m < j implies (#[trigger] t[m]) is None by {
            assert(t[m] == s[m]);
        }
        assert(t[j] == s[j]);
        lemma_first_some_at(t, j);
    }
}

/// The summary is the latest message of the tail: the summary that line
/// `j` offers when no later line offers one.
pub proof fn law_summary_is_latest_message(tail: Seq<Option<JsonValue>>, j: int)
    requires
        0 <= j < tail.len(),
        summary_candidate(tail[j]) is Some,
        forall|m: int| j < m < tail.len() ==> summary_candidate(#[trigger] tail[m]) is None,
    ensures
        summary_of(tail) == summary_candidate(tail[j]),
{
    let s = tail.map_values(|l: Option<JsonValue>| summary_candidate(l));
    assert forall|m: int| j < m < s.len() implies (#[trigger] s[m]) is None by {
        assert(s[m] == summary_candidate(tail[m]));
    }
    lemma_last_some_at(s, j);
}

/// A tail in which no line offers a message gives no summary.
pub proof fn law_no_message_no_summary(tail: Seq<Option<JsonValue>>)
    requires
        forall|m: int| 0 <= m < tail.len() ==> summary_candidate(#[trigger] tail[m]) is None,
    ensures
        summary_of(tail) is None,
{
    let s = tail.map_values(|l: Option<JsonValue>| summary_candidate(l));
    assert forall|m: int| 0 <= m < s.len() implies (#[trigger] s[m]) is None by {
        assert(s[m] == summary_candidate(tail[m]));
    }
    lemma_last_some_none(s);
}

/// The last activity is the latest time stamp of the tail: the one that
/// line `j` offers when no later line offers one.
pub proof fn law_last_active_is_latest(tail: Seq<Option<JsonValue>>, j: int)
    requires
        0 <= j < tail.len(),
        active_candidate(tail[j]) is Some,
        forall|m: int| j < m < tail.len() ==> active_candidate(#[trigger] tail[m]) is None,
    ensures
        last_active_of(tail) == active_candidate(tail[j]),
{
    let s = tail.map_values(|l: Option<JsonValue>| active_candidate(l));
    assert forall|m: int| j < m < s.len() implies (#[trigger] s[m]) is None by {
        assert(s[m] == active_candidate(tail[m]));
    }
    lemma_last_some_at(s, j);
}

/// The creation time, the session id, the project directory and the first
/// user message come from the earliest head line that offers each: what
/// line `j` offers when no earlier line offers it.
pub proof fn law_head_facts_come_from_earliest_line(head: Seq<Option<JsonValue>>, j: int)
    requires
        0 <= j < head.len(),
    ensures
        created_candidate(head[j]) is Some && (forall|m: int|
            0 <= m < j ==> created_candidate(#[trigger] head[m]) is None) ==> created_at_of(head)
            == created_candidate(head[j]),
        meta_member(head[j], "id"@) is Some && (forall|m: int|
            0 <= m < j ==> meta_member(#[trigger] head[m], "id"@) is None) ==> meta_id_of(head)
            == meta_member(head[j], "id"@),
        meta_member(head[j], "cwd"@) is Some && (forall|m: int|
            0 <= m < j ==> meta_member(#[trigger] head[m], "cwd"@) is None) ==> project_dir_of(head)
            == meta_member(head[j], "cwd"@),
        user_message_candidate(head[j]) is Some && (forall|m: int|
            0 <= m < j ==> user_message_candidate(#[trigger] head[m]) is None)
            ==> first_user_message_of(head) == user_message_candidate(head[j]),
{
    let a = head.map_values(|l: Option<JsonValue>| created_candidate(l));
    let b = head.map_values(|l: Option<JsonValue>| meta_member(l, "id"@));
    let c = head.map_values(|l: Option<JsonValue>| meta_member(l, "cwd"@));
    let d = head.map_values(|l: Option<JsonValue>| user_message_candidate(l));
    assert(a[j] == created_candidate(head[j]));
    assert(b[j] == meta_member(head[j], "id"@));
    assert(c[j] == meta_member(head[j], "cwd"@));
    assert(d[j] == user_message_candidate(head[j]));
    if created_candidate(head[j]) is Some && (forall|m: int|
        0 <= m < j ==> created_candidate(#[trigger] head[m]) is None) {
        assert forall|m: int| 0 <= m < j implies (#[trigger] a[m]) is None by {
            assert(a[m] == created_candidate(head[m]));
        }
        lemma_first_some_at(a, j);
    }
    if meta_member(head[j], "id"@) is Some && (forall|m: int|
        0 <= m < j ==> meta_member(#[trigger] head[m], "id"@) is None) {
        assert forall|m: int| 0 <= m < j implies (#[trigger] b[m]) is None by {
            assert(b[m] == meta_member(head[m], "id"@));
        }
        lemma_first_some_at(b, j);
    }
    if meta_member(head[j], "cwd"@) is Some && (forall|m: int|
        0 <= m < j ==> meta_member(#[trigger] head[m], "cwd"@) is None) {
        assert forall|m: int| 0 <= m < j implies (#[trigger] c[m]) is None by {
            assert(c[m] == meta_member(head[m], "cwd"@));
        }
        lemma_first_some_at(c, j);
    }
    if user_message_candidate(head[j]) is Some && (forall|m: int|
        0 <= m < j ==> user_message_candidate(#[trigger] head[m]) is None) {
        assert forall|m: int| 0 <= m < j implies (#[trigger] d[m]) is None by {
            assert(d[m] == user_message_candidate(head[m]));
        }
        lemma_first_some_at(d, j);
    }
}

pub open spec fn has_subagent_meta(head: Seq<Option<JsonValue>>) -> bool {
    exists|i: int| 0 <= i < head.len() && #[trigger] is_subagent_meta(head[i])
}

// ---------------------------------------------------------------------------
// Session ids in file names
// ---------------------------------------------------------------------------

/// The first position of a 36-character window of `s` that spells a UUID.
pub open spec fn uuid_window_from(s: Seq<char>, i: int) -> Option<int>
    decreases s.len() - i,
{
    if i < 0 || i + 36 > s.len() {
        None
    } else if uuid_parse_bytes(s.subrange(i, i + 36)) is Some {
        Some(i)
    } else {
        uuid_window_from(s, i + 1)
    }
}

/// The first 36 characters of a file name that spell a UUID.
pub open spec fn uuid_in_file_name(file_name: Option<Seq<char>>) -> Option<Seq<char>> {
    match file_name {
        Some(n) => match uuid_window_from(n, 0) {
            Some(i) => Some(n.subrange(i, i + 36)),
            None => None,
        },
        None => None,
    }
}

pub open spec fn sv(o: Option<String>) -> Option<Seq<char>> {
    match o {
        Some(s) => Some(s@),
        None => None,
    }
}

/// The session id spelled in a file name (see `uuid_in_file_name`).
pub fn infer_uuid_from_filename(file_name: &Option<String>) -> (r: Option<String>)
    ensures
        sv(r) == uuid_in_file_name(sv(*file_name)),
{
    let name = match file_name {
        Some(n) => n,
        None => {
            return None;
        },
    };
    let chars = chars_of(name.as_str());
    if chars.len() < 36 {
        return None;
    }
    let n: usize = chars.len();
    let last: usize = n - 36;
    let mut start: usize = 0;
    while start <= last
        invariant
            chars@ == name@,
            last + 36 == n,
            n == chars@.len(),
            *file_name == Some(*name),
            start <= last + 1,
            uuid_window_from(chars@, 0) == uuid_window_from(chars@, start as int),
        decreases last + 1 - start,
    {
        let window = slice_chars(chars.as_slice(), start, start + 36);
        assert(window@ =~= chars@.subrange(start as int, start + 36));
        let candidate = string_from(window.as_slice());
        if is_uuid(candidate.as_str()) {
            assert(uuid_window_from(chars@, start as int) == Some(start as int));
            assert(candidate@ == name@.subrange(start as int, start + 36));
            assert(uuid_in_file_name(sv(*file_name)) == Some(candidate@));
            return Some(candidate);
        }
        start = start + 1;
    }
    None
}

// ---------------------------------------------------------------------------
// Stepping through lines
// ---------------------------------------------------------------------------

pub proof fn lemma_first_some_step<A, B>(s: Seq<A>, f: spec_fn(A) -> Option<B>, i: int)
    requires
        0 <= i < s.len(),
    ensures
        first_some(s.take(i + 1).map_values(f)) == match first_some(s.take(i).map_values(f)) {
            Some(x) => Some(x),
            None => f(s[i]),
        },
{
    assert(s.take(i + 1).map_values(f).drop_last() =~= s.take(i).map_values(f));
}

pub proof fn lemma_last_some_step<A, B>(s: Seq<A>, f: spec_fn(A) -> Option<B>, i: int)
    requires
        0 < i <= s.len(),
    ensures
        last_some(s.subrange(i - 1, s.len() as int).map_values(f)) == match last_some(
            s.subrange(i, s.len() as int).map_values(f),
        ) {
            Some(x) => Some(x),
            None => f(s[i - 1]),
        },
{
    assert(s.subrange(i - 1, s.len() as int).map_values(f).drop_first() =~= s.subrange(
        i,
        s.len() as int,
    ).map_values(f));
}

fn meta_payload_of(v: &JsonValue) -> (r: Option<&JsonValue>)
    ensures
        match r {
            Some(p) => meta_payload(*v) == Some(*p),
            None => meta_payload(*v) is None,
        },
{
    match get_str(v, "type") {
        Some(t) => {
            proof {
                reveal_strlit("session_meta");
            }
            if crate::text::chars_eq_str(chars_of(t.as_str()).as_slice(), "session_meta") {
                get(v, "payload")
            } else {
                None
            }
        },
        None => None,
    }
}

fn line_is_subagent(line: &Option<JsonValue>) -> (r: bool)
    ensures
        r == is_subagent_meta(*line),
{
    match line {
        Some(v) => match meta_payload_of(v) {
            Some(p) => match get(p, "source") {
                Some(source) => match source {
                    JsonValue::Object(_) => get(source, "subagent").is_some(),
                    _ => false,
                },
                None => false,
            },
            None => false,
        },
        None => false,
    }
}

fn line_created(line: &Option<JsonValue>) -> (r: Option<TimestampValue>)
    ensures
        ts_view(r) == created_candidate(*line),
{
    match line {
        Some(v) => match member_timestamp(v, "timestamp") {
            Some(t) => Some(t),
            None => match meta_payload_of(v) {
                Some(p) => member_timestamp(p, "timestamp"),
                None => None,
            },
        },
        None => None,
    }
}

fn line_meta_member(line: &Option<JsonValue>, key: &str) -> (r: Option<String>)
    ensures
        sv(r) == meta_member(*line, key@),
{
    match line {
        Some(v) => match meta_payload_of(v) {
            Some(p) => match get_str(p, key) {
                Some(t) => Some(t.clone()),
                None => None,
            },
            None => None,
        },
        None => None,
    }
}

fn str_is(t: Option<&String>, expected: &str) -> (r: bool)
    ensures
        r == (t matches Some(x) && x@ == expected@),
{
    match t {
        Some(x) => crate::text::chars_eq_str(chars_of(x.as_str()).as_slice(), expected),
        None => false,
    }
}

fn line_message_payload(line: &Option<JsonValue>) -> (r: Option<&JsonValue>)
    ensures
        match r {
            Some(p) => message_payload(*line) == Some(*p),
            None => message_payload(*line) is None,
        },
{
    match line {
        Some(v) => {
            if str_is(get_str(v, "type"), "response_item") {
                match get(v, "payload") {
                    Some(p) => {
                        if str_is(get_str(p, "type"), "message") {
                            Some(p)
                        } else {
                            None
                        }
                    },
                    None => None,
                }
            } else {
                None
            }
        },
        None => None,
    }
}

fn payload_content_text(p: &JsonValue) -> (r: String)
    ensures
        r@ == payload_text(*p),
{
    match get(p, "content") {
        Some(c) => content_text(c),
        None => String::new(),
    }
}

fn line_user_message(line: &Option<JsonValue>) -> (r: Option<String>)
    ensures
        sv(r) == user_message_candidate(*line),
{
    match line_message_payload(line) {
        Some(p) => {
            if str_is(get_str(p, "role"), "user") {
                let text = payload_content_text(p);
                let t = trim_chars(text.as_str());
                if t.len() > 0 && !crate::text::starts_with_str(t.as_slice(), "# AGENTS.md")
                    && !crate::text::starts_with_str(t.as_slice(), "<environment_context>") {
                    Some(string_from(t.as_slice()))
                } else {
                    None
                }
            } else {
                None
            }
        },
        None => None,
    }
}

fn line_summary(line: &Option<JsonValue>) -> (r: Option<String>)
    ensures
        sv(r) == summary_candidate(*line),
{
    match line_message_payload(line) {
        Some(p) => {
            let text = payload_content_text(p);
            if trim_chars(text.as_str()).len() > 0 {
                Some(truncate_chars(text.as_str(), SUMMARY_MAX_CHARS))
            } else {
                None
            }
        },
        None => None,
    }
}

fn line_active(line: &Option<JsonValue>) -> (r: Option<TimestampValue>)
    ensures
        ts_view(r) == active_candidate(*line),
{
    match line {
        Some(v) => member_timestamp(v, "timestamp"),
        None => None,
    }
}

// ---------------------------------------------------------------------------
// The session listed for a file
// ---------------------------------------------------------------------------

pub open spec fn display_of(t: Option<(i64, Seq<char>)>) -> Option<Seq<char>> {
    match t {
        Some(t) => Some(t.1),
        None => None,
    }
}

/// The session id: the metadata's, else one spelled in the file name.
pub open spec fn session_id_of(head: Seq<Option<JsonValue>>, file_name: Option<Seq<char>>) -> Option<Seq<char>> {
    match meta_id_of(head) {
        Some(id) => Some(id),
        None => uuid_in_file_name(file_name),
    }
}

/// The title: the first user message shortened, else the last segment of
/// the project directory.
pub open spec fn title_of(head: Seq<Option<JsonValue>>) -> Option<Seq<char>> {
    match first_user_message_of(head) {
        Some(t) => Some(shortened(t, TITLE_MAX_CHARS as nat)),
        None => match project_dir_of(head) {
            Some(d) => basename(d),
            None => None,
        },
    }
}

/// The time a session is ordered by: its last activity, else its creation,
/// else zero.
pub open spec fn sort_ms_of(head: Seq<Option<JsonValue>>, tail: Seq<Option<JsonValue>>) -> i64 {
    match last_active_of(tail) {
        Some(t) => t.0,
        None => match created_at_of(head) {
            Some(t) => t.0,
            None => 0,
        },
    }
}

/// The session listed for a file with the given head and tail lines.
pub open spec fn session_matches(
    p: ParsedSession,
    head: Seq<Option<JsonValue>>,
    tail: Seq<Option<JsonValue>>,
    id: Seq<char>,
    path_text: Seq<char>,
    file_size: u64,
) -> bool {
    &&& p.session.provider_id@ == CODEX_PROVIDER_ID@
    &&& p.session.session_id@ == id
    &&& sv(p.session.title) == title_of(head)
    &&& sv(p.session.summary) == summary_of(tail)
    &&& sv(p.session.project_dir) == project_dir_of(head)
    &&& sv(p.session.created_at) == display_of(created_at_of(head))
    &&& sv(p.session.last_active_at) == display_of(last_active_of(tail))
    &&& p.session.source_path@ == without_verbatim(path_text)
    &&& p.session.file_size_bytes == file_size
    &&& p.sort_ms == sort_ms_of(head, tail)
}

/// Reads the session listed for a session file from its first and last
/// lines (each parsed as JSON, `None` where a line is not JSON), its file
/// name, the text of its path and its size. A subagent session is skipped;
/// a session with no id in its metadata or file name is refused.
pub fn parse_session(
    head: &Vec<Option<JsonValue>>,
    tail: &Vec<Option<JsonValue>>,
    file_name: &Option<String>,
    path_text: &str,
    file_size: u64,
) -> (r: AppResult<ParsedSession>)
    ensures
        has_subagent_meta(head@) ==> (r matches Err(e) && e.code@
            == "CODEX_HISTORY_SUBAGENT_SESSION"@ && e.message@ == "subagent codex session is skipped"@
            && e.detail_map() == Map::<Seq<char>, Seq<char>>::empty()),
        !has_subagent_meta(head@) ==> match session_id_of(head@, sv(*file_name)) {
            None => r matches Err(e) && e.code@ == "CODEX_HISTORY_PARSE_FAILED"@ && e.message@
                == "failed to resolve codex session id"@ && e.detail_map() == map![
                "path"@ => path_text@,
            ],
            Some(id) => r matches Ok(p) && session_matches(
                p,
                head@,
                tail@,
                id,
                path_text@,
                file_size,
            ),
        },
{
    let mut created: Option<TimestampValue> = None;
    let mut id: Option<String> = None;
    let mut dir: Option<String> = None;
    let mut user_message: Option<String> = None;
    let mut i: usize = 0;
    while i < head.len()
        invariant
            i <= head@.len(),
            forall|j: int| 0 <= j < i ==> !#[trigger] is_subagent_meta(head@[j]),
            ts_view(created) == created_at_of(head@.take(i as int)),
            sv(id) == meta_id_of(head@.take(i as int)),
            sv(dir) == project_dir_of(head@.take(i as int)),
            sv(user_message) == first_user_message_of(head@.take(i as int)),
        decreases head@.len() - i,
    {
        let line = &head[i];
        proof {
            lemma_first_some_step(head@, |l: Option<JsonValue>| created_candidate(l), i as int);
            lemma_first_some_step(head@, |l: Option<JsonValue>| meta_member(l, "id"@), i as int);
            lemma_first_some_step(head@, |l: Option<JsonValue>| meta_member(l, "cwd"@), i as int);
            lemma_first_some_step(
                head@,
                |l: Option<JsonValue>| user_message_candidate(l),
                i as int,
            );
        }
        if created.is_none() {
            created = line_created(line);
        }
        if line_is_subagent(line) {
            return Err(
                AppError::new("CODEX_HISTORY_SUBAGENT_SESSION", "subagent codex session is skipped"),
            );
        }
        if id.is_none() {
            id = line_meta_member(line, "id");
        }
        if dir.is_none() {
            dir = line_meta_member(line, "cwd");
        }
        if user_message.is_none() {
            user_message = line_user_message(line);
        }
        i = i + 1;
    }
    assert(head@.take(head@.len() as int) =~= head@);
    let n: usize = tail.len();
    let mut active: Option<TimestampValue> = None;
    let mut summary: Option<String> = None;
    let mut k: usize = n;
    assert(tail@.subrange(n as int, n as int).map_values(
        |l: Option<JsonValue>| active_candidate(l),
    ) =~= Seq::<Option<(i64, Seq<char>)>>::empty());
    assert(tail@.subrange(n as int, n as int).map_values(
        |l: Option<JsonValue>| summary_candidate(l),
    ) =~= Seq::<Option<Seq<char>>>::empty());
    while k > 0
        invariant
            k <= n,
            n == tail@.len(),
            ts_view(active) == last_active_of(tail@.subrange(k as int, n as int)),
            sv(summary) == summary_of(tail@.subrange(k as int, n as int)),
        decreases k,
    {
        let line = &tail[k - 1];
        proof {
            lemma_last_some_step(tail@, |l: Option<JsonValue>| active_candidate(l), k as int);
            lemma_last_some_step(tail@, |l: Option<JsonValue>| summary_candidate(l), k as int);
        }
        if active.is_none() {
            active = line_active(line);
        }
        if summary.is_none() {
            summary = line_summary(line);
        }
        k = k - 1;
    }
    assert(tail@.subrange(0, n as int) =~= tail@);
    let session_id = match id {
        Some(id) => id,
        None => match infer_uuid_from_filename(file_name) {
            Some(id) => id,
            None => {
                return Err(
                    AppError::new(
                        "CODEX_HISTORY_PARSE_FAILED",
                        "failed to resolve codex session id",
                    ).with_detail("path", path_text),
                );
            },
        },
    };
    let title = match &user_message {
        Some(text) => Some(truncate_chars(text.as_str(), TITLE_MAX_CHARS)),
        None => match &dir {
            Some(d) => path_basename(d.as_str()),
            None => None,
        },
    };
    let sort_ms: i64 = match &active {
        Some(t) => t.ms,
        None => match &created {
            Some(t) => t.ms,
            None => 0,
        },
    };
    let created_at = match created {
        Some(t) => Some(t.display),
        None => None,
    };
    let last_active_at = match active {
        Some(t) => Some(t.display),
        None => None,
    };
    Ok(
        ParsedSession {
            session: CodexHistorySession {
                provider_id: CODEX_PROVIDER_ID.to_owned(),
                session_id,
                title,
                summary,
                project_dir: dir,
                created_at,
                last_active_at,
                source_path: normalize_display_path(path_text.to_owned()),
                file_size_bytes: file_size,
            },
            sort_ms,
        },
    )
}

// ---------------------------------------------------------------------------
// Messages
// ---------------------------------------------------------------------------

/// A message read from a session line.
#[derive(Debug)]
pub struct CodexHistoryMessage {
    pub role: String,
    pub content: String,
    pub timestamp: Option<String>,
    pub item_type: String,
    pub truncated: bool,
}

/// The role and raw content of a response item of the given type, or `None`
/// for a type that records no message.
pub open spec fn item_role_content(p: JsonValue, item_type: Seq<char>) -> Option<(Seq<char>, Seq<char>)> {
    if item_type == "message"@ {
        Some(
            (
                match str_member(p, "role"@) {
                    Some(r) => r,
                    None => "unknown"@,
                },
                payload_text(p),
            ),
        )
    } else if item_type == "function_call"@ {
        let name = match str_member(p, "name"@) {
            Some(n) => n,
            None => "unknown"@,
        };
        let arguments = match str_member(p, "arguments"@) {
            Some(a) => trim(a),
            None => Seq::empty(),
        };
        Some(
            (
                "assistant"@,
                if arguments.len() == 0 {
                    "[Tool: "@ + name + "]"@
                } else {
                    "[Tool: "@ + name + "]\n"@ + arguments
                },
            ),
        )
    } else if item_type == "function_call_output"@ {
        Some(
            (
                "tool"@,
                match str_member(p, "output"@) {
                    Some(o) => o,
                    None => Seq::empty(),
                },
            ),
        )
    } else if item_type == "web_search_call"@ {
        Some(("assistant"@, "[Web Search]"@))
    } else if item_type == "reasoning"@ {
        Some(("assistant"@, reasoning_text(p)))
    } else {
        None
    }
}

/// The text of a member if it is not blank.
pub open spec fn nonblank_member_text(p: JsonValue, key: Seq<char>) -> Option<Seq<char>> {
    match json_get(p, key) {
        Some(c) => if trim(extract_text(c)).len() > 0 {
            Some(extract_text(c))
        } else {
            None
        },
        None => None,
    }
}

/// The text of a reasoning item: its summary, else its content, when not
/// blank.
pub open spec fn reasoning_text(p: JsonValue) -> Seq<char> {
    match nonblank_member_text(p, "summary"@) {
        Some(t) => t,
        None => match nonblank_member_text(p, "content"@) {
            Some(t) => t,
            None => Seq::empty(),
        },
    }
}

/// The message a parsed session line records: a response item of a known
/// type whose content is not blank, trimmed and cut to the message limit.
pub open spec fn message_matches(v: JsonValue, r: Option<CodexHistoryMessage>) -> bool {
    if !line_type_is(v, "response_item"@) {
        r is None
    } else {
        match json_get(v, "payload"@) {
            None => r is None,
            Some(p) => {
                let item_type = match str_member(p, "type"@) {
                    Some(t) => t,
                    None => Seq::empty(),
                };
                match item_role_content(p, item_type) {
                    None => r is None,
                    Some((role, content)) => if trim(content).len() == 0 {
                        r is None
                    } else {
                        r matches Some(m) && m.role@ == role && (m.content@, m.truncated) == cut_message(
                            trim(content),
                            MAX_MESSAGE_CHARS as nat,
                        ) && sv(m.timestamp) == display_of(member_time(v, "timestamp"@))
                            && m.item_type@ == item_type
                    },
                }
            },
        }
    }
}

fn member_text_if_nonblank(p: &JsonValue, key: &str) -> (r: Option<String>)
    ensures
        sv(r) == nonblank_member_text(*p, key@),
{
    match get(p, key) {
        Some(c) => {
            let t = content_text(c);
            if trim_chars(t.as_str()).len() > 0 {
                Some(t)
            } else {
                None
            }
        },
        None => None,
    }
}

fn str_or(t: Option<&String>, default: &str) -> (r: String)
    ensures
        r@ == match t {
            Some(x) => x@,
            None => default@,
        },
{
    match t {
        Some(x) => x.clone(),
        None => default.to_owned(),
    }
}

/// The role and raw content of a response item (see `item_role_content`).
fn role_and_content(p: &JsonValue, item_type: &str) -> (r: Option<(String, String)>)
    ensures
        match r {
            Some((role, content)) => item_role_content(*p, item_type@) == Some((role@, content@)),
            None => item_role_content(*p, item_type@) is None,
        },
{
    proof {
        reveal_strlit("message");
        reveal_strlit("function_call");
        reveal_strlit("function_call_output");
        reveal_strlit("web_search_call");
        reveal_strlit("reasoning");
        reveal_strlit("");
    }
    let t = chars_of(item_type);
    if crate::text::chars_eq_str(t.as_slice(), "message") {
        return Some((str_or(get_str(p, "role"), "unknown"), payload_content_text(p)));
    }
    if crate::text::chars_eq_str(t.as_slice(), "function_call") {
        let name = str_or(get_str(p, "name"), "unknown");
        let arguments = match get_str(p, "arguments") {
            Some(a) => string_from(trim_chars(a.as_str()).as_slice()),
            None => String::new(),
        };
        let mut out = chars_of("[Tool: ");
        crate::text::extend_str(&mut out, name.as_str());
        if chars_of(arguments.as_str()).len() == 0 {
            crate::text::extend_str(&mut out, "]");
        } else {
            crate::text::extend_str(&mut out, "]\n");
            crate::text::extend_str(&mut out, arguments.as_str());
        }
        return Some(("assistant".to_owned(), string_from(out.as_slice())));
    }
    if crate::text::chars_eq_str(t.as_slice(), "function_call_output") {
        return Some(("tool".to_owned(), str_or(get_str(p, "output"), "")));
    }
    if crate::text::chars_eq_str(t.as_slice(), "web_search_call") {
        return Some(("assistant".to_owned(), "[Web Search]".to_owned()));
    }
    if crate::text::chars_eq_str(t.as_slice(), "reasoning") {
        let text = match member_text_if_nonblank(p, "summary") {
            Some(t) => t,
            None => match member_text_if_nonblank(p, "content") {
                Some(t) => t,
                None => String::new(),
            },
        };
        return Some(("assistant".to_owned(), text));
    }
    None
}

/// The message recorded by a session line already parsed as JSON (see
/// `message_matches`).
pub fn message_from_line(value: &JsonValue) -> (r: Option<CodexHistoryMessage>)
    ensures
        message_matches(*value, r),
{
    if !str_is(get_str(value, "type"), "response_item") {
        return None;
    }
    let payload = match get(value, "payload") {
        Some(p) => p,
        None => {
            return None;
        },
    };
    let item_type = str_or(get_str(payload, "type"), "");
    proof {
        reveal_strlit("");
    }
    let timestamp = match member_timestamp(value, "timestamp") {
        Some(t) => Some(t.display),
        None => None,
    };
    // the item type as `message_matches` reads it
    let ghost it = match str_member(*payload, "type"@) {
        Some(t) => t,
        None => Seq::empty(),
    };
    proof {
        assert(item_type@ == it);
        assert(line_type_is(*value, "response_item"@));
        assert(json_get(*value, "payload"@) == Some(*payload));
    }
    let (role, content) = match role_and_content(payload, item_type.as_str()) {
        Some(rc) => rc,
        None => {
            assert(item_role_content(*payload, it) is None);
            return None;
        },
    };
    let trimmed = trim_chars(content.as_str());
    if trimmed.len() == 0 {
        return None;
    }
    let trimmed_text = string_from(trimmed.as_slice());
    let (text, truncated) = truncate_message_content(trimmed_text.as_str(), MAX_MESSAGE_CHARS);
    Some(CodexHistoryMessage { role, content: text, timestamp, item_type, truncated })
}

} // verus!
