//! Codex auth profiles: quota tier names, how a rolled-back profile switch
//! is reported, and the name given to an imported profile.
use vstd::prelude::*;

use crate::error::{lemma_detail_keys_distinct, AppError, AppResult};
use crate::text::{
    join_strings, joined, string_views,
    chars_eq_str, chars_of, decimal, decimal_string, extend_chars, extend_str, is_prefix, lower,
    lower_chars, starts_with_str, string_from, trim, trim_chars,
};
use crate::timestamps::{
    format_utc_seconds, parse_rfc3339_seconds, rfc3339_seconds, unix_now_secs, utc_rfc3339_of_seconds,
};

verus! {

/// `a / b` rounded toward zero, as Rust's integer division does.
pub open spec fn trunc_div(a: int, b: int) -> int {
    if a >= 0 {
        a / b
    } else {
        -((-a) / b)
    }
}

/// The decimal text of a signed number.
pub open spec fn signed_decimal(n: int) -> Seq<char> {
    if n < 0 {
        "-"@ + decimal((-n) as nat)
    } else {
        decimal(n as nat)
    }
}

fn signed_decimal_string(n: i64) -> (s: String)
    ensures
        s@ == signed_decimal(n as int),
{
    if n >= 0 {
        return decimal_string(n as u64);
    }
    let magnitude: u64 = ((-(n + 1)) as u64) + 1;
    let digits = decimal_string(magnitude);
    let mut out = chars_of("-");
    extend_str(&mut out, digits.as_str());
    proof {
        reveal_strlit("-");
    }
    string_from(out.as_slice())
}

fn div_toward_zero(a: i64, b: i64) -> (q: i64)
    requires
        b > 0,
    ensures
        q == trunc_div(a as int, b as int),
{
    if a >= 0 {
        a / b
    } else if b == 1 {
        assert((-(a as int)) / 1 == -(a as int));
        a
    } else {
        let magnitude: u64 = ((-(a + 1)) as u64) + 1;
        assert(magnitude == -(a as int));
        let d: u64 = b as u64;
        let q: u64 = magnitude / d;
        assert(q <= magnitude / 2) by (nonlinear_arith)
            requires
                d >= 2,
                q == magnitude / d,
        ;
        assert(q <= 0x4000_0000_0000_0000);
        let s: i64 = q as i64;
        assert(s as int == (-(a as int)) / (b as int));
        -s
    }
}

/// The name of a quota window: five hours and seven days by name, others
/// as whole days (from 24 hours on) or whole hours.
pub open spec fn tier_name(seconds: i64) -> Seq<char> {
    if seconds == 18000 {
        "five_hour"@
    } else if seconds == 604800 {
        "seven_day"@
    } else {
        let hours = trunc_div(seconds as int, 3600);
        if hours >= 24 {
            signed_decimal(trunc_div(hours, 24)) + "_day"@
        } else {
            signed_decimal(hours) + "_hour"@
        }
    }
}

pub fn window_seconds_to_tier_name(seconds: i64) -> (r: String)
    ensures
        r@ == tier_name(seconds),
{
    if seconds == 18000 {
        return "five_hour".to_owned();
    }
    if seconds == 604800 {
        return "seven_day".to_owned();
    }
    let hours = div_toward_zero(seconds, 3600);
    if hours >= 24 {
        let days = div_toward_zero(hours, 24);
        let mut out = chars_of(signed_decimal_string(days).as_str());
        extend_str(&mut out, "_day");
        string_from(out.as_slice())
    } else {
        let mut out = chars_of(signed_decimal_string(hours).as_str());
        extend_str(&mut out, "_hour");
        string_from(out.as_slice())
    }
}

/// What the quota response says of one rate-limit window: whether it
/// reports how much is used, its length in seconds and when it resets (in
/// seconds since the epoch).
#[derive(Debug)]
pub struct QuotaWindow {
    pub has_utilization: bool,
    pub limit_window_seconds: Option<i64>,
    pub reset_at: Option<i64>,
}

/// A quota tier without its utilization: the window it is read from, its
/// name and when it resets.
#[derive(Debug)]
pub struct QuotaTierHead {
    pub window_index: usize,
    pub name: String,
    pub resets_at: Option<String>,
}

/// The tier read from window `i`, when the window reports its utilization.
pub open spec fn tier_head_of(w: QuotaWindow) -> (Seq<char>, Option<Seq<char>>) {
    (
        match w.limit_window_seconds {
            Some(s) => tier_name(s),
            None => "unknown"@,
        },
        match w.reset_at {
            Some(t) => utc_rfc3339_of_seconds(t),
            None => None,
        },
    )
}

/// The windows (by index) that report their utilization, in order.
pub open spec fn reported_windows(ws: Seq<QuotaWindow>, k: int) -> Seq<int>
    decreases k,
{
    if k <= 0 {
        Seq::empty()
    } else if ws[k - 1].has_utilization {
        reported_windows(ws, k - 1).push(k - 1)
    } else {
        reported_windows(ws, k - 1)
    }
}

/// The quota tiers of a response's windows (the primary one first): one for
/// each window that reports its utilization, named by its length
/// (`unknown` without one), with the time it resets when that is a valid
/// time. The caller adds each tier's utilization from its window.
pub fn quota_tier_heads(windows: &Vec<QuotaWindow>) -> (r: Vec<QuotaTierHead>)
    ensures
        r@.len() == reported_windows(windows@, windows@.len() as int).len(),
        forall|k: int|
            0 <= k < r@.len() ==> {
                let i = reported_windows(windows@, windows@.len() as int)[k];
                &&& (#[trigger] r@[k]).window_index == i
                &&& (r@[k].name@, match r@[k].resets_at {
                    Some(t) => Some(t@),
                    None => None,
                }) == tier_head_of(windows@[i])
            },
{
    let mut out: Vec<QuotaTierHead> = Vec::new();
    let mut i: usize = 0;
    while i < windows.len()
        invariant
            i <= windows@.len(),
            out@.len() == reported_windows(windows@, i as int).len(),
            forall|k: int|
                0 <= k < out@.len() ==> {
                    let j = reported_windows(windows@, i as int)[k];
                    &&& (#[trigger] out@[k]).window_index == j
                    &&& (out@[k].name@, match out@[k].resets_at {
                        Some(t) => Some(t@),
                        None => None,
                    }) == tier_head_of(windows@[j])
                },
        decreases windows@.len() - i,
    {
        let w = &windows[i];
        if w.has_utilization {
            let name = match w.limit_window_seconds {
                Some(s) => window_seconds_to_tier_name(s),
                None => "unknown".to_owned(),
            };
            let resets_at = match w.reset_at {
                Some(t) => format_utc_seconds(t),
                None => None,
            };
            out.push(QuotaTierHead { window_index: i, name, resets_at });
        }
        i = i + 1;
    }
    out
}

/// Records how rolling back a failed profile switch went: `completed`, or
/// `failed` with the failures joined by ` | ` and an unknown state.
pub fn attach_codex_auth_rollback_failures(error: AppError, rollback_failures: Vec<String>) -> (r:
    AppError)
    ensures
        r.code == error.code,
        r.message == error.message,
        rollback_failures@.len() == 0 ==> r.detail_map() == error.detail_map().insert(
            "rollback"@,
            "completed"@,
        ),
        rollback_failures@.len() > 0 ==> r.detail_map() == error.detail_map().insert(
            "rollback"@,
            "failed"@,
        ).insert("stateConsistency"@, "unknown"@).insert(
            "rollbackFailures"@,
            joined(string_views(rollback_failures@), " | "@),
        ),
{
    if rollback_failures.len() == 0 {
        return error.with_detail("rollback", "completed");
    }
    let text = join_strings(&rollback_failures, " | ");
    error.with_detail("rollback", "failed").with_detail("stateConsistency", "unknown").with_detail(
        "rollbackFailures",
        text.as_str(),
    )
}

/// The live Codex files before a switch wrote them.
#[derive(Debug)]
pub struct LiveCodexConfigSnapshot {
    pub auth_path: String,
    pub config_path: String,
    pub previous_auth: Option<String>,
    pub previous_config: Option<String>,
}

/// What restoring one live file came to: the restore itself, then (when it
/// succeeded) reading the file back (`Ok(None)` when it is absent). Errors
/// are given as their display text.
#[derive(Debug)]
pub struct FileRollbackOutcome {
    pub restore: Result<(), String>,
    pub read_back: Result<Option<String>, String>,
}

pub open spec fn ov(o: Option<String>) -> Option<Seq<char>> {
    match o {
        Some(s) => Some(s@),
        None => None,
    }
}

/// The failure reported for one file, if any.
pub open spec fn file_rollback_failure(label: Seq<char>, previous: Option<String>, o: FileRollbackOutcome) -> Option<
    Seq<char>,
> {
    match o.restore {
        Err(e) => Some(label + ": "@ + e@),
        Ok(()) => match o.read_back {
            Ok(actual) => if ov(actual) == ov(previous) {
                None
            } else {
                Some(label + ": rollback verification mismatch"@)
            },
            Err(e) => Some(label + ": verification failed: "@ + e@),
        },
    }
}

fn same_text(a: &Option<String>, b: &Option<String>) -> (r: bool)
    ensures
        r == (ov(*a) == ov(*b)),
{
    match (a, b) {
        (Some(x), Some(y)) => x.eq(y),
        (None, None) => true,
        _ => false,
    }
}

fn file_failure(label: &str, previous: &Option<String>, o: &FileRollbackOutcome) -> (r: Option<String>)
    ensures
        ov(r) == file_rollback_failure(label@, *previous, *o),
{
    match &o.restore {
        Err(e) => {
            let mut v = chars_of(label);
            extend_str(&mut v, ": ");
            extend_str(&mut v, e.as_str());
            Some(string_from(v.as_slice()))
        },
        Ok(()) => match &o.read_back {
            Ok(actual) => {
                if same_text(actual, previous) {
                    None
                } else {
                    let mut v = chars_of(label);
                    extend_str(&mut v, ": rollback verification mismatch");
                    Some(string_from(v.as_slice()))
                }
            },
            Err(e) => {
                let mut v = chars_of(label);
                extend_str(&mut v, ": verification failed: ");
                extend_str(&mut v, e.as_str());
                Some(string_from(v.as_slice()))
            },
        },
    }
}

/// The failures of rolling back `auth.json` and then `config.toml`, from
/// what restoring and re-reading each of them came to.
pub fn rollback_live_codex_config(
    snapshot: &LiveCodexConfigSnapshot,
    auth: &FileRollbackOutcome,
    config: &FileRollbackOutcome,
) -> (r: Vec<String>)
    ensures
        string_views(r@) == opt_seq(file_rollback_failure("auth.json"@, snapshot.previous_auth, *auth))
            + opt_seq(file_rollback_failure("config.toml"@, snapshot.previous_config, *config)),
{
    let mut failures: Vec<String> = Vec::new();
    if let Some(f) = file_failure("auth.json", &snapshot.previous_auth, auth) {
        failures.push(f);
    }
    let ghost first = failures@;
    if let Some(f) = file_failure("config.toml", &snapshot.previous_config, config) {
        failures.push(f);
    }
    assert(string_views(failures@) =~= opt_seq(
        file_rollback_failure("auth.json"@, snapshot.previous_auth, *auth),
    ) + opt_seq(file_rollback_failure("config.toml"@, snapshot.previous_config, *config)));
    failures
}

pub open spec fn opt_seq(o: Option<Seq<char>>) -> Seq<Seq<char>> {
    match o {
        Some(x) => seq![x],
        None => Seq::empty(),
    }
}

/// The account id recorded in a parsed `auth.json`, if any.
pub open spec fn auth_account_id(parsed: Option<CodexAuthJson>) -> Option<String> {
    match parsed {
        Some(auth) => match auth.tokens {
            Some(tokens) => tokens.account_id,
            None => None,
        },
        None => None,
    }
}

/// The distinguishing part of an imported profile's name: the first eight
/// characters of a non-blank account id, else the file name of the Codex
/// home, else `default`.
pub open spec fn profile_suffix(parsed: Option<CodexAuthJson>, codex_home: Seq<char>) -> Seq<char> {
    match auth_account_id(parsed) {
        Some(a) => if trim(a@).len() > 0 {
            a@.take(if a@.len() < 8 { a@.len() as int } else { 8 })
        } else {
            home_suffix(codex_home)
        },
        None => home_suffix(codex_home),
    }
}

pub open spec fn home_suffix(codex_home: Seq<char>) -> Seq<char> {
    match crate::autostart::path_file_name(codex_home) {
        Some(n) => n,
        None => "default"@,
    }
}

/// `Codex Auth <suffix> <timestamp>`, where `parsed` is `auth.json` as
/// parsed (`None` when it does not parse) and `timestamp` is the import time
/// already formatted as `%Y%m%d-%H%M%S`.
pub fn build_imported_profile_name(parsed: &Option<CodexAuthJson>, codex_home: &str, timestamp: &str) -> (r:
    String)
    ensures
        r@ == "Codex Auth "@ + profile_suffix(*parsed, codex_home@) + " "@ + timestamp@,
{
    let account_id: Option<&String> = match parsed {
        Some(auth) => match &auth.tokens {
            Some(tokens) => tokens.account_id.as_ref(),
            None => None,
        },
        None => None,
    };
    let suffix: Vec<char> = match account_id {
        Some(a) => {
            let chars = chars_of(a.as_str());
            if trim_chars(a.as_str()).len() > 0 {
                let n = if chars.len() < 8 { chars.len() } else { 8 };
                crate::text::slice_chars(chars.as_slice(), 0, n)
            } else {
                home_name(codex_home)
            }
        },
        None => home_name(codex_home),
    };
    let mut out = chars_of("Codex Auth ");
    extend_chars(&mut out, suffix.as_slice());
    extend_str(&mut out, " ");
    extend_str(&mut out, timestamp);
    string_from(out.as_slice())
}

fn home_name(codex_home: &str) -> (r: Vec<char>)
    ensures
        r@ == home_suffix(codex_home@),
{
    let chars = chars_of(codex_home);
    match crate::autostart::file_name_of(chars.as_slice()) {
        Some(n) => n,
        None => chars_of("default"),
    }
}

// ---------------------------------------------------------------------------
// Credentials read from auth.json
// ---------------------------------------------------------------------------

/// The tokens recorded in `auth.json`.
#[derive(Debug)]
pub struct CodexAuthTokens {
    pub access_token: Option<String>,
    pub account_id: Option<String>,
}

/// The parts of a Codex `auth.json` that the services read.
#[derive(Debug)]
pub struct CodexAuthJson {
    pub auth_mode: Option<String>,
    pub tokens: Option<CodexAuthTokens>,
    pub last_refresh: Option<String>,
}

/// Tokens refreshed longer ago than this (eight days, in seconds) may be
/// stale.
pub const CODEX_TOKEN_STALE_SECS: u64 = 691200;

pub const CODEX_TOKEN_STALE_MESSAGE: &'static str =
    "Codex token may be stale because last_refresh is older than 8 days";

/// Whether a token refreshed at `refreshed` (seconds since the epoch) is
/// stale at `now`: the age, counted from the refresh time read as an
/// unsigned number and never below zero, exceeds eight days.
pub open spec fn token_age_stale(now: u64, refreshed: i64) -> bool {
    now as int - (refreshed as u64) as int > CODEX_TOKEN_STALE_SECS as int
}

/// Whether `last_refresh` is an RFC 3339 time that is stale at `now`.
pub open spec fn token_stale_at(last_refresh: Seq<char>, now: u64) -> bool {
    match rfc3339_seconds(last_refresh) {
        Some(t) => token_age_stale(now, t),
        None => false,
    }
}

/// Whether a token refreshed at `last_refresh` is stale at `now_secs`
/// (seconds since the epoch). Text that is not RFC 3339 is never stale.
pub fn is_codex_token_stale_at(last_refresh: &str, now_secs: u64) -> (r: bool)
    ensures
        r == token_stale_at(last_refresh@, now_secs),
{
    match parse_rfc3339_seconds(last_refresh) {
        Some(t) => {
            let refreshed: u64 = t as u64;
            now_secs.saturating_sub(refreshed) > CODEX_TOKEN_STALE_SECS
        },
        None => false,
    }
}

/// A token that is stale stays stale as time goes on.
pub proof fn law_token_stays_stale(last_refresh: Seq<char>, earlier: u64, later: u64)
    requires
        earlier <= later,
        token_stale_at(last_refresh, earlier),
    ensures
        token_stale_at(last_refresh, later),
{
}

/// Whether a token refreshed at `last_refresh` is stale now, by the system
/// clock.
pub fn is_codex_token_stale(last_refresh: &str) -> (r: bool)
    ensures
        exists|now: u64| r == token_stale_at(last_refresh@, now),
{
    let now = unix_now_secs();
    let r = is_codex_token_stale_at(last_refresh, now);
    assert(r == token_stale_at(last_refresh@, now));
    r
}

/// Whether an optional text is present and not blank.
pub open spec fn non_blank(o: Option<String>) -> bool {
    o matches Some(t) && trim(t@).len() > 0
}

/// Whether the error is `code` with `message` and exactly the details `details`.
pub open spec fn error_is(e: AppError, code: Seq<char>, message: Seq<char>, details: Map<Seq<char>, Seq<char>>) -> bool {
    e.code@ == code && e.message@ == message && e.detail_map() == details
}

/// What reading the credentials out of a parsed `auth.json` comes to, given
/// whether its `last_refresh` is stale: the checks in order, then the
/// access token, the account id and the staleness notice.
pub open spec fn credentials_ok(
    parsed: Result<CodexAuthJson, String>,
    stale: bool,
    r: AppResult<(String, Option<String>, Option<String>)>,
) -> bool {
    match parsed {
        Err(reason) => r matches Err(e) && error_is(
            e,
            "CODEX_AUTH_PARSE_FAILED"@,
            "failed to parse auth.json"@,
            map!["reason"@ => reason@],
        ),
        Ok(auth) => if ov(auth.auth_mode) != Some("chatgpt"@) {
            r matches Err(e) && error_is(
                e,
                "CODEX_AUTH_QUOTA_UNSUPPORTED"@,
                "only Codex ChatGPT OAuth auth.json can query official quota"@,
                Map::empty(),
            )
        } else {
            match auth.tokens {
                None => r matches Err(e) && error_is(
                    e,
                    "CODEX_AUTH_PARSE_FAILED"@,
                    "auth.json does not contain tokens"@,
                    Map::empty(),
                ),
                Some(tokens) => if !non_blank(tokens.access_token) {
                    r matches Err(e) && error_is(
                        e,
                        "CODEX_AUTH_PARSE_FAILED"@,
                        "auth.json tokens.access_token is missing"@,
                        Map::empty(),
                    )
                } else {
                    r matches Ok((token, account, notice)) && Some(token@) == ov(
                        tokens.access_token,
                    ) && ov(account) == ov(tokens.account_id) && ov(notice) == (if stale {
                        Some(CODEX_TOKEN_STALE_MESSAGE@)
                    } else {
                        None
                    })
                },
            }
        },
    }
}

/// Whether the parsed `auth.json` records a stale refresh time at `now`.
pub open spec fn auth_stale_at(parsed: Result<CodexAuthJson, String>, now: u64) -> bool {
    match parsed {
        Ok(auth) => match auth.last_refresh {
            Some(t) => token_stale_at(t@, now),
            None => false,
        },
        Err(_) => false,
    }
}

fn copy_string_opt(o: &Option<String>) -> (r: Option<String>)
    ensures
        ov(r) == ov(*o),
{
    match o {
        Some(s) => Some(s.clone()),
        None => None,
    }
}

/// The access token, account id and staleness notice of a parsed
/// `auth.json` (`parsed` is the parse error's text when it did not parse),
/// with staleness judged at `now_secs`.
pub fn codex_credentials_at(parsed: &Result<CodexAuthJson, String>, now_secs: u64) -> (r: AppResult<
    (String, Option<String>, Option<String>),
>)
    ensures
        credentials_ok(*parsed, auth_stale_at(*parsed, now_secs), r),
{
    let auth = match parsed {
        Err(reason) => {
            return Err(
                AppError::new("CODEX_AUTH_PARSE_FAILED", "failed to parse auth.json").with_detail(
                    "reason",
                    reason.as_str(),
                ),
            );
        },
        Ok(auth) => auth,
    };
    let is_chatgpt = match &auth.auth_mode {
        Some(mode) => chars_eq_str(chars_of(mode.as_str()).as_slice(), "chatgpt"),
        None => false,
    };
    proof {
        reveal_strlit("chatgpt");
    }
    if !is_chatgpt {
        return Err(
            AppError::new(
                "CODEX_AUTH_QUOTA_UNSUPPORTED",
                "only Codex ChatGPT OAuth auth.json can query official quota",
            ),
        );
    }
    let tokens = match &auth.tokens {
        None => {
            return Err(AppError::new("CODEX_AUTH_PARSE_FAILED", "auth.json does not contain tokens"));
        },
        Some(tokens) => tokens,
    };
    let token = match &tokens.access_token {
        Some(t) => {
            if trim_chars(t.as_str()).len() == 0 {
                return Err(
                    AppError::new(
                        "CODEX_AUTH_PARSE_FAILED",
                        "auth.json tokens.access_token is missing",
                    ),
                );
            }
            t.clone()
        },
        None => {
            return Err(
                AppError::new("CODEX_AUTH_PARSE_FAILED", "auth.json tokens.access_token is missing"),
            );
        },
    };
    let stale = match &auth.last_refresh {
        Some(t) => is_codex_token_stale_at(t.as_str(), now_secs),
        None => false,
    };
    let notice = if stale {
        Some(CODEX_TOKEN_STALE_MESSAGE.to_owned())
    } else {
        None
    };
    Ok((token, copy_string_opt(&tokens.account_id), notice))
}

/// The credentials of a parsed `auth.json`, with staleness judged by the
/// system clock.
pub fn parse_codex_credentials_from_profile(parsed: &Result<CodexAuthJson, String>) -> (r: AppResult<
    (String, Option<String>, Option<String>),
>)
    ensures
        exists|now: u64| credentials_ok(*parsed, auth_stale_at(*parsed, now), r),
{
    let now = unix_now_secs();
    let r = codex_credentials_at(parsed, now);
    assert(credentials_ok(*parsed, auth_stale_at(*parsed, now), r));
    r
}

// ---------------------------------------------------------------------------
// Quota queries
// ---------------------------------------------------------------------------

/// How the quota endpoint is reached: through the system proxy, with no
/// proxy, or through the given proxy URL.
#[derive(Debug)]
pub enum QuotaProxyPlan {
    System,
    Disabled,
    Manual(String),
}

/// Why `reqwest::Proxy::all` refuses a proxy URL (its error's text), or
/// `None` when it accepts it.
pub uninterp spec fn proxy_url_rejection(url: Seq<char>) -> Option<Seq<char>>;

/// Calls `reqwest::Proxy::all` on `url`; what it says is named
/// `proxy_url_rejection`.
#[verifier::external_body]
fn check_proxy_url(url: &str) -> (r: Option<String>)
    ensures
        match r {
            Some(e) => proxy_url_rejection(url@) == Some(e@),
            None => proxy_url_rejection(url@) is None,
        },
{
    match reqwest::Proxy::all(url) {
        Ok(_) => None,
        Err(error) => Some(error.to_string()),
    }
}

pub open spec fn manual_proxy_field() -> Seq<char> {
    "codexAuth.proxy.manualProxyUrl"@
}

/// Whether a (lower-cased) proxy URL names a scheme the quota client supports.
pub open spec fn supported_proxy_scheme(lower_url: Seq<char>) -> bool {
    is_prefix("http://"@, lower_url) || is_prefix("https://"@, lower_url) || is_prefix(
        "socks5://"@,
        lower_url,
    ) || is_prefix("socks5h://"@, lower_url)
}

/// The proxy plan for the quota client, or the validation error that the
/// proxy preferences give.
pub open spec fn proxy_plan_ok(mode: Seq<char>, manual_url: Seq<char>, r: AppResult<QuotaProxyPlan>) -> bool {
    let m = lower(trim(mode));
    let url = trim(manual_url);
    if m == "system"@ {
        r matches Ok(QuotaProxyPlan::System)
    } else if m == "disabled"@ {
        r matches Ok(QuotaProxyPlan::Disabled)
    } else if m == "manual"@ {
        if url.len() == 0 {
            r matches Err(e) && error_is(
                e,
                "VALIDATION_ERROR"@,
                "手动代理模式必须填写代理地址"@,
                map!["field"@ => manual_proxy_field()],
            )
        } else if !supported_proxy_scheme(lower(url)) {
            r matches Err(e) && error_is(
                e,
                "VALIDATION_ERROR"@,
                "Codex Auth 手动代理只支持 http、https、socks5、socks5h"@,
                map!["field"@ => manual_proxy_field()],
            )
        } else {
            match proxy_url_rejection(url) {
                Some(reason) => r matches Err(e) && error_is(
                    e,
                    "VALIDATION_ERROR"@,
                    "Codex Auth 手动代理地址无效"@,
                    map!["field"@ => manual_proxy_field(), "reason"@ => reason],
                ),
                None => r matches Ok(QuotaProxyPlan::Manual(u)) && u@ == url,
            }
        }
    } else {
        r matches Err(e) && error_is(
            e,
            "VALIDATION_ERROR"@,
            "Codex Auth 额度代理模式无效"@,
            map!["field"@ => "codexAuth.proxy.mode"@, "allowed"@ => "system, manual, disabled"@],
        )
    }
}

/// Decides how the quota client reaches the endpoint from the proxy
/// preferences: `system`, `disabled` or `manual` (any case, surrounding
/// blanks ignored); a manual proxy needs an http, https, socks5 or socks5h
/// URL that `reqwest` accepts.
pub fn plan_codex_quota_proxy(mode: &str, manual_proxy_url: &str) -> (r: AppResult<QuotaProxyPlan>)
    ensures
        proxy_plan_ok(mode@, manual_proxy_url@, r),
{
    let trimmed_mode = trim_chars(mode);
    let m = lower_chars(trimmed_mode.as_slice());
    proof {
        lemma_detail_keys_distinct();
    }
    if chars_eq_str(m.as_slice(), "system") {
        return Ok(QuotaProxyPlan::System);
    }
    if chars_eq_str(m.as_slice(), "disabled") {
        return Ok(QuotaProxyPlan::Disabled);
    }
    if chars_eq_str(m.as_slice(), "manual") {
        let url = trim_chars(manual_proxy_url);
        if url.len() == 0 {
            return Err(
                AppError::validation("手动代理模式必须填写代理地址").with_detail(
                    "field",
                    "codexAuth.proxy.manualProxyUrl",
                ),
            );
        }
        let lower_url = lower_chars(url.as_slice());
        let supported = starts_with_str(lower_url.as_slice(), "http://") || starts_with_str(
            lower_url.as_slice(),
            "https://",
        ) || starts_with_str(lower_url.as_slice(), "socks5://") || starts_with_str(
            lower_url.as_slice(),
            "socks5h://",
        );
        if !supported {
            return Err(
                AppError::validation(
                    "Codex Auth 手动代理只支持 http、https、socks5、socks5h",
                ).with_detail("field", "codexAuth.proxy.manualProxyUrl"),
            );
        }
        let url_text = string_from(url.as_slice());
        match check_proxy_url(url_text.as_str()) {
            Some(reason) => {
                return Err(
                    AppError::validation("Codex Auth 手动代理地址无效").with_detail(
                        "field",
                        "codexAuth.proxy.manualProxyUrl",
                    ).with_detail("reason", reason.as_str()),
                );
            },
            None => {
                return Ok(QuotaProxyPlan::Manual(url_text));
            },
        }
    }
    Err(
        AppError::validation("Codex Auth 额度代理模式无效").with_detail(
            "field",
            "codexAuth.proxy.mode",
        ).with_detail("allowed", "system, manual, disabled"),
    )
}

/// The headers of a quota request: the bearer token, the client name, JSON,
/// and the account id when there is a non-empty one.
pub open spec fn quota_headers(access_token: Seq<char>, account_id: Option<Seq<char>>) -> Seq<(Seq<char>, Seq<char>)> {
    let base = seq![
        ("Authorization"@, "Bearer "@ + access_token),
        ("User-Agent"@, "codex-cli"@),
        ("Accept"@, "application/json"@),
    ];
    match account_id {
        Some(id) => if id.len() > 0 {
            base.push(("ChatGPT-Account-Id"@, id))
        } else {
            base
        },
        None => base,
    }
}

pub open spec fn pair_views(s: Seq<(String, String)>) -> Seq<(Seq<char>, Seq<char>)> {
    s.map_values(|p: (String, String)| (p.0@, p.1@))
}

fn text_pair(name: &str, value: &str) -> (r: (String, String))
    ensures
        r.0@ == name@,
        r.1@ == value@,
{
    (name.to_owned(), value.to_owned())
}

/// The headers sent with a quota request.
pub fn quota_request_headers(access_token: &str, account_id: &Option<String>) -> (r: Vec<(String, String)>)
    ensures
        pair_views(r@) == quota_headers(access_token@, ov(*account_id)),
{
    let mut bearer = chars_of("Bearer ");
    extend_str(&mut bearer, access_token);
    let bearer_text = string_from(bearer.as_slice());
    let mut headers: Vec<(String, String)> = Vec::new();
    headers.push(text_pair("Authorization", bearer_text.as_str()));
    headers.push(text_pair("User-Agent", "codex-cli"));
    headers.push(text_pair("Accept", "application/json"));
    match account_id {
        Some(id) => {
            if chars_of(id.as_str()).len() > 0 {
                headers.push(text_pair("ChatGPT-Account-Id", id.as_str()));
            }
        },
        None => {},
    }
    assert(pair_views(headers@) =~= quota_headers(access_token@, ov(*account_id)));
    headers
}

/// What happened to a quota query once the credentials were read: each
/// failure carries the display text of its error; a response carries its
/// HTTP status (code and display text) and, for a successful status,
/// whether its body parsed.
#[derive(Debug)]
pub enum QuotaExchange {
    PreferencesUnavailable(String),
    ClientUnavailable(String),
    NetworkFailed(String),
    Responded { status: u16, status_text: String, body: Result<(), String> },
}

/// The recorded result of one quota query; on success the caller adds the
/// tiers read from the response body.
#[derive(Debug)]
pub struct CodexQuotaOutcome {
    pub profile_id: String,
    pub success: bool,
    pub credential_status: String,
    pub credential_message: Option<String>,
    pub error: Option<String>,
    pub queried_at: String,
}

/// The error text of a failed exchange, and whether the credentials were
/// rejected; `None` when the query succeeded.
pub open spec fn exchange_failure(x: QuotaExchange) -> Option<(Seq<char>, bool)> {
    match x {
        QuotaExchange::PreferencesUnavailable(e) => Some(
            ("Codex Auth proxy preferences unavailable: "@ + e@, false),
        ),
        QuotaExchange::ClientUnavailable(e) => Some(
            ("Codex Auth proxy configuration error: "@ + e@, false),
        ),
        QuotaExchange::NetworkFailed(e) => Some(("Network error: "@ + e@, false)),
        QuotaExchange::Responded { status, status_text, body } => if status == 401 || status
            == 403 {
            Some(("Authentication failed (HTTP "@ + status_text@ + ")"@, true))
        } else if !(200 <= status && status <= 299) {
            Some(("Codex quota API failed (HTTP "@ + status_text@ + ")"@, false))
        } else {
            match body {
                Err(e) => Some(("Failed to parse quota response: "@ + e@, false)),
                Ok(()) => None,
            }
        },
    }
}

/// The outcome recorded for a quota query: a credentials error is a
/// `parse_error`; rejected credentials are `expired`; any other failure
/// keeps the credentials `valid` with their staleness notice; success
/// records no message and no error.
pub open spec fn quota_outcome_ok(
    profile_id: Seq<char>,
    queried_at: Seq<char>,
    credentials: AppResult<(String, Option<String>, Option<String>)>,
    exchange: QuotaExchange,
    r: CodexQuotaOutcome,
) -> bool {
    &&& r.profile_id@ == profile_id
    &&& r.queried_at@ == queried_at
    &&& match credentials {
        Err(e) => !r.success && r.credential_status@ == "parse_error"@ && ov(r.credential_message)
            == Some(e.message@) && ov(r.error) == Some(e.code@),
        Ok((_, _, notice)) => match exchange_failure(exchange) {
            Some((text, true)) => !r.success && r.credential_status@ == "expired"@ && ov(
                r.credential_message,
            ) == Some("Codex OAuth token was rejected. Please re-login with Codex CLI."@) && ov(
                r.error,
            ) == Some(text),
            Some((text, false)) => !r.success && r.credential_status@ == "valid"@ && ov(
                r.credential_message,
            ) == ov(notice) && ov(r.error) == Some(text),
            None => r.success && r.credential_status@ == "valid"@ && r.credential_message is None
                && r.error is None,
        },
    }
}

fn concat3(a: &str, b: &str, c: &str) -> (r: String)
    ensures
        r@ == a@ + b@ + c@,
{
    let mut v = chars_of(a);
    extend_str(&mut v, b);
    extend_str(&mut v, c);
    string_from(v.as_slice())
}

/// The outcome of a quota query for a profile, from its credentials and
/// what the exchange with the quota endpoint came to.
pub fn codex_quota_outcome(
    profile_id: &str,
    queried_at: &str,
    credentials: &AppResult<(String, Option<String>, Option<String>)>,
    exchange: &QuotaExchange,
) -> (r: CodexQuotaOutcome)
    ensures
        quota_outcome_ok(profile_id@, queried_at@, *credentials, *exchange, r),
{
    let notice = match credentials {
        Err(e) => {
            return CodexQuotaOutcome {
                profile_id: profile_id.to_owned(),
                success: false,
                credential_status: "parse_error".to_owned(),
                credential_message: Some(e.message.clone()),
                error: Some(e.code.clone()),
                queried_at: queried_at.to_owned(),
            };
        },
        Ok((_, _, notice)) => notice,
    };
    let failure: Option<(String, bool)> = match exchange {
        QuotaExchange::PreferencesUnavailable(e) => Some(
            (concat3("Codex Auth proxy preferences unavailable: ", e.as_str(), ""), false),
        ),
        QuotaExchange::ClientUnavailable(e) => Some(
            (concat3("Codex Auth proxy configuration error: ", e.as_str(), ""), false),
        ),
        QuotaExchange::NetworkFailed(e) => Some((concat3("Network error: ", e.as_str(), ""), false)),
        QuotaExchange::Responded { status, status_text, body } => {
            if *status == 401 || *status == 403 {
                Some((concat3("Authentication failed (HTTP ", status_text.as_str(), ")"), true))
            } else if !(200 <= *status && *status <= 299) {
                Some((concat3("Codex quota API failed (HTTP ", status_text.as_str(), ")"), false))
            } else {
                match body {
                    Err(e) => Some(
                        (concat3("Failed to parse quota response: ", e.as_str(), ""), false),
                    ),
                    Ok(()) => None,
                }
            }
        },
    };
    proof {
        reveal_strlit("");
    }
    match failure {
        Some((text, true)) => CodexQuotaOutcome {
            profile_id: profile_id.to_owned(),
            success: false,
            credential_status: "expired".to_owned(),
            credential_message: Some(
                "Codex OAuth token was rejected. Please re-login with Codex CLI.".to_owned(),
            ),
            error: Some(text),
            queried_at: queried_at.to_owned(),
        },
        Some((text, false)) => CodexQuotaOutcome {
            profile_id: profile_id.to_owned(),
            success: false,
            credential_status: "valid".to_owned(),
            credential_message: copy_string_opt(notice),
            error: Some(text),
            queried_at: queried_at.to_owned(),
        },
        None => CodexQuotaOutcome {
            profile_id: profile_id.to_owned(),
            success: true,
            credential_status: "valid".to_owned(),
            credential_message: None,
            error: None,
            queried_at: queried_at.to_owned(),
        },
    }
}

/// The number of outcomes that did not succeed.
pub open spec fn failed_count(outcomes: Seq<CodexQuotaOutcome>) -> nat
    decreases outcomes.len(),
{
    if outcomes.len() == 0 {
        0
    } else {
        failed_count(outcomes.drop_last()) + if outcomes.last().success {
            0nat
        } else {
            1nat
        }
    }
}

/// The totals of a refresh of all quotas: how many profiles, how many
/// refreshed and how many failed.
pub fn quota_refresh_totals(outcomes: &[CodexQuotaOutcome]) -> (r: (usize, usize, usize))
    ensures
        r.0 == outcomes@.len(),
        r.2 == failed_count(outcomes@),
        r.1 == r.0 - r.2,
{
    let mut failed: usize = 0;
    let mut i: usize = 0;
    while i < outcomes.len()
        invariant
            i <= outcomes@.len(),
            failed == failed_count(outcomes@.take(i as int)),
            failed <= i,
        decreases outcomes@.len() - i,
    {
        assert(outcomes@.take(i + 1).drop_last() =~= outcomes@.take(i as int));
        if !outcomes[i].success {
            failed = failed + 1;
        }
        i = i + 1;
    }
    assert(outcomes@.take(outcomes@.len() as int) =~= outcomes@);
    (outcomes.len(), outcomes.len() - failed, failed)
}

} // verus!
