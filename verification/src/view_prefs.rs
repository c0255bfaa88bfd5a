//! Validation and repair of the Codex history view and Codex auth
//! preferences: font family and size, quota refresh interval, proxy.
use vstd::prelude::*;

use crate::error::{lemma_detail_keys_distinct, AppError, AppResult};
use crate::preferences::{
    CodexAuthPreferences, CodexAuthProxyPreferences, CodexHistoryViewPreferences,
    DEFAULT_CODEX_AUTH_PROXY_MODE, DEFAULT_CODEX_AUTH_QUOTA_REFRESH_INTERVAL_SECONDS,
    DEFAULT_CODEX_HISTORY_MESSAGE_FONT_SIZE,
};
use crate::text::{
    chars_eq_str, has_ctl, has_ctl_chars, is_prefix, is_ws, lemma_trim_idempotent, lower, lower_chars,
    starts_with_str, string_from, trim, trim_chars, trim_end, trim_start,
};

verus! {

pub const CODEX_HISTORY_MIN_MESSAGE_FONT_SIZE: i32 = 10;

pub const CODEX_HISTORY_MAX_MESSAGE_FONT_SIZE: i32 = 24;

pub const CODEX_HISTORY_MAX_FONT_FAMILY_LENGTH: usize = 160;

pub const CODEX_AUTH_MIN_QUOTA_REFRESH_INTERVAL_SECONDS: i32 = 10;

pub const CODEX_AUTH_MAX_QUOTA_REFRESH_INTERVAL_SECONDS: i32 = 3600;

pub const CODEX_AUTH_MAX_MANUAL_PROXY_URL_LENGTH: usize = 512;

/// `e` is a validation error that names `field`.
pub open spec fn field_error(e: AppError, field: Seq<char>) -> bool {
    &&& e.code@ == "VALIDATION_ERROR"@
    &&& e.has_detail("field"@, field)
}

// ---------------------------------------------------------------------------
// Codex history view
// ---------------------------------------------------------------------------

/// A font family is refused when, trimmed, it is longer than 160 characters
/// or holds a control character.
pub open spec fn font_family_refused(s: Seq<char>) -> bool {
    trim(s).len() > 160 || has_ctl(trim(s))
}

pub open spec fn font_size_in_range(n: i32) -> bool {
    10 <= n <= 24
}

pub fn validate_codex_history_font_family(input: String) -> (r: AppResult<String>)
    ensures
        r is Err <==> font_family_refused(input@),
        r matches Ok(v) ==> v@ == trim(input@),
        r matches Err(e) ==> field_error(e, "codexHistory.messageFontFamily"@),
{
    let trimmed = trim_chars(input.as_str());
    if trimmed.len() > CODEX_HISTORY_MAX_FONT_FAMILY_LENGTH {
        return Err(
            AppError::validation("Codex 历史字体名称不能超过 160 个字符").with_detail(
                "field",
                "codexHistory.messageFontFamily",
            ),
        );
    }
    if has_ctl_chars(trimmed.as_slice()) {
        return Err(
            AppError::validation("Codex 历史字体名称不能包含换行或控制字符").with_detail(
                "field",
                "codexHistory.messageFontFamily",
            ),
        );
    }
    Ok(string_from(trimmed.as_slice()))
}

pub fn validate_codex_history_message_font_size(input: i32) -> (r: AppResult<i32>)
    ensures
        r is Ok <==> font_size_in_range(input),
        r matches Ok(v) ==> v == input,
        r matches Err(e) ==> field_error(e, "codexHistory.messageFontSize"@),
{
    if !(CODEX_HISTORY_MIN_MESSAGE_FONT_SIZE <= input && input <= CODEX_HISTORY_MAX_MESSAGE_FONT_SIZE) {
        return Err(
            AppError::validation("Codex 历史字号必须在 10px 到 24px 之间").with_detail(
                "field",
                "codexHistory.messageFontSize",
            ),
        );
    }
    Ok(input)
}

pub fn validate_codex_history_view_preferences(input: CodexHistoryViewPreferences) -> (r: AppResult<
    CodexHistoryViewPreferences,
>)
    ensures
        r is Ok <==> !font_family_refused(input.message_font_family@) && font_size_in_range(
            input.message_font_size,
        ),
        r matches Ok(v) ==> v.message_font_family@ == trim(input.message_font_family@)
            && v.message_font_size == input.message_font_size,
        r matches Err(e) ==> if font_family_refused(input.message_font_family@) {
            field_error(e, "codexHistory.messageFontFamily"@)
        } else {
            field_error(e, "codexHistory.messageFontSize"@)
        },
{
    let message_font_family = match validate_codex_history_font_family(input.message_font_family) {
        Ok(v) => v,
        Err(e) => {
            return Err(e);
        },
    };
    let message_font_size = match validate_codex_history_message_font_size(input.message_font_size) {
        Ok(v) => v,
        Err(e) => {
            return Err(e);
        },
    };
    Ok(CodexHistoryViewPreferences { message_font_family, message_font_size })
}

/// `out` and `changed` are the repair of `input`.
pub open spec fn history_repaired(
    input: CodexHistoryViewPreferences,
    out: CodexHistoryViewPreferences,
    changed: bool,
) -> bool {
    &&& out.message_font_family@ == (if font_family_refused(input.message_font_family@) {
        Seq::<char>::empty()
    } else {
        trim(input.message_font_family@)
    })
    &&& out.message_font_size == (if font_size_in_range(input.message_font_size) {
        input.message_font_size
    } else {
        DEFAULT_CODEX_HISTORY_MESSAGE_FONT_SIZE
    })
    &&& changed == history_changed(input)
}

/// Repair changes the Codex history view preferences.
pub open spec fn history_changed(input: CodexHistoryViewPreferences) -> bool {
    font_family_refused(input.message_font_family@) || trim(input.message_font_family@)
        != input.message_font_family@ || !font_size_in_range(input.message_font_size)
}

pub struct CodexHistoryViewPreferenceRepairResult {
    pub preferences: CodexHistoryViewPreferences,
    pub changed: bool,
}

/// Repairs stored Codex history view preferences: a refused font family
/// becomes the default (empty) one, an out-of-range size the default size.
pub fn sanitize_codex_history_view_preferences(input: CodexHistoryViewPreferences) -> (r:
    CodexHistoryViewPreferenceRepairResult)
    ensures
        history_repaired(input, r.preferences, r.changed),
{
    let defaults = CodexHistoryViewPreferences::default();
    let mut changed = false;
    let message_font_family = match validate_codex_history_font_family(
        input.message_font_family.clone(),
    ) {
        Ok(validated) => {
            if !validated.eq(&input.message_font_family) {
                changed = true;
            }
            validated
        },
        Err(_) => {
            changed = true;
            assert(defaults.message_font_family@ =~= Seq::<char>::empty());
            defaults.message_font_family
        },
    };
    let message_font_size = if CODEX_HISTORY_MIN_MESSAGE_FONT_SIZE <= input.message_font_size
        && input.message_font_size <= CODEX_HISTORY_MAX_MESSAGE_FONT_SIZE {
        input.message_font_size
    } else {
        changed = true;
        DEFAULT_CODEX_HISTORY_MESSAGE_FONT_SIZE
    };
    CodexHistoryViewPreferenceRepairResult {
        preferences: CodexHistoryViewPreferences { message_font_family, message_font_size },
        changed,
    }
}

// ---------------------------------------------------------------------------
// Codex auth
// ---------------------------------------------------------------------------

pub open spec fn interval_in_range(n: i32) -> bool {
    10 <= n <= 3600
}

pub fn validate_codex_auth_quota_refresh_interval_seconds(input: i32) -> (r: AppResult<i32>)
    ensures
        r is Ok <==> interval_in_range(input),
        r matches Ok(v) ==> v == input,
        r matches Err(e) ==> field_error(e, "codexAuth.quotaRefreshIntervalSeconds"@),
{
    if !(CODEX_AUTH_MIN_QUOTA_REFRESH_INTERVAL_SECONDS <= input && input
        <= CODEX_AUTH_MAX_QUOTA_REFRESH_INTERVAL_SECONDS) {
        return Err(
            AppError::validation("Codex Auth 额度刷新间隔必须在 10 秒到 3600 秒之间").with_detail(
                "field",
                "codexAuth.quotaRefreshIntervalSeconds",
            ),
        );
    }
    Ok(input)
}

pub open spec fn proxy_mode(p: CodexAuthProxyPreferences) -> Seq<char> {
    lower(trim(p.mode@))
}

pub open spec fn proxy_url(p: CodexAuthProxyPreferences) -> Seq<char> {
    trim(p.manual_proxy_url@)
}

pub open spec fn is_proxy_mode(m: Seq<char>) -> bool {
    m == "system"@ || m == "manual"@ || m == "disabled"@
}

pub open spec fn has_proxy_scheme(url: Seq<char>) -> bool {
    let l = lower(url);
    is_prefix("http://"@, l) || is_prefix("https://"@, l) || is_prefix("socks5://"@, l) || is_prefix(
        "socks5h://"@,
        l,
    )
}

pub enum ProxyRejection {
    Mode,
    UrlTooLong,
    UrlControl,
    UrlRequired,
    UrlScheme,
}

/// Why proxy preferences are refused, if they are; the checks run in this
/// order.
pub open spec fn proxy_rejection(p: CodexAuthProxyPreferences) -> Option<ProxyRejection> {
    let m = proxy_mode(p);
    let u = proxy_url(p);
    if !is_proxy_mode(m) {
        Some(ProxyRejection::Mode)
    } else if u.len() > 512 {
        Some(ProxyRejection::UrlTooLong)
    } else if has_ctl(u) {
        Some(ProxyRejection::UrlControl)
    } else if m == "manual"@ && u.len() == 0 {
        Some(ProxyRejection::UrlRequired)
    } else if u.len() > 0 && !has_proxy_scheme(u) {
        Some(ProxyRejection::UrlScheme)
    } else {
        None
    }
}

pub open spec fn proxy_rejection_error(e: AppError, rej: ProxyRejection) -> bool {
    match rej {
        ProxyRejection::Mode => {
            &&& field_error(e, "codexAuth.proxy.mode"@)
            &&& e.has_detail("allowed"@, "system, manual, disabled"@)
        },
        _ => field_error(e, "codexAuth.proxy.manualProxyUrl"@),
    }
}

pub fn validate_codex_auth_proxy_preferences(input: CodexAuthProxyPreferences) -> (r: AppResult<
    CodexAuthProxyPreferences,
>)
    ensures
        match proxy_rejection(input) {
            Some(rej) => r matches Err(e) && proxy_rejection_error(e, rej),
            None => r matches Ok(v) && v.mode@ == proxy_mode(input) && v.manual_proxy_url@ == proxy_url(
                input,
            ),
        },
{
    proof {
        lemma_detail_keys_distinct();
    }
    let mode = lower_chars(trim_chars(input.mode.as_str()).as_slice());
    if !(chars_eq_str(mode.as_slice(), "system") || chars_eq_str(mode.as_slice(), "manual")
        || chars_eq_str(mode.as_slice(), "disabled")) {
        return Err(
            AppError::validation("Codex Auth 额度代理模式无效").with_detail(
                "field",
                "codexAuth.proxy.mode",
            ).with_detail("allowed", "system, manual, disabled"),
        );
    }
    let url = trim_chars(input.manual_proxy_url.as_str());
    if url.len() > CODEX_AUTH_MAX_MANUAL_PROXY_URL_LENGTH {
        return Err(
            AppError::validation("Codex Auth 手动代理地址不能超过 512 个字符").with_detail(
                "field",
                "codexAuth.proxy.manualProxyUrl",
            ),
        );
    }
    if has_ctl_chars(url.as_slice()) {
        return Err(
            AppError::validation("Codex Auth 手动代理地址不能包含换行或控制字符").with_detail(
                "field",
                "codexAuth.proxy.manualProxyUrl",
            ),
        );
    }
    if chars_eq_str(mode.as_slice(), "manual") && url.len() == 0 {
        return Err(
            AppError::validation("手动代理模式必须填写代理地址").with_detail(
                "field",
                "codexAuth.proxy.manualProxyUrl",
            ),
        );
    }
    if url.len() > 0 {
        let lower_url = lower_chars(url.as_slice());
        if !starts_with_str(lower_url.as_slice(), "http://") && !starts_with_str(
            lower_url.as_slice(),
            "https://",
        ) && !starts_with_str(lower_url.as_slice(), "socks5://") && !starts_with_str(
            lower_url.as_slice(),
            "socks5h://",
        ) {
            return Err(
                AppError::validation("Codex Auth 手动代理只支持 http、https、socks5、socks5h").with_detail(
                    "field",
                    "codexAuth.proxy.manualProxyUrl",
                ),
            );
        }
    }
    proof {
        reveal_strlit("system");
        reveal_strlit("manual");
        reveal_strlit("disabled");
    }
    let mode_text = if mode.len() == 0 {
        DEFAULT_CODEX_AUTH_PROXY_MODE.to_owned()
    } else {
        string_from(mode.as_slice())
    };
    Ok(CodexAuthProxyPreferences { mode: mode_text, manual_proxy_url: string_from(url.as_slice()) })
}

pub fn validate_codex_auth_preferences(input: CodexAuthPreferences) -> (r: AppResult<
    CodexAuthPreferences,
>)
    ensures
        r is Ok <==> interval_in_range(input.quota_refresh_interval_seconds) && proxy_rejection(
            input.proxy,
        ) is None,
        r matches Ok(v) ==> v.quota_refresh_interval_seconds == input.quota_refresh_interval_seconds
            && v.proxy.mode@ == proxy_mode(input.proxy) && v.proxy.manual_proxy_url@ == proxy_url(
            input.proxy,
        ),
        r matches Err(e) ==> if !interval_in_range(input.quota_refresh_interval_seconds) {
            field_error(e, "codexAuth.quotaRefreshIntervalSeconds"@)
        } else {
            proxy_rejection_error(e, proxy_rejection(input.proxy)->Some_0)
        },
{
    let quota_refresh_interval_seconds = match validate_codex_auth_quota_refresh_interval_seconds(
        input.quota_refresh_interval_seconds,
    ) {
        Ok(v) => v,
        Err(e) => {
            return Err(e);
        },
    };
    let proxy = match validate_codex_auth_proxy_preferences(input.proxy) {
        Ok(v) => v,
        Err(e) => {
            return Err(e);
        },
    };
    Ok(CodexAuthPreferences { quota_refresh_interval_seconds, proxy })
}

/// `out` and `changed` are the repair of `input`.
pub open spec fn auth_repaired(input: CodexAuthPreferences, out: CodexAuthPreferences, changed: bool) -> bool {
    &&& out.quota_refresh_interval_seconds == (if interval_in_range(input.quota_refresh_interval_seconds) {
        input.quota_refresh_interval_seconds
    } else {
        DEFAULT_CODEX_AUTH_QUOTA_REFRESH_INTERVAL_SECONDS
    })
    &&& proxy_rejection(input.proxy) is None ==> out.proxy.mode@ == proxy_mode(input.proxy)
        && out.proxy.manual_proxy_url@ == proxy_url(input.proxy)
    &&& proxy_rejection(input.proxy) is Some ==> out.proxy.mode@ == DEFAULT_CODEX_AUTH_PROXY_MODE@
        && out.proxy.manual_proxy_url@.len() == 0
    &&& changed == auth_changed(input)
}

/// Repair changes the Codex auth preferences.
pub open spec fn auth_changed(input: CodexAuthPreferences) -> bool {
    !interval_in_range(input.quota_refresh_interval_seconds) || proxy_rejection(input.proxy) is Some
        || proxy_mode(input.proxy) != input.proxy.mode@ || proxy_url(input.proxy)
        != input.proxy.manual_proxy_url@
}

pub struct CodexAuthPreferenceRepairResult {
    pub preferences: CodexAuthPreferences,
    pub changed: bool,
}

/// Repairs stored Codex auth preferences: an out-of-range interval becomes
/// the default one, refused proxy preferences the default (system) proxy.
pub fn sanitize_codex_auth_preferences(input: CodexAuthPreferences) -> (r:
    CodexAuthPreferenceRepairResult)
    ensures
        auth_repaired(input, r.preferences, r.changed),
{
    let mut changed = false;
    let quota_refresh_interval_seconds = if CODEX_AUTH_MIN_QUOTA_REFRESH_INTERVAL_SECONDS
        <= input.quota_refresh_interval_seconds && input.quota_refresh_interval_seconds
        <= CODEX_AUTH_MAX_QUOTA_REFRESH_INTERVAL_SECONDS {
        input.quota_refresh_interval_seconds
    } else {
        changed = true;
        DEFAULT_CODEX_AUTH_QUOTA_REFRESH_INTERVAL_SECONDS
    };
    let proxy = match validate_codex_auth_proxy_preferences(input.proxy.clone()) {
        Ok(validated) => {
            if !validated.mode.eq(&input.proxy.mode) || !validated.manual_proxy_url.eq(
                &input.proxy.manual_proxy_url,
            ) {
                changed = true;
            }
            validated
        },
        Err(_) => {
            changed = true;
            CodexAuthProxyPreferences::default()
        },
    };
    CodexAuthPreferenceRepairResult {
        preferences: CodexAuthPreferences { quota_refresh_interval_seconds, proxy },
        changed,
    }
}

// ---------------------------------------------------------------------------
// Laws
// ---------------------------------------------------------------------------

/// Text without leading or trailing whitespace is its own trim.
proof fn lemma_trim_fixed(s: Seq<char>)
    requires
        s.len() == 0 || (!is_ws(s[0]) && !is_ws(s.last())),
    ensures
        trim(s) == s,
{
    assert(trim_start(s) == s);
    assert(trim_end(s) == s);
}

/// A proxy mode that is accepted reads back as itself.
proof fn lemma_proxy_mode_fixed(m: Seq<char>)
    requires
        is_proxy_mode(m),
    ensures
        lower(trim(m)) == m,
{
    reveal_strlit("system");
    reveal_strlit("manual");
    reveal_strlit("disabled");
    lemma_trim_fixed(m);
    assert(lower(m) =~= m);
}

/// Repaired Codex history view preferences pass validation, and repairing
/// them again changes nothing.
pub proof fn law_history_repair_settles(
    input: CodexHistoryViewPreferences,
    out: CodexHistoryViewPreferences,
    changed: bool,
)
    requires
        history_repaired(input, out, changed),
    ensures
        !font_family_refused(out.message_font_family@),
        font_size_in_range(out.message_font_size),
        !history_changed(out),
{
    lemma_trim_idempotent(input.message_font_family@);
    lemma_trim_fixed(Seq::<char>::empty());
    assert(!has_ctl(Seq::<char>::empty()));
}

/// Repaired Codex auth preferences pass validation, and repairing them again
/// changes nothing.
pub proof fn law_auth_repair_settles(input: CodexAuthPreferences, out: CodexAuthPreferences, changed: bool)
    requires
        auth_repaired(input, out, changed),
    ensures
        interval_in_range(out.quota_refresh_interval_seconds),
        proxy_rejection(out.proxy) is None,
        !auth_changed(out),
{
    reveal_strlit("system");
    reveal_strlit("manual");
    if proxy_rejection(input.proxy) is None {
        lemma_proxy_mode_fixed(proxy_mode(input.proxy));
        lemma_trim_idempotent(input.proxy.manual_proxy_url@);
        assert(proxy_mode(out.proxy) == proxy_mode(input.proxy));
        assert(proxy_url(out.proxy) == proxy_url(input.proxy));
    } else {
        assert(out.proxy.mode@ == "system"@);
        lemma_proxy_mode_fixed("system"@);
        lemma_trim_fixed(out.proxy.manual_proxy_url@);
        assert(!has_ctl(out.proxy.manual_proxy_url@));
        assert("system"@ != "manual"@) by {
            assert("system"@[0] != "manual"@[0]);
        }
    }
}

} // verus!
