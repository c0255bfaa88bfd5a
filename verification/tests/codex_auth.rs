use bexo_services::codex_auth::{
    attach_codex_auth_rollback_failures, build_imported_profile_name, codex_credentials_at,
    codex_quota_outcome, is_codex_token_stale, is_codex_token_stale_at, plan_codex_quota_proxy,
    quota_refresh_totals, quota_request_headers, rollback_live_codex_config,
    window_seconds_to_tier_name, CodexAuthJson, CodexAuthTokens, CodexQuotaOutcome,
    FileRollbackOutcome, LiveCodexConfigSnapshot, QuotaExchange, QuotaProxyPlan, QuotaWindow,
    quota_tier_heads,
};
use bexo_services::error::AppError;

fn detail<'a>(error: &'a AppError, key: &str) -> Option<&'a str> {
    error
        .details
        .as_ref()
        .and_then(|details| details.get(key))
        .map(|value| value.as_str())
}

fn auth(mode: Option<&str>, token: Option<&str>, account: Option<&str>, refreshed: Option<&str>) -> CodexAuthJson {
    CodexAuthJson {
        auth_mode: mode.map(str::to_string),
        tokens: Some(CodexAuthTokens {
            access_token: token.map(str::to_string),
            account_id: account.map(str::to_string),
        }),
        last_refresh: refreshed.map(str::to_string),
    }
}

#[test]
fn tier_names_cover_known_and_derived_windows() {
    assert_eq!(window_seconds_to_tier_name(18_000), "five_hour");
    assert_eq!(window_seconds_to_tier_name(604_800), "seven_day");
    assert_eq!(window_seconds_to_tier_name(3_600), "1_hour");
    assert_eq!(window_seconds_to_tier_name(7_199), "1_hour");
    assert_eq!(window_seconds_to_tier_name(86_400), "1_day");
    assert_eq!(window_seconds_to_tier_name(2_592_000), "30_day");
    assert_eq!(window_seconds_to_tier_name(0), "0_hour");
    assert_eq!(window_seconds_to_tier_name(-7_200), "-2_hour");
    assert_eq!(window_seconds_to_tier_name(i64::MIN), "-2562047788015215_hour");
}

#[test]
fn rollback_failures_are_joined_and_mark_unknown_state() {
    let error = AppError::new("CODEX_AUTH_SWITCH_FAILED", "switch failed");
    let completed = attach_codex_auth_rollback_failures(error.clone(), Vec::new());
    assert_eq!(detail(&completed, "rollback"), Some("completed"));
    assert_eq!(detail(&completed, "stateConsistency"), None);

    let failed = attach_codex_auth_rollback_failures(
        error,
        vec!["auth.json: denied".to_string(), "database: locked".to_string()],
    );
    assert_eq!(failed.code, "CODEX_AUTH_SWITCH_FAILED");
    assert_eq!(detail(&failed, "rollback"), Some("failed"));
    assert_eq!(detail(&failed, "stateConsistency"), Some("unknown"));
    assert_eq!(
        detail(&failed, "rollbackFailures"),
        Some("auth.json: denied | database: locked")
    );
}

#[test]
fn live_config_rollback_reports_each_file_in_order() {
    let snapshot = LiveCodexConfigSnapshot {
        auth_path: "C:\\Codex\\auth.json".to_string(),
        config_path: "C:\\Codex\\config.toml".to_string(),
        previous_auth: Some("{\"old\":true}".to_string()),
        previous_config: None,
    };
    let restored = FileRollbackOutcome {
        restore: Ok(()),
        read_back: Ok(Some("{\"old\":true}".to_string())),
    };
    let removed = FileRollbackOutcome { restore: Ok(()), read_back: Ok(None) };
    assert!(rollback_live_codex_config(&snapshot, &restored, &removed).is_empty());

    let mismatch = FileRollbackOutcome {
        restore: Ok(()),
        read_back: Ok(Some("{\"new\":true}".to_string())),
    };
    let denied = FileRollbackOutcome {
        restore: Err("access denied".to_string()),
        read_back: Ok(None),
    };
    assert_eq!(
        rollback_live_codex_config(&snapshot, &mismatch, &denied),
        vec![
            "auth.json: rollback verification mismatch".to_string(),
            "config.toml: access denied".to_string(),
        ]
    );
    let unreadable = FileRollbackOutcome {
        restore: Ok(()),
        read_back: Err("io error".to_string()),
    };
    assert_eq!(
        rollback_live_codex_config(&snapshot, &restored, &unreadable),
        vec!["config.toml: verification failed: io error".to_string()]
    );
}

#[test]
fn imported_profile_name_prefers_account_then_home_then_default() {
    let parsed = Some(auth(Some("chatgpt"), Some("tok"), Some("account-1234567890"), None));
    assert_eq!(
        build_imported_profile_name(&parsed, "C:\\Users\\me\\.codex", "20260101-120000"),
        "Codex Auth account- 20260101-120000"
    );
    let blank = Some(auth(Some("chatgpt"), Some("tok"), Some("   "), None));
    assert_eq!(
        build_imported_profile_name(&blank, "C:\\Users\\me\\.codex", "20260101-120000"),
        "Codex Auth .codex 20260101-120000"
    );
    assert_eq!(
        build_imported_profile_name(&None, "", "20260101-120000"),
        "Codex Auth default 20260101-120000"
    );
}

#[test]
fn token_staleness_counts_eight_days() {
    let refreshed = "2026-01-01T00:00:00Z";
    let refreshed_secs: u64 = 1_767_225_600;
    assert!(!is_codex_token_stale_at(refreshed, refreshed_secs + 8 * 24 * 3600));
    assert!(is_codex_token_stale_at(refreshed, refreshed_secs + 8 * 24 * 3600 + 1));
    assert!(!is_codex_token_stale_at(refreshed, refreshed_secs - 10));
    assert!(!is_codex_token_stale_at("not a time", u64::MAX));
    assert!(is_codex_token_stale("2000-01-01T00:00:00Z"));
    assert!(!is_codex_token_stale("garbage"));
}

#[test]
fn credentials_are_read_in_order_of_checks() {
    let parse_error: Result<CodexAuthJson, String> = Err("expected value".to_string());
    let error = codex_credentials_at(&parse_error, 0).unwrap_err();
    assert_eq!(error.code, "CODEX_AUTH_PARSE_FAILED");
    assert_eq!(detail(&error, "reason"), Some("expected value"));

    let api_key = Ok(auth(Some("apikey"), Some("tok"), None, None));
    assert_eq!(
        codex_credentials_at(&api_key, 0).unwrap_err().code,
        "CODEX_AUTH_QUOTA_UNSUPPORTED"
    );

    let no_tokens = Ok(CodexAuthJson {
        auth_mode: Some("chatgpt".to_string()),
        tokens: None,
        last_refresh: None,
    });
    assert_eq!(
        codex_credentials_at(&no_tokens, 0).unwrap_err().message,
        "auth.json does not contain tokens"
    );

    let blank_token = Ok(auth(Some("chatgpt"), Some("  "), None, None));
    assert_eq!(
        codex_credentials_at(&blank_token, 0).unwrap_err().message,
        "auth.json tokens.access_token is missing"
    );

    let stale = Ok(auth(
        Some("chatgpt"),
        Some("tok"),
        Some("acct"),
        Some("2026-01-01T00:00:00Z"),
    ));
    let (token, account, notice) = codex_credentials_at(&stale, 1_767_225_600 + 9 * 24 * 3600).unwrap();
    assert_eq!(token, "tok");
    assert_eq!(account.as_deref(), Some("acct"));
    assert_eq!(
        notice.as_deref(),
        Some("Codex token may be stale because last_refresh is older than 8 days")
    );
    let (_, _, fresh) = codex_credentials_at(&stale, 1_767_225_600).unwrap();
    assert_eq!(fresh, None);
}

#[test]
fn quota_proxy_modes_are_planned() {
    assert!(matches!(plan_codex_quota_proxy(" System ", ""), Ok(QuotaProxyPlan::System)));
    assert!(matches!(plan_codex_quota_proxy("disabled", ""), Ok(QuotaProxyPlan::Disabled)));
    match plan_codex_quota_proxy("manual", "  socks5h://127.0.0.1:1080 ") {
        Ok(QuotaProxyPlan::Manual(url)) => assert_eq!(url, "socks5h://127.0.0.1:1080"),
        _ => panic!("manual proxy expected"),
    }
    let empty = plan_codex_quota_proxy("manual", "  ").unwrap_err();
    assert_eq!(detail(&empty, "field"), Some("codexAuth.proxy.manualProxyUrl"));
    let scheme = plan_codex_quota_proxy("manual", "ftp://proxy").unwrap_err();
    assert_eq!(scheme.message, "Codex Auth 手动代理只支持 http、https、socks5、socks5h");
    let invalid = plan_codex_quota_proxy("manual", "http://[::1").unwrap_err();
    assert_eq!(invalid.message, "Codex Auth 手动代理地址无效");
    assert!(detail(&invalid, "reason").is_some());
    let mode = plan_codex_quota_proxy("pac", "").unwrap_err();
    assert_eq!(detail(&mode, "field"), Some("codexAuth.proxy.mode"));
    assert_eq!(detail(&mode, "allowed"), Some("system, manual, disabled"));
}

#[test]
fn quota_request_headers_add_account_only_when_present() {
    let headers = quota_request_headers("abc", &Some("acct-1".to_string()));
    assert_eq!(
        headers,
        vec![
            ("Authorization".to_string(), "Bearer abc".to_string()),
            ("User-Agent".to_string(), "codex-cli".to_string()),
            ("Accept".to_string(), "application/json".to_string()),
            ("ChatGPT-Account-Id".to_string(), "acct-1".to_string()),
        ]
    );
    assert_eq!(quota_request_headers("abc", &Some(String::new())).len(), 3);
    assert_eq!(quota_request_headers("abc", &None).len(), 3);
}

fn outcome(exchange: QuotaExchange) -> CodexQuotaOutcome {
    let credentials = Ok((
        "tok".to_string(),
        None,
        Some("Codex token may be stale because last_refresh is older than 8 days".to_string()),
    ));
    codex_quota_outcome("p1", "2026-01-01T00:00:00Z", &credentials, &exchange)
}

#[test]
fn quota_outcomes_follow_the_exchange() {
    let parse_error = Err(AppError::new("CODEX_AUTH_PARSE_FAILED", "failed to parse auth.json"));
    let failed = codex_quota_outcome(
        "p1",
        "now",
        &parse_error,
        &QuotaExchange::NetworkFailed("unused".to_string()),
    );
    assert!(!failed.success);
    assert_eq!(failed.credential_status, "parse_error");
    assert_eq!(failed.error.as_deref(), Some("CODEX_AUTH_PARSE_FAILED"));
    assert_eq!(failed.credential_message.as_deref(), Some("failed to parse auth.json"));

    let rejected = outcome(QuotaExchange::Responded {
        status: 401,
        status_text: "401 Unauthorized".to_string(),
        body: Ok(()),
    });
    assert_eq!(rejected.credential_status, "expired");
    assert_eq!(
        rejected.error.as_deref(),
        Some("Authentication failed (HTTP 401 Unauthorized)")
    );

    let server = outcome(QuotaExchange::Responded {
        status: 503,
        status_text: "503 Service Unavailable".to_string(),
        body: Ok(()),
    });
    assert_eq!(server.credential_status, "valid");
    assert_eq!(
        server.error.as_deref(),
        Some("Codex quota API failed (HTTP 503 Service Unavailable)")
    );
    assert!(server.credential_message.is_some());

    let network = outcome(QuotaExchange::NetworkFailed("timed out".to_string()));
    assert_eq!(network.error.as_deref(), Some("Network error: timed out"));

    let body = outcome(QuotaExchange::Responded {
        status: 200,
        status_text: "200 OK".to_string(),
        body: Err("missing field".to_string()),
    });
    assert_eq!(
        body.error.as_deref(),
        Some("Failed to parse quota response: missing field")
    );

    let ok = outcome(QuotaExchange::Responded {
        status: 200,
        status_text: "200 OK".to_string(),
        body: Ok(()),
    });
    assert!(ok.success);
    assert_eq!(ok.error, None);
    assert_eq!(ok.credential_message, None);
    assert_eq!(ok.profile_id, "p1");

    let totals = quota_refresh_totals(&[ok, network, body]);
    assert_eq!(totals, (3, 1, 2));
}

#[test]
fn quota_tiers_come_from_windows_that_report_usage() {
    let windows = vec![
        QuotaWindow { has_utilization: true, limit_window_seconds: Some(18000), reset_at: Some(0) },
        QuotaWindow { has_utilization: false, limit_window_seconds: Some(604800), reset_at: None },
        QuotaWindow { has_utilization: true, limit_window_seconds: None, reset_at: None },
    ];
    let heads = quota_tier_heads(&windows);
    assert_eq!(heads.len(), 2);
    assert_eq!(heads[0].window_index, 0);
    assert_eq!(heads[0].name, "five_hour");
    assert_eq!(heads[0].resets_at.as_deref(), Some("1970-01-01T00:00:00+00:00"));
    assert_eq!(heads[1].window_index, 2);
    assert_eq!(heads[1].name, "unknown");
    assert_eq!(heads[1].resets_at, None);
}
