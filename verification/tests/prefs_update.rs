use bexo_services::error::AppError;
use bexo_services::preferences::{AppPreferences, AppPreferencesPatch, StartupPreferences};
use bexo_services::prefs_service::{PreferenceProbes, PreferencesService};
use bexo_services::prefs_update::{PreferencesUpdate, UpdateEffect, UpdateStage};

fn detail<'a>(error: &'a AppError, key: &str) -> Option<&'a str> {
    error
        .details
        .as_ref()
        .and_then(|details| details.get(key))
        .map(|value| value.as_str())
}

fn prefs(launch_at_login: bool) -> AppPreferences {
    let mut p = AppPreferences::default();
    p.startup.launch_at_login = launch_at_login;
    p
}

fn effect_name(e: &UpdateEffect) -> String {
    match e {
        UpdateEffect::SyncAutostart(on) => format!("autostart:{on}"),
        UpdateEffect::ApplyHotkeys { restore } => format!("hotkeys:{restore}"),
        UpdateEffect::OpenStore => "open".to_string(),
        UpdateEffect::WriteStore { restore } => format!("write:{restore}"),
        UpdateEffect::ReplaceCache => "cache".to_string(),
        UpdateEffect::Finish => "finish".to_string(),
    }
}

/// Runs an update, failing the effects named in `failing`, and returns the
/// effects made and the result.
fn run(previous: AppPreferences, validated: AppPreferences, failing: &[&str]) -> (Vec<String>, Result<AppPreferences, AppError>) {
    let mut update = PreferencesUpdate::new(previous, validated);
    let mut effects = Vec::new();
    loop {
        let effect = update.next_effect();
        let name = effect_name(&effect);
        if matches!(effect, UpdateEffect::Finish) {
            effects.push(name);
            break;
        }
        let result = if failing.contains(&name.as_str()) {
            Err(AppError::new("EFFECT_FAILED", &format!("{name} failed")))
        } else {
            Ok(())
        };
        effects.push(name);
        update.effect_done(result);
    }
    (effects, update.finish())
}

#[test]
fn successful_update_makes_every_effect_once() {
    let (effects, result) = run(prefs(false), prefs(true), &[]);
    assert_eq!(
        effects,
        vec!["autostart:true", "hotkeys:false", "open", "write:false", "cache", "finish"]
    );
    assert!(result.unwrap().startup.launch_at_login);

    let (effects, _) = run(prefs(false), prefs(false), &[]);
    assert_eq!(effects, vec!["hotkeys:false", "open", "write:false", "cache", "finish"]);
}

#[test]
fn failed_autostart_sync_is_returned_without_rollback() {
    let (effects, result) = run(prefs(false), prefs(true), &["autostart:true"]);
    assert_eq!(effects, vec!["autostart:true", "finish"]);
    let error = result.unwrap_err();
    assert_eq!(error.message, "autostart:true failed");
    assert_eq!(detail(&error, "rollbackFailure"), None);
}

#[test]
fn failed_store_write_restores_store_hotkeys_and_autostart() {
    let (effects, result) = run(prefs(false), prefs(true), &["write:false"]);
    assert_eq!(
        effects,
        vec![
            "autostart:true",
            "hotkeys:false",
            "open",
            "write:false",
            "write:true",
            "hotkeys:true",
            "autostart:false",
            "finish"
        ]
    );
    let error = result.unwrap_err();
    assert_eq!(error.message, "write:false failed");
    assert_eq!(detail(&error, "stateConsistency"), None);
}

#[test]
fn rollback_failures_are_recorded_on_the_error() {
    let (effects, result) = run(prefs(true), prefs(false), &["cache", "write:true", "autostart:true"]);
    assert_eq!(
        effects,
        vec![
            "autostart:false",
            "hotkeys:false",
            "open",
            "write:false",
            "cache",
            "write:true",
            "hotkeys:true",
            "autostart:true",
            "finish"
        ]
    );
    let error = result.unwrap_err();
    assert_eq!(error.message, "cache failed");
    assert_eq!(
        detail(&error, "rollbackFailure"),
        Some("store: code=EFFECT_FAILED message=write:true failed; autostart: code=EFFECT_FAILED message=autostart:true failed")
    );
    assert_eq!(detail(&error, "stateConsistency"), Some("unknown"));
}

#[test]
fn failed_hotkeys_skip_the_store() {
    let (effects, _) = run(prefs(false), prefs(false), &["hotkeys:false", "hotkeys:true"]);
    assert_eq!(effects, vec!["hotkeys:false", "hotkeys:true", "finish"]);
    let update = PreferencesUpdate::new(prefs(false), prefs(false));
    assert!(update.stage == UpdateStage::ApplyingHotkeys);
}

fn all_found() -> PreferenceProbes {
    PreferenceProbes {
        windows_terminal: Ok(()),
        codex_cli: Ok(()),
        vscode: Ok(()),
        jetbrains: Ok(()),
        editor_commands: Vec::new(),
    }
}

fn drive(update: &mut PreferencesUpdate, failing: &[&str]) {
    loop {
        let effect = update.next_effect();
        let name = effect_name(&effect);
        if matches!(effect, UpdateEffect::Finish) {
            break;
        }
        let result = if failing.contains(&name.as_str()) {
            Err(AppError::new("EFFECT_FAILED", &format!("{name} failed")))
        } else {
            Ok(())
        };
        update.effect_done(result);
    }
}

fn startup_patch() -> AppPreferencesPatch {
    let mut patch = AppPreferencesPatch::default();
    patch.startup = Some(StartupPreferences { launch_at_login: true, start_silently: false });
    patch
}

#[test]
fn service_update_replaces_the_cache_only_when_it_succeeds() {
    let mut service = PreferencesService::new();
    let mut update = service.begin_update(startup_patch(), &all_found()).expect("valid patch");
    drive(&mut update, &[]);
    let stored = service.complete_update(update).expect("update succeeds");
    assert!(stored.startup.launch_at_login);
    assert!(service.get_preferences().unwrap().startup.launch_at_login);

    let mut failing = PreferencesService::new();
    let mut update = failing.begin_update(startup_patch(), &all_found()).expect("valid patch");
    drive(&mut update, &["write:false"]);
    let error = failing.complete_update(update).unwrap_err();
    assert_eq!(error.message, "write:false failed");
    assert_eq!(failing.get_preferences().unwrap(), AppPreferences::default());
}

#[test]
fn service_update_refuses_invalid_patches_before_any_effect() {
    let service = PreferencesService::new();
    let mut patch = AppPreferencesPatch::default();
    let mut history = AppPreferences::default().codex_history;
    history.message_font_size = 99;
    patch.codex_history = Some(history);
    let error = service.begin_update(patch, &all_found()).unwrap_err();
    assert_eq!(error.code, "VALIDATION_ERROR");
    assert_eq!(service.get_preferences().unwrap(), AppPreferences::default());
}
