//! Whole-preference validation and repair, and the in-memory preference
//! cache.
use vstd::prelude::*;

use crate::error::{lemma_detail_keys_distinct, AppError, AppResult};
use crate::hotkey_prefs::{hotkey_error, hotkey_rejection_error, validate_hotkey_preferences, validated_hotkey};
use crate::hotkey_repair::{hotkey_repaired, sanitize_hotkey_preferences};
use crate::preferences::{
    apply_preferences_patch, is_default_prefs, migrate_legacy_preferences, migrated, patched,
    same_prefs, AppPreferences, AppPreferencesPatch, IdePreferences, TerminalPreferences,
};
use crate::prefs_update::{PreferencesUpdate, UpdateStage};
use crate::terminal_prefs::{
    ids_error, ids_ok, kept_ids, renumbered, sort_by_order, template_models,
    template_rejection_error, templates_error, validate_command_templates,
    validate_workspace_preferences, validated_templates,
};
use crate::text::{extend_str, join_strings, joined, string_views};
use crate::tool_prefs::{
    editor_rejection_error, editors_error, opt_seq, tool_path_error, tool_path_ok, tool_path_value,
    validate_custom_editors, validate_tool_path, validated_editor, PathStatus,
};
use crate::view_prefs::{
    auth_changed, auth_repaired, font_family_refused, history_changed, font_size_in_range, history_repaired, interval_in_range,
    proxy_mode, proxy_rejection, proxy_url, sanitize_codex_auth_preferences,
    sanitize_codex_history_view_preferences, validate_codex_auth_preferences,
    validate_codex_history_view_preferences,
};

verus! {

/// What the file system and the executable resolver said about the paths
/// that a set of preferences names. `editor_commands[i]` answers for the
/// command of custom editor `i` when it is an absolute path.
pub struct PreferenceProbes {
    pub windows_terminal: Result<(), AppError>,
    pub codex_cli: Result<(), AppError>,
    pub vscode: Result<(), AppError>,
    pub jetbrains: Result<(), AppError>,
    pub editor_commands: Vec<PathStatus>,
}

// ---------------------------------------------------------------------------
// Terminal and IDE
// ---------------------------------------------------------------------------

pub open spec fn terminal_ok(t: TerminalPreferences, p: PreferenceProbes) -> bool {
    &&& tool_path_ok(t.windows_terminal_path, p.windows_terminal)
    &&& tool_path_ok(t.codex_cli_path, p.codex_cli)
    &&& templates_error(t.command_templates@) is None
}

pub open spec fn terminal_validated(t: TerminalPreferences, v: TerminalPreferences) -> bool {
    &&& opt_seq(v.windows_terminal_path) == tool_path_value(t.windows_terminal_path)
    &&& opt_seq(v.codex_cli_path) == tool_path_value(t.codex_cli_path)
    &&& v.command_shell == t.command_shell
    &&& template_models(v.command_templates@) == renumbered(
        sort_by_order(validated_templates(t.command_templates@)),
    )
}

pub open spec fn terminal_error(e: AppError, t: TerminalPreferences, p: PreferenceProbes) -> bool {
    if !tool_path_ok(t.windows_terminal_path, p.windows_terminal) {
        tool_path_error(e, "terminal.windowsTerminalPath"@, t.windows_terminal_path, p.windows_terminal)
    } else if !tool_path_ok(t.codex_cli_path, p.codex_cli) {
        tool_path_error(e, "terminal.codexCliPath"@, t.codex_cli_path, p.codex_cli)
    } else {
        template_rejection_error(e, templates_error(t.command_templates@)->Some_0)
    }
}

fn copy_probe(r: &Result<(), AppError>) -> (c: Result<(), AppError>)
    ensures
        c is Ok <==> r is Ok,
        c matches Err(ce) ==> r matches Err(re) && ce.code == re.code && ce.message == re.message
            && ce.detail_map() == re.detail_map(),
{
    match r {
        Ok(()) => Ok(()),
        Err(e) => Err(copy_error(e)),
    }
}

fn copy_error(e: &AppError) -> (c: AppError)
    ensures
        c.code == e.code,
        c.message == e.message,
        c.detail_map() == e.detail_map(),
        c.retryable == e.retryable,
{
    AppError {
        code: e.code.clone(),
        message: e.message.clone(),
        details: match &e.details {
            Some(d) => Some(d.copy()),
            None => None,
        },
        retryable: e.retryable,
    }
}

pub fn validate_terminal_preferences(input: TerminalPreferences, probes: &PreferenceProbes) -> (r:
    AppResult<TerminalPreferences>)
    ensures
        r is Ok <==> terminal_ok(input, *probes),
        r matches Ok(v) ==> terminal_validated(input, v),
        r matches Err(e) ==> terminal_error(e, input, *probes),
{
    let windows_terminal_path = match validate_tool_path(
        "terminal.windowsTerminalPath",
        input.windows_terminal_path,
        copy_probe(&probes.windows_terminal),
    ) {
        Ok(v) => v,
        Err(e) => {
            return Err(e);
        },
    };
    let codex_cli_path = match validate_tool_path(
        "terminal.codexCliPath",
        input.codex_cli_path,
        copy_probe(&probes.codex_cli),
    ) {
        Ok(v) => v,
        Err(e) => {
            return Err(e);
        },
    };
    let command_shell = crate::terminal_prefs::validate_terminal_command_shell(input.command_shell);
    let command_templates = match validate_command_templates(input.command_templates) {
        Ok(v) => v,
        Err(e) => {
            return Err(e);
        },
    };
    Ok(TerminalPreferences { windows_terminal_path, codex_cli_path, command_shell, command_templates })
}

pub open spec fn ide_ok(i: IdePreferences, p: PreferenceProbes) -> bool {
    &&& tool_path_ok(i.vscode_path, p.vscode)
    &&& tool_path_ok(i.jetbrains_path, p.jetbrains)
    &&& editors_error(i.custom_editors@, p.editor_commands@) is None
}

pub open spec fn ide_validated(i: IdePreferences, v: IdePreferences) -> bool {
    &&& opt_seq(v.vscode_path) == tool_path_value(i.vscode_path)
    &&& opt_seq(v.jetbrains_path) == tool_path_value(i.jetbrains_path)
    &&& v.custom_editors@.len() == i.custom_editors@.len()
    &&& forall|k: int|
        0 <= k < v.custom_editors@.len() ==> validated_editor(
            i.custom_editors@[k],
            #[trigger] v.custom_editors@[k],
        )
}

pub open spec fn ide_error(e: AppError, i: IdePreferences, p: PreferenceProbes) -> bool {
    if !tool_path_ok(i.vscode_path, p.vscode) {
        tool_path_error(e, "ide.vscodePath"@, i.vscode_path, p.vscode)
    } else if !tool_path_ok(i.jetbrains_path, p.jetbrains) {
        tool_path_error(e, "ide.jetbrainsPath"@, i.jetbrains_path, p.jetbrains)
    } else {
        editor_rejection_error(
            e,
            i.custom_editors@,
            editors_error(i.custom_editors@, p.editor_commands@)->Some_0,
        )
    }
}

pub fn validate_ide_preferences(input: IdePreferences, probes: &PreferenceProbes) -> (r: AppResult<
    IdePreferences,
>)
    requires
        probes.editor_commands@.len() == input.custom_editors@.len(),
    ensures
        r is Ok <==> ide_ok(input, *probes),
        r matches Ok(v) ==> ide_validated(input, v),
        r matches Err(e) ==> ide_error(e, input, *probes),
{
    let vscode_path = match validate_tool_path("ide.vscodePath", input.vscode_path, copy_probe(&probes.vscode)) {
        Ok(v) => v,
        Err(e) => {
            return Err(e);
        },
    };
    let jetbrains_path = match validate_tool_path(
        "ide.jetbrainsPath",
        input.jetbrains_path,
        copy_probe(&probes.jetbrains),
    ) {
        Ok(v) => v,
        Err(e) => {
            return Err(e);
        },
    };
    let custom_editors = match validate_custom_editors(input.custom_editors, &probes.editor_commands) {
        Ok(v) => v,
        Err(e) => {
            return Err(e);
        },
    };
    Ok(IdePreferences { vscode_path, jetbrains_path, custom_editors })
}

// ---------------------------------------------------------------------------
// All preferences
// ---------------------------------------------------------------------------

pub open spec fn workspace_ok(p: AppPreferences) -> bool {
    ids_ok(p.workspace.selected_workspace_ids@) && ids_ok(p.workspace.pinned_workspace_ids@)
}

pub open spec fn history_ok(p: AppPreferences) -> bool {
    !font_family_refused(p.codex_history.message_font_family@) && font_size_in_range(
        p.codex_history.message_font_size,
    )
}

pub open spec fn auth_ok(p: AppPreferences) -> bool {
    interval_in_range(p.codex_auth.quota_refresh_interval_seconds) && proxy_rejection(
        p.codex_auth.proxy,
    ) is None
}

/// The preferences pass validation.
pub open spec fn preferences_ok(p: AppPreferences, probes: PreferenceProbes) -> bool {
    &&& terminal_ok(p.terminal, probes)
    &&& ide_ok(p.ide, probes)
    &&& workspace_ok(p)
    &&& hotkey_error(p.hotkey) is None
    &&& history_ok(p)
    &&& auth_ok(p)
}

/// `v` is the validated form of `p`.
pub open spec fn preferences_validated(p: AppPreferences, v: AppPreferences) -> bool {
    &&& terminal_validated(p.terminal, v.terminal)
    &&& ide_validated(p.ide, v.ide)
    &&& string_views(v.workspace.selected_workspace_ids@) == kept_ids(
        p.workspace.selected_workspace_ids@,
        p.workspace.selected_workspace_ids@.len() as int,
    )
    &&& string_views(v.workspace.pinned_workspace_ids@) == kept_ids(
        p.workspace.pinned_workspace_ids@,
        p.workspace.pinned_workspace_ids@.len() as int,
    )
    &&& v.startup == p.startup
    &&& validated_hotkey(p.hotkey, v.hotkey)
    &&& v.tray == p.tray
    &&& v.diagnostics == p.diagnostics
    &&& v.codex_history.message_font_family@ == crate::text::trim(p.codex_history.message_font_family@)
    &&& v.codex_history.message_font_size == p.codex_history.message_font_size
    &&& v.codex_auth.quota_refresh_interval_seconds == p.codex_auth.quota_refresh_interval_seconds
    &&& v.codex_auth.proxy.mode@ == proxy_mode(p.codex_auth.proxy)
    &&& v.codex_auth.proxy.manual_proxy_url@ == proxy_url(p.codex_auth.proxy)
}

/// The error of the first part that fails, in the order terminal, IDE,
/// workspace, hotkeys, Codex history, Codex auth.
pub open spec fn preferences_error(e: AppError, p: AppPreferences, probes: PreferenceProbes) -> bool {
    if !terminal_ok(p.terminal, probes) {
        terminal_error(e, p.terminal, probes)
    } else if !ide_ok(p.ide, probes) {
        ide_error(e, p.ide, probes)
    } else if !ids_ok(p.workspace.selected_workspace_ids@) {
        ids_error(e, "workspace.selectedWorkspaceIds"@, p.workspace.selected_workspace_ids@)
    } else if !ids_ok(p.workspace.pinned_workspace_ids@) {
        ids_error(e, "workspace.pinnedWorkspaceIds"@, p.workspace.pinned_workspace_ids@)
    } else if hotkey_error(p.hotkey) is Some {
        hotkey_rejection_error(e, hotkey_error(p.hotkey)->Some_0)
    } else if !history_ok(p) {
        if font_family_refused(p.codex_history.message_font_family@) {
            crate::view_prefs::field_error(e, "codexHistory.messageFontFamily"@)
        } else {
            crate::view_prefs::field_error(e, "codexHistory.messageFontSize"@)
        }
    } else if !interval_in_range(p.codex_auth.quota_refresh_interval_seconds) {
        crate::view_prefs::field_error(e, "codexAuth.quotaRefreshIntervalSeconds"@)
    } else {
        crate::view_prefs::proxy_rejection_error(e, proxy_rejection(p.codex_auth.proxy)->Some_0)
    }
}

/// Validates all preferences; `probes` answers for the paths they name.
pub fn validate_preferences(input: AppPreferences, probes: &PreferenceProbes) -> (r: AppResult<
    AppPreferences,
>)
    requires
        probes.editor_commands@.len() == input.ide.custom_editors@.len(),
    ensures
        r is Ok <==> preferences_ok(input, *probes),
        r matches Ok(v) ==> preferences_validated(input, v),
        r matches Err(e) ==> preferences_error(e, input, *probes),
{
    let ghost orig = input;
    let AppPreferences { terminal, ide, workspace, startup, hotkey, tray, diagnostics, codex_history, codex_auth } =
        input;
    let terminal = match validate_terminal_preferences(terminal, probes) {
        Ok(v) => v,
        Err(e) => {
            return Err(e);
        },
    };
    let ide = match validate_ide_preferences(ide, probes) {
        Ok(v) => v,
        Err(e) => {
            return Err(e);
        },
    };
    let workspace = match validate_workspace_preferences(workspace) {
        Ok(v) => v,
        Err(e) => {
            return Err(e);
        },
    };
    let startup = match crate::terminal_prefs::validate_startup_preferences(startup) {
        Ok(v) => v,
        Err(e) => {
            return Err(e);
        },
    };
    let hotkey = match validate_hotkey_preferences(hotkey) {
        Ok(v) => v,
        Err(e) => {
            return Err(e);
        },
    };
    let codex_history = match validate_codex_history_view_preferences(codex_history) {
        Ok(v) => v,
        Err(e) => {
            return Err(e);
        },
    };
    let codex_auth = match validate_codex_auth_preferences(codex_auth) {
        Ok(v) => v,
        Err(e) => {
            return Err(e);
        },
    };
    Ok(AppPreferences { terminal, ide, workspace, startup, hotkey, tray, diagnostics, codex_history, codex_auth })
}

// ---------------------------------------------------------------------------
// Repair
// ---------------------------------------------------------------------------

pub struct TerminalPreferenceRepairResult {
    pub preferences: TerminalPreferences,
    pub changed: bool,
}

/// `out` and `changed` are the repair of `input`: templates that fail
/// validation are all dropped; the other settings are kept as they are.
pub open spec fn terminal_repaired(input: TerminalPreferences, out: TerminalPreferences, changed: bool) -> bool {
    &&& out.windows_terminal_path == input.windows_terminal_path
    &&& out.codex_cli_path == input.codex_cli_path
    &&& out.command_shell == input.command_shell
    &&& changed == templates_error(input.command_templates@) is Some
    &&& templates_error(input.command_templates@) is Some ==> out.command_templates@.len() == 0
    &&& templates_error(input.command_templates@) is None ==> template_models(out.command_templates@)
        == renumbered(sort_by_order(validated_templates(input.command_templates@)))
}

pub fn sanitize_terminal_preferences(input: TerminalPreferences) -> (r: TerminalPreferenceRepairResult)
    ensures
        terminal_repaired(input, r.preferences, r.changed),
{
    let mut changed = false;
    let command_templates = match validate_command_templates(
        crate::preferences::copy_templates(&input.command_templates),
    ) {
        Ok(templates) => templates,
        Err(_) => {
            changed = true;
            Vec::new()
        },
    };
    TerminalPreferenceRepairResult {
        preferences: TerminalPreferences {
            windows_terminal_path: input.windows_terminal_path,
            codex_cli_path: input.codex_cli_path,
            command_shell: input.command_shell,
            command_templates,
        },
        changed,
    }
}

pub struct PreferenceRepairResult {
    pub preferences: AppPreferences,
    pub changed: bool,
}

/// `after` and `changed` are the repair of `before`: terminal, hotkeys,
/// Codex history and Codex auth are repaired, the other parts kept, and
/// `changed` tells whether any part changed.
pub open spec fn repaired(before: AppPreferences, after: AppPreferences, changed: bool) -> bool {
    &&& terminal_repaired(
        before.terminal,
        after.terminal,
        templates_error(before.terminal.command_templates@) is Some,
    )
    &&& history_repaired(before.codex_history, after.codex_history, history_changed(before.codex_history))
    &&& auth_repaired(before.codex_auth, after.codex_auth, auth_changed(before.codex_auth))
    &&& exists|hc: bool|
        {
            &&& #[trigger] hotkey_repaired(before.hotkey, after.hotkey, hc)
            &&& changed == (templates_error(before.terminal.command_templates@) is Some || hc
                || history_changed(before.codex_history) || auth_changed(before.codex_auth))
        }
    &&& after.ide == before.ide
    &&& after.workspace == before.workspace
    &&& after.startup == before.startup
    &&& after.tray == before.tray
    &&& after.diagnostics == before.diagnostics
}

/// Repairs stored preferences part by part (see `repaired`).
pub fn repair_invalid_preferences(preferences: AppPreferences) -> (r: PreferenceRepairResult)
    ensures
        repaired(preferences, r.preferences, r.changed),
{
    let AppPreferences { terminal, ide, workspace, startup, hotkey, tray, diagnostics, codex_history, codex_auth } =
        preferences;
    let repaired_terminal = sanitize_terminal_preferences(terminal);
    let repaired_hotkeys = sanitize_hotkey_preferences(hotkey);
    let repaired_codex_history = sanitize_codex_history_view_preferences(codex_history);
    let repaired_codex_auth = sanitize_codex_auth_preferences(codex_auth);
    let changed = repaired_terminal.changed || repaired_hotkeys.changed || repaired_codex_history.changed
        || repaired_codex_auth.changed;
    let r = PreferenceRepairResult {
        preferences: AppPreferences {
            terminal: repaired_terminal.preferences,
            ide,
            workspace,
            startup,
            hotkey: repaired_hotkeys.preferences,
            tray,
            diagnostics,
            codex_history: repaired_codex_history.preferences,
            codex_auth: repaired_codex_auth.preferences,
        },
        changed,
    };
    assert(hotkey_repaired(preferences.hotkey, r.preferences.hotkey, repaired_hotkeys.changed));
    r
}

/// Stored preferences `stored` load as `loaded`: migrated, then repaired;
/// they are written back when either step changed them.
pub open spec fn loaded_from(stored: AppPreferences, loaded: AppPreferences, write_back: bool) -> bool {
    exists|m: AppPreferences, mc: bool, rc: bool|
        #![trigger migrated(stored, m, mc), repaired(m, loaded, rc)]
        migrated(stored, m, mc) && repaired(m, loaded, rc) && write_back == (mc || rc)
}

/// The preferences a store gives and whether they must be written back:
/// without stored preferences, the defaults (written); otherwise see
/// `loaded_from`.
pub fn load_stored_preferences(stored: Option<AppPreferences>) -> (r: (AppPreferences, bool))
    ensures
        match stored {
            None => is_default_prefs(r.0) && r.1,
            Some(p) => loaded_from(p, r.0, r.1),
        },
{
    match stored {
        None => (AppPreferences::default(), true),
        Some(p) => {
            let migration = migrate_legacy_preferences(p);
            let changed_by_migration = migration.changed;
            let ghost m = migration.preferences;
            let repair = repair_invalid_preferences(migration.preferences);
            let write_back = changed_by_migration || repair.changed;
            let ghost rc = repair.changed;
            let loaded = repair.preferences;
            assert(migrated(p, m, changed_by_migration) && repaired(m, loaded, rc));
            assert(loaded_from(p, loaded, write_back));
            (loaded, write_back)
        },
    }
}

// ---------------------------------------------------------------------------
// Rollback reporting
// ---------------------------------------------------------------------------

/// Records rollback failures on the error that caused the rollback: when
/// there are any, they are joined with `"; "` under `rollbackFailure`, and
/// `stateConsistency` is set to `unknown`.
pub fn attach_preference_rollback_failures(original_error: AppError, rollback_failures: Vec<String>) -> (r:
    AppError)
    ensures
        r.code == original_error.code,
        r.message == original_error.message,
        r.retryable == original_error.retryable,
        rollback_failures@.len() == 0 ==> r.detail_map() == original_error.detail_map(),
        rollback_failures@.len() > 0 ==> r.detail_map() == original_error.detail_map().insert(
            "rollbackFailure"@,
            joined(string_views(rollback_failures@), "; "@),
        ).insert("stateConsistency"@, "unknown"@),
{
    if rollback_failures.len() > 0 {
        let joined_text = join_strings(&rollback_failures, "; ");
        return original_error.with_detail("rollbackFailure", joined_text.as_str()).with_detail(
            "stateConsistency",
            "unknown",
        );
    }
    original_error
}

// ---------------------------------------------------------------------------
// The cache
// ---------------------------------------------------------------------------

/// The current preferences, held in memory.
pub struct PreferencesService {
    cache: AppPreferences,
}

impl PreferencesService {
    /// The preferences currently held.
    pub closed spec fn cached(&self) -> AppPreferences {
        self.cache
    }

    pub fn new() -> (s: Self)
        ensures
            is_default_prefs(s.cached()),
    {
        PreferencesService { cache: AppPreferences::default() }
    }

    /// A copy of the preferences currently held.
    pub fn get_preferences(&self) -> (r: AppResult<AppPreferences>)
        ensures
            r matches Ok(p) && same_prefs(p, self.cached()),
    {
        Ok(self.cache.clone())
    }

    /// Validates `input` and, when it passes, makes the validated value the
    /// current preferences and returns it; otherwise nothing changes.
    pub fn set_preferences_for_runtime(&mut self, input: AppPreferences, probes: &PreferenceProbes) -> (r:
        AppResult<AppPreferences>)
        requires
            probes.editor_commands@.len() == input.ide.custom_editors@.len(),
        ensures
            r is Ok <==> preferences_ok(input, *probes),
            r matches Ok(v) ==> preferences_validated(input, v) && same_prefs(final(self).cached(), v),
            r matches Err(e) ==> preferences_error(e, input, *probes) && final(self).cached() == old(
                self,
            ).cached(),
    {
        let validated = match validate_preferences(input, probes) {
            Ok(v) => v,
            Err(e) => {
                return Err(e);
            },
        };
        match self.replace_cache(validated.clone()) {
            Ok(()) => {},
            Err(e) => {
                return Err(e);
            },
        }
        Ok(validated)
    }

    /// Starts an update of the current preferences with `patch`: the patched
    /// preferences are validated and, when they pass, the update from the
    /// current preferences to the validated ones begins (see
    /// `PreferencesUpdate`); otherwise the validation error is returned.
    /// Nothing changes here.
    pub fn begin_update(&self, patch: AppPreferencesPatch, probes: &PreferenceProbes) -> (r: AppResult<
        PreferencesUpdate,
    >)
        requires
            probes.editor_commands@.len() == patched(self.cached(), patch).ide.custom_editors@.len(),
        ensures
            r matches Ok(u) ==> {
                &&& u.wf()
                &&& u.failure is None
                &&& u.rollback_failures@.len() == 0
                &&& same_prefs(u.previous, self.cached())
                &&& u.launch_at_login_changed == (u.validated.startup.launch_at_login
                    != u.previous.startup.launch_at_login)
                &&& u.stage == if u.launch_at_login_changed {
                    UpdateStage::SyncingAutostart
                } else {
                    UpdateStage::ApplyingHotkeys
                }
                &&& update_validated_from(self.cached(), patch, *probes, u.validated)
            },
            r matches Err(e) ==> update_refused(self.cached(), patch, *probes, e),
    {
        let previous = self.cache.clone();
        let base = self.cache.clone();
        let ghost c = base;
        let input = apply_preferences_patch(base, patch);
        assert(input.ide.custom_editors@.len() == patched(self.cached(), patch).ide.custom_editors@.len());
        match validate_preferences(input, probes) {
            Ok(v) => {
                assert(same_prefs(c, self.cached()) && preferences_ok(patched(c, patch), *probes)
                    && preferences_validated(patched(c, patch), v));
                assert(update_validated_from(self.cached(), patch, *probes, v));
                Ok(PreferencesUpdate::new(previous, v))
            },
            Err(e) => {
                assert(same_prefs(c, self.cached()) && !preferences_ok(patched(c, patch), *probes)
                    && preferences_error(e, patched(c, patch), *probes));
                assert(update_refused(self.cached(), patch, *probes, e));
                Err(e)
            },
        }
    }

    /// Ends an update whose effects are all done: when none failed, the
    /// validated preferences become the current ones and are returned;
    /// otherwise the current preferences stay as they are and the update's
    /// error is returned (see `PreferencesUpdate::finish`).
    pub fn complete_update(&mut self, update: PreferencesUpdate) -> (r: AppResult<AppPreferences>)
        requires
            update.stage == UpdateStage::Done,
        ensures
            match update.failure {
                None => r == Ok::<AppPreferences, AppError>(update.validated) && same_prefs(
                    final(self).cached(),
                    update.validated,
                ),
                Some(e) => final(self).cached() == old(self).cached() && (r matches Err(out) && out.code
                    == e.code && out.message == e.message && out.retryable == e.retryable && (
                update.rollback_failures@.len() == 0 ==> out.detail_map() == e.detail_map()) && (
                update.rollback_failures@.len() > 0 ==> out.detail_map() == e.detail_map().insert(
                    "rollbackFailure"@,
                    joined(string_views(update.rollback_failures@), "; "@),
                ).insert("stateConsistency"@, "unknown"@))),
            },
    {
        match update.finish() {
            Ok(v) => {
                self.cache = v.clone();
                Ok(v)
            },
            Err(e) => Err(e),
        }
    }

    /// Makes `preferences` the current preferences, unchecked.
    pub fn hydrate_for_test(&mut self, preferences: AppPreferences)
        ensures
            final(self).cached() == preferences,
    {
        self.cache = preferences;
    }

    fn replace_cache(&mut self, preferences: AppPreferences) -> (r: AppResult<()>)
        ensures
            r is Ok,
            final(self).cached() == preferences,
    {
        self.cache = preferences;
        Ok(())
    }
}

/// `v` is what validation gives for the current preferences `cached`
/// patched with `patch` (taken from a copy with the same settings).
pub open spec fn update_validated_from(
    cached: AppPreferences,
    patch: AppPreferencesPatch,
    probes: PreferenceProbes,
    v: AppPreferences,
) -> bool {
    exists|c: AppPreferences|
        same_prefs(c, cached) && preferences_ok(patched(c, patch), probes) && #[trigger] preferences_validated(
            patched(c, patch),
            v,
        )
}

/// `e` is how validation refuses the current preferences `cached` patched
/// with `patch` (taken from a copy with the same settings).
pub open spec fn update_refused(
    cached: AppPreferences,
    patch: AppPreferencesPatch,
    probes: PreferenceProbes,
    e: AppError,
) -> bool {
    exists|c: AppPreferences|
        same_prefs(c, cached) && !preferences_ok(patched(c, patch), probes) && #[trigger] preferences_error(
            e,
            patched(c, patch),
            probes,
        )
}

/// An update changes the current preferences only when it succeeds: begun
/// from the current preferences `before` with `patch` (see `begin_update`)
/// and completed (see `complete_update`), a success returns what validation
/// gave for the patched preferences and makes it current, and a failure
/// leaves the current preferences as they were.
pub proof fn law_update_replaces_cache_only_on_success(
    before: AppPreferences,
    patch: AppPreferencesPatch,
    probes: PreferenceProbes,
    validated: AppPreferences,
    failure: Option<AppError>,
    r: AppResult<AppPreferences>,
    after: AppPreferences,
)
    requires
        update_validated_from(before, patch, probes, validated),
        match failure {
            None => r == Ok::<AppPreferences, AppError>(validated) && same_prefs(after, validated),
            Some(_) => r is Err && after == before,
        },
    ensures
        r matches Ok(v) ==> update_validated_from(before, patch, probes, v) && same_prefs(after, v),
        r is Err ==> after == before,
{
}

/// Reading back what was set: after `set_preferences_for_runtime` accepts
/// `input`, `get_preferences` returns the value it returned.
pub proof fn law_get_returns_what_was_set(set_result: AppPreferences, cached: AppPreferences, read: AppPreferences)
    requires
        same_prefs(cached, set_result),
        same_prefs(read, cached),
    ensures
        same_prefs(read, set_result),
{
}

} // verus!
