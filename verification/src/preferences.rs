//! The application preferences: their model, defaults, partial updates and
//! the migration of legacy values.
use vstd::prelude::*;

use crate::text::{chars_eq_ignore_case_str, eq_ignore_case, is_ws, lower, trim, trim_chars, trim_end, trim_start};

verus! {

pub const PROMPT_QUICK_PASTE_SLOT_COUNT: usize = 5;

pub const DEFAULT_SCREENSHOT_CAPTURE_HOTKEY: &'static str = "Ctrl+Shift+X";

pub const LEGACY_SCREENSHOT_CAPTURE_HOTKEY: &'static str = "Alt+A";

pub const PREVIOUS_DEFAULT_SCREENSHOT_CAPTURE_HOTKEY: &'static str = "Ctrl+Alt+A";

pub const EARLIER_DEFAULT_SCREENSHOT_CAPTURE_HOTKEY: &'static str = "Ctrl+Shift+A";

pub const DEFAULT_PROMPT_QUICK_PASTE_HOTKEYS: [&'static str; 5] = [
    "Ctrl+Alt+Shift+1",
    "Ctrl+Alt+Shift+2",
    "Ctrl+Alt+Shift+3",
    "Ctrl+Alt+Shift+4",
    "Ctrl+Alt+Shift+5",
];

pub const DEFAULT_CODEX_HISTORY_MESSAGE_FONT_SIZE: i32 = 12;

pub const DEFAULT_CODEX_AUTH_QUOTA_REFRESH_INTERVAL_SECONDS: i32 = 60;

pub const DEFAULT_CODEX_AUTH_PROXY_MODE: &'static str = "system";

/// The default shortcut of prompt quick-paste slot `slot` (1 to 5).
pub open spec fn default_slot_shortcut(slot: int) -> Seq<char> {
    DEFAULT_PROMPT_QUICK_PASTE_HOTKEYS@[slot - 1]@
}

pub fn default_prompt_quick_paste_hotkey(slot: u8) -> (r: &'static str)
    requires
        1 <= slot <= 5,
    ensures
        r@ == default_slot_shortcut(slot as int),
{
    DEFAULT_PROMPT_QUICK_PASTE_HOTKEYS[(slot - 1) as usize]
}

// ---------------------------------------------------------------------------
// Model
// ---------------------------------------------------------------------------

#[derive(Debug, PartialEq, Eq)]
pub struct PromptQuickPasteHotkeySlot {
    pub slot: u8,
    pub enabled: bool,
    pub prompt_id: Option<String>,
    pub shortcut: String,
}

#[derive(Debug, PartialEq, Eq)]
pub struct HotkeyPreferences {
    pub screenshot_capture: String,
    pub voice_input_toggle: Option<String>,
    pub voice_input_hold: Option<String>,
    pub prompt_quick_paste_slots: Vec<PromptQuickPasteHotkeySlot>,
}

#[derive(Debug, PartialEq, Eq)]
pub struct TerminalCommandTemplate {
    pub id: String,
    pub name: String,
    pub command_line: String,
    pub sort_order: i64,
}

#[derive(Debug, Clone, Copy, PartialEq, Eq, Structural)]
pub enum TerminalCommandShell {
    PowerShell,
    Cmd,
}

#[derive(Debug, PartialEq, Eq)]
pub struct TerminalPreferences {
    pub windows_terminal_path: Option<String>,
    pub codex_cli_path: Option<String>,
    pub command_shell: TerminalCommandShell,
    pub command_templates: Vec<TerminalCommandTemplate>,
}

#[derive(Debug, PartialEq, Eq)]
pub struct CustomEditorPreference {
    pub id: String,
    pub name: String,
    pub command: String,
}

#[derive(Debug, PartialEq, Eq)]
pub struct IdePreferences {
    pub vscode_path: Option<String>,
    pub jetbrains_path: Option<String>,
    pub custom_editors: Vec<CustomEditorPreference>,
}

#[derive(Debug, PartialEq, Eq)]
pub struct WorkspacePreferences {
    pub selected_workspace_ids: Vec<String>,
    pub pinned_workspace_ids: Vec<String>,
}

#[derive(Debug, Clone, Copy, PartialEq, Eq, Structural)]
pub struct StartupPreferences {
    pub launch_at_login: bool,
    pub start_silently: bool,
}

#[derive(Debug, Clone, Copy, PartialEq, Eq, Structural)]
pub struct TrayPreferences {
    pub close_to_tray: bool,
}

#[derive(Debug, Clone, Copy, PartialEq, Eq, Structural)]
pub struct DiagnosticsPreferences {
    pub verbose_logging: bool,
}

#[derive(Debug, PartialEq, Eq)]
pub struct CodexHistoryViewPreferences {
    pub message_font_family: String,
    pub message_font_size: i32,
}

#[derive(Debug, PartialEq, Eq)]
pub struct CodexAuthProxyPreferences {
    pub mode: String,
    pub manual_proxy_url: String,
}

#[derive(Debug, PartialEq, Eq)]
pub struct CodexAuthPreferences {
    pub quota_refresh_interval_seconds: i32,
    pub proxy: CodexAuthProxyPreferences,
}

#[derive(Debug, PartialEq, Eq)]
pub struct AppPreferences {
    pub terminal: TerminalPreferences,
    pub ide: IdePreferences,
    pub workspace: WorkspacePreferences,
    pub startup: StartupPreferences,
    pub hotkey: HotkeyPreferences,
    pub tray: TrayPreferences,
    pub diagnostics: DiagnosticsPreferences,
    pub codex_history: CodexHistoryViewPreferences,
    pub codex_auth: CodexAuthPreferences,
}

#[derive(Debug, PartialEq, Eq)]
pub struct WorkspacePreferencesPatch {
    pub selected_workspace_ids: Option<Vec<String>>,
    pub pinned_workspace_ids: Option<Vec<String>>,
}

/// A partial update of the preferences: every present part replaces the
/// current one.
#[derive(Debug, PartialEq, Eq)]
pub struct AppPreferencesPatch {
    pub terminal: Option<TerminalPreferences>,
    pub ide: Option<IdePreferences>,
    pub workspace: Option<WorkspacePreferencesPatch>,
    pub startup: Option<StartupPreferences>,
    pub hotkey: Option<HotkeyPreferences>,
    pub tray: Option<TrayPreferences>,
    pub diagnostics: Option<DiagnosticsPreferences>,
    pub codex_history: Option<CodexHistoryViewPreferences>,
    pub codex_auth: Option<CodexAuthPreferences>,
}

// ---------------------------------------------------------------------------
// Copies
// ---------------------------------------------------------------------------

pub open spec fn same_hotkey(a: HotkeyPreferences, b: HotkeyPreferences) -> bool {
    &&& a.screenshot_capture == b.screenshot_capture
    &&& a.voice_input_toggle == b.voice_input_toggle
    &&& a.voice_input_hold == b.voice_input_hold
    &&& a.prompt_quick_paste_slots@ == b.prompt_quick_paste_slots@
}

pub open spec fn same_terminal(a: TerminalPreferences, b: TerminalPreferences) -> bool {
    &&& a.windows_terminal_path == b.windows_terminal_path
    &&& a.codex_cli_path == b.codex_cli_path
    &&& a.command_shell == b.command_shell
    &&& a.command_templates@ == b.command_templates@
}

pub open spec fn same_ide(a: IdePreferences, b: IdePreferences) -> bool {
    &&& a.vscode_path == b.vscode_path
    &&& a.jetbrains_path == b.jetbrains_path
    &&& a.custom_editors@ == b.custom_editors@
}

pub open spec fn same_workspace(a: WorkspacePreferences, b: WorkspacePreferences) -> bool {
    &&& a.selected_workspace_ids@ == b.selected_workspace_ids@
    &&& a.pinned_workspace_ids@ == b.pinned_workspace_ids@
}

/// Two preference values hold the same settings.
pub open spec fn same_prefs(a: AppPreferences, b: AppPreferences) -> bool {
    &&& same_terminal(a.terminal, b.terminal)
    &&& same_ide(a.ide, b.ide)
    &&& same_workspace(a.workspace, b.workspace)
    &&& a.startup == b.startup
    &&& same_hotkey(a.hotkey, b.hotkey)
    &&& a.tray == b.tray
    &&& a.diagnostics == b.diagnostics
    &&& a.codex_history == b.codex_history
    &&& a.codex_auth == b.codex_auth
}

fn copy_opt_string(s: &Option<String>) -> (r: Option<String>)
    ensures
        r == *s,
{
    match s {
        Some(v) => Some(v.clone()),
        None => None,
    }
}

fn copy_strings(v: &Vec<String>) -> (r: Vec<String>)
    ensures
        r@ == v@,
{
    let mut r: Vec<String> = Vec::new();
    let mut i: usize = 0;
    while i < v.len()
        invariant
            i <= v@.len(),
            r@ == v@.take(i as int),
        decreases v@.len() - i,
    {
        r.push(v[i].clone());
        assert(v@.take(i + 1) =~= v@.take(i as int).push(v@[i as int]));
        i = i + 1;
    }
    assert(v@.take(v@.len() as int) =~= v@);
    r
}

impl Clone for PromptQuickPasteHotkeySlot {
    fn clone(&self) -> (r: Self)
        ensures
            r == *self,
    {
        PromptQuickPasteHotkeySlot {
            slot: self.slot,
            enabled: self.enabled,
            prompt_id: copy_opt_string(&self.prompt_id),
            shortcut: self.shortcut.clone(),
        }
    }
}

fn copy_slots(v: &Vec<PromptQuickPasteHotkeySlot>) -> (r: Vec<PromptQuickPasteHotkeySlot>)
    ensures
        r@ == v@,
{
    let mut r: Vec<PromptQuickPasteHotkeySlot> = Vec::new();
    let mut i: usize = 0;
    while i < v.len()
        invariant
            i <= v@.len(),
            r@ == v@.take(i as int),
        decreases v@.len() - i,
    {
        r.push(v[i].clone());
        assert(v@.take(i + 1) =~= v@.take(i as int).push(v@[i as int]));
        i = i + 1;
    }
    assert(v@.take(v@.len() as int) =~= v@);
    r
}

impl Clone for HotkeyPreferences {
    fn clone(&self) -> (r: Self)
        ensures
            same_hotkey(r, *self),
    {
        HotkeyPreferences {
            screenshot_capture: self.screenshot_capture.clone(),
            voice_input_toggle: copy_opt_string(&self.voice_input_toggle),
            voice_input_hold: copy_opt_string(&self.voice_input_hold),
            prompt_quick_paste_slots: copy_slots(&self.prompt_quick_paste_slots),
        }
    }
}

impl Clone for TerminalCommandTemplate {
    fn clone(&self) -> (r: Self)
        ensures
            r == *self,
    {
        TerminalCommandTemplate {
            id: self.id.clone(),
            name: self.name.clone(),
            command_line: self.command_line.clone(),
            sort_order: self.sort_order,
        }
    }
}

pub(crate) fn copy_templates(v: &Vec<TerminalCommandTemplate>) -> (r: Vec<TerminalCommandTemplate>)
    ensures
        r@ == v@,
{
    let mut r: Vec<TerminalCommandTemplate> = Vec::new();
    let mut i: usize = 0;
    while i < v.len()
        invariant
            i <= v@.len(),
            r@ == v@.take(i as int),
        decreases v@.len() - i,
    {
        r.push(v[i].clone());
        assert(v@.take(i + 1) =~= v@.take(i as int).push(v@[i as int]));
        i = i + 1;
    }
    assert(v@.take(v@.len() as int) =~= v@);
    r
}

impl Clone for TerminalPreferences {
    fn clone(&self) -> (r: Self)
        ensures
            same_terminal(r, *self),
    {
        TerminalPreferences {
            windows_terminal_path: copy_opt_string(&self.windows_terminal_path),
            codex_cli_path: copy_opt_string(&self.codex_cli_path),
            command_shell: self.command_shell,
            command_templates: copy_templates(&self.command_templates),
        }
    }
}

impl Clone for CustomEditorPreference {
    fn clone(&self) -> (r: Self)
        ensures
            r == *self,
    {
        CustomEditorPreference {
            id: self.id.clone(),
            name: self.name.clone(),
            command: self.command.clone(),
        }
    }
}

fn copy_editors(v: &Vec<CustomEditorPreference>) -> (r: Vec<CustomEditorPreference>)
    ensures
        r@ == v@,
{
    let mut r: Vec<CustomEditorPreference> = Vec::new();
    let mut i: usize = 0;
    while i < v.len()
        invariant
            i <= v@.len(),
            r@ == v@.take(i as int),
        decreases v@.len() - i,
    {
        r.push(v[i].clone());
        assert(v@.take(i + 1) =~= v@.take(i as int).push(v@[i as int]));
        i = i + 1;
    }
    assert(v@.take(v@.len() as int) =~= v@);
    r
}

impl Clone for IdePreferences {
    fn clone(&self) -> (r: Self)
        ensures
            same_ide(r, *self),
    {
        IdePreferences {
            vscode_path: copy_opt_string(&self.vscode_path),
            jetbrains_path: copy_opt_string(&self.jetbrains_path),
            custom_editors: copy_editors(&self.custom_editors),
        }
    }
}

impl Clone for WorkspacePreferences {
    fn clone(&self) -> (r: Self)
        ensures
            same_workspace(r, *self),
    {
        WorkspacePreferences {
            selected_workspace_ids: copy_strings(&self.selected_workspace_ids),
            pinned_workspace_ids: copy_strings(&self.pinned_workspace_ids),
        }
    }
}

impl Clone for CodexHistoryViewPreferences {
    fn clone(&self) -> (r: Self)
        ensures
            r == *self,
    {
        CodexHistoryViewPreferences {
            message_font_family: self.message_font_family.clone(),
            message_font_size: self.message_font_size,
        }
    }
}

impl Clone for CodexAuthProxyPreferences {
    fn clone(&self) -> (r: Self)
        ensures
            r == *self,
    {
        CodexAuthProxyPreferences {
            mode: self.mode.clone(),
            manual_proxy_url: self.manual_proxy_url.clone(),
        }
    }
}

impl Clone for CodexAuthPreferences {
    fn clone(&self) -> (r: Self)
        ensures
            r == *self,
    {
        CodexAuthPreferences {
            quota_refresh_interval_seconds: self.quota_refresh_interval_seconds,
            proxy: self.proxy.clone(),
        }
    }
}

impl Clone for AppPreferences {
    fn clone(&self) -> (r: Self)
        ensures
            same_prefs(r, *self),
    {
        AppPreferences {
            terminal: self.terminal.clone(),
            ide: self.ide.clone(),
            workspace: self.workspace.clone(),
            startup: self.startup,
            hotkey: self.hotkey.clone(),
            tray: self.tray,
            diagnostics: self.diagnostics,
            codex_history: self.codex_history.clone(),
            codex_auth: self.codex_auth.clone(),
        }
    }
}

// ---------------------------------------------------------------------------
// Defaults
// ---------------------------------------------------------------------------

/// The default slots: slot `i + 1` at index `i`, disabled, without prompt,
/// with its default shortcut.
pub open spec fn is_default_slots(v: Seq<PromptQuickPasteHotkeySlot>) -> bool {
    &&& v.len() == 5
    &&& forall|i: int|
        0 <= i < 5 ==> {
            &&& (#[trigger] v[i]).slot == i + 1
            &&& !v[i].enabled
            &&& v[i].prompt_id is None
            &&& v[i].shortcut@ == default_slot_shortcut(i + 1)
        }
}

pub open spec fn is_default_hotkey(h: HotkeyPreferences) -> bool {
    &&& h.screenshot_capture@ == DEFAULT_SCREENSHOT_CAPTURE_HOTKEY@
    &&& h.voice_input_toggle is None
    &&& h.voice_input_hold is None
    &&& is_default_slots(h.prompt_quick_paste_slots@)
}

pub fn default_prompt_quick_paste_slots() -> (r: Vec<PromptQuickPasteHotkeySlot>)
    ensures
        is_default_slots(r@),
{
    let mut r: Vec<PromptQuickPasteHotkeySlot> = Vec::new();
    let mut n: u8 = 1;
    while n <= 5
        invariant
            1 <= n <= 6,
            r@.len() == n - 1,
            forall|i: int|
                0 <= i < n - 1 ==> {
                    &&& (#[trigger] r@[i]).slot == i + 1
                    &&& !r@[i].enabled
                    &&& r@[i].prompt_id is None
                    &&& r@[i].shortcut@ == default_slot_shortcut(i + 1)
                },
        decreases 6 - n,
    {
        let shortcut = default_prompt_quick_paste_hotkey(n).to_owned();
        r.push(PromptQuickPasteHotkeySlot { slot: n, enabled: false, prompt_id: None, shortcut });
        n = n + 1;
    }
    r
}

impl Default for HotkeyPreferences {
    fn default() -> (r: Self)
        ensures
            is_default_hotkey(r),
    {
        HotkeyPreferences {
            screenshot_capture: DEFAULT_SCREENSHOT_CAPTURE_HOTKEY.to_owned(),
            voice_input_toggle: None,
            voice_input_hold: None,
            prompt_quick_paste_slots: default_prompt_quick_paste_slots(),
        }
    }
}

impl Default for TerminalPreferences {
    fn default() -> (r: Self)
        ensures
            r.windows_terminal_path is None,
            r.codex_cli_path is None,
            r.command_shell == TerminalCommandShell::PowerShell,
            r.command_templates@.len() == 0,
    {
        TerminalPreferences {
            windows_terminal_path: None,
            codex_cli_path: None,
            command_shell: TerminalCommandShell::PowerShell,
            command_templates: Vec::new(),
        }
    }
}

impl Default for IdePreferences {
    fn default() -> (r: Self)
        ensures
            r.vscode_path is None,
            r.jetbrains_path is None,
            r.custom_editors@.len() == 0,
    {
        IdePreferences { vscode_path: None, jetbrains_path: None, custom_editors: Vec::new() }
    }
}

impl Default for WorkspacePreferences {
    fn default() -> (r: Self)
        ensures
            r.selected_workspace_ids@.len() == 0,
            r.pinned_workspace_ids@.len() == 0,
    {
        WorkspacePreferences { selected_workspace_ids: Vec::new(), pinned_workspace_ids: Vec::new() }
    }
}

impl Default for StartupPreferences {
    fn default() -> (r: Self)
        ensures
            !r.launch_at_login,
            !r.start_silently,
    {
        StartupPreferences { launch_at_login: false, start_silently: false }
    }
}

impl Default for TrayPreferences {
    fn default() -> (r: Self)
        ensures
            r.close_to_tray,
    {
        TrayPreferences { close_to_tray: true }
    }
}

impl Default for DiagnosticsPreferences {
    fn default() -> (r: Self)
        ensures
            !r.verbose_logging,
    {
        DiagnosticsPreferences { verbose_logging: false }
    }
}

impl Default for CodexHistoryViewPreferences {
    fn default() -> (r: Self)
        ensures
            r.message_font_family@.len() == 0,
            r.message_font_size == DEFAULT_CODEX_HISTORY_MESSAGE_FONT_SIZE,
    {
        CodexHistoryViewPreferences {
            message_font_family: String::new(),
            message_font_size: DEFAULT_CODEX_HISTORY_MESSAGE_FONT_SIZE,
        }
    }
}

impl Default for CodexAuthProxyPreferences {
    fn default() -> (r: Self)
        ensures
            r.mode@ == DEFAULT_CODEX_AUTH_PROXY_MODE@,
            r.manual_proxy_url@.len() == 0,
    {
        CodexAuthProxyPreferences {
            mode: DEFAULT_CODEX_AUTH_PROXY_MODE.to_owned(),
            manual_proxy_url: String::new(),
        }
    }
}

impl Default for CodexAuthPreferences {
    fn default() -> (r: Self)
        ensures
            r.quota_refresh_interval_seconds == DEFAULT_CODEX_AUTH_QUOTA_REFRESH_INTERVAL_SECONDS,
            r.proxy.mode@ == DEFAULT_CODEX_AUTH_PROXY_MODE@,
            r.proxy.manual_proxy_url@.len() == 0,
    {
        CodexAuthPreferences {
            quota_refresh_interval_seconds: DEFAULT_CODEX_AUTH_QUOTA_REFRESH_INTERVAL_SECONDS,
            proxy: CodexAuthProxyPreferences::default(),
        }
    }
}

/// The default preferences.
pub open spec fn is_default_prefs(r: AppPreferences) -> bool {
    &&& r.terminal.windows_terminal_path is None
    &&& r.terminal.codex_cli_path is None
    &&& r.terminal.command_shell == TerminalCommandShell::PowerShell
    &&& r.terminal.command_templates@.len() == 0
    &&& r.ide.vscode_path is None
    &&& r.ide.jetbrains_path is None
    &&& r.ide.custom_editors@.len() == 0
    &&& r.workspace.selected_workspace_ids@.len() == 0
    &&& r.workspace.pinned_workspace_ids@.len() == 0
    &&& !r.startup.launch_at_login
    &&& !r.startup.start_silently
    &&& is_default_hotkey(r.hotkey)
    &&& r.tray.close_to_tray
    &&& !r.diagnostics.verbose_logging
    &&& r.codex_history.message_font_family@.len() == 0
    &&& r.codex_history.message_font_size == DEFAULT_CODEX_HISTORY_MESSAGE_FONT_SIZE
    &&& r.codex_auth.quota_refresh_interval_seconds == DEFAULT_CODEX_AUTH_QUOTA_REFRESH_INTERVAL_SECONDS
    &&& r.codex_auth.proxy.mode@ == DEFAULT_CODEX_AUTH_PROXY_MODE@
    &&& r.codex_auth.proxy.manual_proxy_url@.len() == 0
}

impl Default for AppPreferences {
    fn default() -> (r: Self)
        ensures
            is_default_prefs(r),
    {
        AppPreferences {
            terminal: TerminalPreferences::default(),
            ide: IdePreferences::default(),
            workspace: WorkspacePreferences::default(),
            startup: StartupPreferences::default(),
            hotkey: HotkeyPreferences::default(),
            tray: TrayPreferences::default(),
            diagnostics: DiagnosticsPreferences::default(),
            codex_history: CodexHistoryViewPreferences::default(),
            codex_auth: CodexAuthPreferences::default(),
        }
    }
}

impl Default for WorkspacePreferencesPatch {
    fn default() -> (r: Self)
        ensures
            r.selected_workspace_ids is None,
            r.pinned_workspace_ids is None,
    {
        WorkspacePreferencesPatch { selected_workspace_ids: None, pinned_workspace_ids: None }
    }
}

impl Default for AppPreferencesPatch {
    fn default() -> (r: Self)
        ensures
            is_empty_patch(r),
    {
        AppPreferencesPatch {
            terminal: None,
            ide: None,
            workspace: None,
            startup: None,
            hotkey: None,
            tray: None,
            diagnostics: None,
            codex_history: None,
            codex_auth: None,
        }
    }
}

// ---------------------------------------------------------------------------
// Patching
// ---------------------------------------------------------------------------

pub open spec fn is_empty_patch(p: AppPreferencesPatch) -> bool {
    &&& p.terminal is None
    &&& p.ide is None
    &&& p.workspace is None
    &&& p.startup is None
    &&& p.hotkey is None
    &&& p.tray is None
    &&& p.diagnostics is None
    &&& p.codex_history is None
    &&& p.codex_auth is None
}

pub open spec fn or_keep<T>(patch: Option<T>, current: T) -> T {
    match patch {
        Some(v) => v,
        None => current,
    }
}

/// The preferences after `patch`: each present part replaces the current
/// one; the two workspace lists are replaced independently.
pub open spec fn patched(current: AppPreferences, patch: AppPreferencesPatch) -> AppPreferences {
    AppPreferences {
        terminal: or_keep(patch.terminal, current.terminal),
        ide: or_keep(patch.ide, current.ide),
        workspace: match patch.workspace {
            Some(w) => WorkspacePreferences {
                selected_workspace_ids: or_keep(
                    w.selected_workspace_ids,
                    current.workspace.selected_workspace_ids,
                ),
                pinned_workspace_ids: or_keep(
                    w.pinned_workspace_ids,
                    current.workspace.pinned_workspace_ids,
                ),
            },
            None => current.workspace,
        },
        startup: or_keep(patch.startup, current.startup),
        hotkey: or_keep(patch.hotkey, current.hotkey),
        tray: or_keep(patch.tray, current.tray),
        diagnostics: or_keep(patch.diagnostics, current.diagnostics),
        codex_history: or_keep(patch.codex_history, current.codex_history),
        codex_auth: or_keep(patch.codex_auth, current.codex_auth),
    }
}

/// Applies a partial update to the current preferences.
pub fn apply_preferences_patch(current: AppPreferences, patch: AppPreferencesPatch) -> (r:
    AppPreferences)
    ensures
        r == patched(current, patch),
{
    let mut current = current;
    if let Some(terminal) = patch.terminal {
        current.terminal = terminal;
    }
    if let Some(ide) = patch.ide {
        current.ide = ide;
    }
    if let Some(workspace) = patch.workspace {
        if let Some(selected_workspace_ids) = workspace.selected_workspace_ids {
            current.workspace.selected_workspace_ids = selected_workspace_ids;
        }
        if let Some(pinned_workspace_ids) = workspace.pinned_workspace_ids {
            current.workspace.pinned_workspace_ids = pinned_workspace_ids;
        }
    }
    if let Some(startup) = patch.startup {
        current.startup = startup;
    }
    if let Some(hotkey) = patch.hotkey {
        current.hotkey = hotkey;
    }
    if let Some(tray) = patch.tray {
        current.tray = tray;
    }
    if let Some(diagnostics) = patch.diagnostics {
        current.diagnostics = diagnostics;
    }
    if let Some(codex_history) = patch.codex_history {
        current.codex_history = codex_history;
    }
    if let Some(codex_auth) = patch.codex_auth {
        current.codex_auth = codex_auth;
    }
    current
}

/// An empty patch leaves the preferences unchanged.
pub proof fn law_empty_patch_is_identity(current: AppPreferences, patch: AppPreferencesPatch)
    requires
        is_empty_patch(patch),
    ensures
        patched(current, patch) == current,
{
}

/// Applying the same patch twice gives what applying it once gives.
pub proof fn law_patch_idempotent(current: AppPreferences, patch: AppPreferencesPatch)
    ensures
        patched(patched(current, patch), patch) == patched(current, patch),
{
}

/// A patch changes only the parts that it carries: every part absent from
/// the patch keeps its current value.
pub proof fn law_patch_keeps_absent_parts(current: AppPreferences, patch: AppPreferencesPatch)
    ensures
        patch.terminal is None ==> patched(current, patch).terminal == current.terminal,
        patch.ide is None ==> patched(current, patch).ide == current.ide,
        patch.workspace is None ==> patched(current, patch).workspace == current.workspace,
        patch.workspace matches Some(w) && w.selected_workspace_ids is None
            ==> patched(current, patch).workspace.selected_workspace_ids
            == current.workspace.selected_workspace_ids,
        patch.workspace matches Some(w) && w.pinned_workspace_ids is None
            ==> patched(current, patch).workspace.pinned_workspace_ids
            == current.workspace.pinned_workspace_ids,
        patch.startup is None ==> patched(current, patch).startup == current.startup,
        patch.hotkey is None ==> patched(current, patch).hotkey == current.hotkey,
        patch.tray is None ==> patched(current, patch).tray == current.tray,
        patch.diagnostics is None ==> patched(current, patch).diagnostics == current.diagnostics,
        patch.codex_history is None ==> patched(current, patch).codex_history
            == current.codex_history,
        patch.codex_auth is None ==> patched(current, patch).codex_auth == current.codex_auth,
{
}

// ---------------------------------------------------------------------------
// Legacy migration
// ---------------------------------------------------------------------------

#[derive(Debug)]
pub struct PreferenceMigrationResult {
    pub preferences: AppPreferences,
    pub changed: bool,
}

/// Whether a screenshot shortcut is one of the shipped defaults that newer
/// versions replace.
pub open spec fn is_legacy_screenshot_hotkey(s: Seq<char>) -> bool {
    let t = trim(s);
    eq_ignore_case(t, LEGACY_SCREENSHOT_CAPTURE_HOTKEY@) || eq_ignore_case(
        t,
        PREVIOUS_DEFAULT_SCREENSHOT_CAPTURE_HOTKEY@,
    ) || eq_ignore_case(t, EARLIER_DEFAULT_SCREENSHOT_CAPTURE_HOTKEY@)
}

/// Migration settles: whatever it produces is not legacy, so a second run
/// changes nothing.
pub proof fn law_migration_settles(before: AppPreferences, after: AppPreferences)
    requires
        is_legacy_screenshot_hotkey(before.hotkey.screenshot_capture@)
            ==> after.hotkey.screenshot_capture@ == DEFAULT_SCREENSHOT_CAPTURE_HOTKEY@,
        !is_legacy_screenshot_hotkey(before.hotkey.screenshot_capture@)
            ==> after.hotkey.screenshot_capture@ == before.hotkey.screenshot_capture@,
    ensures
        !is_legacy_screenshot_hotkey(after.hotkey.screenshot_capture@),
{
    if is_legacy_screenshot_hotkey(before.hotkey.screenshot_capture@) {
        lemma_default_screenshot_not_legacy();
    }
}

proof fn lemma_default_screenshot_not_legacy()
    ensures
        !is_legacy_screenshot_hotkey(DEFAULT_SCREENSHOT_CAPTURE_HOTKEY@),
{
    let d = DEFAULT_SCREENSHOT_CAPTURE_HOTKEY@;
    reveal_strlit("Ctrl+Shift+X");
    reveal_strlit("Alt+A");
    reveal_strlit("Ctrl+Alt+A");
    reveal_strlit("Ctrl+Shift+A");
    assert(d.len() == 12);
    assert(!is_ws(d[0]));
    assert(trim_start(d) == d);
    assert(!is_ws(d.last()));
    assert(trim_end(d) == d);
    assert(trim(d) == d);
    assert(lower(d).len() == 12);
    assert(lower(LEGACY_SCREENSHOT_CAPTURE_HOTKEY@).len() == 5);
    assert(lower(PREVIOUS_DEFAULT_SCREENSHOT_CAPTURE_HOTKEY@).len() == 10);
    assert(lower(d)[11] == 'x');
    assert(lower(EARLIER_DEFAULT_SCREENSHOT_CAPTURE_HOTKEY@)[11] == 'a');
}

/// `after` and `changed` are the migration of `before`: a legacy default
/// screenshot shortcut becomes the current default; everything else is kept.
pub open spec fn migrated(before: AppPreferences, after: AppPreferences, changed: bool) -> bool {
    &&& changed == is_legacy_screenshot_hotkey(before.hotkey.screenshot_capture@)
    &&& changed ==> after.hotkey.screenshot_capture@ == DEFAULT_SCREENSHOT_CAPTURE_HOTKEY@
    &&& !changed ==> after == before
    &&& after.hotkey.voice_input_toggle == before.hotkey.voice_input_toggle
    &&& after.hotkey.voice_input_hold == before.hotkey.voice_input_hold
    &&& after.hotkey.prompt_quick_paste_slots == before.hotkey.prompt_quick_paste_slots
    &&& after.terminal == before.terminal
    &&& after.ide == before.ide
    &&& after.workspace == before.workspace
    &&& after.startup == before.startup
    &&& after.tray == before.tray
    &&& after.diagnostics == before.diagnostics
    &&& after.codex_history == before.codex_history
    &&& after.codex_auth == before.codex_auth
}

/// Replaces a legacy default screenshot shortcut with the current default;
/// everything else is kept.
pub fn migrate_legacy_preferences(preferences: AppPreferences) -> (r: PreferenceMigrationResult)
    ensures
        migrated(preferences, r.preferences, r.changed),
{
    let mut preferences = preferences;
    let trimmed = trim_chars(preferences.hotkey.screenshot_capture.as_str());
    if chars_eq_ignore_case_str(trimmed.as_slice(), LEGACY_SCREENSHOT_CAPTURE_HOTKEY)
        || chars_eq_ignore_case_str(trimmed.as_slice(), PREVIOUS_DEFAULT_SCREENSHOT_CAPTURE_HOTKEY)
        || chars_eq_ignore_case_str(trimmed.as_slice(), EARLIER_DEFAULT_SCREENSHOT_CAPTURE_HOTKEY) {
        preferences.hotkey.screenshot_capture = DEFAULT_SCREENSHOT_CAPTURE_HOTKEY.to_owned();
        return PreferenceMigrationResult { preferences, changed: true };
    }
    PreferenceMigrationResult { preferences, changed: false }
}

} // verus!
