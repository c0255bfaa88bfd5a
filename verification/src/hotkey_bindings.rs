//! Which global shortcuts the preferences ask for, how they split between
//! the two registration paths, how a failed registration is reported, and
//! what the registered set becomes when applying new bindings fails.
use vstd::prelude::*;

use crate::error::{AppError, AppResult};
use crate::hotkey::{
    classify_supported_shortcut, requires_windows_hook, shortcut_kind, HotkeyAction,
    HotkeyShortcutKind,
};
use crate::preferences::AppPreferences;
use crate::text::{
    join_strings, joined, string_views, chars_of, contains, contains_chars, extend_str, lower, lower_chars, string_from, trim, trim_chars,
};

verus! {

/// A shortcut registered for an action.
#[derive(Debug)]
pub struct RegisteredHotkeyBinding {
    pub action: HotkeyAction,
    pub shortcut: String,
}

/// A shortcut registered through the keyboard hook.
#[derive(Debug)]
pub struct WindowsHookHotkeyBinding {
    pub action: HotkeyAction,
    pub shortcut: String,
}

/// The bindings split by how they are registered, each list in the order
/// of the bindings.
#[derive(Debug)]
pub struct ClassifiedBindings {
    pub basic: Vec<RegisteredHotkeyBinding>,
    pub hook: Vec<WindowsHookHotkeyBinding>,
}

pub open spec fn binding_view(b: RegisteredHotkeyBinding) -> (HotkeyAction, Seq<char>) {
    (b.action, b.shortcut@)
}

pub open spec fn bindings_view(s: Seq<RegisteredHotkeyBinding>) -> Seq<(HotkeyAction, Seq<char>)> {
    s.map_values(|b: RegisteredHotkeyBinding| binding_view(b))
}

pub open spec fn hook_bindings_view(s: Seq<WindowsHookHotkeyBinding>) -> Seq<(HotkeyAction, Seq<char>)> {
    s.map_values(|b: WindowsHookHotkeyBinding| (b.action, b.shortcut@))
}

/// A shortcut that is set: present and not blank, trimmed.
pub open spec fn set_shortcut(value: Option<Seq<char>>) -> Option<Seq<char>> {
    match value {
        Some(v) => if trim(v).len() > 0 {
            Some(trim(v))
        } else {
            None
        },
        None => None,
    }
}

pub open spec fn opt_binding(action: HotkeyAction, value: Option<Seq<char>>) -> Seq<(HotkeyAction, Seq<char>)> {
    match set_shortcut(value) {
        Some(s) => seq![(action, s)],
        None => Seq::empty(),
    }
}

pub open spec fn ov(o: Option<String>) -> Option<Seq<char>> {
    match o {
        Some(s) => Some(s@),
        None => None,
    }
}

/// The bindings the preferences ask for: the screenshot shortcut, then the
/// voice toggle and hold shortcuts, each when it is set.
pub open spec fn desired_bindings(p: AppPreferences) -> Seq<(HotkeyAction, Seq<char>)> {
    opt_binding(HotkeyAction::ScreenshotCapture, Some(p.hotkey.screenshot_capture@)) + opt_binding(
        HotkeyAction::VoiceInputToggle,
        ov(p.hotkey.voice_input_toggle),
    ) + opt_binding(HotkeyAction::VoiceInputHold, ov(p.hotkey.voice_input_hold))
}

/// The trimmed shortcut, when it is set (see `set_shortcut`).
pub fn normalize_optional_shortcut(value: Option<&str>) -> (r: Option<String>)
    ensures
        ov(r) == set_shortcut(
            match value {
                Some(v) => Some(v@),
                None => None,
            },
        ),
{
    match value {
        Some(v) => {
            let raw = trim_chars(v);
            if raw.len() == 0 {
                None
            } else {
                Some(string_from(raw.as_slice()))
            }
        },
        None => None,
    }
}

fn push_optional(bindings: &mut Vec<RegisteredHotkeyBinding>, action: HotkeyAction, value: &Option<String>)
    ensures
        bindings_view(final(bindings)@) == bindings_view(old(bindings)@) + opt_binding(action, ov(*value)),
{
    let v = match value {
        Some(s) => Some(s.as_str()),
        None => None,
    };
    match normalize_optional_shortcut(v) {
        Some(shortcut) => {
            bindings.push(RegisteredHotkeyBinding { action, shortcut });
            assert(bindings_view(bindings@) =~= bindings_view(old(bindings)@) + opt_binding(
                action,
                ov(*value),
            ));
        },
        None => {
            assert(bindings_view(bindings@) =~= bindings_view(old(bindings)@) + opt_binding(
                action,
                ov(*value),
            ));
        },
    }
}

/// The bindings the preferences ask for (see `desired_bindings`).
pub fn build_desired_bindings(preferences: &AppPreferences) -> (r: Vec<RegisteredHotkeyBinding>)
    ensures
        bindings_view(r@) == desired_bindings(*preferences),
{
    let mut bindings: Vec<RegisteredHotkeyBinding> = Vec::new();
    let screenshot = Some(preferences.hotkey.screenshot_capture.clone());
    push_optional(&mut bindings, HotkeyAction::ScreenshotCapture, &screenshot);
    push_optional(&mut bindings, HotkeyAction::VoiceInputToggle, &preferences.hotkey.voice_input_toggle);
    push_optional(&mut bindings, HotkeyAction::VoiceInputHold, &preferences.hotkey.voice_input_hold);
    assert(bindings_view(bindings@) =~= desired_bindings(*preferences));
    bindings
}

// ---------------------------------------------------------------------------
// Errors
// ---------------------------------------------------------------------------

/// The details recorded for a binding whose registration failed.
pub open spec fn binding_details(b: RegisteredHotkeyBinding, reason: Seq<char>) -> Map<Seq<char>, Seq<char>> {
    map![
        "action"@ => b.action.spec_key(),
        "field"@ => b.action.spec_field(),
        "shortcut"@ => b.shortcut@,
        "reason"@ => reason,
    ]
}

/// `HOTKEY_SHORTCUT_INVALID` for a binding, with its action, field,
/// shortcut and the reason.
pub fn invalid_shortcut_error(binding: &RegisteredHotkeyBinding, reason: String) -> (e: AppError)
    ensures
        e.code@ == "HOTKEY_SHORTCUT_INVALID"@,
        e.message@ == "热键格式无效"@,
        e.detail_map() == binding_details(*binding, reason@),
{
    AppError::new("HOTKEY_SHORTCUT_INVALID", "热键格式无效").with_detail("action", binding.action.key()).with_detail(
        "field",
        binding.action.preference_field(),
    ).with_detail("shortcut", binding.shortcut.as_str()).with_detail("reason", reason.as_str())
}

/// Whether the registration failure says the shortcut is taken.
pub open spec fn says_already_registered(reason: Seq<char>) -> bool {
    contains(lower(reason), "already registered"@)
}

/// `HOTKEY_REGISTER_FAILED` for a binding: the message says the shortcut is
/// taken when the reason (in any case) says it is already registered.
pub fn register_shortcut_error(binding: &RegisteredHotkeyBinding, reason: String) -> (e: AppError)
    ensures
        e.code@ == "HOTKEY_REGISTER_FAILED"@,
        e.message@ == if says_already_registered(reason@) {
            "热键已被占用，请更换组合键"@
        } else {
            "热键注册失败"@
        },
        e.detail_map() == binding_details(*binding, reason@),
{
    let normalized = lower_chars(chars_of(reason.as_str()).as_slice());
    let taken = contains_chars(normalized.as_slice(), chars_of("already registered").as_slice());
    let message = if taken {
        "热键已被占用，请更换组合键"
    } else {
        "热键注册失败"
    };
    AppError::new("HOTKEY_REGISTER_FAILED", message).with_detail("action", binding.action.key()).with_detail(
        "field",
        binding.action.preference_field(),
    ).with_detail("shortcut", binding.shortcut.as_str()).with_detail("reason", reason.as_str())
}

pub open spec fn hook_action_keys(s: Seq<WindowsHookHotkeyBinding>) -> Seq<Seq<char>> {
    s.map_values(|b: WindowsHookHotkeyBinding| b.action.spec_key())
}

pub open spec fn hook_shortcuts(s: Seq<WindowsHookHotkeyBinding>) -> Seq<Seq<char>> {
    s.map_values(|b: WindowsHookHotkeyBinding| b.shortcut@)
}

/// `HOTKEY_REGISTER_FAILED` for the keyboard-hook bindings: their actions
/// and shortcuts joined by commas, the source, and the reason.
pub fn register_hook_bindings_error(bindings: &Vec<WindowsHookHotkeyBinding>, reason: String) -> (e: AppError)
    ensures
        e.code@ == "HOTKEY_REGISTER_FAILED"@,
        e.message@ == "热键注册失败"@,
        e.detail_map() == map![
            "actions"@ => joined(hook_action_keys(bindings@), ","@),
            "shortcuts"@ => joined(hook_shortcuts(bindings@), ","@),
            "source"@ => "windows_hook"@,
            "reason"@ => reason@,
        ],
{
    let mut keys: Vec<String> = Vec::new();
    let mut shortcuts: Vec<String> = Vec::new();
    let mut i: usize = 0;
    while i < bindings.len()
        invariant
            i <= bindings@.len(),
            keys@.len() == i,
            shortcuts@.len() == i,
            forall|k: int| 0 <= k < i ==> (#[trigger] keys@[k])@ == bindings@[k].action.spec_key(),
            forall|k: int| 0 <= k < i ==> (#[trigger] shortcuts@[k])@ == bindings@[k].shortcut@,
        decreases bindings@.len() - i,
    {
        keys.push(bindings[i].action.key().to_owned());
        shortcuts.push(bindings[i].shortcut.clone());
        i = i + 1;
    }
    assert(string_views(keys@) =~= hook_action_keys(bindings@));
    assert(string_views(shortcuts@) =~= hook_shortcuts(bindings@));
    let actions_text = join_strings(&keys, ",");
    let shortcuts_text = join_strings(&shortcuts, ",");
    AppError::new("HOTKEY_REGISTER_FAILED", "热键注册失败").with_detail("actions", actions_text.as_str()).with_detail(
        "shortcuts",
        shortcuts_text.as_str(),
    ).with_detail("source", "windows_hook").with_detail("reason", reason.as_str())
}

// ---------------------------------------------------------------------------
// Classification
// ---------------------------------------------------------------------------

/// The position of the first binding whose shortcut is not supported.
pub open spec fn first_unsupported(s: Seq<RegisteredHotkeyBinding>, n: int) -> Option<int>
    decreases n,
{
    if n <= 0 {
        None
    } else {
        match first_unsupported(s, n - 1) {
            Some(i) => Some(i),
            None => if shortcut_kind(s[n - 1].shortcut@) is Err {
                Some(n - 1)
            } else {
                None
            },
        }
    }
}

/// The bindings of the first `n` that are registered by `kind`, in order.
pub open spec fn of_kind(s: Seq<RegisteredHotkeyBinding>, n: int, kind: HotkeyShortcutKind) -> Seq<
    (HotkeyAction, Seq<char>),
>
    decreases n,
{
    if n <= 0 {
        Seq::empty()
    } else if shortcut_kind(s[n - 1].shortcut@) == Ok::<HotkeyShortcutKind, Seq<char>>(kind) {
        of_kind(s, n - 1, kind).push(binding_view(s[n - 1]))
    } else {
        of_kind(s, n - 1, kind)
    }
}

proof fn lemma_first_unsupported_stable(s: Seq<RegisteredHotkeyBinding>, k: int, n: int)
    requires
        0 <= k <= n,
        first_unsupported(s, k) is Some,
    ensures
        first_unsupported(s, n) == first_unsupported(s, k),
    decreases n - k,
{
    if n > k {
        lemma_first_unsupported_stable(s, k, n - 1);
    }
}

/// Splits the bindings by how they are registered; the first binding whose
/// shortcut is not supported gives `HOTKEY_SHORTCUT_INVALID` with the reason.
pub fn classify_bindings(bindings: &Vec<RegisteredHotkeyBinding>) -> (r: AppResult<ClassifiedBindings>)
    ensures
        match first_unsupported(bindings@, bindings@.len() as int) {
            Some(i) => r matches Err(e) && e.code@ == "HOTKEY_SHORTCUT_INVALID"@ && e.message@
                == "热键格式无效"@ && e.detail_map() == binding_details(
                bindings@[i],
                shortcut_kind(bindings@[i].shortcut@)->Err_0,
            ),
            None => r matches Ok(c) && bindings_view(c.basic@) == of_kind(
                bindings@,
                bindings@.len() as int,
                HotkeyShortcutKind::Basic,
            ) && hook_bindings_view(c.hook@) == of_kind(
                bindings@,
                bindings@.len() as int,
                HotkeyShortcutKind::WindowsHook,
            ),
        },
{
    let mut basic: Vec<RegisteredHotkeyBinding> = Vec::new();
    let mut hook: Vec<WindowsHookHotkeyBinding> = Vec::new();
    let mut i: usize = 0;
    while i < bindings.len()
        invariant
            i <= bindings@.len(),
            first_unsupported(bindings@, i as int) is None,
            bindings_view(basic@) == of_kind(bindings@, i as int, HotkeyShortcutKind::Basic),
            hook_bindings_view(hook@) == of_kind(bindings@, i as int, HotkeyShortcutKind::WindowsHook),
        decreases bindings@.len() - i,
    {
        let b = &bindings[i];
        match classify_supported_shortcut(b.shortcut.as_str()) {
            Err(reason) => {
                proof {
                    assert(first_unsupported(bindings@, i + 1) == Some(i as int));
                    lemma_first_unsupported_stable(bindings@, i + 1, bindings@.len() as int);
                }
                return Err(invalid_shortcut_error(b, reason));
            },
            Ok(HotkeyShortcutKind::Basic) => {
                basic.push(RegisteredHotkeyBinding { action: b.action, shortcut: b.shortcut.clone() });
                assert(bindings_view(basic@) =~= of_kind(bindings@, i + 1, HotkeyShortcutKind::Basic));
                assert(hook_bindings_view(hook@) =~= of_kind(
                    bindings@,
                    i + 1,
                    HotkeyShortcutKind::WindowsHook,
                ));
            },
            Ok(HotkeyShortcutKind::WindowsHook) => {
                hook.push(WindowsHookHotkeyBinding { action: b.action, shortcut: b.shortcut.clone() });
                assert(bindings_view(basic@) =~= of_kind(bindings@, i + 1, HotkeyShortcutKind::Basic));
                assert(hook_bindings_view(hook@) =~= of_kind(
                    bindings@,
                    i + 1,
                    HotkeyShortcutKind::WindowsHook,
                ));
            },
        }
        i = i + 1;
    }
    Ok(ClassifiedBindings { basic, hook })
}

/// Whether any of the bindings goes through the keyboard hook, so that the
/// hook's bindings must be cleared when they are unregistered.
pub fn uses_windows_hook(bindings: &Vec<RegisteredHotkeyBinding>) -> (r: bool)
    ensures
        r == exists|i: int|
            0 <= i < bindings@.len() && shortcut_kind((#[trigger] bindings@[i]).shortcut@)
                == Ok::<HotkeyShortcutKind, Seq<char>>(HotkeyShortcutKind::WindowsHook),
{
    let mut i: usize = 0;
    while i < bindings.len()
        invariant
            i <= bindings@.len(),
            forall|k: int|
                0 <= k < i ==> shortcut_kind((#[trigger] bindings@[k]).shortcut@) != Ok::<
                    HotkeyShortcutKind,
                    Seq<char>,
                >(HotkeyShortcutKind::WindowsHook),
        decreases bindings@.len() - i,
    {
        if requires_windows_hook(bindings[i].shortcut.as_str()) {
            return true;
        }
        i = i + 1;
    }
    false
}

// ---------------------------------------------------------------------------
// Applying new bindings
// ---------------------------------------------------------------------------

/// Whether two binding lists are the same, action by action and shortcut
/// by shortcut.
pub fn same_bindings(a: &Vec<RegisteredHotkeyBinding>, b: &Vec<RegisteredHotkeyBinding>) -> (r: bool)
    ensures
        r == (bindings_view(a@) == bindings_view(b@)),
{
    if a.len() != b.len() {
        proof {
            assert(bindings_view(a@).len() != bindings_view(b@).len());
        }
        return false;
    }
    let mut i: usize = 0;
    while i < a.len()
        invariant
            i <= a@.len(),
            a@.len() == b@.len(),
            forall|k: int| 0 <= k < i ==> binding_view(#[trigger] a@[k]) == binding_view(b@[k]),
        decreases a@.len() - i,
    {
        if a[i].action != b[i].action || !a[i].shortcut.eq(&b[i].shortcut) {
            proof {
                assert(bindings_view(a@)[i as int] != bindings_view(b@)[i as int]);
            }
            return false;
        }
        i = i + 1;
    }
    assert(bindings_view(a@) =~= bindings_view(b@));
    true
}

/// What applying `desired` over the registered `previous` leaves registered
/// and returns, given what registering `desired` came to and, when that
/// failed, what registering `previous` again came to (the error's text):
/// the new bindings on success; on failure the previous ones, or none when
/// they could not be restored, in which case the error says so.
pub fn settle_hotkey_apply(
    previous: Vec<RegisteredHotkeyBinding>,
    desired: Vec<RegisteredHotkeyBinding>,
    registered: AppResult<()>,
    restored: Option<Result<(), String>>,
) -> (r: (Vec<RegisteredHotkeyBinding>, AppResult<()>))
    requires
        registered is Err ==> restored is Some,
    ensures
        match registered {
            Ok(()) => bindings_view(r.0@) == bindings_view(desired@) && r.1 is Ok,
            Err(error) => match restored {
                Some(Ok(())) => bindings_view(r.0@) == bindings_view(previous@) && r.1 == Err::<
                    (),
                    AppError,
                >(error),
                Some(Err(reason)) => r.0@.len() == 0 && (r.1 matches Err(e) && e.code == error.code
                    && e.message == error.message && e.retryable == error.retryable
                    && e.detail_map() == error.detail_map().insert("rollback"@, "failed"@).insert(
                    "rollbackReason"@,
                    reason@,
                )),
                None => false,
            },
        },
{
    match registered {
        Ok(()) => (desired, Ok(())),
        Err(error) => match restored {
            Some(Ok(())) => (previous, Err(error)),
            Some(Err(reason)) => (
                Vec::new(),
                Err(error.with_detail("rollback", "failed").with_detail("rollbackReason", reason.as_str())),
            ),
            None => (previous, Err(error)),
        },
    }
}

// ---------------------------------------------------------------------------
// The service's state
// ---------------------------------------------------------------------------

/// The bindings the hotkey service has registered. Registering with the
/// system happens outside; the service decides what is registered after each
/// attempt.
#[derive(Debug)]
pub struct HotkeyService {
    pub registered: Vec<RegisteredHotkeyBinding>,
}

fn copy_bindings(v: &Vec<RegisteredHotkeyBinding>) -> (r: Vec<RegisteredHotkeyBinding>)
    ensures
        bindings_view(r@) == bindings_view(v@),
{
    let mut out: Vec<RegisteredHotkeyBinding> = Vec::new();
    let mut i: usize = 0;
    while i < v.len()
        invariant
            i <= v@.len(),
            out@.len() == i,
            bindings_view(out@) == bindings_view(v@.take(i as int)),
        decreases v@.len() - i,
    {
        let shortcut = v[i].shortcut.clone();
        out.push(RegisteredHotkeyBinding { action: v[i].action, shortcut });
        assert(binding_view(out@[i as int]) == binding_view(v@[i as int]));
        assert forall|k: int| 0 <= k < i + 1 implies #[trigger] bindings_view(out@)[k] == bindings_view(
            v@.take(i + 1),
        )[k] by {
            if k < i {
                assert(bindings_view(out@)[k] == bindings_view(out@.drop_last())[k]);
                assert(bindings_view(v@.take(i + 1))[k] == bindings_view(v@.take(i as int))[k]);
            }
        }
        assert(bindings_view(out@) =~= bindings_view(v@.take(i + 1)));
        i = i + 1;
    }
    assert(v@.take(v@.len() as int) =~= v@);
    out
}

impl HotkeyService {
    /// A service with nothing registered.
    pub fn new() -> (s: Self)
        ensures
            bindings_view(s.registered@) == Seq::<(HotkeyAction, Seq<char>)>::empty(),
    {
        let s = HotkeyService { registered: Vec::new() };
        assert(bindings_view(s.registered@) =~= Seq::<(HotkeyAction, Seq<char>)>::empty());
        s
    }

    /// The bindings registered now.
    pub fn current_registered(&self) -> (r: Vec<RegisteredHotkeyBinding>)
        ensures
            bindings_view(r@) == bindings_view(self.registered@),
    {
        copy_bindings(&self.registered)
    }

    /// Whether the preferences ask for other bindings than those registered;
    /// when they do not, applying them does nothing.
    pub fn apply_is_needed(&self, preferences: &AppPreferences) -> (r: bool)
        ensures
            r == (desired_bindings(*preferences) != bindings_view(self.registered@)),
    {
        let desired = build_desired_bindings(preferences);
        !same_bindings(&desired, &self.registered)
    }

    /// Records how applying the bindings `desired` went (see
    /// `settle_hotkey_apply`): what stays registered, and the result.
    pub fn finish_apply(
        &mut self,
        desired: Vec<RegisteredHotkeyBinding>,
        registered: AppResult<()>,
        restored: Option<Result<(), String>>,
    ) -> (r: AppResult<()>)
        requires
            registered is Err ==> restored is Some,
        ensures
            match registered {
                Ok(()) => bindings_view(final(self).registered@) == bindings_view(desired@) && r is Ok,
                Err(error) => match restored {
                    Some(Ok(())) => bindings_view(final(self).registered@) == bindings_view(
                        old(self).registered@,
                    ) && r == Err::<(), AppError>(error),
                    Some(Err(reason)) => final(self).registered@.len() == 0 && (r matches Err(e)
                        && e.code == error.code && e.message == error.message && e.retryable
                        == error.retryable && e.detail_map() == error.detail_map().insert(
                        "rollback"@,
                        "failed"@,
                    ).insert("rollbackReason"@, reason@)),
                    None => false,
                },
            },
    {
        let previous = copy_bindings(&self.registered);
        let (kept, result) = settle_hotkey_apply(previous, desired, registered, restored);
        self.registered = kept;
        result
    }
}

/// After any apply, what is registered is what was asked for, what was
/// registered before, or nothing.
pub proof fn law_apply_leaves_known_bindings(
    before: Seq<(HotkeyAction, Seq<char>)>,
    desired: Seq<(HotkeyAction, Seq<char>)>,
    after: Seq<(HotkeyAction, Seq<char>)>,
    registered: AppResult<()>,
    restored: Option<Result<(), String>>,
)
    requires
        registered is Err ==> restored is Some,
        match registered {
            Ok(()) => after == desired,
            Err(_) => match restored {
                Some(Ok(())) => after == before,
                Some(Err(_)) => after.len() == 0,
                None => false,
            },
        },
    ensures
        after == desired || after == before || after.len() == 0,
        registered is Ok ==> after == desired,
{
}

} // verus!
