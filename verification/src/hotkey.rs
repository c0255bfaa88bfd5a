//! Hotkey actions and the grammar of shortcut strings such as
//! `Ctrl+Shift+X` or `RAlt`.
use vstd::prelude::*;

use crate::error::{lemma_detail_keys_distinct, AppError};
use crate::text::{
    chars_of, in_words, is_ascii_digit, lower, lower_chars, string_from, trim, trim_chars,
    trim_slice, utf8_len, utf8_len_exceeds, words_contain,
};

verus! {

/// A user-triggerable action bound to a global shortcut.
#[derive(Debug, Clone, Copy, PartialEq, Eq, Structural)]
pub enum HotkeyAction {
    ScreenshotCapture,
    VoiceInputToggle,
    VoiceInputHold,
    PromptQuickPaste1,
    PromptQuickPaste2,
    PromptQuickPaste3,
    PromptQuickPaste4,
    PromptQuickPaste5,
}

/// How a valid shortcut is registered: through the ordinary global-shortcut
/// API, or through the low-level keyboard hook (needed for side-specific
/// modifiers and modifier-only shortcuts).
#[derive(Debug, Clone, Copy, PartialEq, Eq, Structural)]
pub enum HotkeyShortcutKind {
    Basic,
    WindowsHook,
}

impl HotkeyAction {
    pub open spec fn spec_key(self) -> Seq<char> {
        match self {
            HotkeyAction::ScreenshotCapture => "screenshot_capture"@,
            HotkeyAction::VoiceInputToggle => "voice_input_toggle"@,
            HotkeyAction::VoiceInputHold => "voice_input_hold"@,
            HotkeyAction::PromptQuickPaste1 => "prompt_quick_paste_1"@,
            HotkeyAction::PromptQuickPaste2 => "prompt_quick_paste_2"@,
            HotkeyAction::PromptQuickPaste3 => "prompt_quick_paste_3"@,
            HotkeyAction::PromptQuickPaste4 => "prompt_quick_paste_4"@,
            HotkeyAction::PromptQuickPaste5 => "prompt_quick_paste_5"@,
        }
    }

    pub open spec fn spec_field(self) -> Seq<char> {
        match self {
            HotkeyAction::ScreenshotCapture => "hotkey.screenshotCapture"@,
            HotkeyAction::VoiceInputToggle => "hotkey.voiceInputToggle"@,
            HotkeyAction::VoiceInputHold => "hotkey.voiceInputHold"@,
            HotkeyAction::PromptQuickPaste1 => "hotkey.promptQuickPasteSlots[0].shortcut"@,
            HotkeyAction::PromptQuickPaste2 => "hotkey.promptQuickPasteSlots[1].shortcut"@,
            HotkeyAction::PromptQuickPaste3 => "hotkey.promptQuickPasteSlots[2].shortcut"@,
            HotkeyAction::PromptQuickPaste4 => "hotkey.promptQuickPasteSlots[3].shortcut"@,
            HotkeyAction::PromptQuickPaste5 => "hotkey.promptQuickPasteSlots[4].shortcut"@,
        }
    }

    pub open spec fn spec_slot(self) -> Option<u8> {
        match self {
            HotkeyAction::PromptQuickPaste1 => Some(1u8),
            HotkeyAction::PromptQuickPaste2 => Some(2u8),
            HotkeyAction::PromptQuickPaste3 => Some(3u8),
            HotkeyAction::PromptQuickPaste4 => Some(4u8),
            HotkeyAction::PromptQuickPaste5 => Some(5u8),
            _ => None,
        }
    }

    pub open spec fn is_prompt_quick_paste(self) -> bool {
        self.spec_slot() is Some
    }

    pub open spec fn is_voice(self) -> bool {
        self == HotkeyAction::VoiceInputToggle || self == HotkeyAction::VoiceInputHold
    }

    /// Stable identifier of the action.
    pub fn key(self) -> (r: &'static str)
        ensures
            r@ == self.spec_key(),
    {
        match self {
            HotkeyAction::ScreenshotCapture => "screenshot_capture",
            HotkeyAction::VoiceInputToggle => "voice_input_toggle",
            HotkeyAction::VoiceInputHold => "voice_input_hold",
            HotkeyAction::PromptQuickPaste1 => "prompt_quick_paste_1",
            HotkeyAction::PromptQuickPaste2 => "prompt_quick_paste_2",
            HotkeyAction::PromptQuickPaste3 => "prompt_quick_paste_3",
            HotkeyAction::PromptQuickPaste4 => "prompt_quick_paste_4",
            HotkeyAction::PromptQuickPaste5 => "prompt_quick_paste_5",
        }
    }

    /// The preferences field that holds the action's shortcut.
    pub fn preference_field(self) -> (r: &'static str)
        ensures
            r@ == self.spec_field(),
    {
        match self {
            HotkeyAction::ScreenshotCapture => "hotkey.screenshotCapture",
            HotkeyAction::VoiceInputToggle => "hotkey.voiceInputToggle",
            HotkeyAction::VoiceInputHold => "hotkey.voiceInputHold",
            HotkeyAction::PromptQuickPaste1 => "hotkey.promptQuickPasteSlots[0].shortcut",
            HotkeyAction::PromptQuickPaste2 => "hotkey.promptQuickPasteSlots[1].shortcut",
            HotkeyAction::PromptQuickPaste3 => "hotkey.promptQuickPasteSlots[2].shortcut",
            HotkeyAction::PromptQuickPaste4 => "hotkey.promptQuickPasteSlots[3].shortcut",
            HotkeyAction::PromptQuickPaste5 => "hotkey.promptQuickPasteSlots[4].shortcut",
        }
    }

    /// The action of prompt quick-paste slot `slot` (1 to 5).
    pub fn from_prompt_quick_paste_slot(slot: u8) -> (r: Option<HotkeyAction>)
        ensures
            r is Some <==> 1 <= slot <= 5,
            r matches Some(a) ==> a.spec_slot() == Some(slot),
    {
        match slot {
            1 => Some(HotkeyAction::PromptQuickPaste1),
            2 => Some(HotkeyAction::PromptQuickPaste2),
            3 => Some(HotkeyAction::PromptQuickPaste3),
            4 => Some(HotkeyAction::PromptQuickPaste4),
            5 => Some(HotkeyAction::PromptQuickPaste5),
            _ => None,
        }
    }

    /// The prompt quick-paste slot of the action, if it is one.
    pub fn prompt_quick_paste_slot(self) -> (r: Option<u8>)
        ensures
            r == self.spec_slot(),
    {
        match self {
            HotkeyAction::PromptQuickPaste1 => Some(1),
            HotkeyAction::PromptQuickPaste2 => Some(2),
            HotkeyAction::PromptQuickPaste3 => Some(3),
            HotkeyAction::PromptQuickPaste4 => Some(4),
            HotkeyAction::PromptQuickPaste5 => Some(5),
            _ => None,
        }
    }
}

/// Slot numbers and actions correspond one to one: two actions with the
/// same slot are the same action, and the slots are exactly 1 to 5.
pub proof fn law_slot_action_one_to_one(a: HotkeyAction, b: HotkeyAction)
    ensures
        a.spec_slot() is Some && a.spec_slot() == b.spec_slot() ==> a == b,
        a.spec_slot() matches Some(n) ==> 1 <= n <= 5,
{
}

// ---------------------------------------------------------------------------
// Token vocabulary
// ---------------------------------------------------------------------------

pub open spec fn modifier_words() -> Seq<&'static str> {
    seq![
        "ctrl", "control", "lctrl", "leftctrl", "leftcontrol", "rctrl", "rightctrl", "rightcontrol",
        "alt", "altgraph", "lalt", "leftalt", "ralt", "rightalt", "shift", "lshift", "leftshift",
        "rshift", "rightshift", "super", "meta", "win", "windows", "lwin", "leftwin",
        "leftwindows", "rwin", "rightwin", "rightwindows", "command", "commandorcontrol", "cmd",
        "cmdorctrl",
    ]
}

pub open spec fn side_modifier_words() -> Seq<&'static str> {
    seq![
        "lctrl", "leftctrl", "leftcontrol", "rctrl", "rightctrl", "rightcontrol", "lalt",
        "leftalt", "ralt", "rightalt", "lshift", "leftshift", "rshift", "rightshift", "lwin",
        "leftwin", "leftwindows", "rwin", "rightwin", "rightwindows",
    ]
}

/// Names of the non-modifier keys that a shortcut may use, besides single
/// letters and digits.
pub open spec fn named_key_words() -> Seq<&'static str> {
    seq![
        "f1", "f2", "f3", "f4", "f5", "f6", "f7", "f8", "f9", "f10", "f11", "f12", "f13", "f14",
        "f15", "f16", "f17", "f18", "f19", "f20", "f21", "f22", "f23", "f24", "space", "enter",
        "return", "tab", "escape", "esc", "backspace", "delete", "del", "insert", "home", "end",
        "pageup", "pagedown", "up", "down", "left", "right", "arrowup", "arrowdown", "arrowleft",
        "arrowright", "printscreen", "pause", "minus", "equal", "comma", "period", "slash",
        "backquote", "semicolon", "quote", "bracketleft", "bracketright", "backslash",
    ]
}

pub open spec fn is_modifier_token(t: Seq<char>) -> bool {
    words_contain(modifier_words(), t)
}

pub open spec fn is_side_modifier_token(t: Seq<char>) -> bool {
    words_contain(side_modifier_words(), t)
}

/// A (lower-case) non-modifier key name.
pub open spec fn is_key_token(t: Seq<char>) -> bool {
    ||| (t.len() == 1 && (is_ascii_digit(t[0]) || ('a' <= t[0] && t[0] <= 'z')))
    ||| words_contain(named_key_words(), t)
}

fn is_hotkey_modifier_token(token: &[char]) -> (r: bool)
    ensures
        r == is_modifier_token(token@),
{
    let words: [&'static str; 33] = [
        "ctrl", "control", "lctrl", "leftctrl", "leftcontrol", "rctrl", "rightctrl", "rightcontrol",
        "alt", "altgraph", "lalt", "leftalt", "ralt", "rightalt", "shift", "lshift", "leftshift",
        "rshift", "rightshift", "super", "meta", "win", "windows", "lwin", "leftwin",
        "leftwindows", "rwin", "rightwin", "rightwindows", "command", "commandorcontrol", "cmd",
        "cmdorctrl",
    ];
    assert(words@ =~= modifier_words());
    in_words(token, &words)
}

fn is_side_specific_hotkey_modifier_token(token: &[char]) -> (r: bool)
    ensures
        r == is_side_modifier_token(token@),
{
    let words: [&'static str; 20] = [
        "lctrl", "leftctrl", "leftcontrol", "rctrl", "rightctrl", "rightcontrol", "lalt",
        "leftalt", "ralt", "rightalt", "lshift", "leftshift", "rshift", "rightshift", "lwin",
        "leftwin", "leftwindows", "rwin", "rightwin", "rightwindows",
    ];
    assert(words@ =~= side_modifier_words());
    in_words(token, &words)
}

fn is_hotkey_key_token(token: &[char]) -> (r: bool)
    ensures
        r == is_key_token(token@),
{
    if token.len() == 1 {
        let c = token[0];
        if ('0' <= c && c <= '9') || ('a' <= c && c <= 'z') {
            return true;
        }
    }
    let words: [&'static str; 59] = [
        "f1", "f2", "f3", "f4", "f5", "f6", "f7", "f8", "f9", "f10", "f11", "f12", "f13", "f14",
        "f15", "f16", "f17", "f18", "f19", "f20", "f21", "f22", "f23", "f24", "space", "enter",
        "return", "tab", "escape", "esc", "backspace", "delete", "del", "insert", "home", "end",
        "pageup", "pagedown", "up", "down", "left", "right", "arrowup", "arrowdown", "arrowleft",
        "arrowright", "printscreen", "pause", "minus", "equal", "comma", "period", "slash",
        "backquote", "semicolon", "quote", "bracketleft", "bracketright", "backslash",
    ];
    assert(words@ =~= named_key_words());
    in_words(token, &words)
}

// ---------------------------------------------------------------------------
// Tokenizing
// ---------------------------------------------------------------------------

/// The raw pieces of `s` between `+` separators.
pub open spec fn split_plus(s: Seq<char>) -> Seq<Seq<char>>
    decreases s.len(),
{
    if s.len() == 0 {
        seq![Seq::<char>::empty()]
    } else {
        let p = split_plus(s.drop_last());
        if s.last() == '+' {
            p.push(Seq::<char>::empty())
        } else {
            p.update(p.len() - 1, p.last().push(s.last()))
        }
    }
}

pub proof fn lemma_split_plus_nonempty(s: Seq<char>)
    ensures
        split_plus(s).len() >= 1,
    decreases s.len(),
{
    if s.len() > 0 {
        lemma_split_plus_nonempty(s.drop_last());
    }
}

/// A piece made into a token: trimmed and lower-cased.
pub open spec fn clean_token(p: Seq<char>) -> Seq<char> {
    lower(trim(p))
}

/// The non-empty cleaned pieces, in order.
pub open spec fn clean_tokens(ps: Seq<Seq<char>>) -> Seq<Seq<char>>
    decreases ps.len(),
{
    if ps.len() == 0 {
        Seq::empty()
    } else {
        let r = clean_tokens(ps.drop_last());
        if clean_token(ps.last()).len() > 0 {
            r.push(clean_token(ps.last()))
        } else {
            r
        }
    }
}

/// The tokens of a shortcut: pieces between `+`, trimmed, lower-cased,
/// empty ones dropped.
pub open spec fn shortcut_tokens(s: Seq<char>) -> Seq<Seq<char>> {
    clean_tokens(split_plus(s))
}

pub open spec fn views(v: Seq<Vec<char>>) -> Seq<Seq<char>> {
    v.map_values(|x: Vec<char>| x@)
}

fn push_clean(out: &mut Vec<Vec<char>>, piece: &[char])
    ensures
        views(final(out)@) == if clean_token(piece@).len() > 0 {
            views(old(out)@).push(clean_token(piece@))
        } else {
            views(old(out)@)
        },
{
    let t = trim_slice(piece);
    let l = lower_chars(t.as_slice());
    if l.len() > 0 {
        out.push(l);
        assert(views(out@) =~= views(old(out)@).push(clean_token(piece@)));
    }
}

fn split_hotkey_shortcut_tokens(value: &[char]) -> (r: Vec<Vec<char>>)
    ensures
        views(r@) == shortcut_tokens(value@),
{
    let mut out: Vec<Vec<char>> = Vec::new();
    let mut cur: Vec<char> = Vec::new();
    let mut i: usize = 0;
    proof {
        assert(value@.take(0) =~= Seq::<char>::empty());
        assert(views(out@) =~= Seq::<Seq<char>>::empty());
    }
    while i < value.len()
        invariant
            i <= value@.len(),
            split_plus(value@.take(i as int)).len() >= 1,
            split_plus(value@.take(i as int)).last() == cur@,
            views(out@) == clean_tokens(split_plus(value@.take(i as int)).drop_last()),
        decreases value@.len() - i,
    {
        let ghost p = split_plus(value@.take(i as int));
        let c = value[i];
        assert(value@.take(i + 1).drop_last() =~= value@.take(i as int));
        assert(value@.take(i + 1).last() == c);
        if c == '+' {
            push_clean(&mut out, cur.as_slice());
            cur = Vec::new();
            proof {
                assert(p.push(Seq::<char>::empty()).drop_last() =~= p);
                assert(p =~= p.drop_last().push(p.last()));
            }
        } else {
            cur.push(c);
            proof {
                assert(p.update(p.len() - 1, p.last().push(c)).drop_last() =~= p.drop_last());
            }
        }
        i = i + 1;
    }
    let ghost p = split_plus(value@);
    assert(value@.take(value@.len() as int) =~= value@);
    push_clean(&mut out, cur.as_slice());
    assert(p =~= p.drop_last().push(p.last()));
    out
}

pub open spec fn has_non_modifier(toks: Seq<Seq<char>>) -> bool {
    exists|i: int| 0 <= i < toks.len() && !is_modifier_token(#[trigger] toks[i])
}

pub open spec fn all_side_specific(toks: Seq<Seq<char>>) -> bool {
    forall|i: int| 0 <= i < toks.len() ==> is_side_modifier_token(#[trigger] toks[i])
}

pub open spec fn has_unknown_token(toks: Seq<Seq<char>>) -> bool {
    exists|i: int|
        0 <= i < toks.len() && !is_modifier_token(#[trigger] toks[i]) && !is_key_token(toks[i])
}

pub open spec fn has_two_keys(toks: Seq<Seq<char>>) -> bool {
    exists|i: int, j: int|
        0 <= i < j < toks.len() && !is_modifier_token(#[trigger] toks[i])
            && !is_modifier_token(#[trigger] toks[j])
}

pub open spec fn has_side_modifier(toks: Seq<Seq<char>>) -> bool {
    exists|i: int| 0 <= i < toks.len() && is_side_modifier_token(#[trigger] toks[i])
}

struct TokenFacts {
    non_modifier: bool,
    all_side: bool,
    unknown: bool,
    two_keys: bool,
    side: bool,
}

fn token_facts(toks: &Vec<Vec<char>>) -> (r: TokenFacts)
    ensures
        r.non_modifier == has_non_modifier(views(toks@)),
        r.all_side == all_side_specific(views(toks@)),
        r.unknown == has_unknown_token(views(toks@)),
        r.two_keys == has_two_keys(views(toks@)),
        r.side == has_side_modifier(views(toks@)),
{
    let ghost ts = views(toks@);
    let mut non_modifier = false;
    let mut all_side = true;
    let mut unknown = false;
    let mut two_keys = false;
    let mut side = false;
    let mut first_key: usize = 0;
    let mut i: usize = 0;
    while i < toks.len()
        invariant
            i <= toks@.len(),
            ts == views(toks@),
            ts.len() == toks@.len(),
            non_modifier == has_non_modifier(ts.take(i as int)),
            non_modifier ==> first_key < i && !is_modifier_token(ts[first_key as int]),
            all_side == all_side_specific(ts.take(i as int)),
            unknown == has_unknown_token(ts.take(i as int)),
            two_keys == has_two_keys(ts.take(i as int)),
            side == has_side_modifier(ts.take(i as int)),
        decreases toks@.len() - i,
    {
        let t = &toks[i];
        assert(ts[i as int] == t@);
        let is_mod = is_hotkey_modifier_token(t.as_slice());
        let is_side = is_side_specific_hotkey_modifier_token(t.as_slice());
        let is_key = is_hotkey_key_token(t.as_slice());
        let ghost pre = ts.take(i as int);
        let ghost post = ts.take(i + 1);
        assert(post =~= pre.push(t@));
        proof {
            assert forall|k: int| 0 <= k < pre.len() implies post[k] == pre[k] by {}
            assert(post[i as int] == t@);
        }
        if !is_mod {
            if non_modifier {
                two_keys = true;
                assert(!is_modifier_token(post[first_key as int]));
                assert(has_two_keys(post));
            } else {
                proof {
                    if has_two_keys(post) {
                        let (a, b) = choose|a: int, b: int|
                            0 <= a < b < post.len() && !is_modifier_token(#[trigger] post[a])
                                && !is_modifier_token(#[trigger] post[b]);
                        assert(a < pre.len());
                        assert(!is_modifier_token(pre[a]));
                    }
                }
                first_key = i;
            }
            non_modifier = true;
            if !is_key {
                unknown = true;
            }
        } else {
            proof {
                if has_two_keys(post) {
                    let (a, b) = choose|a: int, b: int|
                        0 <= a < b < post.len() && !is_modifier_token(#[trigger] post[a])
                            && !is_modifier_token(#[trigger] post[b]);
                    assert(b < pre.len());
                    assert(pre[a] == post[a] && pre[b] == post[b]);
                    assert(has_two_keys(pre));
                }
            }
        }
        if !is_side {
            all_side = false;
        }
        if is_side {
            side = true;
        }
        i = i + 1;
    }
    assert(ts.take(toks@.len() as int) =~= ts);
    TokenFacts { non_modifier, all_side, unknown, two_keys, side }
}

// ---------------------------------------------------------------------------
// Shortcut checks
// ---------------------------------------------------------------------------

pub open spec fn reason_empty() -> Seq<char> {
    "热键不能为空"@
}

pub open spec fn reason_unknown_key() -> Seq<char> {
    "热键包含不支持的按键"@
}

pub open spec fn reason_two_keys() -> Seq<char> {
    "热键只能包含一个非修饰键"@
}

pub open spec fn reason_screenshot_modifier_only() -> Seq<char> {
    "截图热键至少包含一个非修饰键，例如 Ctrl+Shift+X"@
}

pub open spec fn reason_prompt_modifier_only() -> Seq<char> {
    "Prompt 快速粘贴热键至少包含一个非修饰键，例如 Ctrl+Alt+Shift+1"@
}

pub open spec fn reason_voice_modifier_only() -> Seq<char> {
    "语音输入热键如果只使用修饰键，必须使用单侧修饰键，例如 RAlt / LWin+LAlt"@
}

/// Which registration a shortcut needs, or why it is not supported.
pub open spec fn shortcut_kind(s: Seq<char>) -> Result<HotkeyShortcutKind, Seq<char>> {
    let toks = shortcut_tokens(s);
    if toks.len() == 0 {
        Err(reason_empty())
    } else if has_unknown_token(toks) {
        Err(reason_unknown_key())
    } else if has_two_keys(toks) {
        Err(reason_two_keys())
    } else if has_side_modifier(toks) || !has_non_modifier(toks) {
        Ok(HotkeyShortcutKind::WindowsHook)
    } else {
        Ok(HotkeyShortcutKind::Basic)
    }
}

/// Whether the shortcut is supported, and by which registration.
pub fn classify_supported_shortcut(value: &str) -> (r: Result<HotkeyShortcutKind, String>)
    ensures
        match shortcut_kind(value@) {
            Ok(k) => r == Ok::<HotkeyShortcutKind, String>(k),
            Err(m) => r matches Err(e) && e@ == m,
        },
{
    let v = chars_of(value);
    let toks = split_hotkey_shortcut_tokens(v.as_slice());
    let f = token_facts(&toks);
    if toks.len() == 0 {
        return Err("热键不能为空".to_owned());
    }
    if f.unknown {
        return Err("热键包含不支持的按键".to_owned());
    }
    if f.two_keys {
        return Err("热键只能包含一个非修饰键".to_owned());
    }
    if f.side || !f.non_modifier {
        Ok(HotkeyShortcutKind::WindowsHook)
    } else {
        Ok(HotkeyShortcutKind::Basic)
    }
}

/// Whether the shortcut must be registered through the keyboard hook.
pub fn requires_windows_hook(value: &str) -> (r: bool)
    ensures
        r == (shortcut_kind(value@) == Ok::<HotkeyShortcutKind, Seq<char>>(
            HotkeyShortcutKind::WindowsHook,
        )),
{
    match classify_supported_shortcut(value) {
        Ok(HotkeyShortcutKind::WindowsHook) => true,
        _ => false,
    }
}

/// The action-specific rule that a shortcut breaks, if any.
pub open spec fn shortcut_semantics(action: HotkeyAction, s: Seq<char>) -> Option<Seq<char>> {
    let toks = shortcut_tokens(s);
    if toks.len() == 0 {
        Some(reason_empty())
    } else if action == HotkeyAction::ScreenshotCapture && !has_non_modifier(toks) {
        Some(reason_screenshot_modifier_only())
    } else if action.is_prompt_quick_paste() && !has_non_modifier(toks) {
        Some(reason_prompt_modifier_only())
    } else if action.is_voice() && !has_non_modifier(toks) && !all_side_specific(toks) {
        Some(reason_voice_modifier_only())
    } else {
        None
    }
}

/// A voice shortcut made only of modifier keys must name the side of each
/// of them: with a modifier that names no side (as in `Ctrl+Alt`) it is
/// refused, and with every modifier naming its side (as in `RAlt` or
/// `LWin+LAlt`) it is accepted as written.
pub proof fn law_voice_modifier_only_shortcuts_name_sides(
    action: HotkeyAction,
    value: Seq<char>,
    required: bool,
)
    requires
        action.is_voice(),
        trim(value).len() > 0,
        shortcut_tokens(trim(value)).len() > 0,
        forall|i: int|
            0 <= i < shortcut_tokens(trim(value)).len() ==> is_modifier_token(
                #[trigger] shortcut_tokens(trim(value))[i],
            ),
    ensures
        (exists|i: int|
            0 <= i < shortcut_tokens(trim(value)).len() && !is_side_modifier_token(
                #[trigger] shortcut_tokens(trim(value))[i],
            )) ==> shortcut_outcome(action, value, required) is Err,
        (forall|i: int|
            0 <= i < shortcut_tokens(trim(value)).len() ==> is_side_modifier_token(
                #[trigger] shortcut_tokens(trim(value))[i],
            )) && utf8_len(trim(value)) <= 64 ==> shortcut_outcome(action, value, required)
            == Ok::<Option<Seq<char>>, ShortcutRejection>(Some(trim(value))),
{
    let t = trim(value);
    let toks = shortcut_tokens(t);
    assert(!has_non_modifier(toks));
    assert(!has_unknown_token(toks));
    assert(!has_two_keys(toks));
    if exists|i: int| 0 <= i < toks.len() && !is_side_modifier_token(#[trigger] toks[i]) {
        assert(!all_side_specific(toks));
        if utf8_len(t) <= 64 {
            assert(shortcut_kind(t) is Ok);
            assert(shortcut_semantics(action, t) == Some(reason_voice_modifier_only()));
        }
    }
}

/// A screenshot or prompt quick-paste shortcut needs a key besides its
/// modifiers: one made only of modifier keys is refused, whichever sides
/// they name.
pub proof fn law_key_actions_need_a_key(action: HotkeyAction, value: Seq<char>, required: bool)
    requires
        !action.is_voice(),
        trim(value).len() > 0,
        forall|i: int|
            0 <= i < shortcut_tokens(trim(value)).len() ==> is_modifier_token(
                #[trigger] shortcut_tokens(trim(value))[i],
            ),
    ensures
        shortcut_outcome(action, value, required) is Err,
{
    let t = trim(value);
    let toks = shortcut_tokens(t);
    assert(!has_non_modifier(toks));
    assert(action == HotkeyAction::ScreenshotCapture || action.is_prompt_quick_paste());
}

fn validate_hotkey_shortcut_semantics(action: HotkeyAction, value: &[char]) -> (r: Result<
    (),
    String,
>)
    ensures
        match shortcut_semantics(action, value@) {
            None => r is Ok,
            Some(m) => r matches Err(e) && e@ == m,
        },
{
    let toks = split_hotkey_shortcut_tokens(value);
    let f = token_facts(&toks);
    if toks.len() == 0 {
        return Err("热键不能为空".to_owned());
    }
    if action == HotkeyAction::ScreenshotCapture && !f.non_modifier {
        return Err("截图热键至少包含一个非修饰键，例如 Ctrl+Shift+X".to_owned());
    }
    let is_prompt = match action {
        HotkeyAction::PromptQuickPaste1 | HotkeyAction::PromptQuickPaste2
        | HotkeyAction::PromptQuickPaste3 | HotkeyAction::PromptQuickPaste4
        | HotkeyAction::PromptQuickPaste5 => true,
        _ => false,
    };
    if is_prompt && !f.non_modifier {
        return Err(
            "Prompt 快速粘贴热键至少包含一个非修饰键，例如 Ctrl+Alt+Shift+1".to_owned(),
        );
    }
    let is_voice = action == HotkeyAction::VoiceInputToggle || action
        == HotkeyAction::VoiceInputHold;
    if is_voice && !f.non_modifier && !f.all_side {
        return Err(
            "语音输入热键如果只使用修饰键，必须使用单侧修饰键，例如 RAlt / LWin+LAlt".to_owned(),
        );
    }
    Ok(())
}

/// Why a shortcut string is rejected.
pub enum ShortcutRejection {
    Required,
    TooLong,
    Invalid(Seq<char>),
}

/// The outcome of validating a shortcut for `action`: the trimmed shortcut,
/// nothing for an empty optional one, or the reason for rejecting it.
pub open spec fn shortcut_outcome(action: HotkeyAction, value: Seq<char>, required: bool) -> Result<
    Option<Seq<char>>,
    ShortcutRejection,
> {
    let t = trim(value);
    if t.len() == 0 {
        if required {
            Err(ShortcutRejection::Required)
        } else {
            Ok(None)
        }
    } else if utf8_len(t) > 64 {
        Err(ShortcutRejection::TooLong)
    } else if shortcut_kind(t) is Err {
        Err(ShortcutRejection::Invalid(shortcut_kind(t)->Err_0))
    } else if shortcut_semantics(action, t) is Some {
        Err(ShortcutRejection::Invalid(shortcut_semantics(action, t)->Some_0))
    } else {
        Ok(Some(t))
    }
}

/// Whether `e` is the error that reports `rej` for `action`.
pub open spec fn rejection_error(e: AppError, action: HotkeyAction, rej: ShortcutRejection) -> bool {
    &&& e.has_detail("field"@, action.spec_field())
    &&& match rej {
        ShortcutRejection::Required => e.code@ == "HOTKEY_SHORTCUT_REQUIRED"@,
        ShortcutRejection::TooLong => e.code@ == "HOTKEY_SHORTCUT_TOO_LONG"@,
        ShortcutRejection::Invalid(reason) => {
            &&& e.code@ == "HOTKEY_SHORTCUT_INVALID"@
            &&& e.has_detail("reason"@, reason)
        },
    }
}

pub open spec fn opt_view(o: Option<String>) -> Option<Seq<char>> {
    match o {
        Some(s) => Some(s@),
        None => None,
    }
}

/// Validates one shortcut for `action`; an empty value is refused when
/// `required`, and otherwise means "no shortcut".
pub fn validate_hotkey_shortcut(action: HotkeyAction, value: String, required: bool) -> (r: Result<
    Option<String>,
    AppError,
>)
    ensures
        match shortcut_outcome(action, value@, required) {
            Ok(o) => r matches Ok(x) && opt_view(x) == o,
            Err(rej) => r matches Err(e) && rejection_error(e, action, rej),
        },
{
    let t = trim_chars(value.as_str());
    let field = action.preference_field();
    if t.len() == 0 {
        if required {
            return Err(
                AppError::new("HOTKEY_SHORTCUT_REQUIRED", "截图热键不能为空").with_detail(
                    "field",
                    field,
                ),
            );
        }
        return Ok(None);
    }
    if utf8_len_exceeds(t.as_slice(), 64) {
        return Err(
            AppError::new("HOTKEY_SHORTCUT_TOO_LONG", "热键长度不能超过 64 个字符").with_detail(
                "field",
                field,
            ),
        );
    }
    let trimmed = string_from(t.as_slice());
    proof {
        lemma_detail_keys_distinct();
    }
    match classify_supported_shortcut(trimmed.as_str()) {
        Err(reason) => {
            return Err(
                AppError::new("HOTKEY_SHORTCUT_INVALID", "热键格式无效").with_detail(
                    "field",
                    field,
                ).with_detail("shortcut", trimmed.as_str()).with_detail("reason", reason.as_str()),
            );
        },
        Ok(_) => {},
    }
    match validate_hotkey_shortcut_semantics(action, t.as_slice()) {
        Err(reason) => {
            return Err(
                AppError::new("HOTKEY_SHORTCUT_INVALID", "热键格式无效").with_detail(
                    "field",
                    field,
                ).with_detail("shortcut", trimmed.as_str()).with_detail("reason", reason.as_str()),
            );
        },
        Ok(()) => {},
    }
    Ok(Some(trimmed))
}

/// Validates an optional shortcut: absent stays absent.
pub fn validate_hotkey_shortcut_option(action: HotkeyAction, value: Option<String>) -> (r: Result<
    Option<String>,
    AppError,
>)
    ensures
        value is None ==> (r matches Ok(x) && x is None),
        value matches Some(v) ==> match shortcut_outcome(action, v@, false) {
            Ok(o) => r matches Ok(x) && opt_view(x) == o,
            Err(rej) => r matches Err(e) && rejection_error(e, action, rej),
        },
{
    match value {
        None => Ok(None),
        Some(raw) => validate_hotkey_shortcut(action, raw, false),
    }
}

} // verus!
