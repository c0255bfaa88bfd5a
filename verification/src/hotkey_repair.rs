//! Repair of stored hotkey preferences: whatever cannot be kept is replaced
//! by its default, and the caller learns whether anything changed.
use vstd::prelude::*;

use crate::hotkey::{opt_view, shortcut_outcome, validate_hotkey_shortcut, HotkeyAction};
use crate::hotkey_prefs::{hotkey_error, slot_action, slot_to_action, validate_hotkey_preferences};
use crate::ids::{canonical_uuid, normalize_uuid};
use crate::preferences::{
    default_prompt_quick_paste_hotkey, default_slot_shortcut, is_default_hotkey, HotkeyPreferences,
    PromptQuickPasteHotkeySlot,
};
use crate::text::{chars_eq_ignore_case, chars_of, eq_ignore_case, lower, lower_chars, trim, trim_string};

verus! {

// ---------------------------------------------------------------------------
// Single shortcuts
// ---------------------------------------------------------------------------

/// The shortcut a required binding keeps: its validated form, or `fallback`
/// when it is refused.
pub open spec fn repaired_required(action: HotkeyAction, value: Seq<char>, fallback: Seq<char>) -> Seq<
    char,
> {
    match shortcut_outcome(action, value, true) {
        Ok(Some(t)) => t,
        _ => fallback,
    }
}

/// The shortcut an optional binding keeps: its validated form, or none when
/// it is blank or refused.
pub open spec fn repaired_optional(action: HotkeyAction, value: Option<String>) -> Option<Seq<char>> {
    match value {
        Some(v) => match shortcut_outcome(action, v@, false) {
            Ok(o) => o,
            Err(_) => None,
        },
        None => None,
    }
}

pub open spec fn optional_rejected(action: HotkeyAction, value: Option<String>) -> bool {
    value matches Some(v) && shortcut_outcome(action, v@, false) is Err
}

fn sanitize_required_hotkey_shortcut(
    action: HotkeyAction,
    value: String,
    fallback: &str,
    changed: &mut bool,
) -> (r: String)
    ensures
        r@ == repaired_required(action, value@, fallback@),
        *final(changed) == (*old(changed) || shortcut_outcome(action, value@, true) is Err),
{
    match validate_hotkey_shortcut(action, value, true) {
        Ok(Some(validated)) => validated,
        Ok(None) => fallback.to_owned(),
        Err(_) => {
            *changed = true;
            fallback.to_owned()
        },
    }
}

fn sanitize_optional_hotkey_shortcut(
    action: HotkeyAction,
    value: Option<String>,
    changed: &mut bool,
) -> (r: Option<String>)
    ensures
        opt_view(r) == repaired_optional(action, value),
        *final(changed) == (*old(changed) || optional_rejected(action, value)),
{
    match value {
        None => None,
        Some(raw) => match validate_hotkey_shortcut(action, raw, false) {
            Ok(validated) => validated,
            Err(_) => {
                *changed = true;
                None
            },
        },
    }
}

// ---------------------------------------------------------------------------
// Prompt quick-paste slots
// ---------------------------------------------------------------------------

/// A slot as the contracts see it.
pub struct SlotModel {
    pub slot: u8,
    pub enabled: bool,
    pub prompt_id: Option<Seq<char>>,
    pub shortcut: Seq<char>,
}

pub open spec fn slot_model(s: PromptQuickPasteHotkeySlot) -> SlotModel {
    SlotModel { slot: s.slot, enabled: s.enabled, prompt_id: opt_view(s.prompt_id), shortcut: s.shortcut@ }
}

/// Index of the first of the first `k` slots that carries number `n`.
pub open spec fn find_slot(s: Seq<PromptQuickPasteHotkeySlot>, n: u8, k: int) -> Option<int>
    decreases k,
{
    if k <= 0 {
        None
    } else {
        match find_slot(s, n, k - 1) {
            Some(i) => Some(i),
            None => if s[k - 1].slot == n {
                Some(k - 1)
            } else {
                None
            },
        }
    }
}

/// The stored slot that number `n` is repaired from: the first one that
/// carries that number.
pub open spec fn candidate(s: Seq<PromptQuickPasteHotkeySlot>, n: u8) -> Option<
    PromptQuickPasteHotkeySlot,
> {
    match find_slot(s, n, s.len() as int) {
        Some(i) => Some(s[i]),
        None => None,
    }
}

/// The prompt id a slot keeps: the canonical text of the UUID it spells.
pub open spec fn repaired_prompt(raw: Option<String>) -> Option<Seq<char>> {
    match raw {
        Some(r) => canonical_uuid(trim(r@)),
        None => None,
    }
}

pub open spec fn prompt_changed(raw: Option<String>) -> bool {
    match raw {
        Some(r) => canonical_uuid(trim(r@)) != Some(trim(r@)),
        None => false,
    }
}

/// What slot number `n` becomes: its default when no stored slot carries
/// the number; otherwise the stored slot with a valid shortcut (or the
/// default one), a canonical prompt id (or none), and enabled only with a
/// prompt.
pub open spec fn repaired_slot(s: Seq<PromptQuickPasteHotkeySlot>, n: u8) -> SlotModel {
    match candidate(s, n) {
        None => SlotModel {
            slot: n,
            enabled: false,
            prompt_id: None,
            shortcut: default_slot_shortcut(n as int),
        },
        Some(c) => SlotModel {
            slot: n,
            enabled: c.enabled && repaired_prompt(c.prompt_id) is Some,
            prompt_id: repaired_prompt(c.prompt_id),
            shortcut: repaired_required(slot_action(n), c.shortcut@, default_slot_shortcut(n as int)),
        },
    }
}

pub open spec fn slot_changed(s: Seq<PromptQuickPasteHotkeySlot>, n: u8) -> bool {
    match candidate(s, n) {
        None => true,
        Some(c) => {
            ||| shortcut_outcome(slot_action(n), c.shortcut@, true) is Err
            ||| prompt_changed(c.prompt_id)
            ||| (c.enabled && repaired_prompt(c.prompt_id) is None)
        },
    }
}

/// Some slot among numbers `1..=k` changes in repair.
pub open spec fn any_slot_changed(s: Seq<PromptQuickPasteHotkeySlot>, k: int) -> bool
    decreases k,
{
    k > 0 && (any_slot_changed(s, k - 1) || slot_changed(s, k as u8))
}

/// Repairing the slots changes something: there are not exactly five, or
/// some slot is missing or altered.
pub open spec fn slots_changed(s: Seq<PromptQuickPasteHotkeySlot>) -> bool {
    s.len() != 5 || any_slot_changed(s, 5)
}

proof fn lemma_find_slot_none(s: Seq<PromptQuickPasteHotkeySlot>, n: u8, k: int)
    requires
        0 <= k <= s.len(),
        forall|m: int| 0 <= m < k ==> (#[trigger] s[m]).slot != n,
    ensures
        find_slot(s, n, k) is None,
    decreases k,
{
    if k > 0 {
        lemma_find_slot_none(s, n, k - 1);
    }
}

proof fn lemma_find_slot_at(s: Seq<PromptQuickPasteHotkeySlot>, n: u8, j: int, k: int)
    requires
        0 <= j < k <= s.len(),
        s[j].slot == n,
        forall|m: int| 0 <= m < j ==> (#[trigger] s[m]).slot != n,
    ensures
        find_slot(s, n, k) == Some(j),
    decreases k,
{
    if k == j + 1 {
        lemma_find_slot_none(s, n, j);
    } else {
        lemma_find_slot_at(s, n, j, k - 1);
    }
}

fn copy_prompt_id(o: &Option<String>) -> (r: Option<String>)
    ensures
        r == *o,
{
    match o {
        Some(v) => Some(v.clone()),
        None => None,
    }
}

/// The canonical prompt id of a stored slot, if it spells a UUID.
fn repair_slot_prompt(raw: Option<String>, changed: &mut bool) -> (r: Option<String>)
    ensures
        opt_view(r) == repaired_prompt(raw),
        *final(changed) == (*old(changed) || prompt_changed(raw)),
{
    match raw {
        None => None,
        Some(text) => {
            let trimmed = trim_string(text.as_str());
            match normalize_uuid(trimmed.as_str()) {
                Some(normalized) => {
                    if !normalized.eq(&trimmed) {
                        *changed = true;
                    }
                    Some(normalized)
                },
                None => {
                    *changed = true;
                    None
                },
            }
        },
    }
}

/// Rebuilds the five slots, numbered 1 to 5, from the stored ones.
fn sanitize_prompt_quick_paste_slots(
    input: Vec<PromptQuickPasteHotkeySlot>,
    changed: &mut bool,
) -> (r: Vec<PromptQuickPasteHotkeySlot>)
    ensures
        r@.len() == 5,
        forall|i: int|
            0 <= i < 5 ==> slot_model(#[trigger] r@[i]) == repaired_slot(input@, (i + 1) as u8),
        *final(changed) == (*old(changed) || slots_changed(input@)),
{
    let ghost c0 = *changed;
    if input.len() != 5 {
        *changed = true;
    }
    let mut repaired: Vec<PromptQuickPasteHotkeySlot> = Vec::new();
    let mut found: usize = 0;
    let mut n: u8 = 1;
    while n <= 5
        invariant
            1 <= n <= 6,
            repaired@.len() == n - 1,
            forall|i: int|
                0 <= i < n - 1 ==> slot_model(#[trigger] repaired@[i]) == repaired_slot(
                    input@,
                    (i + 1) as u8,
                ),
            *changed == (c0 || input@.len() != 5 || any_slot_changed(input@, n - 1)),
            found <= n - 1,
            !any_slot_changed(input@, n - 1) ==> found == n - 1,
        decreases 6 - n,
    {
        let action = slot_to_action(n);
        let fallback = default_prompt_quick_paste_hotkey(n);
        let mut j: usize = 0;
        while j < input.len() && input[j].slot != n
            invariant
                j <= input@.len(),
                forall|m: int| 0 <= m < j ==> (#[trigger] input@[m]).slot != n,
            decreases input@.len() - j,
        {
            j = j + 1;
        }
        if j == input.len() {
            proof {
                lemma_find_slot_none(input@, n, j as int);
            }
            *changed = true;
            repaired.push(
                PromptQuickPasteHotkeySlot {
                    slot: n,
                    enabled: false,
                    prompt_id: None,
                    shortcut: fallback.to_owned(),
                },
            );
        } else {
            proof {
                lemma_find_slot_at(input@, n, j as int, input@.len() as int);
            }
            let c = &input[j];
            found = found + 1;
            let shortcut = sanitize_required_hotkey_shortcut(action, c.shortcut.clone(), fallback, changed);
            let prompt_id = repair_slot_prompt(copy_prompt_id(&c.prompt_id), changed);
            let enabled = c.enabled && prompt_id.is_some();
            if enabled != c.enabled {
                *changed = true;
            }
            repaired.push(PromptQuickPasteHotkeySlot { slot: n, enabled, prompt_id, shortcut });
        }
        assert(slot_model(repaired@[n - 1]) == repaired_slot(input@, n));
        n = n + 1;
    }
    if found < input.len() {
        *changed = true;
    }
    repaired
}

// ---------------------------------------------------------------------------
// Whole hotkey preferences
// ---------------------------------------------------------------------------

/// Hotkey preferences as the contracts see them.
pub struct HotkeyModel {
    pub screenshot_capture: Seq<char>,
    pub voice_input_toggle: Option<Seq<char>>,
    pub voice_input_hold: Option<Seq<char>>,
    pub prompt_quick_paste_slots: Seq<SlotModel>,
}

pub open spec fn hotkey_model(h: HotkeyPreferences) -> HotkeyModel {
    HotkeyModel {
        screenshot_capture: h.screenshot_capture@,
        voice_input_toggle: opt_view(h.voice_input_toggle),
        voice_input_hold: opt_view(h.voice_input_hold),
        prompt_quick_paste_slots: h.prompt_quick_paste_slots@.map_values(
            |s: PromptQuickPasteHotkeySlot| slot_model(s),
        ),
    }
}

pub open spec fn repaired_screenshot(input: HotkeyPreferences) -> Seq<char> {
    repaired_required(
        HotkeyAction::ScreenshotCapture,
        input.screenshot_capture@,
        crate::preferences::DEFAULT_SCREENSHOT_CAPTURE_HOTKEY@,
    )
}

/// The voice toggle shortcut that survives: valid, and not the screenshot
/// shortcut (ignoring ASCII case).
pub open spec fn kept_toggle(input: HotkeyPreferences) -> Option<Seq<char>> {
    match repaired_optional(HotkeyAction::VoiceInputToggle, input.voice_input_toggle) {
        Some(t) => if eq_ignore_case(t, repaired_screenshot(input)) {
            None
        } else {
            Some(t)
        },
        None => None,
    }
}

/// The voice hold shortcut that survives: valid, and neither the screenshot
/// nor the surviving toggle shortcut (ignoring ASCII case).
pub open spec fn kept_hold(input: HotkeyPreferences) -> Option<Seq<char>> {
    match repaired_optional(HotkeyAction::VoiceInputHold, input.voice_input_hold) {
        Some(h) => if eq_ignore_case(h, repaired_screenshot(input)) || (kept_toggle(input) matches Some(
            t,
        ) && eq_ignore_case(h, t)) {
            None
        } else {
            Some(h)
        },
        None => None,
    }
}

/// The lower-cased shortcuts claimed before the slots are looked at.
pub open spec fn claimed_before_slots(input: HotkeyPreferences) -> Set<Seq<char>> {
    let base = set![lower(repaired_screenshot(input))];
    let with_toggle = match kept_toggle(input) {
        Some(t) => base.insert(lower(t)),
        None => base,
    };
    match kept_hold(input) {
        Some(h) => with_toggle.insert(lower(h)),
        None => with_toggle,
    }
}

/// The lower-cased shortcuts claimed once the first `k` repaired slots have
/// been looked at: each enabled slot claims its shortcut.
pub open spec fn claimed(input: HotkeyPreferences, k: int) -> Set<Seq<char>>
    decreases k,
{
    if k <= 0 {
        claimed_before_slots(input)
    } else {
        let m = repaired_slot(input.prompt_quick_paste_slots@, k as u8);
        if m.enabled {
            claimed(input, k - 1).insert(lower(m.shortcut))
        } else {
            claimed(input, k - 1)
        }
    }
}

/// The repaired slot at index `i` conflicts with a shortcut claimed before it.
pub open spec fn slot_conflicts(input: HotkeyPreferences, i: int) -> bool {
    let m = repaired_slot(input.prompt_quick_paste_slots@, (i + 1) as u8);
    m.enabled && claimed(input, i).contains(lower(m.shortcut))
}

pub open spec fn any_conflict(input: HotkeyPreferences, k: int) -> bool
    decreases k,
{
    k > 0 && (any_conflict(input, k - 1) || slot_conflicts(input, k - 1))
}

/// The final form of the slot at index `i`: a conflicting slot is disabled.
pub open spec fn final_slot(input: HotkeyPreferences, i: int) -> SlotModel {
    let m = repaired_slot(input.prompt_quick_paste_slots@, (i + 1) as u8);
    SlotModel { enabled: m.enabled && !slot_conflicts(input, i), ..m }
}

/// The repaired hotkey preferences, before they are checked once more.
pub open spec fn candidate_model(input: HotkeyPreferences) -> HotkeyModel {
    HotkeyModel {
        screenshot_capture: repaired_screenshot(input),
        voice_input_toggle: kept_toggle(input),
        voice_input_hold: kept_hold(input),
        prompt_quick_paste_slots: Seq::new(5, |i: int| final_slot(input, i)),
    }
}

/// Repair changes something.
pub open spec fn hotkey_changed(input: HotkeyPreferences) -> bool {
    ||| slots_changed(input.prompt_quick_paste_slots@)
    ||| shortcut_outcome(HotkeyAction::ScreenshotCapture, input.screenshot_capture@, true) is Err
    ||| (input.voice_input_toggle is Some && kept_toggle(input) is None)
    ||| (input.voice_input_hold is Some && kept_hold(input) is None)
    ||| any_conflict(input, 5)
}

/// `out` and `changed` are a repair of `input`: the candidate with its
/// change flag when it passes validation, else the defaults, changed.
pub open spec fn hotkey_repaired(input: HotkeyPreferences, out: HotkeyPreferences, changed: bool) -> bool {
    ||| {
        &&& hotkey_model(out) == candidate_model(input)
        &&& hotkey_error(out) is None
        &&& changed == hotkey_changed(input)
    }
    ||| {
        &&& is_default_hotkey(out)
        &&& changed
        &&& exists|c: HotkeyPreferences|
            hotkey_model(c) == candidate_model(input) && #[trigger] hotkey_error(c) is Some
    }
}

/// Repaired hotkey preferences always pass validation (given that the
/// defaults do), and they hold the five quick-paste slots numbered 1 to 5
/// in order.
pub proof fn law_repaired_hotkeys_validate(input: HotkeyPreferences, out: HotkeyPreferences, changed: bool)
    requires
        hotkey_repaired(input, out, changed),
        forall|d: HotkeyPreferences| #[trigger] is_default_hotkey(d) ==> hotkey_error(d) is None,
    ensures
        hotkey_error(out) is None,
        out.prompt_quick_paste_slots@.len() == 5,
        forall|i: int| 0 <= i < 5 ==> (#[trigger] out.prompt_quick_paste_slots@[i]).slot == i + 1,
{
    if hotkey_model(out) == candidate_model(input) && hotkey_error(out) is None {
        let ms = hotkey_model(out).prompt_quick_paste_slots;
        assert(ms.len() == out.prompt_quick_paste_slots@.len());
        assert forall|i: int| 0 <= i < 5 implies (#[trigger] out.prompt_quick_paste_slots@[i]).slot == i + 1 by {
            assert(ms[i] == slot_model(out.prompt_quick_paste_slots@[i]));
            assert(ms[i] == final_slot(input, i));
        }
    } else {
        assert(is_default_hotkey(out));
    }
}

pub struct HotkeyPreferenceRepairResult {
    pub preferences: HotkeyPreferences,
    pub changed: bool,
}

/// Whether `key` is one of the `seen` shortcuts.
fn is_claimed(seen: &Vec<Vec<char>>, key: &Vec<char>) -> (r: bool)
    ensures
        r == exists|k: int| 0 <= k < seen@.len() && (#[trigger] seen@[k])@ == key@,
{
    let mut k: usize = 0;
    while k < seen.len()
        invariant
            k <= seen@.len(),
            forall|m: int| 0 <= m < k ==> (#[trigger] seen@[m])@ != key@,
        decreases seen@.len() - k,
    {
        if crate::text::chars_eq(seen[k].as_slice(), key.as_slice()) {
            return true;
        }
        k = k + 1;
    }
    false
}

pub open spec fn seen_set(seen: Seq<Vec<char>>) -> Set<Seq<char>> {
    Set::new(|x: Seq<char>| exists|k: int| 0 <= k < seen.len() && (#[trigger] seen[k])@ == x)
}

proof fn lemma_seen_push(s: Seq<Vec<char>>, v: Vec<char>)
    ensures
        seen_set(s.push(v)) == seen_set(s).insert(v@),
{
    let t = s.push(v);
    assert forall|x: Seq<char>| seen_set(t).contains(x) <==> seen_set(s).insert(v@).contains(x) by {
        if seen_set(t).contains(x) {
            let k = choose|k: int| 0 <= k < t.len() && (#[trigger] t[k])@ == x;
            if k < s.len() {
                assert(s[k] == t[k]);
            }
        }
        if seen_set(s).insert(v@).contains(x) {
            if x == v@ {
                assert(t[s.len() as int] == v);
            } else {
                let k = choose|k: int| 0 <= k < s.len() && (#[trigger] s[k])@ == x;
                assert(t[k] == s[k]);
            }
        }
    }
    assert(seen_set(t) =~= seen_set(s).insert(v@));
}

/// Repairs stored hotkey preferences. Each shortcut that validation refuses
/// falls back to its default (required) or is dropped (optional); the voice
/// shortcuts may not repeat the screenshot shortcut or each other; a slot is
/// disabled when its shortcut is already taken. Should the result still be
/// refused by `validate_hotkey_preferences`, the defaults are returned.
pub fn sanitize_hotkey_preferences(input: HotkeyPreferences) -> (r: HotkeyPreferenceRepairResult)
    ensures
        hotkey_repaired(input, r.preferences, r.changed),
{
    let ghost orig = input;
    let defaults = HotkeyPreferences::default();
    let mut changed = false;
    let input_voice_toggle_present = input.voice_input_toggle.is_some();
    let input_voice_hold_present = input.voice_input_hold.is_some();
    let HotkeyPreferences {
        screenshot_capture,
        voice_input_toggle,
        voice_input_hold,
        prompt_quick_paste_slots,
    } = input;
    let mut slots = sanitize_prompt_quick_paste_slots(prompt_quick_paste_slots, &mut changed);
    let screenshot_capture = sanitize_required_hotkey_shortcut(
        HotkeyAction::ScreenshotCapture,
        screenshot_capture,
        defaults.screenshot_capture.as_str(),
        &mut changed,
    );
    let voice_input_toggle = sanitize_optional_hotkey_shortcut(
        HotkeyAction::VoiceInputToggle,
        voice_input_toggle,
        &mut changed,
    );
    let voice_input_hold = sanitize_optional_hotkey_shortcut(
        HotkeyAction::VoiceInputHold,
        voice_input_hold,
        &mut changed,
    );
    let screenshot_chars = chars_of(screenshot_capture.as_str());
    let voice_input_toggle = match voice_input_toggle {
        Some(t) => {
            if chars_eq_ignore_case(chars_of(t.as_str()).as_slice(), screenshot_chars.as_slice()) {
                None
            } else {
                Some(t)
            }
        },
        None => None,
    };
    if voice_input_toggle.is_none() && input_voice_toggle_present {
        changed = true;
    }
    let voice_input_hold = match voice_input_hold {
        Some(h) => {
            let hold_chars = chars_of(h.as_str());
            let clashes = chars_eq_ignore_case(hold_chars.as_slice(), screenshot_chars.as_slice())
                || match &voice_input_toggle {
                Some(t) => chars_eq_ignore_case(hold_chars.as_slice(), chars_of(t.as_str()).as_slice()),
                None => false,
            };
            if clashes {
                None
            } else {
                Some(h)
            }
        },
        None => None,
    };
    if voice_input_hold.is_none() && input_voice_hold_present {
        changed = true;
    }
    let ghost changed_before_slots = changed;
    assert(changed_before_slots == ({
        ||| slots_changed(orig.prompt_quick_paste_slots@)
        ||| shortcut_outcome(HotkeyAction::ScreenshotCapture, orig.screenshot_capture@, true) is Err
        ||| (orig.voice_input_toggle is Some && kept_toggle(orig) is None)
        ||| (orig.voice_input_hold is Some && kept_hold(orig) is None)
    }));
    let mut seen: Vec<Vec<char>> = Vec::new();
    assert(seen_set(seen@) =~= Set::<Seq<char>>::empty());
    let first = lower_chars(screenshot_chars.as_slice());
    proof {
        lemma_seen_push(seen@, first);
    }
    seen.push(first);
    if let Some(t) = &voice_input_toggle {
        let key = lower_chars(chars_of(t.as_str()).as_slice());
        proof {
            lemma_seen_push(seen@, key);
        }
        seen.push(key);
    }
    if let Some(h) = &voice_input_hold {
        let key = lower_chars(chars_of(h.as_str()).as_slice());
        proof {
            lemma_seen_push(seen@, key);
        }
        seen.push(key);
    }
    assert(seen_set(seen@) =~= claimed_before_slots(orig));
    let mut i: usize = 0;
    while i < 5
        invariant
            i <= 5,
            slots@.len() == 5,
            seen_set(seen@) == claimed(orig, i as int),
            changed == (changed_before_slots || any_conflict(orig, i as int)),
            forall|m: int| 0 <= m < i ==> slot_model(#[trigger] slots@[m]) == final_slot(orig, m),
            forall|m: int|
                i <= m < 5 ==> slot_model(#[trigger] slots@[m]) == repaired_slot(
                    orig.prompt_quick_paste_slots@,
                    (m + 1) as u8,
                ),
        decreases 5 - i,
    {
        let key = lower_chars(chars_of(slots[i].shortcut.as_str()).as_slice());
        let ghost m = repaired_slot(orig.prompt_quick_paste_slots@, (i + 1) as u8);
        assert(slot_model(slots@[i as int]) == m);
        if slots[i].enabled {
            if is_claimed(&seen, &key) {
                assert(seen_set(seen@).contains(key@));
                let mut s = slots[i].clone();
                s.enabled = false;
                slots.set(i, s);
                changed = true;
            } else {
                assert(!seen_set(seen@).contains(key@));
                proof {
                    lemma_seen_push(seen@, key);
                }
                seen.push(key);
            }
        }
        assert(slot_model(slots@[i as int]) == final_slot(orig, i as int));
        i = i + 1;
    }
    let repaired = HotkeyPreferences {
        screenshot_capture,
        voice_input_toggle,
        voice_input_hold,
        prompt_quick_paste_slots: slots,
    };
    assert(hotkey_model(repaired).prompt_quick_paste_slots =~= candidate_model(
        orig,
    ).prompt_quick_paste_slots);
    let checked = repaired.clone();
    assert(hotkey_model(checked) == hotkey_model(repaired));
    assert(hotkey_error(checked) == hotkey_error(repaired));
    match validate_hotkey_preferences(checked) {
        Err(_) => HotkeyPreferenceRepairResult { preferences: defaults, changed: true },
        Ok(_) => HotkeyPreferenceRepairResult { preferences: repaired, changed },
    }
}

} // verus!
