//! Validation of the hotkey preferences: the screenshot and voice
//! shortcuts, the five prompt quick-paste slots, and the rule that two active
//! bindings never share a shortcut.
use vstd::prelude::*;

use crate::error::{lemma_detail_keys_distinct, AppError};
use crate::hotkey::{
    opt_view, rejection_error, shortcut_outcome, validate_hotkey_shortcut,
    validate_hotkey_shortcut_option, HotkeyAction, ShortcutRejection,
};
use crate::ids::{canonical_uuid, normalize_uuid};
use crate::preferences::{
    HotkeyPreferences, PromptQuickPasteHotkeySlot, DEFAULT_SCREENSHOT_CAPTURE_HOTKEY,
    PROMPT_QUICK_PASTE_SLOT_COUNT,
};
use crate::text::{chars_eq, chars_of, decimal, decimal_string, lower, lower_chars, trim, trim_chars};

verus! {

// ---------------------------------------------------------------------------
// Sorting the slots by number
// ---------------------------------------------------------------------------

/// Stable insertion of `x` into `s` by slot number.
pub open spec fn insert_by_slot(s: Seq<PromptQuickPasteHotkeySlot>, x: PromptQuickPasteHotkeySlot) -> Seq<
    PromptQuickPasteHotkeySlot,
>
    decreases s.len(),
{
    if s.len() == 0 {
        seq![x]
    } else if s.last().slot <= x.slot {
        s.push(x)
    } else {
        insert_by_slot(s.drop_last(), x).push(s.last())
    }
}

/// The slots in the order of a stable sort by slot number.
pub open spec fn sort_by_slot(s: Seq<PromptQuickPasteHotkeySlot>) -> Seq<PromptQuickPasteHotkeySlot>
    decreases s.len(),
{
    if s.len() == 0 {
        Seq::empty()
    } else {
        insert_by_slot(sort_by_slot(s.drop_last()), s.last())
    }
}

proof fn lemma_insert_by_slot_at(
    s: Seq<PromptQuickPasteHotkeySlot>,
    x: PromptQuickPasteHotkeySlot,
    j: int,
)
    requires
        0 <= j <= s.len(),
        forall|m: int| j <= m < s.len() ==> (#[trigger] s[m]).slot > x.slot,
        j == 0 || s[j - 1].slot <= x.slot,
    ensures
        insert_by_slot(s, x) == s.insert(j, x),
    decreases s.len() - j,
{
    if j == s.len() {
        assert(s.insert(j, x) =~= s.push(x));
    } else {
        let t = s.drop_last();
        assert forall|m: int| j <= m < t.len() implies (#[trigger] t[m]).slot > x.slot by {
            assert(t[m] == s[m]);
        }
        if j > 0 {
            assert(t[j - 1] == s[j - 1]);
        }
        lemma_insert_by_slot_at(t, x, j);
        assert(t.insert(j, x).push(s.last()) =~= s.insert(j, x));
    }
}

proof fn lemma_sort_len(s: Seq<PromptQuickPasteHotkeySlot>)
    ensures
        sort_by_slot(s).len() == s.len(),
    decreases s.len(),
{
    if s.len() > 0 {
        lemma_sort_len(s.drop_last());
        lemma_insert_len(sort_by_slot(s.drop_last()), s.last());
    }
}

proof fn lemma_insert_len(s: Seq<PromptQuickPasteHotkeySlot>, x: PromptQuickPasteHotkeySlot)
    ensures
        insert_by_slot(s, x).len() == s.len() + 1,
    decreases s.len(),
{
    if s.len() > 0 && s.last().slot > x.slot {
        lemma_insert_len(s.drop_last(), x);
    }
}

fn sort_slots(input: Vec<PromptQuickPasteHotkeySlot>) -> (r: Vec<PromptQuickPasteHotkeySlot>)
    ensures
        r@ == sort_by_slot(input@),
{
    let ghost orig = input@;
    let mut rest = input;
    let mut out: Vec<PromptQuickPasteHotkeySlot> = Vec::new();
    let mut k: usize = 0;
    let n = rest.len();
    while k < n
        invariant
            k <= n == orig.len(),
            rest@ == orig.skip(k as int),
            out@ == sort_by_slot(orig.take(k as int)),
        decreases n - k,
    {
        let x = rest.remove(0);
        assert(x == orig[k as int]);
        let mut j: usize = out.len();
        while j > 0 && out[j - 1].slot > x.slot
            invariant
                j <= out@.len(),
                forall|m: int| j <= m < out@.len() ==> (#[trigger] out@[m]).slot > x.slot,
            decreases j,
        {
            j = j - 1;
        }
        proof {
            lemma_insert_by_slot_at(out@, x, j as int);
            assert(orig.take(k + 1).drop_last() =~= orig.take(k as int));
            assert(orig.take(k + 1).last() == x);
            assert(orig.skip(k as int).remove(0) =~= orig.skip(k + 1));
        }
        out.insert(j, x);
        k = k + 1;
    }
    assert(orig.take(n as int) =~= orig);
    out
}

// ---------------------------------------------------------------------------
// Slot validation
// ---------------------------------------------------------------------------

/// The action of slot number `n` (1 to 5).
pub open spec fn slot_action(n: u8) -> HotkeyAction {
    if n == 1 {
        HotkeyAction::PromptQuickPaste1
    } else if n == 2 {
        HotkeyAction::PromptQuickPaste2
    } else if n == 3 {
        HotkeyAction::PromptQuickPaste3
    } else if n == 4 {
        HotkeyAction::PromptQuickPaste4
    } else {
        HotkeyAction::PromptQuickPaste5
    }
}

/// The canonical prompt id bound to a slot: absent or blank means none;
/// otherwise it must spell a UUID.
pub open spec fn slot_prompt_outcome(raw: Option<String>) -> Result<Option<Seq<char>>, ()> {
    match raw {
        Some(r) => if trim(r@).len() > 0 {
            match canonical_uuid(trim(r@)) {
                Some(t) => Ok(Some(t)),
                None => Err(()),
            }
        } else {
            Ok(None)
        },
        None => Ok(None),
    }
}

pub enum SlotRejection {
    Count,
    Number(u8),
    Shortcut(HotkeyAction, ShortcutRejection),
    PromptId(HotkeyAction, u8),
    PromptRequired(HotkeyAction, u8),
}

/// Why the slot at sorted position `i` is refused, if it is.
pub open spec fn slot_error(i: int, s: PromptQuickPasteHotkeySlot) -> Option<SlotRejection> {
    let a = slot_action(s.slot);
    if s.slot != i + 1 {
        Some(SlotRejection::Number(s.slot))
    } else if shortcut_outcome(a, s.shortcut@, true) is Err {
        Some(SlotRejection::Shortcut(a, shortcut_outcome(a, s.shortcut@, true)->Err_0))
    } else if slot_prompt_outcome(s.prompt_id) is Err {
        Some(SlotRejection::PromptId(a, s.slot))
    } else if s.enabled && slot_prompt_outcome(s.prompt_id)->Ok_0 is None {
        Some(SlotRejection::PromptRequired(a, s.slot))
    } else {
        None
    }
}

/// The first refusal among the first `n` sorted slots.
pub open spec fn first_slot_error(sorted: Seq<PromptQuickPasteHotkeySlot>, n: int) -> Option<
    SlotRejection,
>
    decreases n,
{
    if n <= 0 {
        None
    } else {
        match first_slot_error(sorted, n - 1) {
            Some(e) => Some(e),
            None => slot_error(n - 1, sorted[n - 1]),
        }
    }
}

proof fn lemma_first_error_stable(s: Seq<PromptQuickPasteHotkeySlot>, k: int, n: int)
    requires
        0 <= k <= n,
        first_slot_error(s, k) is Some,
    ensures
        first_slot_error(s, n) == first_slot_error(s, k),
    decreases n - k,
{
    if n > k {
        lemma_first_error_stable(s, k, n - 1);
    }
}

/// The outcome of validating the slots: the first refusal, if any.
pub open spec fn slots_error(input: Seq<PromptQuickPasteHotkeySlot>) -> Option<SlotRejection> {
    if input.len() != 5 {
        Some(SlotRejection::Count)
    } else {
        first_slot_error(sort_by_slot(input), 5)
    }
}

/// `v` is the validated form of slot `s`: same number and state, trimmed
/// shortcut, canonical prompt id.
pub open spec fn validated_slot(s: PromptQuickPasteHotkeySlot, v: PromptQuickPasteHotkeySlot) -> bool {
    &&& v.slot == s.slot
    &&& v.enabled == s.enabled
    &&& v.shortcut@ == trim(s.shortcut@)
    &&& opt_view(v.prompt_id) == slot_prompt_outcome(s.prompt_id)->Ok_0
}

pub open spec fn slot_rejection_error(e: AppError, rej: SlotRejection) -> bool {
    match rej {
        SlotRejection::Count => {
            &&& e.code@ == "PROMPT_QUICK_PASTE_SLOTS_INVALID"@
            &&& e.has_detail("field"@, "hotkey.promptQuickPasteSlots"@)
        },
        SlotRejection::Number(n) => {
            &&& e.code@ == "PROMPT_QUICK_PASTE_SLOTS_INVALID"@
            &&& e.has_detail("field"@, "hotkey.promptQuickPasteSlots"@)
            &&& e.has_detail("slot"@, decimal(n as nat))
        },
        SlotRejection::Shortcut(a, r) => rejection_error(e, a, r),
        SlotRejection::PromptId(a, n) => {
            &&& e.code@ == "PROMPT_QUICK_PASTE_PROMPT_ID_INVALID"@
            &&& e.has_detail("field"@, a.spec_field())
            &&& e.has_detail("slot"@, decimal(n as nat))
        },
        SlotRejection::PromptRequired(a, n) => {
            &&& e.code@ == "PROMPT_QUICK_PASTE_PROMPT_REQUIRED"@
            &&& e.has_detail("field"@, a.spec_field())
            &&& e.has_detail("slot"@, decimal(n as nat))
        },
    }
}

pub(crate) fn slot_to_action(n: u8) -> (a: HotkeyAction)
    requires
        1 <= n <= 5,
    ensures
        a == slot_action(n),
        a.spec_slot() == Some(n),
{
    match HotkeyAction::from_prompt_quick_paste_slot(n) {
        Some(a) => a,
        None => HotkeyAction::PromptQuickPaste5,
    }
}

/// The canonical prompt id of a slot, or `None` when it is invalid.
fn validate_slot_prompt(raw: &Option<String>) -> (r: Result<Option<String>, ()>)
    ensures
        match slot_prompt_outcome(*raw) {
            Ok(o) => r matches Ok(x) && opt_view(x) == o,
            Err(()) => r is Err,
        },
{
    match raw {
        Some(text) => {
            let t = trim_chars(text.as_str());
            if t.len() == 0 {
                return Ok(None);
            }
            let ts = crate::text::string_from(t.as_slice());
            match normalize_uuid(ts.as_str()) {
                Some(id) => Ok(Some(id)),
                None => Err(()),
            }
        },
        None => Ok(None),
    }
}

/// Validates the five prompt quick-paste slots; they come back sorted by
/// slot number.
pub fn validate_prompt_quick_paste_slots(input: Vec<PromptQuickPasteHotkeySlot>) -> (r: Result<
    Vec<PromptQuickPasteHotkeySlot>,
    AppError,
>)
    ensures
        match slots_error(input@) {
            Some(rej) => r matches Err(e) && slot_rejection_error(e, rej),
            None => r matches Ok(v) && v@.len() == 5 && forall|i: int|
                0 <= i < 5 ==> validated_slot(
                    #[trigger] sort_by_slot(input@)[i],
                    v@[i],
                ),
        },
{
    proof {
        lemma_detail_keys_distinct();
    }
    if input.len() != PROMPT_QUICK_PASTE_SLOT_COUNT {
        let count = decimal_string(input.len() as u64);
        return Err(
            AppError::new(
                "PROMPT_QUICK_PASTE_SLOTS_INVALID",
                "Prompt 快速粘贴必须包含 5 个配置槽位",
            ).with_detail("field", "hotkey.promptQuickPasteSlots").with_detail(
                "count",
                count.as_str(),
            ),
        );
    }
    let ghost orig = input@;
    let sorted = sort_slots(input);
    proof {
        lemma_sort_len(orig);
    }
    let mut validated: Vec<PromptQuickPasteHotkeySlot> = Vec::new();
    let mut index: usize = 0;
    while index < 5
        invariant
            index <= 5,
            sorted@ == sort_by_slot(orig),
            orig.len() == 5,
            orig == input@,
            sorted@.len() == 5,
            first_slot_error(sorted@, index as int) is None,
            validated@.len() == index,
            forall|i: int| 0 <= i < index ==> validated_slot(#[trigger] sorted@[i], validated@[i]),
        decreases 5 - index,
    {
        let slot = &sorted[index];
        let expected = (index + 1) as u8;
        proof {
            lemma_detail_keys_distinct();
            if slot_error(index as int, sorted@[index as int]) is Some {
                lemma_first_error_stable(sorted@, index + 1, 5);
            }
        }
        if slot.slot != expected {
            let n = decimal_string(slot.slot as u64);
            assert(slots_error(orig) == Some(SlotRejection::Number(slot.slot)));
            let e = AppError::new(
                    "PROMPT_QUICK_PASTE_SLOTS_INVALID",
                    "Prompt 快速粘贴槽位编号必须为 1 到 5 且不得重复",
                ).with_detail("field", "hotkey.promptQuickPasteSlots").with_detail(
                    "slot",
                    n.as_str(),
                );
            assert(e.has_detail("slot"@, decimal(slot.slot as nat)));
            assert(e.has_detail("field"@, "hotkey.promptQuickPasteSlots"@));
            return Err(e);
        }
        let action = slot_to_action(slot.slot);
        let shortcut = match validate_hotkey_shortcut(action, slot.shortcut.clone(), true) {
            Ok(Some(s)) => s,
            Ok(None) => {
                // a required shortcut is never empty once validated
                return Err(AppError::new("HOTKEY_SHORTCUT_REQUIRED", "截图热键不能为空"));
            },
            Err(e) => {
                return Err(e);
            },
        };
        let n = decimal_string(slot.slot as u64);
        let prompt_id = match validate_slot_prompt(&slot.prompt_id) {
            Ok(p) => p,
            Err(()) => {
                return Err(
                    AppError::new(
                        "PROMPT_QUICK_PASTE_PROMPT_ID_INVALID",
                        "绑定的 Prompt 标识无效",
                    ).with_detail("field", action.preference_field()).with_detail(
                        "slot",
                        n.as_str(),
                    ),
                );
            },
        };
        if slot.enabled && prompt_id.is_none() {
            return Err(
                AppError::new(
                    "PROMPT_QUICK_PASTE_PROMPT_REQUIRED",
                    "启用快速粘贴前必须选择 Prompt",
                ).with_detail("field", action.preference_field()).with_detail("slot", n.as_str()),
            );
        }
        validated.push(
            PromptQuickPasteHotkeySlot { slot: slot.slot, enabled: slot.enabled, prompt_id, shortcut },
        );
        index = index + 1;
    }
    Ok(validated)
}


// ---------------------------------------------------------------------------
// Whole hotkey preferences
// ---------------------------------------------------------------------------

proof fn lemma_no_slot_error(s: Seq<PromptQuickPasteHotkeySlot>, n: int, i: int)
    requires
        0 <= i < n,
        first_slot_error(s, n) is None,
    ensures
        slot_error(i, s[i]) is None,
    decreases n,
{
    if i < n - 1 {
        lemma_no_slot_error(s, n - 1, i);
    }
}

pub enum HotkeyRejection {
    Shortcut(HotkeyAction, ShortcutRejection),
    Slots(SlotRejection),
    Duplicate(HotkeyAction, Seq<char>),
}

/// The shortcut that an optional binding keeps after validation.
pub open spec fn validated_optional(action: HotkeyAction, o: Option<String>) -> Option<Seq<char>> {
    match o {
        Some(v) => shortcut_outcome(action, v@, false)->Ok_0,
        None => None,
    }
}

pub open spec fn optional_error(action: HotkeyAction, o: Option<String>) -> Option<ShortcutRejection> {
    match o {
        Some(v) => match shortcut_outcome(action, v@, false) {
            Err(rej) => Some(rej),
            Ok(_) => None,
        },
        None => None,
    }
}

pub open spec fn opt_binding(action: HotkeyAction, o: Option<Seq<char>>) -> Seq<(HotkeyAction, Seq<char>)> {
    match o {
        Some(s) => seq![(action, s)],
        None => Seq::empty(),
    }
}

/// The bindings of the enabled slots among the first `n` sorted slots.
pub open spec fn slot_bindings(sorted: Seq<PromptQuickPasteHotkeySlot>, n: int) -> Seq<(HotkeyAction, Seq<char>)>
    decreases n,
{
    if n <= 0 {
        Seq::empty()
    } else if sorted[n - 1].enabled {
        slot_bindings(sorted, n - 1).push((slot_action(sorted[n - 1].slot), trim(sorted[n - 1].shortcut@)))
    } else {
        slot_bindings(sorted, n - 1)
    }
}

/// The active bindings in the order in which their shortcuts are claimed:
/// screenshot, voice toggle, voice hold, then the enabled slots.
pub open spec fn active_bindings(input: HotkeyPreferences) -> Seq<(HotkeyAction, Seq<char>)> {
    seq![(HotkeyAction::ScreenshotCapture, trim(input.screenshot_capture@))] + opt_binding(
        HotkeyAction::VoiceInputToggle,
        validated_optional(HotkeyAction::VoiceInputToggle, input.voice_input_toggle),
    ) + opt_binding(
        HotkeyAction::VoiceInputHold,
        validated_optional(HotkeyAction::VoiceInputHold, input.voice_input_hold),
    ) + slot_bindings(sort_by_slot(input.prompt_quick_paste_slots@), 5)
}

/// Binding `j` reuses (ignoring ASCII case) the shortcut of an earlier one.
pub open spec fn repeats_earlier(b: Seq<(HotkeyAction, Seq<char>)>, j: int) -> bool {
    exists|k: int| 0 <= k < j && lower(b[k].1) == lower(#[trigger] b[j].1)
}

/// The first binding among the first `n` that repeats an earlier shortcut.
pub open spec fn first_repeat(b: Seq<(HotkeyAction, Seq<char>)>, n: int) -> Option<int>
    decreases n,
{
    if n <= 0 {
        None
    } else {
        match first_repeat(b, n - 1) {
            Some(j) => Some(j),
            None => if repeats_earlier(b, n - 1) {
                Some(n - 1)
            } else {
                None
            },
        }
    }
}

/// Why the hotkey preferences are refused, if they are.
pub open spec fn hotkey_error(input: HotkeyPreferences) -> Option<HotkeyRejection> {
    if shortcut_outcome(HotkeyAction::ScreenshotCapture, input.screenshot_capture@, true) is Err {
        Some(HotkeyRejection::Shortcut(
            HotkeyAction::ScreenshotCapture,
            shortcut_outcome(HotkeyAction::ScreenshotCapture, input.screenshot_capture@, true)->Err_0,
        ))
    } else if optional_error(HotkeyAction::VoiceInputToggle, input.voice_input_toggle) is Some {
        Some(HotkeyRejection::Shortcut(
            HotkeyAction::VoiceInputToggle,
            optional_error(HotkeyAction::VoiceInputToggle, input.voice_input_toggle)->Some_0,
        ))
    } else if optional_error(HotkeyAction::VoiceInputHold, input.voice_input_hold) is Some {
        Some(HotkeyRejection::Shortcut(
            HotkeyAction::VoiceInputHold,
            optional_error(HotkeyAction::VoiceInputHold, input.voice_input_hold)->Some_0,
        ))
    } else if slots_error(input.prompt_quick_paste_slots@) is Some {
        Some(HotkeyRejection::Slots(slots_error(input.prompt_quick_paste_slots@)->Some_0))
    } else {
        let b = active_bindings(input);
        match first_repeat(b, b.len() as int) {
            Some(j) => Some(HotkeyRejection::Duplicate(b[j].0, b[j].1)),
            None => None,
        }
    }
}

pub open spec fn hotkey_rejection_error(e: AppError, rej: HotkeyRejection) -> bool {
    match rej {
        HotkeyRejection::Shortcut(a, r) => rejection_error(e, a, r),
        HotkeyRejection::Slots(r) => slot_rejection_error(e, r),
        HotkeyRejection::Duplicate(a, s) => {
            &&& e.code@ == "HOTKEY_DUPLICATE_SHORTCUT"@
            &&& e.has_detail("field"@, a.spec_field())
            &&& e.has_detail("shortcut"@, s)
        },
    }
}

/// `v` is the validated form of the hotkey preferences `input`.
pub open spec fn validated_hotkey(input: HotkeyPreferences, v: HotkeyPreferences) -> bool {
    &&& v.screenshot_capture@ == trim(input.screenshot_capture@)
    &&& opt_view(v.voice_input_toggle) == validated_optional(
        HotkeyAction::VoiceInputToggle,
        input.voice_input_toggle,
    )
    &&& opt_view(v.voice_input_hold) == validated_optional(
        HotkeyAction::VoiceInputHold,
        input.voice_input_hold,
    )
    &&& v.prompt_quick_paste_slots@.len() == 5
    &&& forall|i: int|
        0 <= i < 5 ==> validated_slot(
            #[trigger] sort_by_slot(input.prompt_quick_paste_slots@)[i],
            v.prompt_quick_paste_slots@[i],
        )
}

proof fn lemma_first_repeat_stable(b: Seq<(HotkeyAction, Seq<char>)>, k: int, n: int)
    requires
        0 <= k <= n,
        first_repeat(b, k) is Some,
    ensures
        first_repeat(b, n) == first_repeat(b, k),
    decreases n - k,
{
    if n > k {
        lemma_first_repeat_stable(b, k, n - 1);
    }
}

pub open spec fn bindings_view(v: Seq<(HotkeyAction, Vec<char>)>) -> Seq<(HotkeyAction, Seq<char>)> {
    v.map_values(|x: (HotkeyAction, Vec<char>)| (x.0, x.1@))
}

/// Index of the first binding that repeats an earlier shortcut.
fn find_repeat(b: &Vec<(HotkeyAction, Vec<char>)>) -> (r: Option<usize>)
    ensures
        match r {
            Some(j) => j < b@.len() && first_repeat(bindings_view(b@), b@.len() as int) == Some(
                j as int,
            ),
            None => first_repeat(bindings_view(b@), b@.len() as int) is None,
        },
{
    let ghost bv = bindings_view(b@);
    let mut j: usize = 0;
    while j < b.len()
        invariant
            j <= b@.len(),
            bv == bindings_view(b@),
            bv.len() == b@.len(),
            first_repeat(bv, j as int) is None,
        decreases b@.len() - j,
    {
        let lj = lower_chars(b[j].1.as_slice());
        let mut k: usize = 0;
        while k < j
            invariant
                k <= j < b@.len(),
                bv == bindings_view(b@),
                bv.len() == b@.len(),
                lj@ == lower(bv[j as int].1),
                first_repeat(bv, j as int) is None,
                forall|m: int| 0 <= m < k ==> lower(bv[m].1) != lower(bv[j as int].1),
            decreases j - k,
        {
            let lk = lower_chars(b[k].1.as_slice());
            assert(bv[k as int].1 == b@[k as int].1@);
            if chars_eq(lk.as_slice(), lj.as_slice()) {
                assert(repeats_earlier(bv, j as int));
                proof {
                    lemma_first_repeat_stable(bv, j + 1, bv.len() as int);
                }
                return Some(j);
            }
            k = k + 1;
        }
        assert(!repeats_earlier(bv, j as int));
        j = j + 1;
    }
    None
}

/// Validates all hotkey preferences: each shortcut, the slots, and that no
/// two active bindings share a shortcut (ignoring ASCII case).
pub fn validate_hotkey_preferences(input: HotkeyPreferences) -> (r: Result<HotkeyPreferences, AppError>)
    ensures
        match hotkey_error(input) {
            Some(rej) => r matches Err(e) && hotkey_rejection_error(e, rej),
            None => r matches Ok(v) && validated_hotkey(input, v),
        },
{
    proof {
        lemma_detail_keys_distinct();
    }
    let ghost orig = input;
    let HotkeyPreferences {
        screenshot_capture,
        voice_input_toggle,
        voice_input_hold,
        prompt_quick_paste_slots,
    } = input;
    let screenshot_capture = match validate_hotkey_shortcut(
        HotkeyAction::ScreenshotCapture,
        screenshot_capture,
        true,
    ) {
        Ok(Some(s)) => s,
        Ok(None) => DEFAULT_SCREENSHOT_CAPTURE_HOTKEY.to_owned(),
        Err(e) => {
            return Err(e);
        },
    };
    let voice_input_toggle = match validate_hotkey_shortcut_option(
        HotkeyAction::VoiceInputToggle,
        voice_input_toggle,
    ) {
        Ok(v) => v,
        Err(e) => {
            return Err(e);
        },
    };
    let voice_input_hold = match validate_hotkey_shortcut_option(
        HotkeyAction::VoiceInputHold,
        voice_input_hold,
    ) {
        Ok(v) => v,
        Err(e) => {
            return Err(e);
        },
    };
    let prompt_quick_paste_slots = match validate_prompt_quick_paste_slots(prompt_quick_paste_slots) {
        Ok(v) => v,
        Err(e) => {
            return Err(e);
        },
    };
    let ghost sorted = sort_by_slot(orig.prompt_quick_paste_slots@);
    let mut bindings: Vec<(HotkeyAction, Vec<char>)> = Vec::new();
    bindings.push((HotkeyAction::ScreenshotCapture, chars_of(screenshot_capture.as_str())));
    if let Some(s) = &voice_input_toggle {
        bindings.push((HotkeyAction::VoiceInputToggle, chars_of(s.as_str())));
    }
    if let Some(s) = &voice_input_hold {
        bindings.push((HotkeyAction::VoiceInputHold, chars_of(s.as_str())));
    }
    let ghost head = bindings_view(bindings@);
    proof {
        assert(head =~= seq![(HotkeyAction::ScreenshotCapture, trim(orig.screenshot_capture@))]
            + opt_binding(
            HotkeyAction::VoiceInputToggle,
            validated_optional(HotkeyAction::VoiceInputToggle, orig.voice_input_toggle),
        ) + opt_binding(
            HotkeyAction::VoiceInputHold,
            validated_optional(HotkeyAction::VoiceInputHold, orig.voice_input_hold),
        ));
        assert(slot_bindings(sorted, 0) =~= Seq::<(HotkeyAction, Seq<char>)>::empty());
        assert(head + slot_bindings(sorted, 0) =~= head);
    }
    let mut i: usize = 0;
    while i < prompt_quick_paste_slots.len()
        invariant
            i <= prompt_quick_paste_slots@.len() == 5,
            sorted == sort_by_slot(orig.prompt_quick_paste_slots@),
            orig.prompt_quick_paste_slots@.len() == 5,
            first_slot_error(sorted, 5) is None,
            forall|m: int| 0 <= m < 5 ==> validated_slot(#[trigger] sorted[m], prompt_quick_paste_slots@[m]),
            bindings_view(bindings@) == head + slot_bindings(sorted, i as int),
        decreases 5 - i,
    {
        let slot = &prompt_quick_paste_slots[i];
        assert(validated_slot(sorted[i as int], prompt_quick_paste_slots@[i as int]));
        proof {
            lemma_no_slot_error(sorted, 5, i as int);
        }
        if slot.enabled {
            let action = slot_to_action(slot.slot);
            bindings.push((action, chars_of(slot.shortcut.as_str())));
            assert(bindings_view(bindings@) =~= (head + slot_bindings(sorted, i as int)).push(
                (slot_action(sorted[i as int].slot), trim(sorted[i as int].shortcut@)),
            ));
        }
        i = i + 1;
    }
    assert(bindings_view(bindings@) == active_bindings(orig));
    match find_repeat(&bindings) {
        Some(j) => {
            let action = bindings[j].0;
            let shortcut = crate::text::string_from(bindings[j].1.as_slice());
            assert(bindings_view(bindings@)[j as int] == (action, bindings@[j as int].1@));
            assert(hotkey_error(orig) == Some(HotkeyRejection::Duplicate(action, shortcut@)));
            return Err(
                AppError::new("HOTKEY_DUPLICATE_SHORTCUT", "热键冲突：不同动作不能使用同一组合键").with_detail(
                    "field",
                    action.preference_field(),
                ).with_detail("shortcut", shortcut.as_str()),
            );
        },
        None => {},
    }
    Ok(
        HotkeyPreferences {
            screenshot_capture,
            voice_input_toggle,
            voice_input_hold,
            prompt_quick_paste_slots,
        },
    )
}

} // verus!
