//! Prompt quick paste: which prompt a hotkey pastes, when a paste is
//! refused, and the result announced afterwards.
//!
//! The caller reads the preferences, loads the prompt and performs the
//! paste; these functions make the decisions in between.
use vstd::prelude::*;

use crate::error::{AppError, AppResult};
use crate::hotkey::HotkeyAction;
use crate::preferences::PromptQuickPasteHotkeySlot;
use crate::text::{
    chars_eq_ignore_case_str, chars_of, decimal, decimal_string, eq_ignore_case, extend_str,
    string_from, trim, trim_chars,
};

verus! {

/// The first slot numbered `n` among the first `k`.
pub open spec fn find_slot_numbered(slots: Seq<PromptQuickPasteHotkeySlot>, n: u8, k: int) -> Option<int>
    decreases k,
{
    if k <= 0 {
        None
    } else {
        match find_slot_numbered(slots, n, k - 1) {
            Some(i) => Some(i),
            None => if slots[k - 1].slot == n {
                Some(k - 1)
            } else {
                None
            },
        }
    }
}

/// Why a quick paste is refused before its prompt is loaded.
pub enum QuickPasteRefusal {
    ActionInvalid,
    SlotMissing(u8),
    SlotDisabled(u8),
    BindingStale(u8),
    PromptRequired(u8),
}

/// What a hotkey for `action`, pressed as `shortcut`, resolves to with the
/// slots saved: the slot number and the prompt's id, or why it is refused.
pub open spec fn quick_paste_target(
    action: HotkeyAction,
    slots: Seq<PromptQuickPasteHotkeySlot>,
    shortcut: Seq<char>,
) -> Result<(u8, Seq<char>), QuickPasteRefusal> {
    match action.spec_slot() {
        None => Err(QuickPasteRefusal::ActionInvalid),
        Some(n) => match find_slot_numbered(slots, n, slots.len() as int) {
            None => Err(QuickPasteRefusal::SlotMissing(n)),
            Some(i) => {
                let s = slots[i];
                if !s.enabled {
                    Err(QuickPasteRefusal::SlotDisabled(n))
                } else if !eq_ignore_case(s.shortcut@, shortcut) {
                    Err(QuickPasteRefusal::BindingStale(n))
                } else {
                    match s.prompt_id {
                        Some(p) => Ok((n, p@)),
                        None => Err(QuickPasteRefusal::PromptRequired(n)),
                    }
                }
            },
        },
    }
}

/// The error a refusal is reported with.
pub open spec fn refusal_error(e: AppError, refusal: QuickPasteRefusal, shortcut: Seq<char>) -> bool {
    match refusal {
        QuickPasteRefusal::ActionInvalid => e.code@ == "PROMPT_QUICK_PASTE_ACTION_INVALID"@
            && e.detail_map() == Map::<Seq<char>, Seq<char>>::empty(),
        QuickPasteRefusal::SlotMissing(n) => e.code@ == "PROMPT_QUICK_PASTE_SLOT_MISSING"@
            && e.detail_map() == map!["slot"@ => decimal(n as nat)],
        QuickPasteRefusal::SlotDisabled(n) => e.code@ == "PROMPT_QUICK_PASTE_SLOT_DISABLED"@
            && e.detail_map() == map!["slot"@ => decimal(n as nat)],
        QuickPasteRefusal::BindingStale(n) => e.code@ == "PROMPT_QUICK_PASTE_BINDING_STALE"@
            && e.detail_map() == map!["slot"@ => decimal(n as nat), "shortcut"@ => shortcut],
        QuickPasteRefusal::PromptRequired(n) => e.code@ == "PROMPT_QUICK_PASTE_PROMPT_REQUIRED"@
            && e.detail_map() == map!["slot"@ => decimal(n as nat)],
    }
}

/// Resolves the prompt a quick-paste hotkey pastes (see `quick_paste_target`).
pub fn resolve_quick_paste_slot(
    action: HotkeyAction,
    slots: &Vec<PromptQuickPasteHotkeySlot>,
    shortcut: &str,
) -> (r: AppResult<(u8, String)>)
    ensures
        match quick_paste_target(action, slots@, shortcut@) {
            Ok((n, p)) => r matches Ok((rn, rp)) && rn == n && rp@ == p,
            Err(refusal) => r matches Err(e) && refusal_error(e, refusal, shortcut@),
        },
{
    proof {
        crate::error::lemma_detail_keys_distinct();
        reveal_strlit("slot");
        reveal_strlit("shortcut");
        assert("slot"@.len() != "shortcut"@.len());
    }
    let n = match action.prompt_quick_paste_slot() {
        Some(n) => n,
        None => {
            return Err(AppError::new("PROMPT_QUICK_PASTE_ACTION_INVALID", "无法识别 Prompt 快速粘贴动作"));
        },
    };
    let slot_text = decimal_string(n as u64);
    let mut i: usize = 0;
    while i < slots.len() && slots[i].slot != n
        invariant
            i <= slots@.len(),
            find_slot_numbered(slots@, n, i as int) is None,
        decreases slots@.len() - i,
    {
        i = i + 1;
    }
    if i == slots.len() {
        return Err(
            AppError::new(
                "PROMPT_QUICK_PASTE_SLOT_MISSING",
                "Prompt 快速粘贴槽位不存在，请在热键设置中重新保存",
            ).with_detail("slot", slot_text.as_str()),
        );
    }
    proof {
        lemma_find_slot_stable(slots@, n, i as int + 1, slots@.len() as int);
    }
    let slot = &slots[i];
    if !slot.enabled {
        return Err(
            AppError::new("PROMPT_QUICK_PASTE_SLOT_DISABLED", "该 Prompt 快速粘贴槽位已停用").with_detail(
                "slot",
                slot_text.as_str(),
            ),
        );
    }
    if !chars_eq_ignore_case_str(chars_of(slot.shortcut.as_str()).as_slice(), shortcut) {
        return Err(
            AppError::new("PROMPT_QUICK_PASTE_BINDING_STALE", "快速粘贴配置正在更新，请重新按一次热键").with_detail(
                "slot",
                slot_text.as_str(),
            ).with_detail("shortcut", shortcut),
        );
    }
    match &slot.prompt_id {
        Some(p) => Ok((n, p.clone())),
        None => Err(
            AppError::new("PROMPT_QUICK_PASTE_PROMPT_REQUIRED", "该槽位尚未选择 Prompt").with_detail(
                "slot",
                slot_text.as_str(),
            ),
        ),
    }
}

proof fn lemma_find_slot_stable(slots: Seq<PromptQuickPasteHotkeySlot>, n: u8, k: int, m: int)
    requires
        0 <= k <= m,
        find_slot_numbered(slots, n, k) is Some,
    ensures
        find_slot_numbered(slots, n, m) == find_slot_numbered(slots, n, k),
    decreases m - k,
{
    if m > k {
        lemma_find_slot_stable(slots, n, k, m - 1);
    }
}

/// A loaded prompt with blank content is not pasted.
pub fn check_prompt_content(slot: u8, prompt_id: &str, content: &str) -> (r: AppResult<()>)
    ensures
        r is Ok <==> trim(content@).len() > 0,
        r matches Err(e) ==> e.code@ == "PROMPT_QUICK_PASTE_CONTENT_EMPTY"@ && e.detail_map() == map![
            "slot"@ => decimal(slot as nat),
            "promptId"@ => prompt_id@,
        ],
{
    proof {
        crate::error::lemma_detail_keys_distinct();
        reveal_strlit("slot");
        reveal_strlit("promptId");
        assert("slot"@.len() != "promptId"@.len());
    }
    if trim_chars(content).len() == 0 {
        let slot_text = decimal_string(slot as u64);
        return Err(
            AppError::new("PROMPT_QUICK_PASTE_CONTENT_EMPTY", "绑定的 Prompt 正文为空，未发送粘贴").with_detail(
                "slot",
                slot_text.as_str(),
            ).with_detail("promptId", prompt_id),
        );
    }
    Ok(())
}

/// Whether a quick paste was sent.
#[derive(Debug, Clone, Copy, PartialEq, Eq, Structural)]
pub enum PromptQuickPasteResultStatus {
    Sent,
    Failed,
}

/// What a quick paste came to, as announced.
#[derive(Debug)]
pub struct PromptQuickPasteResultEvent {
    pub slot: u8,
    pub shortcut: String,
    pub status: PromptQuickPasteResultStatus,
    pub prompt_id: Option<String>,
    pub prompt_title: Option<String>,
    pub message: String,
    pub error: Option<AppError>,
    pub occurred_at: String,
}

/// The announcement of a quick paste for `action`, pressed as `shortcut`:
/// on success the slot, prompt id and title were pasted; on failure the
/// error, its message, and the prompt id it names (if any). The slot of a
/// failure is the action's slot, or 0.
pub fn quick_paste_result_event(
    action: HotkeyAction,
    shortcut: String,
    result: AppResult<(u8, String, String)>,
    occurred_at: String,
) -> (r: PromptQuickPasteResultEvent)
    ensures
        r.shortcut@ == shortcut@,
        r.occurred_at@ == occurred_at@,
        match result {
            Ok((slot, id, title)) => r.slot == slot && r.status == PromptQuickPasteResultStatus::Sent
                && r.prompt_id == Some(id) && r.prompt_title == Some(title) && r.message@
                == "已发送粘贴："@ + title@ && r.error is None,
            Err(e) => r.slot == (match action.spec_slot() {
                Some(n) => n,
                None => 0u8,
            }) && r.status == PromptQuickPasteResultStatus::Failed && r.prompt_title is None
                && r.message@ == e.message@ && r.error == Some(e) && (if e.detail_map().dom().contains(
                "promptId"@,
            ) {
                (r.prompt_id matches Some(p) && p@ == e.detail_map()["promptId"@])
            } else {
                r.prompt_id is None
            }),
        },
{
    match result {
        Ok((slot, id, title)) => {
            let mut message = chars_of("已发送粘贴：");
            extend_str(&mut message, title.as_str());
            PromptQuickPasteResultEvent {
                slot,
                shortcut,
                status: PromptQuickPasteResultStatus::Sent,
                prompt_id: Some(id),
                prompt_title: Some(title),
                message: string_from(message.as_slice()),
                error: None,
                occurred_at,
            }
        },
        Err(error) => {
            let slot = match action.prompt_quick_paste_slot() {
                Some(n) => n,
                None => 0,
            };
            let prompt_id = match &error.details {
                Some(d) => match d.get("promptId") {
                    Some(p) => Some(p.clone()),
                    None => None,
                },
                None => None,
            };
            let message = error.message.clone();
            PromptQuickPasteResultEvent {
                slot,
                shortcut,
                status: PromptQuickPasteResultStatus::Failed,
                prompt_id,
                prompt_title: None,
                message,
                error: Some(error),
                occurred_at,
            }
        },
    }
}

/// Only a failed quick paste is also shown as a notification.
pub fn needs_failure_notification(event: &PromptQuickPasteResultEvent) -> (r: bool)
    ensures
        r == (event.status == PromptQuickPasteResultStatus::Failed),
{
    event.status == PromptQuickPasteResultStatus::Failed
}

} // verus!
