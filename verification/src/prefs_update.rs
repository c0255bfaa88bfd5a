//! Updating the preferences: the outside effects of an update, made one at a
//! time by the caller, and how a failure is rolled back and reported.
//!
//! The caller asks `next_effect`, performs it, and hands its result to
//! `effect_done`, until the effect is `Finish`; then `finish` gives the
//! result of the update.
use vstd::prelude::*;

use crate::error::{AppError, AppResult};
use crate::preferences::{same_prefs, AppPreferences};
use crate::prefs_service::attach_preference_rollback_failures;
use crate::text::{chars_of, extend_str, joined, string_from, string_views};

verus! {

/// An outside effect of an update. `restore` means the previous preferences
/// are put back; otherwise the new ones are put in place.
#[derive(Debug)]
pub enum UpdateEffect {
    /// Turn launch at login on or off.
    SyncAutostart(bool),
    ApplyHotkeys { restore: bool },
    OpenStore,
    WriteStore { restore: bool },
    ReplaceCache,
    Finish,
}

/// Where an update stands.
#[derive(Debug, Clone, Copy, PartialEq, Eq, Structural)]
pub enum UpdateStage {
    SyncingAutostart,
    ApplyingHotkeys,
    OpeningStore,
    WritingStore,
    ReplacingCache,
    RestoringStore,
    RestoringHotkeys,
    RestoringAutostart,
    Done,
}

/// An update in progress: the preferences before and after, whether launch
/// at login changes, the stage, the error that stopped it (if one did), and
/// the failures met while rolling back.
#[derive(Debug)]
pub struct PreferencesUpdate {
    pub previous: AppPreferences,
    pub validated: AppPreferences,
    pub launch_at_login_changed: bool,
    pub stage: UpdateStage,
    pub failure: Option<AppError>,
    pub rollback_failures: Vec<String>,
}

/// The effect made at a stage.
pub open spec fn effect_at(u: PreferencesUpdate) -> UpdateEffect {
    match u.stage {
        UpdateStage::SyncingAutostart => UpdateEffect::SyncAutostart(
            u.validated.startup.launch_at_login,
        ),
        UpdateStage::ApplyingHotkeys => UpdateEffect::ApplyHotkeys { restore: false },
        UpdateStage::OpeningStore => UpdateEffect::OpenStore,
        UpdateStage::WritingStore => UpdateEffect::WriteStore { restore: false },
        UpdateStage::ReplacingCache => UpdateEffect::ReplaceCache,
        UpdateStage::RestoringStore => UpdateEffect::WriteStore { restore: true },
        UpdateStage::RestoringHotkeys => UpdateEffect::ApplyHotkeys { restore: true },
        UpdateStage::RestoringAutostart => UpdateEffect::SyncAutostart(
            u.previous.startup.launch_at_login,
        ),
        UpdateStage::Done => UpdateEffect::Finish,
    }
}

/// The stage after the runtime effects are restored: launch at login is
/// put back only when it changed.
pub open spec fn after_hotkeys_restored(changed: bool) -> UpdateStage {
    if changed {
        UpdateStage::RestoringAutostart
    } else {
        UpdateStage::Done
    }
}

/// How a failed restore is reported: `<what>: code=<code> message=<message>`.
pub open spec fn rollback_failure_text(what: Seq<char>, e: AppError) -> Seq<char> {
    what + ": code="@ + e.code@ + " message="@ + e.message@
}

/// One step of an update: the stage that follows `stage` when its effect
/// came to `result`, the error that stopped the update, and the rollback
/// failure recorded (if any).
pub open spec fn step(
    stage: UpdateStage,
    changed: bool,
    result: Result<(), AppError>,
) -> (UpdateStage, Option<AppError>, Option<Seq<char>>) {
    match (stage, result) {
        (UpdateStage::SyncingAutostart, Ok(())) => (UpdateStage::ApplyingHotkeys, None, None),
        (UpdateStage::SyncingAutostart, Err(e)) => (UpdateStage::Done, Some(e), None),
        (UpdateStage::ApplyingHotkeys, Ok(())) => (UpdateStage::OpeningStore, None, None),
        (UpdateStage::ApplyingHotkeys, Err(e)) => (UpdateStage::RestoringHotkeys, Some(e), None),
        (UpdateStage::OpeningStore, Ok(())) => (UpdateStage::WritingStore, None, None),
        (UpdateStage::OpeningStore, Err(e)) => (UpdateStage::RestoringHotkeys, Some(e), None),
        (UpdateStage::WritingStore, Ok(())) => (UpdateStage::ReplacingCache, None, None),
        (UpdateStage::WritingStore, Err(e)) => (UpdateStage::RestoringStore, Some(e), None),
        (UpdateStage::ReplacingCache, Ok(())) => (UpdateStage::Done, None, None),
        (UpdateStage::ReplacingCache, Err(e)) => (UpdateStage::RestoringStore, Some(e), None),
        (UpdateStage::RestoringStore, Ok(())) => (UpdateStage::RestoringHotkeys, None, None),
        (UpdateStage::RestoringStore, Err(e)) => (
            UpdateStage::RestoringHotkeys,
            None,
            Some(rollback_failure_text("store"@, e)),
        ),
        (UpdateStage::RestoringHotkeys, Ok(())) => (after_hotkeys_restored(changed), None, None),
        (UpdateStage::RestoringHotkeys, Err(e)) => (
            after_hotkeys_restored(changed),
            None,
            Some(rollback_failure_text("hotkey"@, e)),
        ),
        (UpdateStage::RestoringAutostart, Ok(())) => (UpdateStage::Done, None, None),
        (UpdateStage::RestoringAutostart, Err(e)) => (
            UpdateStage::Done,
            None,
            Some(rollback_failure_text("autostart"@, e)),
        ),
        (UpdateStage::Done, _) => (UpdateStage::Done, None, None),
    }
}

/// Whether the stage is one of the forward stages, made before any failure.
pub open spec fn is_forward(stage: UpdateStage) -> bool {
    match stage {
        UpdateStage::SyncingAutostart | UpdateStage::ApplyingHotkeys | UpdateStage::OpeningStore
        | UpdateStage::WritingStore | UpdateStage::ReplacingCache => true,
        _ => false,
    }
}

impl PreferencesUpdate {
    /// What an update must keep: no failure while going forward, and a
    /// recorded failure once rolling back.
    pub open spec fn wf(&self) -> bool {
        &&& is_forward(self.stage) ==> self.failure is None && self.rollback_failures@.len() == 0
        &&& (self.stage == UpdateStage::RestoringStore || self.stage == UpdateStage::RestoringHotkeys
            || self.stage == UpdateStage::RestoringAutostart) ==> self.failure is Some
        &&& self.stage == UpdateStage::RestoringAutostart ==> self.launch_at_login_changed
        &&& self.stage == UpdateStage::SyncingAutostart ==> self.launch_at_login_changed
    }

    /// Starts an update from `previous` to the already validated
    /// `validated`: launch at login is synced first when it changes,
    /// otherwise the hotkeys are applied first.
    pub fn new(previous: AppPreferences, validated: AppPreferences) -> (u: Self)
        ensures
            u.wf(),
            u.previous == previous,
            u.validated == validated,
            u.launch_at_login_changed == (validated.startup.launch_at_login
                != previous.startup.launch_at_login),
            u.stage == if u.launch_at_login_changed {
                UpdateStage::SyncingAutostart
            } else {
                UpdateStage::ApplyingHotkeys
            },
            u.failure is None,
            u.rollback_failures@.len() == 0,
    {
        let changed = validated.startup.launch_at_login != previous.startup.launch_at_login;
        PreferencesUpdate {
            previous,
            validated,
            launch_at_login_changed: changed,
            stage: if changed {
                UpdateStage::SyncingAutostart
            } else {
                UpdateStage::ApplyingHotkeys
            },
            failure: None,
            rollback_failures: Vec::new(),
        }
    }

    /// The effect to make now.
    pub fn next_effect(&self) -> (e: UpdateEffect)
        ensures
            e == effect_at(*self),
    {
        match self.stage {
            UpdateStage::SyncingAutostart => UpdateEffect::SyncAutostart(
                self.validated.startup.launch_at_login,
            ),
            UpdateStage::ApplyingHotkeys => UpdateEffect::ApplyHotkeys { restore: false },
            UpdateStage::OpeningStore => UpdateEffect::OpenStore,
            UpdateStage::WritingStore => UpdateEffect::WriteStore { restore: false },
            UpdateStage::ReplacingCache => UpdateEffect::ReplaceCache,
            UpdateStage::RestoringStore => UpdateEffect::WriteStore { restore: true },
            UpdateStage::RestoringHotkeys => UpdateEffect::ApplyHotkeys { restore: true },
            UpdateStage::RestoringAutostart => UpdateEffect::SyncAutostart(
                self.previous.startup.launch_at_login,
            ),
            UpdateStage::Done => UpdateEffect::Finish,
        }
    }

    /// Records what the effect of the current stage came to and moves on
    /// (see `step`): a forward failure starts the rollback of what was
    /// done, a failed restore is recorded, and the preferences themselves
    /// are left as they are.
    pub fn effect_done(&mut self, result: Result<(), AppError>)
        requires
            old(self).wf(),
        ensures
            final(self).wf(),
            final(self).previous == old(self).previous,
            final(self).validated == old(self).validated,
            final(self).launch_at_login_changed == old(self).launch_at_login_changed,
            final(self).stage == step(old(self).stage, old(self).launch_at_login_changed, result).0,
            final(self).failure == match step(
                old(self).stage,
                old(self).launch_at_login_changed,
                result,
            ).1 {
                Some(e) => Some(e),
                None => old(self).failure,
            },
            string_views(final(self).rollback_failures@) == match step(
                old(self).stage,
                old(self).launch_at_login_changed,
                result,
            ).2 {
                Some(t) => string_views(old(self).rollback_failures@).push(t),
                None => string_views(old(self).rollback_failures@),
            },
    {
        let changed = self.launch_at_login_changed;
        let after_hotkeys = if changed {
            UpdateStage::RestoringAutostart
        } else {
            UpdateStage::Done
        };
        let ghost before = string_views(self.rollback_failures@);
        match self.stage {
            UpdateStage::SyncingAutostart => match result {
                Ok(()) => {
                    self.stage = UpdateStage::ApplyingHotkeys;
                },
                Err(e) => {
                    self.stage = UpdateStage::Done;
                    self.failure = Some(e);
                },
            },
            UpdateStage::ApplyingHotkeys => match result {
                Ok(()) => {
                    self.stage = UpdateStage::OpeningStore;
                },
                Err(e) => {
                    self.stage = UpdateStage::RestoringHotkeys;
                    self.failure = Some(e);
                },
            },
            UpdateStage::OpeningStore => match result {
                Ok(()) => {
                    self.stage = UpdateStage::WritingStore;
                },
                Err(e) => {
                    self.stage = UpdateStage::RestoringHotkeys;
                    self.failure = Some(e);
                },
            },
            UpdateStage::WritingStore => match result {
                Ok(()) => {
                    self.stage = UpdateStage::ReplacingCache;
                },
                Err(e) => {
                    self.stage = UpdateStage::RestoringStore;
                    self.failure = Some(e);
                },
            },
            UpdateStage::ReplacingCache => match result {
                Ok(()) => {
                    self.stage = UpdateStage::Done;
                },
                Err(e) => {
                    self.stage = UpdateStage::RestoringStore;
                    self.failure = Some(e);
                },
            },
            UpdateStage::RestoringStore => {
                if let Err(e) = result {
                    let text = rollback_failure_message("store", &e);
                    self.rollback_failures.push(text);
                    proof {
                        assert(string_views(self.rollback_failures@) =~= before.push(
                            rollback_failure_text("store"@, e),
                        ));
                    }
                }
                self.stage = UpdateStage::RestoringHotkeys;
            },
            UpdateStage::RestoringHotkeys => {
                if let Err(e) = result {
                    let text = rollback_failure_message("hotkey", &e);
                    self.rollback_failures.push(text);
                    proof {
                        assert(string_views(self.rollback_failures@) =~= before.push(
                            rollback_failure_text("hotkey"@, e),
                        ));
                    }
                }
                self.stage = after_hotkeys;
            },
            UpdateStage::RestoringAutostart => {
                if let Err(e) = result {
                    let text = rollback_failure_message("autostart", &e);
                    self.rollback_failures.push(text);
                    proof {
                        assert(string_views(self.rollback_failures@) =~= before.push(
                            rollback_failure_text("autostart"@, e),
                        ));
                    }
                }
                self.stage = UpdateStage::Done;
            },
            UpdateStage::Done => {},
        }
    }

    /// The result of the update: the new preferences, or the error that
    /// stopped it with the rollback failures recorded on it.
    pub fn finish(self) -> (r: AppResult<AppPreferences>)
        ensures
            match self.failure {
                None => r == Ok::<AppPreferences, AppError>(self.validated),
                Some(e) => r matches Err(out) && out.code == e.code && out.message == e.message
                    && out.retryable == e.retryable && (self.rollback_failures@.len() == 0
                    ==> out.detail_map() == e.detail_map()) && (self.rollback_failures@.len() > 0
                    ==> out.detail_map() == e.detail_map().insert(
                    "rollbackFailure"@,
                    joined(string_views(self.rollback_failures@), "; "@),
                ).insert("stateConsistency"@, "unknown"@)),
            },
    {
        match self.failure {
            None => Ok(self.validated),
            Some(e) => Err(attach_preference_rollback_failures(e, self.rollback_failures)),
        }
    }
}

/// `<what>: code=<code> message=<message>`.
fn rollback_failure_message(what: &str, e: &AppError) -> (r: String)
    ensures
        r@ == rollback_failure_text(what@, *e),
{
    let mut out = chars_of(what);
    extend_str(&mut out, ": code=");
    extend_str(&mut out, e.code.as_str());
    extend_str(&mut out, " message=");
    extend_str(&mut out, e.message.as_str());
    string_from(out.as_slice())
}

/// The stages an update passes through from `s`, given what each effect
/// comes to, up to (not including) `Done`.
pub open spec fn visited(s: UpdateStage, changed: bool, results: Seq<Result<(), AppError>>) -> Seq<
    UpdateStage,
>
    decreases results.len(),
{
    if s == UpdateStage::Done || results.len() == 0 {
        Seq::empty()
    } else {
        seq![s] + visited(step(s, changed, results[0]).0, changed, results.drop_first())
    }
}

/// The restores owed after the effect of forward stage `s` fails: the store
/// when it was being written, the hotkeys once they were being applied, and
/// launch at login when it was changed; the latest effect first.
pub open spec fn restore_plan(s: UpdateStage, changed: bool) -> Seq<UpdateStage> {
    let runtime = if changed {
        seq![UpdateStage::RestoringHotkeys, UpdateStage::RestoringAutostart]
    } else {
        seq![UpdateStage::RestoringHotkeys]
    };
    match s {
        UpdateStage::SyncingAutostart => Seq::empty(),
        UpdateStage::ApplyingHotkeys | UpdateStage::OpeningStore => runtime,
        _ => seq![UpdateStage::RestoringStore] + runtime,
    }
}

/// A failed update undoes exactly what it did: after the effect of a forward
/// stage fails, the update restores the effects already made, latest first,
/// whatever the restores themselves come to, and then finishes.
pub proof fn law_failed_update_restores_what_was_done(
    s: UpdateStage,
    changed: bool,
    results: Seq<Result<(), AppError>>,
)
    requires
        is_forward(s),
        s == UpdateStage::SyncingAutostart ==> changed,
        results.len() >= 4,
        results[0] is Err,
    ensures
        visited(s, changed, results) == seq![s] + restore_plan(s, changed),
{
    reveal_with_fuel(visited, 5);
    assert(visited(s, changed, results) =~= seq![s] + restore_plan(s, changed));
}

/// The position of a stage in an update; every step moves to a later one,
/// so an update always finishes.
pub open spec fn stage_rank(s: UpdateStage) -> nat {
    match s {
        UpdateStage::SyncingAutostart => 0,
        UpdateStage::ApplyingHotkeys => 1,
        UpdateStage::OpeningStore => 2,
        UpdateStage::WritingStore => 3,
        UpdateStage::ReplacingCache => 4,
        UpdateStage::RestoringStore => 5,
        UpdateStage::RestoringHotkeys => 6,
        UpdateStage::RestoringAutostart => 7,
        UpdateStage::Done => 8,
    }
}

/// Every update finishes: each step before `Done` moves to a later stage.
pub proof fn law_update_always_finishes(s: UpdateStage, changed: bool, result: Result<(), AppError>)
    requires
        s != UpdateStage::Done,
    ensures
        stage_rank(step(s, changed, result).0) > stage_rank(s),
{
}

} // verus!
