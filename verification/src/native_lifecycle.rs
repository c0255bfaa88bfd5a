//! The lifecycles of the native interaction overlay and the native preview:
//! which requests each state accepts, and the state each request leaves.
//!
//! The caller drives the native back end; before each request it asks the
//! lifecycle whether the request may proceed, and after the back end has
//! done its part it records the new state.
use vstd::prelude::*;

use crate::error::{AppError, AppResult};
use crate::native::{
    NativeInteractionBackendKind, NativeInteractionLifecycleState, NativePreviewBackendKind,
    NativePreviewLifecycleState, NativePreviewStateView,
};
use crate::text::{trim, trim_chars};

verus! {

pub open spec fn sv(o: Option<String>) -> Option<Seq<char>> {
    match o {
        Some(s) => Some(s@),
        None => None,
    }
}

/// Whether the error is `code` with `message` and exactly `details`.
pub open spec fn error_is(e: AppError, code: Seq<char>, message: Seq<char>, details: Map<Seq<char>, Seq<char>>) -> bool {
    e.code@ == code && e.message@ == message && e.detail_map() == details
}

// ---------------------------------------------------------------------------
// Interaction overlay
// ---------------------------------------------------------------------------

/// Validates a session of the interaction overlay: a non-blank id, a
/// display of non-zero size, and a valid scale factor (finite and positive,
/// as judged by the caller).
pub fn validate_interaction_session(
    session_id: &str,
    display_width: u32,
    display_height: u32,
    scale_factor_valid: bool,
) -> (r: AppResult<()>)
    ensures
        trim(session_id@).len() == 0 ==> (r matches Err(e) && error_is(
            e,
            "VALIDATION_ERROR"@,
            "native interaction sessionId 不能为空"@,
            Map::empty(),
        )),
        trim(session_id@).len() > 0 && (display_width == 0 || display_height == 0) ==> (r matches Err(
            e,
        ) && error_is(e, "VALIDATION_ERROR"@, "native interaction 显示区域尺寸无效"@, Map::empty())),
        trim(session_id@).len() > 0 && display_width > 0 && display_height > 0 && !scale_factor_valid
            ==> (r matches Err(e) && error_is(
            e,
            "VALIDATION_ERROR"@,
            "native interaction 缩放因子无效"@,
            Map::empty(),
        )),
        r is Ok <==> (trim(session_id@).len() > 0 && display_width > 0 && display_height > 0
            && scale_factor_valid),
{
    if trim_chars(session_id).len() == 0 {
        return Err(AppError::validation("native interaction sessionId 不能为空"));
    }
    if display_width == 0 || display_height == 0 {
        return Err(AppError::validation("native interaction 显示区域尺寸无效"));
    }
    if !scale_factor_valid {
        return Err(AppError::validation("native interaction 缩放因子无效"));
    }
    Ok(())
}

/// The state of the interaction overlay service: the back end it runs on,
/// its lifecycle state, and the id of the prepared session.
#[derive(Debug)]
pub struct InteractionLifecycle {
    pub backend_kind: Option<NativeInteractionBackendKind>,
    pub lifecycle_state: NativeInteractionLifecycleState,
    pub active_session_id: Option<String>,
}

/// Whether the state can show a prepared session.
pub open spec fn interaction_showable(s: NativeInteractionLifecycleState) -> bool {
    s == NativeInteractionLifecycleState::Prepared || s == NativeInteractionLifecycleState::Visible
        || s == NativeInteractionLifecycleState::Hidden
}

/// Whether the service is running (initialized and not failed).
pub open spec fn interaction_running(s: NativeInteractionLifecycleState) -> bool {
    s != NativeInteractionLifecycleState::Uninitialized && s != NativeInteractionLifecycleState::Failed
}

/// The check of a request naming a session: the id must not be blank, a
/// session must be prepared, and it must be that session.
pub open spec fn session_check_ok(active: Option<String>, requested: Seq<char>, r: AppResult<String>) -> bool {
    if trim(requested).len() == 0 {
        r matches Err(e) && error_is(
            e,
            "VALIDATION_ERROR"@,
            "native interaction sessionId 不能为空"@,
            Map::empty(),
        )
    } else {
        match active {
            None => r matches Err(e) && error_is(
                e,
                "NATIVE_INTERACTION_SESSION_NOT_PREPARED"@,
                "native interaction 未准备可显示会话"@,
                Map::empty(),
            ),
            Some(id) => if id@ != requested {
                r matches Err(e) && error_is(
                    e,
                    "NATIVE_INTERACTION_SESSION_MISMATCH"@,
                    "native interaction 会话不匹配"@,
                    map!["expectedSessionId"@ => id@, "actualSessionId"@ => requested],
                )
            } else {
                r matches Ok(x) && x@ == id@
            },
        }
    }
}

impl InteractionLifecycle {
    /// A service that has not started.
    pub fn new() -> (l: Self)
        ensures
            l.backend_kind is None,
            l.lifecycle_state == NativeInteractionLifecycleState::Uninitialized,
            l.active_session_id is None,
    {
        InteractionLifecycle {
            backend_kind: None,
            lifecycle_state: NativeInteractionLifecycleState::Uninitialized,
            active_session_id: None,
        }
    }

    /// Records that the back end started.
    pub fn mark_initialized(&mut self, kind: NativeInteractionBackendKind)
        ensures
            final(self).backend_kind == Some(kind),
            final(self).lifecycle_state == NativeInteractionLifecycleState::Ready,
            final(self).active_session_id == old(self).active_session_id,
    {
        self.backend_kind = Some(kind);
        self.lifecycle_state = NativeInteractionLifecycleState::Ready;
    }

    /// Records that starting the back end failed.
    pub fn mark_initialization_failed(&mut self)
        ensures
            final(self).backend_kind == old(self).backend_kind,
            final(self).lifecycle_state == NativeInteractionLifecycleState::Failed,
            final(self).active_session_id == old(self).active_session_id,
    {
        self.lifecycle_state = NativeInteractionLifecycleState::Failed;
    }

    /// Whether a session may be prepared: only once the service runs.
    pub fn check_prepare(&self) -> (r: AppResult<()>)
        ensures
            interaction_running(self.lifecycle_state) <==> r is Ok,
            r matches Err(e) ==> error_is(
                e,
                "NATIVE_INTERACTION_NOT_INITIALIZED"@,
                "native interaction 服务尚未初始化"@,
                Map::empty(),
            ),
    {
        match self.lifecycle_state {
            NativeInteractionLifecycleState::Uninitialized | NativeInteractionLifecycleState::Failed => Err(
                AppError::new("NATIVE_INTERACTION_NOT_INITIALIZED", "native interaction 服务尚未初始化"),
            ),
            _ => Ok(()),
        }
    }

    /// Records the session the back end has prepared.
    pub fn mark_prepared(&mut self, session_id: String)
        ensures
            final(self).backend_kind == old(self).backend_kind,
            final(self).lifecycle_state == NativeInteractionLifecycleState::Prepared,
            final(self).active_session_id == Some(session_id),
    {
        self.active_session_id = Some(session_id);
        self.lifecycle_state = NativeInteractionLifecycleState::Prepared;
    }

    /// Whether the prepared session may be shown, and its id: the state
    /// must be prepared, visible or hidden, and a session must be prepared.
    pub fn check_show(&self) -> (r: AppResult<String>)
        ensures
            !interaction_showable(self.lifecycle_state) ==> (r matches Err(e) && error_is(
                e,
                "NATIVE_INTERACTION_INVALID_STATE"@,
                "native interaction 当前不处于可显示状态"@,
                map!["state"@ => self.lifecycle_state.spec_name()],
            )),
            interaction_showable(self.lifecycle_state) && self.active_session_id is None ==> (r matches Err(
                e,
            ) && error_is(
                e,
                "NATIVE_INTERACTION_SESSION_NOT_PREPARED"@,
                "native interaction 未准备可显示会话"@,
                Map::empty(),
            )),
            interaction_showable(self.lifecycle_state) && self.active_session_id is Some ==> (r matches Ok(
                id,
            ) && Some(id@) == sv(self.active_session_id)),
    {
        match self.lifecycle_state {
            NativeInteractionLifecycleState::Prepared | NativeInteractionLifecycleState::Visible
            | NativeInteractionLifecycleState::Hidden => {},
            _ => {
                return Err(
                    AppError::new(
                        "NATIVE_INTERACTION_INVALID_STATE",
                        "native interaction 当前不处于可显示状态",
                    ).with_detail("state", self.lifecycle_state.as_str()),
                );
            },
        }
        match &self.active_session_id {
            Some(id) => Ok(id.clone()),
            None => Err(
                AppError::new("NATIVE_INTERACTION_SESSION_NOT_PREPARED", "native interaction 未准备可显示会话"),
            ),
        }
    }

    /// Records that the overlay is shown.
    pub fn mark_visible(&mut self)
        ensures
            final(self).backend_kind == old(self).backend_kind,
            final(self).lifecycle_state == NativeInteractionLifecycleState::Visible,
            final(self).active_session_id == old(self).active_session_id,
    {
        self.lifecycle_state = NativeInteractionLifecycleState::Visible;
    }

    /// Whether hiding reaches the back end: only while the service runs.
    pub fn should_hide(&self) -> (r: bool)
        ensures
            r == interaction_running(self.lifecycle_state),
    {
        match self.lifecycle_state {
            NativeInteractionLifecycleState::Uninitialized | NativeInteractionLifecycleState::Failed => false,
            _ => true,
        }
    }

    /// Records that the overlay is hidden.
    pub fn mark_hidden(&mut self)
        ensures
            final(self).backend_kind == old(self).backend_kind,
            final(self).lifecycle_state == NativeInteractionLifecycleState::Hidden,
            final(self).active_session_id == old(self).active_session_id,
    {
        self.lifecycle_state = NativeInteractionLifecycleState::Hidden;
    }

    /// Whether clearing reaches the back end: once the service has started.
    pub fn should_clear(&self) -> (r: bool)
        ensures
            r == (self.lifecycle_state != NativeInteractionLifecycleState::Uninitialized),
    {
        self.lifecycle_state != NativeInteractionLifecycleState::Uninitialized
    }

    /// Records that the session is cleared: no session, and ready again
    /// when a back end runs.
    pub fn mark_cleared(&mut self)
        ensures
            final(self).backend_kind == old(self).backend_kind,
            final(self).active_session_id is None,
            final(self).lifecycle_state == if old(self).backend_kind is Some {
                NativeInteractionLifecycleState::Ready
            } else {
                old(self).lifecycle_state
            },
    {
        self.active_session_id = None;
        if self.backend_kind.is_some() {
            self.lifecycle_state = NativeInteractionLifecycleState::Ready;
        }
    }

    /// Whether a request naming `session_id` concerns the prepared session
    /// (see `session_check_ok`), and the session's id.
    pub fn check_session(&self, session_id: &str) -> (r: AppResult<String>)
        ensures
            session_check_ok(self.active_session_id, session_id@, r),
    {
        if trim_chars(session_id).len() == 0 {
            return Err(AppError::validation("native interaction sessionId 不能为空"));
        }
        match &self.active_session_id {
            None => Err(
                AppError::new(
                    "NATIVE_INTERACTION_SESSION_NOT_PREPARED",
                    "native interaction 未准备可显示会话",
                ),
            ),
            Some(id) => {
                let requested = session_id.to_owned();
                if !id.eq(&requested) {
                    Err(
                        AppError::new("NATIVE_INTERACTION_SESSION_MISMATCH", "native interaction 会话不匹配").with_detail(
                            "expectedSessionId",
                            id.as_str(),
                        ).with_detail("actualSessionId", session_id),
                    )
                } else {
                    Ok(id.clone())
                }
            },
        }
    }

    /// Records the visibility a runtime update asked for.
    pub fn mark_runtime(&mut self, visible: bool)
        ensures
            final(self).backend_kind == old(self).backend_kind,
            final(self).active_session_id == old(self).active_session_id,
            final(self).lifecycle_state == if visible {
                NativeInteractionLifecycleState::Visible
            } else {
                NativeInteractionLifecycleState::Hidden
            },
    {
        if visible {
            self.lifecycle_state = NativeInteractionLifecycleState::Visible;
        } else {
            self.lifecycle_state = NativeInteractionLifecycleState::Hidden;
        }
    }
}

// ---------------------------------------------------------------------------
// Preview
// ---------------------------------------------------------------------------

/// Validates a preview session: a non-blank id, non-zero display, capture
/// and preview sizes, and a valid scale factor (as judged by the caller).
pub fn validate_preview_session(
    session_id: &str,
    display_width: u32,
    display_height: u32,
    capture_width: u32,
    capture_height: u32,
    preview_width: u32,
    preview_height: u32,
    scale_factor_valid: bool,
) -> (r: AppResult<()>)
    ensures
        trim(session_id@).len() == 0 ==> (r matches Err(e) && error_is(
            e,
            "VALIDATION_ERROR"@,
            "native preview sessionId 不能为空"@,
            Map::empty(),
        )),
        trim(session_id@).len() > 0 && (display_width == 0 || display_height == 0) ==> (r matches Err(
            e,
        ) && error_is(e, "VALIDATION_ERROR"@, "native preview 显示区域尺寸无效"@, Map::empty())),
        trim(session_id@).len() > 0 && display_width > 0 && display_height > 0 && (capture_width
            == 0 || capture_height == 0) ==> (r matches Err(e) && error_is(
            e,
            "VALIDATION_ERROR"@,
            "native preview 捕获尺寸无效"@,
            Map::empty(),
        )),
        trim(session_id@).len() > 0 && display_width > 0 && display_height > 0 && capture_width > 0
            && capture_height > 0 && (preview_width == 0 || preview_height == 0) ==> (r matches Err(
            e,
        ) && error_is(e, "VALIDATION_ERROR"@, "native preview 预览尺寸无效"@, Map::empty())),
        trim(session_id@).len() > 0 && display_width > 0 && display_height > 0 && capture_width > 0
            && capture_height > 0 && preview_width > 0 && preview_height > 0 && !scale_factor_valid
            ==> (r matches Err(e) && error_is(
            e,
            "VALIDATION_ERROR"@,
            "native preview 缩放因子无效"@,
            Map::empty(),
        )),
        r is Ok <==> (trim(session_id@).len() > 0 && display_width > 0 && display_height > 0
            && capture_width > 0 && capture_height > 0 && preview_width > 0 && preview_height > 0
            && scale_factor_valid),
{
    if trim_chars(session_id).len() == 0 {
        return Err(AppError::validation("native preview sessionId 不能为空"));
    }
    if display_width == 0 || display_height == 0 {
        return Err(AppError::validation("native preview 显示区域尺寸无效"));
    }
    if capture_width == 0 || capture_height == 0 {
        return Err(AppError::validation("native preview 捕获尺寸无效"));
    }
    if preview_width == 0 || preview_height == 0 {
        return Err(AppError::validation("native preview 预览尺寸无效"));
    }
    if !scale_factor_valid {
        return Err(AppError::validation("native preview 缩放因子无效"));
    }
    Ok(())
}

/// How the preview runs: not yet, or with its current scaffold.
#[derive(Debug, Clone, Copy, PartialEq, Eq, Structural)]
pub enum NativePreviewRuntimeMode {
    Uninitialized,
    PhaseBScaffold,
}

impl NativePreviewRuntimeMode {
    pub open spec fn spec_name(self) -> Seq<char> {
        match self {
            NativePreviewRuntimeMode::Uninitialized => "uninitialized"@,
            NativePreviewRuntimeMode::PhaseBScaffold => "phase_b_scaffold"@,
        }
    }

    pub fn as_str(self) -> (r: &'static str)
        ensures
            r@ == self.spec_name(),
    {
        match self {
            NativePreviewRuntimeMode::Uninitialized => "uninitialized",
            NativePreviewRuntimeMode::PhaseBScaffold => "phase_b_scaffold",
        }
    }
}

/// The state of the preview service.
#[derive(Debug)]
pub struct PreviewLifecycle {
    pub backend_kind: Option<NativePreviewBackendKind>,
    pub runtime_mode: NativePreviewRuntimeMode,
    pub lifecycle_state: NativePreviewLifecycleState,
    pub active_session_id: Option<String>,
}

pub open spec fn preview_showable(s: NativePreviewLifecycleState) -> bool {
    s == NativePreviewLifecycleState::Prepared || s == NativePreviewLifecycleState::Visible || s
        == NativePreviewLifecycleState::Hidden
}

pub open spec fn preview_running(s: NativePreviewLifecycleState) -> bool {
    s != NativePreviewLifecycleState::Uninitialized && s != NativePreviewLifecycleState::Failed
}

impl PreviewLifecycle {
    pub fn new() -> (l: Self)
        ensures
            l.backend_kind is None,
            l.runtime_mode == NativePreviewRuntimeMode::Uninitialized,
            l.lifecycle_state == NativePreviewLifecycleState::Uninitialized,
            l.active_session_id is None,
    {
        PreviewLifecycle {
            backend_kind: None,
            runtime_mode: NativePreviewRuntimeMode::Uninitialized,
            lifecycle_state: NativePreviewLifecycleState::Uninitialized,
            active_session_id: None,
        }
    }

    /// Records that the back end started in `mode`.
    pub fn mark_initialized(&mut self, kind: NativePreviewBackendKind, mode: NativePreviewRuntimeMode)
        ensures
            final(self).backend_kind == Some(kind),
            final(self).runtime_mode == mode,
            final(self).lifecycle_state == NativePreviewLifecycleState::Ready,
            final(self).active_session_id == old(self).active_session_id,
    {
        self.backend_kind = Some(kind);
        self.runtime_mode = mode;
        self.lifecycle_state = NativePreviewLifecycleState::Ready;
    }

    pub fn mark_initialization_failed(&mut self)
        ensures
            final(self).backend_kind == old(self).backend_kind,
            final(self).runtime_mode == old(self).runtime_mode,
            final(self).lifecycle_state == NativePreviewLifecycleState::Failed,
            final(self).active_session_id == old(self).active_session_id,
    {
        self.lifecycle_state = NativePreviewLifecycleState::Failed;
    }

    /// Whether a session may be recorded without a frame: once the service
    /// has started (a failed start included).
    pub fn check_prepare(&self) -> (r: AppResult<()>)
        ensures
            (self.lifecycle_state != NativePreviewLifecycleState::Uninitialized) <==> r is Ok,
            r matches Err(e) ==> error_is(
                e,
                "NATIVE_PREVIEW_NOT_INITIALIZED"@,
                "native preview 服务尚未初始化"@,
                Map::empty(),
            ),
    {
        if self.lifecycle_state == NativePreviewLifecycleState::Uninitialized {
            return Err(AppError::new("NATIVE_PREVIEW_NOT_INITIALIZED", "native preview 服务尚未初始化"));
        }
        Ok(())
    }

    /// Whether a frame may be prepared: the service must run and have a
    /// back end.
    pub fn check_prepare_frame(&self) -> (r: AppResult<NativePreviewBackendKind>)
        ensures
            !preview_running(self.lifecycle_state) ==> (r matches Err(e) && error_is(
                e,
                "NATIVE_PREVIEW_NOT_INITIALIZED"@,
                "native preview 服务尚未初始化"@,
                map!["state"@ => self.lifecycle_state.spec_name()],
            )),
            preview_running(self.lifecycle_state) && self.backend_kind is None ==> (r matches Err(e)
                && error_is(
                e,
                "NATIVE_PREVIEW_BACKEND_UNAVAILABLE"@,
                "native preview backend 不可用"@,
                Map::empty(),
            )),
            preview_running(self.lifecycle_state) && self.backend_kind is Some ==> r == Ok::<
                NativePreviewBackendKind,
                AppError,
            >(self.backend_kind->Some_0),
    {
        match self.lifecycle_state {
            NativePreviewLifecycleState::Uninitialized | NativePreviewLifecycleState::Failed => {
                return Err(
                    AppError::new("NATIVE_PREVIEW_NOT_INITIALIZED", "native preview 服务尚未初始化").with_detail(
                        "state",
                        self.lifecycle_state.as_str(),
                    ),
                );
            },
            _ => {},
        }
        match self.backend_kind {
            Some(kind) => Ok(kind),
            None => Err(AppError::new("NATIVE_PREVIEW_BACKEND_UNAVAILABLE", "native preview backend 不可用")),
        }
    }

    pub fn mark_prepared(&mut self, session_id: String)
        ensures
            final(self).backend_kind == old(self).backend_kind,
            final(self).runtime_mode == old(self).runtime_mode,
            final(self).lifecycle_state == NativePreviewLifecycleState::Prepared,
            final(self).active_session_id == Some(session_id),
    {
        self.active_session_id = Some(session_id);
        self.lifecycle_state = NativePreviewLifecycleState::Prepared;
    }

    /// Whether the prepared session may be shown, and its id.
    pub fn check_show(&self) -> (r: AppResult<String>)
        ensures
            !preview_showable(self.lifecycle_state) ==> (r matches Err(e) && error_is(
                e,
                "NATIVE_PREVIEW_INVALID_STATE"@,
                "native preview 当前不处于可显示状态"@,
                map!["state"@ => self.lifecycle_state.spec_name()],
            )),
            preview_showable(self.lifecycle_state) && self.active_session_id is None ==> (r matches Err(
                e,
            ) && error_is(
                e,
                "NATIVE_PREVIEW_SESSION_NOT_PREPARED"@,
                "native preview 未准备可显示会话"@,
                Map::empty(),
            )),
            preview_showable(self.lifecycle_state) && self.active_session_id is Some ==> (r matches Ok(
                id,
            ) && Some(id@) == sv(self.active_session_id)),
    {
        match self.lifecycle_state {
            NativePreviewLifecycleState::Prepared | NativePreviewLifecycleState::Visible
            | NativePreviewLifecycleState::Hidden => {},
            _ => {
                return Err(
                    AppError::new("NATIVE_PREVIEW_INVALID_STATE", "native preview 当前不处于可显示状态").with_detail(
                        "state",
                        self.lifecycle_state.as_str(),
                    ),
                );
            },
        }
        match &self.active_session_id {
            Some(id) => Ok(id.clone()),
            None => Err(AppError::new("NATIVE_PREVIEW_SESSION_NOT_PREPARED", "native preview 未准备可显示会话")),
        }
    }

    pub fn mark_visible(&mut self)
        ensures
            final(self).backend_kind == old(self).backend_kind,
            final(self).runtime_mode == old(self).runtime_mode,
            final(self).lifecycle_state == NativePreviewLifecycleState::Visible,
            final(self).active_session_id == old(self).active_session_id,
    {
        self.lifecycle_state = NativePreviewLifecycleState::Visible;
    }

    pub fn should_hide(&self) -> (r: bool)
        ensures
            r == preview_running(self.lifecycle_state),
    {
        match self.lifecycle_state {
            NativePreviewLifecycleState::Uninitialized | NativePreviewLifecycleState::Failed => false,
            _ => true,
        }
    }

    pub fn mark_hidden(&mut self)
        ensures
            final(self).backend_kind == old(self).backend_kind,
            final(self).runtime_mode == old(self).runtime_mode,
            final(self).lifecycle_state == NativePreviewLifecycleState::Hidden,
            final(self).active_session_id == old(self).active_session_id,
    {
        self.lifecycle_state = NativePreviewLifecycleState::Hidden;
    }

    /// Whether the z-order is synced: only while the preview is visible.
    pub fn should_sync_z_order(&self) -> (r: bool)
        ensures
            r == (self.lifecycle_state == NativePreviewLifecycleState::Visible),
    {
        self.lifecycle_state == NativePreviewLifecycleState::Visible
    }

    /// Clears the session once the service has started; ready again when a
    /// back end runs.
    pub fn clear(&mut self)
        ensures
            final(self).backend_kind == old(self).backend_kind,
            final(self).runtime_mode == old(self).runtime_mode,
            old(self).lifecycle_state == NativePreviewLifecycleState::Uninitialized ==> final(self).lifecycle_state == old(self).lifecycle_state && final(self).active_session_id == old(self).active_session_id,
            old(self).lifecycle_state != NativePreviewLifecycleState::Uninitialized ==> final(self).active_session_id is None,
            old(self).lifecycle_state != NativePreviewLifecycleState::Uninitialized ==> final(self).lifecycle_state == (if old(self).backend_kind is Some {
                NativePreviewLifecycleState::Ready
            } else {
                old(self).lifecycle_state
            }),
    {
        if self.lifecycle_state == NativePreviewLifecycleState::Uninitialized {
            return;
        }
        self.active_session_id = None;
        if self.backend_kind.is_some() {
            self.lifecycle_state = NativePreviewLifecycleState::Ready;
        }
    }

    /// The state reported to the front end.
    pub fn state_view(&self) -> (v: NativePreviewStateView)
        ensures
            v.backend_kind == self.backend_kind,
            v.runtime_mode@ == self.runtime_mode.spec_name(),
            v.lifecycle_state@ == self.lifecycle_state.spec_name(),
            v.has_active_session == self.active_session_id is Some,
    {
        NativePreviewStateView {
            backend_kind: self.backend_kind,
            runtime_mode: self.runtime_mode.as_str(),
            lifecycle_state: self.lifecycle_state.as_str(),
            has_active_session: self.active_session_id.is_some(),
        }
    }
}

} // verus!
