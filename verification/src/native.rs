//! The vocabulary of the native screenshot interaction and preview
//! surfaces: their kinds, states, hit regions and drag modes, with the
//! stable names that the front end receives, and the timing reports of the
//! native back ends.
use vstd::prelude::*;

verus! {

#[derive(Debug, Clone, Copy, PartialEq, Eq, Structural)]
pub enum NativeInteractionBackendKind {
    WindowsLayeredSelectionMvp,
}

impl NativeInteractionBackendKind {
    pub fn as_str(self) -> (r: &'static str)
        ensures
            r@ == "windows_layered_selection_mvp"@,
    {
        match self {
            NativeInteractionBackendKind::WindowsLayeredSelectionMvp => "windows_layered_selection_mvp",
        }
    }
}

#[derive(Debug, Clone, Copy, PartialEq, Eq, Structural)]
pub enum NativeInteractionLifecycleState {
    Uninitialized,
    Ready,
    Prepared,
    Visible,
    Hidden,
    Failed,
}

impl NativeInteractionLifecycleState {
    pub open spec fn spec_name(self) -> Seq<char> {
        match self {
            NativeInteractionLifecycleState::Uninitialized => "uninitialized"@,
            NativeInteractionLifecycleState::Ready => "ready"@,
            NativeInteractionLifecycleState::Prepared => "prepared"@,
            NativeInteractionLifecycleState::Visible => "visible"@,
            NativeInteractionLifecycleState::Hidden => "hidden"@,
            NativeInteractionLifecycleState::Failed => "failed"@,
        }
    }

    pub fn as_str(self) -> (r: &'static str)
        ensures
            r@ == self.spec_name(),
    {
        match self {
            NativeInteractionLifecycleState::Uninitialized => "uninitialized",
            NativeInteractionLifecycleState::Ready => "ready",
            NativeInteractionLifecycleState::Prepared => "prepared",
            NativeInteractionLifecycleState::Visible => "visible",
            NativeInteractionLifecycleState::Hidden => "hidden",
            NativeInteractionLifecycleState::Failed => "failed",
        }
    }
}

/// One of the eight resize handles of a rectangle, by compass direction.
#[derive(Debug, Clone, Copy, PartialEq, Eq, Structural)]
pub enum NativeInteractionSelectionHandle {
    Nw,
    N,
    Ne,
    E,
    Se,
    S,
    Sw,
    W,
}

impl NativeInteractionSelectionHandle {
    pub open spec fn spec_name(self) -> Seq<char> {
        match self {
            NativeInteractionSelectionHandle::Nw => "nw"@,
            NativeInteractionSelectionHandle::N => "n"@,
            NativeInteractionSelectionHandle::Ne => "ne"@,
            NativeInteractionSelectionHandle::E => "e"@,
            NativeInteractionSelectionHandle::Se => "se"@,
            NativeInteractionSelectionHandle::S => "s"@,
            NativeInteractionSelectionHandle::Sw => "sw"@,
            NativeInteractionSelectionHandle::W => "w"@,
        }
    }

    /// The name of a handle of a shape being edited.
    pub open spec fn spec_shape_name(self) -> Seq<char> {
        match self {
            NativeInteractionSelectionHandle::Nw => "shape_nw"@,
            NativeInteractionSelectionHandle::N => "shape_n"@,
            NativeInteractionSelectionHandle::Ne => "shape_ne"@,
            NativeInteractionSelectionHandle::E => "shape_e"@,
            NativeInteractionSelectionHandle::Se => "shape_se"@,
            NativeInteractionSelectionHandle::S => "shape_s"@,
            NativeInteractionSelectionHandle::Sw => "shape_sw"@,
            NativeInteractionSelectionHandle::W => "shape_w"@,
        }
    }

    pub fn as_str(self) -> (r: &'static str)
        ensures
            r@ == self.spec_name(),
    {
        match self {
            NativeInteractionSelectionHandle::Nw => "nw",
            NativeInteractionSelectionHandle::N => "n",
            NativeInteractionSelectionHandle::Ne => "ne",
            NativeInteractionSelectionHandle::E => "e",
            NativeInteractionSelectionHandle::Se => "se",
            NativeInteractionSelectionHandle::S => "s",
            NativeInteractionSelectionHandle::Sw => "sw",
            NativeInteractionSelectionHandle::W => "w",
        }
    }
}

/// What lies under the pointer.
#[derive(Debug, Clone, Copy, PartialEq, Eq, Structural)]
pub enum NativeInteractionHitRegion {
    NoHit,
    SelectionBody,
    Handle(NativeInteractionSelectionHandle),
    ShapeBody,
    ShapeStart,
    ShapeEnd,
    ShapeHandle(NativeInteractionSelectionHandle),
}

impl NativeInteractionHitRegion {
    pub open spec fn spec_name(self) -> Seq<char> {
        match self {
            NativeInteractionHitRegion::NoHit => "none"@,
            NativeInteractionHitRegion::SelectionBody => "selection_body"@,
            NativeInteractionHitRegion::Handle(h) => h.spec_name(),
            NativeInteractionHitRegion::ShapeBody => "shape_body"@,
            NativeInteractionHitRegion::ShapeStart => "shape_start"@,
            NativeInteractionHitRegion::ShapeEnd => "shape_end"@,
            NativeInteractionHitRegion::ShapeHandle(h) => h.spec_shape_name(),
        }
    }

    pub fn as_str(self) -> (r: &'static str)
        ensures
            r@ == self.spec_name(),
    {
        match self {
            NativeInteractionHitRegion::NoHit => "none",
            NativeInteractionHitRegion::SelectionBody => "selection_body",
            NativeInteractionHitRegion::Handle(handle) => handle.as_str(),
            NativeInteractionHitRegion::ShapeBody => "shape_body",
            NativeInteractionHitRegion::ShapeStart => "shape_start",
            NativeInteractionHitRegion::ShapeEnd => "shape_end",
            NativeInteractionHitRegion::ShapeHandle(handle) => match handle {
                NativeInteractionSelectionHandle::Nw => "shape_nw",
                NativeInteractionSelectionHandle::N => "shape_n",
                NativeInteractionSelectionHandle::Ne => "shape_ne",
                NativeInteractionSelectionHandle::E => "shape_e",
                NativeInteractionSelectionHandle::Se => "shape_se",
                NativeInteractionSelectionHandle::S => "shape_s",
                NativeInteractionSelectionHandle::Sw => "shape_sw",
                NativeInteractionSelectionHandle::W => "shape_w",
            },
        }
    }
}

/// What a drag that is under way does.
#[derive(Debug, Clone, Copy, PartialEq, Eq, Structural)]
pub enum NativeInteractionDragMode {
    Creating,
    Moving,
    Resizing(NativeInteractionSelectionHandle),
    LineCreating,
    RectCreating,
    EllipseCreating,
    ArrowCreating,
    ShapeMoving,
    ShapeStartMoving,
    ShapeEndMoving,
    ShapeResizing(NativeInteractionSelectionHandle),
}

impl NativeInteractionDragMode {
    pub open spec fn spec_name(self) -> Seq<char> {
        match self {
            NativeInteractionDragMode::Creating => "creating"@,
            NativeInteractionDragMode::Moving => "moving"@,
            NativeInteractionDragMode::Resizing(_) => "resizing"@,
            NativeInteractionDragMode::LineCreating => "line_creating"@,
            NativeInteractionDragMode::RectCreating => "rect_creating"@,
            NativeInteractionDragMode::EllipseCreating => "ellipse_creating"@,
            NativeInteractionDragMode::ArrowCreating => "arrow_creating"@,
            NativeInteractionDragMode::ShapeMoving => "shape_moving"@,
            NativeInteractionDragMode::ShapeStartMoving => "shape_start_moving"@,
            NativeInteractionDragMode::ShapeEndMoving => "shape_end_moving"@,
            NativeInteractionDragMode::ShapeResizing(_) => "shape_resizing"@,
        }
    }

    pub fn as_str(self) -> (r: &'static str)
        ensures
            r@ == self.spec_name(),
    {
        match self {
            NativeInteractionDragMode::Creating => "creating",
            NativeInteractionDragMode::Moving => "moving",
            NativeInteractionDragMode::Resizing(_) => "resizing",
            NativeInteractionDragMode::LineCreating => "line_creating",
            NativeInteractionDragMode::RectCreating => "rect_creating",
            NativeInteractionDragMode::EllipseCreating => "ellipse_creating",
            NativeInteractionDragMode::ArrowCreating => "arrow_creating",
            NativeInteractionDragMode::ShapeMoving => "shape_moving",
            NativeInteractionDragMode::ShapeStartMoving => "shape_start_moving",
            NativeInteractionDragMode::ShapeEndMoving => "shape_end_moving",
            NativeInteractionDragMode::ShapeResizing(_) => "shape_resizing",
        }
    }
}

/// The tool that the pointer drives.
#[derive(Debug, Clone, Copy, PartialEq, Eq, Structural)]
pub enum NativeInteractionMode {
    Selection,
    LineAnnotation,
    RectAnnotation,
    EllipseAnnotation,
    ArrowAnnotation,
}

impl NativeInteractionMode {
    pub open spec fn spec_name(self) -> Seq<char> {
        match self {
            NativeInteractionMode::Selection => "selection"@,
            NativeInteractionMode::LineAnnotation => "line_annotation"@,
            NativeInteractionMode::RectAnnotation => "rect_annotation"@,
            NativeInteractionMode::EllipseAnnotation => "ellipse_annotation"@,
            NativeInteractionMode::ArrowAnnotation => "arrow_annotation"@,
        }
    }

    pub fn as_str(self) -> (r: &'static str)
        ensures
            r@ == self.spec_name(),
    {
        match self {
            NativeInteractionMode::Selection => "selection",
            NativeInteractionMode::LineAnnotation => "line_annotation",
            NativeInteractionMode::RectAnnotation => "rect_annotation",
            NativeInteractionMode::EllipseAnnotation => "ellipse_annotation",
            NativeInteractionMode::ArrowAnnotation => "arrow_annotation",
        }
    }
}

#[derive(Debug, Clone, Copy, PartialEq, Eq, Structural)]
pub enum NativeInteractionShapeAnnotationKind {
    Line,
    Rect,
    Ellipse,
    Arrow,
}

/// How long the interaction back end took to start, in milliseconds.
#[derive(Debug)]
pub struct NativeInteractionWindowsBackendStarted {
    pub window_create_ms: u128,
    pub initial_hide_ms: u128,
}

/// What preparing an interaction session cost, and where its window is.
#[derive(Debug)]
pub struct NativeInteractionPrepareResult {
    pub present_ms: u128,
    pub copy_ms: u128,
    pub update_ms: u128,
    pub surface_recreated: bool,
    pub total_ms: u128,
    pub window_x: i32,
    pub window_y: i32,
    pub window_width: u32,
    pub window_height: u32,
}

#[derive(Debug, Clone, Copy, PartialEq, Eq, Structural)]
pub enum NativePreviewBackendKind {
    WindowsDirectCompositionSkeleton,
}

impl NativePreviewBackendKind {
    pub fn as_str(self) -> (r: &'static str)
        ensures
            r@ == "windows_directcomposition_skeleton"@,
    {
        match self {
            NativePreviewBackendKind::WindowsDirectCompositionSkeleton => "windows_directcomposition_skeleton",
        }
    }
}

#[derive(Debug, Clone, Copy, PartialEq, Eq, Structural)]
pub enum NativePreviewLifecycleState {
    Uninitialized,
    Ready,
    Prepared,
    Visible,
    Hidden,
    Failed,
}

impl NativePreviewLifecycleState {
    pub open spec fn spec_name(self) -> Seq<char> {
        match self {
            NativePreviewLifecycleState::Uninitialized => "uninitialized"@,
            NativePreviewLifecycleState::Ready => "ready"@,
            NativePreviewLifecycleState::Prepared => "prepared"@,
            NativePreviewLifecycleState::Visible => "visible"@,
            NativePreviewLifecycleState::Hidden => "hidden"@,
            NativePreviewLifecycleState::Failed => "failed"@,
        }
    }

    pub fn as_str(self) -> (r: &'static str)
        ensures
            r@ == self.spec_name(),
    {
        match self {
            NativePreviewLifecycleState::Uninitialized => "uninitialized",
            NativePreviewLifecycleState::Ready => "ready",
            NativePreviewLifecycleState::Prepared => "prepared",
            NativePreviewLifecycleState::Visible => "visible",
            NativePreviewLifecycleState::Hidden => "hidden",
            NativePreviewLifecycleState::Failed => "failed",
        }
    }
}

/// Where the preview's pixels come from.
#[derive(Debug, Clone, Copy, PartialEq, Eq, Structural)]
pub enum NativePreviewSourceKind {
    DesktopDuplicationCache,
    ScreenshotSessionFrame,
}

impl NativePreviewSourceKind {
    pub open spec fn spec_name(self) -> Seq<char> {
        match self {
            NativePreviewSourceKind::DesktopDuplicationCache => "desktop_duplication_cache"@,
            NativePreviewSourceKind::ScreenshotSessionFrame => "screenshot_session_frame"@,
        }
    }

    pub fn as_str(self) -> (r: &'static str)
        ensures
            r@ == self.spec_name(),
    {
        match self {
            NativePreviewSourceKind::DesktopDuplicationCache => "desktop_duplication_cache",
            NativePreviewSourceKind::ScreenshotSessionFrame => "screenshot_session_frame",
        }
    }
}

/// The preview state reported to the front end.
#[derive(Debug)]
pub struct NativePreviewStateView {
    pub backend_kind: Option<NativePreviewBackendKind>,
    pub runtime_mode: &'static str,
    pub lifecycle_state: &'static str,
    pub has_active_session: bool,
}

/// How long the preview back end took to start, in milliseconds.
#[derive(Debug)]
pub struct NativePreviewWindowsBackendStarted {
    pub device_create_ms: u128,
    pub factory_resolve_ms: u128,
    pub window_create_ms: u128,
    pub swap_chain_create_ms: u128,
    pub composition_create_ms: u128,
    pub prime_present_ms: u128,
}

/// What preparing a preview session cost, and where its window is.
#[derive(Debug)]
pub struct NativePreviewPrepareResult {
    pub resize_ms: u128,
    pub frame_commit_ms: u128,
    pub total_ms: u128,
    pub window_x: i32,
    pub window_y: i32,
    pub window_width: u32,
    pub window_height: u32,
}

/// One frame taken by desktop duplication, as top-down BGRA pixels, with
/// its timings in milliseconds. `captured_at_ms` counts from the start of
/// the capture session.
#[derive(Debug)]
pub struct DesktopDuplicationRawCapture {
    pub width: u32,
    pub height: u32,
    pub bgra_top_down: Vec<u8>,
    pub sequence: u64,
    pub captured_at_ms: u128,
    pub frame_wait_ms: u128,
    pub map_ms: u128,
    pub total_ms: u128,
}

/// How long starting a live desktop-duplication capture took, in
/// milliseconds.
#[derive(Debug)]
pub struct DesktopDuplicationLiveCaptureStarted {
    pub width: u32,
    pub height: u32,
    pub factory_create_ms: u128,
    pub adapter_match_ms: u128,
    pub device_create_ms: u128,
    pub duplication_create_ms: u128,
}

/// Whether two drag modes are the same kind of drag, whatever handle a
/// resize holds.
pub open spec fn same_drag_kind(a: NativeInteractionDragMode, b: NativeInteractionDragMode) -> bool {
    match (a, b) {
        (NativeInteractionDragMode::Resizing(_), NativeInteractionDragMode::Resizing(_)) => true,
        (NativeInteractionDragMode::ShapeResizing(_), NativeInteractionDragMode::ShapeResizing(_)) => true,
        _ => a == b,
    }
}

/// Handles have distinct names, and the name of a shape's handle is the
/// handle's name after `shape_`.
pub proof fn law_handle_names_distinct(a: NativeInteractionSelectionHandle, b: NativeInteractionSelectionHandle)
    ensures
        a.spec_name() == b.spec_name() <==> a == b,
        a.spec_shape_name() == "shape_"@ + a.spec_name(),
        1 <= a.spec_name().len() <= 2,
{
    reveal_strlit("nw");
    reveal_strlit("n");
    reveal_strlit("ne");
    reveal_strlit("e");
    reveal_strlit("se");
    reveal_strlit("s");
    reveal_strlit("sw");
    reveal_strlit("w");
    reveal_strlit("shape_nw");
    reveal_strlit("shape_n");
    reveal_strlit("shape_ne");
    reveal_strlit("shape_e");
    reveal_strlit("shape_se");
    reveal_strlit("shape_s");
    reveal_strlit("shape_sw");
    reveal_strlit("shape_w");
    reveal_strlit("shape_");
    if a.spec_name() == b.spec_name() {
        assert(a.spec_name()[0] == b.spec_name()[0]);
        assert(a.spec_name()[1] == b.spec_name()[1]);
    }
    assert(a.spec_shape_name() =~= "shape_"@ + a.spec_name());
}

/// Hit regions have distinct names: the front end can tell every region
/// (each handle of the selection and of a shape among them) by its name.
pub proof fn law_hit_region_names_distinct(a: NativeInteractionHitRegion, b: NativeInteractionHitRegion)
    ensures
        a.spec_name() == b.spec_name() <==> a == b,
{
    reveal_strlit("nw");
    reveal_strlit("n");
    reveal_strlit("ne");
    reveal_strlit("e");
    reveal_strlit("se");
    reveal_strlit("s");
    reveal_strlit("sw");
    reveal_strlit("w");
    reveal_strlit("shape_nw");
    reveal_strlit("shape_n");
    reveal_strlit("shape_ne");
    reveal_strlit("shape_e");
    reveal_strlit("shape_se");
    reveal_strlit("shape_s");
    reveal_strlit("shape_sw");
    reveal_strlit("shape_w");
    reveal_strlit("none");
    reveal_strlit("selection_body");
    reveal_strlit("shape_body");
    reveal_strlit("shape_start");
    reveal_strlit("shape_end");
    match (a, b) {
        (NativeInteractionHitRegion::Handle(x), NativeInteractionHitRegion::Handle(y)) => {
            law_handle_names_distinct(x, y);
        },
        (NativeInteractionHitRegion::ShapeHandle(x), NativeInteractionHitRegion::ShapeHandle(y)) => {
            law_handle_names_distinct(x, y);
            law_handle_names_distinct(y, x);
            let (sx, sy) = (x.spec_shape_name(), y.spec_shape_name());
            if sx == sy {
                assert(x.spec_name() =~= sx.subrange(6, sx.len() as int));
                assert(y.spec_name() =~= sy.subrange(6, sy.len() as int));
            }
        },
        _ => {
            match a {
                NativeInteractionHitRegion::Handle(x) => law_handle_names_distinct(x, x),
                NativeInteractionHitRegion::ShapeHandle(x) => law_handle_names_distinct(x, x),
                _ => {},
            }
            match b {
                NativeInteractionHitRegion::Handle(y) => law_handle_names_distinct(y, y),
                NativeInteractionHitRegion::ShapeHandle(y) => law_handle_names_distinct(y, y),
                _ => {},
            }
            if a.spec_name() == b.spec_name() {
                assert(a.spec_name().len() == b.spec_name().len());
            }
        },
    }
}

/// Drag modes have equal names exactly when they are the same kind of drag:
/// a resize is named without its handle.
pub proof fn law_drag_mode_names_name_the_kind(a: NativeInteractionDragMode, b: NativeInteractionDragMode)
    ensures
        a.spec_name() == b.spec_name() <==> same_drag_kind(a, b),
{
    reveal_strlit("creating");
    reveal_strlit("moving");
    reveal_strlit("resizing");
    reveal_strlit("line_creating");
    reveal_strlit("rect_creating");
    reveal_strlit("ellipse_creating");
    reveal_strlit("arrow_creating");
    reveal_strlit("shape_moving");
    reveal_strlit("shape_start_moving");
    reveal_strlit("shape_end_moving");
    reveal_strlit("shape_resizing");
    if a.spec_name() == b.spec_name() {
        assert(a.spec_name().len() == b.spec_name().len());
        assert(a.spec_name()[0] == b.spec_name()[0]);
    }
}

} // verus!
