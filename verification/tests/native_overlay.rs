use bexo_services::native::{
    NativeInteractionBackendKind, NativeInteractionDragMode, NativeInteractionHitRegion,
    NativeInteractionLifecycleState, NativeInteractionMode, NativeInteractionSelectionHandle,
    NativePreviewBackendKind, NativePreviewLifecycleState,
};
use bexo_services::native_lifecycle::{
    validate_interaction_session, validate_preview_session, InteractionLifecycle,
    NativePreviewRuntimeMode, PreviewLifecycle,
};
use bexo_services::native_overlay::{
    build_base_mask_buffer, clear_rect_transparent, cursor_kind_for_handle, cursor_kind_for_state,
    fill_rect, parse_color_rgba, point_in_box, press_drag_mode, NativeInteractionCursorKind, MASK_COLOR,
};

#[test]
fn cursors_follow_drag_tool_and_hover() {
    assert_eq!(
        cursor_kind_for_handle(NativeInteractionSelectionHandle::Ne),
        NativeInteractionCursorKind::ResizeNesw
    );
    assert_eq!(
        cursor_kind_for_state(
            Some(NativeInteractionDragMode::Resizing(NativeInteractionSelectionHandle::N)),
            NativeInteractionMode::Selection,
            NativeInteractionHitRegion::NoHit,
            true,
        ),
        NativeInteractionCursorKind::ResizeNs
    );
    assert_eq!(
        cursor_kind_for_state(
            Some(NativeInteractionDragMode::ArrowCreating),
            NativeInteractionMode::Selection,
            NativeInteractionHitRegion::SelectionBody,
            true,
        ),
        NativeInteractionCursorKind::Crosshair
    );
    assert_eq!(
        cursor_kind_for_state(
            None,
            NativeInteractionMode::Selection,
            NativeInteractionHitRegion::NoHit,
            true,
        ),
        NativeInteractionCursorKind::NotAllowed
    );
    assert_eq!(
        cursor_kind_for_state(
            None,
            NativeInteractionMode::Selection,
            NativeInteractionHitRegion::NoHit,
            false,
        ),
        NativeInteractionCursorKind::Crosshair
    );
    assert_eq!(
        cursor_kind_for_state(
            None,
            NativeInteractionMode::Selection,
            NativeInteractionHitRegion::ShapeHandle(NativeInteractionSelectionHandle::W),
            true,
        ),
        NativeInteractionCursorKind::ResizeWe
    );
    assert_eq!(
        cursor_kind_for_state(
            None,
            NativeInteractionMode::RectAnnotation,
            NativeInteractionHitRegion::SelectionBody,
            true,
        ),
        NativeInteractionCursorKind::Crosshair
    );
}

#[test]
fn boxes_include_their_near_edges_only() {
    assert!(point_in_box(0, 0, 0, 0, 10, 10));
    assert!(!point_in_box(10, 5, 0, 0, 10, 10));
    assert!(!point_in_box(5, 5, 0, 0, -3, 10));
    assert!(point_in_box(i32::MAX - 1, 0, i32::MAX - 5, 0, 100, 1));
}

#[test]
fn colors_are_read_as_bgra() {
    assert_eq!(parse_color_rgba(Some("#00d08f")), Some([0x8F, 0xD0, 0x00, 0xFF]));
    assert_eq!(parse_color_rgba(Some("  ##F0A ")), Some([0xAA, 0x00, 0xFF, 0xFF]));
    assert_eq!(parse_color_rgba(Some("+f+f+f")), Some([0x0F, 0x0F, 0x0F, 0xFF]));
    assert_eq!(parse_color_rgba(Some("#12345")), None);
    assert_eq!(parse_color_rgba(Some("#zzzzzz")), None);
    assert_eq!(parse_color_rgba(Some("é00a")), None);
    assert_eq!(parse_color_rgba(None), None);
}

#[test]
fn pixel_buffers_are_filled_within_bounds() {
    let mask = build_base_mask_buffer(10);
    assert_eq!(mask.len(), 10);
    assert_eq!(&mask[0..4], &MASK_COLOR);
    assert_eq!(&mask[4..8], &MASK_COLOR);
    assert_eq!(&mask[8..10], &[0, 0]);

    let mut buffer = vec![9u8; 3 * 2 * 4];
    fill_rect(&mut buffer, 3, 2, 1, -5, 10, 6, [1, 2, 3, 4]);
    assert_eq!(
        buffer,
        vec![9, 9, 9, 9, 1, 2, 3, 4, 1, 2, 3, 4, 9, 9, 9, 9, 1, 2, 3, 4, 1, 2, 3, 4]
    );
    clear_rect_transparent(&mut buffer, 3, 2, 2, 0, 1, 2);
    assert_eq!(
        buffer,
        vec![9, 9, 9, 9, 1, 2, 3, 4, 0, 0, 0, 0, 9, 9, 9, 9, 1, 2, 3, 4, 0, 0, 0, 0]
    );
    let before = buffer.clone();
    fill_rect(&mut buffer, 3, 2, 5, 0, 2, 2, [7, 7, 7, 7]);
    assert_eq!(buffer, before);
}

#[test]
fn interaction_lifecycle_gates_requests() {
    let mut overlay = InteractionLifecycle::new();
    assert_eq!(overlay.check_prepare().unwrap_err().code, "NATIVE_INTERACTION_NOT_INITIALIZED");
    assert!(!overlay.should_hide());
    assert!(!overlay.should_clear());
    let error = overlay.check_show().unwrap_err();
    assert_eq!(error.code, "NATIVE_INTERACTION_INVALID_STATE");

    overlay.mark_initialized(NativeInteractionBackendKind::WindowsLayeredSelectionMvp);
    assert!(overlay.check_prepare().is_ok());
    overlay.mark_prepared("s1".to_string());
    assert_eq!(overlay.check_show().unwrap(), "s1");
    overlay.mark_visible();
    assert_eq!(overlay.lifecycle_state, NativeInteractionLifecycleState::Visible);

    assert_eq!(overlay.check_session(" ").unwrap_err().code, "VALIDATION_ERROR");
    let mismatch = overlay.check_session("s2").unwrap_err();
    assert_eq!(mismatch.code, "NATIVE_INTERACTION_SESSION_MISMATCH");
    assert_eq!(overlay.check_session("s1").unwrap(), "s1");
    overlay.mark_runtime(false);
    assert_eq!(overlay.lifecycle_state, NativeInteractionLifecycleState::Hidden);

    overlay.mark_cleared();
    assert_eq!(overlay.lifecycle_state, NativeInteractionLifecycleState::Ready);
    assert_eq!(
        overlay.check_session("s1").unwrap_err().code,
        "NATIVE_INTERACTION_SESSION_NOT_PREPARED"
    );
    overlay.mark_initialization_failed();
    assert!(!overlay.should_hide());

    assert!(validate_interaction_session("s", 10, 10, true).is_ok());
    assert_eq!(
        validate_interaction_session("s", 0, 10, true).unwrap_err().message,
        "native interaction 显示区域尺寸无效"
    );
    assert_eq!(
        validate_interaction_session("s", 10, 10, false).unwrap_err().message,
        "native interaction 缩放因子无效"
    );
}

#[test]
fn preview_lifecycle_gates_requests() {
    let mut preview = PreviewLifecycle::new();
    assert!(preview.check_prepare().is_err());
    preview.mark_initialization_failed();
    assert!(preview.check_prepare().is_ok());
    let error = preview.check_prepare_frame().unwrap_err();
    assert_eq!(error.code, "NATIVE_PREVIEW_NOT_INITIALIZED");
    assert_eq!(
        error.details.as_ref().and_then(|d| d.get("state")).map(|s| s.as_str()),
        Some("failed")
    );

    preview.mark_initialized(
        NativePreviewBackendKind::WindowsDirectCompositionSkeleton,
        NativePreviewRuntimeMode::PhaseBScaffold,
    );
    assert!(preview.check_prepare_frame().is_ok());
    preview.mark_prepared("p1".to_string());
    assert!(!preview.should_sync_z_order());
    assert_eq!(preview.check_show().unwrap(), "p1");
    preview.mark_visible();
    assert!(preview.should_sync_z_order());
    let view = preview.state_view();
    assert_eq!(view.runtime_mode, "phase_b_scaffold");
    assert_eq!(view.lifecycle_state, "visible");
    assert!(view.has_active_session);
    preview.clear();
    assert_eq!(preview.lifecycle_state, NativePreviewLifecycleState::Ready);
    assert!(!preview.state_view().has_active_session);

    assert_eq!(
        validate_preview_session("p", 1, 1, 1, 0, 1, 1, true).unwrap_err().message,
        "native preview 捕获尺寸无效"
    );
    assert_eq!(
        validate_preview_session("p", 1, 1, 1, 1, 0, 1, true).unwrap_err().message,
        "native preview 预览尺寸无效"
    );
    assert!(validate_preview_session("p", 1, 1, 1, 1, 1, 1, true).is_ok());
}

#[test]
fn left_button_press_chooses_the_drag() {
    let none = NativeInteractionHitRegion::NoHit;
    let handle = NativeInteractionSelectionHandle::Ne;
    assert_eq!(
        press_drag_mode(NativeInteractionMode::Selection, NativeInteractionHitRegion::ShapeEnd, none, true, true),
        Some(NativeInteractionDragMode::ShapeEndMoving)
    );
    assert_eq!(
        press_drag_mode(NativeInteractionMode::Selection, none, NativeInteractionHitRegion::Handle(handle), true, true),
        Some(NativeInteractionDragMode::Resizing(handle))
    );
    assert_eq!(
        press_drag_mode(NativeInteractionMode::Selection, none, NativeInteractionHitRegion::SelectionBody, true, true),
        Some(NativeInteractionDragMode::Moving)
    );
    assert_eq!(press_drag_mode(NativeInteractionMode::Selection, none, none, true, false), None);
    assert_eq!(
        press_drag_mode(NativeInteractionMode::Selection, none, none, false, false),
        Some(NativeInteractionDragMode::Creating)
    );
    assert_eq!(
        press_drag_mode(NativeInteractionMode::ArrowAnnotation, none, none, true, true),
        Some(NativeInteractionDragMode::ArrowCreating)
    );
    assert_eq!(press_drag_mode(NativeInteractionMode::RectAnnotation, none, none, true, false), None);
    assert_eq!(press_drag_mode(NativeInteractionMode::LineAnnotation, none, none, false, true), None);
}

fn all_handles() -> Vec<NativeInteractionSelectionHandle> {
    vec![
        NativeInteractionSelectionHandle::Nw,
        NativeInteractionSelectionHandle::N,
        NativeInteractionSelectionHandle::Ne,
        NativeInteractionSelectionHandle::E,
        NativeInteractionSelectionHandle::Se,
        NativeInteractionSelectionHandle::S,
        NativeInteractionSelectionHandle::Sw,
        NativeInteractionSelectionHandle::W,
    ]
}

#[test]
fn every_hit_region_has_its_own_name() {
    let mut regions = vec![
        NativeInteractionHitRegion::NoHit,
        NativeInteractionHitRegion::SelectionBody,
        NativeInteractionHitRegion::ShapeBody,
        NativeInteractionHitRegion::ShapeStart,
        NativeInteractionHitRegion::ShapeEnd,
    ];
    for h in all_handles() {
        regions.push(NativeInteractionHitRegion::Handle(h));
        regions.push(NativeInteractionHitRegion::ShapeHandle(h));
        assert_eq!(NativeInteractionHitRegion::Handle(h).as_str(), h.as_str());
        assert_eq!(NativeInteractionHitRegion::ShapeHandle(h).as_str(), format!("shape_{}", h.as_str()));
    }
    assert_eq!(regions.len(), 21);
    for (i, a) in regions.iter().enumerate() {
        for (j, b) in regions.iter().enumerate() {
            assert_eq!(a.as_str() == b.as_str(), i == j);
        }
    }
}

#[test]
fn drag_mode_names_tell_the_kind_of_drag() {
    let [nw, n, e, se, w] = [
        NativeInteractionSelectionHandle::Nw,
        NativeInteractionSelectionHandle::N,
        NativeInteractionSelectionHandle::E,
        NativeInteractionSelectionHandle::Se,
        NativeInteractionSelectionHandle::W,
    ];
    assert_eq!(NativeInteractionDragMode::Resizing(nw).as_str(), "resizing");
    assert_eq!(NativeInteractionDragMode::Resizing(se).as_str(), "resizing");
    assert_eq!(NativeInteractionDragMode::ShapeResizing(e).as_str(), "shape_resizing");
    let kinds = vec![
        NativeInteractionDragMode::Creating,
        NativeInteractionDragMode::Moving,
        NativeInteractionDragMode::Resizing(n),
        NativeInteractionDragMode::LineCreating,
        NativeInteractionDragMode::RectCreating,
        NativeInteractionDragMode::EllipseCreating,
        NativeInteractionDragMode::ArrowCreating,
        NativeInteractionDragMode::ShapeMoving,
        NativeInteractionDragMode::ShapeStartMoving,
        NativeInteractionDragMode::ShapeEndMoving,
        NativeInteractionDragMode::ShapeResizing(w),
    ];
    for (i, a) in kinds.iter().enumerate() {
        for (j, b) in kinds.iter().enumerate() {
            assert_eq!(a.as_str() == b.as_str(), i == j);
        }
    }
}
