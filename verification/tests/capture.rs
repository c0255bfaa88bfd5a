use bexo_services::capture::{needs_new_staging_texture, pack_top_down_bgra};

#[test]
fn padded_rows_are_packed_top_down() {
    // two rows of one pixel, each row padded to eight bytes
    let source = vec![1, 2, 3, 4, 9, 9, 9, 9, 5, 6, 7, 8, 9, 9, 9, 9];
    let (width, height, bytes) = pack_top_down_bgra(&source, 8, 1, 2).unwrap();
    assert_eq!((width, height), (1, 2));
    assert_eq!(bytes, vec![1, 2, 3, 4, 5, 6, 7, 8]);
}

#[test]
fn empty_texture_counts_as_one_pixel() {
    let source = vec![7, 7, 7, 7];
    let (width, height, bytes) = pack_top_down_bgra(&source, 4, 0, 0).unwrap();
    assert_eq!((width, height), (1, 1));
    assert_eq!(bytes, vec![7, 7, 7, 7]);
}

#[test]
fn oversized_source_is_refused() {
    let error = pack_top_down_bgra(&[], usize::MAX, 1, 2).unwrap_err();
    assert_eq!(error.code, "SCREENSHOT_DESKTOP_DUPLICATION_BUFFER_FAILED");
    assert_eq!(error.message, "Desktop Duplication 源缓冲区溢出");
}

#[test]
fn staging_texture_is_renewed_on_size_change() {
    assert!(needs_new_staging_texture(None, 10, 10));
    assert!(!needs_new_staging_texture(Some((10, 10)), 10, 10));
    assert!(needs_new_staging_texture(Some((10, 11)), 10, 10));
}
