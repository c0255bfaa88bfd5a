//! Desktop capture frames: turning a mapped texture, whose rows are
//! `row_pitch` bytes apart, into tightly packed top-down BGRA rows, and
//! deciding when the staging texture must be made anew.
use vstd::prelude::*;

use crate::error::{AppError, AppResult};

verus! {

/// The first `k` rows of `row_bytes` bytes each, taken `pitch` bytes apart
/// from `source`, one after the other.
pub open spec fn packed_rows(source: Seq<u8>, pitch: int, row_bytes: int, k: nat) -> Seq<u8>
    decreases k,
{
    if k == 0 {
        Seq::empty()
    } else {
        let row = (k - 1) as int;
        packed_rows(source, pitch, row_bytes, (k - 1) as nat) + source.subrange(
            row * pitch,
            row * pitch + row_bytes,
        )
    }
}

/// The texture's width and height (at least one each) and its rows packed
/// top-down, four bytes a pixel. The row length in bytes, and all the rows
/// the texture spans at its pitch, must fit in `usize`, or the buffer
/// cannot be made.
pub fn pack_top_down_bgra(source: &[u8], row_pitch: usize, width: u32, height: u32) -> (r: AppResult<
    (u32, u32, Vec<u8>),
>)
    requires
        ({
            let w = if width < 1 { 1 } else { width as int };
            let h = if height < 1 { 1 } else { height as int };
            (w * 4 <= usize::MAX && row_pitch * h <= usize::MAX) ==> (w * 4 <= row_pitch
                && row_pitch * h <= source@.len())
        }),
    ensures
        ({
            let w = if width < 1 { 1 } else { width as int };
            let h = if height < 1 { 1 } else { height as int };
            if w * 4 > usize::MAX {
                r matches Err(e) && e.code@ == "SCREENSHOT_DESKTOP_DUPLICATION_BUFFER_FAILED"@
                    && e.message@ == "Desktop Duplication 行缓冲区溢出"@
            } else if row_pitch * h > usize::MAX {
                r matches Err(e) && e.code@ == "SCREENSHOT_DESKTOP_DUPLICATION_BUFFER_FAILED"@
                    && e.message@ == "Desktop Duplication 源缓冲区溢出"@
            } else {
                r matches Ok((rw, rh, bytes)) && rw == w && rh == h && bytes@ == packed_rows(
                    source@,
                    row_pitch as int,
                    w * 4,
                    h as nat,
                )
            }
        }),
{
    let w: u32 = if width < 1 { 1 } else { width };
    let h: u32 = if height < 1 { 1 } else { height };
    let wu = w as usize;
    let hu = h as usize;
    let row_bytes = match wu.checked_mul(4) {
        Some(n) => n,
        None => {
            return Err(
                AppError::new("SCREENSHOT_DESKTOP_DUPLICATION_BUFFER_FAILED", "Desktop Duplication 行缓冲区溢出"),
            );
        },
    };
    let total = match row_pitch.checked_mul(hu) {
        Some(n) => n,
        None => {
            return Err(
                AppError::new("SCREENSHOT_DESKTOP_DUPLICATION_BUFFER_FAILED", "Desktop Duplication 源缓冲区溢出"),
            );
        },
    };
    let source_len = source.len();
    let mut out: Vec<u8> = Vec::new();
    let mut row: usize = 0;
    while row < hu
        invariant
            row <= hu,
            hu == h,
            row_bytes == w * 4,
            row_bytes <= row_pitch,
            total == row_pitch * hu,
            total <= source@.len(),
            source@.len() == source_len,
            out@ == packed_rows(source@, row_pitch as int, row_bytes as int, row as nat),
        decreases hu - row,
    {
        assert(row * row_pitch + row_pitch <= total) by (nonlinear_arith)
            requires
                row < hu,
                total == row_pitch * hu,
        ;
        assert(row * row_pitch >= 0) by (nonlinear_arith)
            requires
                row >= 0,
                row_pitch >= 0,
        ;
        let start = row * row_pitch;
        let mut i: usize = 0;
        let ghost before = out@;
        while i < row_bytes
            invariant
                i <= row_bytes <= row_pitch,
                start + row_pitch <= source@.len(),
                source@.len() == source_len,
                out@ == before + source@.subrange(start as int, start + i),
            decreases row_bytes - i,
        {
            out.push(source[start + i]);
            assert(out@ =~= before + source@.subrange(start as int, start + i + 1));
            i = i + 1;
        }
        row = row + 1;
    }
    Ok((w, h, out))
}

/// A staging texture must be made anew when there is none, or when its size
/// differs from the captured texture's.
pub fn needs_new_staging_texture(existing: Option<(u32, u32)>, source_width: u32, source_height: u32) -> (r:
    bool)
    ensures
        r == match existing {
            Some((w, h)) => w != source_width || h != source_height,
            None => true,
        },
{
    match existing {
        Some((w, h)) => w != source_width || h != source_height,
        None => true,
    }
}

} // verus!
