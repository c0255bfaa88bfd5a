//! The selection overlay: which cursor it shows, hit tests on whole pixels,
//! annotation colors, and the BGRA pixel buffer it paints.
use vstd::prelude::*;

use vstd::arithmetic::div_mod::{lemma_fundamental_div_mod, lemma_fundamental_div_mod_converse};

use crate::native::{
    NativeInteractionDragMode, NativeInteractionHitRegion, NativeInteractionMode,
    NativeInteractionSelectionHandle,
};
use crate::text::{chars_of, is_ascii_digit, is_ascii_hex, is_ws, trim, trim_chars};

verus! {

// ---------------------------------------------------------------------------
// Cursors
// ---------------------------------------------------------------------------

/// The cursor shown over the overlay.
#[derive(Debug, Clone, Copy, PartialEq, Eq, Structural)]
pub enum NativeInteractionCursorKind {
    Crosshair,
    Move,
    NotAllowed,
    ResizeNs,
    ResizeWe,
    ResizeNwse,
    ResizeNesw,
}

/// The resize cursor of a handle: vertical for N and S, horizontal for E
/// and W, and the diagonal through the corner for the corners.
pub open spec fn handle_cursor(h: NativeInteractionSelectionHandle) -> NativeInteractionCursorKind {
    match h {
        NativeInteractionSelectionHandle::N | NativeInteractionSelectionHandle::S => NativeInteractionCursorKind::ResizeNs,
        NativeInteractionSelectionHandle::E | NativeInteractionSelectionHandle::W => NativeInteractionCursorKind::ResizeWe,
        NativeInteractionSelectionHandle::Nw | NativeInteractionSelectionHandle::Se => NativeInteractionCursorKind::ResizeNwse,
        NativeInteractionSelectionHandle::Ne | NativeInteractionSelectionHandle::Sw => NativeInteractionCursorKind::ResizeNesw,
    }
}

pub fn cursor_kind_for_handle(handle: NativeInteractionSelectionHandle) -> (r: NativeInteractionCursorKind)
    ensures
        r == handle_cursor(handle),
{
    match handle {
        NativeInteractionSelectionHandle::N | NativeInteractionSelectionHandle::S => NativeInteractionCursorKind::ResizeNs,
        NativeInteractionSelectionHandle::E | NativeInteractionSelectionHandle::W => NativeInteractionCursorKind::ResizeWe,
        NativeInteractionSelectionHandle::Nw | NativeInteractionSelectionHandle::Se => NativeInteractionCursorKind::ResizeNwse,
        NativeInteractionSelectionHandle::Ne | NativeInteractionSelectionHandle::Sw => NativeInteractionCursorKind::ResizeNesw,
    }
}

/// The cursor for the overlay's state: a drag under way decides (a crosshair
/// while drawing, a move cursor while moving, the handle's cursor while
/// resizing); otherwise the selection tool shows what lies under the
/// pointer (outside an existing selection nothing may be started), and the
/// annotation tools show a crosshair.
pub open spec fn state_cursor(
    drag_mode: Option<NativeInteractionDragMode>,
    interaction_mode: NativeInteractionMode,
    hovered: NativeInteractionHitRegion,
    has_selection: bool,
) -> NativeInteractionCursorKind {
    match drag_mode {
        Some(d) => match d {
            NativeInteractionDragMode::Moving | NativeInteractionDragMode::ShapeMoving
            | NativeInteractionDragMode::ShapeStartMoving
            | NativeInteractionDragMode::ShapeEndMoving => NativeInteractionCursorKind::Move,
            NativeInteractionDragMode::Resizing(h) | NativeInteractionDragMode::ShapeResizing(h) => handle_cursor(h),
            _ => NativeInteractionCursorKind::Crosshair,
        },
        None => match interaction_mode {
            NativeInteractionMode::Selection => match hovered {
                NativeInteractionHitRegion::NoHit => if has_selection {
                    NativeInteractionCursorKind::NotAllowed
                } else {
                    NativeInteractionCursorKind::Crosshair
                },
                NativeInteractionHitRegion::Handle(h) | NativeInteractionHitRegion::ShapeHandle(h) => handle_cursor(h),
                _ => NativeInteractionCursorKind::Move,
            },
            _ => NativeInteractionCursorKind::Crosshair,
        },
    }
}

/// The cursor for the overlay's drag, tool, hovered region and whether a
/// selection exists (see `state_cursor`).
pub fn cursor_kind_for_state(
    drag_mode: Option<NativeInteractionDragMode>,
    interaction_mode: NativeInteractionMode,
    hovered: NativeInteractionHitRegion,
    has_selection: bool,
) -> (r: NativeInteractionCursorKind)
    ensures
        r == state_cursor(drag_mode, interaction_mode, hovered, has_selection),
{
    if let Some(d) = drag_mode {
        return match d {
            NativeInteractionDragMode::Creating => NativeInteractionCursorKind::Crosshair,
            NativeInteractionDragMode::Moving => NativeInteractionCursorKind::Move,
            NativeInteractionDragMode::Resizing(h) => cursor_kind_for_handle(h),
            NativeInteractionDragMode::ShapeMoving => NativeInteractionCursorKind::Move,
            NativeInteractionDragMode::ShapeStartMoving
            | NativeInteractionDragMode::ShapeEndMoving => NativeInteractionCursorKind::Move,
            NativeInteractionDragMode::ShapeResizing(h) => cursor_kind_for_handle(h),
            NativeInteractionDragMode::LineCreating | NativeInteractionDragMode::RectCreating
            | NativeInteractionDragMode::EllipseCreating
            | NativeInteractionDragMode::ArrowCreating => NativeInteractionCursorKind::Crosshair,
        };
    }
    match interaction_mode {
        NativeInteractionMode::Selection => match hovered {
            NativeInteractionHitRegion::NoHit => {
                if has_selection {
                    NativeInteractionCursorKind::NotAllowed
                } else {
                    NativeInteractionCursorKind::Crosshair
                }
            },
            NativeInteractionHitRegion::SelectionBody => NativeInteractionCursorKind::Move,
            NativeInteractionHitRegion::Handle(h) => cursor_kind_for_handle(h),
            NativeInteractionHitRegion::ShapeBody => NativeInteractionCursorKind::Move,
            NativeInteractionHitRegion::ShapeStart | NativeInteractionHitRegion::ShapeEnd => NativeInteractionCursorKind::Move,
            NativeInteractionHitRegion::ShapeHandle(h) => cursor_kind_for_handle(h),
        },
        NativeInteractionMode::LineAnnotation | NativeInteractionMode::RectAnnotation
        | NativeInteractionMode::EllipseAnnotation
        | NativeInteractionMode::ArrowAnnotation => NativeInteractionCursorKind::Crosshair,
    }
}

// ---------------------------------------------------------------------------
// Hit tests
// ---------------------------------------------------------------------------

/// `a + b`, kept within `i32`.
pub open spec fn sat_add_i32(a: int, b: int) -> int {
    if a + b > i32::MAX {
        i32::MAX as int
    } else if a + b < i32::MIN {
        i32::MIN as int
    } else {
        a + b
    }
}

/// Whether the point lies in the box (left and top edges included; a
/// negative size counts as zero; the far edges saturate at `i32::MAX`).
pub open spec fn in_box(x: i32, y: i32, left: i32, top: i32, width: i32, height: i32) -> bool {
    &&& x >= left
    &&& x < sat_add_i32(left as int, if width > 0 { width as int } else { 0 })
    &&& y >= top
    &&& y < sat_add_i32(top as int, if height > 0 { height as int } else { 0 })
}

pub fn point_in_box(x: i32, y: i32, left: i32, top: i32, width: i32, height: i32) -> (r: bool)
    ensures
        r == in_box(x, y, left, top, width, height),
{
    let w: i32 = if width > 0 { width } else { 0 };
    let h: i32 = if height > 0 { height } else { 0 };
    let right: i32 = if left > i32::MAX - w {
        i32::MAX
    } else {
        left + w
    };
    let bottom: i32 = if top > i32::MAX - h {
        i32::MAX
    } else {
        top + h
    };
    x >= left && x < right && y >= top && y < bottom
}

// ---------------------------------------------------------------------------
// Colors
// ---------------------------------------------------------------------------

/// The value of a hexadecimal digit.
pub open spec fn hex_value(c: char) -> int {
    if is_ascii_digit(c) {
        c as int - '0' as int
    } else if 'a' <= c && c <= 'f' {
        c as int - 'a' as int + 10
    } else {
        c as int - 'A' as int + 10
    }
}

/// Two characters read as a hexadecimal byte: two digits, or `+` and one
/// digit.
pub open spec fn hex_pair(a: char, b: char) -> Option<u8> {
    if a == '+' {
        if is_ascii_hex(b) {
            Some(hex_value(b) as u8)
        } else {
            None
        }
    } else if is_ascii_hex(a) && is_ascii_hex(b) {
        Some((16 * hex_value(a) + hex_value(b)) as u8)
    } else {
        None
    }
}

/// The text without its leading `#` characters.
pub open spec fn strip_hashes(s: Seq<char>) -> Seq<char>
    decreases s.len(),
{
    if s.len() > 0 && s[0] == '#' {
        strip_hashes(s.drop_first())
    } else {
        s
    }
}

pub open spec fn all_ascii(s: Seq<char>) -> bool {
    forall|i: int| 0 <= i < s.len() ==> #[trigger] s[i] <= '\x7f'
}

/// The digits of a color: the trimmed text without leading `#`.
pub open spec fn color_digits(color: Seq<char>) -> Seq<char> {
    strip_hashes(trim(color))
}

/// A color text in ASCII read as `[blue, green, red, 255]`: six digits
/// `RRGGBB`, or three digits `RGB` each doubled.
pub open spec fn color_bgra(color: Seq<char>) -> Option<Seq<u8>> {
    let v = color_digits(color);
    if !all_ascii(v) {
        None
    } else if v.len() == 6 {
        match (hex_pair(v[0], v[1]), hex_pair(v[2], v[3]), hex_pair(v[4], v[5])) {
            (Some(r), Some(g), Some(b)) => Some(seq![b, g, r, 0xFFu8]),
            _ => None,
        }
    } else if v.len() == 3 {
        match (hex_pair(v[0], v[0]), hex_pair(v[1], v[1]), hex_pair(v[2], v[2])) {
            (Some(r), Some(g), Some(b)) => Some(seq![b, g, r, 0xFFu8]),
            _ => None,
        }
    } else {
        None
    }
}

/// Whether the text has a character boundary at byte `n`.
pub open spec fn byte_boundary(v: Seq<char>, n: int) -> bool {
    exists|k: int| 0 <= k <= v.len() && crate::text::utf8_len(#[trigger] v.take(k)) == n
}

/// Whether a color text can be read without cutting a character in two:
/// a three-byte text must be ASCII, and a six-byte one must have character
/// boundaries at bytes 2 and 4.
pub open spec fn color_text_readable(color: Seq<char>) -> bool {
    let v = color_digits(color);
    all_ascii(v) || (crate::text::utf8_len(v) != 3 && (crate::text::utf8_len(v) == 6 ==> (
    byte_boundary(v, 2) && byte_boundary(v, 4))))
}

fn hex_digit(c: char) -> (r: Option<u8>)
    ensures
        match r {
            Some(d) => is_ascii_hex(c) && d == hex_value(c),
            None => !is_ascii_hex(c),
        },
{
    if '0' <= c && c <= '9' {
        Some(((c as u32) - ('0' as u32)) as u8)
    } else if 'a' <= c && c <= 'f' {
        Some(((c as u32) - ('a' as u32) + 10) as u8)
    } else if 'A' <= c && c <= 'F' {
        Some(((c as u32) - ('A' as u32) + 10) as u8)
    } else {
        None
    }
}

fn read_hex_pair(a: char, b: char) -> (r: Option<u8>)
    ensures
        r == hex_pair(a, b),
{
    if a == '+' {
        return hex_digit(b);
    }
    match (hex_digit(a), hex_digit(b)) {
        (Some(x), Some(y)) => Some(16 * x + y),
        _ => None,
    }
}

/// Reads an annotation color (see `color_bgra`); `None` when there is none
/// or it is not a color.
pub fn parse_color_rgba(color_hex: Option<&str>) -> (r: Option<[u8; 4]>)
    requires
        color_hex matches Some(c) ==> color_text_readable(c@),
    ensures
        match color_hex {
            Some(c) => match color_bgra(c@) {
                Some(px) => r matches Some(out) && out@ == px,
                None => r is None,
            },
            None => r is None,
        },
{
    let text = match color_hex {
        Some(c) => c,
        None => {
            return None;
        },
    };
    let t = trim_chars(text);
    let mut start: usize = 0;
    assert(t@.skip(0) =~= t@);
    while start < t.len() && t[start] == '#'
        invariant
            start <= t@.len(),
            strip_hashes(t@) == strip_hashes(t@.skip(start as int)),
        decreases t@.len() - start,
    {
        assert(t@.skip(start as int).drop_first() =~= t@.skip(start + 1));
        start = start + 1;
    }
    let v = crate::text::slice_chars(t.as_slice(), start, t.len());
    assert(v@ =~= t@.skip(start as int));
    assert(strip_hashes(v@) == v@);
    assert(color_digits(text@) == v@);
    let mut i: usize = 0;
    while i < v.len()
        invariant
            i <= v@.len(),
            forall|k: int| 0 <= k < i ==> #[trigger] v@[k] <= '\x7f',
            color_digits(text@) == v@,
            color_hex == Some(text),
        decreases v@.len() - i,
    {
        if v[i] > '\x7f' {
            assert(!all_ascii(v@));
            return None;
        }
        i = i + 1;
    }
    let (r, g, b) = if v.len() == 6 {
        (read_hex_pair(v[0], v[1]), read_hex_pair(v[2], v[3]), read_hex_pair(v[4], v[5]))
    } else if v.len() == 3 {
        (read_hex_pair(v[0], v[0]), read_hex_pair(v[1], v[1]), read_hex_pair(v[2], v[2]))
    } else {
        return None;
    };
    match (r, g, b) {
        (Some(r), Some(g), Some(b)) => {
            let out: [u8; 4] = [b, g, r, 0xFF];
            assert(out@ =~= seq![b, g, r, 0xFFu8]);
            Some(out)
        },
        _ => None,
    }
}

// ---------------------------------------------------------------------------
// Pixels
// ---------------------------------------------------------------------------

/// The dimmed color laid over the screen outside the selection (BGRA).
pub const MASK_COLOR: [u8; 4] = [0x28u8, 0x28u8, 0x28u8, 104u8];

/// The color of the selection border and of new annotations (BGRA).
pub const BORDER_COLOR: [u8; 4] = [0x8Fu8, 0xD0u8, 0x00u8, 0xFFu8];

/// A buffer of `expected` bytes whose whole pixels are the mask color; the
/// bytes of a last partial pixel stay zero.
pub fn build_base_mask_buffer(expected: usize) -> (r: Vec<u8>)
    ensures
        r@.len() == expected,
        forall|i: int|
            0 <= i < expected ==> #[trigger] r@[i] == if i < expected - expected % 4 {
                MASK_COLOR@[i % 4]
            } else {
                0u8
            },
{
    let whole: usize = expected - expected % 4;
    let mut buffer: Vec<u8> = Vec::new();
    let mut i: usize = 0;
    while i < expected
        invariant
            i <= expected,
            whole == expected - expected % 4,
            buffer@.len() == i,
            forall|k: int|
                0 <= k < i ==> #[trigger] buffer@[k] == if k < whole {
                    MASK_COLOR@[k % 4]
                } else {
                    0u8
                },
        decreases expected - i,
    {
        if i < whole {
            buffer.push(MASK_COLOR[i % 4]);
        } else {
            buffer.push(0);
        }
        i = i + 1;
    }
    buffer
}

/// The part of a rectangle (left, top, width, height; negative values
/// clamped to zero) that lies on a `width` by `height` canvas, as column and
/// row bounds `(left, top, right, bottom)`, the far ones excluded.
pub open spec fn clipped(left: i32, top: i32, rect_width: i32, rect_height: i32, width: nat, height: nat) -> (
    int,
    int,
    int,
    int,
) {
    let l: int = if left > 0 { left as int } else { 0 };
    let t: int = if top > 0 { top as int } else { 0 };
    let w: int = if rect_width > 0 { rect_width as int } else { 0 };
    let h: int = if rect_height > 0 { rect_height as int } else { 0 };
    (l, t, if l + w < width { l + w } else { width as int }, if t + h < height {
        t + h
    } else {
        height as int
    })
}

/// Whether byte `i` of a canvas `width` pixels wide (four bytes a pixel,
/// row after row) belongs to a pixel in columns `l..r` and rows `t..b`.
pub open spec fn byte_in(i: int, width: nat, c: (int, int, int, int)) -> bool {
    width > 0 && c.1 <= (i / 4) / (width as int) < c.3 && c.0 <= (i / 4) % (width as int) < c.2
}

proof fn lemma_pixel_byte(width: int, row: int, col: int, k: int)
    requires
        width > 0,
        row >= 0,
        0 <= col < width,
        0 <= k < 4,
    ensures
        ((row * width + col) * 4 + k) / 4 == row * width + col,
        ((row * width + col) * 4 + k) % 4 == k,
        (row * width + col) / width == row,
        (row * width + col) % width == col,
{
    lemma_fundamental_div_mod_converse((row * width + col) * 4 + k, 4, row * width + col, k);
    lemma_fundamental_div_mod_converse(row * width + col, width, row, col);
}

/// Paints `value(k)` (`k` the byte within the pixel) over the pixels of the
/// clipped rectangle of a BGRA buffer; all other bytes are unchanged.
fn paint_rect(
    buffer: &mut Vec<u8>,
    width: usize,
    height: usize,
    left: i32,
    top: i32,
    rect_width: i32,
    rect_height: i32,
    color: [u8; 4],
)
    requires
        width * height * 4 <= old(buffer)@.len(),
    ensures
        final(buffer)@.len() == old(buffer)@.len(),
        forall|i: int|
            0 <= i < old(buffer)@.len() ==> #[trigger] final(buffer)@[i] == if byte_in(
                i,
                width as nat,
                clipped(left, top, rect_width, rect_height, width as nat, height as nat),
            ) {
                color@[i % 4]
            } else {
                old(buffer)@[i]
            },
{
    let ghost c = clipped(left, top, rect_width, rect_height, width as nat, height as nat);
    let ghost original = buffer@;
    let n: usize = buffer.len();
    let l: u64 = if left > 0 { left as u64 } else { 0 };
    let t: u64 = if top > 0 { top as u64 } else { 0 };
    let w: u64 = if rect_width > 0 { rect_width as u64 } else { 0 };
    let h: u64 = if rect_height > 0 { rect_height as u64 } else { 0 };
    let right: u64 = if l + w < width as u64 { l + w } else { width as u64 };
    let bottom: u64 = if t + h < height as u64 { t + h } else { height as u64 };
    assert(c == (l as int, t as int, right as int, bottom as int));
    if width == 0 || l >= right || t >= bottom {
        assert forall|i: int| 0 <= i < original.len() implies !byte_in(i, width as nat, c) by {}
        return;
    }
    let l: usize = l as usize;
    let t: usize = t as usize;
    let right: usize = right as usize;
    let bottom: usize = bottom as usize;
    let mut row: usize = t;
    while row < bottom
        invariant
            c == (l as int, t as int, right as int, bottom as int),
            0 < width,
            l < right <= width,
            t <= row <= bottom <= height,
            width * height * 4 <= original.len(),
            original.len() == n,
            buffer@.len() == original.len(),
            forall|i: int|
                0 <= i < original.len() ==> #[trigger] buffer@[i] == if width > 0 && t <= (i / 4)
                    / (width as int) < row && l <= (i / 4) % (width as int) < right {
                    color@[i % 4]
                } else {
                    original[i]
                },
        decreases bottom - row,
    {
        proof {
            assert(row * width + width <= height * width) by (nonlinear_arith)
                requires
                    row < height,
            ;
            assert(row * width * 4 + width * 4 <= width * height * 4) by (nonlinear_arith)
                requires
                    row * width + width <= height * width,
            ;
        }
        let row_start: usize = row * width * 4;
        let mut column: usize = l;
        while column < right
            invariant
                c == (l as int, t as int, right as int, bottom as int),
                0 < width,
                l <= column <= right <= width,
                t <= row < bottom <= height,
                row * width + width <= height * width,
                row_start == row * width * 4,
                width * height * 4 <= original.len(),
                original.len() == n,
                buffer@.len() == original.len(),
                forall|i: int|
                    0 <= i < original.len() ==> #[trigger] buffer@[i] == if (t <= (i / 4)
                        / (width as int) < row && l <= (i / 4) % (width as int) < right) || ((i
                        / 4) / (width as int) == row && l <= (i / 4) % (width as int) < column) {
                        color@[i % 4]
                    } else {
                        original[i]
                    },
            decreases right - column,
        {
            let ghost before = buffer@;
            assert(row_start + column * 4 + 4 <= n) by (nonlinear_arith)
                requires
                    row_start == row * width * 4,
                    column < width,
                    row * width + width <= height * width,
                    width * height * 4 <= n,
            ;
            let offset: usize = row_start + column * 4;
            assert(offset == (row * width + column) * 4) by (nonlinear_arith)
                requires
                    offset == row_start + column * 4,
                    row_start == row * width * 4,
            ;
            proof {
                assert(row * width + column < height * width);
                assert((row * width + column) * 4 + 3 < original.len()) by (nonlinear_arith)
                    requires
                        row * width + column < height * width,
                        width * height * 4 <= original.len(),
                ;
                lemma_pixel_byte(width as int, row as int, column as int, 0);
                lemma_pixel_byte(width as int, row as int, column as int, 1);
                lemma_pixel_byte(width as int, row as int, column as int, 2);
                lemma_pixel_byte(width as int, row as int, column as int, 3);
            }
            buffer.set(offset, color[0]);
            buffer.set(offset + 1, color[1]);
            buffer.set(offset + 2, color[2]);
            buffer.set(offset + 3, color[3]);
            proof {
                assert forall|i: int| 0 <= i < original.len() implies #[trigger] buffer@[i] == if (t
                    <= (i / 4) / (width as int) < row && l <= (i / 4) % (width as int) < right)
                    || ((i / 4) / (width as int) == row && l <= (i / 4) % (width as int) < column
                    + 1) {
                    color@[i % 4]
                } else {
                    original[i]
                } by {
                    if offset <= i < offset + 4 {
                        lemma_pixel_byte(width as int, row as int, column as int, i - offset);
                    } else {
                        assert(buffer@[i] == before[i]);
                        if (i / 4) / (width as int) == row && (i / 4) % (width as int) == column {
                            lemma_fundamental_div_mod(i / 4, width as int);
                            lemma_fundamental_div_mod(i, 4);
                            assert(i / 4 == row * width + column) by (nonlinear_arith)
                                requires
                                    i / 4 == (width as int) * ((i / 4) / (width as int)) + (i / 4) % (
                                    width as int),
                                    (i / 4) / (width as int) == row,
                                    (i / 4) % (width as int) == column,
                            ;
                            assert(offset <= i < offset + 4);
                        }
                    }
                }
            }
            column = column + 1;
        }
        proof {
            assert forall|i: int| 0 <= i < original.len() implies #[trigger] buffer@[i] == if width
                > 0 && t <= (i / 4) / (width as int) < row + 1 && l <= (i / 4) % (width as int)
                < right {
                color@[i % 4]
            } else {
                original[i]
            } by {}
        }
        row = row + 1;
    }
}

/// Fills the clipped rectangle of a BGRA buffer `width` by `height` pixels
/// with `color`; other pixels are unchanged.
pub fn fill_rect(
    buffer: &mut Vec<u8>,
    width: usize,
    height: usize,
    left: i32,
    top: i32,
    rect_width: i32,
    rect_height: i32,
    color: [u8; 4],
)
    requires
        width * height * 4 <= old(buffer)@.len(),
    ensures
        final(buffer)@.len() == old(buffer)@.len(),
        forall|i: int|
            0 <= i < old(buffer)@.len() ==> #[trigger] final(buffer)@[i] == if byte_in(
                i,
                width as nat,
                clipped(left, top, rect_width, rect_height, width as nat, height as nat),
            ) {
                color@[i % 4]
            } else {
                old(buffer)@[i]
            },
{
    paint_rect(buffer, width, height, left, top, rect_width, rect_height, color);
}

/// Makes the clipped rectangle of a BGRA buffer fully transparent (all
/// bytes zero); other pixels are unchanged.
pub fn clear_rect_transparent(
    buffer: &mut Vec<u8>,
    width: usize,
    height: usize,
    left: i32,
    top: i32,
    rect_width: i32,
    rect_height: i32,
)
    requires
        width * height * 4 <= old(buffer)@.len(),
    ensures
        final(buffer)@.len() == old(buffer)@.len(),
        forall|i: int|
            0 <= i < old(buffer)@.len() ==> #[trigger] final(buffer)@[i] == if byte_in(
                i,
                width as nat,
                clipped(left, top, rect_width, rect_height, width as nat, height as nat),
            ) {
                0u8
            } else {
                old(buffer)@[i]
            },
{
    let clear: [u8; 4] = [0u8, 0u8, 0u8, 0u8];
    paint_rect(buffer, width, height, left, top, rect_width, rect_height, clear);
    assert(clear@ =~= seq![0u8, 0u8, 0u8, 0u8]);
}

/// The drag a press of the left button starts, if any, from the tool in
/// use, the shape part and the selection part under the pointer, whether a
/// selection exists, and whether the pointer is inside it. A shape part
/// under the pointer is dragged first. Otherwise: with the selection tool,
/// a selection handle resizes, the selection body moves, and a press
/// elsewhere creates a selection unless one exists (then nothing starts);
/// with a drawing tool, a press inside the selection draws that tool's
/// shape, and a press anywhere else starts nothing.
pub open spec fn press_drag(
    mode: NativeInteractionMode,
    shape_hit: NativeInteractionHitRegion,
    selection_hit: NativeInteractionHitRegion,
    has_selection: bool,
    inside_selection: bool,
) -> Option<NativeInteractionDragMode> {
    match shape_hit {
        NativeInteractionHitRegion::ShapeStart => Some(NativeInteractionDragMode::ShapeStartMoving),
        NativeInteractionHitRegion::ShapeEnd => Some(NativeInteractionDragMode::ShapeEndMoving),
        NativeInteractionHitRegion::ShapeBody => Some(NativeInteractionDragMode::ShapeMoving),
        NativeInteractionHitRegion::ShapeHandle(h) => Some(NativeInteractionDragMode::ShapeResizing(h)),
        _ => match mode {
            NativeInteractionMode::Selection => match selection_hit {
                NativeInteractionHitRegion::Handle(h) => Some(NativeInteractionDragMode::Resizing(h)),
                NativeInteractionHitRegion::SelectionBody => Some(NativeInteractionDragMode::Moving),
                NativeInteractionHitRegion::NoHit => if has_selection {
                    None
                } else {
                    Some(NativeInteractionDragMode::Creating)
                },
                _ => Some(NativeInteractionDragMode::Creating),
            },
            _ => if !has_selection || !inside_selection {
                None
            } else {
                match mode {
                    NativeInteractionMode::LineAnnotation => Some(NativeInteractionDragMode::LineCreating),
                    NativeInteractionMode::EllipseAnnotation => Some(
                        NativeInteractionDragMode::EllipseCreating,
                    ),
                    NativeInteractionMode::ArrowAnnotation => Some(NativeInteractionDragMode::ArrowCreating),
                    _ => Some(NativeInteractionDragMode::RectCreating),
                }
            },
        },
    }
}

/// A press inside the selection, on no shape, with a drawing tool starts
/// the drawing of that tool's own shape: the drag is named after the tool
/// (`ellipse_annotation` starts `ellipse_creating`, `arrow_annotation`
/// starts `arrow_creating`, and so on). Outside the selection, or without
/// one, a drawing tool starts nothing.
pub proof fn law_drawing_tool_draws_its_own_shape(
    mode: NativeInteractionMode,
    shape_hit: NativeInteractionHitRegion,
    selection_hit: NativeInteractionHitRegion,
    has_selection: bool,
    inside_selection: bool,
)
    requires
        mode != NativeInteractionMode::Selection,
        !(shape_hit is ShapeStart || shape_hit is ShapeEnd || shape_hit is ShapeBody
            || shape_hit is ShapeHandle),
    ensures
        has_selection && inside_selection ==> (press_drag(
            mode,
            shape_hit,
            selection_hit,
            has_selection,
            inside_selection,
        ) matches Some(d) && mode.spec_name().subrange(
            mode.spec_name().len() - 11,
            mode.spec_name().len() as int,
        ) == "_annotation"@ && d.spec_name() == mode.spec_name().subrange(
            0,
            mode.spec_name().len() - 11,
        ) + "_creating"@),
        !(has_selection && inside_selection) ==> press_drag(
            mode,
            shape_hit,
            selection_hit,
            has_selection,
            inside_selection,
        ) is None,
{
    reveal_strlit("line_annotation");
    reveal_strlit("rect_annotation");
    reveal_strlit("ellipse_annotation");
    reveal_strlit("arrow_annotation");
    reveal_strlit("line_creating");
    reveal_strlit("rect_creating");
    reveal_strlit("ellipse_creating");
    reveal_strlit("arrow_creating");
    reveal_strlit("_annotation");
    reveal_strlit("_creating");
    let m = mode.spec_name();
    if has_selection && inside_selection {
        let d = press_drag(mode, shape_hit, selection_hit, has_selection, inside_selection)->Some_0;
        assert(m.subrange(m.len() - 11, m.len() as int) =~= "_annotation"@);
        assert(d.spec_name() =~= m.subrange(0, m.len() - 11) + "_creating"@);
    }
}

/// A shape under the pointer is dragged whatever the tool: its body moves
/// it, its ends move those ends, and its handle resizes it by that handle.
/// Otherwise, with the selection tool, a handle of the selection resizes it
/// by that handle, its body moves it, and a press on nothing creates a
/// selection only when there is none yet.
pub proof fn law_press_drags_what_is_under_the_pointer(
    mode: NativeInteractionMode,
    shape_hit: NativeInteractionHitRegion,
    selection_hit: NativeInteractionHitRegion,
    has_selection: bool,
    inside_selection: bool,
)
    ensures
        ({
            let r = press_drag(mode, shape_hit, selection_hit, has_selection, inside_selection);
            &&& shape_hit is ShapeBody ==> r == Some(NativeInteractionDragMode::ShapeMoving)
            &&& shape_hit is ShapeStart ==> r == Some(NativeInteractionDragMode::ShapeStartMoving)
            &&& shape_hit is ShapeEnd ==> r == Some(NativeInteractionDragMode::ShapeEndMoving)
            &&& shape_hit matches NativeInteractionHitRegion::ShapeHandle(h) ==> r == Some(
                NativeInteractionDragMode::ShapeResizing(h),
            )
            &&& (shape_hit is NoHit && mode == NativeInteractionMode::Selection) ==> {
                &&& selection_hit matches NativeInteractionHitRegion::Handle(h) ==> r == Some(
                    NativeInteractionDragMode::Resizing(h),
                )
                &&& selection_hit is SelectionBody ==> r == Some(NativeInteractionDragMode::Moving)
                &&& selection_hit is NoHit ==> (r is Some <==> !has_selection)
            }
        }),
{
}

/// The drag a press starts (see `press_drag`).
pub fn press_drag_mode(
    mode: NativeInteractionMode,
    shape_hit: NativeInteractionHitRegion,
    selection_hit: NativeInteractionHitRegion,
    has_selection: bool,
    inside_selection: bool,
) -> (r: Option<NativeInteractionDragMode>)
    ensures
        r == press_drag(mode, shape_hit, selection_hit, has_selection, inside_selection),
{
    match shape_hit {
        NativeInteractionHitRegion::ShapeStart => Some(NativeInteractionDragMode::ShapeStartMoving),
        NativeInteractionHitRegion::ShapeEnd => Some(NativeInteractionDragMode::ShapeEndMoving),
        NativeInteractionHitRegion::ShapeBody => Some(NativeInteractionDragMode::ShapeMoving),
        NativeInteractionHitRegion::ShapeHandle(h) => Some(NativeInteractionDragMode::ShapeResizing(h)),
        _ => match mode {
            NativeInteractionMode::Selection => match selection_hit {
                NativeInteractionHitRegion::Handle(h) => Some(NativeInteractionDragMode::Resizing(h)),
                NativeInteractionHitRegion::SelectionBody => Some(NativeInteractionDragMode::Moving),
                NativeInteractionHitRegion::NoHit => if has_selection {
                    None
                } else {
                    Some(NativeInteractionDragMode::Creating)
                },
                _ => Some(NativeInteractionDragMode::Creating),
            },
            _ => if !has_selection || !inside_selection {
                None
            } else {
                match mode {
                    NativeInteractionMode::LineAnnotation => Some(NativeInteractionDragMode::LineCreating),
                    NativeInteractionMode::EllipseAnnotation => Some(
                        NativeInteractionDragMode::EllipseCreating,
                    ),
                    NativeInteractionMode::ArrowAnnotation => Some(NativeInteractionDragMode::ArrowCreating),
                    _ => Some(NativeInteractionDragMode::RectCreating),
                }
            },
        },
    }
}

} // verus!
