//! Tray menu actions and the tray icon bitmap.

use vstd::prelude::*;

verus! {

/// What the tray icon or its menu asks for.
#[derive(Debug, Clone, Copy, PartialEq, Eq, Structural)]
pub enum TrayAction {
    OpenSettings,
    About,
    Quit,
}

/// Side of the square tray icon, in pixels.
pub const ICON_SIZE: usize = 16;

/// Byte `i` of the 16×16 RGBA tray icon: every pixel is blue (79, 140, 255); the
/// inner 8×8 square is opaque, the ring around it is 180/255 opaque, and the
/// outer border is transparent.
pub open spec fn icon_byte(i: int) -> u8 {
    let p = i / 4;
    let x = p % 16;
    let y = p / 16;
    let c = i % 4;
    if c == 0 {
        79
    } else if c == 1 {
        140
    } else if c == 2 {
        255
    } else if 4 <= x < 12 && 4 <= y < 12 {
        255
    } else if 3 <= x < 13 && 3 <= y < 13 {
        180
    } else {
        0
    }
}

/// The tray icon as RGBA bytes, row by row.
pub fn simple_tray_rgba() -> (rgba: Vec<u8>)
    ensures
        rgba@.len() == ICON_SIZE * ICON_SIZE * 4,
        forall|i: int| 0 <= i < rgba@.len() ==> #[trigger] rgba@[i] == icon_byte(i),
{
    let total: usize = ICON_SIZE * ICON_SIZE * 4;
    let mut rgba: Vec<u8> = Vec::new();
    let mut i: usize = 0;
    while i < total
        invariant
            total == 1024,
            i <= total,
            rgba@.len() == i,
            forall|j: int| 0 <= j < i ==> #[trigger] rgba@[j] == icon_byte(j),
        decreases total - i,
    {
        let p = i / 4;
        let x = p % 16;
        let y = p / 16;
        let c = i % 4;
        let v: u8 = if c == 0 {
            79
        } else if c == 1 {
            140
        } else if c == 2 {
            255
        } else if 4 <= x && x < 12 && 4 <= y && y < 12 {
            255
        } else if 3 <= x && x < 13 && 3 <= y && y < 13 {
            180
        } else {
            0
        };
        rgba.push(v);
        i = i + 1;
    }
    rgba
}

} // verus!
