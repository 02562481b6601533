//! The tray icon's picture: a filled disc in one colour, and the colour that each
//! log level shows.

use vstd::arithmetic::div_mod::lemma_fundamental_div_mod_converse;
use vstd::prelude::*;

verus! {

/// The width and the height of the icon, in pixels.
pub const ICON_SIZE: usize = 32;

/// The severity of a log record.
#[derive(Debug, Clone, Copy, PartialEq, Eq, Structural)]
pub enum LogLevel {
    Error,
    Warn,
    Info,
    Debug,
    Trace,
}

/// The colour (red, green, blue, alpha) that the icon takes for a log record of a level.
pub open spec fn spec_level_rgba(level: LogLevel) -> Seq<u8> {
    match level {
        LogLevel::Error => seq![255u8, 0, 0, 255],
        LogLevel::Warn => seq![255u8, 0xAE, 0x42, 255],
        LogLevel::Info => seq![0u8, 255, 0, 255],
        LogLevel::Debug => seq![105u8, 105, 105, 255],
        LogLevel::Trace => seq![255u8, 255, 255, 255],
    }
}

/// The colour that the icon takes for a log record of `level`.
pub fn level_to_rgba(level: LogLevel) -> (color: [u8; 4])
    ensures
        color@ == spec_level_rgba(level),
{
    let color: [u8; 4] = match level {
        LogLevel::Error => [255, 0, 0, 255],
        LogLevel::Warn => [255, 0xAE, 0x42, 255],
        LogLevel::Info => [0, 255, 0, 255],
        LogLevel::Debug => [105, 105, 105, 255],
        LogLevel::Trace => [255, 255, 255, 255],
    };
    assert(color@ =~= spec_level_rgba(level));
    color
}

/// Whether pixel (`x`, `y`) lies on the disc of radius 15 around (16, 16).
pub open spec fn in_disc(x: int, y: int) -> bool {
    (x - 16) * (x - 16) + (y - 16) * (y - 16) <= 15 * 15
}

/// Byte `i` of the icon's pixels, row by row and four bytes (red, green, blue,
/// alpha) per pixel: the colour's byte on the disc, 0 elsewhere.
pub open spec fn icon_byte(color: Seq<u8>, i: int) -> u8 {
    let pixel = i / 4;
    if in_disc(pixel % 32, pixel / 32) {
        color[i % 4]
    } else {
        0
    }
}

proof fn lemma_pixel_index(x: int, y: int, j: int)
    requires
        0 <= x < 32,
        0 <= y < 32,
        0 <= j < 4,
    ensures
        (128 * y + 4 * x + j) / 4 == 32 * y + x,
        (128 * y + 4 * x + j) % 4 == j,
        (32 * y + x) % 32 == x,
        (32 * y + x) / 32 == y,
{
    lemma_fundamental_div_mod_converse(128 * y + 4 * x + j, 4, 32 * y + x, j);
    lemma_fundamental_div_mod_converse(32 * y + x, 32, y, x);
}

/// The icon's pixels in RGBA: a disc in `color` on a transparent ground.
pub fn gen_icon_rgba(color: [u8; 4]) -> (rgba: Vec<u8>)
    ensures
        rgba@.len() == 4 * ICON_SIZE * ICON_SIZE,
        forall|i: int| 0 <= i < rgba@.len() ==> #[trigger] rgba@[i] == icon_byte(color@, i),
{
    let mut rgba: Vec<u8> = Vec::new();
    for y in 0..ICON_SIZE
        invariant
            rgba@.len() == 128 * y,
            forall|i: int| 0 <= i < rgba@.len() ==> #[trigger] rgba@[i] == icon_byte(color@, i),
    {
        for x in 0..ICON_SIZE
            invariant
                0 <= y < 32,
                rgba@.len() == 128 * y + 4 * x,
                forall|i: int|
                    0 <= i < rgba@.len() ==> #[trigger] rgba@[i] == icon_byte(color@, i),
        {
            let dx: i32 = x as i32 - 16;
            let dy: i32 = y as i32 - 16;
            assert(0 <= dx * dx <= 256 && 0 <= dy * dy <= 256) by (nonlinear_arith)
                requires
                    -16 <= dx <= 15,
                    -16 <= dy <= 15,
            ;
            let inside = dx * dx + dy * dy <= 15 * 15;
            let ghost start = rgba@.len() as int;
            proof {
                assert forall|j: int| 0 <= j < 4 implies icon_byte(color@, start + j) == (if inside {
                    color@[j]
                } else {
                    0u8
                }) by {
                    lemma_pixel_index(x as int, y as int, j);
                }
            }
            let mut j: usize = 0;
            while j < 4
                invariant
                    0 <= y < 32,
                    0 <= x < 32,
                    start == 128 * y + 4 * x,
                    rgba@.len() == start + j,
                    j <= 4,
                    forall|k: int|
                        0 <= k < 4 ==> icon_byte(color@, start + k) == (if inside {
                            color@[k]
                        } else {
                            0u8
                        }),
                    forall|i: int|
                        0 <= i < rgba@.len() ==> #[trigger] rgba@[i] == icon_byte(color@, i),
                decreases 4 - j,
            {
                if inside {
                    rgba.push(color[j]);
                } else {
                    rgba.push(0);
                }
                assert(icon_byte(color@, start + j) == rgba@[start + j]);
                j += 1;
            }
        }
    }
    rgba
}

} // verus!
