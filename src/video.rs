use vstd::prelude::*;

use crate::cpu::CPUState;

verus! {

/// First byte of video memory.
pub const VRAM_START: u16 = 0x2400;

/// Width of the upright screen in pixels.
pub const SCREEN_WIDTH: u16 = 224;

/// Height of the upright screen in pixels.
pub const SCREEN_HEIGHT: u16 = 256;

/// The colour of the gel over a part of the screen.
#[derive(Clone, Copy, Debug, PartialEq, Eq, Structural)]
pub enum OverlayColor {
    White,
    Red,
    Green,
}

/// Video memory holds the screen turned a quarter turn: bit `k` of the
/// bitmap, counted from bit 0 of the first byte, is column `k / 256`, row
/// `255 - k % 256` of the upright screen.
pub open spec fn pixel_bit(x: int, y: int) -> int {
    x * 256 + (255 - y)
}

/// Whether pixel (x, y) of the upright screen is lit in memory `mem`.
pub open spec fn pixel_lit(mem: Seq<u8>, x: int, y: int) -> bool {
    let k = pixel_bit(x, y);
    (mem[VRAM_START + k / 8] >> ((k % 8) as u8)) % 2 == 1
}

/// The gel colour at pixel (x, y): red over rows 33 to 64, green over rows
/// 185 to 240, and green over rows 239 to 256 in columns 16 to 131.
pub open spec fn overlay(x: int, y: int) -> OverlayColor {
    if 32 < y <= 64 {
        OverlayColor::Red
    } else if 184 < y <= 240 {
        OverlayColor::Green
    } else if 238 < y <= 256 && 16 <= x < 132 {
        OverlayColor::Green
    } else {
        OverlayColor::White
    }
}

/// Whether pixel (x, y) of the upright screen is lit.
pub fn pixel_on(cpu: &CPUState, x: u16, y: u16) -> (r: bool)
    requires
        cpu.wf(),
        x < SCREEN_WIDTH,
        y < SCREEN_HEIGHT,
    ensures
        r == pixel_lit(cpu@.mem, x as int, y as int),
{
    let k: u16 = x * 256 + (255 - y);
    let byte = cpu.read_mem(VRAM_START + k / 8);
    (byte >> ((k % 8) as u8)) % 2 == 1
}

/// The gel colour at pixel (x, y).
pub fn overlay_color(x: u16, y: u16) -> (r: OverlayColor)
    ensures
        r == overlay(x as int, y as int),
{
    if 32 < y && y <= 64 {
        OverlayColor::Red
    } else if 184 < y && y <= 240 {
        OverlayColor::Green
    } else if 238 < y && y <= 256 && 16 <= x && x < 132 {
        OverlayColor::Green
    } else {
        OverlayColor::White
    }
}

/// The columns `[first, last)` that half of video memory covers: the first
/// 0xE00 bytes hold columns 0 to 111, the rest columns 112 to 223.
pub fn half_columns(top_half: bool) -> (r: (u16, u16))
    ensures
        r == (if top_half { (0u16, 112u16) } else { (112u16, 224u16) }),
{
    if top_half {
        (0, 112)
    } else {
        (112, 224)
    }
}

} // verus!
