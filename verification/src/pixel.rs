//! The per-pixel decision of the gradient fill.
//!
//! The buffer's content itself is out of the protocol's hands: the
//! application writes the backing region before the buffer is first attached.
//! What is decided here is the one packed ARGB word for each position of the
//! rectangle; the application serialises the words into the region as
//! native-endian bytes, row by row.

use vstd::prelude::*;

use vstd::arithmetic::div_mod::lemma_div_is_ordered;
use vstd::arithmetic::div_mod::lemma_div_multiples_vanish;
use vstd::math::min;

verus! {

/// The red component at (x, y): fades with distance from the top-left.
pub open spec fn gradient_red(x: u32, y: u32, width: u32, height: u32) -> int {
    min(((width - x) * 0xFF) / (width as int), ((height - y) * 0xFF) / (height as int))
}

/// The green component at (x, y): grows rightward, fades downward.
pub open spec fn gradient_green(x: u32, y: u32, width: u32, height: u32) -> int {
    min((x * 0xFF) / (width as int), ((height - y) * 0xFF) / (height as int))
}

/// The blue component at (x, y): fades rightward, grows downward.
pub open spec fn gradient_blue(x: u32, y: u32, width: u32, height: u32) -> int {
    min(((width - x) * 0xFF) / (width as int), (y * 0xFF) / (height as int))
}

/// A component quotient `(n * 0xFF) / d` with `n <= d` stays within a byte.
proof fn lemma_component_bounded(n: int, d: int)
    requires
        0 <= n <= d,
        0 < d,
    ensures
        0 <= (n * 0xFF) / d <= 0xFF,
{
    lemma_div_is_ordered(0, n * 0xFF, d);
    lemma_div_is_ordered(n * 0xFF, d * 0xFF, d);
    lemma_div_multiples_vanish(0xFF, d);
}

/// The packed ARGB gradient word for position (x, y) of a width-by-height
/// rectangle: full alpha, and the three colour ramps of the fill.
pub fn gradient_pixel(x: u32, y: u32, width: u32, height: u32) -> (c: u32)
    requires
        x < width,
        y < height,
    ensures
        c == 0xFF000000 + gradient_red(x, y, width, height) * 0x10000 + gradient_green(
            x,
            y,
            width,
            height,
        ) * 0x100 + gradient_blue(x, y, width, height),
{
    let wx: u64 = ((width - x) as u64 * 0xFF) / (width as u64);
    let hy: u64 = ((height - y) as u64 * 0xFF) / (height as u64);
    let xw: u64 = (x as u64 * 0xFF) / (width as u64);
    let yh: u64 = (y as u64 * 0xFF) / (height as u64);
    proof {
        lemma_component_bounded((width - x) as int, width as int);
        lemma_component_bounded((height - y) as int, height as int);
        lemma_component_bounded(x as int, width as int);
        lemma_component_bounded(y as int, height as int);
    }
    let red: u32 = if wx < hy {
        wx as u32
    } else {
        hy as u32
    };
    let green: u32 = if xw < hy {
        xw as u32
    } else {
        hy as u32
    };
    let blue: u32 = if wx < yh {
        wx as u32
    } else {
        yh as u32
    };
    0xFF000000u32 + red * 0x10000 + green * 0x100 + blue
}

} // verus!
