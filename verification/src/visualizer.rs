//! The discrete half of the VU meter: the per-key color frame.
//!
//! The smoothing, envelope and mapping arithmetic runs on `f32` levels and
//! stays outside the verified core; what arrives here is its end product, the
//! number of keys to light. This module rebuilds the whole color frame from
//! that count: every key below the count gets the current hue color, every
//! key at or above it gets the fixed dim color.

use vstd::prelude::*;

verus! {

/// Number of per-key indicators on the keyboard; a color frame has one color
/// for each.
pub const KEY_COUNT: usize = 84;

/// One key's color.
#[derive(Clone, Copy, Debug, PartialEq, Eq, Structural)]
pub struct Rgb {
    pub r: u8,
    pub g: u8,
    pub b: u8,
}

/// The fixed dim color of keys above the lit count.
pub open spec fn spec_dim_color() -> Rgb {
    Rgb { r: 32, g: 0, b: 0 }
}

/// The fixed dim color of keys above the lit count.
pub fn dim_color() -> (c: Rgb)
    ensures
        c == spec_dim_color(),
{
    Rgb { r: 32, g: 0, b: 0 }
}

/// The color frame for a given lit-key count: `lit` below the count, the dim
/// color at and above it.
pub open spec fn spec_color_frame(lit_count: int, lit: Rgb, len: nat) -> Seq<Rgb> {
    Seq::new(len, |i: int| if i < lit_count { lit } else { spec_dim_color() })
}

/// Recompute the whole color frame in place: keys below `lit_count` get
/// `lit`, the rest get the dim color. The frame's length is kept.
pub fn render_colors(lit_count: usize, lit: Rgb, colors: &mut Vec<Rgb>)
    ensures
        final(colors)@ == spec_color_frame(lit_count as int, lit, old(colors)@.len()),
        final(colors)@.len() == old(colors)@.len(),
{
    let n = colors.len();
    let mut i: usize = 0;
    while i < n
        invariant
            0 <= i <= n,
            colors@.len() == n,
            forall|j: int|
                0 <= j < i ==> colors@[j] == (if j < lit_count as int {
                    lit
                } else {
                    spec_dim_color()
                }),
        decreases n - i,
    {
        if i < lit_count {
            colors.set(i, lit);
        } else {
            colors.set(i, dim_color());
        }
        i += 1;
    }
    proof {
        assert(colors@ =~= spec_color_frame(lit_count as int, lit, old(colors)@.len()));
    }
}

/// A fresh color frame of `KEY_COUNT` dim keys, the state before any
/// measurement arrives.
pub fn new_color_frame() -> (colors: Vec<Rgb>)
    ensures
        colors@ == spec_color_frame(0, spec_dim_color(), KEY_COUNT as nat),
        colors@.len() == KEY_COUNT,
{
    let mut colors: Vec<Rgb> = Vec::new();
    let mut i: usize = 0;
    while i < KEY_COUNT
        invariant
            0 <= i <= KEY_COUNT,
            colors@.len() == i,
            forall|j: int| 0 <= j < i ==> colors@[j] == spec_dim_color(),
        decreases KEY_COUNT - i,
    {
        colors.push(dim_color());
        i += 1;
    }
    proof {
        assert(colors@ =~= spec_color_frame(0, spec_dim_color(), KEY_COUNT as nat));
    }
    colors
}

} // verus!
