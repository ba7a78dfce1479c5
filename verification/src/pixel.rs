//! Per-pixel alpha compositing with truncating integer division.

use vstd::prelude::*;

verus! {

/// One RGBA pixel with straight (non-premultiplied) alpha.
#[derive(Clone, Copy, Debug, PartialEq, Eq, Structural)]
pub struct Pixel {
    pub r: u8,
    pub g: u8,
    pub b: u8,
    pub a: u8,
}

/// A pixel that leaves whatever lies under it untouched.
pub open spec fn transparent() -> Pixel {
    Pixel { r: 0, g: 0, b: 0, a: 0 }
}

/// One channel of `over` laid on `base` with coverage `alpha`: each of the two
/// weighted terms is divided by 255 on its own, rounding down, before they
/// are added.
pub open spec fn blend_channel(base: u8, over: u8, alpha: u8) -> int {
    (over as int * alpha as int) / 255 + (base as int * (255 - alpha as int)) / 255
}

/// `overlay` laid on `base`. All four channels follow the same rule, weighted
/// by the overlay's alpha.
pub open spec fn blend_spec(base: Pixel, overlay: Pixel) -> Pixel {
    Pixel {
        r: blend_channel(base.r, overlay.r, overlay.a) as u8,
        g: blend_channel(base.g, overlay.g, overlay.a) as u8,
        b: blend_channel(base.b, overlay.b, overlay.a) as u8,
        a: blend_channel(base.a, overlay.a, overlay.a) as u8,
    }
}

/// The pixel with its alpha replaced by full opacity.
pub open spec fn opaque_spec(p: Pixel) -> Pixel {
    Pixel { r: p.r, g: p.g, b: p.b, a: 255 }
}

/// A blended channel always fits in eight bits, so no result is ever clipped.
pub proof fn lemma_blend_channel_in_range(base: u8, over: u8, alpha: u8)
    ensures
        0 <= blend_channel(base, over, alpha) <= 255,
        0 <= (over as int * alpha as int) / 255 <= alpha,
        0 <= (base as int * (255 - alpha as int)) / 255 <= 255 - alpha,
{
    let o: int = over as int;
    let b: int = base as int;
    let a: int = alpha as int;
    assert(0 <= o * a <= 255 * a) by (nonlinear_arith)
        requires
            0 <= o <= 255,
            0 <= a,
    ;
    assert(0 <= b * (255 - a) <= 255 * (255 - a)) by (nonlinear_arith)
        requires
            0 <= b <= 255,
            0 <= 255 - a,
    ;
}

/// A fully transparent overlay leaves the base pixel as it was.
pub proof fn lemma_blend_transparent_overlay(base: Pixel, overlay: Pixel)
    requires
        overlay.a == 0,
    ensures
        blend_spec(base, overlay) == base,
{
    assert(overlay.r as int * 0 == 0);
    assert(overlay.g as int * 0 == 0);
    assert(overlay.b as int * 0 == 0);
}

/// A fully opaque overlay replaces the base pixel: the result is the overlay,
/// whatever the base was.
pub proof fn lemma_blend_opaque_overlay(base: Pixel, overlay: Pixel)
    requires
        overlay.a == 255,
    ensures
        blend_spec(base, overlay) == overlay,
{
    assert(base.r as int * 0 == 0);
    assert(base.g as int * 0 == 0);
    assert(base.b as int * 0 == 0);
    assert(base.a as int * 0 == 0);
}

/// The scalar reference for one channel.
pub fn blend_one(base: u8, over: u8, alpha: u8) -> (out: u8)
    ensures
        out as int == blend_channel(base, over, alpha),
{
    proof {
        lemma_blend_channel_in_range(base, over, alpha);
        assert(over as int * alpha as int <= 255 * 255) by (nonlinear_arith)
            requires
                0 <= over as int <= 255,
                0 <= alpha as int <= 255,
        ;
        assert(base as int * (255 - alpha as int) <= 255 * 255) by (nonlinear_arith)
            requires
                0 <= base as int <= 255,
                0 <= 255 - alpha as int <= 255,
        ;
    }
    let a: u32 = alpha as u32;
    let fg: u32 = (over as u32) * a / 255;
    let bg: u32 = (base as u32) * (255 - a) / 255;
    (fg + bg) as u8
}

/// Lays `overlay` on `base`.
pub fn blend(base: Pixel, overlay: Pixel) -> (out: Pixel)
    ensures
        out == blend_spec(base, overlay),
        overlay.a == 0 ==> out == base,
        overlay.a == 255 ==> out == overlay,
{
    proof {
        if overlay.a == 0 {
            lemma_blend_transparent_overlay(base, overlay);
        }
        if overlay.a == 255 {
            lemma_blend_opaque_overlay(base, overlay);
        }
    }
    Pixel {
        r: blend_one(base.r, overlay.r, overlay.a),
        g: blend_one(base.g, overlay.g, overlay.a),
        b: blend_one(base.b, overlay.b, overlay.a),
        a: blend_one(base.a, overlay.a, overlay.a),
    }
}

/// Forces the alpha channel to full opacity.
pub fn opaque(p: Pixel) -> (out: Pixel)
    ensures
        out == opaque_spec(p),
{
    Pixel { r: p.r, g: p.g, b: p.b, a: 255 }
}

} // verus!
