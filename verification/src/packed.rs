//! Blending four channels at once.
//!
//! The four channels of a pixel are laid side by side in one 64-bit word, each
//! in a lane of 16 bits. One multiplication then weights all four channels,
//! and the division by 255 is carried out on all four lanes with two shifts
//! and two additions. The result is proved equal, bit for bit, to the scalar
//! reference for every pair of pixels.

use vstd::prelude::*;
use crate::pixel::{blend_channel, blend_spec, lemma_blend_channel_in_range, Pixel};

verus! {

/// The low eight bits of every lane.
pub const LANE_LOW: u64 = 0x00ff_00ff_00ff_00ff;

/// The value 1 in every lane.
pub const LANE_ONES: u64 = 0x0001_0001_0001_0001;

/// The word whose four lanes hold `c0` to `c3`, lowest lane first.
pub open spec fn pack4(c0: int, c1: int, c2: int, c3: int) -> int {
    c0 + c1 * 0x1_0000 + c2 * 0x1_0000_0000 + c3 * 0x1_0000_0000_0000
}

/// Lane `k` of a word.
pub open spec fn lane(v: int, k: int) -> int {
    if k == 0 {
        v % 0x1_0000
    } else if k == 1 {
        (v / 0x1_0000) % 0x1_0000
    } else if k == 2 {
        (v / 0x1_0000_0000) % 0x1_0000
    } else {
        (v / 0x1_0000_0000_0000) % 0x1_0000
    }
}

/// A word of four lanes that each fit in 16 bits has exactly those lanes.
pub proof fn lemma_lanes_of_pack(c0: int, c1: int, c2: int, c3: int)
    requires
        0 <= c0 < 0x1_0000,
        0 <= c1 < 0x1_0000,
        0 <= c2 < 0x1_0000,
        0 <= c3 < 0x1_0000,
    ensures
        0 <= pack4(c0, c1, c2, c3) <= 0xffff_ffff_ffff_ffff,
        lane(pack4(c0, c1, c2, c3), 0) == c0,
        lane(pack4(c0, c1, c2, c3), 1) == c1,
        lane(pack4(c0, c1, c2, c3), 2) == c2,
        lane(pack4(c0, c1, c2, c3), 3) == c3,
{
}

/// Every 64-bit word is the word of its four lanes.
pub proof fn lemma_pack_of_lanes(v: u64)
    ensures
        v == pack4(lane(v as int, 0), lane(v as int, 1), lane(v as int, 2), lane(v as int, 3)),
        0 <= lane(v as int, 0) < 0x1_0000,
        0 <= lane(v as int, 1) < 0x1_0000,
        0 <= lane(v as int, 2) < 0x1_0000,
        0 <= lane(v as int, 3) < 0x1_0000,
{
}

/// The word that holds the channels of `p`, red in the lowest lane.
pub open spec fn spread_spec(p: Pixel) -> int {
    pack4(p.r as int, p.g as int, p.b as int, p.a as int)
}

/// Lays the channels of `p` out in four lanes.
pub fn spread(p: Pixel) -> (v: u64)
    ensures
        v == spread_spec(p),
{
    let r: u64 = p.r as u64;
    let g: u64 = p.g as u64;
    let b: u64 = p.b as u64;
    let a: u64 = p.a as u64;
    assert((r | (g << 16) | (b << 32) | (a << 48)) == r + g * 0x1_0000 + b * 0x1_0000_0000 + a
        * 0x1_0000_0000_0000) by (bit_vector)
        requires
            r <= 0xff,
            g <= 0xff,
            b <= 0xff,
            a <= 0xff,
    ;
    r | (g << 16) | (b << 32) | (a << 48)
}

/// Reads a pixel back from a word whose lanes each hold one byte.
pub fn gather(v: u64) -> (p: Pixel)
    requires
        lane(v as int, 0) <= 0xff,
        lane(v as int, 1) <= 0xff,
        lane(v as int, 2) <= 0xff,
        lane(v as int, 3) <= 0xff,
    ensures
        p.r == lane(v as int, 0),
        p.g == lane(v as int, 1),
        p.b == lane(v as int, 2),
        p.a == lane(v as int, 3),
{
    assert((v & 0xffff) == v % 0x1_0000 && ((v >> 16) & 0xffff) == (v / 0x1_0000) % 0x1_0000 && ((v
        >> 32) & 0xffff) == (v / 0x1_0000_0000) % 0x1_0000 && ((v >> 48) & 0xffff) == (v
        / 0x1_0000_0000_0000) % 0x1_0000) by (bit_vector);
    Pixel {
        r: (v & 0xffff) as u8,
        g: ((v >> 16) & 0xffff) as u8,
        b: ((v >> 32) & 0xffff) as u8,
        a: ((v >> 48) & 0xffff) as u8,
    }
}

/// For a product of two bytes, one addition of the high byte and of 1,
/// followed by dropping the low byte, gives the quotient by 255, rounded down.
pub proof fn lemma_div255(y: u64)
    requires
        y <= 65025,
    ensures
        (y + 1 + y / 256) / 256 == y / 255,
        y / 256 <= 0xff,
        y + 1 + y / 256 < 0x1_0000,
{
    assert((y + 1 + y / 256) / 256 == y / 255) by (bit_vector)
        requires
            y <= 65025,
    ;
}

/// Multiplies every lane by `weight`.
pub fn weigh(v: u64, weight: u64) -> (w: u64)
    requires
        lane(v as int, 0) <= 0xff,
        lane(v as int, 1) <= 0xff,
        lane(v as int, 2) <= 0xff,
        lane(v as int, 3) <= 0xff,
        weight <= 0xff,
    ensures
        lane(w as int, 0) == lane(v as int, 0) * weight,
        lane(w as int, 1) == lane(v as int, 1) * weight,
        lane(w as int, 2) == lane(v as int, 2) * weight,
        lane(w as int, 3) == lane(v as int, 3) * weight,
        lane(w as int, 0) <= 65025,
        lane(w as int, 1) <= 65025,
        lane(w as int, 2) <= 65025,
        lane(w as int, 3) <= 65025,
{
    proof {
        let c0 = lane(v as int, 0);
        let c1 = lane(v as int, 1);
        let c2 = lane(v as int, 2);
        let c3 = lane(v as int, 3);
        let k = weight as int;
        lemma_pack_of_lanes(v);
        lemma_weight_in_range(c0, k);
        lemma_weight_in_range(c1, k);
        lemma_weight_in_range(c2, k);
        lemma_weight_in_range(c3, k);
        assert(pack4(c0, c1, c2, c3) * k == pack4(c0 * k, c1 * k, c2 * k, c3 * k))
            by (nonlinear_arith);
        lemma_lanes_of_pack(c0 * k, c1 * k, c2 * k, c3 * k);
    }
    v * weight
}

/// A byte times a byte is at most 65025.
pub proof fn lemma_weight_in_range(c: int, k: int)
    requires
        0 <= c <= 0xff,
        0 <= k <= 0xff,
    ensures
        0 <= c * k <= 65025,
{
    assert(0 <= c * k <= 65025) by (nonlinear_arith)
        requires
            0 <= c <= 0xff,
            0 <= k <= 0xff,
    ;
}

/// Keeping the high byte of every 16-bit lane, moved down to the low byte,
/// divides every lane by 256.
pub proof fn lemma_high_bytes(w: u64)
    ensures
        ((w >> 8) & LANE_LOW) == pack4(
            lane(w as int, 0) / 256,
            lane(w as int, 1) / 256,
            lane(w as int, 2) / 256,
            lane(w as int, 3) / 256,
        ),
{
    assert(((w >> 8) & 0x00ff_00ff_00ff_00ff) == (w % 0x1_0000) / 256 + (((w / 0x1_0000)
        % 0x1_0000) / 256) * 0x1_0000 + (((w / 0x1_0000_0000) % 0x1_0000) / 256) * 0x1_0000_0000
        + (((w / 0x1_0000_0000_0000) % 0x1_0000) / 256) * 0x1_0000_0000_0000) by (bit_vector);
}

/// Divides every lane by 255, rounding down.
pub fn div255_lanes(w: u64) -> (q: u64)
    requires
        lane(w as int, 0) <= 65025,
        lane(w as int, 1) <= 65025,
        lane(w as int, 2) <= 65025,
        lane(w as int, 3) <= 65025,
    ensures
        lane(q as int, 0) == lane(w as int, 0) / 255,
        lane(q as int, 1) == lane(w as int, 1) / 255,
        lane(q as int, 2) == lane(w as int, 2) / 255,
        lane(q as int, 3) == lane(w as int, 3) / 255,
{
    let high: u64 = (w >> 8) & LANE_LOW;
    let ghost y0 = lane(w as int, 0);
    let ghost y1 = lane(w as int, 1);
    let ghost y2 = lane(w as int, 2);
    let ghost y3 = lane(w as int, 3);
    proof {
        lemma_pack_of_lanes(w);
        lemma_div255(y0 as u64);
        lemma_div255(y1 as u64);
        lemma_div255(y2 as u64);
        lemma_div255(y3 as u64);
        lemma_high_bytes(w);
        lemma_lanes_of_pack(
            y0 + 1 + y0 / 256,
            y1 + 1 + y1 / 256,
            y2 + 1 + y2 / 256,
            y3 + 1 + y3 / 256,
        );
    }
    let sum: u64 = w + LANE_ONES + high;
    proof {
        lemma_high_bytes(sum);
        lemma_lanes_of_pack(
            lane(sum as int, 0) / 256,
            lane(sum as int, 1) / 256,
            lane(sum as int, 2) / 256,
            lane(sum as int, 3) / 256,
        );
    }
    (sum >> 8) & LANE_LOW
}

/// Lays `overlay` on `base`, all four channels at once. The result is the
/// scalar reference's, bit for bit.
pub fn blend_packed(base: Pixel, overlay: Pixel) -> (out: Pixel)
    ensures
        out == blend_spec(base, overlay),
{
    let alpha: u64 = overlay.a as u64;
    let over: u64 = spread(overlay);
    let under: u64 = spread(base);
    proof {
        lemma_lanes_of_pack(overlay.r as int, overlay.g as int, overlay.b as int, overlay.a as int);
        lemma_lanes_of_pack(base.r as int, base.g as int, base.b as int, base.a as int);
    }
    let fg: u64 = div255_lanes(weigh(over, alpha));
    let bg: u64 = div255_lanes(weigh(under, 255 - alpha));
    proof {
        lemma_blend_channel_in_range(base.r, overlay.r, overlay.a);
        lemma_blend_channel_in_range(base.g, overlay.g, overlay.a);
        lemma_blend_channel_in_range(base.b, overlay.b, overlay.a);
        lemma_blend_channel_in_range(base.a, overlay.a, overlay.a);
        lemma_pack_of_lanes(fg);
        lemma_pack_of_lanes(bg);
        lemma_lanes_of_pack(
            blend_channel(base.r, overlay.r, overlay.a),
            blend_channel(base.g, overlay.g, overlay.a),
            blend_channel(base.b, overlay.b, overlay.a),
            blend_channel(base.a, overlay.a, overlay.a),
        );
    }
    gather(fg + bg)
}

} // verus!
