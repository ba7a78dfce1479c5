use renskin::packed::{blend_packed, div255_lanes, gather, spread, weigh};
use renskin::pixel::{blend, Pixel};

fn px(r: u8, g: u8, b: u8, a: u8) -> Pixel {
    Pixel { r, g, b, a }
}

#[test]
fn spread_puts_red_lowest() {
    assert_eq!(spread(px(0x12, 0x34, 0x56, 0x78)), 0x0078_0056_0034_0012);
    assert_eq!(spread(px(0, 0, 0, 0)), 0);
    assert_eq!(spread(px(255, 255, 255, 255)), 0x00ff_00ff_00ff_00ff);
}

#[test]
fn gather_undoes_spread() {
    let p = px(9, 200, 0, 255);
    assert_eq!(gather(spread(p)), p);
}

#[test]
fn weigh_multiplies_each_lane() {
    assert_eq!(weigh(spread(px(1, 2, 3, 255)), 255), 0xfe01_02fd_01fe_00ff);
    assert_eq!(weigh(spread(px(1, 2, 3, 4)), 0), 0);
}

#[test]
fn div255_is_exact_for_every_product_of_bytes() {
    for y in 0u64..=65025 {
        let word = y | (65025 - y) << 16 | ((y * 7) % 65026) << 32 | ((y * 13) % 65026) << 48;
        let q = div255_lanes(word);
        assert_eq!(q & 0xffff, y / 255);
        assert_eq!((q >> 16) & 0xffff, (65025 - y) / 255);
        assert_eq!((q >> 32) & 0xffff, ((y * 7) % 65026) / 255);
        assert_eq!((q >> 48) & 0xffff, ((y * 13) % 65026) / 255);
    }
}

#[test]
fn packed_blend_is_the_scalar_blend_on_a_grid() {
    let values = [0u8, 1, 2, 63, 64, 127, 128, 129, 200, 253, 254, 255];
    for &alpha in values.iter() {
        for &o in values.iter() {
            for &b in values.iter() {
                for &base_alpha in values.iter() {
                    let base = px(b, 255 - b, b / 2, base_alpha);
                    let over = px(o, o / 3, 255 - o, alpha);
                    assert_eq!(blend_packed(base, over), blend(base, over));
                }
            }
        }
    }
}

#[test]
fn packed_blend_is_the_scalar_blend_for_every_alpha_and_value() {
    for alpha in 0..=255u8 {
        for v in 0..=255u8 {
            let base = px(v, 255 - v, 255, 0);
            let over = px(255 - v, v, 0, alpha);
            assert_eq!(blend_packed(base, over), blend(base, over));
        }
    }
}

#[test]
fn packed_blend_pins_the_golden_value() {
    let out = blend_packed(px(255, 0, 0, 255), px(0, 0, 255, 128));
    assert_eq!(out, px(127, 0, 128, 191));
}
