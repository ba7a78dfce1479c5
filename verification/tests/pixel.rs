use renskin::pixel::{blend, blend_one, opaque, Pixel};

fn px(r: u8, g: u8, b: u8, a: u8) -> Pixel {
    Pixel { r, g, b, a }
}

#[test]
fn transparent_overlay_leaves_base() {
    let base = px(12, 200, 77, 31);
    assert_eq!(blend(base, px(255, 255, 255, 0)), base);
    assert_eq!(blend(base, px(0, 0, 0, 0)), base);
}

#[test]
fn opaque_overlay_replaces_base() {
    let over = px(9, 18, 27, 255);
    assert_eq!(blend(px(255, 254, 253, 252), over), over);
    assert_eq!(blend(px(0, 0, 0, 0), over), over);
}

#[test]
fn half_alpha_blue_over_red_is_pinned() {
    let out = blend(px(255, 0, 0, 255), px(0, 0, 255, 128));
    assert_eq!((out.r, out.g, out.b), (127, 0, 128));
}

#[test]
fn division_truncates_each_term() {
    // 1 * 254 / 255 = 0 and 1 * 1 / 255 = 0: both terms round down to nothing.
    assert_eq!(blend_one(1, 1, 254), 0);
    // 200 * 100 / 255 = 78 and 100 * 155 / 255 = 60.
    assert_eq!(blend_one(100, 200, 100), 138);
    // 255 * 255 / 255 = 255 and nothing from the base.
    assert_eq!(blend_one(255, 255, 255), 255);
    // 255 * 1 / 255 = 1 and 255 * 254 / 255 = 254.
    assert_eq!(blend_one(255, 255, 1), 255);
}

#[test]
fn blend_never_leaves_the_byte_range() {
    let mut alpha: u32 = 0;
    while alpha <= 255 {
        let mut value: u32 = 0;
        while value <= 255 {
            let a = alpha as u8;
            let v = value as u8;
            let expected = (v as u32 * alpha) / 255 + (255 * (255 - alpha)) / 255;
            assert!(expected <= 255);
            assert_eq!(blend_one(255, v, a) as u32, expected);
            value += 5;
        }
        alpha += 1;
    }
}

#[test]
fn alpha_channel_follows_the_same_rule() {
    let out = blend(px(0, 0, 0, 100), px(0, 0, 0, 128));
    // 128 * 128 / 255 = 64 and 100 * 127 / 255 = 49.
    assert_eq!(out.a, 113);
}

#[test]
fn opaque_forces_alpha_only() {
    assert_eq!(opaque(px(1, 2, 3, 4)), px(1, 2, 3, 255));
}
