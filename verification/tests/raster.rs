use majsoul_max_rs::raster::{
    apply_image_delta, blend_premul, mul_premul, pack_bgra, patch_texture, texel, unpack_bgra,
    Framebuffer, Texture, WHITE_BGRA,
};

#[test]
fn packing_puts_blue_in_the_lowest_byte() {
    assert_eq!(pack_bgra(0x11, 0x22, 0x33, 0x44), 0x4411_2233);
    assert_eq!(pack_bgra(255, 255, 255, 255), u32::MAX);
    assert_eq!(unpack_bgra(0x4411_2233), [0x11, 0x22, 0x33, 0x44]);
}

#[test]
fn unpacking_a_packed_colour_gives_it_back() {
    for (r, g, b, a) in [(0u8, 0u8, 0u8, 0u8), (1, 2, 3, 4), (255, 0, 128, 7)] {
        assert_eq!(unpack_bgra(pack_bgra(r, g, b, a)), [r, g, b, a]);
    }
    for p in [0u32, 1, 0x8000_0000, 0xdead_beef] {
        let [r, g, b, a] = unpack_bgra(p);
        assert_eq!(pack_bgra(r, g, b, a), p);
    }
}

#[test]
fn a_texel_scales_each_channel() {
    assert_eq!(mul_premul([255, 128, 0, 255], [255, 255, 255, 128]), [255, 128, 0, 128]);
    assert_eq!(mul_premul([100, 200, 50, 10], [51, 255, 0, 255]), [20, 200, 0, 10]);
}

#[test]
fn an_opaque_colour_replaces_the_pixel() {
    let mut dst = pack_bgra(1, 2, 3, 4);
    blend_premul(&mut dst, [10, 20, 30, 255]);
    assert_eq!(dst, pack_bgra(10, 20, 30, 255));
}

#[test]
fn a_translucent_colour_is_blended_over() {
    let mut dst = pack_bgra(200, 100, 0, 255);
    blend_premul(&mut dst, [64, 0, 32, 128]);
    // 64 + round(200 * 127 / 255) = 64 + 100 = 164, and so on.
    assert_eq!(unpack_bgra(dst), [164, 50, 32, 255]);
    let mut clear = 0u32;
    blend_premul(&mut clear, [0, 0, 0, 0]);
    assert_eq!(clear, 0);
}

#[test]
fn texel_coordinates_are_clamped_into_the_texture() {
    let texture = Texture {
        width: 2,
        height: 2,
        pixels: vec![[1, 0, 0, 0], [2, 0, 0, 0], [3, 0, 0, 0], [4, 0, 0, 0]],
    };
    assert_eq!(texel(&texture, 0, 0)[0], 1);
    assert_eq!(texel(&texture, 1, 0)[0], 2);
    assert_eq!(texel(&texture, 0, 1)[0], 3);
    assert_eq!(texel(&texture, -5, 7)[0], 3);
    assert_eq!(texel(&texture, 9, -1)[0], 2);
    assert_eq!(texel(&texture, i32::MAX, i32::MAX)[0], 4);
}

fn grey(v: u8) -> [u8; 4] {
    [v, v, v, 255]
}

#[test]
fn a_patch_is_written_where_it_lands_and_cut_at_the_edges() {
    let mut texture = Texture { width: 3, height: 2, pixels: vec![grey(0); 6] };
    // A 2x2 patch at (2, 1): only its top-left texel lands inside.
    patch_texture(&mut texture, 2, 1, 2, 2, &[grey(1), grey(2), grey(3), grey(4)]);
    assert_eq!(texture.pixels, vec![grey(0), grey(0), grey(0), grey(0), grey(0), grey(1)]);
    // A patch shorter than its size gives transparent texels.
    patch_texture(&mut texture, 0, 0, 2, 1, &[grey(9)]);
    assert_eq!(texture.pixels[0], grey(9));
    assert_eq!(texture.pixels[1], [0, 0, 0, 0]);
    assert_eq!(texture.pixels[2], grey(0));
}

#[test]
fn image_uploads_replace_patch_or_skip() {
    let created = apply_image_delta(None, 1, 2, &[grey(5), grey(6)], None).unwrap();
    assert_eq!((created.width, created.height), (1, 2));
    assert_eq!(created.pixels, vec![grey(5), grey(6)]);
    assert!(apply_image_delta(None, 1, 1, &[grey(5)], Some((0, 0))).is_none());
    let patched = apply_image_delta(Some(created), 1, 1, &[grey(7)], Some((0, 1))).unwrap();
    assert_eq!(patched.pixels, vec![grey(5), grey(7)]);
    let kept = apply_image_delta(Some(patched), 0, 4, &[], None).unwrap();
    assert_eq!(kept.pixels, vec![grey(5), grey(7)]);
}

#[test]
fn a_resized_frame_keeps_its_pixels_and_adds_white() {
    let mut frame = Framebuffer::new();
    assert!(frame.bgra().is_empty());
    frame.resize(2, 1);
    assert_eq!(frame.bgra(), &[WHITE_BGRA, WHITE_BGRA]);
    frame.pixels[0] = 7;
    frame.resize(3, 1);
    assert_eq!(frame.bgra(), &[7, WHITE_BGRA, WHITE_BGRA]);
    frame.resize(1, 1);
    assert_eq!(frame.bgra(), &[7]);
    frame.clear();
    assert_eq!(frame.bgra(), &[WHITE_BGRA]);
}
