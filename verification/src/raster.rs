//! Integer pixel arithmetic of the sidebar's software renderer: colours with
//! premultiplied alpha, packed into BGRA words, and texel lookup with
//! clamped coordinates.

use vstd::prelude::*;

verus! {

/// A texture: `width * height` RGBA texels, row by row.
pub struct Texture {
    pub width: usize,
    pub height: usize,
    pub pixels: Vec<[u8; 4]>,
}

/// A texture whose texel list matches its size, with a size that the
/// renderer's `i32` coordinates reach.
pub open spec fn texture_wf(t: &Texture) -> bool {
    &&& 0 < t.width <= 0x8000_0000
    &&& 0 < t.height <= 0x8000_0000
    &&& t.pixels@.len() == t.width * t.height
}

/// A coordinate clamped to `0 ..= size - 1`.
pub open spec fn clamp_coord(v: i32, size: nat) -> int {
    if v < 0 {
        0
    } else if v >= size - 1 {
        size - 1
    } else {
        v as int
    }
}

/// The texel at (`x`, `y`), each coordinate clamped into the texture.
pub fn texel(texture: &Texture, x: i32, y: i32) -> (r: [u8; 4])
    requires
        texture_wf(texture),
    ensures
        r == texture.pixels@[clamp_coord(y, texture.height as nat) * texture.width + clamp_coord(
            x,
            texture.width as nat,
        )],
{
    let n = texture.pixels.len();
    let max_x = texture.width - 1;
    let max_y = texture.height - 1;
    let cx: usize = if x < 0 {
        0
    } else if x as usize >= max_x {
        max_x
    } else {
        x as usize
    };
    let cy: usize = if y < 0 {
        0
    } else if y as usize >= max_y {
        max_y
    } else {
        y as usize
    };
    assert(cy * texture.width + cx < texture.width * texture.height) by (nonlinear_arith)
        requires
            cy <= texture.height - 1,
            cx <= texture.width - 1,
            texture.width > 0,
            texture.height > 0,
    ;
    assert(cy * texture.width <= cy * texture.width + cx);
    assert(cy as int == clamp_coord(y, texture.height as nat));
    assert(cx as int == clamp_coord(x, texture.width as nat));
    texture.pixels[cy * texture.width + cx]
}

/// One channel of a colour scaled by a texel channel: `c * t / 255`.
pub open spec fn scaled(c: u8, t: u8) -> u8 {
    ((c * t) / 255) as u8
}

fn scale_channel(c: u8, t: u8) -> (r: u8)
    ensures
        r == scaled(c, t),
{
    assert(c * t <= 255 * 255) by (nonlinear_arith);
    ((c as u16 * t as u16) / 255) as u8
}

/// A vertex colour times a texel, channel by channel.
pub fn mul_premul(color: [u8; 4], texel: [u8; 4]) -> (r: [u8; 4])
    ensures
        forall|i: int| 0 <= i < 4 ==> #[trigger] r@[i] == scaled(color@[i], texel@[i]),
{
    let r = [
        scale_channel(color[0], texel[0]),
        scale_channel(color[1], texel[1]),
        scale_channel(color[2], texel[2]),
        scale_channel(color[3], texel[3]),
    ];
    assert forall|i: int| 0 <= i < 4 implies #[trigger] r@[i] == scaled(color@[i], texel@[i]) by {
        if i == 0 {
        } else if i == 1 {
        } else if i == 2 {
        } else {
        }
    }
    r
}

/// The BGRA word of a colour: blue in the lowest byte, then green, red and
/// alpha.
pub open spec fn spec_pack_bgra(r: u8, g: u8, b: u8, a: u8) -> u32 {
    (b + g * 0x100 + r * 0x1_0000 + a * 0x100_0000) as u32
}

/// The red, green, blue and alpha bytes of a BGRA word.
pub open spec fn spec_unpack_bgra(pixel: u32) -> Seq<u8> {
    seq![
        ((pixel / 0x1_0000) % 0x100) as u8,
        ((pixel / 0x100) % 0x100) as u8,
        (pixel % 0x100) as u8,
        (pixel / 0x100_0000) as u8,
    ]
}

pub fn pack_bgra(r: u8, g: u8, b: u8, a: u8) -> (p: u32)
    ensures
        p == spec_pack_bgra(r, g, b, a),
        p == b + g * 0x100 + r * 0x1_0000 + a * 0x100_0000,
{
    b as u32 + g as u32 * 0x100 + r as u32 * 0x1_0000 + a as u32 * 0x100_0000
}

pub fn unpack_bgra(pixel: u32) -> (c: [u8; 4])
    ensures
        c@ == spec_unpack_bgra(pixel),
{
    let c = [
        ((pixel / 0x1_0000) % 0x100) as u8,
        ((pixel / 0x100) % 0x100) as u8,
        (pixel % 0x100) as u8,
        (pixel / 0x100_0000) as u8,
    ];
    assert(c@ =~= spec_unpack_bgra(pixel));
    c
}

/// Unpacking a packed colour gives back its four bytes.
pub proof fn law_unpack_inverts_pack(r: u8, g: u8, b: u8, a: u8)
    ensures
        spec_unpack_bgra(spec_pack_bgra(r, g, b, a)) == seq![r, g, b, a],
{
    let p: int = b + g * 0x100 + r * 0x1_0000 + a * 0x100_0000;
    assert(p / 0x1_0000 == r + a * 0x100) by (nonlinear_arith)
        requires
            p == b + g * 0x100 + r * 0x1_0000 + a * 0x100_0000,
            0 <= b < 0x100,
            0 <= g < 0x100,
    ;
    assert(p / 0x100 == g + r * 0x100 + a * 0x1_0000) by (nonlinear_arith)
        requires
            p == b + g * 0x100 + r * 0x1_0000 + a * 0x100_0000,
            0 <= b < 0x100,
    ;
    assert(p / 0x100_0000 == a) by (nonlinear_arith)
        requires
            p == b + g * 0x100 + r * 0x1_0000 + a * 0x100_0000,
            0 <= b < 0x100,
            0 <= g < 0x100,
            0 <= r < 0x100,
    ;
    assert((r + a * 0x100) % 0x100 == r) by (nonlinear_arith)
        requires
            0 <= r < 0x100,
            0 <= a,
    ;
    assert((g + r * 0x100 + a * 0x1_0000) % 0x100 == g) by (nonlinear_arith)
        requires
            0 <= g < 0x100,
            0 <= r,
            0 <= a,
    ;
    assert(p % 0x100 == b) by (nonlinear_arith)
        requires
            p == b + g * 0x100 + r * 0x1_0000 + a * 0x100_0000,
            0 <= b < 0x100,
            0 <= g,
            0 <= r,
            0 <= a,
    ;
    assert(spec_unpack_bgra(spec_pack_bgra(r, g, b, a)) =~= seq![r, g, b, a]);
}

/// Packing the bytes of a word gives back the word.
pub proof fn law_pack_inverts_unpack(pixel: u32)
    ensures
        spec_pack_bgra(
            spec_unpack_bgra(pixel)[0],
            spec_unpack_bgra(pixel)[1],
            spec_unpack_bgra(pixel)[2],
            spec_unpack_bgra(pixel)[3],
        ) == pixel,
{
    let p = pixel as int;
    let b = p % 0x100;
    let g = (p / 0x100) % 0x100;
    let r = (p / 0x1_0000) % 0x100;
    let a = p / 0x100_0000;
    assert(b + g * 0x100 + r * 0x1_0000 + a * 0x100_0000 == p) by (nonlinear_arith)
        requires
            b == p % 0x100,
            g == (p / 0x100) % 0x100,
            r == (p / 0x1_0000) % 0x100,
            a == p / 0x100_0000,
            0 <= p,
    ;
    assert(a < 0x100) by (nonlinear_arith)
        requires
            a == p / 0x100_0000,
            0 <= p <= 0xffff_ffff,
    ;
}

/// One channel of `src` drawn over `dst`: `s + round(d * (255 - alpha) / 255)`,
/// kept to its low byte.
pub open spec fn blended(s: u8, d: u8, alpha: u8) -> u8 {
    ((s + (d * (255 - alpha) + 127) / 255) as u32) as u8
}

fn blend_channel(s: u8, d: u8, alpha: u8) -> (r: u8)
    ensures
        r == blended(s, d, alpha),
{
    let inv: u32 = 255 - alpha as u32;
    assert(d * inv <= 255 * 255) by (nonlinear_arith)
        requires
            inv <= 255,
    ;
    let v: u32 = s as u32 + (d as u32 * inv + 127) / 255;
    v as u8
}

/// Draws a premultiplied colour over a BGRA pixel: an opaque colour
/// replaces it, any other is blended over it channel by channel.
pub fn blend_premul(dst: &mut u32, src: [u8; 4])
    ensures
        src@[3] == 255 ==> *final(dst) == spec_pack_bgra(src@[0], src@[1], src@[2], src@[3]),
        src@[3] != 255 ==> *final(dst) == spec_pack_bgra(
            blended(src@[0], spec_unpack_bgra(*old(dst))[0], src@[3]),
            blended(src@[1], spec_unpack_bgra(*old(dst))[1], src@[3]),
            blended(src@[2], spec_unpack_bgra(*old(dst))[2], src@[3]),
            blended(src@[3], spec_unpack_bgra(*old(dst))[3], src@[3]),
        ),
{
    if src[3] == 255 {
        *dst = pack_bgra(src[0], src[1], src[2], src[3]);
        return;
    }
    let d = unpack_bgra(*dst);
    let r = blend_channel(src[0], d[0], src[3]);
    let g = blend_channel(src[1], d[1], src[3]);
    let b = blend_channel(src[2], d[2], src[3]);
    let a = blend_channel(src[3], d[3], src[3]);
    *dst = pack_bgra(r, g, b, a);
}

/// The texel at (`x`, `y`) of a texture `width` texels wide.
pub open spec fn texel_at(pixels: Seq<[u8; 4]>, width: nat, x: int, y: int) -> [u8; 4] {
    pixels[y * width + x]
}

/// The `i`-th texel of an uploaded patch, or transparent black past its end.
pub open spec fn patch_texel(src: Seq<[u8; 4]>, i: int) -> [u8; 4] {
    if 0 <= i < src.len() {
        src[i]
    } else {
        [0u8, 0u8, 0u8, 0u8]
    }
}

/// Whether (`x`, `y`) lies under a `patch_w * patch_h` patch placed at (`x0`, `y0`).
pub open spec fn under_patch(x: int, y: int, x0: int, y0: int, patch_w: int, patch_h: int) -> bool {
    x0 <= x < x0 + patch_w && y0 <= y < y0 + patch_h
}

proof fn lemma_position_distinct(w: int, x: int, y: int, dx: int, dy: int)
    requires
        0 <= x < w,
        0 <= dx < w,
        0 <= y,
        0 <= dy,
        x != dx || y != dy,
    ensures
        y * w + x != dy * w + dx,
{
    if y < dy {
        assert(y * w + x < dy * w + dx) by (nonlinear_arith)
            requires
                y < dy,
                0 <= x < w,
                0 <= dx,
        ;
    } else if y > dy {
        assert(dy * w + dx < y * w + x) by (nonlinear_arith)
            requires
                dy < y,
                0 <= dx < w,
                0 <= x,
        ;
    }
}

proof fn lemma_position_in_range(w: int, h: int, x: int, y: int)
    requires
        0 <= x < w,
        0 <= y < h,
    ensures
        0 <= y * w + x < w * h,
{
    assert(0 <= y * w + x < w * h) by (nonlinear_arith)
        requires
            0 <= x < w,
            0 <= y < h,
    ;
}

/// Whether (`x`, `y`) already holds its patched texel while the rows before
/// `r` and the first `c` texels of row `r` are written.
pub open spec fn written(x: int, y: int, x0: int, y0: int, cols: int, r: int, c: int) -> bool {
    (y0 <= y < y0 + r && x0 <= x < x0 + cols) || (y == y0 + r && x0 <= x < x0 + c)
}

/// Writes a `patch_w * patch_h` patch into a texture at (`x0`, `y0`), row by
/// row; what falls outside the texture is cut off, and a patch shorter than
/// its size gives transparent texels.
pub fn patch_texture(
    texture: &mut Texture,
    x0: usize,
    y0: usize,
    patch_w: usize,
    patch_h: usize,
    src: &[[u8; 4]],
)
    requires
        old(texture).pixels@.len() == old(texture).width * old(texture).height,
        patch_w * patch_h <= usize::MAX,
    ensures
        final(texture).width == old(texture).width,
        final(texture).height == old(texture).height,
        final(texture).pixels@.len() == old(texture).pixels@.len(),
        forall|x: int, y: int|
            0 <= x < old(texture).width && 0 <= y < old(texture).height ==> #[trigger] texel_at(
                final(texture).pixels@,
                old(texture).width as nat,
                x,
                y,
            ) == if under_patch(x, y, x0 as int, y0 as int, patch_w as int, patch_h as int) {
                patch_texel(src@, (y - y0) * patch_w + (x - x0))
            } else {
                texel_at(old(texture).pixels@, old(texture).width as nat, x, y)
            },
{
    let w = texture.width;
    let h = texture.height;
    let rows: usize = if y0 >= h {
        0
    } else if patch_h <= h - y0 {
        patch_h
    } else {
        h - y0
    };
    let cols: usize = if x0 >= w {
        0
    } else if patch_w <= w - x0 {
        patch_w
    } else {
        w - x0
    };
    let n = texture.pixels.len();
    assert(w * h == n);
    let ghost before = texture.pixels@;
    let mut r: usize = 0;
    while r < rows
        invariant
            r <= rows,
            rows <= patch_h,
            cols <= patch_w,
            rows == 0 || y0 + rows <= h,
            cols == 0 || x0 + cols <= w,
            texture.width == w,
            texture.height == h,
            w == old(texture).width,
            h == old(texture).height,
            before == old(texture).pixels@,
            texture.pixels@.len() == w * h,
            w * h <= usize::MAX,
            patch_w * patch_h <= usize::MAX,
            forall|x: int, y: int|
                0 <= x < w && 0 <= y < h ==> #[trigger] texel_at(texture.pixels@, w as nat, x, y)
                    == if written(x, y, x0 as int, y0 as int, cols as int, r as int, 0) {
                    patch_texel(src@, (y - y0) * patch_w + (x - x0))
                } else {
                    texel_at(before, w as nat, x, y)
                },
        decreases rows - r,
    {
        let mut c: usize = 0;
        while c < cols
            invariant
                r < rows,
                c <= cols,
                rows <= patch_h,
                cols <= patch_w,
                y0 + rows <= h,
                cols == 0 || x0 + cols <= w,
                texture.width == w,
                texture.height == h,
                texture.pixels@.len() == w * h,
                w * h <= usize::MAX,
                patch_w * patch_h <= usize::MAX,
                forall|x: int, y: int|
                    0 <= x < w && 0 <= y < h ==> #[trigger] texel_at(texture.pixels@, w as nat, x, y)
                        == if written(x, y, x0 as int, y0 as int, cols as int, r as int, c as int) {
                        patch_texel(src@, (y - y0) * patch_w + (x - x0))
                    } else {
                        texel_at(before, w as nat, x, y)
                    },
            decreases cols - c,
        {
            let dy = y0 + r;
            let dx = x0 + c;
            proof {
                lemma_position_in_range(patch_w as int, patch_h as int, c as int, r as int);
                lemma_position_in_range(w as int, h as int, dx as int, dy as int);
            }
            let si = r * patch_w + c;
            let pixel: [u8; 4] = if si < src.len() {
                src[si]
            } else {
                [0u8, 0u8, 0u8, 0u8]
            };
            let di = dy * w + dx;
            let ghost prev = texture.pixels@;
            texture.pixels.set(di, pixel);
            proof {
                assert forall|x: int, y: int| 0 <= x < w && 0 <= y < h implies #[trigger] texel_at(
                    texture.pixels@,
                    w as nat,
                    x,
                    y,
                ) == if written(x, y, x0 as int, y0 as int, cols as int, r as int, c + 1) {
                    patch_texel(src@, (y - y0) * patch_w + (x - x0))
                } else {
                    texel_at(before, w as nat, x, y)
                } by {
                    if x == dx && y == dy {
                        assert(texel_at(texture.pixels@, w as nat, x, y) == pixel);
                    } else {
                        lemma_position_distinct(w as int, x, y, dx as int, dy as int);
                        lemma_position_in_range(w as int, h as int, x, y);
                        assert(texel_at(texture.pixels@, w as nat, x, y) == texel_at(prev, w as nat, x, y));
                    }
                }
            }
            c += 1;
        }
        proof {
            assert forall|x: int, y: int| 0 <= x < w && 0 <= y < h implies written(
                x,
                y,
                x0 as int,
                y0 as int,
                cols as int,
                r + 1,
                0,
            ) == written(x, y, x0 as int, y0 as int, cols as int, r as int, cols as int) by {}
        }
        r += 1;
    }
    proof {
        assert forall|x: int, y: int| 0 <= x < w && 0 <= y < h implies written(
            x,
            y,
            x0 as int,
            y0 as int,
            cols as int,
            rows as int,
            0,
        ) == under_patch(x, y, x0 as int, y0 as int, patch_w as int, patch_h as int) by {}
    }
}

impl Texture {
    /// A texture made of an uploaded image.
    pub fn from_patch(width: usize, height: usize, src: &[[u8; 4]]) -> (t: Texture)
        ensures
            t.width == width,
            t.height == height,
            t.pixels@ == src@,
    {
        let mut pixels: Vec<[u8; 4]> = Vec::new();
        let mut i: usize = 0;
        while i < src.len()
            invariant
                i <= src@.len(),
                pixels@ == src@.take(i as int),
            decreases src@.len() - i,
        {
            pixels.push(src[i]);
            assert(src@.take(i as int).push(src@[i as int]) == src@.take(i + 1));
            i += 1;
        }
        assert(src@.take(src@.len() as int) == src@);
        Texture { width, height, pixels }
    }
}

/// An image upload to a texture: a `width * height` patch placed at `pos`
/// in the texture, or the whole new texture when `pos` is `None`. Returns
/// the texture to keep under the upload's id: an empty upload keeps what was
/// there, a patch for a missing texture keeps nothing, and a whole image
/// replaces or creates the texture.
pub fn apply_image_delta(
    existing: Option<Texture>,
    width: usize,
    height: usize,
    src: &[[u8; 4]],
    pos: Option<(usize, usize)>,
) -> (r: Option<Texture>)
    requires
        width * height <= usize::MAX,
        existing matches Some(t) ==> t.pixels@.len() == t.width * t.height,
    ensures
        (width == 0 || height == 0) ==> r == existing,
        width > 0 && height > 0 ==> match pos {
            None => r is Some && r->0.width == width && r->0.height == height && r->0.pixels@
                == src@,
            Some((x0, y0)) => match existing {
                None => r is None,
                Some(t) => r is Some && r->0.width == t.width && r->0.height == t.height
                    && r->0.pixels@.len() == t.pixels@.len() && forall|x: int, y: int|
                    0 <= x < t.width && 0 <= y < t.height ==> #[trigger] texel_at(
                        r->0.pixels@,
                        t.width as nat,
                        x,
                        y,
                    ) == if under_patch(x, y, x0 as int, y0 as int, width as int, height as int) {
                        patch_texel(src@, (y - y0) * width + (x - x0))
                    } else {
                        texel_at(t.pixels@, t.width as nat, x, y)
                    },
            },
        },
{
    if width == 0 || height == 0 {
        return existing;
    }
    match pos {
        Some((x0, y0)) => match existing {
            None => None,
            Some(mut t) => {
                patch_texture(&mut t, x0, y0, width, height, src);
                Some(t)
            },
        },
        None => Some(Texture::from_patch(width, height, src)),
    }
}

/// Opaque white, the colour a frame starts from.
pub const WHITE_BGRA: u32 = 0xffff_ffff;

/// The renderer's frame: `width * height` BGRA pixels, row by row.
pub struct Framebuffer {
    pub pixels: Vec<u32>,
    pub width: usize,
    pub height: usize,
}

impl Framebuffer {
    /// An empty frame.
    pub fn new() -> (f: Framebuffer)
        ensures
            f.width == 0,
            f.height == 0,
            f.pixels@.len() == 0,
    {
        Framebuffer { pixels: Vec::new(), width: 0, height: 0 }
    }

    /// Gives the frame a new size: the pixels it keeps stay, new ones are
    /// white. A frame already of that size is left alone.
    pub fn resize(&mut self, width: usize, height: usize)
        requires
            width * height <= usize::MAX,
        ensures
            final(self).width == width,
            final(self).height == height,
            (old(self).width == width && old(self).height == height && old(self).pixels@.len()
                == width * height) ==> final(self).pixels@ == old(self).pixels@,
            !(old(self).width == width && old(self).height == height && old(self).pixels@.len()
                == width * height) ==> {
                let len = width * height;
                &&& final(self).pixels@.len() == len
                &&& forall|i: int|
                    0 <= i < len ==> #[trigger] final(self).pixels@[i] == if i < old(
                        self,
                    ).pixels@.len() {
                        old(self).pixels@[i]
                    } else {
                        WHITE_BGRA
                    }
            },
    {
        if self.width == width && self.height == height && self.pixels.len() == width * height {
            return;
        }
        self.width = width;
        self.height = height;
        let len: usize = width * height;
        let ghost before = self.pixels@;
        self.pixels.resize(len, WHITE_BGRA);
        proof {
            assert forall|i: int| 0 <= i < len implies #[trigger] self.pixels@[i] == if i
                < before.len() {
                before[i]
            } else {
                WHITE_BGRA
            } by {
                if i < before.len() {
                    if len > before.len() {
                        assert(self.pixels@.subrange(0, before.len() as int)[i] == self.pixels@[i]);
                    }
                }
            }
        }
    }

    /// The frame's pixels.
    pub fn bgra(&self) -> (r: &[u32])
        ensures
            r@ == self.pixels@,
    {
        self.pixels.as_slice()
    }

    /// Paints the whole frame white, as each render starts.
    pub fn clear(&mut self)
        ensures
            final(self).width == old(self).width,
            final(self).height == old(self).height,
            final(self).pixels@.len() == old(self).pixels@.len(),
            forall|i: int| 0 <= i < final(self).pixels@.len() ==> #[trigger] final(self).pixels@[i] == WHITE_BGRA,
    {
        let mut i: usize = 0;
        while i < self.pixels.len()
            invariant
                i <= self.pixels@.len(),
                self.pixels@.len() == old(self).pixels@.len(),
                self.width == old(self).width,
                self.height == old(self).height,
                forall|k: int| 0 <= k < i ==> #[trigger] self.pixels@[k] == WHITE_BGRA,
            decreases self.pixels@.len() - i,
        {
            self.pixels.set(i, WHITE_BGRA);
            i += 1;
        }
    }
}

} // verus!
