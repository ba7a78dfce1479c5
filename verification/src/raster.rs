//! Row-major RGBA rasters: the mathematical model and the owned image.

use vstd::prelude::*;
use vstd::arithmetic::div_mod::{lemma_fundamental_div_mod, lemma_fundamental_div_mod_converse};
use crate::pixel::Pixel;

verus! {

/// The model of an RGBA raster: its dimensions and its bytes, four per pixel,
/// row after row.
pub struct Raster {
    pub width: nat,
    pub height: nat,
    pub data: Seq<u8>,
}

/// The `k`-th pixel of a byte sequence that holds four bytes per pixel.
pub open spec fn pixel_at(data: Seq<u8>, k: int) -> Pixel {
    Pixel { r: data[4 * k], g: data[4 * k + 1], b: data[4 * k + 2], a: data[4 * k + 3] }
}

/// The pixel in column `x` of row `y` of a byte sequence laid out in rows of
/// `width` pixels.
pub open spec fn pixel_in(data: Seq<u8>, width: nat, x: int, y: int) -> Pixel {
    pixel_at(data, y * width + x)
}

impl Raster {
    /// The byte count matches the dimensions.
    pub open spec fn wf(self) -> bool {
        self.data.len() == 4 * (self.width * self.height)
    }

    /// The pixel in column `x` of row `y`.
    pub open spec fn pixel(self, x: int, y: int) -> Pixel {
        pixel_in(self.data, self.width, x, y)
    }
}

/// Channel `c` of a pixel, in the order red, green, blue, alpha.
pub open spec fn channel_of(p: Pixel, c: int) -> u8 {
    if c == 0 {
        p.r
    } else if c == 1 {
        p.g
    } else if c == 2 {
        p.b
    } else {
        p.a
    }
}

/// The `width` by `height` raster whose pixel at `(x, y)` is `f(x, y)`.
pub open spec fn raster_from(width: nat, height: nat, f: spec_fn(int, int) -> Pixel) -> Raster {
    Raster {
        width,
        height,
        data: Seq::new(
            4 * (width * height),
            |b: int| channel_of(f((b / 4) % (width as int), (b / 4) / (width as int)), b % 4),
        ),
    }
}

/// `raster_from` holds at every position what the pixel function says.
pub proof fn lemma_raster_from_pixel(
    width: nat,
    height: nat,
    f: spec_fn(int, int) -> Pixel,
    x: int,
    y: int,
)
    requires
        0 <= x < width,
        0 <= y < height,
    ensures
        raster_from(width, height, f).wf(),
        raster_from(width, height, f).pixel(x, y) == f(x, y),
{
    let w: int = width as int;
    let k: int = y * w + x;
    lemma_index_in_range(x, y, w, height as int);
    lemma_fundamental_div_mod_converse(k, w, y, x);
    let r = raster_from(width, height, f);
    assert(r.data[4 * k] == channel_of(f(x, y), 0));
    assert(r.data[4 * k + 1] == channel_of(f(x, y), 1));
    assert(r.data[4 * k + 2] == channel_of(f(x, y), 2));
    assert(r.data[4 * k + 3] == channel_of(f(x, y), 3));
}

/// A well-formed raster is fixed by its dimensions and its pixels: one that
/// holds `f(x, y)` at every position is `raster_from` of `f`.
pub proof fn lemma_raster_is_from(r: Raster, f: spec_fn(int, int) -> Pixel)
    requires
        r.wf(),
        forall|x: int, y: int|
            0 <= x < r.width && 0 <= y < r.height ==> #[trigger] r.pixel(x, y) == f(x, y),
    ensures
        r == raster_from(r.width, r.height, f),
{
    let w: int = r.width as int;
    let h: int = r.height as int;
    let q = raster_from(r.width, r.height, f);
    assert forall|b: int| 0 <= b < r.data.len() implies r.data[b] == q.data[b] by {
        let k: int = b / 4;
        let c: int = b % 4;
        assert(0 <= k < w * h);
        assert(w > 0) by (nonlinear_arith)
            requires
                0 <= k < w * h,
                w >= 0,
        ;
        let x: int = k % w;
        let y: int = k / w;
        lemma_fundamental_div_mod(k, w);
        assert(0 <= x < w);
        assert(0 <= y < h) by (nonlinear_arith)
            requires
                k == w * y + x,
                0 <= x < w,
                0 <= k < w * h,
        ;
        assert(y * w + x == k) by (nonlinear_arith)
            requires
                k == w * y + x,
        ;
        assert(r.pixel(x, y) == f(x, y));
        assert(r.data[4 * k + c] == channel_of(r.pixel(x, y), c));
    }
    assert(r.data =~= q.data);
}

/// A position inside a `w` by `h` raster has a row-major index below `w * h`.
pub proof fn lemma_index_in_range(x: int, y: int, w: int, h: int)
    requires
        0 <= x < w,
        0 <= y < h,
    ensures
        0 <= y * w + x < w * h,
        y * w >= 0,
{
    assert(y * w >= 0) by (nonlinear_arith)
        requires
            0 <= y,
            0 <= w,
    ;
    assert(y * w + w <= h * w) by (nonlinear_arith)
        requires
            y + 1 <= h,
            0 <= w,
    ;
    assert(h * w == w * h) by (nonlinear_arith);
}

/// An owned RGBA image whose buffer holds exactly `4 * width * height` bytes.
pub struct Image {
    width: u32,
    height: u32,
    data: Vec<u8>,
}

impl View for Image {
    type V = Raster;

    closed spec fn view(&self) -> Raster {
        Raster { width: self.width as nat, height: self.height as nat, data: self.data@ }
    }
}

impl Image {
    #[verifier::type_invariant]
    pub open spec fn well_formed(self) -> bool {
        self@.wf()
    }

    /// Takes ownership of `data` as a `width` by `height` image. The buffer is
    /// accepted exactly when its length is `4 * width * height`.
    pub fn new(width: u32, height: u32, data: Vec<u8>) -> (r: Option<Image>)
        ensures
            r is Some <==> data@.len() == 4 * (width * height),
            r matches Some(img) ==> img@ == (Raster {
                width: width as nat,
                height: height as nat,
                data: data@,
            }),
    {
        assert(0 <= width * height <= 0xffff_ffff * 0xffff_ffff) by (nonlinear_arith)
            requires
                0 <= width <= 0xffff_ffff,
                0 <= height <= 0xffff_ffff,
        ;
        let need: u128 = 4 * ((width as u128) * (height as u128));
        if data.len() as u128 == need {
            Some(Image { width, height, data })
        } else {
            None
        }
    }

    /// Builds a `width` by `height` image whose pixel at `(x, y)` is what `f`
    /// returns for `(x, y)`. The pixels are asked for row by row, left to
    /// right.
    pub fn from_fn<F: Fn(u32, u32) -> Pixel>(width: u32, height: u32, f: F) -> (img: Image)
        requires
            forall|x: u32, y: u32| x < width && y < height ==> call_requires(f, (x, y)),
        ensures
            img@.width == width,
            img@.height == height,
            img@.wf(),
            forall|x: int, y: int|
                0 <= x < width && 0 <= y < height ==> call_ensures(
                    f,
                    (x as u32, y as u32),
                    #[trigger] img@.pixel(x, y),
                ),
    {
        let mut data: Vec<u8> = Vec::new();
        let mut y: u32 = 0;
        assert(0 * (width as int) == 0);
        while y < height
            invariant
                y <= height,
                forall|x: u32, y: u32| x < width && y < height ==> call_requires(f, (x, y)),
                data@.len() == 4 * (y * width),
                forall|i: int, j: int|
                    0 <= i < width && 0 <= j < y ==> call_ensures(
                        f,
                        (i as u32, j as u32),
                        #[trigger] pixel_in(data@, width as nat, i, j),
                    ),
            decreases height - y,
        {
            let mut x: u32 = 0;
            while x < width
                invariant
                    x <= width,
                    y < height,
                    forall|x: u32, y: u32| x < width && y < height ==> call_requires(f, (x, y)),
                    data@.len() == 4 * (y * width + x),
                    forall|i: int, j: int|
                        0 <= i < width && 0 <= j < y ==> call_ensures(
                            f,
                            (i as u32, j as u32),
                            #[trigger] pixel_in(data@, width as nat, i, j),
                        ),
                    forall|i: int|
                        0 <= i < x ==> call_ensures(
                            f,
                            (i as u32, y),
                            #[trigger] pixel_in(data@, width as nat, i, y as int),
                        ),
                decreases width - x,
            {
                let p: Pixel = f(x, y);
                let ghost before = data@;
                data.push(p.r);
                data.push(p.g);
                data.push(p.b);
                data.push(p.a);
                proof {
                    let w: nat = width as nat;
                    assert(y * width >= 0) by (nonlinear_arith)
                        requires
                            y >= 0,
                            width >= 0,
                    ;
                    assert forall|i: int, j: int| 0 <= i < width && 0 <= j < y implies call_ensures(
                        f,
                        (i as u32, j as u32),
                        #[trigger] pixel_in(data@, w, i, j),
                    ) by {
                        lemma_index_in_range(i, j, width as int, y as int);
                        assert(y * width == width * y) by (nonlinear_arith);
                        assert(pixel_in(data@, w, i, j) == pixel_in(before, w, i, j));
                    }
                    assert forall|i: int| 0 <= i < x + 1 implies call_ensures(
                        f,
                        (i as u32, y),
                        #[trigger] pixel_in(data@, w, i, y as int),
                    ) by {
                        if i < x {
                            assert(pixel_in(data@, w, i, y as int) == pixel_in(
                                before,
                                w,
                                i,
                                y as int,
                            ));
                        } else {
                            assert(pixel_in(data@, w, i, y as int) == p);
                        }
                    }
                }
                x += 1;
            }
            assert((y + 1) * width == y * width + width) by (nonlinear_arith);
            y += 1;
        }
        assert(height * width == width * height) by (nonlinear_arith);
        Image { width, height, data }
    }

    pub fn width(&self) -> (w: u32)
        ensures
            w == self@.width,
            self@.wf(),
    {
        proof {
            use_type_invariant(self);
        }
        self.width
    }

    pub fn height(&self) -> (h: u32)
        ensures
            h == self@.height,
            self@.wf(),
    {
        proof {
            use_type_invariant(self);
        }
        self.height
    }

    /// The raw bytes, four per pixel, row after row.
    pub fn as_bytes(&self) -> (bytes: &Vec<u8>)
        ensures
            bytes@ == self@.data,
            self@.wf(),
    {
        proof {
            use_type_invariant(self);
        }
        &self.data
    }

    /// Gives the buffer back.
    pub fn into_bytes(self) -> (bytes: Vec<u8>)
        ensures
            bytes@ == self@.data,
            self@.wf(),
    {
        proof {
            use_type_invariant(&self);
        }
        self.data
    }

    /// The pixel in column `x` of row `y`.
    pub fn get_pixel(&self, x: u32, y: u32) -> (p: Pixel)
        requires
            x < self@.width,
            y < self@.height,
        ensures
            p == self@.pixel(x as int, y as int),
    {
        let len: usize = self.data.len();
        proof {
            use_type_invariant(self);
            lemma_index_in_range(x as int, y as int, self.width as int, self.height as int);
            assert(len == 4 * (self.width * self.height));
        }
        let k: usize = (y as usize) * (self.width as usize) + (x as usize);
        let at: usize = 4 * k;
        Pixel {
            r: self.data[at],
            g: self.data[at + 1],
            b: self.data[at + 2],
            a: self.data[at + 3],
        }
    }
}

} // verus!
