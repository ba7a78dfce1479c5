//! The restricted set of scale factors and nearest-neighbour upscaling.

use vstd::prelude::*;
use vstd::arithmetic::div_mod::lemma_fundamental_div_mod_converse;
use crate::face::FaceImage;
use crate::pixel::Pixel;
use crate::raster::{lemma_raster_is_from, lemma_raster_from_pixel, raster_from, Image, Raster};
use crate::texture::FACE_SIZE;

verus! {

/// The factors a face may be scaled by.
pub open spec fn is_restricted(s: int) -> bool {
    s == 1 || s == 2 || s == 4 || s == 8 || s == 16
}

/// The factor that a request stands for: the requested one where it is in the
/// restricted set, and 1 for every other value and where none was given.
pub open spec fn clamp_spec(requested: Option<u32>) -> int {
    match requested {
        Some(s) => if is_restricted(s as int) {
            s as int
        } else {
            1
        },
        None => 1,
    }
}

/// A scale factor from the restricted set.
#[derive(Clone, Copy, Debug)]
pub struct Scale {
    factor: u32,
}

impl View for Scale {
    type V = int;

    closed spec fn view(&self) -> int {
        self.factor as int
    }
}

impl Scale {
    #[verifier::type_invariant]
    pub open spec fn well_formed(self) -> bool {
        is_restricted(self@)
    }

    /// Coerces a requested factor into the restricted set.
    pub fn clamp(requested: Option<u32>) -> (scale: Scale)
        ensures
            scale@ == clamp_spec(requested),
            is_restricted(scale@),
    {
        match requested {
            Some(s) => {
                if s == 1 || s == 2 || s == 4 || s == 8 || s == 16 {
                    Scale { factor: s }
                } else {
                    Scale { factor: 1 }
                }
            },
            None => Scale { factor: 1 },
        }
    }

    /// The factor as a number.
    pub fn get(&self) -> (factor: u32)
        ensures
            factor == self@,
            is_restricted(self@),
    {
        proof {
            use_type_invariant(self);
        }
        self.factor
    }

    /// Whether a face scaled by this factor is larger than the face.
    pub fn enlarges(&self) -> (larger: bool)
        ensures
            larger == (self@ > 1),
    {
        self.factor > 1
    }
}

/// A factor outside the restricted set stands for the same scale as the
/// factor 1.
pub proof fn lemma_unlisted_scale_is_one(requested: u32)
    requires
        !is_restricted(requested as int),
    ensures
        clamp_spec(Some(requested)) == clamp_spec(Some(1u32)),
        clamp_spec(Some(requested)) == clamp_spec(None),
        clamp_spec(Some(requested)) == 1,
{
}

/// Pixel `(x, y)` of a face scaled by `s`: the face pixel at `(x / s, y / s)`,
/// rounding down.
pub open spec fn upscale_pixel(face: Raster, s: int, x: int, y: int) -> Pixel {
    face.pixel(x / s, y / s)
}

/// The face scaled by `s`, `8 * s` pixels wide and high.
pub open spec fn upscale_spec(face: Raster, s: int) -> Raster {
    raster_from(
        (FACE_SIZE * s) as nat,
        (FACE_SIZE * s) as nat,
        |x: int, y: int| upscale_pixel(face, s, x, y),
    )
}

/// In a face scaled by `s`, the whole `s` by `s` block that stands for the
/// face pixel `(bx, by)` holds that pixel.
pub proof fn lemma_upscale_blocks_uniform(face: Raster, s: int, bx: int, by: int, dx: int, dy: int)
    requires
        s > 0,
        0 <= bx < FACE_SIZE,
        0 <= by < FACE_SIZE,
        0 <= dx < s,
        0 <= dy < s,
    ensures
        upscale_spec(face, s).width == FACE_SIZE * s,
        upscale_spec(face, s).height == FACE_SIZE * s,
        upscale_spec(face, s).wf(),
        upscale_spec(face, s).pixel(bx * s + dx, by * s + dy) == face.pixel(bx, by),
{
    let x: int = bx * s + dx;
    let y: int = by * s + dy;
    assert(0 <= x < 8 * s) by (nonlinear_arith)
        requires
            x == bx * s + dx,
            0 <= bx < 8,
            0 <= dx < s,
    ;
    assert(0 <= y < 8 * s) by (nonlinear_arith)
        requires
            y == by * s + dy,
            0 <= by < 8,
            0 <= dy < s,
    ;
    lemma_fundamental_div_mod_converse(x, s, bx, dx);
    lemma_fundamental_div_mod_converse(y, s, by, dy);
    lemma_raster_from_pixel(
        (FACE_SIZE * s) as nat,
        (FACE_SIZE * s) as nat,
        |x: int, y: int| upscale_pixel(face, s, x, y),
        x,
        y,
    );
}

/// A face replicated by a factor from the restricted set.
pub struct ScaledFaceImage {
    image: Image,
    scale: Scale,
}

/// A raster is a face scaled by `s` when it is well formed and `8 * s` pixels
/// wide and high.
pub open spec fn is_scaled_face(r: Raster, s: int) -> bool {
    &&& r.wf()
    &&& r.width == FACE_SIZE * s
    &&& r.height == FACE_SIZE * s
}

impl View for ScaledFaceImage {
    type V = Raster;

    closed spec fn view(&self) -> Raster {
        self.image@
    }
}

impl ScaledFaceImage {
    /// The factor the image was scaled by.
    pub closed spec fn factor(self) -> int {
        self.scale@
    }

    #[verifier::type_invariant]
    pub open spec fn well_formed(self) -> bool {
        is_restricted(self.factor()) && is_scaled_face(self@, self.factor())
    }

    /// The scaled face as a plain image.
    pub fn image(&self) -> (image: &Image)
        ensures
            image@ == self@,
            is_scaled_face(self@, self.factor()),
    {
        proof {
            use_type_invariant(self);
        }
        &self.image
    }

    /// The factor the image was scaled by.
    pub fn scale(&self) -> (scale: Scale)
        ensures
            scale@ == self.factor(),
            is_restricted(self.factor()),
    {
        proof {
            use_type_invariant(self);
        }
        self.scale
    }
}

/// Replicates every pixel of `face` into a block of `scale` by `scale` pixels.
/// Nothing is filtered: the pixel at `(x, y)` is the face pixel at
/// `(x / scale, y / scale)`.
pub fn upscale(face: &FaceImage, scale: Scale) -> (out: ScaledFaceImage)
    ensures
        out@ == upscale_spec(face@, scale@),
        out.factor() == scale@,
        is_scaled_face(out@, scale@),
        forall|x: int, y: int|
            0 <= x < FACE_SIZE * scale@ && 0 <= y < FACE_SIZE * scale@ ==> #[trigger] out@.pixel(
                x,
                y,
            ) == face@.pixel(x / scale@, y / scale@),
{
    let s: u32 = scale.get();
    let side: u32 = FACE_SIZE * s;
    let image: &Image = face.image();
    let one = |x: u32, y: u32| -> (p: Pixel)
        requires
            x < side,
            y < side,
        ensures
            p == upscale_pixel(image@, s as int, x as int, y as int),
        {
            assert(x / s < 8 && y / s < 8) by (nonlinear_arith)
                requires
                    x < 8 * s,
                    y < 8 * s,
                    s > 0,
            ;
            image.get_pixel(x / s, y / s)
        };
    let scaled: Image = Image::from_fn(side, side, one);
    proof {
        lemma_raster_is_from(scaled@, |x: int, y: int| upscale_pixel(face@, s as int, x, y));
    }
    ScaledFaceImage { image: scaled, scale }
}

} // verus!
