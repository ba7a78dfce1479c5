//! The composited 8x8 face.

use vstd::prelude::*;
use crate::error::RenderError;
use crate::packed::blend_packed;
use crate::pixel::{
    blend, blend_spec, lemma_blend_opaque_overlay, lemma_blend_transparent_overlay, opaque,
    opaque_spec, transparent, Pixel,
};
use crate::raster::{
    lemma_raster_from_pixel, lemma_raster_is_from, pixel_at, raster_from, Image, Raster,
};
use crate::texture::{
    base_pixel, is_legacy, overlay_pixel, region_spec, SkinTexture, BASE_X, BASE_Y, FACE_SIZE,
    OVERLAY_X, OVERLAY_Y,
};

verus! {

/// A raster is a face when it is well formed and 8 by 8.
pub open spec fn is_face(r: Raster) -> bool {
    &&& r.wf()
    &&& r.width == FACE_SIZE
    &&& r.height == FACE_SIZE
}

/// Pixel `(i, j)` of the face of `atlas`. The base pixel is the background,
/// taken at full opacity; the hat pixel is laid on it; the alpha of the result
/// is forced to full opacity.
pub open spec fn compose_pixel(atlas: Raster, i: int, j: int) -> Pixel {
    opaque_spec(blend_spec(opaque_spec(base_pixel(atlas, i, j)), overlay_pixel(atlas, i, j)))
}

/// The face of `atlas`.
pub open spec fn compose_spec(atlas: Raster) -> Raster {
    raster_from(FACE_SIZE as nat, FACE_SIZE as nat, |i: int, j: int| compose_pixel(atlas, i, j))
}

/// `layer` laid on `canvas`, pixel by pixel. The result has the dimensions of
/// the canvas.
pub open spec fn layer_over(canvas: Raster, layer: Raster) -> Raster {
    raster_from(
        canvas.width,
        canvas.height,
        |i: int, j: int| blend_spec(canvas.pixel(i, j), layer.pixel(i, j)),
    )
}

/// The 8x8 raster that a canvas of 256 bytes stands for.
pub open spec fn canvas_raster(bytes: Seq<u8>) -> Raster {
    Raster { width: FACE_SIZE as nat, height: FACE_SIZE as nat, data: bytes }
}

/// The face depends on nothing but the base face, the hat layer and the
/// format: two atlases that agree on these have the same face, byte for byte.
/// In particular one atlas always has one face.
pub proof fn lemma_compose_reads_only_the_layers(a: Raster, b: Raster)
    requires
        is_legacy(a) == is_legacy(b),
        forall|i: int, j: int|
            0 <= i < FACE_SIZE && 0 <= j < FACE_SIZE ==> #[trigger] base_pixel(a, i, j)
                == base_pixel(b, i, j),
        forall|i: int, j: int|
            0 <= i < FACE_SIZE && 0 <= j < FACE_SIZE ==> #[trigger] overlay_pixel(a, i, j)
                == overlay_pixel(b, i, j),
    ensures
        compose_spec(a) == compose_spec(b),
{
    let fa = compose_spec(a);
    assert forall|i: int, j: int| 0 <= i < fa.width && 0 <= j < fa.height implies #[trigger] fa.pixel(
        i,
        j,
    ) == compose_pixel(b, i, j) by {
        lemma_raster_from_pixel(8, 8, |i: int, j: int| compose_pixel(a, i, j), i, j);
        assert(base_pixel(a, i, j) == base_pixel(b, i, j));
        assert(overlay_pixel(a, i, j) == overlay_pixel(b, i, j));
    }
    lemma_raster_from_pixel(8, 8, |i: int, j: int| compose_pixel(a, i, j), 0, 0);
    lemma_raster_is_from(fa, |i: int, j: int| compose_pixel(b, i, j));
}

/// Every pixel of a face is opaque.
pub proof fn lemma_face_is_opaque(atlas: Raster, i: int, j: int)
    requires
        0 <= i < FACE_SIZE,
        0 <= j < FACE_SIZE,
    ensures
        compose_spec(atlas).pixel(i, j).a == 255,
        is_face(compose_spec(atlas)),
{
    lemma_raster_from_pixel(8, 8, |i: int, j: int| compose_pixel(atlas, i, j), i, j);
}

/// Composing is two over-operations in a row. Where the base pixel is
/// opaque, the face pixel is what comes of laying the base pixel on an empty
/// canvas, laying the hat pixel on the result, and making that opaque.
pub proof fn lemma_compose_is_two_overs(atlas: Raster, i: int, j: int)
    requires
        base_pixel(atlas, i, j).a == 255,
    ensures
        compose_pixel(atlas, i, j) == opaque_spec(
            blend_spec(
                blend_spec(transparent(), base_pixel(atlas, i, j)),
                overlay_pixel(atlas, i, j),
            ),
        ),
{
    lemma_blend_opaque_overlay(transparent(), base_pixel(atlas, i, j));
}

/// Where the hat pixel is fully transparent, as it is everywhere in a legacy
/// atlas, the face pixel is the base pixel made opaque.
pub proof fn lemma_compose_without_hat(atlas: Raster, i: int, j: int)
    requires
        overlay_pixel(atlas, i, j).a == 0,
    ensures
        compose_pixel(atlas, i, j) == opaque_spec(base_pixel(atlas, i, j)),
{
    lemma_blend_transparent_overlay(opaque_spec(base_pixel(atlas, i, j)), overlay_pixel(atlas, i, j));
}

/// Where the hat pixel is fully opaque, the face pixel is the hat pixel.
pub proof fn lemma_compose_under_opaque_hat(atlas: Raster, i: int, j: int)
    requires
        overlay_pixel(atlas, i, j).a == 255,
    ensures
        compose_pixel(atlas, i, j) == overlay_pixel(atlas, i, j),
{
    lemma_blend_opaque_overlay(opaque_spec(base_pixel(atlas, i, j)), overlay_pixel(atlas, i, j));
}

/// An 8x8 RGBA image.
pub struct FaceImage {
    image: Image,
}

impl View for FaceImage {
    type V = Raster;

    closed spec fn view(&self) -> Raster {
        self.image@
    }
}

impl FaceImage {
    #[verifier::type_invariant]
    pub open spec fn well_formed(self) -> bool {
        is_face(self@)
    }

    /// Accepts `image` as a face exactly when it is 8 by 8.
    pub fn from_image(image: Image) -> (r: Result<FaceImage, RenderError>)
        ensures
            r is Ok <==> is_face(image@),
            r matches Ok(face) ==> face@ == image@,
            r matches Err(e) ==> e == RenderError::DecodeError,
    {
        let width: u32 = image.width();
        let height: u32 = image.height();
        if width == FACE_SIZE && height == FACE_SIZE {
            Ok(FaceImage { image })
        } else {
            Err(RenderError::DecodeError)
        }
    }

    /// The face as a plain image.
    pub fn image(&self) -> (image: &Image)
        ensures
            image@ == self@,
            is_face(self@),
    {
        proof {
            use_type_invariant(self);
        }
        &self.image
    }

    /// The pixel in column `x` of row `y`.
    pub fn get_pixel(&self, x: u32, y: u32) -> (p: Pixel)
        requires
            x < FACE_SIZE,
            y < FACE_SIZE,
        ensures
            p == self@.pixel(x as int, y as int),
    {
        proof {
            use_type_invariant(self);
        }
        self.image.get_pixel(x, y)
    }
}

/// Composes the face of `atlas`: the hat layer over the base face, pixel by
/// pixel, with the result made opaque.
pub fn compose(atlas: &SkinTexture) -> (face: FaceImage)
    ensures
        face@ == compose_spec(atlas@),
        is_face(face@),
        forall|i: int, j: int|
            0 <= i < FACE_SIZE && 0 <= j < FACE_SIZE ==> #[trigger] face@.pixel(i, j)
                == compose_pixel(atlas@, i, j),
{
    let image: &Image = atlas.image();
    let legacy: bool = atlas.is_legacy();
    let one = |i: u32, j: u32| -> (p: Pixel)
        requires
            i < FACE_SIZE,
            j < FACE_SIZE,
        ensures
            p == compose_pixel(image@, i as int, j as int),
        {
            let background: Pixel = opaque(image.get_pixel(BASE_X + i, BASE_Y + j));
            let hat: Pixel = if legacy {
                Pixel { r: 0, g: 0, b: 0, a: 0 }
            } else {
                image.get_pixel(OVERLAY_X + i, OVERLAY_Y + j)
            };
            opaque(blend(background, hat))
        };
    let canvas: Image = Image::from_fn(FACE_SIZE, FACE_SIZE, one);
    proof {
        lemma_raster_is_from(canvas@, |i: int, j: int| compose_pixel(atlas@, i, j));
    }
    FaceImage { image: canvas }
}

/// Lays the 8x8 region of `src` whose top left corner is `(rx, ry)` on the 8x8
/// canvas `dst`, in place, four channels at a time. A region that reaches past
/// the right edge of the atlas is refused and the canvas is left as it was; one
/// that reaches past the bottom edge is transparent and changes nothing.
pub fn comp(rx: u32, ry: u32, dst: &mut [u8; 256], src: &SkinTexture) -> (r: Result<
    (),
    RenderError,
>)
    ensures
        r is Err <==> rx + FACE_SIZE > src@.width,
        r matches Err(e) ==> e == RenderError::OutOfBounds && final(dst)@ == old(dst)@,
        r is Ok ==> canvas_raster(final(dst)@) == layer_over(
            canvas_raster(old(dst)@),
            region_spec(src@, rx as int, ry as int, FACE_SIZE as nat, FACE_SIZE as nat),
        ),
{
    let layer: Image = match src.extract(rx, ry, FACE_SIZE, FACE_SIZE) {
        Ok(layer) => layer,
        Err(e) => {
            return Err(e);
        },
    };
    let ghost before: Seq<u8> = dst@;
    let ghost region: Raster = layer@;
    let mut k: usize = 0;
    while k < 64
        invariant
            k <= 64,
            region == layer@,
            region.width == 8,
            region.height == 8,
            before.len() == 256,
            dst@.len() == 256,
            forall|m: int|
                0 <= m < k ==> #[trigger] pixel_at(dst@, m) == blend_spec(
                    pixel_at(before, m),
                    region.pixel(m % 8, m / 8),
                ),
            forall|b: int| 4 * k <= b < 256 ==> dst@[b] == before[b],
        decreases 64 - k,
    {
        let x: u32 = (k % 8) as u32;
        let y: u32 = (k / 8) as u32;
        let at: usize = 4 * k;
        let under: Pixel = Pixel { r: dst[at], g: dst[at + 1], b: dst[at + 2], a: dst[at + 3] };
        let p: Pixel = blend_packed(under, layer.get_pixel(x, y));
        let ghost prev: Seq<u8> = dst@;
        dst[at] = p.r;
        dst[at + 1] = p.g;
        dst[at + 2] = p.b;
        dst[at + 3] = p.a;
        proof {
            assert(under == pixel_at(before, k as int));
            assert forall|m: int| 0 <= m < k + 1 implies #[trigger] pixel_at(dst@, m)
                == blend_spec(pixel_at(before, m), region.pixel(m % 8, m / 8)) by {
                if m < k {
                    assert(pixel_at(dst@, m) == pixel_at(prev, m));
                }
            }
        }
        k += 1;
    }
    proof {
        let canvas: Raster = canvas_raster(before);
        let done: Raster = canvas_raster(dst@);
        assert forall|i: int, j: int| 0 <= i < 8 && 0 <= j < 8 implies #[trigger] done.pixel(i, j)
            == blend_spec(canvas.pixel(i, j), region.pixel(i, j)) by {
            let m: int = j * 8 + i;
            assert(m % 8 == i && m / 8 == j);
            assert(done.pixel(i, j) == pixel_at(dst@, m));
        }
        lemma_raster_is_from(
            done,
            |i: int, j: int| blend_spec(canvas.pixel(i, j), region.pixel(i, j)),
        );
    }
    Ok(())
}

} // verus!
