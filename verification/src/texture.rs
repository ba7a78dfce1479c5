//! The skin atlas and the fixed regions that are cut out of it.

use vstd::prelude::*;
use crate::error::RenderError;
use crate::pixel::{transparent, Pixel};
use crate::raster::{lemma_raster_from_pixel, lemma_raster_is_from, raster_from, Image, Raster};

verus! {

/// Edge length of the face, in pixels.
pub const FACE_SIZE: u32 = 8;

/// Left column of the base face in the atlas.
pub const BASE_X: u32 = 8;

/// Top row of the base face in the atlas.
pub const BASE_Y: u32 = 8;

/// Left column of the hat layer in the atlas.
pub const OVERLAY_X: u32 = 40;

/// Top row of the hat layer in the atlas.
pub const OVERLAY_Y: u32 = 8;

/// The least width an atlas may have.
pub const ATLAS_MIN_WIDTH: u32 = 64;

/// Height of the legacy, short atlas, which carries no hat layer.
pub const LEGACY_HEIGHT: u32 = 32;

/// Height of the modern atlas.
pub const MODERN_HEIGHT: u32 = 64;

/// A raster is an atlas when it is well formed, at least 64 pixels wide and
/// 32 or 64 pixels high.
pub open spec fn is_atlas(r: Raster) -> bool {
    &&& r.wf()
    &&& r.width >= ATLAS_MIN_WIDTH
    &&& (r.height == LEGACY_HEIGHT || r.height == MODERN_HEIGHT)
}

/// The short format, in which the hat layer is taken to be absent.
pub open spec fn is_legacy(r: Raster) -> bool {
    r.height == LEGACY_HEIGHT
}

/// Pixel `(i, j)` of the region of height `h` whose top left corner is
/// `(x, y)`: the atlas pixel under it where the atlas has all the rows of the
/// region, a transparent pixel where it has not.
pub open spec fn region_pixel(atlas: Raster, x: int, y: int, h: int, i: int, j: int) -> Pixel {
    if y + h <= atlas.height {
        atlas.pixel(x + i, y + j)
    } else {
        transparent()
    }
}

/// The `w` by `h` region of `atlas` whose top left corner is `(x, y)`.
pub open spec fn region_spec(atlas: Raster, x: int, y: int, w: nat, h: nat) -> Raster {
    raster_from(w, h, |i: int, j: int| region_pixel(atlas, x, y, h as int, i, j))
}

/// Pixel `(i, j)` of the base face.
pub open spec fn base_pixel(atlas: Raster, i: int, j: int) -> Pixel {
    atlas.pixel(BASE_X + i, BASE_Y + j)
}

/// Pixel `(i, j)` of the hat layer: transparent in the legacy format.
pub open spec fn overlay_pixel(atlas: Raster, i: int, j: int) -> Pixel {
    if is_legacy(atlas) {
        transparent()
    } else {
        atlas.pixel(OVERLAY_X + i, OVERLAY_Y + j)
    }
}

/// The 8x8 hat layer of `atlas`.
pub open spec fn overlay_spec(atlas: Raster) -> Raster {
    raster_from(FACE_SIZE as nat, FACE_SIZE as nat, |i: int, j: int| overlay_pixel(atlas, i, j))
}

/// The hat layer of a legacy atlas is fully transparent, whatever the atlas
/// holds.
pub proof fn lemma_legacy_overlay_is_transparent(atlas: Raster, i: int, j: int)
    requires
        is_legacy(atlas),
        0 <= i < FACE_SIZE,
        0 <= j < FACE_SIZE,
    ensures
        overlay_spec(atlas).pixel(i, j) == transparent(),
        overlay_spec(atlas).pixel(i, j).a == 0,
{
    lemma_raster_from_pixel(
        FACE_SIZE as nat,
        FACE_SIZE as nat,
        |i: int, j: int| overlay_pixel(atlas, i, j),
        i,
        j,
    );
}

/// A decoded skin atlas.
pub struct SkinTexture {
    image: Image,
}

impl View for SkinTexture {
    type V = Raster;

    closed spec fn view(&self) -> Raster {
        self.image@
    }
}

impl SkinTexture {
    #[verifier::type_invariant]
    pub open spec fn well_formed(self) -> bool {
        is_atlas(self@)
    }

    /// Accepts `image` as an atlas. An image narrower than 64 pixels is out
    /// of bounds for the regions that are read from it; one that is neither
    /// 32 nor 64 pixels high is no skin.
    pub fn from_image(image: Image) -> (r: Result<SkinTexture, RenderError>)
        ensures
            r is Ok <==> is_atlas(image@),
            r matches Ok(atlas) ==> atlas@ == image@,
            r matches Err(e) ==> e == (if image@.width < ATLAS_MIN_WIDTH {
                RenderError::OutOfBounds
            } else {
                RenderError::DecodeError
            }),
    {
        let width: u32 = image.width();
        let height: u32 = image.height();
        if width < ATLAS_MIN_WIDTH {
            Err(RenderError::OutOfBounds)
        } else if height != LEGACY_HEIGHT && height != MODERN_HEIGHT {
            Err(RenderError::DecodeError)
        } else {
            Ok(SkinTexture { image })
        }
    }

    /// Accepts raw RGBA bytes as a `width` by `height` atlas. A buffer whose
    /// length is not `4 * width * height` is no image.
    pub fn new(width: u32, height: u32, data: Vec<u8>) -> (r: Result<SkinTexture, RenderError>)
        ensures
            r is Ok <==> is_atlas(Raster { width: width as nat, height: height as nat, data: data@ }),
            r matches Ok(atlas) ==> atlas@ == (Raster {
                width: width as nat,
                height: height as nat,
                data: data@,
            }),
            r matches Err(e) ==> e == (if data@.len() == 4 * (width * height) && width
                < ATLAS_MIN_WIDTH {
                RenderError::OutOfBounds
            } else {
                RenderError::DecodeError
            }),
    {
        match Image::new(width, height, data) {
            Some(image) => SkinTexture::from_image(image),
            None => Err(RenderError::DecodeError),
        }
    }

    /// The atlas as a plain image.
    pub fn image(&self) -> (image: &Image)
        ensures
            image@ == self@,
            is_atlas(self@),
    {
        proof {
            use_type_invariant(self);
        }
        &self.image
    }

    /// Whether the atlas is of the short format without a hat layer.
    pub fn is_legacy(&self) -> (legacy: bool)
        ensures
            legacy == is_legacy(self@),
    {
        self.image.height() == LEGACY_HEIGHT
    }

    /// Copies the `w` by `h` region whose top left corner is `(x, y)`. The
    /// only failure is a region that reaches past the right edge. A region that
    /// reaches past the bottom edge comes back fully transparent.
    pub fn extract(&self, x: u32, y: u32, w: u32, h: u32) -> (r: Result<Image, RenderError>)
        ensures
            r is Err <==> x + w > self@.width,
            r matches Err(e) ==> e == RenderError::OutOfBounds,
            r matches Ok(region) ==> region@ == region_spec(
                self@,
                x as int,
                y as int,
                w as nat,
                h as nat,
            ),
    {
        proof {
            use_type_invariant(self);
        }
        let image: &Image = &self.image;
        let width: u32 = image.width();
        let height: u32 = image.height();
        if x as u64 + w as u64 > width as u64 {
            return Err(RenderError::OutOfBounds);
        }
        let rows_present: bool = y as u64 + h as u64 <= height as u64;
        let ghost atlas: Raster = self@;
        let cut = |i: u32, j: u32| -> (p: Pixel)
            requires
                i < w,
                j < h,
            ensures
                p == region_pixel(image@, x as int, y as int, h as int, i as int, j as int),
            {
                if rows_present {
                    image.get_pixel(x + i, y + j)
                } else {
                    Pixel { r: 0, g: 0, b: 0, a: 0 }
                }
            };
        let region: Image = Image::from_fn(w, h, cut);
        proof {
            lemma_raster_is_from(
                region@,
                |i: int, j: int| region_pixel(atlas, x as int, y as int, h as int, i, j),
            );
        }
        Ok(region)
    }

    /// The 8x8 base face, the region at `(8, 8)`.
    pub fn base_region(&self) -> (region: Image)
        ensures
            region@ == region_spec(
                self@,
                BASE_X as int,
                BASE_Y as int,
                FACE_SIZE as nat,
                FACE_SIZE as nat,
            ),
    {
        proof {
            use_type_invariant(self);
        }
        let image: &Image = &self.image;
        let height: u32 = image.height();
        let cut = |i: u32, j: u32| -> (p: Pixel)
            requires
                i < FACE_SIZE,
                j < FACE_SIZE,
            ensures
                p == region_pixel(
                    image@,
                    BASE_X as int,
                    BASE_Y as int,
                    FACE_SIZE as int,
                    i as int,
                    j as int,
                ),
            { image.get_pixel(BASE_X + i, BASE_Y + j) };
        let region: Image = Image::from_fn(FACE_SIZE, FACE_SIZE, cut);
        proof {
            lemma_raster_is_from(
                region@,
                |i: int, j: int|
                    region_pixel(self@, BASE_X as int, BASE_Y as int, FACE_SIZE as int, i, j),
            );
        }
        region
    }

    /// The 8x8 hat layer: fully transparent for a legacy atlas, the region at
    /// `(40, 8)` otherwise.
    pub fn overlay_region(&self) -> (region: Image)
        ensures
            region@ == overlay_spec(self@),
            is_legacy(self@) ==> forall|i: int, j: int|
                0 <= i < FACE_SIZE && 0 <= j < FACE_SIZE ==> (#[trigger] region@.pixel(i, j)).a == 0,
    {
        proof {
            use_type_invariant(self);
        }
        let image: &Image = &self.image;
        let legacy: bool = self.is_legacy();
        let ghost atlas: Raster = self@;
        let cut = |i: u32, j: u32| -> (p: Pixel)
            requires
                i < FACE_SIZE,
                j < FACE_SIZE,
            ensures
                p == overlay_pixel(image@, i as int, j as int),
            {
                if legacy {
                    Pixel { r: 0, g: 0, b: 0, a: 0 }
                } else {
                    image.get_pixel(OVERLAY_X + i, OVERLAY_Y + j)
                }
            };
        let region: Image = Image::from_fn(FACE_SIZE, FACE_SIZE, cut);
        proof {
            lemma_raster_is_from(region@, |i: int, j: int| overlay_pixel(atlas, i, j));
        }
        region
    }
}

} // verus!
