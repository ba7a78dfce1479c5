//! PNG in and out.
//!
//! The codec is the `image` crate's. What it computes is not modelled here:
//! each call has a name for its result, and the functions of this module say
//! what they return in terms of those names. Nothing is believed about the
//! size or the content of what the codec hands back: the verified code checks
//! every decoded buffer against its dimensions before it is used.

use vstd::prelude::*;
use crate::error::RenderError;
use crate::face::{is_face, FaceImage};
use crate::raster::{Image, Raster};
use crate::scale::ScaledFaceImage;
use crate::texture::{is_atlas, SkinTexture, ATLAS_MIN_WIDTH, FACE_SIZE};

verus! {

/// A decoded picture as the decoder hands it over: its dimensions, its pixels
/// as 8-bit RGBA, and whether the decoder produced 8-bit RGBA itself or the
/// pixels had to be converted.
pub struct RawImage {
    pub width: u32,
    pub height: u32,
    pub data: Vec<u8>,
    pub native_rgba8: bool,
}

/// What decoding `bytes` as a PNG gives: the width and the height of the
/// picture, its pixels converted to 8-bit RGBA, and whether the decoder
/// produced 8-bit RGBA without conversion. `None` where the decoder reports
/// an error.
pub uninterp spec fn png_decoded(bytes: Seq<u8>) -> Option<(u32, u32, Seq<u8>, bool)>;

/// The PNG file that the encoder writes, with its default settings, for the
/// `width` by `height` RGBA picture `data`. `None` where it reports an error.
pub uninterp spec fn png_encoded(width: u32, height: u32, data: Seq<u8>) -> Option<Seq<u8>>;

/// The PNG file that the encoder writes, with best compression and the Paeth
/// filter, for the `width` by `height` RGBA picture `data`. `None` where it
/// reports an error.
pub uninterp spec fn png_encoded_best(width: u32, height: u32, data: Seq<u8>) -> Option<Seq<u8>>;

/// A decoder's answer as plain values.
pub open spec fn raw_view(r: Option<RawImage>) -> Option<(u32, u32, Seq<u8>, bool)> {
    match r {
        Some(raw) => Some((raw.width, raw.height, raw.data@, raw.native_rgba8)),
        None => None,
    }
}

/// An encoder's answer as plain values.
pub open spec fn bytes_view(r: Option<Vec<u8>>) -> Option<Seq<u8>> {
    match r {
        Some(bytes) => Some(bytes@),
        None => None,
    }
}

/// Calls `image::load_from_memory_with_format` for the PNG format, asks
/// `DynamicImage::as_rgba8` whether the decoder produced the `ImageRgba8`
/// variant, and lets `DynamicImage::into_rgba8` convert the picture, which
/// hands an `ImageRgba8` picture back as it is. The contract names the result
/// and claims nothing else of it.
#[verifier::external_body]
fn decode_png(bytes: &[u8]) -> (r: Option<RawImage>)
    ensures
        raw_view(r) == png_decoded(bytes@),
{
    let decoded = image::load_from_memory_with_format(bytes, image::ImageFormat::Png).ok()?;
    let native_rgba8 = decoded.as_rgba8().is_some();
    let buffer = decoded.into_rgba8();
    Some(
        RawImage {
            width: buffer.width(),
            height: buffer.height(),
            data: buffer.into_raw(),
            native_rgba8,
        },
    )
}

/// Calls `ImageEncoder::write_image` on `PngEncoder::new`, writing into
/// memory. The encoder panics on a buffer whose length does not match the
/// dimensions, which the precondition rules out. The contract names the
/// result and claims nothing else of it.
#[verifier::external_body]
fn encode_png(width: u32, height: u32, data: &[u8]) -> (r: Option<Vec<u8>>)
    requires
        data@.len() == 4 * (width * height),
    ensures
        bytes_view(r) == png_encoded(width, height, data@),
{
    let mut out: Vec<u8> = Vec::new();
    let encoder = image::codecs::png::PngEncoder::new(&mut out);
    image::ImageEncoder::write_image(
        encoder,
        data,
        width,
        height,
        image::ExtendedColorType::Rgba8,
    ).ok()?;
    Some(out)
}

/// Calls `ImageEncoder::write_image` on `PngEncoder::new_with_quality` with
/// `CompressionType::Best` and `FilterType::Paeth`, writing into memory. The
/// encoder panics on a buffer whose length does not match the dimensions,
/// which the precondition rules out. The contract names the result and claims
/// nothing else of it.
#[verifier::external_body]
fn encode_png_best(width: u32, height: u32, data: &[u8]) -> (r: Option<Vec<u8>>)
    requires
        data@.len() == 4 * (width * height),
    ensures
        bytes_view(r) == png_encoded_best(width, height, data@),
{
    let mut out: Vec<u8> = Vec::new();
    let encoder = image::codecs::png::PngEncoder::new_with_quality(
        &mut out,
        image::codecs::png::CompressionType::Best,
        image::codecs::png::FilterType::Paeth,
    );
    image::ImageEncoder::write_image(
        encoder,
        data,
        width,
        height,
        image::ExtendedColorType::Rgba8,
    ).ok()?;
    Some(out)
}

/// The raster that a decoder's answer stands for.
pub open spec fn raster_of(width: u32, height: u32, data: Seq<u8>) -> Raster {
    Raster { width: width as nat, height: height as nat, data }
}

/// The atlas in a decoder's answer. No picture, a picture that the decoder
/// did not produce as 8-bit RGBA, one whose buffer does not match its
/// dimensions, or one that is neither 32 nor 64 pixels high, is a decoding
/// failure; a well-formed picture narrower than 64 pixels is out of bounds.
pub open spec fn atlas_of(decoded: Option<(u32, u32, Seq<u8>, bool)>) -> Result<
    Raster,
    RenderError,
> {
    match decoded {
        None => Err(RenderError::DecodeError),
        Some((width, height, data, native_rgba8)) => {
            let r = raster_of(width, height, data);
            if !native_rgba8 {
                Err(RenderError::DecodeError)
            } else if is_atlas(r) {
                Ok(r)
            } else if r.wf() && width < ATLAS_MIN_WIDTH {
                Err(RenderError::OutOfBounds)
            } else {
                Err(RenderError::DecodeError)
            }
        },
    }
}

/// The face in a decoder's answer, whatever colour type the picture was
/// stored in. Anything but a well-formed 8x8 picture is a decoding failure.
pub open spec fn face_of(decoded: Option<(u32, u32, Seq<u8>, bool)>) -> Result<
    Raster,
    RenderError,
> {
    match decoded {
        None => Err(RenderError::DecodeError),
        Some((width, height, data, _)) => {
            let r = raster_of(width, height, data);
            if is_face(r) {
                Ok(r)
            } else {
                Err(RenderError::DecodeError)
            }
        },
    }
}

/// What an encoder's answer means for the caller.
pub open spec fn encoded_or_error(encoded: Option<Seq<u8>>) -> Result<Seq<u8>, RenderError> {
    match encoded {
        Some(bytes) => Ok(bytes),
        None => Err(RenderError::EncodeError),
    }
}

/// The atlas that a decoded picture holds.
pub fn atlas_from_raw(raw: Option<RawImage>) -> (r: Result<SkinTexture, RenderError>)
    ensures
        match r {
            Ok(atlas) => atlas_of(raw_view(raw)) == Ok::<Raster, RenderError>(atlas@),
            Err(e) => atlas_of(raw_view(raw)) == Err::<Raster, RenderError>(e),
        },
{
    match raw {
        Some(raw) => {
            if raw.native_rgba8 {
                SkinTexture::new(raw.width, raw.height, raw.data)
            } else {
                Err(RenderError::DecodeError)
            }
        },
        None => Err(RenderError::DecodeError),
    }
}

/// The face that a decoded picture holds.
pub fn face_from_raw(raw: Option<RawImage>) -> (r: Result<FaceImage, RenderError>)
    ensures
        match r {
            Ok(face) => face_of(raw_view(raw)) == Ok::<Raster, RenderError>(face@),
            Err(e) => face_of(raw_view(raw)) == Err::<Raster, RenderError>(e),
        },
{
    match raw {
        Some(raw) => match Image::new(raw.width, raw.height, raw.data) {
            Some(image) => FaceImage::from_image(image),
            None => Err(RenderError::DecodeError),
        },
        None => Err(RenderError::DecodeError),
    }
}

/// Decodes a downloaded atlas. Only a PNG that decodes to 8-bit RGBA without
/// conversion is taken.
pub fn decode_atlas(bytes: &[u8]) -> (r: Result<SkinTexture, RenderError>)
    ensures
        match r {
            Ok(atlas) => atlas_of(png_decoded(bytes@)) == Ok::<Raster, RenderError>(atlas@),
            Err(e) => atlas_of(png_decoded(bytes@)) == Err::<Raster, RenderError>(e),
        },
{
    atlas_from_raw(decode_png(bytes))
}

/// Decodes a face from the rendered tier. A PNG of any colour type is taken
/// and converted to 8-bit RGBA.
pub fn decode_face(bytes: &[u8]) -> (r: Result<FaceImage, RenderError>)
    ensures
        match r {
            Ok(face) => face_of(png_decoded(bytes@)) == Ok::<Raster, RenderError>(face@),
            Err(e) => face_of(png_decoded(bytes@)) == Err::<Raster, RenderError>(e),
        },
{
    face_from_raw(decode_png(bytes))
}

/// Serialises a face as a PNG.
pub fn encode_face(face: &FaceImage) -> (r: Result<Vec<u8>, RenderError>)
    ensures
        match r {
            Ok(bytes) => encoded_or_error(png_encoded(FACE_SIZE, FACE_SIZE, face@.data)) == Ok::<
                Seq<u8>,
                RenderError,
            >(bytes@),
            Err(e) => encoded_or_error(png_encoded(FACE_SIZE, FACE_SIZE, face@.data)) == Err::<
                Seq<u8>,
                RenderError,
            >(e),
        },
{
    let image: &Image = face.image();
    match encode_png(FACE_SIZE, FACE_SIZE, image.as_bytes().as_slice()) {
        Some(bytes) => Ok(bytes),
        None => Err(RenderError::EncodeError),
    }
}

/// Serialises an enlarged face as a PNG, compressed as well as the encoder
/// can.
pub fn encode_scaled(scaled: &ScaledFaceImage) -> (r: Result<Vec<u8>, RenderError>)
    ensures
        match r {
            Ok(bytes) => encoded_or_error(
                png_encoded_best(scaled@.width as u32, scaled@.height as u32, scaled@.data),
            ) == Ok::<Seq<u8>, RenderError>(bytes@),
            Err(e) => encoded_or_error(
                png_encoded_best(scaled@.width as u32, scaled@.height as u32, scaled@.data),
            ) == Err::<Seq<u8>, RenderError>(e),
        },
{
    let image: &Image = scaled.image();
    let width: u32 = image.width();
    let height: u32 = image.height();
    match encode_png_best(width, height, image.as_bytes().as_slice()) {
        Some(bytes) => Ok(bytes),
        None => Err(RenderError::EncodeError),
    }
}

} // verus!
