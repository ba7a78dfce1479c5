//! Face thumbnails for sprite-atlas player skins.
//!
//! The crate composites the 8x8 face of a skin atlas with its semi-transparent
//! hat layer, upscales the result by pixel replication, and decides, request by
//! request, which cached artifact to reuse and which to compute anew. Every
//! function is verified against the contract it carries; the few calls into
//! the PNG codec and into `std` that are believed rather than proved are
//! gathered in `codec` and `identity`.

pub mod cache;
pub mod codec;
pub mod error;
pub mod face;
pub mod identity;
pub mod packed;
pub mod pipeline;
pub mod pixel;
pub mod raster;
pub mod scale;
pub mod texture;
pub mod trace;
