//! What can go wrong while a face is rendered.

use vstd::prelude::*;

verus! {

/// The failure classes of the renderer.
#[derive(Clone, Copy, Debug, PartialEq, Eq, Structural)]
pub enum RenderError {
    /// The requested name is not 3 to 16 ASCII letters, digits or underscores.
    InvalidIdentity,
    /// The profile lookup knows no such player and no texture could be had
    /// from the default source either.
    UpstreamLookupNotFound,
    /// A lookup or a download failed in transport.
    UpstreamError,
    /// An existing cache entry could not be read.
    IOError,
    /// Bytes that should hold an image do not, or not one of the right shape.
    DecodeError,
    /// A finished image could not be serialised.
    EncodeError,
    /// A region reaches past the right edge of the atlas.
    OutOfBounds,
    /// The pipeline was handed an event that does not answer its last action.
    UnexpectedEvent,
}

} // verus!
