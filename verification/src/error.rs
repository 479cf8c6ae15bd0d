//! The reasons for which the library refuses a request.

use vstd::prelude::*;
use crate::SpriteType;

verus! {

/// Why a lookup or a save was refused.
#[derive(Copy, Clone, Debug, PartialEq, Eq, Structural)]
pub enum Error {
    /// A reference edit sits on a variant other than SD.
    RefNotSd { sprite: usize, ty: SpriteType },
    /// There is no texture for this layer.
    NoTexture { layer: usize },
    /// The aggregate container holds no data in the slot of this sprite.
    NoSprite { sprite: usize },
    /// A sprite in a file of its own cannot refer to another sprite.
    RefInSeparate,
    /// No aggregate container is loaded.
    NoMainSd,
    /// The sprite variant cannot be resolved.
    NoFile,
    /// The sprite variant has no values.
    NoSpriteValues,
    /// The sprite variant has no opened file of its own.
    NoAnimFile,
    /// The catalogue names no file for this sprite variant.
    NoPath { sprite: usize, ty: SpriteType },
}

} // verus!
