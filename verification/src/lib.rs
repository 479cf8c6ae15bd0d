//! Asset resolution and edit overlay for sprite containers that exist in
//! three resolution variants.
//!
//! A sprite is addressed by its index and a [`SpriteType`]. The SD data of
//! all sprites lives in one aggregate container, the HD and HD2 data of each
//! sprite in a file of its own. Pending edits are kept in memory, shown
//! through the composite view of a sprite and turned into a list of patch
//! writes when the session is saved.

pub mod anim;
pub mod edit;
pub mod error;
pub mod files;
pub mod frame_export;
pub mod frame_import;
pub mod frame_info;
pub mod layout;
pub mod paths;
pub mod save;
pub mod sprite_map;
pub mod text;
pub mod view;

use vstd::prelude::*;

verus! {

/// The resolution variant of a sprite.
#[derive(Copy, Clone, PartialEq, Eq, Debug, Hash, Structural)]
pub enum SpriteType {
    Sd,
    Hd,
    Hd2,
}

} // verus!
