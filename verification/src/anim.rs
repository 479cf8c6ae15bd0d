//! Decoded sprite containers.
//!
//! The aggregate container holds one slot per sprite; a slot owns its data or
//! refers to the slot of another sprite. A single-sprite container holds the
//! data of one sprite. Both carry the names of their texture layers.

use vstd::prelude::*;

verus! {

/// The editable numbers of a sprite.
#[derive(Copy, Clone, PartialEq, Eq, Debug, Structural)]
pub struct SpriteValues {
    pub unk2: u16,
    pub width: u16,
    pub height: u16,
}

/// Where one animation frame lies in the texture and how it is placed.
#[derive(Copy, Clone, PartialEq, Eq, Debug, Structural)]
pub struct Frame {
    pub tex_x: u16,
    pub tex_y: u16,
    pub x_off: i16,
    pub y_off: i16,
    pub width: u16,
    pub height: u16,
    pub unknown: u32,
}

/// Position and size of one layer's texture inside its container.
#[derive(Copy, Clone, PartialEq, Eq, Debug, Structural)]
pub struct Texture {
    pub offset: u32,
    pub size: u32,
    pub width: u16,
    pub height: u16,
}

/// The pixel encodings a texture layer can be stored in.
#[derive(Copy, Clone, PartialEq, Eq, Debug, Structural)]
pub enum TextureFormat {
    Dxt1,
    Dxt5,
    Monochrome,
}

/// The decoded pixels of a texture layer, four bytes a pixel, row after row.
#[derive(Clone, Debug, PartialEq, Eq)]
pub struct RgbaTexture {
    pub data: Vec<u8>,
    pub width: u32,
    pub height: u32,
}

/// A replacement for the frames and the layer textures of one sprite.
#[derive(Clone, Debug, PartialEq, Eq)]
pub struct TexChanges {
    pub frames: Vec<Frame>,
    pub textures: Vec<Option<(Texture, Vec<u8>)>>,
}

/// What a sprite slot says of itself: its own values, or the sprite it
/// refers to.
#[derive(Copy, Clone, PartialEq, Eq, Debug, Structural)]
pub enum ValuesOrRef {
    Values(SpriteValues),
    Ref(u32),
}

/// The data a sprite slot owns.
#[derive(Clone, Debug, PartialEq, Eq)]
pub struct SpriteData {
    pub values: SpriteValues,
    pub frames: Vec<Frame>,
    pub textures: Vec<Option<Texture>>,
}

/// One slot of the aggregate container.
#[derive(Clone, Debug, PartialEq, Eq)]
pub enum SpriteType {
    Ref(u32),
    Data(SpriteData),
}

/// The aggregate container: the SD data of every sprite.
#[derive(Clone, Debug, PartialEq, Eq)]
pub struct MainSd {
    pub sprites: Vec<SpriteType>,
    pub layer_names: Vec<String>,
}

/// A single-sprite container: the HD or HD2 data of one sprite.
#[derive(Clone, Debug, PartialEq, Eq)]
pub struct Anim {
    pub values: SpriteValues,
    pub frames: Vec<Frame>,
    pub textures: Vec<Option<Texture>>,
    pub layer_names: Vec<String>,
}

impl MainSd {
    /// The data that slot `sprite` owns itself; `None` for a reference and
    /// for an index past the last slot.
    pub open spec fn spec_own_data(&self, sprite: int) -> Option<SpriteData> {
        if 0 <= sprite < self.sprites@.len() {
            match self.sprites@[sprite] {
                SpriteType::Data(d) => Some(d),
                SpriteType::Ref(_) => None,
            }
        } else {
            None
        }
    }

    /// The sprite that slot `sprite` refers to, if it is a reference.
    pub open spec fn spec_image_ref(&self, sprite: int) -> Option<u32> {
        if 0 <= sprite < self.sprites@.len() {
            match self.sprites@[sprite] {
                SpriteType::Data(_) => None,
                SpriteType::Ref(target) => Some(target),
            }
        } else {
            None
        }
    }

    /// The data shown for slot `sprite`: its own, or, through exactly one
    /// reference, the data its target owns. A reference to a reference
    /// resolves to nothing.
    pub open spec fn spec_sprite_data(&self, sprite: int) -> Option<SpriteData> {
        match self.spec_image_ref(sprite) {
            Some(target) => self.spec_own_data(target as int),
            None => self.spec_own_data(sprite),
        }
    }

    pub open spec fn spec_values_or_ref(&self, sprite: int) -> Option<ValuesOrRef> {
        if 0 <= sprite < self.sprites@.len() {
            Some(
                match self.sprites@[sprite] {
                    SpriteType::Data(d) => ValuesOrRef::Values(d.values),
                    SpriteType::Ref(target) => ValuesOrRef::Ref(target),
                },
            )
        } else {
            None
        }
    }

    /// A reference is followed once and no further: a slot that refers to
    /// a sprite shows what the slot of that sprite owns, which is nothing
    /// where that slot is a reference itself, be it to the first slot again.
    pub proof fn lemma_reference_followed_once(&self, sprite: int)
        requires
            self.spec_image_ref(sprite).is_some(),
        ensures
            self.spec_sprite_data(sprite) == self.spec_own_data(
                self.spec_image_ref(sprite).unwrap() as int,
            ),
            self.spec_image_ref(self.spec_image_ref(sprite).unwrap() as int).is_some()
                ==> self.spec_sprite_data(sprite).is_none(),
    {
    }

    pub fn sprites(&self) -> (r: &[SpriteType])
        ensures
            r@ == self.sprites@,
    {
        self.sprites.as_slice()
    }

    pub fn layer_names(&self) -> (r: &[String])
        ensures
            r@ == self.layer_names@,
    {
        self.layer_names.as_slice()
    }

    /// The target of slot `sprite` where it is a reference.
    pub fn image_ref(&self, sprite: usize) -> (r: Option<u32>)
        ensures
            r == self.spec_image_ref(sprite as int),
    {
        if sprite < self.sprites.len() {
            match &self.sprites[sprite] {
                SpriteType::Data(_) => None,
                SpriteType::Ref(target) => Some(*target),
            }
        } else {
            None
        }
    }

    /// The data that slot `sprite` owns itself.
    pub fn own_data(&self, sprite: usize) -> (r: Option<&SpriteData>)
        ensures
            r.is_some() == self.spec_own_data(sprite as int).is_some(),
            r matches Some(d) ==> *d == self.spec_own_data(sprite as int).unwrap(),
    {
        if sprite < self.sprites.len() {
            match &self.sprites[sprite] {
                SpriteType::Data(d) => Some(d),
                SpriteType::Ref(_) => None,
            }
        } else {
            None
        }
    }

    /// The data shown for slot `sprite`, followed through at most one
    /// reference.
    pub fn sprite_data(&self, sprite: usize) -> (r: Option<&SpriteData>)
        ensures
            r.is_some() == self.spec_sprite_data(sprite as int).is_some(),
            r matches Some(d) ==> *d == self.spec_sprite_data(sprite as int).unwrap(),
    {
        match self.image_ref(sprite) {
            Some(target) => self.own_data(target as usize),
            None => self.own_data(sprite),
        }
    }

    /// Own values or reference target of slot `sprite`; `None` past the last
    /// slot.
    pub fn values_or_ref(&self, sprite: usize) -> (r: Option<ValuesOrRef>)
        ensures
            r == self.spec_values_or_ref(sprite as int),
    {
        if sprite < self.sprites.len() {
            Some(
                match &self.sprites[sprite] {
                    SpriteType::Data(d) => ValuesOrRef::Values(d.values),
                    SpriteType::Ref(target) => ValuesOrRef::Ref(*target),
                },
            )
        } else {
            None
        }
    }
}

} // verus!
