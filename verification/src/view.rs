//! The composite view of a sprite variant: what its container holds, with
//! the pending edits laid over it.

use vstd::prelude::*;
use crate::SpriteType;
use crate::anim::{Anim, Frame, MainSd, SpriteData, SpriteValues, Texture, ValuesOrRef};
use crate::edit::{Edit, EditValues};
use crate::error::Error;
use crate::sprite_map::Assoc;

verus! {

/// The container in which the original data of a sprite variant lies.
#[derive(Copy, Clone, Debug, PartialEq, Eq)]
pub enum FileLocation<'a> {
    /// The aggregate container, at the slot of the given sprite.
    MainSd(usize, &'a MainSd),
    /// A container that holds this sprite alone.
    Separate(&'a Anim),
}

impl<'a> FileLocation<'a> {
    pub open spec fn spec_values_or_ref(&self) -> Option<ValuesOrRef> {
        match *self {
            FileLocation::MainSd(sprite, mainsd) => mainsd.spec_values_or_ref(sprite as int),
            FileLocation::Separate(file) => Some(ValuesOrRef::Values(file.values)),
        }
    }

    pub open spec fn spec_frames(&self) -> Option<Seq<Frame>> {
        match *self {
            FileLocation::MainSd(sprite, mainsd) => match mainsd.spec_sprite_data(sprite as int) {
                Some(d) => Some(d.frames@),
                None => None,
            },
            FileLocation::Separate(file) => Some(file.frames@),
        }
    }

    pub open spec fn spec_texture_sizes(&self) -> Option<Seq<Option<Texture>>> {
        match *self {
            FileLocation::MainSd(sprite, mainsd) => match mainsd.spec_sprite_data(sprite as int) {
                Some(d) => Some(d.textures@),
                None => None,
            },
            FileLocation::Separate(file) => Some(file.textures@),
        }
    }

    pub open spec fn spec_sprite_values(&self) -> Option<SpriteValues> {
        match *self {
            FileLocation::MainSd(sprite, mainsd) => match mainsd.spec_sprite_data(sprite as int) {
                Some(d) => Some(d.values),
                None => None,
            },
            FileLocation::Separate(file) => Some(file.values),
        }
    }

    pub open spec fn spec_image_ref(&self) -> Option<u32> {
        match *self {
            FileLocation::MainSd(sprite, mainsd) => mainsd.spec_image_ref(sprite as int),
            FileLocation::Separate(_) => None,
        }
    }

    pub open spec fn spec_layer_names(&self) -> Seq<String> {
        match *self {
            FileLocation::MainSd(_, mainsd) => mainsd.layer_names@,
            FileLocation::Separate(file) => file.layer_names@,
        }
    }

    /// The values the slot owns, or the sprite it refers to. `None` where
    /// the aggregate container has no such slot.
    pub fn values_or_ref(&self) -> (r: Option<ValuesOrRef>)
        ensures
            r == self.spec_values_or_ref(),
    {
        match *self {
            FileLocation::MainSd(sprite, mainsd) => mainsd.values_or_ref(sprite),
            FileLocation::Separate(file) => Some(ValuesOrRef::Values(file.values)),
        }
    }

    /// The frames of the sprite, read through at most one reference.
    pub fn frames(&self) -> (r: Option<&'a [Frame]>)
        ensures
            match r {
                Some(s) => self.spec_frames() == Some(s@),
                None => self.spec_frames().is_none(),
            },
    {
        match *self {
            FileLocation::MainSd(sprite, mainsd) => match mainsd.sprite_data(sprite) {
                Some(d) => Some(d.frames.as_slice()),
                None => None,
            },
            FileLocation::Separate(file) => Some(file.frames.as_slice()),
        }
    }

    /// The texture of each layer, read through at most one reference.
    pub fn texture_sizes(&self) -> (r: Option<&'a [Option<Texture>]>)
        ensures
            match r {
                Some(s) => self.spec_texture_sizes() == Some(s@),
                None => self.spec_texture_sizes().is_none(),
            },
    {
        match *self {
            FileLocation::MainSd(sprite, mainsd) => match mainsd.sprite_data(sprite) {
                Some(d) => Some(d.textures.as_slice()),
                None => None,
            },
            FileLocation::Separate(file) => Some(file.textures.as_slice()),
        }
    }

    /// The values of the sprite, read through at most one reference.
    pub fn sprite_values(&self) -> (r: Option<SpriteValues>)
        ensures
            r == self.spec_sprite_values(),
    {
        match *self {
            FileLocation::MainSd(sprite, mainsd) => match mainsd.sprite_data(sprite) {
                Some(d) => Some(d.values),
                None => None,
            },
            FileLocation::Separate(file) => Some(file.values),
        }
    }

    /// The sprite this slot refers to, where it is a reference.
    pub fn image_ref(&self) -> (r: Option<u32>)
        ensures
            r == self.spec_image_ref(),
    {
        match *self {
            FileLocation::MainSd(sprite, mainsd) => mainsd.image_ref(sprite),
            FileLocation::Separate(_) => None,
        }
    }

    pub fn layer_names(&self) -> (r: &'a [String])
        ensures
            r@ == self.spec_layer_names(),
    {
        match *self {
            FileLocation::MainSd(_, mainsd) => mainsd.layer_names.as_slice(),
            FileLocation::Separate(file) => file.layer_names.as_slice(),
        }
    }
}

/// Where the pixels of one texture layer are to be read from.
#[derive(Copy, Clone, Debug, PartialEq, Eq)]
pub enum TextureSource<'a> {
    /// The bytes of a pending texture replacement.
    Edited(&'a Texture, &'a Vec<u8>),
    /// The given sprite and layer of the aggregate container.
    MainSd(usize, usize),
    /// The given layer of the sprite's own container.
    Separate(usize),
}

/// Where the texture formats of all layers are to be read from.
#[derive(Copy, Clone, Debug, PartialEq, Eq)]
pub enum FormatSource<'a> {
    /// The bytes of a pending texture replacement, layer by layer.
    Edited(&'a Vec<Option<(Texture, Vec<u8>)>>),
    /// The given sprite of the aggregate container.
    MainSd(usize),
    /// The sprite's own container.
    Separate,
    /// There are no textures to read.
    Nothing,
}

/// The composite view of one sprite variant: the original data with the
/// pending edits laid over it.
#[derive(Copy, Clone, Debug, PartialEq, Eq)]
pub struct File<'a> {
    pub location: FileLocation<'a>,
    pub sprite_values: Option<SpriteValues>,
    pub frames: Option<&'a Vec<Frame>>,
    pub textures: Option<&'a Vec<Option<(Texture, Vec<u8>)>>>,
    pub texture_sizes: Option<&'a Vec<Option<Texture>>>,
    pub image_ref: Option<Option<u32>>,
}

impl<'a> File<'a> {
    /// Whether a pending edit makes the sprite refer to another one. What
    /// such a view shows is the target's; of the sprite's own slot it shows
    /// nothing.
    pub open spec fn spec_refers(&self) -> bool {
        self.image_ref matches Some(Some(_))
    }

    pub open spec fn spec_sprite_values(&self) -> Option<SpriteValues> {
        match self.sprite_values {
            Some(edit) => Some(edit),
            None => if self.spec_refers() {
                None
            } else {
                self.location.spec_sprite_values()
            },
        }
    }

    pub open spec fn spec_frames(&self) -> Option<Seq<Frame>> {
        match self.frames {
            Some(f) => Some(f@),
            None => if self.spec_refers() {
                None
            } else {
                self.location.spec_frames()
            },
        }
    }

    pub open spec fn spec_texture_size(&self, layer: int) -> Option<Texture> {
        if let Some(tex) = self.textures {
            if 0 <= layer < tex@.len() {
                match tex@[layer] {
                    Some(t) => Some(t.0),
                    None => None,
                }
            } else {
                None
            }
        } else if let Some(tex) = self.texture_sizes {
            if 0 <= layer < tex@.len() {
                tex@[layer]
            } else {
                None
            }
        } else if self.spec_refers() {
            None
        } else {
            match self.location.spec_texture_sizes() {
                Some(tex) => if 0 <= layer < tex.len() {
                    tex[layer]
                } else {
                    None
                },
                None => None,
            }
        }
    }

    pub open spec fn spec_image_ref(&self) -> Option<u32> {
        match self.image_ref {
            Some(img_ref) => img_ref,
            None => self.location.spec_image_ref(),
        }
    }

    /// The slot of the aggregate container whose textures the view of
    /// slot `sprite` shows: the target of the pending reference, else the
    /// target of the slot's own reference, else the slot itself.
    pub open spec fn spec_texture_slot(&self, sprite: usize, mainsd: &MainSd) -> usize {
        match self.image_ref {
            Some(Some(target)) => target as usize,
            _ => match mainsd.spec_image_ref(sprite as int) {
                Some(target) => target as usize,
                None => sprite,
            },
        }
    }

    pub open spec fn spec_texture(&self, layer: usize) -> Result<TextureSource<'a>, Error> {
        if let Some(tex) = self.textures {
            if layer < tex@.len() && tex@[layer as int].is_some() {
                Ok(
                    TextureSource::Edited(
                        &tex@[layer as int].unwrap().0,
                        &tex@[layer as int].unwrap().1,
                    ),
                )
            } else {
                Err(Error::NoTexture { layer })
            }
        } else {
            match self.location {
                FileLocation::MainSd(sprite, mainsd) => {
                    let slot = self.spec_texture_slot(sprite, mainsd);
                    match mainsd.spec_own_data(slot as int) {
                        Some(d) => if layer < d.textures@.len() && d.textures@[layer as int].is_some() {
                            Ok(TextureSource::MainSd(slot, layer))
                        } else {
                            Err(Error::NoTexture { layer })
                        },
                        None => Err(Error::NoSprite { sprite: slot }),
                    }
                },
                FileLocation::Separate(file) => if self.image_ref matches Some(Some(_)) {
                    Err(Error::RefInSeparate)
                } else if layer < file.textures@.len() && file.textures@[layer as int].is_some() {
                    Ok(TextureSource::Separate(layer))
                } else {
                    Err(Error::NoTexture { layer })
                },
            }
        }
    }

    pub open spec fn spec_texture_formats(&self) -> FormatSource<'a> {
        if let Some(tex) = self.textures {
            FormatSource::Edited(tex)
        } else {
            match self.location {
                FileLocation::MainSd(sprite, mainsd) => {
                    let slot = self.spec_texture_slot(sprite, mainsd);
                    if mainsd.spec_own_data(slot as int).is_some() {
                        FormatSource::MainSd(slot)
                    } else {
                        FormatSource::Nothing
                    }
                },
                FileLocation::Separate(_) => if self.image_ref matches Some(Some(_)) {
                    FormatSource::Nothing
                } else {
                    FormatSource::Separate
                },
            }
        }
    }

    fn texture_slot(&self, sprite: usize, mainsd: &MainSd) -> (r: usize)
        ensures
            r == self.spec_texture_slot(sprite, mainsd),
    {
        match self.image_ref {
            Some(Some(target)) => target as usize,
            _ => match mainsd.image_ref(sprite) {
                Some(target) => target as usize,
                None => sprite,
            },
        }
    }

    /// Where the pixels of layer `layer` are to be read from: the bytes of
    /// a pending texture replacement if the view has one, else the
    /// container. In the aggregate container a reference is followed, the
    /// pending one before the slot's own, and only once; the slot it leads
    /// to must own data. In either container the layer must have a
    /// texture.
    pub fn texture(&self, layer: usize) -> (r: Result<TextureSource<'a>, Error>)
        ensures
            r == self.spec_texture(layer),
    {
        if let Some(tex) = self.textures {
            if layer < tex.len() {
                if let Some(t) = &tex[layer] {
                    return Ok(TextureSource::Edited(&t.0, &t.1));
                }
            }
            return Err(Error::NoTexture { layer });
        }
        match self.location {
            FileLocation::MainSd(sprite, mainsd) => {
                let slot = self.texture_slot(sprite, mainsd);
                match mainsd.own_data(slot) {
                    Some(d) => if layer < d.textures.len() && d.textures[layer].is_some() {
                        Ok(TextureSource::MainSd(slot, layer))
                    } else {
                        Err(Error::NoTexture { layer })
                    },
                    None => Err(Error::NoSprite { sprite: slot }),
                }
            },
            FileLocation::Separate(file) => {
                if let Some(Some(_)) = self.image_ref {
                    return Err(Error::RefInSeparate);
                }
                if layer < file.textures.len() && file.textures[layer].is_some() {
                    Ok(TextureSource::Separate(layer))
                } else {
                    Err(Error::NoTexture { layer })
                }
            },
        }
    }

    /// Whether a pending edit makes the sprite refer to another one.
    pub fn refers(&self) -> (r: bool)
        ensures
            r == self.spec_refers(),
    {
        match self.image_ref {
            Some(Some(_)) => true,
            _ => false,
        }
    }

    /// The values that the view shows: those of the edit that the view was
    /// built from, else, unless a pending edit makes the sprite a reference,
    /// the original ones.
    pub fn sprite_values(&self) -> (r: Option<SpriteValues>)
        ensures
            r == self.spec_sprite_values(),
    {
        if let Some(edit) = self.sprite_values {
            return Some(edit);
        }
        if self.refers() {
            return None;
        }
        self.location.sprite_values()
    }

    /// The frames that the view shows: those that the view was built with,
    /// else, unless a pending edit makes the sprite a reference, the
    /// original ones.
    pub fn frames(&self) -> (r: Option<&'a [Frame]>)
        ensures
            match r {
                Some(s) => self.spec_frames() == Some(s@),
                None => self.spec_frames().is_none(),
            },
    {
        if let Some(f) = self.frames {
            return Some(f.as_slice());
        }
        if self.refers() {
            return None;
        }
        self.location.frames()
    }

    /// Position and size of the texture of layer `layer`.
    pub fn texture_size(&self, layer: usize) -> (r: Option<Texture>)
        ensures
            r == self.spec_texture_size(layer as int),
    {
        if let Some(tex) = self.textures {
            if layer < tex.len() {
                return match &tex[layer] {
                    Some(t) => Some(t.0),
                    None => None,
                };
            }
            return None;
        }
        if let Some(tex) = self.texture_sizes {
            if layer < tex.len() {
                return tex[layer];
            }
            return None;
        }
        if self.refers() {
            return None;
        }
        match self.location.texture_sizes() {
            Some(tex) => if layer < tex.len() {
                tex[layer]
            } else {
                None
            },
            None => None,
        }
    }

    /// Where the texture formats of the layers are to be read from: the
    /// bytes of a pending texture replacement if the view has one, else
    /// the container, with references followed as for [`File::texture`].
    pub fn texture_formats(&self) -> (r: FormatSource<'a>)
        ensures
            r == self.spec_texture_formats(),
    {
        if let Some(tex) = self.textures {
            return FormatSource::Edited(tex);
        }
        match self.location {
            FileLocation::MainSd(sprite, mainsd) => {
                let slot = self.texture_slot(sprite, mainsd);
                if mainsd.own_data(slot).is_some() {
                    FormatSource::MainSd(slot)
                } else {
                    FormatSource::Nothing
                }
            },
            FileLocation::Separate(_) => {
                if let Some(Some(_)) = self.image_ref {
                    FormatSource::Nothing
                } else {
                    FormatSource::Separate
                }
            },
        }
    }

    /// The layer names of the container the sprite lies in. Edits never
    /// change them.
    pub fn layer_names(&self) -> (r: &'a [String])
        ensures
            r@ == self.location.spec_layer_names(),
    {
        self.location.layer_names()
    }

    /// The sprite this one refers to, after the pending edits.
    pub fn image_ref(&self) -> (r: Option<u32>)
        ensures
            r == self.spec_image_ref(),
    {
        if let Some(img_ref) = self.image_ref {
            return img_ref;
        }
        self.location.image_ref()
    }
}

/// The view of a sprite whose values come from the edit `x`.
pub open spec fn edited_view<'a>(
    location: FileLocation<'a>,
    x: &'a EditValues,
    image_ref: Option<Option<u32>>,
) -> File<'a> {
    File {
        location,
        sprite_values: Some(x.values),
        frames: match &x.tex_changes {
            Some(t) => Some(&t.frames),
            None => None,
        },
        textures: match &x.tex_changes {
            Some(t) => Some(&t.textures),
            None => None,
        },
        texture_sizes: None,
        image_ref,
    }
}

/// The view of a sprite that shows only what its container holds.
pub open spec fn plain_view<'a>(location: FileLocation<'a>) -> File<'a> {
    File {
        location,
        sprite_values: None,
        frames: None,
        textures: None,
        texture_sizes: None,
        image_ref: None,
    }
}

/// The view of a sprite that a pending edit makes refer to `target`, built
/// from the pending values of the target, if it has any, and the data that
/// the target's slot owns, if it owns any.
///
/// The values are those of the target's edit, else those that its slot
/// owns. Frames and textures are those of the texture replacement of the
/// target's edit; where the target has no edit, or one without a texture
/// replacement, they are those that its slot owns.
pub open spec fn reference_fields<'a>(
    location: FileLocation<'a>,
    edit: Option<&'a EditValues>,
    own: Option<&'a SpriteData>,
    target: u32,
) -> File<'a> {
    let replaced = match edit {
        Some(x) => match &x.tex_changes {
            Some(t) => Some(t),
            None => None,
        },
        None => None,
    };
    File {
        location,
        sprite_values: match edit {
            Some(x) => Some(x.values),
            None => match own {
                Some(d) => Some(d.values),
                None => None,
            },
        },
        frames: match replaced {
            Some(t) => Some(&t.frames),
            None => match own {
                Some(d) => Some(&d.frames),
                None => None,
            },
        },
        textures: match replaced {
            Some(t) => Some(&t.textures),
            None => None,
        },
        texture_sizes: match replaced {
            Some(_) => None,
            None => match own {
                Some(d) => Some(&d.textures),
                None => None,
            },
        },
        image_ref: Some(Some(target)),
    }
}

/// The view of slot `sprite` when a pending edit makes it refer to
/// `target`: the pending values of the target if it has any, else the data
/// that the target's slot owns. Nothing of the sprite's own slot is shown.
pub open spec fn reference_view<'a>(
    mainsd: &'a MainSd,
    edits: Assoc<Edit>,
    sprite: usize,
    target: u32,
) -> File<'a> {
    reference_fields(
        FileLocation::MainSd(sprite, mainsd),
        match edits.get((target as usize, SpriteType::Sd)) {
            Some(Edit::Values(x)) => Some(&x),
            _ => None,
        },
        match mainsd.spec_own_data(target as int) {
            Some(d) => Some(&d),
            None => None,
        },
        target,
    )
}

/// The view of a sprite variant without an edit of its own: where its slot
/// refers to a sprite with pending values, those are shown; else only what
/// the container holds.
pub open spec fn unedited_view<'a>(
    location: FileLocation<'a>,
    edits: Assoc<Edit>,
    ty: SpriteType,
) -> File<'a> {
    match location.spec_image_ref() {
        Some(target) => if let Some(Edit::Values(x)) = edits.get((target as usize, ty)) {
            edited_view(location, &x, None)
        } else {
            plain_view(location)
        },
        None => plain_view(location),
    }
}

} // verus!
