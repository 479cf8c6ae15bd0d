//! The session state: the sprite catalogue, the loaded containers and the
//! pending edits.

use vstd::prelude::*;
use vstd::string::*;
use crate::SpriteType;
use crate::anim::{Anim, MainSd, SpriteData, SpriteValues, TexChanges, ValuesOrRef};
use crate::edit::{
    current_edit, edit_apart, lemma_edits_stay_apart, lemma_ref_img_entry, spec_set_ref_enabled,
    spec_set_ref_img, spec_set_tex_changes, spec_set_values, spec_unset_values, Edit,
    EditValues,
};
use crate::error::Error;
use crate::layout::{
    anim_path, image_name, layout, spec_anim_path, spec_image_name, spec_layout, Layout,
    LayoutView,
};
use crate::save::{
    lemma_separate_writes_error, scale, spec_data_changes, spec_edit_tex_changes, spec_scale,
    spec_separate_writes, spec_tex_changes, MainSdWrite, SavePlan, SeparatePatch, SeparateWrite,
};
use crate::sprite_map::{Assoc, SpriteKey, SpriteMap};
use crate::view::{
    edited_view, reference_fields, reference_view, unedited_view, File, FileLocation,
};

verus! {

/// What the catalogue knows of one sprite.
#[derive(Clone, Debug, PartialEq, Eq)]
pub enum SpriteFiles {
    AnimSet(AnimFiles),
    SingleFile(String),
    MainSdOnly { image_id: u32, name: String },
}

#[derive(Clone, Debug, PartialEq, Eq)]
pub struct AnimFiles {
    pub image_id: u32,
    pub hd_filename: String,
    pub hd2_filename: String,
    pub name: String,
}

/// The file that the catalogue names for the HD2 variant of a sprite, and
/// for any other variant its HD file. Only a sprite of a tree has such
/// files.
pub open spec fn spec_separate_file_path(
    sprites: Seq<SpriteFiles>,
    sprite: usize,
    ty: SpriteType,
) -> Option<String> {
    if sprite < sprites.len() {
        match sprites[sprite as int] {
            SpriteFiles::AnimSet(files) => if ty == SpriteType::Hd2 {
                Some(files.hd2_filename)
            } else {
                Some(files.hd_filename)
            },
            _ => None,
        }
    } else {
        None
    }
}

/// Looks up the file that the catalogue names for the sprite variant.
/// Whether there is such a file on disk is for the caller to find out.
pub fn separate_file_path<'a>(sprites: &'a [SpriteFiles], sprite: usize, ty: SpriteType) -> (r:
    Option<&'a String>)
    ensures
        match r {
            Some(path) => spec_separate_file_path(sprites@, sprite, ty) == Some(*path),
            None => spec_separate_file_path(sprites@, sprite, ty).is_none(),
        },
{
    if sprite < sprites.len() {
        match &sprites[sprite] {
            SpriteFiles::AnimSet(files) => if ty == SpriteType::Hd2 {
                Some(&files.hd2_filename)
            } else {
                Some(&files.hd_filename)
            },
            _ => None,
        }
    } else {
        None
    }
}

/// The number of sprites that a tree without an aggregate container is
/// taken to have.
pub const DEFAULT_SPRITE_COUNT: usize = 999;

/// Whether `entry` is the catalogue entry of sprite `i` in the tree below
/// `root`. The number of a sprite is kept in 32 bits; of a greater index
/// only the low 32 bits are kept.
pub open spec fn is_anim_set(entry: SpriteFiles, root: Seq<char>, i: int) -> bool {
    match entry {
        SpriteFiles::AnimSet(files) => {
            &&& files.image_id == i as u32
            &&& files.hd_filename@ == spec_anim_path(root, "anim"@, files.image_id)
            &&& files.hd2_filename@ == spec_anim_path(root, "HD2/anim"@, files.image_id)
            &&& files.name@ == spec_image_name(files.image_id)
        },
        _ => false,
    }
}

/// Whether `entry` is the catalogue entry of sprite `i` of an aggregate
/// container that stands alone.
pub open spec fn is_mainsd_only(entry: SpriteFiles, i: int) -> bool {
    match entry {
        SpriteFiles::MainSdOnly { image_id, name } => {
            &&& image_id == i as u32
            &&& name@ == spec_image_name(image_id)
        },
        _ => false,
    }
}

/// The catalogue of a tree with `count` sprites.
pub fn anim_set_catalogue(root: &str, count: usize) -> (r: Vec<SpriteFiles>)
    ensures
        r@.len() == count,
        forall|i: int| 0 <= i < count ==> is_anim_set(#[trigger] r@[i], root@, i),
{
    let mut sprites: Vec<SpriteFiles> = Vec::new();
    let mut i: usize = 0;
    while i < count
        invariant
            i <= count,
            sprites@.len() == i,
            forall|j: int| 0 <= j < i ==> is_anim_set(#[trigger] sprites@[j], root@, j),
        decreases count - i,
    {
        let image_id = #[verifier::truncate] (i as u32);
        sprites.push(
            SpriteFiles::AnimSet(
                AnimFiles {
                    image_id,
                    hd_filename: anim_path(root, "anim", image_id),
                    hd2_filename: anim_path(root, "HD2/anim", image_id),
                    name: image_name(image_id),
                },
            ),
        );
        i += 1;
    }
    sprites
}

/// The catalogue of an aggregate container with `count` sprites that
/// stands alone.
pub fn mainsd_only_catalogue(count: usize) -> (r: Vec<SpriteFiles>)
    ensures
        r@.len() == count,
        forall|i: int| 0 <= i < count ==> is_mainsd_only(#[trigger] r@[i], i),
{
    let mut sprites: Vec<SpriteFiles> = Vec::new();
    let mut i: usize = 0;
    while i < count
        invariant
            i <= count,
            sprites@.len() == i,
            forall|j: int| 0 <= j < i ==> is_mainsd_only(#[trigger] sprites@[j], j),
        decreases count - i,
    {
        let image_id = #[verifier::truncate] (i as u32);
        sprites.push(SpriteFiles::MainSdOnly { image_id, name: image_name(image_id) });
        i += 1;
    }
    sprites
}

/// The sprite catalogue, the loaded containers, and the pending edits.
pub struct Files {
    sprites: Vec<SpriteFiles>,
    mainsd_anim: Option<(String, MainSd)>,
    root_path: Option<String>,
    open_files: SpriteMap<Anim>,
    edits: SpriteMap<Edit>,
}

impl Files {
    /// The catalogue: one entry per sprite, in sprite order.
    pub closed spec fn spec_sprites(&self) -> Seq<SpriteFiles> {
        self.sprites@
    }

    /// The aggregate container, if one is loaded.
    pub closed spec fn spec_mainsd(&self) -> Option<MainSd> {
        match self.mainsd_anim {
            Some(m) => Some(m.1),
            None => None,
        }
    }

    /// The path the aggregate container was loaded from.
    pub closed spec fn spec_mainsd_path(&self) -> Option<String> {
        match self.mainsd_anim {
            Some(m) => Some(m.0),
            None => None,
        }
    }

    pub closed spec fn spec_root_path(&self) -> Option<String> {
        self.root_path
    }

    /// The opened single-sprite containers.
    pub closed spec fn spec_open_files(&self) -> Assoc<Anim> {
        self.open_files@
    }

    /// The pending edits.
    pub closed spec fn spec_edits(&self) -> Assoc<Edit> {
        self.edits@
    }

    /// Neither the opened containers nor the edits hold a key twice, and a
    /// loaded aggregate container has the path it was loaded from.
    pub open spec fn wf(&self) -> bool {
        &&& self.spec_open_files().wf()
        &&& self.spec_edits().wf()
        &&& self.spec_mainsd().is_some() == self.spec_mainsd_path().is_some()
    }

    /// Everything but the pending edits is the same in both.
    pub open spec fn same_files(&self, other: &Files) -> bool {
        &&& self.spec_sprites() == other.spec_sprites()
        &&& self.spec_mainsd() == other.spec_mainsd()
        &&& self.spec_mainsd_path() == other.spec_mainsd_path()
        &&& self.spec_root_path() == other.spec_root_path()
        &&& self.spec_open_files() == other.spec_open_files()
    }

    /// Where the original data of the sprite variant lies: for SD in the
    /// aggregate container, for HD and HD2 in the opened container of that
    /// sprite, if there is one.
    pub open spec fn spec_location(&self, sprite: usize, ty: SpriteType) -> Option<
        FileLocation<'_>,
    > {
        match ty {
            SpriteType::Sd => match self.spec_mainsd() {
                Some(mainsd) => Some(FileLocation::MainSd(sprite, &mainsd)),
                None => None,
            },
            _ => match self.spec_open_files().get((sprite, ty)) {
                Some(file) => Some(FileLocation::Separate(&file)),
                None => None,
            },
        }
    }

    /// What the containers say of the sprite variant, without any edit.
    pub open spec fn spec_original(&self, sprite: usize, ty: SpriteType) -> Option<ValuesOrRef> {
        match self.spec_location(sprite, ty) {
            Some(location) => location.spec_values_or_ref(),
            None => None,
        }
    }

    /// Whether the sprite variant has a container, and if so, the sprite
    /// that its slot there refers to, if it refers to one. A slot past the
    /// last slot of the aggregate container refers to none.
    pub open spec fn spec_located_ref(&self, sprite: usize, ty: SpriteType) -> Option<
        Option<u32>,
    > {
        match self.spec_location(sprite, ty) {
            Some(location) => Some(location.spec_image_ref()),
            None => None,
        }
    }

    /// No pending edit says what the original of its sprite variant says,
    /// as far as that original can be resolved.
    pub open spec fn edits_apart(&self) -> bool {
        forall|key: SpriteKey|
            match (#[trigger] self.spec_edits().get(key), self.spec_original(key.0, key.1)) {
                (Some(e), Some(orig)) => !e.spec_matches_original(orig),
                _ => true,
            }
    }

    /// A change of the edit of one key that keeps it apart from the
    /// original keeps all edits apart.
    proof fn lemma_edits_apart_kept(&self, before: &Files, key: SpriteKey)
        requires
            before.edits_apart(),
            self.same_files(before),
            forall|other: SpriteKey|
                other != key ==> #[trigger] self.spec_edits().get(other) == before.spec_edits().get(
                    other,
                ),
            match before.spec_original(key.0, key.1) {
                Some(orig) => self.spec_edits().get(key) matches Some(e)
                    ==> !e.spec_matches_original(orig),
                None => true,
            },
        ensures
            self.edits_apart(),
    {
        assert forall|k: SpriteKey|
            match (#[trigger] self.spec_edits().get(k), self.spec_original(k.0, k.1)) {
                (Some(e), Some(orig)) => !e.spec_matches_original(orig),
                _ => true,
            } by {
            assert(self.spec_original(k.0, k.1) == before.spec_original(k.0, k.1));
            if k != key {
                assert(self.spec_edits().get(k) == before.spec_edits().get(k));
            }
        }
    }

    /// The composite view of the sprite variant.
    ///
    /// An edit with values of its own is shown over the original location.
    /// A reference edit shows its target. Without an edit the original is
    /// shown, and through its reference the pending values of the target.
    pub open spec fn spec_file(&self, sprite: usize, ty: SpriteType) -> Result<
        Option<File<'_>>,
        Error,
    > {
        let edits = self.spec_edits();
        match edits.get((sprite, ty)) {
            Some(Edit::Values(x)) => match self.spec_location(sprite, ty) {
                Some(location) => Ok(Some(edited_view(location, &x, Some(None)))),
                None => Ok(None),
            },
            Some(Edit::Ref(target)) => if ty != SpriteType::Sd {
                Err(Error::RefNotSd { sprite, ty })
            } else {
                match self.spec_mainsd() {
                    Some(mainsd) => Ok(Some(reference_view(&mainsd, edits, sprite, target))),
                    None => Ok(None),
                }
            },
            None => match self.spec_location(sprite, ty) {
                Some(location) => Ok(Some(unedited_view(location, edits, ty))),
                None => Ok(None),
            },
        }
    }

    /// A session with no sprites, no containers and no edits.
    pub fn empty() -> (r: Files)
        ensures
            r.wf(),
            r.spec_sprites() == Seq::<SpriteFiles>::empty(),
            r.spec_mainsd().is_none(),
            r.spec_mainsd_path().is_none(),
            r.spec_root_path().is_none(),
            r.spec_open_files() == Assoc::<Anim>::empty(),
            r.spec_edits() == Assoc::<Edit>::empty(),
            r.edits_apart(),
    {
        Files {
            sprites: Vec::new(),
            mainsd_anim: None,
            root_path: None,
            open_files: SpriteMap::new(),
            edits: SpriteMap::new(),
        }
    }

    /// Whether `self` is the fresh session for a file with the name
    /// `one_filename` in the layout `layout`, with the aggregate container
    /// `mainsd`.
    ///
    /// For a file in a tree the catalogue has a file set for every sprite
    /// of the aggregate container, or for [`DEFAULT_SPRITE_COUNT`] sprites
    /// where the tree has none. For an aggregate container alone it has
    /// one entry per sprite of the container. For any other file it has
    /// the file as its one entry, and no aggregate container.
    pub open spec fn is_session_of(
        &self,
        layout: LayoutView,
        one_filename: Seq<char>,
        mainsd: Option<MainSd>,
    ) -> bool {
        &&& self.spec_edits() == Assoc::<Edit>::empty()
        &&& self.spec_open_files() == Assoc::<Anim>::empty()
        &&& self.spec_root_path().is_some()
        &&& self.spec_mainsd().is_some() == self.spec_mainsd_path().is_some()
        &&& match layout {
            LayoutView::Tree { root, mainsd_path } => {
                &&& self.spec_root_path().unwrap()@ == root
                &&& self.spec_mainsd() == mainsd
                &&& mainsd.is_some() ==> self.spec_mainsd_path().unwrap()@ == mainsd_path
                &&& self.spec_sprites().len() == match mainsd {
                    Some(m) => m.sprites@.len(),
                    None => DEFAULT_SPRITE_COUNT as nat,
                }
                &&& forall|i: int|
                    0 <= i < self.spec_sprites().len() ==> is_anim_set(
                        #[trigger] self.spec_sprites()[i],
                        root,
                        i,
                    )
            },
            LayoutView::MainSd => {
                &&& mainsd.is_some()
                &&& self.spec_root_path().unwrap()@ == one_filename
                &&& self.spec_mainsd() == mainsd
                &&& self.spec_mainsd_path().unwrap()@ == one_filename
                &&& self.spec_sprites().len() == mainsd.unwrap().sprites@.len()
                &&& forall|i: int|
                    0 <= i < self.spec_sprites().len() ==> is_mainsd_only(
                        #[trigger] self.spec_sprites()[i],
                        i,
                    )
            },
            LayoutView::SingleFile => {
                &&& self.spec_root_path().unwrap()@ == one_filename
                &&& self.spec_mainsd().is_none()
                &&& self.spec_sprites().len() == 1
                &&& match self.spec_sprites()[0] {
                    SpriteFiles::SingleFile(path) => path@ == one_filename,
                    _ => false,
                }
            },
        }
    }

    /// Opens a session on `one_filename`.
    ///
    /// `mainsd` is the aggregate container that [`layout`] asks for: for a
    /// tree the one at the tree's container path, if that file exists, and
    /// for an aggregate container alone the file itself. Only the second
    /// cannot do without it.
    pub fn init(one_filename: &str, mainsd: Option<MainSd>) -> (r: Result<Files, Error>)
        ensures
            match r {
                Ok(files) => files.wf() && files.edits_apart() && files.is_session_of(
                    spec_layout(one_filename@),
                    one_filename@,
                    if spec_layout(one_filename@) is SingleFile {
                        None
                    } else {
                        mainsd
                    },
                ),
                Err(e) => {
                    &&& e == Error::NoMainSd
                    &&& spec_layout(one_filename@) is MainSd
                    &&& mainsd.is_none()
                },
            },
    {
        Self::from_layout(layout(one_filename), one_filename, mainsd)
    }

    /// Opens a session on `one_filename`, which lies as `layout` says. An
    /// aggregate container alone must come with its container; a single
    /// file has none, and one that is given is dropped.
    pub fn from_layout(layout: Layout, one_filename: &str, mainsd: Option<MainSd>) -> (r: Result<
        Files,
        Error,
    >)
        ensures
            match r {
                Ok(files) => files.wf() && files.edits_apart() && files.is_session_of(
                    layout@,
                    one_filename@,
                    if layout is SingleFile {
                        None
                    } else {
                        mainsd
                    },
                ),
                Err(e) => {
                    &&& e == Error::NoMainSd
                    &&& layout is MainSd
                    &&& mainsd.is_none()
                },
            },
    {
        match layout {
            Layout::Tree { root, mainsd_path } => {
                let count = match &mainsd {
                    Some(m) => m.sprites.len(),
                    None => DEFAULT_SPRITE_COUNT,
                };
                let sprites = anim_set_catalogue(root.as_str(), count);
                let mainsd_anim = match mainsd {
                    Some(m) => Some((mainsd_path, m)),
                    None => None,
                };
                Ok(
                    Files {
                        sprites,
                        mainsd_anim,
                        root_path: Some(root),
                        open_files: SpriteMap::new(),
                        edits: SpriteMap::new(),
                    },
                )
            },
            Layout::MainSd => match mainsd {
                Some(m) => {
                    let sprites = mainsd_only_catalogue(m.sprites.len());
                    Ok(
                        Files {
                            sprites,
                            mainsd_anim: Some((String::from_str(one_filename), m)),
                            root_path: Some(String::from_str(one_filename)),
                            open_files: SpriteMap::new(),
                            edits: SpriteMap::new(),
                        },
                    )
                },
                None => Err(Error::NoMainSd),
            },
            Layout::SingleFile => {
                let mut sprites: Vec<SpriteFiles> = Vec::new();
                sprites.push(SpriteFiles::SingleFile(String::from_str(one_filename)));
                Ok(
                    Files {
                        sprites,
                        mainsd_anim: None,
                        root_path: Some(String::from_str(one_filename)),
                        open_files: SpriteMap::new(),
                        edits: SpriteMap::new(),
                    },
                )
            },
        }
    }

    pub fn root_path(&self) -> (r: Option<&str>)
        ensures
            match r {
                Some(p) => self.spec_root_path().is_some() && p@ == self.spec_root_path().unwrap()@,
                None => self.spec_root_path().is_none(),
            },
    {
        match &self.root_path {
            Some(p) => Some(p.as_str()),
            None => None,
        }
    }

    pub fn sprites(&self) -> (r: &[SpriteFiles])
        ensures
            r@ == self.spec_sprites(),
    {
        self.sprites.as_slice()
    }

    /// The file that the aggregate container was loaded from.
    pub fn mainsd_path(&self) -> (r: Option<&String>)
        ensures
            match r {
                Some(path) => self.spec_mainsd_path() == Some(*path),
                None => self.spec_mainsd_path().is_none(),
            },
    {
        match &self.mainsd_anim {
            Some(m) => Some(&m.0),
            None => None,
        }
    }

    pub fn mainsd(&self) -> (r: Option<&MainSd>)
        ensures
            match r {
                Some(m) => self.spec_mainsd() == Some(*m),
                None => self.spec_mainsd().is_none(),
            },
    {
        match &self.mainsd_anim {
            Some(m) => Some(&m.1),
            None => None,
        }
    }

    /// Forgets every opened single-sprite container.
    pub fn close_opened(&mut self)
        requires
            old(self).wf(),
        ensures
            final(self).wf(),
            final(self).spec_open_files() == Assoc::<Anim>::empty(),
            final(self).spec_sprites() == old(self).spec_sprites(),
            final(self).spec_mainsd() == old(self).spec_mainsd(),
            final(self).spec_mainsd_path() == old(self).spec_mainsd_path(),
            final(self).spec_root_path() == old(self).spec_root_path(),
            final(self).spec_edits() == old(self).spec_edits(),
    {
        self.open_files.clear();
    }

    /// Whether any edit is pending.
    pub fn has_changes(&self) -> (r: bool)
        ensures
            r == !self.spec_edits().is_empty(),
    {
        !self.edits.is_empty()
    }

    /// The pending edit of the sprite variant.
    pub fn edit(&self, sprite: usize, ty: SpriteType) -> (r: Option<&Edit>)
        requires
            self.wf(),
        ensures
            match r {
                Some(e) => self.spec_edits().get((sprite, ty)) == Some(*e),
                None => self.spec_edits().get((sprite, ty)).is_none(),
            },
    {
        self.edits.get(sprite, ty)
    }

    /// Resolves the container that holds the original data of the sprite
    /// variant.
    pub fn location(&self, sprite: usize, ty: SpriteType) -> (r: Option<FileLocation<'_>>)
        requires
            self.wf(),
        ensures
            r == self.spec_location(sprite, ty),
    {
        match ty {
            SpriteType::Sd => match &self.mainsd_anim {
                Some(m) => Some(FileLocation::MainSd(sprite, &m.1)),
                None => None,
            },
            _ => match self.open_files.get(sprite, ty) {
                Some(file) => Some(FileLocation::Separate(file)),
                None => None,
            },
        }
    }

    /// Builds the composite view of the sprite variant.
    pub fn file(&self, sprite: usize, ty: SpriteType) -> (r: Result<Option<File<'_>>, Error>)
        requires
            self.wf(),
        ensures
            r == self.spec_file(sprite, ty),
    {
        match self.edits.get(sprite, ty) {
            Some(Edit::Values(x)) => match self.location(sprite, ty) {
                Some(location) => Ok(Some(Self::edited(location, x, Some(None)))),
                None => Ok(None),
            },
            Some(Edit::Ref(target)) => {
                if ty != SpriteType::Sd {
                    return Err(Error::RefNotSd { sprite, ty });
                }
                let mainsd = match &self.mainsd_anim {
                    Some(m) => &m.1,
                    None => {
                        return Ok(None);
                    },
                };
                let location = FileLocation::MainSd(sprite, mainsd);
                let edit = match self.edits.get(*target as usize, SpriteType::Sd) {
                    Some(Edit::Values(x)) => Some(x),
                    _ => None,
                };
                let own = mainsd.own_data(*target as usize);
                Ok(Some(Self::referring(location, edit, own, *target)))
            },
            None => {
                let location = match self.location(sprite, ty) {
                    Some(location) => location,
                    None => {
                        return Ok(None);
                    },
                };
                if let Some(target) = location.image_ref() {
                    if let Some(Edit::Values(x)) = self.edits.get(target as usize, ty) {
                        return Ok(Some(Self::edited(location, x, None)));
                    }
                }
                Ok(
                    Some(
                        File {
                            location,
                            sprite_values: None,
                            frames: None,
                            textures: None,
                            texture_sizes: None,
                            image_ref: None,
                        },
                    ),
                )
            },
        }
    }

    /// What the containers say of the sprite variant, without any edit.
    pub fn original(&self, sprite: usize, ty: SpriteType) -> (r: Option<ValuesOrRef>)
        requires
            self.wf(),
        ensures
            r == self.spec_original(sprite, ty),
    {
        match self.location(sprite, ty) {
            Some(location) => location.values_or_ref(),
            None => None,
        }
    }

    /// Switches the reference of an SD sprite on or off.
    ///
    /// Asking for what the original already is drops the pending edit.
    /// Switching the reference on points it at sprite 0; switching it off
    /// gives the slot the values of [`spec_unset_values`]. Nothing happens
    /// for the other variants and for a sprite that cannot be resolved; a
    /// slot past the last slot of the aggregate container is such a sprite.
    pub fn set_ref_enabled(&mut self, sprite: usize, ty: SpriteType, enabled: bool)
        requires
            old(self).wf(),
        ensures
            final(self).wf(),
            final(self).same_files(old(self)),
            final(self).spec_edits() == spec_set_ref_enabled(
                old(self).spec_edits(),
                old(self).spec_original(sprite, ty),
                (sprite, ty),
                enabled,
            ),
            old(self).edits_apart() ==> final(self).edits_apart(),
    {
        let ghost before = *self;
        if ty != SpriteType::Sd {
            return;
        }
        let orig = match self.original(sprite, ty) {
            Some(orig) => orig,
            None => {
                return;
            },
        };
        let orig_enabled = match orig {
            ValuesOrRef::Ref(_) => true,
            ValuesOrRef::Values(_) => false,
        };
        if orig_enabled == enabled {
            let _ = self.edits.remove(sprite, ty);
        } else {
            let value = if enabled {
                Edit::Ref(0)
            } else {
                let values = SpriteValues { unk2: 0xffff, width: 0, height: 0 };
                Edit::Values(EditValues { values, tex_changes: None })
            };
            let _ = self.edits.insert(sprite, ty, value);
        }
        proof {
            if before.edits_apart() {
                lemma_edits_stay_apart(
                    before.spec_edits(),
                    orig,
                    (sprite, ty),
                    enabled,
                    0,
                    spec_unset_values(),
                    arbitrary(),
                );
                self.lemma_edits_apart_kept(&before, (sprite, ty));
            }
        }
    }

    /// Makes the sprite refer to `image`, or drops the pending edit where
    /// the slot of the sprite refers to `image` in its container already.
    /// Nothing happens for a sprite variant without a container. Of the
    /// aggregate container any slot is taken, one past its last slot too;
    /// no variant is refused here, though a save refuses a reference
    /// outside SD.
    pub fn set_ref_img(&mut self, sprite: usize, ty: SpriteType, image: u32)
        requires
            old(self).wf(),
        ensures
            final(self).wf(),
            final(self).same_files(old(self)),
            final(self).spec_edits() == spec_set_ref_img(
                old(self).spec_edits(),
                old(self).spec_located_ref(sprite, ty),
                (sprite, ty),
                image,
            ),
            old(self).edits_apart() ==> final(self).edits_apart(),
    {
        let ghost before = *self;
        let target = match self.location(sprite, ty) {
            Some(location) => location.image_ref(),
            None => {
                return;
            },
        };
        let unchanged = match target {
            Some(t) => t == image,
            None => false,
        };
        if unchanged {
            let _ = self.edits.remove(sprite, ty);
        } else {
            let _ = self.edits.insert(sprite, ty, Edit::Ref(image));
        }
        proof {
            lemma_ref_img_entry(before.spec_edits(), target, (sprite, ty), image);
            if before.edits_apart() {
                self.lemma_edits_apart_kept(&before, (sprite, ty));
            }
        }
    }

    /// Attaches a texture replacement to the values of the sprite, seeding
    /// them from the original where no edit is pending. Nothing happens
    /// while the sprite is a reference, and for a sprite that cannot be
    /// resolved.
    pub fn set_tex_changes(&mut self, sprite: usize, ty: SpriteType, changes: TexChanges)
        requires
            old(self).wf(),
        ensures
            final(self).wf(),
            final(self).same_files(old(self)),
            final(self).spec_edits() == spec_set_tex_changes(
                old(self).spec_edits(),
                old(self).spec_original(sprite, ty),
                (sprite, ty),
                changes,
            ),
            old(self).edits_apart() ==> final(self).edits_apart(),
            old(self).spec_edits().get((sprite, ty)) matches Some(Edit::Ref(_))
                ==> final(self).spec_edits() == old(self).spec_edits(),
    {
        let ghost before = *self;
        let orig = match self.original(sprite, ty) {
            Some(orig) => orig,
            None => {
                return;
            },
        };
        let values = match self.edits.get(sprite, ty) {
            Some(Edit::Ref(_)) => {
                return;
            },
            Some(Edit::Values(x)) => x.values,
            None => match orig {
                ValuesOrRef::Values(values) => values,
                ValuesOrRef::Ref(_) => {
                    return;
                },
            },
        };
        let _ = self.edits.insert(
            sprite,
            ty,
            Edit::Values(EditValues { values, tex_changes: Some(changes) }),
        );
        proof {
            if before.edits_apart() {
                lemma_edits_stay_apart(
                    before.spec_edits(),
                    orig,
                    (sprite, ty),
                    true,
                    0,
                    spec_unset_values(),
                    changes,
                );
                self.lemma_edits_apart_kept(&before, (sprite, ty));
            }
        }
    }

    /// Sets the values of the sprite, seeding the edit from the original
    /// where none is pending, and drops the edit if it then says no more
    /// than the original. The values of a reference are not touched.
    pub fn set_values(&mut self, sprite: usize, ty: SpriteType, values: SpriteValues)
        requires
            old(self).wf(),
        ensures
            final(self).wf(),
            final(self).same_files(old(self)),
            final(self).spec_edits() == spec_set_values(
                old(self).spec_edits(),
                old(self).spec_original(sprite, ty),
                (sprite, ty),
                values,
            ),
            old(self).edits_apart() ==> final(self).edits_apart(),
    {
        let orig = match self.original(sprite, ty) {
            Some(orig) => orig,
            None => {
                return;
            },
        };
        let ghost before_edits = self.edits@;
        let ghost before = *self;
        let next = if self.edits.contains_key(sprite, ty) {
            // Take the edit out of its place to get at what it owns.
            match self.edits.insert(sprite, ty, Edit::Ref(0)) {
                Some(Edit::Values(x)) => Edit::Values(
                    EditValues { values, tex_changes: x.tex_changes },
                ),
                Some(Edit::Ref(target)) => Edit::Ref(target),
                None => Edit::Ref(0),
            }
        } else {
            match orig {
                ValuesOrRef::Values(_) => Edit::Values(EditValues { values, tex_changes: None }),
                ValuesOrRef::Ref(target) => Edit::Ref(target),
            }
        };
        proof {
            before_edits.lemma_put_twice((sprite, ty), Edit::Ref(0), next);
            before_edits.lemma_put_then_remove((sprite, ty), Edit::Ref(0));
        }
        if next.matches_original(orig) {
            let _ = self.edits.remove(sprite, ty);
        } else {
            let _ = self.edits.insert(sprite, ty, next);
        }
        proof {
            if before.edits_apart() {
                lemma_edits_stay_apart(
                    before.spec_edits(),
                    orig,
                    (sprite, ty),
                    true,
                    0,
                    values,
                    arbitrary(),
                );
                self.lemma_edits_apart_kept(&before, (sprite, ty));
            }
        }
    }

    /// The values that an update of the sprite starts from: those of the
    /// pending edit, else the original ones. `None` while the sprite is a
    /// reference, and for a sprite that cannot be resolved.
    pub open spec fn spec_editable_values(&self, sprite: usize, ty: SpriteType) -> Option<
        SpriteValues,
    > {
        match self.spec_original(sprite, ty) {
            Some(orig) => match current_edit(self.spec_edits(), orig, (sprite, ty)) {
                Edit::Values(x) => Some(x.values),
                Edit::Ref(_) => None,
            },
            None => None,
        }
    }

    pub fn editable_values(&self, sprite: usize, ty: SpriteType) -> (r: Option<SpriteValues>)
        requires
            self.wf(),
        ensures
            r == self.spec_editable_values(sprite, ty),
    {
        let orig = match self.original(sprite, ty) {
            Some(orig) => orig,
            None => {
                return None;
            },
        };
        match self.edits.get(sprite, ty) {
            Some(Edit::Values(x)) => Some(x.values),
            Some(Edit::Ref(_)) => None,
            None => match orig {
                ValuesOrRef::Values(values) => Some(values),
                ValuesOrRef::Ref(_) => None,
            },
        }
    }

    /// Lets `fun` change the values of the sprite and stores what it
    /// returns as [`Files::set_values`] does. `fun` is not called while the
    /// sprite is a reference, nor for a sprite that cannot be resolved.
    pub fn update_file<F>(&mut self, sprite: usize, ty: SpriteType, fun: F)
        where F: FnOnce(SpriteValues) -> SpriteValues
        requires
            old(self).wf(),
            old(self).spec_editable_values(sprite, ty) matches Some(start) ==> fun.requires(
                (start,),
            ),
        ensures
            final(self).wf(),
            final(self).same_files(old(self)),
            old(self).edits_apart() ==> final(self).edits_apart(),
            match old(self).spec_editable_values(sprite, ty) {
                Some(start) => exists|values: SpriteValues|
                    {
                        &&& fun.ensures((start,), values)
                        &&& final(self).spec_edits() == spec_set_values(
                            old(self).spec_edits(),
                            old(self).spec_original(sprite, ty),
                            (sprite, ty),
                            values,
                        )
                    },
                None => final(self).spec_edits() == old(self).spec_edits(),
            },
    {
        match self.editable_values(sprite, ty) {
            Some(start) => {
                let values = fun(start);
                self.set_values(sprite, ty, values);
            },
            None => {},
        }
    }

    /// The file that has to be opened before the sprite variant can be
    /// resolved: the one the catalogue names for an HD or HD2 sprite whose
    /// container is not opened yet.
    pub open spec fn spec_path_to_open(&self, sprite: usize, ty: SpriteType) -> Option<String> {
        if ty == SpriteType::Sd || self.spec_open_files().contains_key((sprite, ty)) {
            None
        } else {
            spec_separate_file_path(self.spec_sprites(), sprite, ty)
        }
    }

    pub fn path_to_open(&self, sprite: usize, ty: SpriteType) -> (r: Option<&String>)
        ensures
            match r {
                Some(path) => self.spec_path_to_open(sprite, ty) == Some(*path),
                None => self.spec_path_to_open(sprite, ty).is_none(),
            },
    {
        if ty == SpriteType::Sd || self.open_files.contains_key(sprite, ty) {
            None
        } else {
            separate_file_path(self.sprites.as_slice(), sprite, ty)
        }
    }

    /// Keeps the container that was read from the file of
    /// [`Files::path_to_open`]. A container that is not asked for is
    /// dropped, so that no sprite variant is ever opened twice.
    pub fn insert_opened(&mut self, anim: Anim, sprite: usize, ty: SpriteType) -> (r: bool)
        requires
            old(self).wf(),
        ensures
            final(self).wf(),
            r == old(self).spec_path_to_open(sprite, ty).is_some(),
            final(self).spec_open_files() == if r {
                old(self).spec_open_files().put((sprite, ty), anim)
            } else {
                old(self).spec_open_files()
            },
            final(self).spec_sprites() == old(self).spec_sprites(),
            final(self).spec_mainsd() == old(self).spec_mainsd(),
            final(self).spec_mainsd_path() == old(self).spec_mainsd_path(),
            final(self).spec_root_path() == old(self).spec_root_path(),
            final(self).spec_edits() == old(self).spec_edits(),
    {
        if self.path_to_open(sprite, ty).is_some() {
            let _ = self.open_files.insert(sprite, ty, anim);
            true
        } else {
            false
        }
    }

    /// The patch of the aggregate container that carries every pending SD
    /// edit.
    pub fn write_mainsd(&self) -> (r: Result<MainSdWrite<'_>, Error>)
        requires
            self.wf(),
        ensures
            match r {
                Ok(w) => {
                    &&& self.spec_mainsd().is_some()
                    &&& *w.path == self.spec_mainsd_path().unwrap()
                    &&& w.sprite_count == self.spec_mainsd().unwrap().sprites@.len() as u16
                    &&& *w.layer_names == self.spec_mainsd().unwrap().layer_names
                    &&& w.data_changes@ == spec_data_changes(
                        self.spec_edits().keys,
                        self.spec_edits().values,
                        self.spec_edits().keys.len(),
                    )
                    &&& w.tex_changes@ == spec_tex_changes(
                        self.spec_edits().keys,
                        self.spec_edits().values,
                        self.spec_edits().keys.len(),
                    )
                },
                Err(e) => e == Error::NoMainSd && self.spec_mainsd().is_none(),
            },
    {
        let (path, mainsd) = match &self.mainsd_anim {
            Some(m) => (&m.0, &m.1),
            None => {
                return Err(Error::NoMainSd);
            },
        };
        let sprite_count = #[verifier::truncate] (mainsd.sprites.len() as u16);
        let mut data_changes: Vec<(usize, ValuesOrRef)> = Vec::new();
        let mut tex_changes: Vec<(usize, &TexChanges)> = Vec::new();
        let n = self.edits.len();
        let mut i: usize = 0;
        while i < n
            invariant
                n == self.edits@.keys.len(),
                n == self.edits@.values.len(),
                i <= n,
                data_changes@ == spec_data_changes(
                    self.edits@.keys,
                    self.edits@.values,
                    i as nat,
                ),
                tex_changes@ == spec_tex_changes(self.edits@.keys, self.edits@.values, i as nat),
            decreases n - i,
        {
            let key = self.edits.key_at(i);
            let edit = self.edits.value_at(i);
            if key.1 == SpriteType::Sd {
                match edit {
                    Edit::Ref(target) => {
                        data_changes.push((key.0, ValuesOrRef::Ref(*target)));
                    },
                    Edit::Values(x) => {
                        data_changes.push((key.0, ValuesOrRef::Values(x.values)));
                        if let Some(t) = &x.tex_changes {
                            tex_changes.push((key.0, t));
                        }
                    },
                }
            }
            i += 1;
        }
        Ok(
            MainSdWrite {
                path,
                sprite_count,
                layer_names: &mainsd.layer_names,
                data_changes,
                tex_changes,
            },
        )
    }

    /// Why the opened container of the sprite variant cannot be patched:
    /// the sprite cannot be shown, it has no values, or its container is
    /// not opened.
    pub open spec fn spec_write_separate_error(&self, sprite: usize, ty: SpriteType) -> Option<
        Error,
    > {
        match self.spec_file(sprite, ty) {
            Err(e) => Some(e),
            Ok(None) => Some(Error::NoFile),
            Ok(Some(file)) => if file.spec_sprite_values().is_none() {
                Some(Error::NoSpriteValues)
            } else if !self.spec_open_files().contains_key((sprite, ty)) {
                Some(Error::NoAnimFile)
            } else {
                None
            },
        }
    }

    /// The patch that brings the opened container of the sprite variant up
    /// to its composite view: the values that the view shows, and the
    /// texture replacement of the pending edit.
    pub fn write_separate(&self, sprite: usize, ty: SpriteType) -> (r: Result<
        SeparatePatch<'_>,
        Error,
    >)
        requires
            self.wf(),
        ensures
            match r {
                Ok(patch) => {
                    &&& self.spec_write_separate_error(sprite, ty).is_none()
                    &&& patch.scale == spec_scale(ty)
                    &&& self.spec_file(sprite, ty) matches Ok(Some(file))
                    &&& patch.layer_names@ == file.location.spec_layer_names()
                    &&& Some(patch.values) == file.spec_sprite_values()
                    &&& patch.tex_changes == match self.spec_edits().get((sprite, ty)) {
                        Some(edit) => spec_edit_tex_changes(&edit),
                        None => None,
                    }
                },
                Err(e) => self.spec_write_separate_error(sprite, ty) == Some(e),
            },
    {
        let file = match self.file(sprite, ty) {
            Err(e) => {
                return Err(e);
            },
            Ok(None) => {
                return Err(Error::NoFile);
            },
            Ok(Some(file)) => file,
        };
        let values = match file.sprite_values() {
            Some(values) => values,
            None => {
                return Err(Error::NoSpriteValues);
            },
        };
        if !self.open_files.contains_key(sprite, ty) {
            return Err(Error::NoAnimFile);
        }
        let tex_changes = match self.edits.get(sprite, ty) {
            Some(Edit::Values(x)) => match &x.tex_changes {
                Some(t) => Some(t),
                None => None,
            },
            _ => None,
        };
        Ok(SeparatePatch { scale: scale(ty), layer_names: file.layer_names(), values, tex_changes })
    }

    /// Whether `w` is the patch of the loaded aggregate container that
    /// carries every pending SD edit, in the order of the edits.
    pub open spec fn is_mainsd_write(&self, w: &MainSdWrite<'_>) -> bool {
        &&& self.spec_mainsd().is_some()
        &&& *w.path == self.spec_mainsd_path().unwrap()
        &&& w.sprite_count == self.spec_mainsd().unwrap().sprites@.len() as u16
        &&& *w.layer_names == self.spec_mainsd().unwrap().layer_names
        &&& w.data_changes@ == spec_data_changes(
            self.spec_edits().keys,
            self.spec_edits().values,
            self.spec_edits().keys.len(),
        )
        &&& w.tex_changes@ == spec_tex_changes(
            self.spec_edits().keys,
            self.spec_edits().values,
            self.spec_edits().keys.len(),
        )
    }

    /// Begins a save: forgets every opened single-sprite container, so
    /// that each file is read anew, and works out what has to be written.
    ///
    /// The edits are looked through before anything is written. An HD or
    /// HD2 edit for which the catalogue names no file, or which is a
    /// reference, refuses the whole save. Each other HD or HD2 edit gives
    /// one write, in the order of the edits. The SD edits give one patch of
    /// the aggregate container, if one is loaded. Without pending edits
    /// there is nothing to write.
    ///
    /// The caller writes each patch to its temporary file, renames the
    /// temporary files over the originals in the order of the plan, and
    /// reports to [`Files::finish_save`].
    #[verifier::loop_isolation(false)]
    pub fn save(&mut self) -> (r: Result<SavePlan<'_>, Error>)
        requires
            old(self).wf(),
        ensures
            final(self).wf(),
            final(self).spec_open_files() == Assoc::<Anim>::empty(),
            final(self).spec_sprites() == old(self).spec_sprites(),
            final(self).spec_mainsd() == old(self).spec_mainsd(),
            final(self).spec_mainsd_path() == old(self).spec_mainsd_path(),
            final(self).spec_root_path() == old(self).spec_root_path(),
            final(self).spec_edits() == old(self).spec_edits(),
            match r {
                Ok(plan) => {
                    &&& spec_separate_writes(
                        old(self).spec_sprites(),
                        old(self).spec_edits().keys,
                        old(self).spec_edits().values,
                        old(self).spec_edits().keys.len(),
                    ) == Ok::<Seq<SeparateWrite<'_>>, Error>(plan.separate@)
                    &&& match plan.mainsd {
                        Some(w) => old(self).is_mainsd_write(&w) && w.data_changes@.len() > 0,
                        None => old(self).spec_mainsd().is_none() || spec_data_changes(
                            old(self).spec_edits().keys,
                            old(self).spec_edits().values,
                            old(self).spec_edits().keys.len(),
                        ).len() == 0,
                    }
                },
                Err(e) => spec_separate_writes(
                    old(self).spec_sprites(),
                    old(self).spec_edits().keys,
                    old(self).spec_edits().values,
                    old(self).spec_edits().keys.len(),
                ) == Err::<Seq<SeparateWrite<'_>>, Error>(e),
            },
            old(self).spec_edits() == Assoc::<Edit>::empty() ==> r is Ok
                && r.unwrap().separate@.len() == 0 && r.unwrap().mainsd is None,
    {
        self.open_files.clear();
        let mut separate: Vec<SeparateWrite<'_>> = Vec::new();
        let n = self.edits.len();
        let mut i: usize = 0;
        while i < n
            invariant
                n == self.edits@.keys.len(),
                n == self.edits@.values.len(),
                i <= n,
                spec_separate_writes(
                    self.sprites@,
                    self.edits@.keys,
                    self.edits@.values,
                    i as nat,
                ) == Ok::<Seq<SeparateWrite<'_>>, Error>(separate@),
            decreases n - i,
        {
            let key = self.edits.key_at(i);
            let edit = self.edits.value_at(i);
            if key.1 != SpriteType::Sd {
                let path = match separate_file_path(self.sprites.as_slice(), key.0, key.1) {
                    Some(path) => path,
                    None => {
                        proof {
                            lemma_separate_writes_error(
                                self.sprites@,
                                self.edits@.keys,
                                self.edits@.values,
                                (i + 1) as nat,
                                n as nat,
                            );
                        }
                        return Err(Error::NoPath { sprite: key.0, ty: key.1 });
                    },
                };
                let x = match edit {
                    Edit::Values(x) => x,
                    Edit::Ref(_) => {
                        proof {
                            lemma_separate_writes_error(
                                self.sprites@,
                                self.edits@.keys,
                                self.edits@.values,
                                (i + 1) as nat,
                                n as nat,
                            );
                        }
                        return Err(Error::RefNotSd { sprite: key.0, ty: key.1 });
                    },
                };
                separate.push(
                    SeparateWrite {
                        sprite: key.0,
                        ty: key.1,
                        path,
                        scale: scale(key.1),
                        values: x.values,
                        tex_changes: match &x.tex_changes {
                            Some(t) => Some(t),
                            None => None,
                        },
                    },
                );
            }
            i += 1;
        }
        let mainsd = match self.write_mainsd() {
            Ok(w) => if w.data_changes.len() > 0 {
                Some(w)
            } else {
                None
            },
            Err(_) => None,
        };
        Ok(SavePlan { separate, mainsd })
    }

    /// Ends a save. `committed` says whether every temporary file was
    /// renamed over its original; only then are the pending edits
    /// forgotten. `reloaded` is the aggregate container as read again from
    /// its file after the save replaced it; it takes the place of the
    /// loaded one.
    pub fn finish_save(&mut self, committed: bool, reloaded: Option<MainSd>)
        requires
            old(self).wf(),
        ensures
            final(self).wf(),
            final(self).spec_sprites() == old(self).spec_sprites(),
            final(self).spec_root_path() == old(self).spec_root_path(),
            final(self).spec_open_files() == old(self).spec_open_files(),
            final(self).spec_mainsd_path() == old(self).spec_mainsd_path(),
            final(self).spec_mainsd() == if old(self).spec_mainsd().is_some() && reloaded.is_some() {
                reloaded
            } else {
                old(self).spec_mainsd()
            },
            committed ==> final(self).spec_edits() == Assoc::<Edit>::empty(),
            committed ==> final(self).edits_apart(),
            !committed ==> final(self).spec_edits() == old(self).spec_edits(),
    {
        if let Some(mainsd) = reloaded {
            if let Some(old_mainsd) = self.mainsd_anim.take() {
                self.mainsd_anim = Some((old_mainsd.0, mainsd));
            }
        }
        if committed {
            self.edits.clear();
        }
    }

    /// A sprite variant without an edit is shown as its container holds
    /// it, unless its slot refers to a sprite with pending values.
    pub proof fn lemma_unedited_view_is_original(&self, sprite: usize, ty: SpriteType)
        requires
            self.spec_edits().get((sprite, ty)).is_none(),
            match self.spec_original(sprite, ty) {
                Some(ValuesOrRef::Ref(target)) => !(self.spec_edits().get((target as usize, ty))
                    matches Some(Edit::Values(_))),
                _ => true,
            },
        ensures
            match self.spec_location(sprite, ty) {
                Some(location) => {
                    &&& self.spec_file(sprite, ty) matches Ok(Some(file))
                    &&& file.location == location
                    &&& file.spec_sprite_values() == location.spec_sprite_values()
                    &&& file.spec_frames() == location.spec_frames()
                    &&& file.spec_image_ref() == location.spec_image_ref()
                    &&& forall|layer: int|
                        #[trigger] file.spec_texture_size(layer) == match location.spec_texture_sizes() {
                            Some(sizes) => if 0 <= layer < sizes.len() {
                                sizes[layer]
                            } else {
                                None
                            },
                            None => None,
                        }
                },
                None => self.spec_file(sprite, ty) == Ok::<Option<File<'_>>, Error>(None),
            },
    {
    }

    /// A sprite that a pending edit makes refer to `target` is shown as
    /// the target is: with the values of the target's edit, else those that
    /// the target's slot owns; with the frames and textures of the texture
    /// replacement of the target's edit, else those that the target's slot
    /// owns. Where neither is there, nothing is shown.
    pub proof fn lemma_reference_shows_target(&self, sprite: usize, target: u32)
        requires
            self.spec_edits().get((sprite, SpriteType::Sd)) == Some(Edit::Ref(target)),
            self.spec_mainsd().is_some(),
        ensures
            self.spec_file(sprite, SpriteType::Sd) matches Ok(Some(file)) && {
                let own = self.spec_mainsd().unwrap().spec_own_data(target as int);
                let edit = match self.spec_edits().get((target as usize, SpriteType::Sd)) {
                    Some(Edit::Values(x)) => Some(x),
                    _ => None,
                };
                let replaced = match edit {
                    Some(x) => x.tex_changes,
                    None => None,
                };
                &&& file.spec_image_ref() == Some(target)
                &&& file.spec_sprite_values() == match edit {
                    Some(x) => Some(x.values),
                    None => match own {
                        Some(d) => Some(d.values),
                        None => None,
                    },
                }
                &&& file.spec_frames() == match replaced {
                    Some(t) => Some(t.frames@),
                    None => match own {
                        Some(d) => Some(d.frames@),
                        None => None,
                    },
                }
                &&& forall|layer: int|
                    #[trigger] file.spec_texture_size(layer) == match replaced {
                        Some(t) => if 0 <= layer < t.textures@.len() {
                            match t.textures@[layer] {
                                Some(pair) => Some(pair.0),
                                None => None,
                            }
                        } else {
                            None
                        },
                        None => match own {
                            Some(d) => if 0 <= layer < d.textures@.len() {
                                d.textures@[layer]
                            } else {
                                None
                            },
                            None => None,
                        },
                    }
            },
    {
    }

    /// After an SD sprite was pointed at `image` while an aggregate
    /// container is loaded, its view says that it refers to `image`.
    pub proof fn lemma_ref_img_shown(&self, before: &Files, sprite: usize, image: u32)
        requires
            before.wf(),
            self.same_files(before),
            before.spec_mainsd().is_some(),
            self.spec_edits() == spec_set_ref_img(
                before.spec_edits(),
                before.spec_located_ref(sprite, SpriteType::Sd),
                (sprite, SpriteType::Sd),
                image,
            ),
        ensures
            self.spec_file(sprite, SpriteType::Sd) matches Ok(Some(file)) && file.spec_image_ref()
                == Some(image),
    {
        lemma_ref_img_entry(
            before.spec_edits(),
            before.spec_located_ref(sprite, SpriteType::Sd).unwrap(),
            (sprite, SpriteType::Sd),
            image,
        );
    }

    fn referring<'a>(
        location: FileLocation<'a>,
        edit: Option<&'a EditValues>,
        own: Option<&'a SpriteData>,
        target: u32,
    ) -> (r: File<'a>)
        ensures
            r == reference_fields(location, edit, own, target),
    {
        let replaced = match edit {
            Some(x) => match &x.tex_changes {
                Some(t) => Some(t),
                None => None,
            },
            None => None,
        };
        File {
            location,
            sprite_values: match edit {
                Some(x) => Some(x.values),
                None => match own {
                    Some(d) => Some(d.values),
                    None => None,
                },
            },
            frames: match replaced {
                Some(t) => Some(&t.frames),
                None => match own {
                    Some(d) => Some(&d.frames),
                    None => None,
                },
            },
            textures: match replaced {
                Some(t) => Some(&t.textures),
                None => None,
            },
            texture_sizes: match replaced {
                Some(_) => None,
                None => match own {
                    Some(d) => Some(&d.textures),
                    None => None,
                },
            },
            image_ref: Some(Some(target)),
        }
    }

    fn edited<'a>(location: FileLocation<'a>, x: &'a EditValues, image_ref: Option<Option<u32>>) -> (r:
        File<'a>)
        ensures
            r == edited_view(location, x, image_ref),
    {
        File {
            location,
            sprite_values: Some(x.values),
            frames: match &x.tex_changes {
                Some(t) => Some(&t.frames),
                None => None,
            },
            textures: match &x.tex_changes {
                Some(t) => Some(&t.textures),
                None => None,
            },
            texture_sizes: None,
            image_ref,
        }
    }
}

} // verus!
