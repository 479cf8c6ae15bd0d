//! What a save has to write, worked out from the pending edits.

use vstd::prelude::*;
use crate::SpriteType;
use crate::anim::{SpriteValues, TexChanges, ValuesOrRef};
use crate::edit::Edit;
use crate::error::Error;
use crate::files::{spec_separate_file_path, SpriteFiles};
use crate::layout::{spec_temp_file_path, temp_file_path};
use crate::sprite_map::SpriteKey;

verus! {

/// One file of a single sprite that a save has to write anew.
#[derive(Copy, Clone, Debug, PartialEq, Eq)]
pub struct SeparateWrite<'a> {
    pub sprite: usize,
    pub ty: SpriteType,
    /// The file to read the original from, and to replace in the end.
    pub path: &'a String,
    pub scale: u32,
    pub values: SpriteValues,
    pub tex_changes: Option<&'a TexChanges>,
}

impl<'a> SeparateWrite<'a> {
    /// The temporary file to write to.
    pub fn temp_path(&self) -> (r: String)
        ensures
            r@ == spec_temp_file_path(self.path@),
    {
        temp_file_path(self.path.as_str())
    }
}

/// The patch of a single-sprite container.
#[derive(Copy, Clone, Debug, PartialEq, Eq)]
pub struct SeparatePatch<'a> {
    pub scale: u32,
    pub layer_names: &'a [String],
    pub values: SpriteValues,
    pub tex_changes: Option<&'a TexChanges>,
}

/// The patch of the aggregate container: every pending SD edit at once.
#[derive(Clone, Debug, PartialEq, Eq)]
pub struct MainSdWrite<'a> {
    /// The file the container was loaded from, to replace in the end.
    pub path: &'a String,
    pub sprite_count: u16,
    pub layer_names: &'a Vec<String>,
    pub data_changes: Vec<(usize, ValuesOrRef)>,
    pub tex_changes: Vec<(usize, &'a TexChanges)>,
}

impl<'a> MainSdWrite<'a> {
    /// The temporary file to write to.
    pub fn temp_path(&self) -> (r: String)
        ensures
            r@ == spec_temp_file_path(self.path@),
    {
        temp_file_path(self.path.as_str())
    }
}

/// What a save has to write: the files of single sprites in the order of
/// their edits, then the aggregate container.
#[derive(Clone, Debug, PartialEq, Eq)]
pub struct SavePlan<'a> {
    pub separate: Vec<SeparateWrite<'a>>,
    pub mainsd: Option<MainSdWrite<'a>>,
}

impl<'a> SavePlan<'a> {
    /// How many files the plan writes, and so has to rename.
    pub open spec fn spec_rename_count(&self) -> nat {
        if self.mainsd.is_some() {
            self.separate@.len() + 1
        } else {
            self.separate@.len()
        }
    }

    /// The file that rename `i` replaces: those of the single sprites come
    /// first, in the order of the plan, the aggregate container last.
    pub open spec fn spec_rename_dest(&self, i: int) -> Seq<char> {
        if i < self.separate@.len() {
            self.separate@[i].path@
        } else {
            self.mainsd.unwrap().path@
        }
    }

    /// The renames that commit the plan once every file is written: for
    /// each written file its temporary file and the file it replaces, in
    /// the order in which they are to be renamed.
    pub fn renames(&self) -> (r: Vec<(String, String)>)
        ensures
            r@.len() == self.spec_rename_count(),
            forall|i: int|
                0 <= i < r@.len() ==> {
                    &&& (#[trigger] r@[i]).1@ == self.spec_rename_dest(i)
                    &&& r@[i].0@ == spec_temp_file_path(self.spec_rename_dest(i))
                },
    {
        let mut out: Vec<(String, String)> = Vec::new();
        let mut i: usize = 0;
        while i < self.separate.len()
            invariant
                i <= self.separate@.len(),
                out@.len() == i,
                forall|j: int|
                    0 <= j < i ==> {
                        &&& (#[trigger] out@[j]).1@ == self.spec_rename_dest(j)
                        &&& out@[j].0@ == spec_temp_file_path(self.spec_rename_dest(j))
                    },
            decreases self.separate@.len() - i,
        {
            let w = &self.separate[i];
            out.push((w.temp_path(), w.path.clone()));
            i += 1;
        }
        if let Some(w) = &self.mainsd {
            out.push((w.temp_path(), w.path.clone()));
        }
        out
    }
}

/// Which rename of a commit comes next. `done` of the `total` renames were
/// tried, in their order, and `last_ok` says that the last one tried went
/// well; it is `true` where none was tried. After a rename that failed no
/// further one is tried.
pub fn next_rename(total: usize, done: usize, last_ok: bool) -> (r: Option<usize>)
    ensures
        r == if last_ok && done < total {
            Some(done)
        } else {
            None
        },
{
    if last_ok && done < total {
        Some(done)
    } else {
        None
    }
}

/// The scale that the codec is told for a variant: 1 for SD, 2 for HD2, 4
/// for HD.
pub open spec fn spec_scale(ty: SpriteType) -> u32 {
    match ty {
        SpriteType::Sd => 1,
        SpriteType::Hd2 => 2,
        SpriteType::Hd => 4,
    }
}

pub fn scale(ty: SpriteType) -> (r: u32)
    ensures
        r == spec_scale(ty),
{
    match ty {
        SpriteType::Sd => 1,
        SpriteType::Hd2 => 2,
        SpriteType::Hd => 4,
    }
}

/// The texture replacement that an edit carries.
pub open spec fn spec_edit_tex_changes<'a>(edit: &'a Edit) -> Option<&'a TexChanges> {
    match edit {
        Edit::Ref(_) => None,
        Edit::Values(x) => match &x.tex_changes {
            Some(t) => Some(t),
            None => None,
        },
    }
}

/// The write for the edit of an HD or HD2 sprite. The catalogue must name
/// a file for it, and the edit must not be a reference.
pub open spec fn spec_separate_write<'a>(
    sprites: Seq<SpriteFiles>,
    key: SpriteKey,
    edit: &'a Edit,
) -> Result<SeparateWrite<'a>, Error> {
    match spec_separate_file_path(sprites, key.0, key.1) {
        None => Err(Error::NoPath { sprite: key.0, ty: key.1 }),
        Some(path) => match edit {
            Edit::Ref(_) => Err(Error::RefNotSd { sprite: key.0, ty: key.1 }),
            Edit::Values(x) => Ok(
                SeparateWrite {
                    sprite: key.0,
                    ty: key.1,
                    path: &path,
                    scale: spec_scale(key.1),
                    values: x.values,
                    tex_changes: spec_edit_tex_changes(edit),
                },
            ),
        },
    }
}

/// The writes for the HD and HD2 edits among the first `n` edits, in their
/// order, or the error of the first edit that cannot be written.
pub open spec fn spec_separate_writes<'a>(
    sprites: Seq<SpriteFiles>,
    keys: Seq<SpriteKey>,
    edits: Seq<Edit>,
    n: nat,
) -> Result<Seq<SeparateWrite<'a>>, Error>
    decreases n,
{
    if n == 0 {
        Ok(Seq::empty())
    } else {
        match spec_separate_writes(sprites, keys, edits, (n - 1) as nat) {
            Err(e) => Err(e),
            Ok(writes) => if keys[n - 1].1 == SpriteType::Sd {
                Ok(writes)
            } else {
                match spec_separate_write(sprites, keys[n - 1], &edits[n - 1]) {
                    Err(e) => Err(e),
                    Ok(w) => Ok(writes.push(w)),
                }
            },
        }
    }
}

/// What the edit makes of the slot in the aggregate container.
pub open spec fn spec_data_change(edit: Edit) -> ValuesOrRef {
    match edit {
        Edit::Ref(target) => ValuesOrRef::Ref(target),
        Edit::Values(x) => ValuesOrRef::Values(x.values),
    }
}

/// The slot changes of the SD edits among the first `n` edits, in their
/// order.
pub open spec fn spec_data_changes(keys: Seq<SpriteKey>, edits: Seq<Edit>, n: nat) -> Seq<
    (usize, ValuesOrRef),
>
    decreases n,
{
    if n == 0 {
        Seq::empty()
    } else {
        let changes = spec_data_changes(keys, edits, (n - 1) as nat);
        if keys[n - 1].1 == SpriteType::Sd {
            changes.push((keys[n - 1].0, spec_data_change(edits[n - 1])))
        } else {
            changes
        }
    }
}

/// The texture replacements of the SD edits among the first `n` edits, in
/// their order.
pub open spec fn spec_tex_changes<'a>(keys: Seq<SpriteKey>, edits: Seq<Edit>, n: nat) -> Seq<
    (usize, &'a TexChanges),
>
    decreases n,
{
    if n == 0 {
        Seq::empty()
    } else {
        let changes = spec_tex_changes(keys, edits, (n - 1) as nat);
        if keys[n - 1].1 == SpriteType::Sd {
            match spec_edit_tex_changes(&edits[n - 1]) {
                Some(t) => changes.push((keys[n - 1].0, t)),
                None => changes,
            }
        } else {
            changes
        }
    }
}

/// An edit that cannot be written stops every longer run of writes with
/// the same error.
pub proof fn lemma_separate_writes_error(
    sprites: Seq<SpriteFiles>,
    keys: Seq<SpriteKey>,
    edits: Seq<Edit>,
    m: nat,
    n: nat,
)
    requires
        m <= n,
        spec_separate_writes(sprites, keys, edits, m) is Err,
    ensures
        spec_separate_writes(sprites, keys, edits, n) == spec_separate_writes(
            sprites,
            keys,
            edits,
            m,
        ),
    decreases n,
{
    if m < n {
        lemma_separate_writes_error(sprites, keys, edits, m, (n - 1) as nat);
    }
}

} // verus!
