//! Pending edits, and how each way of editing changes the set of edits.
//!
//! An edit is kept only while it says something that the original does not:
//! every change ends by comparing the new edit with the original and drops
//! the edit where the two agree.

use vstd::prelude::*;
use crate::SpriteType;
use crate::anim::{SpriteValues, TexChanges, ValuesOrRef};
use crate::sprite_map::{Assoc, SpriteKey};

verus! {

/// A pending edit of one sprite variant.
#[derive(Clone, Debug, PartialEq, Eq)]
pub enum Edit {
    /// The slot refers to the data of another sprite.
    Ref(u32),
    /// The slot owns the given values.
    Values(EditValues),
}

#[derive(Clone, Debug, PartialEq, Eq)]
pub struct EditValues {
    pub values: SpriteValues,
    pub tex_changes: Option<TexChanges>,
}

/// The values a slot takes when its reference is switched off.
pub open spec fn spec_unset_values() -> SpriteValues {
    SpriteValues { unk2: 0xffff, width: 0, height: 0 }
}

/// The edit that says no more than the original does.
pub open spec fn seed_edit(orig: ValuesOrRef) -> Edit {
    match orig {
        ValuesOrRef::Values(values) => Edit::Values(EditValues { values, tex_changes: None }),
        ValuesOrRef::Ref(target) => Edit::Ref(target),
    }
}

/// The edit that the key has now, or the one seeded from the original.
pub open spec fn current_edit(edits: Assoc<Edit>, orig: ValuesOrRef, key: SpriteKey) -> Edit {
    match edits.get(key) {
        Some(edit) => edit,
        None => seed_edit(orig),
    }
}

/// `edit` with its values replaced; a reference edit stays as it is.
pub open spec fn with_values(edit: Edit, values: SpriteValues) -> Edit {
    match edit {
        Edit::Ref(target) => Edit::Ref(target),
        Edit::Values(x) => Edit::Values(EditValues { values, tex_changes: x.tex_changes }),
    }
}

/// The edits after `edit` was stored under `key`, or dropped because it
/// says what the original says.
pub open spec fn store_or_collapse(
    edits: Assoc<Edit>,
    orig: ValuesOrRef,
    key: SpriteKey,
    edit: Edit,
) -> Assoc<Edit> {
    if edit.spec_matches_original(orig) {
        edits.remove(key)
    } else {
        edits.put(key, edit)
    }
}

/// The edits after the reference of an SD sprite was switched on or off.
pub open spec fn spec_set_ref_enabled(
    edits: Assoc<Edit>,
    orig: Option<ValuesOrRef>,
    key: SpriteKey,
    enabled: bool,
) -> Assoc<Edit> {
    if key.1 != SpriteType::Sd || orig.is_none() {
        edits
    } else if (orig.unwrap() is Ref) == enabled {
        edits.remove(key)
    } else if enabled {
        edits.put(key, Edit::Ref(0))
    } else {
        edits.put(
            key,
            Edit::Values(EditValues { values: spec_unset_values(), tex_changes: None }),
        )
    }
}

/// The sprite that an original refers to, if it is a reference.
pub open spec fn original_target(orig: ValuesOrRef) -> Option<u32> {
    match orig {
        ValuesOrRef::Ref(target) => Some(target),
        ValuesOrRef::Values(_) => None,
    }
}

/// The edits after the sprite was made to refer to `image`.
///
/// `located` is `None` where the sprite variant has no container, and
/// nothing happens then. Else it holds the sprite that the slot of the
/// variant refers to in its container, if it refers to one. Where that is
/// `image` already, the pending edit is dropped; in every other case the
/// reference to `image` is stored, be the slot in the container or past its
/// last slot.
pub open spec fn spec_set_ref_img(
    edits: Assoc<Edit>,
    located: Option<Option<u32>>,
    key: SpriteKey,
    image: u32,
) -> Assoc<Edit> {
    match located {
        None => edits,
        Some(target) => if target == Some(image) {
            edits.remove(key)
        } else {
            edits.put(key, Edit::Ref(image))
        },
    }
}

/// The edits after a texture replacement was attached to the sprite.
pub open spec fn spec_set_tex_changes(
    edits: Assoc<Edit>,
    orig: Option<ValuesOrRef>,
    key: SpriteKey,
    changes: TexChanges,
) -> Assoc<Edit> {
    if orig.is_none() {
        edits
    } else {
        match current_edit(edits, orig.unwrap(), key) {
            Edit::Ref(_) => edits,
            Edit::Values(x) => edits.put(
                key,
                Edit::Values(EditValues { values: x.values, tex_changes: Some(changes) }),
            ),
        }
    }
}

/// The edits after the values of the sprite were set to `values`.
pub open spec fn spec_set_values(
    edits: Assoc<Edit>,
    orig: Option<ValuesOrRef>,
    key: SpriteKey,
    values: SpriteValues,
) -> Assoc<Edit> {
    if orig.is_none() {
        edits
    } else {
        store_or_collapse(
            edits,
            orig.unwrap(),
            key,
            with_values(current_edit(edits, orig.unwrap(), key), values),
        )
    }
}

impl Edit {
    /// Whether the edit says no more than the original: the same reference
    /// target, or the same values and no texture replacement.
    pub open spec fn spec_matches_original(&self, orig: ValuesOrRef) -> bool {
        match *self {
            Edit::Ref(target) => orig == ValuesOrRef::Ref(target),
            Edit::Values(x) => x.tex_changes.is_none() && orig == ValuesOrRef::Values(x.values),
        }
    }

    pub fn matches_original(&self, orig: ValuesOrRef) -> (r: bool)
        ensures
            r == self.spec_matches_original(orig),
    {
        match self {
            Edit::Ref(target) => match orig {
                ValuesOrRef::Ref(other) => *target == other,
                ValuesOrRef::Values(_) => false,
            },
            Edit::Values(x) => x.tex_changes.is_none() && match orig {
                ValuesOrRef::Values(o) => x.values == o,
                ValuesOrRef::Ref(_) => false,
            },
        }
    }
}

/// Setting the values of a sprite without an edit and then setting them
/// back to the original ones leaves the edits as they were.
pub proof fn lemma_values_restored(
    edits: Assoc<Edit>,
    original: SpriteValues,
    key: SpriteKey,
    values: SpriteValues,
)
    requires
        edits.wf(),
        !edits.contains_key(key),
    ensures
        spec_set_values(
            spec_set_values(edits, Some(ValuesOrRef::Values(original)), key, values),
            Some(ValuesOrRef::Values(original)),
            key,
            original,
        ) == edits,
{
    let orig = Some(ValuesOrRef::Values(original));
    let edit = Edit::Values(EditValues { values, tex_changes: None });
    let first = spec_set_values(edits, orig, key, values);
    if values != original {
        edits.lemma_put(key, edit);
        edits.lemma_put_then_remove(key, edit);
    }
}

/// Pointing a reference without an edit at another sprite and then back at
/// its original target leaves the edits as they were.
pub proof fn lemma_ref_img_restored(edits: Assoc<Edit>, original: u32, key: SpriteKey, image: u32)
    requires
        edits.wf(),
        !edits.contains_key(key),
    ensures
        spec_set_ref_img(
            spec_set_ref_img(edits, Some(Some(original)), key, image),
            Some(Some(original)),
            key,
            original,
        ) == edits,
{
    if image != original {
        edits.lemma_put(key, Edit::Ref(image));
        edits.lemma_put_then_remove(key, Edit::Ref(image));
    }
}

/// Switching the reference of a sprite without an edit and then switching
/// it back to what the original is leaves the edits as they were.
pub proof fn lemma_ref_enabled_restored(
    edits: Assoc<Edit>,
    orig: Option<ValuesOrRef>,
    key: SpriteKey,
    enabled: bool,
)
    requires
        edits.wf(),
        !edits.contains_key(key),
        orig.is_some(),
    ensures
        spec_set_ref_enabled(
            spec_set_ref_enabled(edits, orig, key, enabled),
            orig,
            key,
            orig.unwrap() is Ref,
        ) == edits,
{
    let first = spec_set_ref_enabled(edits, orig, key, enabled);
    if key.1 == SpriteType::Sd && (orig.unwrap() is Ref) != enabled {
        let edit = if enabled {
            Edit::Ref(0)
        } else {
            Edit::Values(EditValues { values: spec_unset_values(), tex_changes: None })
        };
        edits.lemma_put_then_remove(key, edit);
    }
}

/// An edit is stored only if it says something that the original does
/// not; storing or dropping it touches no other key.
pub proof fn lemma_stored_edit_differs(
    edits: Assoc<Edit>,
    orig: ValuesOrRef,
    key: SpriteKey,
    edit: Edit,
)
    requires
        edits.wf(),
    ensures
        store_or_collapse(edits, orig, key, edit).wf(),
        store_or_collapse(edits, orig, key, edit).get(key) == if edit.spec_matches_original(orig) {
            None
        } else {
            Some(edit)
        },
        forall|other: SpriteKey|
            other != key ==> #[trigger] store_or_collapse(edits, orig, key, edit).get(other)
                == edits.get(other),
{
    edits.lemma_put(key, edit);
    edits.lemma_remove(key);
}

/// Pointing a sprite at the target that its original already has leaves no
/// edit for it. Pointing it at any other sprite leaves exactly the edit
/// that refers to that sprite. No other key is touched.
pub proof fn lemma_ref_img_entry(
    edits: Assoc<Edit>,
    target: Option<u32>,
    key: SpriteKey,
    image: u32,
)
    requires
        edits.wf(),
    ensures
        spec_set_ref_img(edits, Some(target), key, image).wf(),
        spec_set_ref_img(edits, Some(target), key, image).get(key) == if target == Some(image) {
            None
        } else {
            Some(Edit::Ref(image))
        },
        forall|other: SpriteKey|
            other != key ==> #[trigger] spec_set_ref_img(edits, Some(target), key, image).get(
                other,
            ) == edits.get(other),
{
    edits.lemma_put(key, Edit::Ref(image));
    edits.lemma_remove(key);
}

/// A texture replacement for a sprite that is a reference, by its edit or,
/// without an edit, by its original, changes nothing.
pub proof fn lemma_tex_changes_on_reference(
    edits: Assoc<Edit>,
    orig: ValuesOrRef,
    key: SpriteKey,
    changes: TexChanges,
)
    requires
        current_edit(edits, orig, key) is Ref,
    ensures
        spec_set_tex_changes(edits, Some(orig), key, changes) == edits,
{
}

/// `after` is well formed, its edit of `key`, where it has one, differs
/// from the original, and every other key holds what it holds in `before`.
pub open spec fn edit_apart(
    after: Assoc<Edit>,
    before: Assoc<Edit>,
    orig: ValuesOrRef,
    key: SpriteKey,
) -> bool {
    &&& after.wf()
    &&& after.get(key) matches Some(e) ==> !e.spec_matches_original(orig)
    &&& forall|other: SpriteKey| other != key ==> #[trigger] after.get(other) == before.get(other)
}

/// No way of editing leaves an edit that says what the original says:
/// if the edit of the key, where it has one, differs from the original
/// before, so does the edit it has afterwards. Every other key holds what
/// it held before.
pub proof fn lemma_edits_stay_apart(
    edits: Assoc<Edit>,
    orig: ValuesOrRef,
    key: SpriteKey,
    enabled: bool,
    image: u32,
    values: SpriteValues,
    changes: TexChanges,
)
    requires
        edits.wf(),
        edits.get(key) matches Some(e) ==> !e.spec_matches_original(orig),
    ensures
        edit_apart(spec_set_ref_enabled(edits, Some(orig), key, enabled), edits, orig, key),
        edit_apart(
            spec_set_ref_img(edits, Some(original_target(orig)), key, image),
            edits,
            orig,
            key,
        ),
        edit_apart(spec_set_tex_changes(edits, Some(orig), key, changes), edits, orig, key),
        edit_apart(spec_set_values(edits, Some(orig), key, values), edits, orig, key),
{
    edits.lemma_remove(key);
    edits.lemma_put(key, Edit::Ref(0));
    edits.lemma_put(
        key,
        Edit::Values(EditValues { values: spec_unset_values(), tex_changes: None }),
    );
    edits.lemma_put(key, Edit::Ref(image));
    edits.lemma_put(key, with_values(current_edit(edits, orig, key), values));
    if let Edit::Values(x) = current_edit(edits, orig, key) {
        edits.lemma_put(
            key,
            Edit::Values(EditValues { values: x.values, tex_changes: Some(changes) }),
        );
    }
}

} // verus!
