//! Asset layout discovery: what one file name tells about the tree it
//! belongs to, and the names that follow from the layout.
//!
//! A tree has the aggregate container at `<root>/SD/mainSD.anim`, the HD
//! file of sprite `n` at `<root>/anim/main_nnn.anim` and its HD2 file at
//! `<root>/HD2/anim/main_nnn.anim`.

use vstd::prelude::*;
use vstd::string::*;
use crate::paths::{
    file_name, join, parent, path_file_name, path_join, path_parent, path_with_file_name,
    with_file_name,
};
use crate::text::{
    all_digits, decimal3, ends_with, eq_ignore_ascii_case, is_digit, lemma_decimal3_digits,
    push_decimal3, spec_all_digits, spec_ends_with, spec_eq_ignore_ascii_case,
    spec_starts_with, starts_with,
};

verus! {

/// What a file name and the name of its directory say of the file's place
/// in a tree.
#[derive(Copy, Clone, PartialEq, Eq, Debug, Structural)]
pub enum TreeFile {
    /// The aggregate container in its `SD` directory.
    MainSd,
    /// The file of one sprite in an `anim` directory.
    Anim,
}

pub open spec fn spec_is_mainsd_name(name: Seq<char>) -> bool {
    spec_eq_ignore_ascii_case(name, "mainsd.anim"@)
}

/// The name is `main_`, then three or more decimal digits, then `.anim`.
pub open spec fn spec_is_anim_name(name: Seq<char>) -> bool {
    &&& spec_starts_with(name, "main_"@)
    &&& spec_ends_with(name, ".anim"@)
    &&& name.len() >= "main_"@.len() + 3 + ".anim"@.len()
    &&& spec_all_digits(name, "main_"@.len() as int, name.len() - ".anim"@.len())
}

/// Whether the name is that of the file of one sprite.
pub fn is_anim_name(name: &str) -> (r: bool)
    ensures
        r == spec_is_anim_name(name@),
{
    let len = name.unicode_len();
    let prefix = "main_".unicode_len();
    let suffix = ".anim".unicode_len();
    proof {
        reveal_strlit("main_");
        reveal_strlit(".anim");
    }
    if !starts_with(name, "main_") || !ends_with(name, ".anim") {
        return false;
    }
    if len < prefix + 3 + suffix {
        return false;
    }
    all_digits(name, prefix, len - suffix)
}

/// The file name that the catalogue gives the files of a sprite is the
/// name of the file of one sprite.
pub proof fn lemma_anim_file_name_is_anim_name(image_id: u32)
    ensures
        spec_is_anim_name(spec_anim_file_name(image_id)),
{
    reveal_strlit("main_");
    reveal_strlit(".anim");
    let digits = decimal3(image_id as nat);
    let name = spec_anim_file_name(image_id);
    lemma_decimal3_digits(image_id as nat);
    assert(name.subrange(0, 5) =~= "main_"@);
    assert(name.subrange(name.len() - 5, name.len() as int) =~= ".anim"@);
    assert forall|i: int| 5 <= i < name.len() - 5 implies is_digit(#[trigger] name[i]) by {
        assert(name[i] == digits[i - 5]);
    }
}

pub open spec fn spec_tree_file(filename: Seq<char>, dir: Seq<char>) -> Option<TreeFile> {
    if spec_is_mainsd_name(filename) {
        if spec_eq_ignore_ascii_case(dir, "sd"@) {
            Some(TreeFile::MainSd)
        } else {
            None
        }
    } else if spec_is_anim_name(filename) {
        if spec_eq_ignore_ascii_case(dir, "anim"@) {
            Some(TreeFile::Anim)
        } else {
            None
        }
    } else {
        None
    }
}

/// Tells from the name of a file and the name of the directory it lies in
/// whether the file has its place in a tree.
///
/// `filename` is the aggregate container if it is `mainsd.anim` in any
/// case, and then belongs into a directory `sd`, in any case. Otherwise it
/// is the file of a sprite if it is `main_`, three or more decimal digits
/// and `.anim`, and then belongs into a directory `anim`, in any case.
pub fn tree_file(filename: &str, dir: &str) -> (r: Option<TreeFile>)
    ensures
        r == spec_tree_file(filename@, dir@),
{
    if eq_ignore_ascii_case(filename, "mainsd.anim") {
        if eq_ignore_ascii_case(dir, "sd") {
            Some(TreeFile::MainSd)
        } else {
            None
        }
    } else if is_anim_name(filename) {
        if eq_ignore_ascii_case(dir, "anim") {
            Some(TreeFile::Anim)
        } else {
            None
        }
    } else {
        None
    }
}

/// The root of the tree that `file` has its place in, over the named parts
/// of the path.
pub open spec fn spec_file_root_from_file(file: Seq<char>) -> Option<Seq<char>> {
    if path_file_name(file).is_none() || path_parent(file).is_none() {
        None
    } else {
        let filename = path_file_name(file).unwrap();
        let parent_path = path_parent(file).unwrap();
        if path_file_name(parent_path).is_none() {
            None
        } else {
            match spec_tree_file(filename, path_file_name(parent_path).unwrap()) {
                Some(TreeFile::MainSd) => path_parent(parent_path),
                Some(TreeFile::Anim) => match path_parent(parent_path) {
                    Some(l2) => match path_file_name(l2) {
                        Some(l2_name) => if spec_eq_ignore_ascii_case(l2_name, "hd2"@) {
                            path_parent(l2)
                        } else {
                            Some(l2)
                        },
                        None => None,
                    },
                    None => None,
                },
                None => None,
            }
        }
    }
}

/// The root of the tree that `file` has its place in: two directories up
/// from the aggregate container and from an HD file, three up from an HD2
/// file. `None` for a file that lies elsewhere.
pub fn file_root_from_file(file: &str) -> (r: Option<&str>)
    ensures
        match r {
            Some(root) => spec_file_root_from_file(file@) == Some(root@),
            None => spec_file_root_from_file(file@).is_none(),
        },
{
    let filename = match file_name(file) {
        Some(name) => name,
        None => {
            return None;
        },
    };
    let parent_path = match parent(file) {
        Some(dir) => dir,
        None => {
            return None;
        },
    };
    let parent_name = match file_name(parent_path) {
        Some(name) => name,
        None => {
            return None;
        },
    };
    match tree_file(filename, parent_name) {
        Some(TreeFile::MainSd) => parent(parent_path),
        Some(TreeFile::Anim) => {
            let l2 = match parent(parent_path) {
                Some(dir) => dir,
                None => {
                    return None;
                },
            };
            match file_name(l2) {
                Some(l2_name) => if eq_ignore_ascii_case(l2_name, "hd2") {
                    parent(l2)
                } else {
                    Some(l2)
                },
                None => None,
            }
        },
        None => None,
    }
}

pub open spec fn spec_is_mainsd(path: Seq<char>) -> bool {
    match path_file_name(path) {
        Some(name) => spec_is_mainsd_name(name),
        None => false,
    }
}

/// Whether the last component of `path` names the aggregate container.
pub fn is_mainsd(path: &str) -> (r: bool)
    ensures
        r == spec_is_mainsd(path@),
{
    match file_name(path) {
        Some(name) => eq_ignore_ascii_case(name, "mainsd.anim"),
        None => false,
    }
}

/// The name of the temporary file that stands in for a file with the name
/// `name` while it is written.
pub open spec fn spec_temp_name(name: Seq<char>) -> Seq<char> {
    "__temp__"@ + name
}

pub open spec fn spec_temp_file_path(orig_file: Seq<char>) -> Seq<char> {
    path_with_file_name(
        orig_file,
        spec_temp_name(
            match path_file_name(orig_file) {
                Some(name) => name,
                None => Seq::empty(),
            },
        ),
    )
}

/// The path of the temporary file that a save writes before it replaces
/// `orig_file`: in the same directory, the file name with `__temp__` in
/// front of it.
pub fn temp_file_path(orig_file: &str) -> (r: String)
    ensures
        r@ == spec_temp_file_path(orig_file@),
{
    let mut temp_name = String::from_str("__temp__");
    match file_name(orig_file) {
        Some(name) => {
            temp_name.append(name);
        },
        None => {
            assert(temp_name@ + Seq::<char>::empty() =~= temp_name@);
        },
    }
    with_file_name(orig_file, temp_name.as_str())
}

pub open spec fn spec_image_name(image_id: u32) -> Seq<char> {
    "#"@ + decimal3(image_id as nat)
}

/// The display name of a sprite: `#` and its number in at least three
/// digits.
pub fn image_name(image_id: u32) -> (r: String)
    ensures
        r@ == spec_image_name(image_id),
{
    let mut name = String::from_str("#");
    push_decimal3(&mut name, image_id as u64);
    name
}

pub open spec fn spec_anim_file_name(image_id: u32) -> Seq<char> {
    "main_"@ + decimal3(image_id as nat) + ".anim"@
}

/// The file name of the HD and HD2 file of a sprite.
pub fn anim_file_name(image_id: u32) -> (r: String)
    ensures
        r@ == spec_anim_file_name(image_id),
{
    let mut name = String::from_str("main_");
    push_decimal3(&mut name, image_id as u64);
    name.append(".anim");
    name
}

/// The path of the file of sprite `image_id` in the directory `dir` below
/// `root`.
pub open spec fn spec_anim_path(root: Seq<char>, dir: Seq<char>, image_id: u32) -> Seq<char> {
    path_join(path_join(root, dir), spec_anim_file_name(image_id))
}

pub fn anim_path(root: &str, dir: &str, image_id: u32) -> (r: String)
    ensures
        r@ == spec_anim_path(root@, dir@, image_id),
{
    let dir_path = join(root, dir);
    let name = anim_file_name(image_id);
    join(dir_path.as_str(), name.as_str())
}

/// The path of the aggregate container below `root`.
pub open spec fn spec_mainsd_path(root: Seq<char>) -> Seq<char> {
    path_join(root, "SD/mainSD.anim"@)
}

pub fn mainsd_path(root: &str) -> (r: String)
    ensures
        r@ == spec_mainsd_path(root@),
{
    join(root, "SD/mainSD.anim")
}

/// The three ways in which the file that a session is opened with can lie.
#[derive(Clone, Debug, PartialEq, Eq)]
pub enum Layout {
    /// The file has its place in a tree. The aggregate container of the
    /// tree, if there is one, is the file `mainsd_path`.
    Tree { root: String, mainsd_path: String },
    /// The file is an aggregate container outside a tree.
    MainSd,
    /// The file is all there is.
    SingleFile,
}

/// The layout with its paths as text.
pub enum LayoutView {
    Tree { root: Seq<char>, mainsd_path: Seq<char> },
    MainSd,
    SingleFile,
}

impl View for Layout {
    type V = LayoutView;

    open spec fn view(&self) -> LayoutView {
        match *self {
            Layout::Tree { root, mainsd_path } => LayoutView::Tree {
                root: root@,
                mainsd_path: mainsd_path@,
            },
            Layout::MainSd => LayoutView::MainSd,
            Layout::SingleFile => LayoutView::SingleFile,
        }
    }
}

/// The layout that the file name stands for: a tree where the file has its
/// place in one, else an aggregate container alone where the name is that
/// of one, else a single file.
pub open spec fn spec_layout(one_filename: Seq<char>) -> LayoutView {
    match spec_file_root_from_file(one_filename) {
        Some(root) => LayoutView::Tree { root, mainsd_path: spec_mainsd_path(root) },
        None => if spec_is_mainsd(one_filename) {
            LayoutView::MainSd
        } else {
            LayoutView::SingleFile
        },
    }
}

/// Finds the layout that the file name stands for.
pub fn layout(one_filename: &str) -> (r: Layout)
    ensures
        r@ == spec_layout(one_filename@),
{
    match file_root_from_file(one_filename) {
        Some(root) => Layout::Tree { root: String::from_str(root), mainsd_path: mainsd_path(root) },
        None => if is_mainsd(one_filename) {
            Layout::MainSd
        } else {
            Layout::SingleFile
        },
    }
}

} // verus!
