//! The description of a set of frame images: how many frames there are,
//! where their common origin lies, which layers have images, and which
//! frames are of which type.

use vstd::prelude::*;

verus! {

/// A run of frames that share a type.
#[derive(Copy, Clone, PartialEq, Eq, Debug, Structural)]
pub struct FrameType {
    pub first_frame: u32,
    /// The last frame of the run; it belongs to the run.
    pub last_frame: u32,
    pub frame_type: u32,
}

#[derive(Clone, PartialEq, Eq, Debug)]
pub struct FrameInfo {
    pub frame_count: u32,
    pub offset_x: i32,
    pub offset_y: i32,
    /// The layers that have images, each with the prefix of its file names.
    pub layers: Vec<(u32, String)>,
    pub frame_types: Vec<FrameType>,
}

impl FrameType {
    /// Whether frame `frame` belongs to the run.
    pub open spec fn spec_covers(&self, frame: int) -> bool {
        self.first_frame <= frame <= self.last_frame
    }

    pub fn covers(&self, frame: usize) -> (r: bool)
        ensures
            r == self.spec_covers(frame as int),
    {
        self.first_frame as usize <= frame && frame <= self.last_frame as usize
    }
}

/// The type of frame `frame` after the first `n` runs were applied in their
/// order to a frame of type `start`: that of the last run that covers it.
pub open spec fn frame_type_at(types: Seq<FrameType>, n: nat, frame: int, start: u32) -> u32
    decreases n,
{
    if n == 0 {
        start
    } else if types[n - 1].spec_covers(frame) {
        types[n - 1].frame_type
    } else {
        frame_type_at(types, (n - 1) as nat, frame, start)
    }
}

/// Whether one of the layers has the index `layer`.
pub open spec fn spec_has_layer(layers: Seq<(u32, String)>, layer: int) -> bool {
    exists|i: int| 0 <= i < layers.len() && (#[trigger] layers[i]).0 == layer
}

pub fn has_layer(layers: &[(u32, String)], layer: usize) -> (r: bool)
    ensures
        r == spec_has_layer(layers@, layer as int),
{
    let mut i: usize = 0;
    while i < layers.len()
        invariant
            i <= layers@.len(),
            forall|j: int| 0 <= j < i ==> (#[trigger] layers@[j]).0 != layer,
        decreases layers@.len() - i,
    {
        if layers[i].0 as usize == layer {
            return true;
        }
        i += 1;
    }
    false
}

} // verus!
