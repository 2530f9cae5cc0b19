//! The model of the handle's image sequence and of the resize loop.
//!
//! The native layer owns the pixels; what this design owns is the loop that
//! walks the loaded frames in load order and resizes each one in place to
//! the fixed thumbnail size. A frame is modelled by what that loop reads and
//! writes: its dimensions. The resampling filter and its support factor are
//! compiled-in constants of the native call and have no bearing on the
//! resulting dimensions, so they do not appear in the model.

use vstd::prelude::*;

verus! {

/// Fixed thumbnail width; not user-configurable in this design.
pub const THUMBNAIL_WIDTH: u32 = 106;

/// Fixed thumbnail height; not user-configurable in this design.
pub const THUMBNAIL_HEIGHT: u32 = 80;

/// One image of a possibly multi-image sequence, modelled by its dimensions.
#[derive(Clone, Copy, Debug, PartialEq, Eq, Structural)]
pub struct Frame {
    pub width: u32,
    pub height: u32,
}

/// What one in-place resize to the fixed thumbnail size does to a frame.
pub open spec fn resized(f: Frame) -> Frame {
    Frame { width: THUMBNAIL_WIDTH, height: THUMBNAIL_HEIGHT }
}

/// What the whole resize loop does to a frame sequence: every frame is
/// resized in place, so the length and the relative order are kept.
pub open spec fn resized_all(frames: Seq<Frame>) -> Seq<Frame> {
    frames.map_values(|f: Frame| resized(f))
}

/// True when a frame already has the fixed thumbnail dimensions.
pub open spec fn is_thumbnail_sized(f: Frame) -> bool {
    f == resized(f)
}

/// Resizes a single frame to the fixed thumbnail size.
pub fn resize_frame(f: Frame) -> (r: Frame)
    ensures
        r == resized(f),
{
    Frame { width: THUMBNAIL_WIDTH, height: THUMBNAIL_HEIGHT }
}

/// The resize loop: walks the sequence from the first frame, in load order,
/// and resizes each frame in place, until no frames remain.
pub fn resize_all(frames: &mut Vec<Frame>)
    ensures
        final(frames)@ == resized_all(old(frames)@),
        final(frames)@.len() == old(frames)@.len(),
        forall|i: int|
            0 <= i < old(frames)@.len() ==> final(frames)@[i] == resized(old(frames)@[i]),
{
    let ghost orig = frames@;
    let mut i: usize = 0;
    while i < frames.len()
        invariant
            0 <= i <= orig.len(),
            frames@.len() == orig.len(),
            forall|j: int| 0 <= j < i ==> frames@[j] == resized(orig[j]),
            forall|j: int| i <= j < orig.len() ==> frames@[j] == orig[j],
        decreases orig.len() - i,
    {
        let f = frames[i];
        frames.set(i, resize_frame(f));
        i = i + 1;
    }
    proof {
        assert(frames@ =~= resized_all(orig));
    }
}

/// Law: one pass of the resize loop already yields a fixed point — resizing
/// a sequence a second time, with the same target dimensions, changes
/// nothing. In particular a single frame already at the thumbnail size stays
/// exactly as it is.
pub proof fn lemma_resize_idempotent(frames: Seq<Frame>)
    ensures
        resized_all(resized_all(frames)) =~= resized_all(frames),
        forall|f: Frame| is_thumbnail_sized(f) ==> resized(f) == f,
{
}

} // verus!
