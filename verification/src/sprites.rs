//! Which frames of a sprite sheet an animation runs through.

use vstd::prelude::*;

verus! {

/// The frames of the animation that plays, and of the one that follows it.
#[derive(Clone, Copy, Debug, Default, PartialEq, Eq, Structural)]
pub struct AnimationIndices {
    pub first: usize,
    pub last: usize,
    pub next_first: usize,
    pub next_last: usize,
}

impl AnimationIndices {
    /// The frame that follows `index`: the next one inside the animation,
    /// the first one from anywhere else.
    pub open spec fn frame_after(self, index: int) -> int {
        if self.first <= index < self.last {
            index + 1
        } else {
            self.first as int
        }
    }

    /// The indices once the animation that plays has reached the frame
    /// `index`: at its last frame the animation that follows takes over.
    pub open spec fn turned_over(self, index: int) -> AnimationIndices {
        if index == self.last {
            AnimationIndices { first: self.next_first, last: self.next_last, ..self }
        } else {
            self
        }
    }
}

/// Plays the frames from `new_first` to `new_last` from now on.
pub fn set_animation_frames(indices: &mut AnimationIndices, new_first: usize, new_last: usize)
    ensures
        *final(indices) == (AnimationIndices {
            first: new_first,
            last: new_last,
            next_first: new_first,
            next_last: new_last,
        }),
{
    indices.first = new_first;
    indices.last = new_last;
    indices.next_first = new_first;
    indices.next_last = new_last;
}

/// Plays the frames from `new_first` to `new_last` once the animation
/// that plays now has run through.
pub fn set_next_animation(indices: &mut AnimationIndices, new_first: usize, new_last: usize)
    ensures
        *final(indices) == (AnimationIndices {
            next_first: new_first,
            next_last: new_last,
            ..*old(indices)
        }),
{
    indices.next_first = new_first;
    indices.next_last = new_last;
}

/// Plays the frames from `new_first` to `new_last` once, then goes back
/// to the animation that plays now.
pub fn set_one_off_animation(indices: &mut AnimationIndices, new_first: usize, new_last: usize)
    ensures
        *final(indices) == (AnimationIndices {
            first: new_first,
            last: new_last,
            next_first: old(indices).first,
            next_last: old(indices).last,
        }),
{
    indices.next_first = indices.first;
    indices.next_last = indices.last;
    indices.first = new_first;
    indices.last = new_last;
}

/// Steps an animation that shows the frame `index`: at the last frame the
/// animation that follows takes over, and the result is the frame to show
/// next.
pub fn animate_sprite(indices: &mut AnimationIndices, index: usize) -> (next: usize)
    ensures
        *final(indices) == old(indices).turned_over(index as int),
        next == final(indices).frame_after(index as int),
{
    if index == indices.last {
        indices.first = indices.next_first;
        indices.last = indices.next_last;
    }
    if indices.first <= index && index < indices.last {
        index + 1
    } else {
        indices.first
    }
}

/// Inside an animation the frames follow one another up to the last, and
/// from anywhere else the animation starts at its first frame.
pub proof fn lemma_frames_stay_in_animation(indices: AnimationIndices, index: int)
    requires
        indices.first <= indices.last,
    ensures
        indices.first <= indices.frame_after(index) <= indices.last,
{
}

} // verus!
