//! The physical frame allocator: a cursor that only moves forward.

use vstd::prelude::*;
use crate::mem::Frame;

verus! {

/// The frame that a fresh allocator hands out first: the frames below it
/// are taken before the allocator exists.
pub const FIRST_FRAME: usize = 5;

/// Hands out physical frames in rising order and never takes one back.
pub struct FrameAllocator {
    next_frame: usize,
}

impl FrameAllocator {
    /// The number of the frame that the next request returns.
    pub closed spec fn cursor(&self) -> usize {
        self.next_frame
    }

    pub fn new() -> (result: FrameAllocator)
        ensures
            result.cursor() == FIRST_FRAME,
    {
        FrameAllocator { next_frame: FIRST_FRAME }
    }

    /// One frame: the one at the cursor, which moves on by one.
    pub fn get_frame(&mut self) -> (result: Frame)
        requires
            old(self).cursor() < usize::MAX,
        ensures
            result.number() == old(self).cursor(),
            final(self).cursor() == old(self).cursor() + 1,
    {
        let result = Frame::new(self.next_frame);
        self.next_frame += 1;
        result
    }

    /// The first of `num_frames` frames in a row, which start at the cursor;
    /// the cursor moves past all of them.
    pub fn get_multiple_frames(&mut self, num_frames: usize) -> (result: Frame)
        requires
            old(self).cursor() + num_frames <= usize::MAX,
        ensures
            result.number() == old(self).cursor(),
            final(self).cursor() == old(self).cursor() + num_frames,
    {
        let result = Frame::new(self.next_frame);
        self.next_frame += num_frames;
        result
    }
}

} // verus!
