//! Frame pacing: which command pool a frame records into, which timeline
//! value it waits for before reusing that pool, and which value it signals.
use vstd::prelude::*;

verus! {

/// The number of frames that may be in flight at once.
pub const FRAMES_IN_FLIGHT: u64 = 2u64;

/// The number that the first frame gets.
pub const FIRST_FRAME: u64 = 1u64;

/// What one frame does with the frame timeline semaphore and the command pools.
#[derive(Clone, Copy, Debug, PartialEq, Eq, Structural)]
pub struct FramePlan {
    /// The command pool the frame records into.
    pub command_pool: u32,
    /// The timeline value to wait for first, if any.
    pub wait_value: Option<u64>,
    /// The timeline value the frame's submission signals when done.
    pub signal_value: u64,
}

/// The plan of frame `frame`.
pub open spec fn spec_frame_plan(frame: u64) -> FramePlan {
    FramePlan {
        command_pool: (frame % FRAMES_IN_FLIGHT) as u32,
        wait_value: if frame > FRAMES_IN_FLIGHT {
            Some((frame - FRAMES_IN_FLIGHT) as u64)
        } else {
            None
        },
        signal_value: frame,
    }
}

/// Plans frame `frame`: it records into pool `frame mod FRAMES_IN_FLIGHT`;
/// once earlier frames have used that pool, it first waits for the frame
/// that last used it to finish; and it signals its own number when done.
pub fn plan_frame(frame: u64) -> (r: FramePlan)
    ensures
        r == spec_frame_plan(frame),
{
    let command_pool = (frame % FRAMES_IN_FLIGHT) as u32;
    let wait_value = if frame > FRAMES_IN_FLIGHT {
        Some(frame - FRAMES_IN_FLIGHT)
    } else {
        None
    };
    FramePlan { command_pool, wait_value, signal_value: frame }
}

/// The frame counter of a renderer.
pub struct FrameCounter {
    next_frame: u64,
}

impl FrameCounter {
    /// The number of the next frame.
    pub closed spec fn spec_next(&self) -> u64 {
        self.next_frame
    }

    /// A counter whose first frame is `FIRST_FRAME`.
    pub fn new() -> (r: FrameCounter)
        ensures
            r.spec_next() == FIRST_FRAME,
    {
        FrameCounter { next_frame: FIRST_FRAME }
    }

    /// The plan of the next frame.
    pub fn plan(&self) -> (r: FramePlan)
        ensures
            r == spec_frame_plan(self.spec_next()),
    {
        plan_frame(self.next_frame)
    }

    /// Moves on to the next frame, once this one was submitted.
    pub fn advance(&mut self)
        requires
            old(self).spec_next() < u64::MAX,
        ensures
            final(self).spec_next() == old(self).spec_next() + 1,
    {
        self.next_frame = self.next_frame + 1;
    }

    /// The number of the next frame.
    pub fn next(&self) -> (r: u64)
        ensures
            r == self.spec_next(),
    {
        self.next_frame
    }
}

/// The slot that frame `frame_index` takes among `len` per-frame objects,
/// which the frames use in turn.
pub fn frame_slot(frame_index: u64, len: usize) -> (r: usize)
    requires
        len > 0,
    ensures
        r == (frame_index as usize) as int % (len as int),
        r < len,
{
    (frame_index as usize) % len
}

} // verus!
