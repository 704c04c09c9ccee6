//! The frame counter: how many simulation steps have been advanced.

use vstd::prelude::*;

verus! {

/// Simulation steps per second. The rollback scheduler drives this rate; one
/// physics step lasts one `FPS`-th of a second whatever the wall clock says.
pub const FPS: usize = 60;

/// The number of the frame that is simulated next. It is part of what a
/// rollback saves and restores, and it is only ever raised by
/// `increase_frame_system`.
#[derive(Clone, Copy, Debug, PartialEq, Eq, Hash, Structural)]
pub struct FrameCount {
    pub frame: usize,
}

impl Default for FrameCount {
    fn default() -> (count: Self)
        ensures
            count.frame == 0,
    {
        FrameCount { frame: 0 }
    }
}

/// The last action of a forward step: the counter goes up by exactly one.
pub fn increase_frame_system(frame_count: &mut FrameCount)
    requires
        old(frame_count).frame < usize::MAX,
    ensures
        final(frame_count).frame == old(frame_count).frame + 1,
{
    frame_count.frame += 1;
}

} // verus!
