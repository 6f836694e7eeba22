//! Frame-pacing policy for the window's frame loop, and the marker for
//! surfaces that track the viewport's size.

use vstd::prelude::*;

verus! {

/// How fast the frame loop should aim to run.
#[derive(Clone, Copy, PartialEq, Eq, Structural, Debug)]
pub enum TargetFPS {
    /// Pace to the display's refresh rate.
    RefreshRate,
    /// Pace to a fixed number of frames per second.
    Absolute(u64),
    /// Run unpaced.
    Max,
}

/// Marks an entity whose surface must be resized with the viewport.
pub struct ViewportSizedUITag;

impl TargetFPS {
    /// The time budget of one frame in nanoseconds under this policy, given
    /// the display's refresh rate: zero means unpaced. A rate of zero frames
    /// per second is treated as unpaced rather than as an endless frame.
    pub fn frame_budget_nanos(&self, refresh_rate: u64) -> (r: u64)
        ensures
            r == match *self {
                TargetFPS::RefreshRate => if refresh_rate > 0 {
                    (1_000_000_000u64 / refresh_rate) as u64
                } else {
                    0u64
                },
                TargetFPS::Absolute(fps) => if fps > 0 {
                    (1_000_000_000u64 / fps) as u64
                } else {
                    0u64
                },
                TargetFPS::Max => 0u64,
            },
    {
        match self {
            TargetFPS::RefreshRate => {
                if refresh_rate > 0 {
                    1_000_000_000u64 / refresh_rate
                } else {
                    0
                }
            },
            TargetFPS::Absolute(fps) => {
                if *fps > 0 {
                    1_000_000_000u64 / *fps
                } else {
                    0
                }
            },
            TargetFPS::Max => 0,
        }
    }
}

} // verus!
