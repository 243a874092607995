//! A source that sweeps from one side to the other, over and over.

use vstd::prelude::*;

verus! {

/// The number of frames after which the sweep starts over.
pub const SWEEP_PERIOD: u32 = 80000;

/// The number of frames the sweep spends on each side of the centre.
pub const SWEEP_HALF_PERIOD: u32 = 40000;

/// The base angle of the sweep, in degrees.
pub const SWEEP_BASE_DEGREES: u32 = 30;

/// The pan angle at which the sweep starts, in degrees; it ends just short
/// of the same angle on the other side.
pub const SWEEP_PAN_DEGREES: u32 = 25;

/// Where a sweeping source is within its period.
///
/// The source starts at `SWEEP_PAN_DEGREES`, moves through the centre at a
/// steady pace, and jumps back when it has all but reached
/// `-SWEEP_PAN_DEGREES`. The first half of a period is the way in, the
/// second the way out; the centre is the first frame of the way out. With
/// `d` for `SWEEP_PAN_DEGREES` and `h` for `SWEEP_HALF_PERIOD`:
#[derive(Clone, Copy, Debug, PartialEq, Eq, Structural)]
pub enum SweepPhase {
    /// On the way in: the pan angle is `d - d * (elapsed / h)`.
    Approaching { elapsed: u32 },
    /// On the way out: the pan angle is `-d * (elapsed / h)`.
    Receding { elapsed: u32 },
}

impl SweepPhase {
    /// The pan angle in steps of `d / h` degrees: `h` steps at the start,
    /// none at the centre, falling by one with every frame.
    pub open spec fn steps(self) -> int {
        match self {
            SweepPhase::Approaching { elapsed } => SWEEP_HALF_PERIOD - elapsed,
            SweepPhase::Receding { elapsed } => -(elapsed as int),
        }
    }
}

/// The phase of the sweep at a frame.
pub open spec fn sweep_at(frame_index: u32) -> SweepPhase {
    let place = frame_index % SWEEP_PERIOD;
    if place < SWEEP_HALF_PERIOD {
        SweepPhase::Approaching { elapsed: place }
    } else {
        SweepPhase::Receding { elapsed: (place - SWEEP_HALF_PERIOD) as u32 }
    }
}

/// The phase of the sweep at a frame.
pub fn sweep_phase(frame_index: u32) -> (r: SweepPhase)
    ensures
        r == sweep_at(frame_index),
{
    let periodic_index: u32 = frame_index % SWEEP_PERIOD;
    if periodic_index < SWEEP_HALF_PERIOD {
        SweepPhase::Approaching { elapsed: periodic_index }
    } else {
        SweepPhase::Receding { elapsed: periodic_index - SWEEP_HALF_PERIOD }
    }
}

/// The sweep is one falling ramp a period: the pan angle drops by one step
/// with each frame, from `h` steps down to just above `-h`, and so never
/// leaves the range between `-d` and `d` degrees.
pub proof fn lemma_sweep_ramp(frame_index: u32)
    ensures
        sweep_at(frame_index).steps() == SWEEP_HALF_PERIOD - frame_index % SWEEP_PERIOD,
        -SWEEP_HALF_PERIOD < sweep_at(frame_index).steps() <= SWEEP_HALF_PERIOD,
        sweep_at(frame_index) is Approaching ==> sweep_at(frame_index)->Approaching_elapsed
            < SWEEP_HALF_PERIOD,
        sweep_at(frame_index) is Receding ==> sweep_at(frame_index)->Receding_elapsed
            < SWEEP_HALF_PERIOD,
{
}

/// The sweep repeats after `SWEEP_PERIOD` frames.
pub proof fn lemma_sweep_periodic(frame_index: u32)
    requires
        frame_index + SWEEP_PERIOD <= u32::MAX,
    ensures
        sweep_at((frame_index + SWEEP_PERIOD) as u32) == sweep_at(frame_index),
{
}

} // verus!
