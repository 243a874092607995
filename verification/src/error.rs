//! Why a source is refused or a run stops.

use vstd::prelude::*;

verus! {

/// The ways in which panning fails.
#[derive(Clone, Copy, Debug, PartialEq, Eq, Structural)]
pub enum PanError {
    /// The source has neither one channel nor two.
    UnsupportedFormat,
    /// A direction puts the virtual source on a speaker or outside the
    /// span between the two.
    PanAngleOutOfRange,
    /// The source is not what a waveform reader delivers: its last frame is
    /// incomplete, or it holds more samples than a waveform container can.
    IoFailure,
}

impl PanError {
    /// The sentence that tells a user what went wrong.
    pub fn message(&self) -> (r: &'static str)
        ensures
            *self == PanError::UnsupportedFormat ==> r@ == "Only mono or stereo files are supported."@,
            *self == PanError::PanAngleOutOfRange ==> r@
                == "The pan angle must be between base_angle and -base_angle."@,
            *self == PanError::IoFailure ==> r@ == "The source is not a well-formed waveform."@,
    {
        match self {
            PanError::UnsupportedFormat => "Only mono or stereo files are supported.",
            PanError::PanAngleOutOfRange => "The pan angle must be between base_angle and -base_angle.",
            PanError::IoFailure => "The source is not a well-formed waveform.",
        }
    }
}

} // verus!
