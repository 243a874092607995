//! The stereo stream that panning writes.

use vstd::prelude::*;
use crate::binary64::Binary64;

verus! {

/// How the samples of a waveform are encoded.
#[derive(Clone, Copy, Debug, PartialEq, Eq, Structural)]
pub enum SampleFormat {
    /// Numbers with a binary point.
    Float,
    /// Signed integers.
    Int,
}

/// The format fields of a waveform.
#[derive(Clone, Copy, Debug, PartialEq, Eq, Structural)]
pub struct WavSpec {
    pub channels: u16,
    pub sample_rate: u32,
    pub bits_per_sample: u16,
    pub sample_format: SampleFormat,
}

/// The one format every destination is written in: two channels, 44100
/// samples a second, 16-bit signed integers.
pub open spec fn stereo_pcm() -> WavSpec {
    WavSpec {
        channels: 2,
        sample_rate: 44100,
        bits_per_sample: 16,
        sample_format: SampleFormat::Int,
    }
}

/// One sample of the output, before the arithmetic: the source sample and
/// the factor it is to be multiplied by. The product, cut to 16 bits, is
/// what the output channel carries.
#[derive(Clone, Copy, Debug, PartialEq, Eq, Structural)]
pub struct ScaledSample {
    pub sample: i16,
    pub gain: Binary64,
}

/// What has been written to a destination: the format it was created in,
/// the samples in the order they were written, left and right taking turns,
/// and whether the stream was finalized.
#[derive(Debug)]
pub struct Destination {
    pub spec: WavSpec,
    pub samples: Vec<ScaledSample>,
    pub finalized: bool,
}

impl Destination {
    /// A new stream in the given format: empty, and open.
    pub fn create(spec: WavSpec) -> (r: Destination)
        ensures
            r.spec == spec,
            r.samples@ == Seq::<ScaledSample>::empty(),
            !r.finalized,
    {
        Destination { spec, samples: Vec::new(), finalized: false }
    }

    /// Appends one sample; the channel it lands in alternates, left first.
    pub fn write_sample(&mut self, sample: ScaledSample)
        ensures
            final(self).samples@ == old(self).samples@.push(sample),
            final(self).spec == old(self).spec,
            final(self).finalized == old(self).finalized,
    {
        self.samples.push(sample);
    }

    /// Marks the stream as complete.
    pub fn finalize(&mut self)
        ensures
            final(self).finalized,
            final(self).samples@ == old(self).samples@,
            final(self).spec == old(self).spec,
    {
        self.finalized = true;
    }
}

/// The format every destination is written in.
pub fn destination_spec() -> (r: WavSpec)
    ensures
        r == stereo_pcm(),
{
    WavSpec { channels: 2, sample_rate: 44100, bits_per_sample: 16, sample_format: SampleFormat::Int }
}

} // verus!
