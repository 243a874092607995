//! The panning engine: a validated source, and the loop that pans it.

use vstd::prelude::*;
use crate::binary64::Binary64;
use crate::binary64::ONE_BITS;
use crate::destination::destination_spec;
use crate::destination::stereo_pcm;
use crate::destination::Destination;
use crate::destination::ScaledSample;
use crate::destination::WavSpec;
use crate::error::PanError;
use crate::gain::admissible;
use crate::gain::calculate_gain;
use crate::gain::gain_follows;
use crate::gain::gain_of;
use crate::gain::inside_span;
use crate::gain::ChannelGain;
use crate::gain::Gain;

verus! {

/// The direction of the virtual source for one frame, with whatever the
/// provider wants handed back to it at the next frame.
#[derive(Debug)]
pub struct PanningDirection<T> {
    /// Handed unchanged to the provider's next call.
    pub user_data: Option<T>,
    /// Half the angle between the two speakers, in degrees.
    pub base_angle: Binary64,
    /// The angle of the virtual source, in degrees; zero is the centre.
    pub pan_angle: Binary64,
}

/// What a converter holds, as mathematics: the source's format fields and
/// its samples, interleaved where there are two channels.
pub struct Waveform {
    pub specs: WavSpec,
    pub samples: Seq<i16>,
}

/// A source that has passed validation: one or two channels, whole frames
/// only, and no more samples than a waveform container can hold.
#[derive(Debug)]
pub struct VbapConverter {
    specs: WavSpec,
    samples: Vec<i16>,
}

impl View for VbapConverter {
    type V = Waveform;

    closed spec fn view(&self) -> Waveform {
        Waveform { specs: self.specs, samples: self.samples@ }
    }
}

/// Why a source with these format fields and samples is refused, if it is.
///
/// The channel count is looked at first: anything but one or two is an
/// unsupported format, whatever else may be wrong.
pub open spec fn refusal(specs: WavSpec, samples: Seq<i16>) -> Option<PanError> {
    if specs.channels != 1 && specs.channels != 2 {
        Some(PanError::UnsupportedFormat)
    } else if samples.len() % specs.channels as nat != 0 || samples.len() > u32::MAX {
        Some(PanError::IoFailure)
    } else {
        None
    }
}

/// The number of frames in a source.
pub open spec fn frame_count(channels: u16, source: Seq<i16>) -> nat {
    source.len() / channels as nat
}

/// The sample at place `j` of the output, before the arithmetic.
///
/// Places alternate between left and right, so place `j` belongs to frame
/// `j / 2`. A mono frame feeds its one sample to both channels. A stereo
/// frame feeds its left sample to the left channel and its right sample to
/// the right channel, and nothing crosses over. Either way the left channel
/// is scaled by the frame's left gain and the right by its right gain.
pub open spec fn output_sample(channels: u16, source: Seq<i16>, gains: Seq<Gain>, j: int)
    -> ScaledSample {
    let frame = j / 2;
    let right = j % 2 == 1;
    ScaledSample {
        sample: if channels == 1 {
            source[frame]
        } else {
            source[j]
        },
        gain: if right {
            gains[frame].right
        } else {
            gains[frame].left
        },
    }
}

/// The output for the frames that `gains` covers: two samples a frame.
pub open spec fn rendered(channels: u16, source: Seq<i16>, gains: Seq<Gain>) -> Seq<ScaledSample> {
    Seq::new(2 * gains.len(), |j: int| output_sample(channels, source, gains, j))
}

/// The same gain for each of `n` frames.
pub open spec fn constant_gains(n: nat, gain: Gain) -> Seq<Gain> {
    Seq::new(n, |k: int| gain)
}

/// What the provider is handed at frame `k`, given its earlier answers:
/// nothing at frame 0, then what it returned at the frame before.
pub open spec fn carried<T>(trace: Seq<PanningDirection<T>>, k: int) -> Option<T> {
    if k == 0 {
        None
    } else {
        trace[k - 1].user_data
    }
}

/// Entry `k` of `trace` is an answer of the provider to the call for frame
/// `k`, made with what the entry before carried.
pub open spec fn answer_at<T, F: Fn(u32, Option<T>) -> PanningDirection<T>>(
    callback: F,
    trace: Seq<PanningDirection<T>>,
    k: int,
) -> bool {
    call_ensures(callback, (k as u32, carried(trace, k)), trace[k])
}

/// `trace` is a run of the provider: the calls for frames 0, 1, 2 and so
/// on, each made with what the call before returned to be carried on.
pub open spec fn answers<T, F: Fn(u32, Option<T>) -> PanningDirection<T>>(
    callback: F,
    trace: Seq<PanningDirection<T>>,
) -> bool {
    forall|k: int| 0 <= k < trace.len() ==> #[trigger] answer_at(callback, trace, k)
}

/// Entry `k` of `gains` is a gain for the direction at entry `k` of `trace`.
pub open spec fn gains_follow<T, L: Fn(Binary64, Binary64) -> Gain>(
    law: L,
    trace: Seq<PanningDirection<T>>,
    gains: Seq<Gain>,
) -> bool {
    &&& gains.len() <= trace.len()
    &&& forall|k: int|
        0 <= k < gains.len() ==> gain_follows(
            law,
            trace[k].base_angle,
            trace[k].pan_angle,
            #[trigger] gains[k],
        )
}

/// How a run over a source ends, told by the provider's answers and the
/// gains that were applied.
///
/// The destination is in the fixed stereo format and holds the output for
/// exactly the frames that got a gain. The run succeeds when every frame
/// of the source got one, and the destination is then finalized. It fails
/// at the first direction without a gain: the frames before it stay
/// written, and the destination stays open.
pub open spec fn panned<
    T,
    F: Fn(u32, Option<T>) -> PanningDirection<T>,
    L: Fn(Binary64, Binary64) -> Gain,
>(
    source: Waveform,
    callback: F,
    law: L,
    trace: Seq<PanningDirection<T>>,
    gains: Seq<Gain>,
    destination: Destination,
    result: Result<(), PanError>,
) -> bool {
    let frames = frame_count(source.specs.channels, source.samples);
    &&& answers(callback, trace)
    &&& gains_follow(law, trace, gains)
    &&& destination.spec == stereo_pcm()
    &&& destination.samples@ == rendered(source.specs.channels, source.samples, gains)
    &&& match result {
        Ok(_) => trace.len() == frames && gains.len() == frames && destination.finalized,
        Err(e) => {
            &&& e == PanError::PanAngleOutOfRange
            &&& gains.len() < frames
            &&& trace.len() == gains.len() + 1
            &&& !admissible(trace.last().base_angle, trace.last().pan_angle)
            &&& !destination.finalized
        },
    }
}

/// How a run under one fixed direction ends, given the gain of that
/// direction.
///
/// With a gain, every frame is scaled by it and the destination is
/// finalized. Without one, the run fails at the first frame and leaves the
/// destination empty and open; a source without frames never asks for a
/// gain and so succeeds all the same.
pub open spec fn panned_constant(
    source: Waveform,
    gain: Result<Gain, PanError>,
    destination: Destination,
    result: Result<(), PanError>,
) -> bool {
    let frames = frame_count(source.specs.channels, source.samples);
    &&& destination.spec == stereo_pcm()
    &&& match gain {
        Ok(g) => {
            &&& result is Ok
            &&& destination.finalized
            &&& destination.samples@ == rendered(
                source.specs.channels,
                source.samples,
                constant_gains(frames, g),
            )
        },
        Err(e) => {
            &&& destination.samples@ == Seq::<ScaledSample>::empty()
            &&& destination.finalized == (frames == 0)
            &&& frames == 0 ==> result is Ok
            &&& frames != 0 ==> result == Err::<(), PanError>(e)
        },
    }
}

/// A mono frame reaches both output channels: its one sample stands at
/// the left place with the frame's left gain and at the right place with
/// the frame's right gain.
pub proof fn lemma_mono_frame(source: Seq<i16>, gains: Seq<Gain>, i: int)
    requires
        0 <= i < gains.len(),
    ensures
        rendered(1, source, gains).len() == 2 * gains.len(),
        rendered(1, source, gains)[2 * i] == (ScaledSample {
            sample: source[i],
            gain: gains[i].left,
        }),
        rendered(1, source, gains)[2 * i + 1] == (ScaledSample {
            sample: source[i],
            gain: gains[i].right,
        }),
{
}

/// A stereo frame keeps its channels apart: the left sample stands at the
/// left place with the left gain, the right sample at the right place with
/// the right gain.
pub proof fn lemma_stereo_frame(source: Seq<i16>, gains: Seq<Gain>, i: int)
    requires
        0 <= i < gains.len(),
    ensures
        rendered(2, source, gains).len() == 2 * gains.len(),
        rendered(2, source, gains)[2 * i] == (ScaledSample {
            sample: source[2 * i],
            gain: gains[i].left,
        }),
        rendered(2, source, gains)[2 * i + 1] == (ScaledSample {
            sample: source[2 * i + 1],
            gain: gains[i].right,
        }),
{
}

/// Nothing crosses between the channels of a stereo source: the left
/// output of a frame is the same for two sources whose left samples agree
/// there, whatever their right samples are, and likewise on the right.
pub proof fn lemma_no_cross_mixing(a: Seq<i16>, b: Seq<i16>, gains: Seq<Gain>, i: int)
    requires
        0 <= i < gains.len(),
    ensures
        a[2 * i] == b[2 * i] ==> rendered(2, a, gains)[2 * i] == rendered(2, b, gains)[2 * i],
        a[2 * i + 1] == b[2 * i + 1] ==> rendered(2, a, gains)[2 * i + 1] == rendered(
            2,
            b,
            gains,
        )[2 * i + 1],
{
}

/// In a run, each call of the provider gets what the call before carried:
/// frame 0 is asked with nothing, and frame `k + 1` with the `user_data`
/// that the answer for frame `k` held. Each frame that was written was
/// scaled by a gain for the direction answered for that very frame.
pub proof fn lemma_state_handed_on<
    T,
    F: Fn(u32, Option<T>) -> PanningDirection<T>,
    L: Fn(Binary64, Binary64) -> Gain,
>(
    source: Waveform,
    callback: F,
    law: L,
    trace: Seq<PanningDirection<T>>,
    gains: Seq<Gain>,
    destination: Destination,
    result: Result<(), PanError>,
    k: int,
)
    requires
        panned(source, callback, law, trace, gains, destination, result),
        0 <= k < trace.len(),
    ensures
        k == 0 ==> call_ensures(callback, (0u32, None::<T>), trace[0]),
        k > 0 ==> call_ensures(callback, (k as u32, trace[k - 1].user_data), trace[k]),
        k < gains.len() ==> gain_follows(law, trace[k].base_angle, trace[k].pan_angle, gains[k]),
        k < gains.len() ==> destination.samples@[2 * k].gain == gains[k].left
            && destination.samples@[2 * k + 1].gain == gains[k].right,
{
    assert(answer_at(callback, trace, k));
}

/// A source without frames gives a destination without samples, in the
/// fixed format and finalized; the provider is not asked at all.
pub proof fn lemma_empty_source<
    T,
    F: Fn(u32, Option<T>) -> PanningDirection<T>,
    L: Fn(Binary64, Binary64) -> Gain,
>(
    source: Waveform,
    callback: F,
    law: L,
    trace: Seq<PanningDirection<T>>,
    gains: Seq<Gain>,
    destination: Destination,
    result: Result<(), PanError>,
)
    requires
        refusal(source.specs, source.samples) is None,
        source.samples.len() == 0,
        panned(source, callback, law, trace, gains, destination, result),
    ensures
        result is Ok,
        trace.len() == 0,
        destination.finalized,
        destination.samples@ == Seq::<ScaledSample>::empty(),
        destination.spec == stereo_pcm(),
{
    assert(destination.samples@ =~= Seq::<ScaledSample>::empty());
}

/// Panning to dead centre keeps the source: the run succeeds, and every
/// output sample is a source sample with a gain of exactly one. A mono
/// sample stands in both channels of its frame; a stereo sample stands
/// where it stood.
pub proof fn lemma_centre_keeps_source(
    source: Waveform,
    base_angle: Binary64,
    pan_angle: Binary64,
    tangent: Gain,
    destination: Destination,
    result: Result<(), PanError>,
)
    requires
        refusal(source.specs, source.samples) is None,
        pan_angle.zero(),
        panned_constant(
            source,
            gain_of(base_angle, pan_angle, tangent),
            destination,
            result,
        ),
    ensures
        result is Ok,
        destination.finalized,
        destination.samples@.len() == 2 * frame_count(source.specs.channels, source.samples),
        forall|j: int|
            0 <= j < destination.samples@.len() ==> (#[trigger] destination.samples@[j]).gain.bits
                == ONE_BITS,
        source.specs.channels == 1 ==> forall|j: int|
            0 <= j < destination.samples@.len() ==> (#[trigger] destination.samples@[j]).sample
                == source.samples[j / 2],
        source.specs.channels == 2 ==> forall|j: int|
            0 <= j < destination.samples@.len() ==> (#[trigger] destination.samples@[j]).sample
                == source.samples[j],
{
}

/// A provider that always points the same way, with a law that always
/// gives the same pair, makes a run under one fixed direction.
pub proof fn lemma_fixed_direction<
    T,
    F: Fn(u32, Option<T>) -> PanningDirection<T>,
    L: Fn(Binary64, Binary64) -> Gain,
>(
    source: Waveform,
    callback: F,
    law: L,
    base_angle: Binary64,
    pan_angle: Binary64,
    tangent: Gain,
    trace: Seq<PanningDirection<T>>,
    gains: Seq<Gain>,
    destination: Destination,
    result: Result<(), PanError>,
)
    requires
        forall|k: u32, state: Option<T>, d: PanningDirection<T>| #[trigger]
            call_ensures(callback, (k, state), d) ==> d.base_angle == base_angle && d.pan_angle
                == pan_angle,
        forall|base: Binary64, pan: Binary64, g: Gain| #[trigger]
            call_ensures(law, (base, pan), g) ==> g == tangent,
        panned(source, callback, law, trace, gains, destination, result),
    ensures
        panned_constant(source, gain_of(base_angle, pan_angle, tangent), destination, result),
{
    let frames = frame_count(source.specs.channels, source.samples);
    let fixed = gain_of(base_angle, pan_angle, tangent);
    assert forall|k: int| 0 <= k < trace.len() implies (#[trigger] trace[k]).base_angle
        == base_angle && trace[k].pan_angle == pan_angle by {
        assert(answer_at(callback, trace, k));
    }
    assert forall|k: int| 0 <= k < gains.len() implies fixed == Ok::<Gain, PanError>(
        #[trigger] gains[k],
    ) by {
        assert(trace[k].base_angle == base_angle);
        assert(gain_follows(law, base_angle, pan_angle, gains[k]));
    }
    match fixed {
        Ok(g) => {
            if result is Err {
                assert(trace.last().base_angle == base_angle);
            }
            assert(gains =~= constant_gains(frames, g));
        },
        Err(e) => {
            if gains.len() > 0 {
                assert(fixed == Ok::<Gain, PanError>(gains[0]));
            }
            assert(gains.len() == 0);
            assert(destination.samples@ =~= Seq::<ScaledSample>::empty());
        },
    }
}

impl VbapConverter {
    #[verifier::type_invariant]
    spec fn well_formed(self) -> bool {
        refusal(self.specs, self.samples@) is None
    }

    /// Validates a source.
    ///
    /// A channel count other than one or two is an unsupported format. A
    /// source that ends inside a frame, or is longer than a waveform
    /// container can be, is refused as unreadable.
    pub fn new(specs: WavSpec, samples: Vec<i16>) -> (r: Result<VbapConverter, PanError>)
        ensures
            match r {
                Ok(converter) => refusal(specs, samples@) is None && converter@ == (Waveform {
                    specs,
                    samples: samples@,
                }),
                Err(e) => refusal(specs, samples@) == Some(e),
            },
    {
        if specs.channels > 2 || specs.channels < 1 {
            return Err(PanError::UnsupportedFormat);
        }
        let channels: usize = specs.channels as usize;
        if samples.len() % channels != 0 || samples.len() > u32::MAX as usize {
            return Err(PanError::IoFailure);
        }
        Ok(VbapConverter { specs, samples })
    }

    /// The format fields of the source.
    pub fn specs(&self) -> (r: WavSpec)
        ensures
            r == self@.specs,
    {
        self.specs
    }

    /// The samples of the source.
    pub fn samples(&self) -> (r: &Vec<i16>)
        ensures
            r@ == self@.samples,
    {
        &self.samples
    }

    /// Pans the whole source to one fixed direction.
    ///
    /// `tangent` is what the tangent law yields for the two angles. It is
    /// used only where the pan angle is not zero and lies strictly inside
    /// the span.
    pub fn pan(
        &self,
        destination: &mut Destination,
        base_angle: Binary64,
        pan_angle: Binary64,
        tangent: Gain,
    ) -> (result: Result<(), PanError>)
        ensures
            final(destination).spec == stereo_pcm(),
            panned_constant(
                self@,
                gain_of(base_angle, pan_angle, tangent),
                *final(destination),
                result,
            ),
    {
        let const_pan = |_index: u32, _user_data: Option<()>| -> (d: PanningDirection<()>)
            ensures
                d == (PanningDirection::<()> { user_data: None, base_angle, pan_angle }),
            { PanningDirection { user_data: None, base_angle, pan_angle } };
        let const_law = |_base: Binary64, _pan: Binary64| -> (g: Gain)
            ensures
                g == tangent,
            { tangent };
        let result = self.write_samples(destination, const_pan, const_law);
        proof {
            let (trace, gains) = choose|trace: Seq<PanningDirection<()>>, gains: Seq<Gain>|
                panned(self@, const_pan, const_law, trace, gains, *destination, result);
            lemma_fixed_direction(
                self@,
                const_pan,
                const_law,
                base_angle,
                pan_angle,
                tangent,
                trace,
                gains,
                *destination,
                result,
            );
        }
        result
    }

    /// Pans the source under a direction that may change with every frame.
    ///
    /// `callback` is asked once for each frame, in order, with the frame's
    /// index and with what it returned as `user_data` at the frame before
    /// (nothing at frame 0). `law` stands for the tangent law.
    pub fn pan_interactive<T, F, L>(
        &self,
        destination: &mut Destination,
        callback: F,
        law: L,
    ) -> (result: Result<(), PanError>) where
        F: Fn(u32, Option<T>) -> PanningDirection<T>,
        L: Fn(Binary64, Binary64) -> Gain,

        requires
            forall|k: u32, state: Option<T>|
                k < frame_count(self@.specs.channels, self@.samples) ==> call_requires(
                    callback,
                    (k, state),
                ),
            forall|base: Binary64, pan: Binary64|
                !pan.zero() && inside_span(base, pan) ==> call_requires(law, (base, pan)),
        ensures
            final(destination).spec == stereo_pcm(),
            exists|trace: Seq<PanningDirection<T>>, gains: Seq<Gain>|
                panned(self@, callback, law, trace, gains, *final(destination), result),
    {
        self.write_samples(destination, callback, law)
    }

    /// Scales one mono sample into both channels of the output.
    pub fn write_samples_mono(sample: i16, gain: Gain, writer: &mut Destination)
        ensures
            final(writer).samples@ == old(writer).samples@.push(
                ScaledSample { sample, gain: gain.left },
            ).push(ScaledSample { sample, gain: gain.right }),
            final(writer).spec == old(writer).spec,
            final(writer).finalized == old(writer).finalized,
    {
        writer.write_sample(ScaledSample { sample, gain: gain.left });
        writer.write_sample(ScaledSample { sample, gain: gain.right });
    }

    /// Scales one sample of a stereo source into the output channel that is
    /// next in turn, by the gain of that channel.
    pub fn write_samples_stereo(sample: i16, channel_gain: ChannelGain, writer: &mut Destination)
        ensures
            final(writer).samples@ == old(writer).samples@.push(
                ScaledSample { sample, gain: channel_gain.factor() },
            ),
            final(writer).spec == old(writer).spec,
            final(writer).finalized == old(writer).finalized,
    {
        let new_sample = match channel_gain {
            ChannelGain::Left(gain) => ScaledSample { sample, gain },
            ChannelGain::Right(gain) => ScaledSample { sample, gain },
        };
        writer.write_sample(new_sample);
    }

    /// Pans the source into `destination`, asking `callback` for the
    /// direction of each frame and `law` for the gain of each direction that
    /// needs the tangent law.
    fn write_samples<T, F, L>(
        &self,
        destination: &mut Destination,
        callback: F,
        law: L,
    ) -> (result: Result<(), PanError>) where
        F: Fn(u32, Option<T>) -> PanningDirection<T>,
        L: Fn(Binary64, Binary64) -> Gain,

        requires
            forall|k: u32, state: Option<T>|
                k < frame_count(self@.specs.channels, self@.samples) ==> call_requires(
                    callback,
                    (k, state),
                ),
            forall|base: Binary64, pan: Binary64|
                !pan.zero() && inside_span(base, pan) ==> call_requires(law, (base, pan)),
        ensures
            exists|trace: Seq<PanningDirection<T>>, gains: Seq<Gain>|
                panned(self@, callback, law, trace, gains, *final(destination), result),
    {
        proof {
            use_type_invariant(self);
        }
        *destination = Destination::create(destination_spec());
        let stereo: bool = self.specs.channels == 2;
        let frames: usize = if stereo {
            self.samples.len() / 2
        } else {
            self.samples.len()
        };
        let ghost channels = self.specs.channels;
        let ghost source = self.samples@;
        let ghost mut trace: Seq<PanningDirection<T>> = Seq::empty();
        let ghost mut gains: Seq<Gain> = Seq::empty();
        // the first call has nothing to hand on
        let mut user_data: Option<T> = None;
        let mut frame: usize = 0;
        while frame < frames
            invariant
                channels == self.specs.channels,
                source == self.samples@,
                stereo == (channels == 2),
                !stereo ==> channels == 1,
                frames == frame_count(channels, source),
                frames * channels == source.len(),
                source.len() <= u32::MAX,
                frame <= frames,
                trace.len() == frame,
                gains.len() == frame,
                user_data == carried(trace, frame as int),
                answers(callback, trace),
                gains_follow(law, trace, gains),
                destination.spec == stereo_pcm(),
                !destination.finalized,
                destination.samples@ == rendered(channels, source, gains),
                forall|k: u32, state: Option<T>|
                    k < frames ==> call_requires(callback, (k, state)),
                forall|base: Binary64, pan: Binary64|
                    !pan.zero() && inside_span(base, pan) ==> call_requires(law, (base, pan)),
            decreases frames - frame,
        {
            let direction = callback(frame as u32, user_data);
            proof {
                let earlier = trace;
                trace = trace.push(direction);
                assert forall|k: int| 0 <= k < trace.len() implies #[trigger] answer_at(
                    callback,
                    trace,
                    k,
                ) by {
                    if k < earlier.len() {
                        assert(answer_at(callback, earlier, k));
                    }
                }
            }
            let PanningDirection { user_data: carried_on, base_angle, pan_angle } = direction;
            let gain = match calculate_gain(base_angle, pan_angle, &law) {
                Ok(gain) => gain,
                Err(e) => {
                    proof {
                        assert(panned(self@, callback, law, trace, gains, *destination, Err(e)));
                    }
                    return Err(e);
                },
            };
            proof {
                gains = gains.push(gain);
            }
            if stereo {
                Self::write_samples_stereo(
                    self.samples[2 * frame],
                    ChannelGain::Left(gain.left),
                    destination,
                );
                Self::write_samples_stereo(
                    self.samples[2 * frame + 1],
                    ChannelGain::Right(gain.right),
                    destination,
                );
            } else {
                Self::write_samples_mono(self.samples[frame], gain, destination);
            }
            proof {
                assert(destination.samples@ =~= rendered(channels, source, gains));
            }
            user_data = carried_on;
            frame += 1;
        }
        destination.finalize();
        proof {
            assert(panned(self@, callback, law, trace, gains, *destination, Ok(())));
        }
        Ok(())
    }
}

} // verus!
