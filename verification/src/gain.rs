//! The gain pair of a frame, and the rule that selects it.

use vstd::prelude::*;
use crate::binary64::Binary64;
use crate::binary64::lemma_negated;
use crate::binary64::ONE_BITS;
use crate::error::PanError;

verus! {

/// The factors by which the two output channels are scaled in one frame.
#[derive(Clone, Copy, Debug, PartialEq, Eq, Structural)]
pub struct Gain {
    pub left: Binary64,
    pub right: Binary64,
}

/// The gain of one channel, tagged with the channel it belongs to.
#[derive(Clone, Copy, Debug, PartialEq, Eq, Structural)]
pub enum ChannelGain {
    Left(Binary64),
    Right(Binary64),
}

impl ChannelGain {
    /// The factor, whichever channel it is for.
    pub open spec fn factor(self) -> Binary64 {
        match self {
            ChannelGain::Left(gain) => gain,
            ChannelGain::Right(gain) => gain,
        }
    }
}

impl Gain {
    /// Both channels at one: the source passes through unattenuated.
    pub open spec fn unity() -> Gain {
        Gain { left: Binary64 { bits: ONE_BITS }, right: Binary64 { bits: ONE_BITS } }
    }

    /// The pair with left and right exchanged.
    pub open spec fn swapped(self) -> Gain {
        Gain { left: self.right, right: self.left }
    }

    /// Both channels at one.
    pub fn centered() -> (r: Gain)
        ensures
            r == Gain::unity(),
    {
        Gain { left: Binary64::one(), right: Binary64::one() }
    }
}

/// The virtual source lies strictly between the two speakers:
/// `-base_angle < pan_angle < base_angle`.
pub open spec fn inside_span(base_angle: Binary64, pan_angle: Binary64) -> bool {
    base_angle.negated().less(pan_angle) && pan_angle.less(base_angle)
}

/// A direction for which a gain exists: dead centre, or strictly inside
/// the span.
pub open spec fn admissible(base_angle: Binary64, pan_angle: Binary64) -> bool {
    pan_angle.zero() || inside_span(base_angle, pan_angle)
}

/// The gain for a direction, given what the tangent law yields for it.
///
/// A pan angle of zero gives unity whatever the base angle and whatever the
/// tangent law says. Any other angle must lie strictly inside the span and
/// then gets the tangent law's pair.
pub open spec fn gain_of(base_angle: Binary64, pan_angle: Binary64, tangent: Gain) -> Result<
    Gain,
    PanError,
> {
    if pan_angle.zero() {
        Ok(Gain::unity())
    } else if inside_span(base_angle, pan_angle) {
        Ok(tangent)
    } else {
        Err(PanError::PanAngleOutOfRange)
    }
}

/// `gain` is a gain that `law`, asked as the tangent law, allows for the
/// direction.
pub open spec fn gain_follows<L: Fn(Binary64, Binary64) -> Gain>(
    law: L,
    base_angle: Binary64,
    pan_angle: Binary64,
    gain: Gain,
) -> bool {
    if pan_angle.zero() {
        gain == Gain::unity()
    } else {
        inside_span(base_angle, pan_angle) && call_ensures(law, (base_angle, pan_angle), gain)
    }
}

/// Whether `-base_angle < pan_angle < base_angle`.
pub fn is_inside_span(base_angle: Binary64, pan_angle: Binary64) -> (r: bool)
    ensures
        r == inside_span(base_angle, pan_angle),
{
    base_angle.negate().less_than(&pan_angle) && pan_angle.less_than(&base_angle)
}

/// The gain pair for a direction.
///
/// `law` stands for the tangent law and is asked only for a pan angle that
/// is not zero and lies strictly inside the span. A pan angle of zero gives
/// unity; an angle on a speaker or beyond is refused.
pub fn calculate_gain<L: Fn(Binary64, Binary64) -> Gain>(
    base_angle: Binary64,
    pan_angle: Binary64,
    law: &L,
) -> (r: Result<Gain, PanError>)
    requires
        !pan_angle.zero() && inside_span(base_angle, pan_angle) ==> call_requires(
            *law,
            (base_angle, pan_angle),
        ),
    ensures
        pan_angle.zero() ==> r == Ok::<Gain, PanError>(Gain::unity()),
        !pan_angle.zero() && inside_span(base_angle, pan_angle) ==> r is Ok && call_ensures(
            *law,
            (base_angle, pan_angle),
            r->Ok_0,
        ),
        !pan_angle.zero() && !inside_span(base_angle, pan_angle) ==> r == Err::<Gain, PanError>(
            PanError::PanAngleOutOfRange,
        ),
{
    if pan_angle.is_zero() {
        return Ok(Gain::centered());
    }
    if !is_inside_span(base_angle, pan_angle) {
        return Err(PanError::PanAngleOutOfRange);
    }
    Ok(law(base_angle, pan_angle))
}

/// Dead centre is unity, whatever the base angle and whatever the tangent
/// law would give.
pub proof fn lemma_centre_is_unity(base_angle: Binary64, pan_angle: Binary64, tangent: Gain)
    requires
        pan_angle.zero(),
    ensures
        gain_of(base_angle, pan_angle, tangent) == Ok::<Gain, PanError>(Gain::unity()),
        Gain::unity().left.bits == ONE_BITS,
        Gain::unity().right.bits == ONE_BITS,
{
}

/// Off centre, a source on a speaker or beyond it has no gain: the pan
/// angle equals the base angle or exceeds it, or it equals the negated base
/// angle or lies below it. So has one whose angles cannot be compared at
/// all.
pub proof fn lemma_speaker_or_beyond_fails(
    base_angle: Binary64,
    pan_angle: Binary64,
    tangent: Gain,
)
    requires
        !pan_angle.zero(),
        pan_angle.nan() || base_angle.nan() || pan_angle.rank() >= base_angle.rank()
            || pan_angle.rank() <= -base_angle.rank(),
    ensures
        gain_of(base_angle, pan_angle, tangent) == Err::<Gain, PanError>(
            PanError::PanAngleOutOfRange,
        ),
{
    lemma_negated(base_angle);
}

/// A gain exists exactly at dead centre and strictly inside the span.
pub proof fn lemma_gain_exists(base_angle: Binary64, pan_angle: Binary64, tangent: Gain)
    ensures
        gain_of(base_angle, pan_angle, tangent) is Ok <==> pan_angle.zero() || (!pan_angle.nan()
            && !base_angle.nan() && -base_angle.rank() < pan_angle.rank() < base_angle.rank()),
{
    lemma_negated(base_angle);
}

/// The rule is the same on both sides of the centre: where the tangent
/// law's pair for the mirrored angle is the mirrored pair, the gain for the
/// mirrored angle is the mirrored gain, and a direction is refused exactly
/// when its mirror image is.
pub proof fn lemma_mirrored(base_angle: Binary64, pan_angle: Binary64, tangent: Gain)
    ensures
        admissible(base_angle, pan_angle.negated()) == admissible(base_angle, pan_angle),
        gain_of(base_angle, pan_angle.negated(), tangent.swapped()) == match gain_of(
            base_angle,
            pan_angle,
            tangent,
        ) {
            Ok(gain) => Ok::<Gain, PanError>(gain.swapped()),
            Err(e) => Err::<Gain, PanError>(e),
        },
{
    lemma_negated(base_angle);
    lemma_negated(pan_angle);
}

} // verus!
