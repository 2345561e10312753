use vstd::prelude::*;
use crate::blend::{difference, doubled_capped, lower};
use crate::expressions::{UnifiedExpressions, NUM_SHAPES, UNIFIED_COUNT};
use crate::level::Level;
use crate::unified::UnifiedShapes;

verus! {

/// Number of face values without the tongue.
pub const FACE_FB_MAX: usize = 63;

/// Number of face values with the tongue.
pub const FACE2_FB_MAX: usize = 70;

/// The face values of the first generation, in the order in which they arrive.
#[derive(Clone, Copy, Debug, PartialEq, Eq, Structural)]
pub enum FaceFb {
    BrowLowererL,
    BrowLowererR,
    CheekPuffL,
    CheekPuffR,
    CheekRaiserL,
    CheekRaiserR,
    CheekSuckL,
    CheekSuckR,
    ChinRaiserB,
    ChinRaiserT,
    DimplerL,
    DimplerR,
    EyesClosedL,
    EyesClosedR,
    EyesLookDownL,
    EyesLookDownR,
    EyesLookLeftL,
    EyesLookLeftR,
    EyesLookRightL,
    EyesLookRightR,
    EyesLookUpL,
    EyesLookUpR,
    InnerBrowRaiserL,
    InnerBrowRaiserR,
    JawDrop,
    JawSidewaysLeft,
    JawSidewaysRight,
    JawThrust,
    LidTightenerL,
    LidTightenerR,
    LipCornerDepressorL,
    LipCornerDepressorR,
    LipCornerPullerL,
    LipCornerPullerR,
    LipFunnelerLB,
    LipFunnelerLT,
    LipFunnelerRB,
    LipFunnelerRT,
    LipPressorL,
    LipPressorR,
    LipPuckerL,
    LipPuckerR,
    LipStretcherL,
    LipStretcherR,
    LipSuckLB,
    LipSuckLT,
    LipSuckRB,
    LipSuckRT,
    LipTightenerL,
    LipTightenerR,
    LipsToward,
    LowerLipDepressorL,
    LowerLipDepressorR,
    MouthLeft,
    MouthRight,
    NoseWrinklerL,
    NoseWrinklerR,
    OuterBrowRaiserL,
    OuterBrowRaiserR,
    UpperLidRaiserL,
    UpperLidRaiserR,
    UpperLipRaiserL,
    UpperLipRaiserR,
}

impl FaceFb {
    /// Position of the value in what the backend delivers.
    pub open spec fn spec_index(self) -> usize {
        match self {
            FaceFb::BrowLowererL => 0,
            FaceFb::BrowLowererR => 1,
            FaceFb::CheekPuffL => 2,
            FaceFb::CheekPuffR => 3,
            FaceFb::CheekRaiserL => 4,
            FaceFb::CheekRaiserR => 5,
            FaceFb::CheekSuckL => 6,
            FaceFb::CheekSuckR => 7,
            FaceFb::ChinRaiserB => 8,
            FaceFb::ChinRaiserT => 9,
            FaceFb::DimplerL => 10,
            FaceFb::DimplerR => 11,
            FaceFb::EyesClosedL => 12,
            FaceFb::EyesClosedR => 13,
            FaceFb::EyesLookDownL => 14,
            FaceFb::EyesLookDownR => 15,
            FaceFb::EyesLookLeftL => 16,
            FaceFb::EyesLookLeftR => 17,
            FaceFb::EyesLookRightL => 18,
            FaceFb::EyesLookRightR => 19,
            FaceFb::EyesLookUpL => 20,
            FaceFb::EyesLookUpR => 21,
            FaceFb::InnerBrowRaiserL => 22,
            FaceFb::InnerBrowRaiserR => 23,
            FaceFb::JawDrop => 24,
            FaceFb::JawSidewaysLeft => 25,
            FaceFb::JawSidewaysRight => 26,
            FaceFb::JawThrust => 27,
            FaceFb::LidTightenerL => 28,
            FaceFb::LidTightenerR => 29,
            FaceFb::LipCornerDepressorL => 30,
            FaceFb::LipCornerDepressorR => 31,
            FaceFb::LipCornerPullerL => 32,
            FaceFb::LipCornerPullerR => 33,
            FaceFb::LipFunnelerLB => 34,
            FaceFb::LipFunnelerLT => 35,
            FaceFb::LipFunnelerRB => 36,
            FaceFb::LipFunnelerRT => 37,
            FaceFb::LipPressorL => 38,
            FaceFb::LipPressorR => 39,
            FaceFb::LipPuckerL => 40,
            FaceFb::LipPuckerR => 41,
            FaceFb::LipStretcherL => 42,
            FaceFb::LipStretcherR => 43,
            FaceFb::LipSuckLB => 44,
            FaceFb::LipSuckLT => 45,
            FaceFb::LipSuckRB => 46,
            FaceFb::LipSuckRT => 47,
            FaceFb::LipTightenerL => 48,
            FaceFb::LipTightenerR => 49,
            FaceFb::LipsToward => 50,
            FaceFb::LowerLipDepressorL => 51,
            FaceFb::LowerLipDepressorR => 52,
            FaceFb::MouthLeft => 53,
            FaceFb::MouthRight => 54,
            FaceFb::NoseWrinklerL => 55,
            FaceFb::NoseWrinklerR => 56,
            FaceFb::OuterBrowRaiserL => 57,
            FaceFb::OuterBrowRaiserR => 58,
            FaceFb::UpperLidRaiserL => 59,
            FaceFb::UpperLidRaiserR => 60,
            FaceFb::UpperLipRaiserL => 61,
            FaceFb::UpperLipRaiserR => 62,
        }
    }

    /// Position of the value in what the backend delivers.
    #[verifier::when_used_as_spec(spec_index)]
    pub fn index(self) -> (i: usize)
        ensures
            i == self.spec_index(),
            i < FACE_FB_MAX,
    {
        match self {
            FaceFb::BrowLowererL => 0,
            FaceFb::BrowLowererR => 1,
            FaceFb::CheekPuffL => 2,
            FaceFb::CheekPuffR => 3,
            FaceFb::CheekRaiserL => 4,
            FaceFb::CheekRaiserR => 5,
            FaceFb::CheekSuckL => 6,
            FaceFb::CheekSuckR => 7,
            FaceFb::ChinRaiserB => 8,
            FaceFb::ChinRaiserT => 9,
            FaceFb::DimplerL => 10,
            FaceFb::DimplerR => 11,
            FaceFb::EyesClosedL => 12,
            FaceFb::EyesClosedR => 13,
            FaceFb::EyesLookDownL => 14,
            FaceFb::EyesLookDownR => 15,
            FaceFb::EyesLookLeftL => 16,
            FaceFb::EyesLookLeftR => 17,
            FaceFb::EyesLookRightL => 18,
            FaceFb::EyesLookRightR => 19,
            FaceFb::EyesLookUpL => 20,
            FaceFb::EyesLookUpR => 21,
            FaceFb::InnerBrowRaiserL => 22,
            FaceFb::InnerBrowRaiserR => 23,
            FaceFb::JawDrop => 24,
            FaceFb::JawSidewaysLeft => 25,
            FaceFb::JawSidewaysRight => 26,
            FaceFb::JawThrust => 27,
            FaceFb::LidTightenerL => 28,
            FaceFb::LidTightenerR => 29,
            FaceFb::LipCornerDepressorL => 30,
            FaceFb::LipCornerDepressorR => 31,
            FaceFb::LipCornerPullerL => 32,
            FaceFb::LipCornerPullerR => 33,
            FaceFb::LipFunnelerLB => 34,
            FaceFb::LipFunnelerLT => 35,
            FaceFb::LipFunnelerRB => 36,
            FaceFb::LipFunnelerRT => 37,
            FaceFb::LipPressorL => 38,
            FaceFb::LipPressorR => 39,
            FaceFb::LipPuckerL => 40,
            FaceFb::LipPuckerR => 41,
            FaceFb::LipStretcherL => 42,
            FaceFb::LipStretcherR => 43,
            FaceFb::LipSuckLB => 44,
            FaceFb::LipSuckLT => 45,
            FaceFb::LipSuckRB => 46,
            FaceFb::LipSuckRT => 47,
            FaceFb::LipTightenerL => 48,
            FaceFb::LipTightenerR => 49,
            FaceFb::LipsToward => 50,
            FaceFb::LowerLipDepressorL => 51,
            FaceFb::LowerLipDepressorR => 52,
            FaceFb::MouthLeft => 53,
            FaceFb::MouthRight => 54,
            FaceFb::NoseWrinklerL => 55,
            FaceFb::NoseWrinklerR => 56,
            FaceFb::OuterBrowRaiserL => 57,
            FaceFb::OuterBrowRaiserR => 58,
            FaceFb::UpperLidRaiserL => 59,
            FaceFb::UpperLidRaiserR => 60,
            FaceFb::UpperLipRaiserL => 61,
            FaceFb::UpperLipRaiserR => 62,
        }
    }
}

/// The values that the second generation adds for the tongue.
#[derive(Clone, Copy, Debug, PartialEq, Eq, Structural)]
pub enum Face2Fb {
    TongueTipInterdental,
    TongueTipAlveolar,
    TongueFrontDorsalPalate,
    TongueMidDorsalPalate,
    TongueBackDorsalPalate,
    TongueOut,
    TongueRetreat,
}

impl Face2Fb {
    /// Position of the value in what the backend delivers.
    pub open spec fn spec_index(self) -> usize {
        match self {
            Face2Fb::TongueTipInterdental => 63,
            Face2Fb::TongueTipAlveolar => 64,
            Face2Fb::TongueFrontDorsalPalate => 65,
            Face2Fb::TongueMidDorsalPalate => 66,
            Face2Fb::TongueBackDorsalPalate => 67,
            Face2Fb::TongueOut => 68,
            Face2Fb::TongueRetreat => 69,
        }
    }

    /// Position of the value in what the backend delivers.
    #[verifier::when_used_as_spec(spec_index)]
    pub fn index(self) -> (i: usize)
        ensures
            i == self.spec_index(),
            i < FACE2_FB_MAX,
    {
        match self {
            Face2Fb::TongueTipInterdental => 63,
            Face2Fb::TongueTipAlveolar => 64,
            Face2Fb::TongueFrontDorsalPalate => 65,
            Face2Fb::TongueMidDorsalPalate => 66,
            Face2Fb::TongueBackDorsalPalate => 67,
            Face2Fb::TongueOut => 68,
            Face2Fb::TongueRetreat => 69,
        }
    }
}

/// What the raised upper lip lets through of the upper lip suck.
///
/// `right` and `left` are one minus the 0.1666th power of the right and
/// the left upper lip raiser. The power is taken in floating point by
/// whoever holds the raw values.
#[derive(Clone, Copy, Debug, PartialEq, Eq)]
pub struct LipSuckLimit {
    pub right: Level,
    pub left: Level,
}

/// The value that the unified channel `e` takes from the face values `f`.
/// A channel that the backend knows nothing of is at rest; the tongue is
/// read only where the values reach that far.
pub open spec fn face2_fb_value(f: Seq<Level>, limit: LipSuckLimit, e: UnifiedExpressions) -> Level {
    match e {
        UnifiedExpressions::EyeLeftX => difference(
            f[FaceFb::EyesLookRightL.spec_index() as int],
            f[FaceFb::EyesLookLeftL.spec_index() as int],
        ),
        UnifiedExpressions::EyeRightX => difference(
            f[FaceFb::EyesLookRightR.spec_index() as int],
            f[FaceFb::EyesLookLeftR.spec_index() as int],
        ),
        UnifiedExpressions::EyeY => difference(
            f[FaceFb::EyesLookUpR.spec_index() as int],
            f[FaceFb::EyesLookDownR.spec_index() as int],
        ),
        UnifiedExpressions::EyeClosedRight => f[FaceFb::EyesClosedR.spec_index() as int],
        UnifiedExpressions::EyeClosedLeft => f[FaceFb::EyesClosedL.spec_index() as int],
        UnifiedExpressions::EyeSquintRight => difference(
            f[FaceFb::LidTightenerR.spec_index() as int],
            f[FaceFb::EyesClosedR.spec_index() as int],
        ),
        UnifiedExpressions::EyeSquintLeft => difference(
            f[FaceFb::LidTightenerL.spec_index() as int],
            f[FaceFb::EyesClosedL.spec_index() as int],
        ),
        UnifiedExpressions::EyeWideRight => f[FaceFb::UpperLidRaiserR.spec_index() as int],
        UnifiedExpressions::EyeWideLeft => f[FaceFb::UpperLidRaiserL.spec_index() as int],
        UnifiedExpressions::BrowPinchRight => f[FaceFb::BrowLowererR.spec_index() as int],
        UnifiedExpressions::BrowPinchLeft => f[FaceFb::BrowLowererL.spec_index() as int],
        UnifiedExpressions::BrowLowererRight => f[FaceFb::BrowLowererR.spec_index() as int],
        UnifiedExpressions::BrowLowererLeft => f[FaceFb::BrowLowererL.spec_index() as int],
        UnifiedExpressions::BrowInnerUpRight => f[FaceFb::InnerBrowRaiserR.spec_index() as int],
        UnifiedExpressions::BrowInnerUpLeft => f[FaceFb::InnerBrowRaiserL.spec_index() as int],
        UnifiedExpressions::BrowOuterUpRight => f[FaceFb::OuterBrowRaiserR.spec_index() as int],
        UnifiedExpressions::BrowOuterUpLeft => f[FaceFb::OuterBrowRaiserL.spec_index() as int],
        UnifiedExpressions::CheekSquintRight => f[FaceFb::CheekRaiserR.spec_index() as int],
        UnifiedExpressions::CheekSquintLeft => f[FaceFb::CheekRaiserL.spec_index() as int],
        UnifiedExpressions::CheekPuffRight => f[FaceFb::CheekPuffR.spec_index() as int],
        UnifiedExpressions::CheekPuffLeft => f[FaceFb::CheekPuffL.spec_index() as int],
        UnifiedExpressions::CheekSuckRight => f[FaceFb::CheekSuckR.spec_index() as int],
        UnifiedExpressions::CheekSuckLeft => f[FaceFb::CheekSuckL.spec_index() as int],
        UnifiedExpressions::JawOpen => f[FaceFb::JawDrop.spec_index() as int],
        UnifiedExpressions::JawRight => f[FaceFb::JawSidewaysRight.spec_index() as int],
        UnifiedExpressions::JawLeft => f[FaceFb::JawSidewaysLeft.spec_index() as int],
        UnifiedExpressions::JawForward => f[FaceFb::JawThrust.spec_index() as int],
        UnifiedExpressions::MouthClosed => f[FaceFb::LipsToward.spec_index() as int],
        UnifiedExpressions::LipSuckUpperRight => lower(limit.right, f[FaceFb::LipSuckRT.spec_index() as int]),
        UnifiedExpressions::LipSuckUpperLeft => lower(limit.left, f[FaceFb::LipSuckLT.spec_index() as int]),
        UnifiedExpressions::LipSuckLowerRight => f[FaceFb::LipSuckRB.spec_index() as int],
        UnifiedExpressions::LipSuckLowerLeft => f[FaceFb::LipSuckLB.spec_index() as int],
        UnifiedExpressions::LipFunnelUpperRight => f[FaceFb::LipFunnelerRT.spec_index() as int],
        UnifiedExpressions::LipFunnelUpperLeft => f[FaceFb::LipFunnelerLT.spec_index() as int],
        UnifiedExpressions::LipFunnelLowerRight => f[FaceFb::LipFunnelerRB.spec_index() as int],
        UnifiedExpressions::LipFunnelLowerLeft => f[FaceFb::LipFunnelerLB.spec_index() as int],
        UnifiedExpressions::LipPuckerUpperRight => f[FaceFb::LipPuckerR.spec_index() as int],
        UnifiedExpressions::LipPuckerUpperLeft => f[FaceFb::LipPuckerL.spec_index() as int],
        UnifiedExpressions::LipPuckerLowerRight => f[FaceFb::LipPuckerR.spec_index() as int],
        UnifiedExpressions::LipPuckerLowerLeft => f[FaceFb::LipPuckerL.spec_index() as int],
        UnifiedExpressions::MouthUpperUpRight => f[FaceFb::UpperLipRaiserR.spec_index() as int],
        UnifiedExpressions::MouthUpperUpLeft => f[FaceFb::UpperLipRaiserL.spec_index() as int],
        UnifiedExpressions::MouthUpperDeepenRight => f[FaceFb::UpperLipRaiserR.spec_index() as int],
        UnifiedExpressions::MouthUpperDeepenLeft => f[FaceFb::UpperLipRaiserL.spec_index() as int],
        UnifiedExpressions::NoseSneerRight => f[FaceFb::NoseWrinklerR.spec_index() as int],
        UnifiedExpressions::NoseSneerLeft => f[FaceFb::NoseWrinklerL.spec_index() as int],
        UnifiedExpressions::MouthLowerDownRight => f[FaceFb::LowerLipDepressorR.spec_index() as int],
        UnifiedExpressions::MouthLowerDownLeft => f[FaceFb::LowerLipDepressorL.spec_index() as int],
        UnifiedExpressions::MouthUpperRight => f[FaceFb::MouthRight.spec_index() as int],
        UnifiedExpressions::MouthUpperLeft => f[FaceFb::MouthLeft.spec_index() as int],
        UnifiedExpressions::MouthLowerRight => f[FaceFb::MouthRight.spec_index() as int],
        UnifiedExpressions::MouthLowerLeft => f[FaceFb::MouthLeft.spec_index() as int],
        UnifiedExpressions::MouthCornerPullRight => f[FaceFb::LipCornerPullerR.spec_index() as int],
        UnifiedExpressions::MouthCornerPullLeft => f[FaceFb::LipCornerPullerL.spec_index() as int],
        UnifiedExpressions::MouthCornerSlantRight => f[FaceFb::LipCornerPullerR.spec_index() as int],
        UnifiedExpressions::MouthCornerSlantLeft => f[FaceFb::LipCornerPullerL.spec_index() as int],
        UnifiedExpressions::MouthFrownRight => f[FaceFb::LipCornerDepressorR.spec_index() as int],
        UnifiedExpressions::MouthFrownLeft => f[FaceFb::LipCornerDepressorL.spec_index() as int],
        UnifiedExpressions::MouthStretchRight => f[FaceFb::LipStretcherR.spec_index() as int],
        UnifiedExpressions::MouthStretchLeft => f[FaceFb::LipStretcherL.spec_index() as int],
        UnifiedExpressions::MouthDimpleRight => doubled_capped(f[FaceFb::DimplerR.spec_index() as int]),
        UnifiedExpressions::MouthDimpleLeft => doubled_capped(f[FaceFb::DimplerL.spec_index() as int]),
        UnifiedExpressions::MouthRaiserUpper => f[FaceFb::ChinRaiserT.spec_index() as int],
        UnifiedExpressions::MouthRaiserLower => f[FaceFb::ChinRaiserB.spec_index() as int],
        UnifiedExpressions::MouthPressRight => f[FaceFb::LipPressorR.spec_index() as int],
        UnifiedExpressions::MouthPressLeft => f[FaceFb::LipPressorL.spec_index() as int],
        UnifiedExpressions::MouthTightenerRight => f[FaceFb::LipTightenerR.spec_index() as int],
        UnifiedExpressions::MouthTightenerLeft => f[FaceFb::LipTightenerL.spec_index() as int],
        UnifiedExpressions::TongueOut => if f.len() >= FACE2_FB_MAX {
            f[Face2Fb::TongueOut.spec_index() as int]
        } else {
            0
        },
        UnifiedExpressions::TongueCurlUp => if f.len() >= FACE2_FB_MAX {
            f[Face2Fb::TongueTipAlveolar.spec_index() as int]
        } else {
            0
        },
        _ => 0,
    }
}

/// Computes the value that the unified channel `e` takes from the face values.
pub fn face2_fb_channel(face_fb: &[Level], limit: LipSuckLimit, e: UnifiedExpressions) -> (r: Level)
    requires
        face_fb@.len() >= FACE_FB_MAX,
    ensures
        r == face2_fb_value(face_fb@, limit, e),
{
    match e {
        UnifiedExpressions::EyeLeftX => difference(
            face_fb[FaceFb::EyesLookRightL.index()],
            face_fb[FaceFb::EyesLookLeftL.index()],
        ),
        UnifiedExpressions::EyeRightX => difference(
            face_fb[FaceFb::EyesLookRightR.index()],
            face_fb[FaceFb::EyesLookLeftR.index()],
        ),
        UnifiedExpressions::EyeY => difference(face_fb[FaceFb::EyesLookUpR.index()], face_fb[FaceFb::EyesLookDownR.index()]),
        UnifiedExpressions::EyeClosedRight => face_fb[FaceFb::EyesClosedR.index()],
        UnifiedExpressions::EyeClosedLeft => face_fb[FaceFb::EyesClosedL.index()],
        UnifiedExpressions::EyeSquintRight => difference(face_fb[FaceFb::LidTightenerR.index()], face_fb[FaceFb::EyesClosedR.index()]),
        UnifiedExpressions::EyeSquintLeft => difference(face_fb[FaceFb::LidTightenerL.index()], face_fb[FaceFb::EyesClosedL.index()]),
        UnifiedExpressions::EyeWideRight => face_fb[FaceFb::UpperLidRaiserR.index()],
        UnifiedExpressions::EyeWideLeft => face_fb[FaceFb::UpperLidRaiserL.index()],
        UnifiedExpressions::BrowPinchRight => face_fb[FaceFb::BrowLowererR.index()],
        UnifiedExpressions::BrowPinchLeft => face_fb[FaceFb::BrowLowererL.index()],
        UnifiedExpressions::BrowLowererRight => face_fb[FaceFb::BrowLowererR.index()],
        UnifiedExpressions::BrowLowererLeft => face_fb[FaceFb::BrowLowererL.index()],
        UnifiedExpressions::BrowInnerUpRight => face_fb[FaceFb::InnerBrowRaiserR.index()],
        UnifiedExpressions::BrowInnerUpLeft => face_fb[FaceFb::InnerBrowRaiserL.index()],
        UnifiedExpressions::BrowOuterUpRight => face_fb[FaceFb::OuterBrowRaiserR.index()],
        UnifiedExpressions::BrowOuterUpLeft => face_fb[FaceFb::OuterBrowRaiserL.index()],
        UnifiedExpressions::CheekSquintRight => face_fb[FaceFb::CheekRaiserR.index()],
        UnifiedExpressions::CheekSquintLeft => face_fb[FaceFb::CheekRaiserL.index()],
        UnifiedExpressions::CheekPuffRight => face_fb[FaceFb::CheekPuffR.index()],
        UnifiedExpressions::CheekPuffLeft => face_fb[FaceFb::CheekPuffL.index()],
        UnifiedExpressions::CheekSuckRight => face_fb[FaceFb::CheekSuckR.index()],
        UnifiedExpressions::CheekSuckLeft => face_fb[FaceFb::CheekSuckL.index()],
        UnifiedExpressions::JawOpen => face_fb[FaceFb::JawDrop.index()],
        UnifiedExpressions::JawRight => face_fb[FaceFb::JawSidewaysRight.index()],
        UnifiedExpressions::JawLeft => face_fb[FaceFb::JawSidewaysLeft.index()],
        UnifiedExpressions::JawForward => face_fb[FaceFb::JawThrust.index()],
        UnifiedExpressions::MouthClosed => face_fb[FaceFb::LipsToward.index()],
        UnifiedExpressions::LipSuckUpperRight => lower(limit.right, face_fb[FaceFb::LipSuckRT.index()]),
        UnifiedExpressions::LipSuckUpperLeft => lower(limit.left, face_fb[FaceFb::LipSuckLT.index()]),
        UnifiedExpressions::LipSuckLowerRight => face_fb[FaceFb::LipSuckRB.index()],
        UnifiedExpressions::LipSuckLowerLeft => face_fb[FaceFb::LipSuckLB.index()],
        UnifiedExpressions::LipFunnelUpperRight => face_fb[FaceFb::LipFunnelerRT.index()],
        UnifiedExpressions::LipFunnelUpperLeft => face_fb[FaceFb::LipFunnelerLT.index()],
        UnifiedExpressions::LipFunnelLowerRight => face_fb[FaceFb::LipFunnelerRB.index()],
        UnifiedExpressions::LipFunnelLowerLeft => face_fb[FaceFb::LipFunnelerLB.index()],
        UnifiedExpressions::LipPuckerUpperRight => face_fb[FaceFb::LipPuckerR.index()],
        UnifiedExpressions::LipPuckerUpperLeft => face_fb[FaceFb::LipPuckerL.index()],
        UnifiedExpressions::LipPuckerLowerRight => face_fb[FaceFb::LipPuckerR.index()],
        UnifiedExpressions::LipPuckerLowerLeft => face_fb[FaceFb::LipPuckerL.index()],
        UnifiedExpressions::MouthUpperUpRight => face_fb[FaceFb::UpperLipRaiserR.index()],
        UnifiedExpressions::MouthUpperUpLeft => face_fb[FaceFb::UpperLipRaiserL.index()],
        UnifiedExpressions::MouthUpperDeepenRight => face_fb[FaceFb::UpperLipRaiserR.index()],
        UnifiedExpressions::MouthUpperDeepenLeft => face_fb[FaceFb::UpperLipRaiserL.index()],
        UnifiedExpressions::NoseSneerRight => face_fb[FaceFb::NoseWrinklerR.index()],
        UnifiedExpressions::NoseSneerLeft => face_fb[FaceFb::NoseWrinklerL.index()],
        UnifiedExpressions::MouthLowerDownRight => face_fb[FaceFb::LowerLipDepressorR.index()],
        UnifiedExpressions::MouthLowerDownLeft => face_fb[FaceFb::LowerLipDepressorL.index()],
        UnifiedExpressions::MouthUpperRight => face_fb[FaceFb::MouthRight.index()],
        UnifiedExpressions::MouthUpperLeft => face_fb[FaceFb::MouthLeft.index()],
        UnifiedExpressions::MouthLowerRight => face_fb[FaceFb::MouthRight.index()],
        UnifiedExpressions::MouthLowerLeft => face_fb[FaceFb::MouthLeft.index()],
        UnifiedExpressions::MouthCornerPullRight => face_fb[FaceFb::LipCornerPullerR.index()],
        UnifiedExpressions::MouthCornerPullLeft => face_fb[FaceFb::LipCornerPullerL.index()],
        UnifiedExpressions::MouthCornerSlantRight => face_fb[FaceFb::LipCornerPullerR.index()],
        UnifiedExpressions::MouthCornerSlantLeft => face_fb[FaceFb::LipCornerPullerL.index()],
        UnifiedExpressions::MouthFrownRight => face_fb[FaceFb::LipCornerDepressorR.index()],
        UnifiedExpressions::MouthFrownLeft => face_fb[FaceFb::LipCornerDepressorL.index()],
        UnifiedExpressions::MouthStretchRight => face_fb[FaceFb::LipStretcherR.index()],
        UnifiedExpressions::MouthStretchLeft => face_fb[FaceFb::LipStretcherL.index()],
        UnifiedExpressions::MouthDimpleRight => doubled_capped(face_fb[FaceFb::DimplerR.index()]),
        UnifiedExpressions::MouthDimpleLeft => doubled_capped(face_fb[FaceFb::DimplerL.index()]),
        UnifiedExpressions::MouthRaiserUpper => face_fb[FaceFb::ChinRaiserT.index()],
        UnifiedExpressions::MouthRaiserLower => face_fb[FaceFb::ChinRaiserB.index()],
        UnifiedExpressions::MouthPressRight => face_fb[FaceFb::LipPressorR.index()],
        UnifiedExpressions::MouthPressLeft => face_fb[FaceFb::LipPressorL.index()],
        UnifiedExpressions::MouthTightenerRight => face_fb[FaceFb::LipTightenerR.index()],
        UnifiedExpressions::MouthTightenerLeft => face_fb[FaceFb::LipTightenerL.index()],
        UnifiedExpressions::TongueOut => if face_fb.len() >= FACE2_FB_MAX {
            face_fb[Face2Fb::TongueOut.index()]
        } else {
            0
        },
        UnifiedExpressions::TongueCurlUp => if face_fb.len() >= FACE2_FB_MAX {
            face_fb[Face2Fb::TongueTipAlveolar.index()]
        } else {
            0
        },
        _ => 0,
    }
}

/// Translates the face values of the backend into unified channels. Fewer
/// values than the first generation has are no face.
pub fn face2_fb_to_unified(face_fb: &[Level], limit: LipSuckLimit) -> (r: Option<UnifiedShapes>)
    ensures
        r is Some <==> face_fb@.len() >= FACE_FB_MAX,
        r matches Some(shapes) ==> {
            &&& forall|e: UnifiedExpressions| #[trigger]
                shapes@[e.spec_index() as int] == face2_fb_value(face_fb@, limit, e)
            &&& forall|i: int| UNIFIED_COUNT <= i < NUM_SHAPES ==> shapes@[i] == 0
        },
{
    if face_fb.len() < FACE_FB_MAX {
        return None;
    }
    let mut shapes: UnifiedShapes = [0; NUM_SHAPES];
    let mut i: usize = 0;
    while i < UNIFIED_COUNT
        invariant
            i <= UNIFIED_COUNT,
            face_fb@.len() >= FACE_FB_MAX,
            forall|e: UnifiedExpressions| #[trigger]
                e.spec_index() < i ==> shapes@[e.spec_index() as int] == face2_fb_value(
                    face_fb@,
                    limit,
                    e,
                ),
            forall|j: int| UNIFIED_COUNT <= j < NUM_SHAPES ==> shapes@[j] == 0,
        decreases UNIFIED_COUNT - i,
    {
        if let Some(e) = UnifiedExpressions::from_index(i) {
            shapes[i] = face2_fb_channel(face_fb, limit, e);
            proof {
                assert forall|d: UnifiedExpressions| #[trigger]
                    d.spec_index() < i + 1 implies shapes@[d.spec_index() as int]
                    == face2_fb_value(face_fb@, limit, d) by {
                    if d.spec_index() == i {
                        UnifiedExpressions::lemma_index_injective(e, d);
                    }
                }
            }
        }
        i += 1;
    }
    Some(shapes)
}

} // verus!
