use vstd::prelude::*;
use crate::blend::{difference, half_balance, mean, sum};
use crate::expressions::{UnifiedExpressions, NUM_SHAPES, UNIFIED_COUNT};
use crate::level::Level;
use crate::unified::UnifiedShapes;

verus! {

/// Number of eye values that the runtime delivers.
pub const EYE_EXPRESSION_COUNT: usize = 14;

/// Number of lip values that the runtime delivers.
pub const LIP_EXPRESSION_COUNT: usize = 37;

/// The eye values of the runtime, in its own order.
#[derive(Clone, Copy, Debug, PartialEq, Eq, Structural)]
pub enum EyeExpressionHtc {
    LeftBlink,
    LeftWide,
    RightBlink,
    RightWide,
    LeftSqueeze,
    RightSqueeze,
    LeftDown,
    RightDown,
    LeftOut,
    RightIn,
    LeftIn,
    RightOut,
    LeftUp,
    RightUp,
}

impl EyeExpressionHtc {
    /// Position of the value in what the backend delivers.
    pub open spec fn spec_index(self) -> usize {
        match self {
            EyeExpressionHtc::LeftBlink => 0,
            EyeExpressionHtc::LeftWide => 1,
            EyeExpressionHtc::RightBlink => 2,
            EyeExpressionHtc::RightWide => 3,
            EyeExpressionHtc::LeftSqueeze => 4,
            EyeExpressionHtc::RightSqueeze => 5,
            EyeExpressionHtc::LeftDown => 6,
            EyeExpressionHtc::RightDown => 7,
            EyeExpressionHtc::LeftOut => 8,
            EyeExpressionHtc::RightIn => 9,
            EyeExpressionHtc::LeftIn => 10,
            EyeExpressionHtc::RightOut => 11,
            EyeExpressionHtc::LeftUp => 12,
            EyeExpressionHtc::RightUp => 13,
        }
    }

    /// Position of the value in what the backend delivers.
    #[verifier::when_used_as_spec(spec_index)]
    pub fn index(self) -> (i: usize)
        ensures
            i == self.spec_index(),
            i < EYE_EXPRESSION_COUNT,
    {
        match self {
            EyeExpressionHtc::LeftBlink => 0,
            EyeExpressionHtc::LeftWide => 1,
            EyeExpressionHtc::RightBlink => 2,
            EyeExpressionHtc::RightWide => 3,
            EyeExpressionHtc::LeftSqueeze => 4,
            EyeExpressionHtc::RightSqueeze => 5,
            EyeExpressionHtc::LeftDown => 6,
            EyeExpressionHtc::RightDown => 7,
            EyeExpressionHtc::LeftOut => 8,
            EyeExpressionHtc::RightIn => 9,
            EyeExpressionHtc::LeftIn => 10,
            EyeExpressionHtc::RightOut => 11,
            EyeExpressionHtc::LeftUp => 12,
            EyeExpressionHtc::RightUp => 13,
        }
    }
}

/// The lip values of the runtime, in its own order.
#[derive(Clone, Copy, Debug, PartialEq, Eq, Structural)]
pub enum LipExpressionHtc {
    JawRight,
    JawLeft,
    JawForward,
    JawOpen,
    MouthApeShape,
    MouthUpperRight,
    MouthUpperLeft,
    MouthLowerRight,
    MouthLowerLeft,
    MouthUpperOverturn,
    MouthLowerOverturn,
    MouthPout,
    MouthRaiserRight,
    MouthRaiserLeft,
    MouthStretcherRight,
    MouthStretcherLeft,
    CheekPuffRight,
    CheekPuffLeft,
    CheekSuck,
    MouthUpperUpright,
    MouthUpperUpleft,
    MouthLowerDownright,
    MouthLowerDownleft,
    MouthUpperInside,
    MouthLowerInside,
    MouthLowerOverlay,
    TongueLongstep1,
    TongueLeft,
    TongueRight,
    TongueUp,
    TongueDown,
    TongueRoll,
    TongueLongstep2,
    TongueUprightMorph,
    TongueUpleftMorph,
    TongueDownrightMorph,
    TongueDownleftMorph,
}

impl LipExpressionHtc {
    /// Position of the value in what the backend delivers.
    pub open spec fn spec_index(self) -> usize {
        match self {
            LipExpressionHtc::JawRight => 0,
            LipExpressionHtc::JawLeft => 1,
            LipExpressionHtc::JawForward => 2,
            LipExpressionHtc::JawOpen => 3,
            LipExpressionHtc::MouthApeShape => 4,
            LipExpressionHtc::MouthUpperRight => 5,
            LipExpressionHtc::MouthUpperLeft => 6,
            LipExpressionHtc::MouthLowerRight => 7,
            LipExpressionHtc::MouthLowerLeft => 8,
            LipExpressionHtc::MouthUpperOverturn => 9,
            LipExpressionHtc::MouthLowerOverturn => 10,
            LipExpressionHtc::MouthPout => 11,
            LipExpressionHtc::MouthRaiserRight => 12,
            LipExpressionHtc::MouthRaiserLeft => 13,
            LipExpressionHtc::MouthStretcherRight => 14,
            LipExpressionHtc::MouthStretcherLeft => 15,
            LipExpressionHtc::CheekPuffRight => 16,
            LipExpressionHtc::CheekPuffLeft => 17,
            LipExpressionHtc::CheekSuck => 18,
            LipExpressionHtc::MouthUpperUpright => 19,
            LipExpressionHtc::MouthUpperUpleft => 20,
            LipExpressionHtc::MouthLowerDownright => 21,
            LipExpressionHtc::MouthLowerDownleft => 22,
            LipExpressionHtc::MouthUpperInside => 23,
            LipExpressionHtc::MouthLowerInside => 24,
            LipExpressionHtc::MouthLowerOverlay => 25,
            LipExpressionHtc::TongueLongstep1 => 26,
            LipExpressionHtc::TongueLeft => 27,
            LipExpressionHtc::TongueRight => 28,
            LipExpressionHtc::TongueUp => 29,
            LipExpressionHtc::TongueDown => 30,
            LipExpressionHtc::TongueRoll => 31,
            LipExpressionHtc::TongueLongstep2 => 32,
            LipExpressionHtc::TongueUprightMorph => 33,
            LipExpressionHtc::TongueUpleftMorph => 34,
            LipExpressionHtc::TongueDownrightMorph => 35,
            LipExpressionHtc::TongueDownleftMorph => 36,
        }
    }

    /// Position of the value in what the backend delivers.
    #[verifier::when_used_as_spec(spec_index)]
    pub fn index(self) -> (i: usize)
        ensures
            i == self.spec_index(),
            i < LIP_EXPRESSION_COUNT,
    {
        match self {
            LipExpressionHtc::JawRight => 0,
            LipExpressionHtc::JawLeft => 1,
            LipExpressionHtc::JawForward => 2,
            LipExpressionHtc::JawOpen => 3,
            LipExpressionHtc::MouthApeShape => 4,
            LipExpressionHtc::MouthUpperRight => 5,
            LipExpressionHtc::MouthUpperLeft => 6,
            LipExpressionHtc::MouthLowerRight => 7,
            LipExpressionHtc::MouthLowerLeft => 8,
            LipExpressionHtc::MouthUpperOverturn => 9,
            LipExpressionHtc::MouthLowerOverturn => 10,
            LipExpressionHtc::MouthPout => 11,
            LipExpressionHtc::MouthRaiserRight => 12,
            LipExpressionHtc::MouthRaiserLeft => 13,
            LipExpressionHtc::MouthStretcherRight => 14,
            LipExpressionHtc::MouthStretcherLeft => 15,
            LipExpressionHtc::CheekPuffRight => 16,
            LipExpressionHtc::CheekPuffLeft => 17,
            LipExpressionHtc::CheekSuck => 18,
            LipExpressionHtc::MouthUpperUpright => 19,
            LipExpressionHtc::MouthUpperUpleft => 20,
            LipExpressionHtc::MouthLowerDownright => 21,
            LipExpressionHtc::MouthLowerDownleft => 22,
            LipExpressionHtc::MouthUpperInside => 23,
            LipExpressionHtc::MouthLowerInside => 24,
            LipExpressionHtc::MouthLowerOverlay => 25,
            LipExpressionHtc::TongueLongstep1 => 26,
            LipExpressionHtc::TongueLeft => 27,
            LipExpressionHtc::TongueRight => 28,
            LipExpressionHtc::TongueUp => 29,
            LipExpressionHtc::TongueDown => 30,
            LipExpressionHtc::TongueRoll => 31,
            LipExpressionHtc::TongueLongstep2 => 32,
            LipExpressionHtc::TongueUprightMorph => 33,
            LipExpressionHtc::TongueUpleftMorph => 34,
            LipExpressionHtc::TongueDownrightMorph => 35,
            LipExpressionHtc::TongueDownleftMorph => 36,
        }
    }
}

/// One reading of the runtime: eye values, lip values, or both.
#[derive(Clone, Copy, Debug, PartialEq, Eq)]
pub struct HtcFacialData {
    pub eye: Option<[Level; EYE_EXPRESSION_COUNT]>,
    pub lip: Option<[Level; LIP_EXPRESSION_COUNT]>,
}

impl HtcFacialData {
    /// One eye value; zero where the reading holds no eye values.
    pub open spec fn spec_eyef(&self, idx: EyeExpressionHtc) -> Level {
        match self.eye {
            Some(arr) => arr@[idx.spec_index() as int],
            None => 0,
        }
    }

    /// One eye value; zero where the reading holds no eye values.
    #[verifier::when_used_as_spec(spec_eyef)]
    pub fn eyef(&self, idx: EyeExpressionHtc) -> (r: Level)
        ensures
            r == self.spec_eyef(idx),
    {
        match &self.eye {
            Some(arr) => arr[idx.index()],
            None => 0,
        }
    }

    /// One lip value; zero where the reading holds no lip values.
    pub open spec fn spec_lipf(&self, idx: LipExpressionHtc) -> Level {
        match self.lip {
            Some(arr) => arr@[idx.spec_index() as int],
            None => 0,
        }
    }

    /// One lip value; zero where the reading holds no lip values.
    #[verifier::when_used_as_spec(spec_lipf)]
    pub fn lipf(&self, idx: LipExpressionHtc) -> (r: Level)
        ensures
            r == self.spec_lipf(idx),
    {
        match &self.lip {
            Some(arr) => arr[idx.index()],
            None => 0,
        }
    }
}

/// The value that the unified channel `e` takes from the reading `d`. A
/// channel that the runtime knows nothing of is at rest.
pub open spec fn htc_value(d: &HtcFacialData, e: UnifiedExpressions) -> Level {
    match e {
        UnifiedExpressions::EyeLeftX => difference(d.eyef(EyeExpressionHtc::LeftIn), d.eyef(EyeExpressionHtc::LeftOut)),
        UnifiedExpressions::EyeRightX => difference(d.eyef(EyeExpressionHtc::RightOut), d.eyef(EyeExpressionHtc::RightIn)),
        UnifiedExpressions::EyeY => half_balance(
            d.eyef(EyeExpressionHtc::LeftUp),
            d.eyef(EyeExpressionHtc::RightUp),
            d.eyef(EyeExpressionHtc::LeftDown),
            d.eyef(EyeExpressionHtc::RightDown),
        ),
        UnifiedExpressions::EyeClosedRight => d.eyef(EyeExpressionHtc::RightBlink),
        UnifiedExpressions::EyeClosedLeft => d.eyef(EyeExpressionHtc::LeftBlink),
        UnifiedExpressions::EyeSquintRight => d.eyef(EyeExpressionHtc::RightSqueeze),
        UnifiedExpressions::EyeSquintLeft => d.eyef(EyeExpressionHtc::LeftSqueeze),
        UnifiedExpressions::EyeWideRight => d.eyef(EyeExpressionHtc::RightWide),
        UnifiedExpressions::EyeWideLeft => d.eyef(EyeExpressionHtc::LeftWide),
        UnifiedExpressions::BrowPinchRight => d.eyef(EyeExpressionHtc::RightSqueeze),
        UnifiedExpressions::BrowPinchLeft => d.eyef(EyeExpressionHtc::LeftSqueeze),
        UnifiedExpressions::BrowLowererRight => d.eyef(EyeExpressionHtc::RightBlink),
        UnifiedExpressions::BrowLowererLeft => d.eyef(EyeExpressionHtc::LeftBlink),
        UnifiedExpressions::CheekPuffRight => d.lipf(LipExpressionHtc::CheekPuffRight),
        UnifiedExpressions::CheekPuffLeft => d.lipf(LipExpressionHtc::CheekPuffLeft),
        UnifiedExpressions::CheekSuckRight => d.lipf(LipExpressionHtc::CheekSuck),
        UnifiedExpressions::CheekSuckLeft => d.lipf(LipExpressionHtc::CheekSuck),
        UnifiedExpressions::JawOpen => d.lipf(LipExpressionHtc::JawOpen),
        UnifiedExpressions::JawRight => d.lipf(LipExpressionHtc::JawRight),
        UnifiedExpressions::JawLeft => d.lipf(LipExpressionHtc::JawLeft),
        UnifiedExpressions::JawForward => d.lipf(LipExpressionHtc::JawForward),
        UnifiedExpressions::MouthClosed => d.lipf(LipExpressionHtc::MouthApeShape),
        UnifiedExpressions::LipSuckUpperRight => d.lipf(LipExpressionHtc::MouthUpperInside),
        UnifiedExpressions::LipSuckUpperLeft => d.lipf(LipExpressionHtc::MouthUpperInside),
        UnifiedExpressions::LipSuckLowerRight => d.lipf(LipExpressionHtc::MouthLowerInside),
        UnifiedExpressions::LipSuckLowerLeft => d.lipf(LipExpressionHtc::MouthLowerInside),
        UnifiedExpressions::LipFunnelUpperRight => d.lipf(LipExpressionHtc::MouthLowerOverturn),
        UnifiedExpressions::LipFunnelUpperLeft => d.lipf(LipExpressionHtc::MouthLowerOverturn),
        UnifiedExpressions::LipFunnelLowerRight => d.lipf(LipExpressionHtc::MouthLowerOverturn),
        UnifiedExpressions::LipFunnelLowerLeft => d.lipf(LipExpressionHtc::MouthLowerOverturn),
        UnifiedExpressions::LipPuckerUpperRight => d.lipf(LipExpressionHtc::MouthPout),
        UnifiedExpressions::LipPuckerUpperLeft => d.lipf(LipExpressionHtc::MouthPout),
        UnifiedExpressions::LipPuckerLowerRight => d.lipf(LipExpressionHtc::MouthPout),
        UnifiedExpressions::LipPuckerLowerLeft => d.lipf(LipExpressionHtc::MouthPout),
        UnifiedExpressions::MouthUpperUpRight => d.lipf(LipExpressionHtc::MouthUpperUpright),
        UnifiedExpressions::MouthUpperUpLeft => d.lipf(LipExpressionHtc::MouthUpperUpleft),
        UnifiedExpressions::MouthUpperDeepenRight => d.lipf(LipExpressionHtc::MouthUpperUpright),
        UnifiedExpressions::MouthUpperDeepenLeft => d.lipf(LipExpressionHtc::MouthUpperUpleft),
        UnifiedExpressions::MouthLowerDownRight => d.lipf(LipExpressionHtc::MouthLowerDownright),
        UnifiedExpressions::MouthLowerDownLeft => d.lipf(LipExpressionHtc::MouthLowerDownleft),
        UnifiedExpressions::MouthUpperRight => d.lipf(LipExpressionHtc::MouthUpperRight),
        UnifiedExpressions::MouthUpperLeft => d.lipf(LipExpressionHtc::MouthUpperLeft),
        UnifiedExpressions::MouthLowerRight => d.lipf(LipExpressionHtc::MouthLowerRight),
        UnifiedExpressions::MouthLowerLeft => d.lipf(LipExpressionHtc::MouthLowerLeft),
        UnifiedExpressions::MouthCornerPullRight => d.lipf(LipExpressionHtc::MouthRaiserRight),
        UnifiedExpressions::MouthCornerPullLeft => d.lipf(LipExpressionHtc::MouthRaiserRight),
        UnifiedExpressions::MouthCornerSlantRight => d.lipf(LipExpressionHtc::MouthRaiserRight),
        UnifiedExpressions::MouthCornerSlantLeft => d.lipf(LipExpressionHtc::MouthRaiserRight),
        UnifiedExpressions::MouthFrownRight => d.lipf(LipExpressionHtc::MouthStretcherRight),
        UnifiedExpressions::MouthFrownLeft => d.lipf(LipExpressionHtc::MouthStretcherLeft),
        UnifiedExpressions::MouthStretchRight => d.lipf(LipExpressionHtc::MouthStretcherRight),
        UnifiedExpressions::MouthStretchLeft => d.lipf(LipExpressionHtc::MouthStretcherLeft),
        UnifiedExpressions::MouthPressRight => mean(
            d.lipf(LipExpressionHtc::MouthUpperInside),
            d.lipf(LipExpressionHtc::MouthLowerInside),
        ),
        UnifiedExpressions::MouthPressLeft => mean(
            d.lipf(LipExpressionHtc::MouthUpperInside),
            d.lipf(LipExpressionHtc::MouthLowerInside),
        ),
        UnifiedExpressions::TongueOut => mean(
            d.lipf(LipExpressionHtc::TongueLongstep1),
            d.lipf(LipExpressionHtc::TongueLongstep2),
        ),
        UnifiedExpressions::TongueUp => d.lipf(LipExpressionHtc::TongueUp),
        UnifiedExpressions::TongueDown => d.lipf(LipExpressionHtc::TongueDown),
        UnifiedExpressions::TongueRight => d.lipf(LipExpressionHtc::TongueRight),
        UnifiedExpressions::TongueLeft => d.lipf(LipExpressionHtc::TongueLeft),
        UnifiedExpressions::TongueRoll => d.lipf(LipExpressionHtc::TongueRoll),
        UnifiedExpressions::TongueTwistRight => sum(
            d.lipf(LipExpressionHtc::TongueUprightMorph),
            d.lipf(LipExpressionHtc::TongueDownleftMorph),
        ),
        UnifiedExpressions::TongueTwistLeft => sum(
            d.lipf(LipExpressionHtc::TongueUpleftMorph),
            d.lipf(LipExpressionHtc::TongueDownrightMorph),
        ),
        _ => 0,
    }
}

/// Computes the value that the unified channel `e` takes from the reading.
pub fn htc_channel(d: &HtcFacialData, e: UnifiedExpressions) -> (r: Level)
    ensures
        r == htc_value(d, e),
{
    match e {
        UnifiedExpressions::EyeLeftX => difference(d.eyef(EyeExpressionHtc::LeftIn), d.eyef(EyeExpressionHtc::LeftOut)),
        UnifiedExpressions::EyeRightX => difference(d.eyef(EyeExpressionHtc::RightOut), d.eyef(EyeExpressionHtc::RightIn)),
        UnifiedExpressions::EyeY => half_balance(
            d.eyef(EyeExpressionHtc::LeftUp),
            d.eyef(EyeExpressionHtc::RightUp),
            d.eyef(EyeExpressionHtc::LeftDown),
            d.eyef(EyeExpressionHtc::RightDown),
        ),
        UnifiedExpressions::EyeClosedRight => d.eyef(EyeExpressionHtc::RightBlink),
        UnifiedExpressions::EyeClosedLeft => d.eyef(EyeExpressionHtc::LeftBlink),
        UnifiedExpressions::EyeSquintRight => d.eyef(EyeExpressionHtc::RightSqueeze),
        UnifiedExpressions::EyeSquintLeft => d.eyef(EyeExpressionHtc::LeftSqueeze),
        UnifiedExpressions::EyeWideRight => d.eyef(EyeExpressionHtc::RightWide),
        UnifiedExpressions::EyeWideLeft => d.eyef(EyeExpressionHtc::LeftWide),
        UnifiedExpressions::BrowPinchRight => d.eyef(EyeExpressionHtc::RightSqueeze),
        UnifiedExpressions::BrowPinchLeft => d.eyef(EyeExpressionHtc::LeftSqueeze),
        UnifiedExpressions::BrowLowererRight => d.eyef(EyeExpressionHtc::RightBlink),
        UnifiedExpressions::BrowLowererLeft => d.eyef(EyeExpressionHtc::LeftBlink),
        UnifiedExpressions::CheekPuffRight => d.lipf(LipExpressionHtc::CheekPuffRight),
        UnifiedExpressions::CheekPuffLeft => d.lipf(LipExpressionHtc::CheekPuffLeft),
        UnifiedExpressions::CheekSuckRight => d.lipf(LipExpressionHtc::CheekSuck),
        UnifiedExpressions::CheekSuckLeft => d.lipf(LipExpressionHtc::CheekSuck),
        UnifiedExpressions::JawOpen => d.lipf(LipExpressionHtc::JawOpen),
        UnifiedExpressions::JawRight => d.lipf(LipExpressionHtc::JawRight),
        UnifiedExpressions::JawLeft => d.lipf(LipExpressionHtc::JawLeft),
        UnifiedExpressions::JawForward => d.lipf(LipExpressionHtc::JawForward),
        UnifiedExpressions::MouthClosed => d.lipf(LipExpressionHtc::MouthApeShape),
        UnifiedExpressions::LipSuckUpperRight => d.lipf(LipExpressionHtc::MouthUpperInside),
        UnifiedExpressions::LipSuckUpperLeft => d.lipf(LipExpressionHtc::MouthUpperInside),
        UnifiedExpressions::LipSuckLowerRight => d.lipf(LipExpressionHtc::MouthLowerInside),
        UnifiedExpressions::LipSuckLowerLeft => d.lipf(LipExpressionHtc::MouthLowerInside),
        UnifiedExpressions::LipFunnelUpperRight => d.lipf(LipExpressionHtc::MouthLowerOverturn),
        UnifiedExpressions::LipFunnelUpperLeft => d.lipf(LipExpressionHtc::MouthLowerOverturn),
        UnifiedExpressions::LipFunnelLowerRight => d.lipf(LipExpressionHtc::MouthLowerOverturn),
        UnifiedExpressions::LipFunnelLowerLeft => d.lipf(LipExpressionHtc::MouthLowerOverturn),
        UnifiedExpressions::LipPuckerUpperRight => d.lipf(LipExpressionHtc::MouthPout),
        UnifiedExpressions::LipPuckerUpperLeft => d.lipf(LipExpressionHtc::MouthPout),
        UnifiedExpressions::LipPuckerLowerRight => d.lipf(LipExpressionHtc::MouthPout),
        UnifiedExpressions::LipPuckerLowerLeft => d.lipf(LipExpressionHtc::MouthPout),
        UnifiedExpressions::MouthUpperUpRight => d.lipf(LipExpressionHtc::MouthUpperUpright),
        UnifiedExpressions::MouthUpperUpLeft => d.lipf(LipExpressionHtc::MouthUpperUpleft),
        UnifiedExpressions::MouthUpperDeepenRight => d.lipf(LipExpressionHtc::MouthUpperUpright),
        UnifiedExpressions::MouthUpperDeepenLeft => d.lipf(LipExpressionHtc::MouthUpperUpleft),
        UnifiedExpressions::MouthLowerDownRight => d.lipf(LipExpressionHtc::MouthLowerDownright),
        UnifiedExpressions::MouthLowerDownLeft => d.lipf(LipExpressionHtc::MouthLowerDownleft),
        UnifiedExpressions::MouthUpperRight => d.lipf(LipExpressionHtc::MouthUpperRight),
        UnifiedExpressions::MouthUpperLeft => d.lipf(LipExpressionHtc::MouthUpperLeft),
        UnifiedExpressions::MouthLowerRight => d.lipf(LipExpressionHtc::MouthLowerRight),
        UnifiedExpressions::MouthLowerLeft => d.lipf(LipExpressionHtc::MouthLowerLeft),
        UnifiedExpressions::MouthCornerPullRight => d.lipf(LipExpressionHtc::MouthRaiserRight),
        UnifiedExpressions::MouthCornerPullLeft => d.lipf(LipExpressionHtc::MouthRaiserRight),
        UnifiedExpressions::MouthCornerSlantRight => d.lipf(LipExpressionHtc::MouthRaiserRight),
        UnifiedExpressions::MouthCornerSlantLeft => d.lipf(LipExpressionHtc::MouthRaiserRight),
        UnifiedExpressions::MouthFrownRight => d.lipf(LipExpressionHtc::MouthStretcherRight),
        UnifiedExpressions::MouthFrownLeft => d.lipf(LipExpressionHtc::MouthStretcherLeft),
        UnifiedExpressions::MouthStretchRight => d.lipf(LipExpressionHtc::MouthStretcherRight),
        UnifiedExpressions::MouthStretchLeft => d.lipf(LipExpressionHtc::MouthStretcherLeft),
        UnifiedExpressions::MouthPressRight => mean(
            d.lipf(LipExpressionHtc::MouthUpperInside),
            d.lipf(LipExpressionHtc::MouthLowerInside),
        ),
        UnifiedExpressions::MouthPressLeft => mean(
            d.lipf(LipExpressionHtc::MouthUpperInside),
            d.lipf(LipExpressionHtc::MouthLowerInside),
        ),
        UnifiedExpressions::TongueOut => mean(
            d.lipf(LipExpressionHtc::TongueLongstep1),
            d.lipf(LipExpressionHtc::TongueLongstep2),
        ),
        UnifiedExpressions::TongueUp => d.lipf(LipExpressionHtc::TongueUp),
        UnifiedExpressions::TongueDown => d.lipf(LipExpressionHtc::TongueDown),
        UnifiedExpressions::TongueRight => d.lipf(LipExpressionHtc::TongueRight),
        UnifiedExpressions::TongueLeft => d.lipf(LipExpressionHtc::TongueLeft),
        UnifiedExpressions::TongueRoll => d.lipf(LipExpressionHtc::TongueRoll),
        UnifiedExpressions::TongueTwistRight => sum(
            d.lipf(LipExpressionHtc::TongueUprightMorph),
            d.lipf(LipExpressionHtc::TongueDownleftMorph),
        ),
        UnifiedExpressions::TongueTwistLeft => sum(
            d.lipf(LipExpressionHtc::TongueUpleftMorph),
            d.lipf(LipExpressionHtc::TongueDownrightMorph),
        ),
        _ => 0,
    }
}

/// Translates a reading of the runtime into unified channels.
pub fn htc_to_unified(d: &HtcFacialData) -> (shapes: UnifiedShapes)
    ensures
        forall|e: UnifiedExpressions| #[trigger]
            shapes@[e.spec_index() as int] == htc_value(d, e),
        forall|i: int| UNIFIED_COUNT <= i < NUM_SHAPES ==> shapes@[i] == 0,
{
    let mut shapes: UnifiedShapes = [0; NUM_SHAPES];
    let mut i: usize = 0;
    while i < UNIFIED_COUNT
        invariant
            i <= UNIFIED_COUNT,
            forall|e: UnifiedExpressions| #[trigger]
                e.spec_index() < i ==> shapes@[e.spec_index() as int] == htc_value(d, e),
            forall|j: int| UNIFIED_COUNT <= j < NUM_SHAPES ==> shapes@[j] == 0,
        decreases UNIFIED_COUNT - i,
    {
        if let Some(e) = UnifiedExpressions::from_index(i) {
            shapes[i] = htc_channel(d, e);
            proof {
                assert forall|x: UnifiedExpressions| #[trigger]
                    x.spec_index() < i + 1 implies shapes@[x.spec_index() as int] == htc_value(
                    d,
                    x,
                ) by {
                    if x.spec_index() == i {
                        UnifiedExpressions::lemma_index_injective(e, x);
                    }
                }
            }
        }
        i += 1;
    }
    shapes
}

} // verus!
