use vstd::prelude::*;
use crate::expressions::{CombinedExpression, UnifiedExpressions};
use crate::text::str_eq;

verus! {

impl UnifiedExpressions {
    /// The name under which the channel is known.
    pub open spec fn spec_name(self) -> Seq<char> {
        match self {
            UnifiedExpressions::EyeLeftX => "EyeLeftX"@,
            UnifiedExpressions::EyeRightX => "EyeRightX"@,
            UnifiedExpressions::EyeY => "EyeY"@,
            UnifiedExpressions::EyeClosedRight => "EyeClosedRight"@,
            UnifiedExpressions::EyeClosedLeft => "EyeClosedLeft"@,
            UnifiedExpressions::EyeSquintRight => "EyeSquintRight"@,
            UnifiedExpressions::EyeSquintLeft => "EyeSquintLeft"@,
            UnifiedExpressions::EyeWideRight => "EyeWideRight"@,
            UnifiedExpressions::EyeWideLeft => "EyeWideLeft"@,
            UnifiedExpressions::BrowPinchRight => "BrowPinchRight"@,
            UnifiedExpressions::BrowPinchLeft => "BrowPinchLeft"@,
            UnifiedExpressions::BrowLowererRight => "BrowLowererRight"@,
            UnifiedExpressions::BrowLowererLeft => "BrowLowererLeft"@,
            UnifiedExpressions::BrowInnerUpRight => "BrowInnerUpRight"@,
            UnifiedExpressions::BrowInnerUpLeft => "BrowInnerUpLeft"@,
            UnifiedExpressions::BrowOuterUpRight => "BrowOuterUpRight"@,
            UnifiedExpressions::BrowOuterUpLeft => "BrowOuterUpLeft"@,
            UnifiedExpressions::NasalDilationRight => "NasalDilationRight"@,
            UnifiedExpressions::NasalDilationLeft => "NasalDilationLeft"@,
            UnifiedExpressions::NasalConstrictRight => "NasalConstrictRight"@,
            UnifiedExpressions::NasalConstrictLeft => "NasalConstrictLeft"@,
            UnifiedExpressions::CheekSquintRight => "CheekSquintRight"@,
            UnifiedExpressions::CheekSquintLeft => "CheekSquintLeft"@,
            UnifiedExpressions::CheekPuffRight => "CheekPuffRight"@,
            UnifiedExpressions::CheekPuffLeft => "CheekPuffLeft"@,
            UnifiedExpressions::CheekSuckRight => "CheekSuckRight"@,
            UnifiedExpressions::CheekSuckLeft => "CheekSuckLeft"@,
            UnifiedExpressions::JawOpen => "JawOpen"@,
            UnifiedExpressions::JawRight => "JawRight"@,
            UnifiedExpressions::JawLeft => "JawLeft"@,
            UnifiedExpressions::JawForward => "JawForward"@,
            UnifiedExpressions::JawBackward => "JawBackward"@,
            UnifiedExpressions::JawClench => "JawClench"@,
            UnifiedExpressions::JawMandibleRaise => "JawMandibleRaise"@,
            UnifiedExpressions::MouthClosed => "MouthClosed"@,
            UnifiedExpressions::LipSuckUpperRight => "LipSuckUpperRight"@,
            UnifiedExpressions::LipSuckUpperLeft => "LipSuckUpperLeft"@,
            UnifiedExpressions::LipSuckLowerRight => "LipSuckLowerRight"@,
            UnifiedExpressions::LipSuckLowerLeft => "LipSuckLowerLeft"@,
            UnifiedExpressions::LipSuckCornerRight => "LipSuckCornerRight"@,
            UnifiedExpressions::LipSuckCornerLeft => "LipSuckCornerLeft"@,
            UnifiedExpressions::LipFunnelUpperRight => "LipFunnelUpperRight"@,
            UnifiedExpressions::LipFunnelUpperLeft => "LipFunnelUpperLeft"@,
            UnifiedExpressions::LipFunnelLowerRight => "LipFunnelLowerRight"@,
            UnifiedExpressions::LipFunnelLowerLeft => "LipFunnelLowerLeft"@,
            UnifiedExpressions::LipPuckerUpperRight => "LipPuckerUpperRight"@,
            UnifiedExpressions::LipPuckerUpperLeft => "LipPuckerUpperLeft"@,
            UnifiedExpressions::LipPuckerLowerRight => "LipPuckerLowerRight"@,
            UnifiedExpressions::LipPuckerLowerLeft => "LipPuckerLowerLeft"@,
            UnifiedExpressions::MouthUpperUpRight => "MouthUpperUpRight"@,
            UnifiedExpressions::MouthUpperUpLeft => "MouthUpperUpLeft"@,
            UnifiedExpressions::MouthUpperDeepenRight => "MouthUpperDeepenRight"@,
            UnifiedExpressions::MouthUpperDeepenLeft => "MouthUpperDeepenLeft"@,
            UnifiedExpressions::NoseSneerRight => "NoseSneerRight"@,
            UnifiedExpressions::NoseSneerLeft => "NoseSneerLeft"@,
            UnifiedExpressions::MouthLowerDownRight => "MouthLowerDownRight"@,
            UnifiedExpressions::MouthLowerDownLeft => "MouthLowerDownLeft"@,
            UnifiedExpressions::MouthUpperRight => "MouthUpperRight"@,
            UnifiedExpressions::MouthUpperLeft => "MouthUpperLeft"@,
            UnifiedExpressions::MouthLowerRight => "MouthLowerRight"@,
            UnifiedExpressions::MouthLowerLeft => "MouthLowerLeft"@,
            UnifiedExpressions::MouthCornerPullRight => "MouthCornerPullRight"@,
            UnifiedExpressions::MouthCornerPullLeft => "MouthCornerPullLeft"@,
            UnifiedExpressions::MouthCornerSlantRight => "MouthCornerSlantRight"@,
            UnifiedExpressions::MouthCornerSlantLeft => "MouthCornerSlantLeft"@,
            UnifiedExpressions::MouthFrownRight => "MouthFrownRight"@,
            UnifiedExpressions::MouthFrownLeft => "MouthFrownLeft"@,
            UnifiedExpressions::MouthStretchRight => "MouthStretchRight"@,
            UnifiedExpressions::MouthStretchLeft => "MouthStretchLeft"@,
            UnifiedExpressions::MouthDimpleRight => "MouthDimpleRight"@,
            UnifiedExpressions::MouthDimpleLeft => "MouthDimpleLeft"@,
            UnifiedExpressions::MouthRaiserUpper => "MouthRaiserUpper"@,
            UnifiedExpressions::MouthRaiserLower => "MouthRaiserLower"@,
            UnifiedExpressions::MouthPressRight => "MouthPressRight"@,
            UnifiedExpressions::MouthPressLeft => "MouthPressLeft"@,
            UnifiedExpressions::MouthTightenerRight => "MouthTightenerRight"@,
            UnifiedExpressions::MouthTightenerLeft => "MouthTightenerLeft"@,
            UnifiedExpressions::TongueOut => "TongueOut"@,
            UnifiedExpressions::TongueUp => "TongueUp"@,
            UnifiedExpressions::TongueDown => "TongueDown"@,
            UnifiedExpressions::TongueRight => "TongueRight"@,
            UnifiedExpressions::TongueLeft => "TongueLeft"@,
            UnifiedExpressions::TongueRoll => "TongueRoll"@,
            UnifiedExpressions::TongueBendDown => "TongueBendDown"@,
            UnifiedExpressions::TongueCurlUp => "TongueCurlUp"@,
            UnifiedExpressions::TongueSquish => "TongueSquish"@,
            UnifiedExpressions::TongueFlat => "TongueFlat"@,
            UnifiedExpressions::TongueTwistRight => "TongueTwistRight"@,
            UnifiedExpressions::TongueTwistLeft => "TongueTwistLeft"@,
        }
    }

    /// The name under which the channel is known.
    pub fn name(self) -> (s: &'static str)
        ensures
            s@ == self.spec_name(),
    {
        match self {
            UnifiedExpressions::EyeLeftX => "EyeLeftX",
            UnifiedExpressions::EyeRightX => "EyeRightX",
            UnifiedExpressions::EyeY => "EyeY",
            UnifiedExpressions::EyeClosedRight => "EyeClosedRight",
            UnifiedExpressions::EyeClosedLeft => "EyeClosedLeft",
            UnifiedExpressions::EyeSquintRight => "EyeSquintRight",
            UnifiedExpressions::EyeSquintLeft => "EyeSquintLeft",
            UnifiedExpressions::EyeWideRight => "EyeWideRight",
            UnifiedExpressions::EyeWideLeft => "EyeWideLeft",
            UnifiedExpressions::BrowPinchRight => "BrowPinchRight",
            UnifiedExpressions::BrowPinchLeft => "BrowPinchLeft",
            UnifiedExpressions::BrowLowererRight => "BrowLowererRight",
            UnifiedExpressions::BrowLowererLeft => "BrowLowererLeft",
            UnifiedExpressions::BrowInnerUpRight => "BrowInnerUpRight",
            UnifiedExpressions::BrowInnerUpLeft => "BrowInnerUpLeft",
            UnifiedExpressions::BrowOuterUpRight => "BrowOuterUpRight",
            UnifiedExpressions::BrowOuterUpLeft => "BrowOuterUpLeft",
            UnifiedExpressions::NasalDilationRight => "NasalDilationRight",
            UnifiedExpressions::NasalDilationLeft => "NasalDilationLeft",
            UnifiedExpressions::NasalConstrictRight => "NasalConstrictRight",
            UnifiedExpressions::NasalConstrictLeft => "NasalConstrictLeft",
            UnifiedExpressions::CheekSquintRight => "CheekSquintRight",
            UnifiedExpressions::CheekSquintLeft => "CheekSquintLeft",
            UnifiedExpressions::CheekPuffRight => "CheekPuffRight",
            UnifiedExpressions::CheekPuffLeft => "CheekPuffLeft",
            UnifiedExpressions::CheekSuckRight => "CheekSuckRight",
            UnifiedExpressions::CheekSuckLeft => "CheekSuckLeft",
            UnifiedExpressions::JawOpen => "JawOpen",
            UnifiedExpressions::JawRight => "JawRight",
            UnifiedExpressions::JawLeft => "JawLeft",
            UnifiedExpressions::JawForward => "JawForward",
            UnifiedExpressions::JawBackward => "JawBackward",
            UnifiedExpressions::JawClench => "JawClench",
            UnifiedExpressions::JawMandibleRaise => "JawMandibleRaise",
            UnifiedExpressions::MouthClosed => "MouthClosed",
            UnifiedExpressions::LipSuckUpperRight => "LipSuckUpperRight",
            UnifiedExpressions::LipSuckUpperLeft => "LipSuckUpperLeft",
            UnifiedExpressions::LipSuckLowerRight => "LipSuckLowerRight",
            UnifiedExpressions::LipSuckLowerLeft => "LipSuckLowerLeft",
            UnifiedExpressions::LipSuckCornerRight => "LipSuckCornerRight",
            UnifiedExpressions::LipSuckCornerLeft => "LipSuckCornerLeft",
            UnifiedExpressions::LipFunnelUpperRight => "LipFunnelUpperRight",
            UnifiedExpressions::LipFunnelUpperLeft => "LipFunnelUpperLeft",
            UnifiedExpressions::LipFunnelLowerRight => "LipFunnelLowerRight",
            UnifiedExpressions::LipFunnelLowerLeft => "LipFunnelLowerLeft",
            UnifiedExpressions::LipPuckerUpperRight => "LipPuckerUpperRight",
            UnifiedExpressions::LipPuckerUpperLeft => "LipPuckerUpperLeft",
            UnifiedExpressions::LipPuckerLowerRight => "LipPuckerLowerRight",
            UnifiedExpressions::LipPuckerLowerLeft => "LipPuckerLowerLeft",
            UnifiedExpressions::MouthUpperUpRight => "MouthUpperUpRight",
            UnifiedExpressions::MouthUpperUpLeft => "MouthUpperUpLeft",
            UnifiedExpressions::MouthUpperDeepenRight => "MouthUpperDeepenRight",
            UnifiedExpressions::MouthUpperDeepenLeft => "MouthUpperDeepenLeft",
            UnifiedExpressions::NoseSneerRight => "NoseSneerRight",
            UnifiedExpressions::NoseSneerLeft => "NoseSneerLeft",
            UnifiedExpressions::MouthLowerDownRight => "MouthLowerDownRight",
            UnifiedExpressions::MouthLowerDownLeft => "MouthLowerDownLeft",
            UnifiedExpressions::MouthUpperRight => "MouthUpperRight",
            UnifiedExpressions::MouthUpperLeft => "MouthUpperLeft",
            UnifiedExpressions::MouthLowerRight => "MouthLowerRight",
            UnifiedExpressions::MouthLowerLeft => "MouthLowerLeft",
            UnifiedExpressions::MouthCornerPullRight => "MouthCornerPullRight",
            UnifiedExpressions::MouthCornerPullLeft => "MouthCornerPullLeft",
            UnifiedExpressions::MouthCornerSlantRight => "MouthCornerSlantRight",
            UnifiedExpressions::MouthCornerSlantLeft => "MouthCornerSlantLeft",
            UnifiedExpressions::MouthFrownRight => "MouthFrownRight",
            UnifiedExpressions::MouthFrownLeft => "MouthFrownLeft",
            UnifiedExpressions::MouthStretchRight => "MouthStretchRight",
            UnifiedExpressions::MouthStretchLeft => "MouthStretchLeft",
            UnifiedExpressions::MouthDimpleRight => "MouthDimpleRight",
            UnifiedExpressions::MouthDimpleLeft => "MouthDimpleLeft",
            UnifiedExpressions::MouthRaiserUpper => "MouthRaiserUpper",
            UnifiedExpressions::MouthRaiserLower => "MouthRaiserLower",
            UnifiedExpressions::MouthPressRight => "MouthPressRight",
            UnifiedExpressions::MouthPressLeft => "MouthPressLeft",
            UnifiedExpressions::MouthTightenerRight => "MouthTightenerRight",
            UnifiedExpressions::MouthTightenerLeft => "MouthTightenerLeft",
            UnifiedExpressions::TongueOut => "TongueOut",
            UnifiedExpressions::TongueUp => "TongueUp",
            UnifiedExpressions::TongueDown => "TongueDown",
            UnifiedExpressions::TongueRight => "TongueRight",
            UnifiedExpressions::TongueLeft => "TongueLeft",
            UnifiedExpressions::TongueRoll => "TongueRoll",
            UnifiedExpressions::TongueBendDown => "TongueBendDown",
            UnifiedExpressions::TongueCurlUp => "TongueCurlUp",
            UnifiedExpressions::TongueSquish => "TongueSquish",
            UnifiedExpressions::TongueFlat => "TongueFlat",
            UnifiedExpressions::TongueTwistRight => "TongueTwistRight",
            UnifiedExpressions::TongueTwistLeft => "TongueTwistLeft",
        }
    }

    /// The channel whose name is exactly `s`: the first one in the order
    /// of declaration, if there is any.
    pub open spec fn spec_from_name(s: Seq<char>) -> Option<Self> {
        if s == "EyeLeftX"@ {
            Some(UnifiedExpressions::EyeLeftX)
        } else if s == "EyeRightX"@ {
            Some(UnifiedExpressions::EyeRightX)
        } else if s == "EyeY"@ {
            Some(UnifiedExpressions::EyeY)
        } else if s == "EyeClosedRight"@ {
            Some(UnifiedExpressions::EyeClosedRight)
        } else if s == "EyeClosedLeft"@ {
            Some(UnifiedExpressions::EyeClosedLeft)
        } else if s == "EyeSquintRight"@ {
            Some(UnifiedExpressions::EyeSquintRight)
        } else if s == "EyeSquintLeft"@ {
            Some(UnifiedExpressions::EyeSquintLeft)
        } else if s == "EyeWideRight"@ {
            Some(UnifiedExpressions::EyeWideRight)
        } else if s == "EyeWideLeft"@ {
            Some(UnifiedExpressions::EyeWideLeft)
        } else if s == "BrowPinchRight"@ {
            Some(UnifiedExpressions::BrowPinchRight)
        } else if s == "BrowPinchLeft"@ {
            Some(UnifiedExpressions::BrowPinchLeft)
        } else if s == "BrowLowererRight"@ {
            Some(UnifiedExpressions::BrowLowererRight)
        } else if s == "BrowLowererLeft"@ {
            Some(UnifiedExpressions::BrowLowererLeft)
        } else if s == "BrowInnerUpRight"@ {
            Some(UnifiedExpressions::BrowInnerUpRight)
        } else if s == "BrowInnerUpLeft"@ {
            Some(UnifiedExpressions::BrowInnerUpLeft)
        } else if s == "BrowOuterUpRight"@ {
            Some(UnifiedExpressions::BrowOuterUpRight)
        } else if s == "BrowOuterUpLeft"@ {
            Some(UnifiedExpressions::BrowOuterUpLeft)
        } else if s == "NasalDilationRight"@ {
            Some(UnifiedExpressions::NasalDilationRight)
        } else if s == "NasalDilationLeft"@ {
            Some(UnifiedExpressions::NasalDilationLeft)
        } else if s == "NasalConstrictRight"@ {
            Some(UnifiedExpressions::NasalConstrictRight)
        } else if s == "NasalConstrictLeft"@ {
            Some(UnifiedExpressions::NasalConstrictLeft)
        } else if s == "CheekSquintRight"@ {
            Some(UnifiedExpressions::CheekSquintRight)
        } else if s == "CheekSquintLeft"@ {
            Some(UnifiedExpressions::CheekSquintLeft)
        } else if s == "CheekPuffRight"@ {
            Some(UnifiedExpressions::CheekPuffRight)
        } else if s == "CheekPuffLeft"@ {
            Some(UnifiedExpressions::CheekPuffLeft)
        } else if s == "CheekSuckRight"@ {
            Some(UnifiedExpressions::CheekSuckRight)
        } else if s == "CheekSuckLeft"@ {
            Some(UnifiedExpressions::CheekSuckLeft)
        } else if s == "JawOpen"@ {
            Some(UnifiedExpressions::JawOpen)
        } else if s == "JawRight"@ {
            Some(UnifiedExpressions::JawRight)
        } else if s == "JawLeft"@ {
            Some(UnifiedExpressions::JawLeft)
        } else if s == "JawForward"@ {
            Some(UnifiedExpressions::JawForward)
        } else if s == "JawBackward"@ {
            Some(UnifiedExpressions::JawBackward)
        } else if s == "JawClench"@ {
            Some(UnifiedExpressions::JawClench)
        } else if s == "JawMandibleRaise"@ {
            Some(UnifiedExpressions::JawMandibleRaise)
        } else if s == "MouthClosed"@ {
            Some(UnifiedExpressions::MouthClosed)
        } else if s == "LipSuckUpperRight"@ {
            Some(UnifiedExpressions::LipSuckUpperRight)
        } else if s == "LipSuckUpperLeft"@ {
            Some(UnifiedExpressions::LipSuckUpperLeft)
        } else if s == "LipSuckLowerRight"@ {
            Some(UnifiedExpressions::LipSuckLowerRight)
        } else if s == "LipSuckLowerLeft"@ {
            Some(UnifiedExpressions::LipSuckLowerLeft)
        } else if s == "LipSuckCornerRight"@ {
            Some(UnifiedExpressions::LipSuckCornerRight)
        } else if s == "LipSuckCornerLeft"@ {
            Some(UnifiedExpressions::LipSuckCornerLeft)
        } else if s == "LipFunnelUpperRight"@ {
            Some(UnifiedExpressions::LipFunnelUpperRight)
        } else if s == "LipFunnelUpperLeft"@ {
            Some(UnifiedExpressions::LipFunnelUpperLeft)
        } else if s == "LipFunnelLowerRight"@ {
            Some(UnifiedExpressions::LipFunnelLowerRight)
        } else if s == "LipFunnelLowerLeft"@ {
            Some(UnifiedExpressions::LipFunnelLowerLeft)
        } else if s == "LipPuckerUpperRight"@ {
            Some(UnifiedExpressions::LipPuckerUpperRight)
        } else if s == "LipPuckerUpperLeft"@ {
            Some(UnifiedExpressions::LipPuckerUpperLeft)
        } else if s == "LipPuckerLowerRight"@ {
            Some(UnifiedExpressions::LipPuckerLowerRight)
        } else if s == "LipPuckerLowerLeft"@ {
            Some(UnifiedExpressions::LipPuckerLowerLeft)
        } else if s == "MouthUpperUpRight"@ {
            Some(UnifiedExpressions::MouthUpperUpRight)
        } else if s == "MouthUpperUpLeft"@ {
            Some(UnifiedExpressions::MouthUpperUpLeft)
        } else if s == "MouthUpperDeepenRight"@ {
            Some(UnifiedExpressions::MouthUpperDeepenRight)
        } else if s == "MouthUpperDeepenLeft"@ {
            Some(UnifiedExpressions::MouthUpperDeepenLeft)
        } else if s == "NoseSneerRight"@ {
            Some(UnifiedExpressions::NoseSneerRight)
        } else if s == "NoseSneerLeft"@ {
            Some(UnifiedExpressions::NoseSneerLeft)
        } else if s == "MouthLowerDownRight"@ {
            Some(UnifiedExpressions::MouthLowerDownRight)
        } else if s == "MouthLowerDownLeft"@ {
            Some(UnifiedExpressions::MouthLowerDownLeft)
        } else if s == "MouthUpperRight"@ {
            Some(UnifiedExpressions::MouthUpperRight)
        } else if s == "MouthUpperLeft"@ {
            Some(UnifiedExpressions::MouthUpperLeft)
        } else if s == "MouthLowerRight"@ {
            Some(UnifiedExpressions::MouthLowerRight)
        } else if s == "MouthLowerLeft"@ {
            Some(UnifiedExpressions::MouthLowerLeft)
        } else if s == "MouthCornerPullRight"@ {
            Some(UnifiedExpressions::MouthCornerPullRight)
        } else if s == "MouthCornerPullLeft"@ {
            Some(UnifiedExpressions::MouthCornerPullLeft)
        } else if s == "MouthCornerSlantRight"@ {
            Some(UnifiedExpressions::MouthCornerSlantRight)
        } else if s == "MouthCornerSlantLeft"@ {
            Some(UnifiedExpressions::MouthCornerSlantLeft)
        } else if s == "MouthFrownRight"@ {
            Some(UnifiedExpressions::MouthFrownRight)
        } else if s == "MouthFrownLeft"@ {
            Some(UnifiedExpressions::MouthFrownLeft)
        } else if s == "MouthStretchRight"@ {
            Some(UnifiedExpressions::MouthStretchRight)
        } else if s == "MouthStretchLeft"@ {
            Some(UnifiedExpressions::MouthStretchLeft)
        } else if s == "MouthDimpleRight"@ {
            Some(UnifiedExpressions::MouthDimpleRight)
        } else if s == "MouthDimpleLeft"@ {
            Some(UnifiedExpressions::MouthDimpleLeft)
        } else if s == "MouthRaiserUpper"@ {
            Some(UnifiedExpressions::MouthRaiserUpper)
        } else if s == "MouthRaiserLower"@ {
            Some(UnifiedExpressions::MouthRaiserLower)
        } else if s == "MouthPressRight"@ {
            Some(UnifiedExpressions::MouthPressRight)
        } else if s == "MouthPressLeft"@ {
            Some(UnifiedExpressions::MouthPressLeft)
        } else if s == "MouthTightenerRight"@ {
            Some(UnifiedExpressions::MouthTightenerRight)
        } else if s == "MouthTightenerLeft"@ {
            Some(UnifiedExpressions::MouthTightenerLeft)
        } else if s == "TongueOut"@ {
            Some(UnifiedExpressions::TongueOut)
        } else if s == "TongueUp"@ {
            Some(UnifiedExpressions::TongueUp)
        } else if s == "TongueDown"@ {
            Some(UnifiedExpressions::TongueDown)
        } else if s == "TongueRight"@ {
            Some(UnifiedExpressions::TongueRight)
        } else if s == "TongueLeft"@ {
            Some(UnifiedExpressions::TongueLeft)
        } else if s == "TongueRoll"@ {
            Some(UnifiedExpressions::TongueRoll)
        } else if s == "TongueBendDown"@ {
            Some(UnifiedExpressions::TongueBendDown)
        } else if s == "TongueCurlUp"@ {
            Some(UnifiedExpressions::TongueCurlUp)
        } else if s == "TongueSquish"@ {
            Some(UnifiedExpressions::TongueSquish)
        } else if s == "TongueFlat"@ {
            Some(UnifiedExpressions::TongueFlat)
        } else if s == "TongueTwistRight"@ {
            Some(UnifiedExpressions::TongueTwistRight)
        } else if s == "TongueTwistLeft"@ {
            Some(UnifiedExpressions::TongueTwistLeft)
        } else {
            None
        }
    }

    /// A channel that is found by a name bears that name, and a name
    /// that finds none is the name of no channel.
    pub proof fn lemma_from_name(s: Seq<char>)
        ensures
            match Self::spec_from_name(s) {
                Some(e) => e.spec_name() == s,
                None => forall|e: Self| e.spec_name() != s,
            },
    {
    }

    /// The channel whose name is exactly `s`.
    pub fn from_name(s: &str) -> (r: Option<Self>)
        ensures
            r == Self::spec_from_name(s@),
    {
        if str_eq(s, "EyeLeftX") {
            Some(UnifiedExpressions::EyeLeftX)
        } else if str_eq(s, "EyeRightX") {
            Some(UnifiedExpressions::EyeRightX)
        } else if str_eq(s, "EyeY") {
            Some(UnifiedExpressions::EyeY)
        } else if str_eq(s, "EyeClosedRight") {
            Some(UnifiedExpressions::EyeClosedRight)
        } else if str_eq(s, "EyeClosedLeft") {
            Some(UnifiedExpressions::EyeClosedLeft)
        } else if str_eq(s, "EyeSquintRight") {
            Some(UnifiedExpressions::EyeSquintRight)
        } else if str_eq(s, "EyeSquintLeft") {
            Some(UnifiedExpressions::EyeSquintLeft)
        } else if str_eq(s, "EyeWideRight") {
            Some(UnifiedExpressions::EyeWideRight)
        } else if str_eq(s, "EyeWideLeft") {
            Some(UnifiedExpressions::EyeWideLeft)
        } else if str_eq(s, "BrowPinchRight") {
            Some(UnifiedExpressions::BrowPinchRight)
        } else if str_eq(s, "BrowPinchLeft") {
            Some(UnifiedExpressions::BrowPinchLeft)
        } else if str_eq(s, "BrowLowererRight") {
            Some(UnifiedExpressions::BrowLowererRight)
        } else if str_eq(s, "BrowLowererLeft") {
            Some(UnifiedExpressions::BrowLowererLeft)
        } else if str_eq(s, "BrowInnerUpRight") {
            Some(UnifiedExpressions::BrowInnerUpRight)
        } else if str_eq(s, "BrowInnerUpLeft") {
            Some(UnifiedExpressions::BrowInnerUpLeft)
        } else if str_eq(s, "BrowOuterUpRight") {
            Some(UnifiedExpressions::BrowOuterUpRight)
        } else if str_eq(s, "BrowOuterUpLeft") {
            Some(UnifiedExpressions::BrowOuterUpLeft)
        } else if str_eq(s, "NasalDilationRight") {
            Some(UnifiedExpressions::NasalDilationRight)
        } else if str_eq(s, "NasalDilationLeft") {
            Some(UnifiedExpressions::NasalDilationLeft)
        } else if str_eq(s, "NasalConstrictRight") {
            Some(UnifiedExpressions::NasalConstrictRight)
        } else if str_eq(s, "NasalConstrictLeft") {
            Some(UnifiedExpressions::NasalConstrictLeft)
        } else if str_eq(s, "CheekSquintRight") {
            Some(UnifiedExpressions::CheekSquintRight)
        } else if str_eq(s, "CheekSquintLeft") {
            Some(UnifiedExpressions::CheekSquintLeft)
        } else if str_eq(s, "CheekPuffRight") {
            Some(UnifiedExpressions::CheekPuffRight)
        } else if str_eq(s, "CheekPuffLeft") {
            Some(UnifiedExpressions::CheekPuffLeft)
        } else if str_eq(s, "CheekSuckRight") {
            Some(UnifiedExpressions::CheekSuckRight)
        } else if str_eq(s, "CheekSuckLeft") {
            Some(UnifiedExpressions::CheekSuckLeft)
        } else if str_eq(s, "JawOpen") {
            Some(UnifiedExpressions::JawOpen)
        } else if str_eq(s, "JawRight") {
            Some(UnifiedExpressions::JawRight)
        } else if str_eq(s, "JawLeft") {
            Some(UnifiedExpressions::JawLeft)
        } else if str_eq(s, "JawForward") {
            Some(UnifiedExpressions::JawForward)
        } else if str_eq(s, "JawBackward") {
            Some(UnifiedExpressions::JawBackward)
        } else if str_eq(s, "JawClench") {
            Some(UnifiedExpressions::JawClench)
        } else if str_eq(s, "JawMandibleRaise") {
            Some(UnifiedExpressions::JawMandibleRaise)
        } else if str_eq(s, "MouthClosed") {
            Some(UnifiedExpressions::MouthClosed)
        } else if str_eq(s, "LipSuckUpperRight") {
            Some(UnifiedExpressions::LipSuckUpperRight)
        } else if str_eq(s, "LipSuckUpperLeft") {
            Some(UnifiedExpressions::LipSuckUpperLeft)
        } else if str_eq(s, "LipSuckLowerRight") {
            Some(UnifiedExpressions::LipSuckLowerRight)
        } else if str_eq(s, "LipSuckLowerLeft") {
            Some(UnifiedExpressions::LipSuckLowerLeft)
        } else if str_eq(s, "LipSuckCornerRight") {
            Some(UnifiedExpressions::LipSuckCornerRight)
        } else if str_eq(s, "LipSuckCornerLeft") {
            Some(UnifiedExpressions::LipSuckCornerLeft)
        } else if str_eq(s, "LipFunnelUpperRight") {
            Some(UnifiedExpressions::LipFunnelUpperRight)
        } else if str_eq(s, "LipFunnelUpperLeft") {
            Some(UnifiedExpressions::LipFunnelUpperLeft)
        } else if str_eq(s, "LipFunnelLowerRight") {
            Some(UnifiedExpressions::LipFunnelLowerRight)
        } else if str_eq(s, "LipFunnelLowerLeft") {
            Some(UnifiedExpressions::LipFunnelLowerLeft)
        } else if str_eq(s, "LipPuckerUpperRight") {
            Some(UnifiedExpressions::LipPuckerUpperRight)
        } else if str_eq(s, "LipPuckerUpperLeft") {
            Some(UnifiedExpressions::LipPuckerUpperLeft)
        } else if str_eq(s, "LipPuckerLowerRight") {
            Some(UnifiedExpressions::LipPuckerLowerRight)
        } else if str_eq(s, "LipPuckerLowerLeft") {
            Some(UnifiedExpressions::LipPuckerLowerLeft)
        } else if str_eq(s, "MouthUpperUpRight") {
            Some(UnifiedExpressions::MouthUpperUpRight)
        } else if str_eq(s, "MouthUpperUpLeft") {
            Some(UnifiedExpressions::MouthUpperUpLeft)
        } else if str_eq(s, "MouthUpperDeepenRight") {
            Some(UnifiedExpressions::MouthUpperDeepenRight)
        } else if str_eq(s, "MouthUpperDeepenLeft") {
            Some(UnifiedExpressions::MouthUpperDeepenLeft)
        } else if str_eq(s, "NoseSneerRight") {
            Some(UnifiedExpressions::NoseSneerRight)
        } else if str_eq(s, "NoseSneerLeft") {
            Some(UnifiedExpressions::NoseSneerLeft)
        } else if str_eq(s, "MouthLowerDownRight") {
            Some(UnifiedExpressions::MouthLowerDownRight)
        } else if str_eq(s, "MouthLowerDownLeft") {
            Some(UnifiedExpressions::MouthLowerDownLeft)
        } else if str_eq(s, "MouthUpperRight") {
            Some(UnifiedExpressions::MouthUpperRight)
        } else if str_eq(s, "MouthUpperLeft") {
            Some(UnifiedExpressions::MouthUpperLeft)
        } else if str_eq(s, "MouthLowerRight") {
            Some(UnifiedExpressions::MouthLowerRight)
        } else if str_eq(s, "MouthLowerLeft") {
            Some(UnifiedExpressions::MouthLowerLeft)
        } else if str_eq(s, "MouthCornerPullRight") {
            Some(UnifiedExpressions::MouthCornerPullRight)
        } else if str_eq(s, "MouthCornerPullLeft") {
            Some(UnifiedExpressions::MouthCornerPullLeft)
        } else if str_eq(s, "MouthCornerSlantRight") {
            Some(UnifiedExpressions::MouthCornerSlantRight)
        } else if str_eq(s, "MouthCornerSlantLeft") {
            Some(UnifiedExpressions::MouthCornerSlantLeft)
        } else if str_eq(s, "MouthFrownRight") {
            Some(UnifiedExpressions::MouthFrownRight)
        } else if str_eq(s, "MouthFrownLeft") {
            Some(UnifiedExpressions::MouthFrownLeft)
        } else if str_eq(s, "MouthStretchRight") {
            Some(UnifiedExpressions::MouthStretchRight)
        } else if str_eq(s, "MouthStretchLeft") {
            Some(UnifiedExpressions::MouthStretchLeft)
        } else if str_eq(s, "MouthDimpleRight") {
            Some(UnifiedExpressions::MouthDimpleRight)
        } else if str_eq(s, "MouthDimpleLeft") {
            Some(UnifiedExpressions::MouthDimpleLeft)
        } else if str_eq(s, "MouthRaiserUpper") {
            Some(UnifiedExpressions::MouthRaiserUpper)
        } else if str_eq(s, "MouthRaiserLower") {
            Some(UnifiedExpressions::MouthRaiserLower)
        } else if str_eq(s, "MouthPressRight") {
            Some(UnifiedExpressions::MouthPressRight)
        } else if str_eq(s, "MouthPressLeft") {
            Some(UnifiedExpressions::MouthPressLeft)
        } else if str_eq(s, "MouthTightenerRight") {
            Some(UnifiedExpressions::MouthTightenerRight)
        } else if str_eq(s, "MouthTightenerLeft") {
            Some(UnifiedExpressions::MouthTightenerLeft)
        } else if str_eq(s, "TongueOut") {
            Some(UnifiedExpressions::TongueOut)
        } else if str_eq(s, "TongueUp") {
            Some(UnifiedExpressions::TongueUp)
        } else if str_eq(s, "TongueDown") {
            Some(UnifiedExpressions::TongueDown)
        } else if str_eq(s, "TongueRight") {
            Some(UnifiedExpressions::TongueRight)
        } else if str_eq(s, "TongueLeft") {
            Some(UnifiedExpressions::TongueLeft)
        } else if str_eq(s, "TongueRoll") {
            Some(UnifiedExpressions::TongueRoll)
        } else if str_eq(s, "TongueBendDown") {
            Some(UnifiedExpressions::TongueBendDown)
        } else if str_eq(s, "TongueCurlUp") {
            Some(UnifiedExpressions::TongueCurlUp)
        } else if str_eq(s, "TongueSquish") {
            Some(UnifiedExpressions::TongueSquish)
        } else if str_eq(s, "TongueFlat") {
            Some(UnifiedExpressions::TongueFlat)
        } else if str_eq(s, "TongueTwistRight") {
            Some(UnifiedExpressions::TongueTwistRight)
        } else if str_eq(s, "TongueTwistLeft") {
            Some(UnifiedExpressions::TongueTwistLeft)
        } else {
            None
        }
    }
}

impl CombinedExpression {
    /// The name under which the channel is known.
    pub open spec fn spec_name(self) -> Seq<char> {
        match self {
            CombinedExpression::EyeLidLeft => "EyeLidLeft"@,
            CombinedExpression::EyeLidRight => "EyeLidRight"@,
            CombinedExpression::EyeLid => "EyeLid"@,
            CombinedExpression::EyeSquint => "EyeSquint"@,
            CombinedExpression::JawX => "JawX"@,
            CombinedExpression::JawZ => "JawZ"@,
            CombinedExpression::BrowDownLeft => "BrowDownLeft"@,
            CombinedExpression::BrowDownRight => "BrowDownRight"@,
            CombinedExpression::BrowOuterUp => "BrowOuterUp"@,
            CombinedExpression::BrowInnerUp => "BrowInnerUp"@,
            CombinedExpression::BrowUp => "BrowUp"@,
            CombinedExpression::BrowExpressionLeft => "BrowExpressionLeft"@,
            CombinedExpression::BrowExpressionRight => "BrowExpressionRight"@,
            CombinedExpression::BrowExpression => "BrowExpression"@,
            CombinedExpression::MouthX => "MouthX"@,
            CombinedExpression::MouthUpperX => "MouthUpperX"@,
            CombinedExpression::MouthLowerX => "MouthLowerX"@,
            CombinedExpression::MouthUpperUp => "MouthUpperUp"@,
            CombinedExpression::MouthLowerDown => "MouthLowerDown"@,
            CombinedExpression::MouthOpen => "MouthOpen"@,
            CombinedExpression::MouthSmileLeft => "MouthSmileLeft"@,
            CombinedExpression::MouthSmileRight => "MouthSmileRight"@,
            CombinedExpression::MouthSadLeft => "MouthSadLeft"@,
            CombinedExpression::MouthSadRight => "MouthSadRight"@,
            CombinedExpression::MouthStretchTightenLeft => "MouthStretchTightenLeft"@,
            CombinedExpression::MouthStretchTightenRight => "MouthStretchTightenRight"@,
            CombinedExpression::MouthStretch => "MouthStretch"@,
            CombinedExpression::MouthTightener => "MouthTightener"@,
            CombinedExpression::MouthDimple => "MouthDimple"@,
            CombinedExpression::MouthPress => "MouthPress"@,
            CombinedExpression::SmileFrownLeft => "SmileFrownLeft"@,
            CombinedExpression::SmileFrownRight => "SmileFrownRight"@,
            CombinedExpression::SmileFrown => "SmileFrown"@,
            CombinedExpression::SmileSadLeft => "SmileSadLeft"@,
            CombinedExpression::SmileSadRight => "SmileSadRight"@,
            CombinedExpression::SmileSad => "SmileSad"@,
            CombinedExpression::LipSuckUpper => "LipSuckUpper"@,
            CombinedExpression::LipSuckLower => "LipSuckLower"@,
            CombinedExpression::LipSuck => "LipSuck"@,
            CombinedExpression::LipFunnelUpper => "LipFunnelUpper"@,
            CombinedExpression::LipFunnelLower => "LipFunnelLower"@,
            CombinedExpression::LipFunnel => "LipFunnel"@,
            CombinedExpression::LipPuckerUpper => "LipPuckerUpper"@,
            CombinedExpression::LipPuckerLower => "LipPuckerLower"@,
            CombinedExpression::LipPucker => "LipPucker"@,
            CombinedExpression::NoseSneer => "NoseSneer"@,
            CombinedExpression::CheekPuffSuckLeft => "CheekPuffSuckLeft"@,
            CombinedExpression::CheekPuffSuckRight => "CheekPuffSuckRight"@,
            CombinedExpression::CheekPuffSuck => "CheekPuffSuck"@,
            CombinedExpression::CheekSquint => "CheekSquint"@,
            CombinedExpression::EarLeft => "EarLeft"@,
            CombinedExpression::EarRight => "EarRight"@,
            CombinedExpression::Blush => "Blush"@,
        }
    }

    /// The name under which the channel is known.
    pub fn name(self) -> (s: &'static str)
        ensures
            s@ == self.spec_name(),
    {
        match self {
            CombinedExpression::EyeLidLeft => "EyeLidLeft",
            CombinedExpression::EyeLidRight => "EyeLidRight",
            CombinedExpression::EyeLid => "EyeLid",
            CombinedExpression::EyeSquint => "EyeSquint",
            CombinedExpression::JawX => "JawX",
            CombinedExpression::JawZ => "JawZ",
            CombinedExpression::BrowDownLeft => "BrowDownLeft",
            CombinedExpression::BrowDownRight => "BrowDownRight",
            CombinedExpression::BrowOuterUp => "BrowOuterUp",
            CombinedExpression::BrowInnerUp => "BrowInnerUp",
            CombinedExpression::BrowUp => "BrowUp",
            CombinedExpression::BrowExpressionLeft => "BrowExpressionLeft",
            CombinedExpression::BrowExpressionRight => "BrowExpressionRight",
            CombinedExpression::BrowExpression => "BrowExpression",
            CombinedExpression::MouthX => "MouthX",
            CombinedExpression::MouthUpperX => "MouthUpperX",
            CombinedExpression::MouthLowerX => "MouthLowerX",
            CombinedExpression::MouthUpperUp => "MouthUpperUp",
            CombinedExpression::MouthLowerDown => "MouthLowerDown",
            CombinedExpression::MouthOpen => "MouthOpen",
            CombinedExpression::MouthSmileLeft => "MouthSmileLeft",
            CombinedExpression::MouthSmileRight => "MouthSmileRight",
            CombinedExpression::MouthSadLeft => "MouthSadLeft",
            CombinedExpression::MouthSadRight => "MouthSadRight",
            CombinedExpression::MouthStretchTightenLeft => "MouthStretchTightenLeft",
            CombinedExpression::MouthStretchTightenRight => "MouthStretchTightenRight",
            CombinedExpression::MouthStretch => "MouthStretch",
            CombinedExpression::MouthTightener => "MouthTightener",
            CombinedExpression::MouthDimple => "MouthDimple",
            CombinedExpression::MouthPress => "MouthPress",
            CombinedExpression::SmileFrownLeft => "SmileFrownLeft",
            CombinedExpression::SmileFrownRight => "SmileFrownRight",
            CombinedExpression::SmileFrown => "SmileFrown",
            CombinedExpression::SmileSadLeft => "SmileSadLeft",
            CombinedExpression::SmileSadRight => "SmileSadRight",
            CombinedExpression::SmileSad => "SmileSad",
            CombinedExpression::LipSuckUpper => "LipSuckUpper",
            CombinedExpression::LipSuckLower => "LipSuckLower",
            CombinedExpression::LipSuck => "LipSuck",
            CombinedExpression::LipFunnelUpper => "LipFunnelUpper",
            CombinedExpression::LipFunnelLower => "LipFunnelLower",
            CombinedExpression::LipFunnel => "LipFunnel",
            CombinedExpression::LipPuckerUpper => "LipPuckerUpper",
            CombinedExpression::LipPuckerLower => "LipPuckerLower",
            CombinedExpression::LipPucker => "LipPucker",
            CombinedExpression::NoseSneer => "NoseSneer",
            CombinedExpression::CheekPuffSuckLeft => "CheekPuffSuckLeft",
            CombinedExpression::CheekPuffSuckRight => "CheekPuffSuckRight",
            CombinedExpression::CheekPuffSuck => "CheekPuffSuck",
            CombinedExpression::CheekSquint => "CheekSquint",
            CombinedExpression::EarLeft => "EarLeft",
            CombinedExpression::EarRight => "EarRight",
            CombinedExpression::Blush => "Blush",
        }
    }

    /// The channel whose name is exactly `s`: the first one in the order
    /// of declaration, if there is any.
    pub open spec fn spec_from_name(s: Seq<char>) -> Option<Self> {
        if s == "EyeLidLeft"@ {
            Some(CombinedExpression::EyeLidLeft)
        } else if s == "EyeLidRight"@ {
            Some(CombinedExpression::EyeLidRight)
        } else if s == "EyeLid"@ {
            Some(CombinedExpression::EyeLid)
        } else if s == "EyeSquint"@ {
            Some(CombinedExpression::EyeSquint)
        } else if s == "JawX"@ {
            Some(CombinedExpression::JawX)
        } else if s == "JawZ"@ {
            Some(CombinedExpression::JawZ)
        } else if s == "BrowDownLeft"@ {
            Some(CombinedExpression::BrowDownLeft)
        } else if s == "BrowDownRight"@ {
            Some(CombinedExpression::BrowDownRight)
        } else if s == "BrowOuterUp"@ {
            Some(CombinedExpression::BrowOuterUp)
        } else if s == "BrowInnerUp"@ {
            Some(CombinedExpression::BrowInnerUp)
        } else if s == "BrowUp"@ {
            Some(CombinedExpression::BrowUp)
        } else if s == "BrowExpressionLeft"@ {
            Some(CombinedExpression::BrowExpressionLeft)
        } else if s == "BrowExpressionRight"@ {
            Some(CombinedExpression::BrowExpressionRight)
        } else if s == "BrowExpression"@ {
            Some(CombinedExpression::BrowExpression)
        } else if s == "MouthX"@ {
            Some(CombinedExpression::MouthX)
        } else if s == "MouthUpperX"@ {
            Some(CombinedExpression::MouthUpperX)
        } else if s == "MouthLowerX"@ {
            Some(CombinedExpression::MouthLowerX)
        } else if s == "MouthUpperUp"@ {
            Some(CombinedExpression::MouthUpperUp)
        } else if s == "MouthLowerDown"@ {
            Some(CombinedExpression::MouthLowerDown)
        } else if s == "MouthOpen"@ {
            Some(CombinedExpression::MouthOpen)
        } else if s == "MouthSmileLeft"@ {
            Some(CombinedExpression::MouthSmileLeft)
        } else if s == "MouthSmileRight"@ {
            Some(CombinedExpression::MouthSmileRight)
        } else if s == "MouthSadLeft"@ {
            Some(CombinedExpression::MouthSadLeft)
        } else if s == "MouthSadRight"@ {
            Some(CombinedExpression::MouthSadRight)
        } else if s == "MouthStretchTightenLeft"@ {
            Some(CombinedExpression::MouthStretchTightenLeft)
        } else if s == "MouthStretchTightenRight"@ {
            Some(CombinedExpression::MouthStretchTightenRight)
        } else if s == "MouthStretch"@ {
            Some(CombinedExpression::MouthStretch)
        } else if s == "MouthTightener"@ {
            Some(CombinedExpression::MouthTightener)
        } else if s == "MouthDimple"@ {
            Some(CombinedExpression::MouthDimple)
        } else if s == "MouthPress"@ {
            Some(CombinedExpression::MouthPress)
        } else if s == "SmileFrownLeft"@ {
            Some(CombinedExpression::SmileFrownLeft)
        } else if s == "SmileFrownRight"@ {
            Some(CombinedExpression::SmileFrownRight)
        } else if s == "SmileFrown"@ {
            Some(CombinedExpression::SmileFrown)
        } else if s == "SmileSadLeft"@ {
            Some(CombinedExpression::SmileSadLeft)
        } else if s == "SmileSadRight"@ {
            Some(CombinedExpression::SmileSadRight)
        } else if s == "SmileSad"@ {
            Some(CombinedExpression::SmileSad)
        } else if s == "LipSuckUpper"@ {
            Some(CombinedExpression::LipSuckUpper)
        } else if s == "LipSuckLower"@ {
            Some(CombinedExpression::LipSuckLower)
        } else if s == "LipSuck"@ {
            Some(CombinedExpression::LipSuck)
        } else if s == "LipFunnelUpper"@ {
            Some(CombinedExpression::LipFunnelUpper)
        } else if s == "LipFunnelLower"@ {
            Some(CombinedExpression::LipFunnelLower)
        } else if s == "LipFunnel"@ {
            Some(CombinedExpression::LipFunnel)
        } else if s == "LipPuckerUpper"@ {
            Some(CombinedExpression::LipPuckerUpper)
        } else if s == "LipPuckerLower"@ {
            Some(CombinedExpression::LipPuckerLower)
        } else if s == "LipPucker"@ {
            Some(CombinedExpression::LipPucker)
        } else if s == "NoseSneer"@ {
            Some(CombinedExpression::NoseSneer)
        } else if s == "CheekPuffSuckLeft"@ {
            Some(CombinedExpression::CheekPuffSuckLeft)
        } else if s == "CheekPuffSuckRight"@ {
            Some(CombinedExpression::CheekPuffSuckRight)
        } else if s == "CheekPuffSuck"@ {
            Some(CombinedExpression::CheekPuffSuck)
        } else if s == "CheekSquint"@ {
            Some(CombinedExpression::CheekSquint)
        } else if s == "EarLeft"@ {
            Some(CombinedExpression::EarLeft)
        } else if s == "EarRight"@ {
            Some(CombinedExpression::EarRight)
        } else if s == "Blush"@ {
            Some(CombinedExpression::Blush)
        } else {
            None
        }
    }

    /// A channel that is found by a name bears that name, and a name
    /// that finds none is the name of no channel.
    pub proof fn lemma_from_name(s: Seq<char>)
        ensures
            match Self::spec_from_name(s) {
                Some(e) => e.spec_name() == s,
                None => forall|e: Self| e.spec_name() != s,
            },
    {
    }

    /// The channel whose name is exactly `s`.
    pub fn from_name(s: &str) -> (r: Option<Self>)
        ensures
            r == Self::spec_from_name(s@),
    {
        if str_eq(s, "EyeLidLeft") {
            Some(CombinedExpression::EyeLidLeft)
        } else if str_eq(s, "EyeLidRight") {
            Some(CombinedExpression::EyeLidRight)
        } else if str_eq(s, "EyeLid") {
            Some(CombinedExpression::EyeLid)
        } else if str_eq(s, "EyeSquint") {
            Some(CombinedExpression::EyeSquint)
        } else if str_eq(s, "JawX") {
            Some(CombinedExpression::JawX)
        } else if str_eq(s, "JawZ") {
            Some(CombinedExpression::JawZ)
        } else if str_eq(s, "BrowDownLeft") {
            Some(CombinedExpression::BrowDownLeft)
        } else if str_eq(s, "BrowDownRight") {
            Some(CombinedExpression::BrowDownRight)
        } else if str_eq(s, "BrowOuterUp") {
            Some(CombinedExpression::BrowOuterUp)
        } else if str_eq(s, "BrowInnerUp") {
            Some(CombinedExpression::BrowInnerUp)
        } else if str_eq(s, "BrowUp") {
            Some(CombinedExpression::BrowUp)
        } else if str_eq(s, "BrowExpressionLeft") {
            Some(CombinedExpression::BrowExpressionLeft)
        } else if str_eq(s, "BrowExpressionRight") {
            Some(CombinedExpression::BrowExpressionRight)
        } else if str_eq(s, "BrowExpression") {
            Some(CombinedExpression::BrowExpression)
        } else if str_eq(s, "MouthX") {
            Some(CombinedExpression::MouthX)
        } else if str_eq(s, "MouthUpperX") {
            Some(CombinedExpression::MouthUpperX)
        } else if str_eq(s, "MouthLowerX") {
            Some(CombinedExpression::MouthLowerX)
        } else if str_eq(s, "MouthUpperUp") {
            Some(CombinedExpression::MouthUpperUp)
        } else if str_eq(s, "MouthLowerDown") {
            Some(CombinedExpression::MouthLowerDown)
        } else if str_eq(s, "MouthOpen") {
            Some(CombinedExpression::MouthOpen)
        } else if str_eq(s, "MouthSmileLeft") {
            Some(CombinedExpression::MouthSmileLeft)
        } else if str_eq(s, "MouthSmileRight") {
            Some(CombinedExpression::MouthSmileRight)
        } else if str_eq(s, "MouthSadLeft") {
            Some(CombinedExpression::MouthSadLeft)
        } else if str_eq(s, "MouthSadRight") {
            Some(CombinedExpression::MouthSadRight)
        } else if str_eq(s, "MouthStretchTightenLeft") {
            Some(CombinedExpression::MouthStretchTightenLeft)
        } else if str_eq(s, "MouthStretchTightenRight") {
            Some(CombinedExpression::MouthStretchTightenRight)
        } else if str_eq(s, "MouthStretch") {
            Some(CombinedExpression::MouthStretch)
        } else if str_eq(s, "MouthTightener") {
            Some(CombinedExpression::MouthTightener)
        } else if str_eq(s, "MouthDimple") {
            Some(CombinedExpression::MouthDimple)
        } else if str_eq(s, "MouthPress") {
            Some(CombinedExpression::MouthPress)
        } else if str_eq(s, "SmileFrownLeft") {
            Some(CombinedExpression::SmileFrownLeft)
        } else if str_eq(s, "SmileFrownRight") {
            Some(CombinedExpression::SmileFrownRight)
        } else if str_eq(s, "SmileFrown") {
            Some(CombinedExpression::SmileFrown)
        } else if str_eq(s, "SmileSadLeft") {
            Some(CombinedExpression::SmileSadLeft)
        } else if str_eq(s, "SmileSadRight") {
            Some(CombinedExpression::SmileSadRight)
        } else if str_eq(s, "SmileSad") {
            Some(CombinedExpression::SmileSad)
        } else if str_eq(s, "LipSuckUpper") {
            Some(CombinedExpression::LipSuckUpper)
        } else if str_eq(s, "LipSuckLower") {
            Some(CombinedExpression::LipSuckLower)
        } else if str_eq(s, "LipSuck") {
            Some(CombinedExpression::LipSuck)
        } else if str_eq(s, "LipFunnelUpper") {
            Some(CombinedExpression::LipFunnelUpper)
        } else if str_eq(s, "LipFunnelLower") {
            Some(CombinedExpression::LipFunnelLower)
        } else if str_eq(s, "LipFunnel") {
            Some(CombinedExpression::LipFunnel)
        } else if str_eq(s, "LipPuckerUpper") {
            Some(CombinedExpression::LipPuckerUpper)
        } else if str_eq(s, "LipPuckerLower") {
            Some(CombinedExpression::LipPuckerLower)
        } else if str_eq(s, "LipPucker") {
            Some(CombinedExpression::LipPucker)
        } else if str_eq(s, "NoseSneer") {
            Some(CombinedExpression::NoseSneer)
        } else if str_eq(s, "CheekPuffSuckLeft") {
            Some(CombinedExpression::CheekPuffSuckLeft)
        } else if str_eq(s, "CheekPuffSuckRight") {
            Some(CombinedExpression::CheekPuffSuckRight)
        } else if str_eq(s, "CheekPuffSuck") {
            Some(CombinedExpression::CheekPuffSuck)
        } else if str_eq(s, "CheekSquint") {
            Some(CombinedExpression::CheekSquint)
        } else if str_eq(s, "EarLeft") {
            Some(CombinedExpression::EarLeft)
        } else if str_eq(s, "EarRight") {
            Some(CombinedExpression::EarRight)
        } else if str_eq(s, "Blush") {
            Some(CombinedExpression::Blush)
        } else {
            None
        }
    }
}

} // verus!
