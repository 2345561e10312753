use vstd::prelude::*;
use crate::expressions::{CombinedExpression, UnifiedExpressions, NUM_SHAPES};
use crate::text::str_eq;

verus! {

/// Names from an older naming scheme; each stands for one of the channels.
#[derive(Clone, Copy, Debug, PartialEq, Eq, Structural)]
pub enum SRanipalExpression {
    LeftEyeX,
    RightEyeX,
    EyesY,
    EyeLeftWide,
    EyeRightWide,
    EyeLeftBlink,
    EyeRightBlink,
    EyeLeftSqueeze,
    EyeRightSqueeze,
    CheekSuck,
    MouthApeShape,
    MouthUpperInside,
    MouthLowerInside,
    MouthUpperOverturn,
    MouthLowerOverturn,
    MouthPout,
    MouthLowerOverlay,
    TongueLongStep1,
}

impl SRanipalExpression {
    /// Position, in the flat channel vector, of the channel that this name stands for.
    pub open spec fn spec_index(self) -> usize {
        match self {
            SRanipalExpression::LeftEyeX => UnifiedExpressions::EyeLeftX.spec_index(),
            SRanipalExpression::RightEyeX => UnifiedExpressions::EyeRightX.spec_index(),
            SRanipalExpression::EyesY => UnifiedExpressions::EyeY.spec_index(),
            SRanipalExpression::EyeLeftWide => UnifiedExpressions::EyeWideLeft.spec_index(),
            SRanipalExpression::EyeRightWide => UnifiedExpressions::EyeWideRight.spec_index(),
            SRanipalExpression::EyeLeftBlink => UnifiedExpressions::EyeClosedLeft.spec_index(),
            SRanipalExpression::EyeRightBlink => UnifiedExpressions::EyeClosedRight.spec_index(),
            SRanipalExpression::EyeLeftSqueeze => UnifiedExpressions::EyeSquintLeft.spec_index(),
            SRanipalExpression::EyeRightSqueeze => UnifiedExpressions::EyeSquintRight.spec_index(),
            SRanipalExpression::CheekSuck => UnifiedExpressions::CheekSuckLeft.spec_index(),
            SRanipalExpression::MouthApeShape => UnifiedExpressions::MouthClosed.spec_index(),
            SRanipalExpression::MouthUpperInside => CombinedExpression::LipSuckUpper.spec_index(),
            SRanipalExpression::MouthLowerInside => CombinedExpression::LipSuckLower.spec_index(),
            SRanipalExpression::MouthUpperOverturn => CombinedExpression::LipFunnelUpper.spec_index(),
            SRanipalExpression::MouthLowerOverturn => CombinedExpression::LipFunnelLower.spec_index(),
            SRanipalExpression::MouthPout => CombinedExpression::LipPucker.spec_index(),
            SRanipalExpression::MouthLowerOverlay => UnifiedExpressions::MouthRaiserLower.spec_index(),
            SRanipalExpression::TongueLongStep1 => UnifiedExpressions::TongueOut.spec_index(),
        }
    }

    /// Position, in the flat channel vector, of the channel that this name stands for.
    #[verifier::when_used_as_spec(spec_index)]
    pub fn index(self) -> (i: usize)
        ensures
            i == self.spec_index(),
            i < NUM_SHAPES,
    {
        match self {
            SRanipalExpression::LeftEyeX => UnifiedExpressions::EyeLeftX.index(),
            SRanipalExpression::RightEyeX => UnifiedExpressions::EyeRightX.index(),
            SRanipalExpression::EyesY => UnifiedExpressions::EyeY.index(),
            SRanipalExpression::EyeLeftWide => UnifiedExpressions::EyeWideLeft.index(),
            SRanipalExpression::EyeRightWide => UnifiedExpressions::EyeWideRight.index(),
            SRanipalExpression::EyeLeftBlink => UnifiedExpressions::EyeClosedLeft.index(),
            SRanipalExpression::EyeRightBlink => UnifiedExpressions::EyeClosedRight.index(),
            SRanipalExpression::EyeLeftSqueeze => UnifiedExpressions::EyeSquintLeft.index(),
            SRanipalExpression::EyeRightSqueeze => UnifiedExpressions::EyeSquintRight.index(),
            SRanipalExpression::CheekSuck => UnifiedExpressions::CheekSuckLeft.index(),
            SRanipalExpression::MouthApeShape => UnifiedExpressions::MouthClosed.index(),
            SRanipalExpression::MouthUpperInside => CombinedExpression::LipSuckUpper.index(),
            SRanipalExpression::MouthLowerInside => CombinedExpression::LipSuckLower.index(),
            SRanipalExpression::MouthUpperOverturn => CombinedExpression::LipFunnelUpper.index(),
            SRanipalExpression::MouthLowerOverturn => CombinedExpression::LipFunnelLower.index(),
            SRanipalExpression::MouthPout => CombinedExpression::LipPucker.index(),
            SRanipalExpression::MouthLowerOverlay => UnifiedExpressions::MouthRaiserLower.index(),
            SRanipalExpression::TongueLongStep1 => UnifiedExpressions::TongueOut.index(),
        }
    }

    /// The name itself.
    pub open spec fn spec_name(self) -> Seq<char> {
        match self {
            SRanipalExpression::LeftEyeX => "LeftEyeX"@,
            SRanipalExpression::RightEyeX => "RightEyeX"@,
            SRanipalExpression::EyesY => "EyesY"@,
            SRanipalExpression::EyeLeftWide => "EyeLeftWide"@,
            SRanipalExpression::EyeRightWide => "EyeRightWide"@,
            SRanipalExpression::EyeLeftBlink => "EyeLeftBlink"@,
            SRanipalExpression::EyeRightBlink => "EyeRightBlink"@,
            SRanipalExpression::EyeLeftSqueeze => "EyeLeftSqueeze"@,
            SRanipalExpression::EyeRightSqueeze => "EyeRightSqueeze"@,
            SRanipalExpression::CheekSuck => "CheekSuck"@,
            SRanipalExpression::MouthApeShape => "MouthApeShape"@,
            SRanipalExpression::MouthUpperInside => "MouthUpperInside"@,
            SRanipalExpression::MouthLowerInside => "MouthLowerInside"@,
            SRanipalExpression::MouthUpperOverturn => "MouthUpperOverturn"@,
            SRanipalExpression::MouthLowerOverturn => "MouthLowerOverturn"@,
            SRanipalExpression::MouthPout => "MouthPout"@,
            SRanipalExpression::MouthLowerOverlay => "MouthLowerOverlay"@,
            SRanipalExpression::TongueLongStep1 => "TongueLongStep1"@,
        }
    }

    /// The name itself.
    pub fn name(self) -> (s: &'static str)
        ensures
            s@ == self.spec_name(),
    {
        match self {
            SRanipalExpression::LeftEyeX => "LeftEyeX",
            SRanipalExpression::RightEyeX => "RightEyeX",
            SRanipalExpression::EyesY => "EyesY",
            SRanipalExpression::EyeLeftWide => "EyeLeftWide",
            SRanipalExpression::EyeRightWide => "EyeRightWide",
            SRanipalExpression::EyeLeftBlink => "EyeLeftBlink",
            SRanipalExpression::EyeRightBlink => "EyeRightBlink",
            SRanipalExpression::EyeLeftSqueeze => "EyeLeftSqueeze",
            SRanipalExpression::EyeRightSqueeze => "EyeRightSqueeze",
            SRanipalExpression::CheekSuck => "CheekSuck",
            SRanipalExpression::MouthApeShape => "MouthApeShape",
            SRanipalExpression::MouthUpperInside => "MouthUpperInside",
            SRanipalExpression::MouthLowerInside => "MouthLowerInside",
            SRanipalExpression::MouthUpperOverturn => "MouthUpperOverturn",
            SRanipalExpression::MouthLowerOverturn => "MouthLowerOverturn",
            SRanipalExpression::MouthPout => "MouthPout",
            SRanipalExpression::MouthLowerOverlay => "MouthLowerOverlay",
            SRanipalExpression::TongueLongStep1 => "TongueLongStep1",
        }
    }

    /// The entry whose name is exactly `s`: the first one in the order of
    /// declaration, if there is any.
    pub open spec fn spec_from_name(s: Seq<char>) -> Option<Self> {
        if s == "LeftEyeX"@ {
            Some(SRanipalExpression::LeftEyeX)
        } else if s == "RightEyeX"@ {
            Some(SRanipalExpression::RightEyeX)
        } else if s == "EyesY"@ {
            Some(SRanipalExpression::EyesY)
        } else if s == "EyeLeftWide"@ {
            Some(SRanipalExpression::EyeLeftWide)
        } else if s == "EyeRightWide"@ {
            Some(SRanipalExpression::EyeRightWide)
        } else if s == "EyeLeftBlink"@ {
            Some(SRanipalExpression::EyeLeftBlink)
        } else if s == "EyeRightBlink"@ {
            Some(SRanipalExpression::EyeRightBlink)
        } else if s == "EyeLeftSqueeze"@ {
            Some(SRanipalExpression::EyeLeftSqueeze)
        } else if s == "EyeRightSqueeze"@ {
            Some(SRanipalExpression::EyeRightSqueeze)
        } else if s == "CheekSuck"@ {
            Some(SRanipalExpression::CheekSuck)
        } else if s == "MouthApeShape"@ {
            Some(SRanipalExpression::MouthApeShape)
        } else if s == "MouthUpperInside"@ {
            Some(SRanipalExpression::MouthUpperInside)
        } else if s == "MouthLowerInside"@ {
            Some(SRanipalExpression::MouthLowerInside)
        } else if s == "MouthUpperOverturn"@ {
            Some(SRanipalExpression::MouthUpperOverturn)
        } else if s == "MouthLowerOverturn"@ {
            Some(SRanipalExpression::MouthLowerOverturn)
        } else if s == "MouthPout"@ {
            Some(SRanipalExpression::MouthPout)
        } else if s == "MouthLowerOverlay"@ {
            Some(SRanipalExpression::MouthLowerOverlay)
        } else if s == "TongueLongStep1"@ {
            Some(SRanipalExpression::TongueLongStep1)
        } else {
            None
        }
    }

    /// The entry whose name is exactly `s`.
    pub fn from_name(s: &str) -> (r: Option<Self>)
        ensures
            r == Self::spec_from_name(s@),
    {
        if str_eq(s, "LeftEyeX") {
            Some(SRanipalExpression::LeftEyeX)
        } else if str_eq(s, "RightEyeX") {
            Some(SRanipalExpression::RightEyeX)
        } else if str_eq(s, "EyesY") {
            Some(SRanipalExpression::EyesY)
        } else if str_eq(s, "EyeLeftWide") {
            Some(SRanipalExpression::EyeLeftWide)
        } else if str_eq(s, "EyeRightWide") {
            Some(SRanipalExpression::EyeRightWide)
        } else if str_eq(s, "EyeLeftBlink") {
            Some(SRanipalExpression::EyeLeftBlink)
        } else if str_eq(s, "EyeRightBlink") {
            Some(SRanipalExpression::EyeRightBlink)
        } else if str_eq(s, "EyeLeftSqueeze") {
            Some(SRanipalExpression::EyeLeftSqueeze)
        } else if str_eq(s, "EyeRightSqueeze") {
            Some(SRanipalExpression::EyeRightSqueeze)
        } else if str_eq(s, "CheekSuck") {
            Some(SRanipalExpression::CheekSuck)
        } else if str_eq(s, "MouthApeShape") {
            Some(SRanipalExpression::MouthApeShape)
        } else if str_eq(s, "MouthUpperInside") {
            Some(SRanipalExpression::MouthUpperInside)
        } else if str_eq(s, "MouthLowerInside") {
            Some(SRanipalExpression::MouthLowerInside)
        } else if str_eq(s, "MouthUpperOverturn") {
            Some(SRanipalExpression::MouthUpperOverturn)
        } else if str_eq(s, "MouthLowerOverturn") {
            Some(SRanipalExpression::MouthLowerOverturn)
        } else if str_eq(s, "MouthPout") {
            Some(SRanipalExpression::MouthPout)
        } else if str_eq(s, "MouthLowerOverlay") {
            Some(SRanipalExpression::MouthLowerOverlay)
        } else if str_eq(s, "TongueLongStep1") {
            Some(SRanipalExpression::TongueLongStep1)
        } else {
            None
        }
    }
}

/// Position of the channel that `name` stands for: a unified channel of
/// that name first, then a combined one, then a name of the older scheme.
pub open spec fn channel_index(name: Seq<char>) -> Option<usize> {
    match UnifiedExpressions::spec_from_name(name) {
        Some(e) => Some(e.spec_index()),
        None => match CombinedExpression::spec_from_name(name) {
            Some(e) => Some(e.spec_index()),
            None => match SRanipalExpression::spec_from_name(name) {
                Some(e) => Some(e.spec_index()),
                None => None,
            },
        },
    }
}

/// Every position that a name resolves to lies inside the channel vector.
pub proof fn lemma_channel_index_in_range()
    ensures
        forall|name: Seq<char>| (#[trigger] channel_index(name)) matches Some(i) ==> i < NUM_SHAPES,
{
}

/// Position of the channel that `name` stands for.
pub fn resolve_channel(name: &str) -> (r: Option<usize>)
    ensures
        r == channel_index(name@),
        r matches Some(i) ==> i < NUM_SHAPES,
{
    if let Some(e) = UnifiedExpressions::from_name(name) {
        Some(e.index())
    } else if let Some(e) = CombinedExpression::from_name(name) {
        Some(e.index())
    } else if let Some(e) = SRanipalExpression::from_name(name) {
        Some(e.index())
    } else {
        None
    }
}

} // verus!
