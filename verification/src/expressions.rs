use vstd::prelude::*;

verus! {

/// Number of unified channels.
pub const UNIFIED_COUNT: usize = 89;

/// Number of combined channels.
pub const COMBINED_COUNT: usize = 53;

/// Length of the flat channel vector: every unified channel, then every combined one.
pub const NUM_SHAPES: usize = 142;

/// The raw, backend-independent facial and eye channels.
#[derive(Clone, Copy, Debug, PartialEq, Eq, Structural)]
pub enum UnifiedExpressions {
    EyeLeftX,
    EyeRightX,
    EyeY,
    EyeClosedRight,
    EyeClosedLeft,
    EyeSquintRight,
    EyeSquintLeft,
    EyeWideRight,
    EyeWideLeft,
    BrowPinchRight,
    BrowPinchLeft,
    BrowLowererRight,
    BrowLowererLeft,
    BrowInnerUpRight,
    BrowInnerUpLeft,
    BrowOuterUpRight,
    BrowOuterUpLeft,
    NasalDilationRight,
    NasalDilationLeft,
    NasalConstrictRight,
    NasalConstrictLeft,
    CheekSquintRight,
    CheekSquintLeft,
    CheekPuffRight,
    CheekPuffLeft,
    CheekSuckRight,
    CheekSuckLeft,
    JawOpen,
    JawRight,
    JawLeft,
    JawForward,
    JawBackward,
    JawClench,
    JawMandibleRaise,
    MouthClosed,
    LipSuckUpperRight,
    LipSuckUpperLeft,
    LipSuckLowerRight,
    LipSuckLowerLeft,
    LipSuckCornerRight,
    LipSuckCornerLeft,
    LipFunnelUpperRight,
    LipFunnelUpperLeft,
    LipFunnelLowerRight,
    LipFunnelLowerLeft,
    LipPuckerUpperRight,
    LipPuckerUpperLeft,
    LipPuckerLowerRight,
    LipPuckerLowerLeft,
    MouthUpperUpRight,
    MouthUpperUpLeft,
    MouthUpperDeepenRight,
    MouthUpperDeepenLeft,
    NoseSneerRight,
    NoseSneerLeft,
    MouthLowerDownRight,
    MouthLowerDownLeft,
    MouthUpperRight,
    MouthUpperLeft,
    MouthLowerRight,
    MouthLowerLeft,
    MouthCornerPullRight,
    MouthCornerPullLeft,
    MouthCornerSlantRight,
    MouthCornerSlantLeft,
    MouthFrownRight,
    MouthFrownLeft,
    MouthStretchRight,
    MouthStretchLeft,
    MouthDimpleRight,
    MouthDimpleLeft,
    MouthRaiserUpper,
    MouthRaiserLower,
    MouthPressRight,
    MouthPressLeft,
    MouthTightenerRight,
    MouthTightenerLeft,
    TongueOut,
    TongueUp,
    TongueDown,
    TongueRight,
    TongueLeft,
    TongueRoll,
    TongueBendDown,
    TongueCurlUp,
    TongueSquish,
    TongueFlat,
    TongueTwistRight,
    TongueTwistLeft,
}

impl UnifiedExpressions {
    /// Position of the channel in the flat channel vector.
    pub open spec fn spec_index(self) -> usize {
        match self {
            UnifiedExpressions::EyeLeftX => 0,
            UnifiedExpressions::EyeRightX => 1,
            UnifiedExpressions::EyeY => 2,
            UnifiedExpressions::EyeClosedRight => 3,
            UnifiedExpressions::EyeClosedLeft => 4,
            UnifiedExpressions::EyeSquintRight => 5,
            UnifiedExpressions::EyeSquintLeft => 6,
            UnifiedExpressions::EyeWideRight => 7,
            UnifiedExpressions::EyeWideLeft => 8,
            UnifiedExpressions::BrowPinchRight => 9,
            UnifiedExpressions::BrowPinchLeft => 10,
            UnifiedExpressions::BrowLowererRight => 11,
            UnifiedExpressions::BrowLowererLeft => 12,
            UnifiedExpressions::BrowInnerUpRight => 13,
            UnifiedExpressions::BrowInnerUpLeft => 14,
            UnifiedExpressions::BrowOuterUpRight => 15,
            UnifiedExpressions::BrowOuterUpLeft => 16,
            UnifiedExpressions::NasalDilationRight => 17,
            UnifiedExpressions::NasalDilationLeft => 18,
            UnifiedExpressions::NasalConstrictRight => 19,
            UnifiedExpressions::NasalConstrictLeft => 20,
            UnifiedExpressions::CheekSquintRight => 21,
            UnifiedExpressions::CheekSquintLeft => 22,
            UnifiedExpressions::CheekPuffRight => 23,
            UnifiedExpressions::CheekPuffLeft => 24,
            UnifiedExpressions::CheekSuckRight => 25,
            UnifiedExpressions::CheekSuckLeft => 26,
            UnifiedExpressions::JawOpen => 27,
            UnifiedExpressions::JawRight => 28,
            UnifiedExpressions::JawLeft => 29,
            UnifiedExpressions::JawForward => 30,
            UnifiedExpressions::JawBackward => 31,
            UnifiedExpressions::JawClench => 32,
            UnifiedExpressions::JawMandibleRaise => 33,
            UnifiedExpressions::MouthClosed => 34,
            UnifiedExpressions::LipSuckUpperRight => 35,
            UnifiedExpressions::LipSuckUpperLeft => 36,
            UnifiedExpressions::LipSuckLowerRight => 37,
            UnifiedExpressions::LipSuckLowerLeft => 38,
            UnifiedExpressions::LipSuckCornerRight => 39,
            UnifiedExpressions::LipSuckCornerLeft => 40,
            UnifiedExpressions::LipFunnelUpperRight => 41,
            UnifiedExpressions::LipFunnelUpperLeft => 42,
            UnifiedExpressions::LipFunnelLowerRight => 43,
            UnifiedExpressions::LipFunnelLowerLeft => 44,
            UnifiedExpressions::LipPuckerUpperRight => 45,
            UnifiedExpressions::LipPuckerUpperLeft => 46,
            UnifiedExpressions::LipPuckerLowerRight => 47,
            UnifiedExpressions::LipPuckerLowerLeft => 48,
            UnifiedExpressions::MouthUpperUpRight => 49,
            UnifiedExpressions::MouthUpperUpLeft => 50,
            UnifiedExpressions::MouthUpperDeepenRight => 51,
            UnifiedExpressions::MouthUpperDeepenLeft => 52,
            UnifiedExpressions::NoseSneerRight => 53,
            UnifiedExpressions::NoseSneerLeft => 54,
            UnifiedExpressions::MouthLowerDownRight => 55,
            UnifiedExpressions::MouthLowerDownLeft => 56,
            UnifiedExpressions::MouthUpperRight => 57,
            UnifiedExpressions::MouthUpperLeft => 58,
            UnifiedExpressions::MouthLowerRight => 59,
            UnifiedExpressions::MouthLowerLeft => 60,
            UnifiedExpressions::MouthCornerPullRight => 61,
            UnifiedExpressions::MouthCornerPullLeft => 62,
            UnifiedExpressions::MouthCornerSlantRight => 63,
            UnifiedExpressions::MouthCornerSlantLeft => 64,
            UnifiedExpressions::MouthFrownRight => 65,
            UnifiedExpressions::MouthFrownLeft => 66,
            UnifiedExpressions::MouthStretchRight => 67,
            UnifiedExpressions::MouthStretchLeft => 68,
            UnifiedExpressions::MouthDimpleRight => 69,
            UnifiedExpressions::MouthDimpleLeft => 70,
            UnifiedExpressions::MouthRaiserUpper => 71,
            UnifiedExpressions::MouthRaiserLower => 72,
            UnifiedExpressions::MouthPressRight => 73,
            UnifiedExpressions::MouthPressLeft => 74,
            UnifiedExpressions::MouthTightenerRight => 75,
            UnifiedExpressions::MouthTightenerLeft => 76,
            UnifiedExpressions::TongueOut => 77,
            UnifiedExpressions::TongueUp => 78,
            UnifiedExpressions::TongueDown => 79,
            UnifiedExpressions::TongueRight => 80,
            UnifiedExpressions::TongueLeft => 81,
            UnifiedExpressions::TongueRoll => 82,
            UnifiedExpressions::TongueBendDown => 83,
            UnifiedExpressions::TongueCurlUp => 84,
            UnifiedExpressions::TongueSquish => 85,
            UnifiedExpressions::TongueFlat => 86,
            UnifiedExpressions::TongueTwistRight => 87,
            UnifiedExpressions::TongueTwistLeft => 88,
        }
    }

    /// Position of the channel in the flat channel vector.
    #[verifier::when_used_as_spec(spec_index)]
    pub fn index(self) -> (i: usize)
        ensures
            i == self.spec_index(),
            i < UNIFIED_COUNT,
    {
        match self {
            UnifiedExpressions::EyeLeftX => 0,
            UnifiedExpressions::EyeRightX => 1,
            UnifiedExpressions::EyeY => 2,
            UnifiedExpressions::EyeClosedRight => 3,
            UnifiedExpressions::EyeClosedLeft => 4,
            UnifiedExpressions::EyeSquintRight => 5,
            UnifiedExpressions::EyeSquintLeft => 6,
            UnifiedExpressions::EyeWideRight => 7,
            UnifiedExpressions::EyeWideLeft => 8,
            UnifiedExpressions::BrowPinchRight => 9,
            UnifiedExpressions::BrowPinchLeft => 10,
            UnifiedExpressions::BrowLowererRight => 11,
            UnifiedExpressions::BrowLowererLeft => 12,
            UnifiedExpressions::BrowInnerUpRight => 13,
            UnifiedExpressions::BrowInnerUpLeft => 14,
            UnifiedExpressions::BrowOuterUpRight => 15,
            UnifiedExpressions::BrowOuterUpLeft => 16,
            UnifiedExpressions::NasalDilationRight => 17,
            UnifiedExpressions::NasalDilationLeft => 18,
            UnifiedExpressions::NasalConstrictRight => 19,
            UnifiedExpressions::NasalConstrictLeft => 20,
            UnifiedExpressions::CheekSquintRight => 21,
            UnifiedExpressions::CheekSquintLeft => 22,
            UnifiedExpressions::CheekPuffRight => 23,
            UnifiedExpressions::CheekPuffLeft => 24,
            UnifiedExpressions::CheekSuckRight => 25,
            UnifiedExpressions::CheekSuckLeft => 26,
            UnifiedExpressions::JawOpen => 27,
            UnifiedExpressions::JawRight => 28,
            UnifiedExpressions::JawLeft => 29,
            UnifiedExpressions::JawForward => 30,
            UnifiedExpressions::JawBackward => 31,
            UnifiedExpressions::JawClench => 32,
            UnifiedExpressions::JawMandibleRaise => 33,
            UnifiedExpressions::MouthClosed => 34,
            UnifiedExpressions::LipSuckUpperRight => 35,
            UnifiedExpressions::LipSuckUpperLeft => 36,
            UnifiedExpressions::LipSuckLowerRight => 37,
            UnifiedExpressions::LipSuckLowerLeft => 38,
            UnifiedExpressions::LipSuckCornerRight => 39,
            UnifiedExpressions::LipSuckCornerLeft => 40,
            UnifiedExpressions::LipFunnelUpperRight => 41,
            UnifiedExpressions::LipFunnelUpperLeft => 42,
            UnifiedExpressions::LipFunnelLowerRight => 43,
            UnifiedExpressions::LipFunnelLowerLeft => 44,
            UnifiedExpressions::LipPuckerUpperRight => 45,
            UnifiedExpressions::LipPuckerUpperLeft => 46,
            UnifiedExpressions::LipPuckerLowerRight => 47,
            UnifiedExpressions::LipPuckerLowerLeft => 48,
            UnifiedExpressions::MouthUpperUpRight => 49,
            UnifiedExpressions::MouthUpperUpLeft => 50,
            UnifiedExpressions::MouthUpperDeepenRight => 51,
            UnifiedExpressions::MouthUpperDeepenLeft => 52,
            UnifiedExpressions::NoseSneerRight => 53,
            UnifiedExpressions::NoseSneerLeft => 54,
            UnifiedExpressions::MouthLowerDownRight => 55,
            UnifiedExpressions::MouthLowerDownLeft => 56,
            UnifiedExpressions::MouthUpperRight => 57,
            UnifiedExpressions::MouthUpperLeft => 58,
            UnifiedExpressions::MouthLowerRight => 59,
            UnifiedExpressions::MouthLowerLeft => 60,
            UnifiedExpressions::MouthCornerPullRight => 61,
            UnifiedExpressions::MouthCornerPullLeft => 62,
            UnifiedExpressions::MouthCornerSlantRight => 63,
            UnifiedExpressions::MouthCornerSlantLeft => 64,
            UnifiedExpressions::MouthFrownRight => 65,
            UnifiedExpressions::MouthFrownLeft => 66,
            UnifiedExpressions::MouthStretchRight => 67,
            UnifiedExpressions::MouthStretchLeft => 68,
            UnifiedExpressions::MouthDimpleRight => 69,
            UnifiedExpressions::MouthDimpleLeft => 70,
            UnifiedExpressions::MouthRaiserUpper => 71,
            UnifiedExpressions::MouthRaiserLower => 72,
            UnifiedExpressions::MouthPressRight => 73,
            UnifiedExpressions::MouthPressLeft => 74,
            UnifiedExpressions::MouthTightenerRight => 75,
            UnifiedExpressions::MouthTightenerLeft => 76,
            UnifiedExpressions::TongueOut => 77,
            UnifiedExpressions::TongueUp => 78,
            UnifiedExpressions::TongueDown => 79,
            UnifiedExpressions::TongueRight => 80,
            UnifiedExpressions::TongueLeft => 81,
            UnifiedExpressions::TongueRoll => 82,
            UnifiedExpressions::TongueBendDown => 83,
            UnifiedExpressions::TongueCurlUp => 84,
            UnifiedExpressions::TongueSquish => 85,
            UnifiedExpressions::TongueFlat => 86,
            UnifiedExpressions::TongueTwistRight => 87,
            UnifiedExpressions::TongueTwistLeft => 88,
        }
    }

    /// The channel stored at position `i`, if that position belongs to this family.
    pub fn from_index(i: usize) -> (r: Option<Self>)
        ensures
            r is Some <==> i < UNIFIED_COUNT,
            r matches Some(e) ==> e.spec_index() == i,
    {
        match i {
            0 => Some(UnifiedExpressions::EyeLeftX),
            1 => Some(UnifiedExpressions::EyeRightX),
            2 => Some(UnifiedExpressions::EyeY),
            3 => Some(UnifiedExpressions::EyeClosedRight),
            4 => Some(UnifiedExpressions::EyeClosedLeft),
            5 => Some(UnifiedExpressions::EyeSquintRight),
            6 => Some(UnifiedExpressions::EyeSquintLeft),
            7 => Some(UnifiedExpressions::EyeWideRight),
            8 => Some(UnifiedExpressions::EyeWideLeft),
            9 => Some(UnifiedExpressions::BrowPinchRight),
            10 => Some(UnifiedExpressions::BrowPinchLeft),
            11 => Some(UnifiedExpressions::BrowLowererRight),
            12 => Some(UnifiedExpressions::BrowLowererLeft),
            13 => Some(UnifiedExpressions::BrowInnerUpRight),
            14 => Some(UnifiedExpressions::BrowInnerUpLeft),
            15 => Some(UnifiedExpressions::BrowOuterUpRight),
            16 => Some(UnifiedExpressions::BrowOuterUpLeft),
            17 => Some(UnifiedExpressions::NasalDilationRight),
            18 => Some(UnifiedExpressions::NasalDilationLeft),
            19 => Some(UnifiedExpressions::NasalConstrictRight),
            20 => Some(UnifiedExpressions::NasalConstrictLeft),
            21 => Some(UnifiedExpressions::CheekSquintRight),
            22 => Some(UnifiedExpressions::CheekSquintLeft),
            23 => Some(UnifiedExpressions::CheekPuffRight),
            24 => Some(UnifiedExpressions::CheekPuffLeft),
            25 => Some(UnifiedExpressions::CheekSuckRight),
            26 => Some(UnifiedExpressions::CheekSuckLeft),
            27 => Some(UnifiedExpressions::JawOpen),
            28 => Some(UnifiedExpressions::JawRight),
            29 => Some(UnifiedExpressions::JawLeft),
            30 => Some(UnifiedExpressions::JawForward),
            31 => Some(UnifiedExpressions::JawBackward),
            32 => Some(UnifiedExpressions::JawClench),
            33 => Some(UnifiedExpressions::JawMandibleRaise),
            34 => Some(UnifiedExpressions::MouthClosed),
            35 => Some(UnifiedExpressions::LipSuckUpperRight),
            36 => Some(UnifiedExpressions::LipSuckUpperLeft),
            37 => Some(UnifiedExpressions::LipSuckLowerRight),
            38 => Some(UnifiedExpressions::LipSuckLowerLeft),
            39 => Some(UnifiedExpressions::LipSuckCornerRight),
            40 => Some(UnifiedExpressions::LipSuckCornerLeft),
            41 => Some(UnifiedExpressions::LipFunnelUpperRight),
            42 => Some(UnifiedExpressions::LipFunnelUpperLeft),
            43 => Some(UnifiedExpressions::LipFunnelLowerRight),
            44 => Some(UnifiedExpressions::LipFunnelLowerLeft),
            45 => Some(UnifiedExpressions::LipPuckerUpperRight),
            46 => Some(UnifiedExpressions::LipPuckerUpperLeft),
            47 => Some(UnifiedExpressions::LipPuckerLowerRight),
            48 => Some(UnifiedExpressions::LipPuckerLowerLeft),
            49 => Some(UnifiedExpressions::MouthUpperUpRight),
            50 => Some(UnifiedExpressions::MouthUpperUpLeft),
            51 => Some(UnifiedExpressions::MouthUpperDeepenRight),
            52 => Some(UnifiedExpressions::MouthUpperDeepenLeft),
            53 => Some(UnifiedExpressions::NoseSneerRight),
            54 => Some(UnifiedExpressions::NoseSneerLeft),
            55 => Some(UnifiedExpressions::MouthLowerDownRight),
            56 => Some(UnifiedExpressions::MouthLowerDownLeft),
            57 => Some(UnifiedExpressions::MouthUpperRight),
            58 => Some(UnifiedExpressions::MouthUpperLeft),
            59 => Some(UnifiedExpressions::MouthLowerRight),
            60 => Some(UnifiedExpressions::MouthLowerLeft),
            61 => Some(UnifiedExpressions::MouthCornerPullRight),
            62 => Some(UnifiedExpressions::MouthCornerPullLeft),
            63 => Some(UnifiedExpressions::MouthCornerSlantRight),
            64 => Some(UnifiedExpressions::MouthCornerSlantLeft),
            65 => Some(UnifiedExpressions::MouthFrownRight),
            66 => Some(UnifiedExpressions::MouthFrownLeft),
            67 => Some(UnifiedExpressions::MouthStretchRight),
            68 => Some(UnifiedExpressions::MouthStretchLeft),
            69 => Some(UnifiedExpressions::MouthDimpleRight),
            70 => Some(UnifiedExpressions::MouthDimpleLeft),
            71 => Some(UnifiedExpressions::MouthRaiserUpper),
            72 => Some(UnifiedExpressions::MouthRaiserLower),
            73 => Some(UnifiedExpressions::MouthPressRight),
            74 => Some(UnifiedExpressions::MouthPressLeft),
            75 => Some(UnifiedExpressions::MouthTightenerRight),
            76 => Some(UnifiedExpressions::MouthTightenerLeft),
            77 => Some(UnifiedExpressions::TongueOut),
            78 => Some(UnifiedExpressions::TongueUp),
            79 => Some(UnifiedExpressions::TongueDown),
            80 => Some(UnifiedExpressions::TongueRight),
            81 => Some(UnifiedExpressions::TongueLeft),
            82 => Some(UnifiedExpressions::TongueRoll),
            83 => Some(UnifiedExpressions::TongueBendDown),
            84 => Some(UnifiedExpressions::TongueCurlUp),
            85 => Some(UnifiedExpressions::TongueSquish),
            86 => Some(UnifiedExpressions::TongueFlat),
            87 => Some(UnifiedExpressions::TongueTwistRight),
            88 => Some(UnifiedExpressions::TongueTwistLeft),
            _ => None,
        }
    }

    /// Two channels at the same position are the same channel.
    pub proof fn lemma_index_injective(a: Self, b: Self)
        requires
            a.spec_index() == b.spec_index(),
        ensures
            a == b,
    {
    }
}

/// Channels computed from the unified ones once per tick.
#[derive(Clone, Copy, Debug, PartialEq, Eq, Structural)]
pub enum CombinedExpression {
    EyeLidLeft,
    EyeLidRight,
    EyeLid,
    EyeSquint,
    JawX,
    JawZ,
    BrowDownLeft,
    BrowDownRight,
    BrowOuterUp,
    BrowInnerUp,
    BrowUp,
    BrowExpressionLeft,
    BrowExpressionRight,
    BrowExpression,
    MouthX,
    MouthUpperX,
    MouthLowerX,
    MouthUpperUp,
    MouthLowerDown,
    MouthOpen,
    MouthSmileLeft,
    MouthSmileRight,
    MouthSadLeft,
    MouthSadRight,
    MouthStretchTightenLeft,
    MouthStretchTightenRight,
    MouthStretch,
    MouthTightener,
    MouthDimple,
    MouthPress,
    SmileFrownLeft,
    SmileFrownRight,
    SmileFrown,
    SmileSadLeft,
    SmileSadRight,
    SmileSad,
    LipSuckUpper,
    LipSuckLower,
    LipSuck,
    LipFunnelUpper,
    LipFunnelLower,
    LipFunnel,
    LipPuckerUpper,
    LipPuckerLower,
    LipPucker,
    NoseSneer,
    CheekPuffSuckLeft,
    CheekPuffSuckRight,
    CheekPuffSuck,
    CheekSquint,
    EarLeft,
    EarRight,
    Blush,
}

impl CombinedExpression {
    /// Position of the channel in the flat channel vector.
    pub open spec fn spec_index(self) -> usize {
        match self {
            CombinedExpression::EyeLidLeft => 89,
            CombinedExpression::EyeLidRight => 90,
            CombinedExpression::EyeLid => 91,
            CombinedExpression::EyeSquint => 92,
            CombinedExpression::JawX => 93,
            CombinedExpression::JawZ => 94,
            CombinedExpression::BrowDownLeft => 95,
            CombinedExpression::BrowDownRight => 96,
            CombinedExpression::BrowOuterUp => 97,
            CombinedExpression::BrowInnerUp => 98,
            CombinedExpression::BrowUp => 99,
            CombinedExpression::BrowExpressionLeft => 100,
            CombinedExpression::BrowExpressionRight => 101,
            CombinedExpression::BrowExpression => 102,
            CombinedExpression::MouthX => 103,
            CombinedExpression::MouthUpperX => 104,
            CombinedExpression::MouthLowerX => 105,
            CombinedExpression::MouthUpperUp => 106,
            CombinedExpression::MouthLowerDown => 107,
            CombinedExpression::MouthOpen => 108,
            CombinedExpression::MouthSmileLeft => 109,
            CombinedExpression::MouthSmileRight => 110,
            CombinedExpression::MouthSadLeft => 111,
            CombinedExpression::MouthSadRight => 112,
            CombinedExpression::MouthStretchTightenLeft => 113,
            CombinedExpression::MouthStretchTightenRight => 114,
            CombinedExpression::MouthStretch => 115,
            CombinedExpression::MouthTightener => 116,
            CombinedExpression::MouthDimple => 117,
            CombinedExpression::MouthPress => 118,
            CombinedExpression::SmileFrownLeft => 119,
            CombinedExpression::SmileFrownRight => 120,
            CombinedExpression::SmileFrown => 121,
            CombinedExpression::SmileSadLeft => 122,
            CombinedExpression::SmileSadRight => 123,
            CombinedExpression::SmileSad => 124,
            CombinedExpression::LipSuckUpper => 125,
            CombinedExpression::LipSuckLower => 126,
            CombinedExpression::LipSuck => 127,
            CombinedExpression::LipFunnelUpper => 128,
            CombinedExpression::LipFunnelLower => 129,
            CombinedExpression::LipFunnel => 130,
            CombinedExpression::LipPuckerUpper => 131,
            CombinedExpression::LipPuckerLower => 132,
            CombinedExpression::LipPucker => 133,
            CombinedExpression::NoseSneer => 134,
            CombinedExpression::CheekPuffSuckLeft => 135,
            CombinedExpression::CheekPuffSuckRight => 136,
            CombinedExpression::CheekPuffSuck => 137,
            CombinedExpression::CheekSquint => 138,
            CombinedExpression::EarLeft => 139,
            CombinedExpression::EarRight => 140,
            CombinedExpression::Blush => 141,
        }
    }

    /// Position of the channel in the flat channel vector.
    #[verifier::when_used_as_spec(spec_index)]
    pub fn index(self) -> (i: usize)
        ensures
            i == self.spec_index(),
            UNIFIED_COUNT <= i < NUM_SHAPES,
    {
        match self {
            CombinedExpression::EyeLidLeft => 89,
            CombinedExpression::EyeLidRight => 90,
            CombinedExpression::EyeLid => 91,
            CombinedExpression::EyeSquint => 92,
            CombinedExpression::JawX => 93,
            CombinedExpression::JawZ => 94,
            CombinedExpression::BrowDownLeft => 95,
            CombinedExpression::BrowDownRight => 96,
            CombinedExpression::BrowOuterUp => 97,
            CombinedExpression::BrowInnerUp => 98,
            CombinedExpression::BrowUp => 99,
            CombinedExpression::BrowExpressionLeft => 100,
            CombinedExpression::BrowExpressionRight => 101,
            CombinedExpression::BrowExpression => 102,
            CombinedExpression::MouthX => 103,
            CombinedExpression::MouthUpperX => 104,
            CombinedExpression::MouthLowerX => 105,
            CombinedExpression::MouthUpperUp => 106,
            CombinedExpression::MouthLowerDown => 107,
            CombinedExpression::MouthOpen => 108,
            CombinedExpression::MouthSmileLeft => 109,
            CombinedExpression::MouthSmileRight => 110,
            CombinedExpression::MouthSadLeft => 111,
            CombinedExpression::MouthSadRight => 112,
            CombinedExpression::MouthStretchTightenLeft => 113,
            CombinedExpression::MouthStretchTightenRight => 114,
            CombinedExpression::MouthStretch => 115,
            CombinedExpression::MouthTightener => 116,
            CombinedExpression::MouthDimple => 117,
            CombinedExpression::MouthPress => 118,
            CombinedExpression::SmileFrownLeft => 119,
            CombinedExpression::SmileFrownRight => 120,
            CombinedExpression::SmileFrown => 121,
            CombinedExpression::SmileSadLeft => 122,
            CombinedExpression::SmileSadRight => 123,
            CombinedExpression::SmileSad => 124,
            CombinedExpression::LipSuckUpper => 125,
            CombinedExpression::LipSuckLower => 126,
            CombinedExpression::LipSuck => 127,
            CombinedExpression::LipFunnelUpper => 128,
            CombinedExpression::LipFunnelLower => 129,
            CombinedExpression::LipFunnel => 130,
            CombinedExpression::LipPuckerUpper => 131,
            CombinedExpression::LipPuckerLower => 132,
            CombinedExpression::LipPucker => 133,
            CombinedExpression::NoseSneer => 134,
            CombinedExpression::CheekPuffSuckLeft => 135,
            CombinedExpression::CheekPuffSuckRight => 136,
            CombinedExpression::CheekPuffSuck => 137,
            CombinedExpression::CheekSquint => 138,
            CombinedExpression::EarLeft => 139,
            CombinedExpression::EarRight => 140,
            CombinedExpression::Blush => 141,
        }
    }

    /// The channel stored at position `i`, if that position belongs to this family.
    pub fn from_index(i: usize) -> (r: Option<Self>)
        ensures
            r is Some <==> UNIFIED_COUNT <= i < NUM_SHAPES,
            r matches Some(e) ==> e.spec_index() == i,
    {
        match i {
            89 => Some(CombinedExpression::EyeLidLeft),
            90 => Some(CombinedExpression::EyeLidRight),
            91 => Some(CombinedExpression::EyeLid),
            92 => Some(CombinedExpression::EyeSquint),
            93 => Some(CombinedExpression::JawX),
            94 => Some(CombinedExpression::JawZ),
            95 => Some(CombinedExpression::BrowDownLeft),
            96 => Some(CombinedExpression::BrowDownRight),
            97 => Some(CombinedExpression::BrowOuterUp),
            98 => Some(CombinedExpression::BrowInnerUp),
            99 => Some(CombinedExpression::BrowUp),
            100 => Some(CombinedExpression::BrowExpressionLeft),
            101 => Some(CombinedExpression::BrowExpressionRight),
            102 => Some(CombinedExpression::BrowExpression),
            103 => Some(CombinedExpression::MouthX),
            104 => Some(CombinedExpression::MouthUpperX),
            105 => Some(CombinedExpression::MouthLowerX),
            106 => Some(CombinedExpression::MouthUpperUp),
            107 => Some(CombinedExpression::MouthLowerDown),
            108 => Some(CombinedExpression::MouthOpen),
            109 => Some(CombinedExpression::MouthSmileLeft),
            110 => Some(CombinedExpression::MouthSmileRight),
            111 => Some(CombinedExpression::MouthSadLeft),
            112 => Some(CombinedExpression::MouthSadRight),
            113 => Some(CombinedExpression::MouthStretchTightenLeft),
            114 => Some(CombinedExpression::MouthStretchTightenRight),
            115 => Some(CombinedExpression::MouthStretch),
            116 => Some(CombinedExpression::MouthTightener),
            117 => Some(CombinedExpression::MouthDimple),
            118 => Some(CombinedExpression::MouthPress),
            119 => Some(CombinedExpression::SmileFrownLeft),
            120 => Some(CombinedExpression::SmileFrownRight),
            121 => Some(CombinedExpression::SmileFrown),
            122 => Some(CombinedExpression::SmileSadLeft),
            123 => Some(CombinedExpression::SmileSadRight),
            124 => Some(CombinedExpression::SmileSad),
            125 => Some(CombinedExpression::LipSuckUpper),
            126 => Some(CombinedExpression::LipSuckLower),
            127 => Some(CombinedExpression::LipSuck),
            128 => Some(CombinedExpression::LipFunnelUpper),
            129 => Some(CombinedExpression::LipFunnelLower),
            130 => Some(CombinedExpression::LipFunnel),
            131 => Some(CombinedExpression::LipPuckerUpper),
            132 => Some(CombinedExpression::LipPuckerLower),
            133 => Some(CombinedExpression::LipPucker),
            134 => Some(CombinedExpression::NoseSneer),
            135 => Some(CombinedExpression::CheekPuffSuckLeft),
            136 => Some(CombinedExpression::CheekPuffSuckRight),
            137 => Some(CombinedExpression::CheekPuffSuck),
            138 => Some(CombinedExpression::CheekSquint),
            139 => Some(CombinedExpression::EarLeft),
            140 => Some(CombinedExpression::EarRight),
            141 => Some(CombinedExpression::Blush),
            _ => None,
        }
    }

    /// Two channels at the same position are the same channel.
    pub proof fn lemma_index_injective(a: Self, b: Self)
        requires
            a.spec_index() == b.spec_index(),
        ensures
            a == b,
    {
    }
}

} // verus!
