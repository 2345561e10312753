use vstd::prelude::*;
use crate::blend::{
    balance_clamped, blush_step, difference, half_balance, lid_position, mean, mean4, mean_less,
    weighted,
};
use crate::expressions::{CombinedExpression, UnifiedExpressions, NUM_SHAPES, UNIFIED_COUNT};
use crate::bundle::{
    parameter_message, single, AvatarBundle, OscMessageView, OscValue, OscValueView,
};
use crate::discovery::{table_view, table_wf, TableView};
use crate::encoder::{MysteryParam, SEND_THRESHOLD};
use crate::level::Level;
use crate::params::AvatarParameters;

verus! {

/// The flat vector of channel values.
pub type UnifiedShapes = [Level; NUM_SHAPES];

/// A direction as three Euler angles, in fixed-point radians.
#[derive(Clone, Copy, Debug, PartialEq, Eq, Structural)]
pub struct Euler {
    pub x: Level,
    pub y: Level,
    pub z: Level,
}

/// Where something is and which way it faces: a rotation quaternion
/// (x, y, z, w) and a position (x, y, z), all in fixed point.
#[derive(Clone, Copy, Debug, PartialEq, Eq)]
pub struct Posef {
    pub orientation: [Level; 4],
    pub position: [Level; 3],
}

/// The pose of each eye, where one is known.
#[derive(Clone, Copy, Debug, PartialEq, Eq)]
pub struct UnifiedEyeData {
    pub left: Option<Posef>,
    pub right: Option<Posef>,
}

/// Parameter that marks a blush asked for by the face.
pub const BLUSH_FACE: &'static str = "BlushFace";

/// Parameter that marks a blush asked for by a tap on the nose.
pub const BLUSH_NADE: &'static str = "BlushNade";

/// A blush parameter counts as set above a tenth.
pub const BLUSH_PARAM_THRESHOLD: Level = 100_000;

/// The left eye looking further down than this many radians starts a blush.
pub const BLUSH_GAZE_THRESHOLD: Level = 250_000;

/// The canonical state: every channel, the gaze of both eyes, and what was last sent.
#[derive(Clone, Debug, PartialEq, Eq)]
pub struct UnifiedTrackingData {
    pub eyes: [Option<Euler>; 2],
    pub shapes: UnifiedShapes,
    pub old_shapes: Option<UnifiedShapes>,
    pub expression_tracking: bool,
    pub lip_tracking: bool,
}

/// The value of the unified channel `e` in the channel vector `u`.
pub open spec fn unified(u: Seq<Level>, e: UnifiedExpressions) -> Level {
    u[e.spec_index() as int]
}

/// The value that the combined channel `c` takes from the unified channels of
/// `u`. Every sum and every product by a coefficient is exact; the result is
/// rounded down once, when it is stored, and a channel that builds on another
/// combined channel reads that stored value. Three channels have no formula
/// here and keep what `u` holds: the blush, which has a memory, and the two
/// lip pucker halves.
pub open spec fn derived(u: Seq<Level>, c: CombinedExpression) -> Level {
    let eye_lid_left = lid_position(
                           unified(u, UnifiedExpressions::EyeClosedLeft),
                           unified(u, UnifiedExpressions::EyeWideLeft),
                       );
    let eye_lid_right = lid_position(
                            unified(u, UnifiedExpressions::EyeClosedRight),
                            unified(u, UnifiedExpressions::EyeWideRight),
                        );
    let brow_down_left = weighted(
                             unified(u, UnifiedExpressions::BrowLowererLeft),
                             unified(u, UnifiedExpressions::BrowPinchLeft),
                         );
    let brow_down_right = weighted(
                              unified(u, UnifiedExpressions::BrowLowererRight),
                              unified(u, UnifiedExpressions::BrowPinchRight),
                          );
    let brow_outer_up = mean(
                            unified(u, UnifiedExpressions::BrowOuterUpLeft),
                            unified(u, UnifiedExpressions::BrowOuterUpRight),
                        );
    let brow_inner_up = mean(
                            unified(u, UnifiedExpressions::BrowInnerUpLeft),
                            unified(u, UnifiedExpressions::BrowInnerUpRight),
                        );
    let brow_expression_left = mean_less(
                                   unified(u, UnifiedExpressions::BrowInnerUpLeft),
                                   unified(u, UnifiedExpressions::BrowOuterUpLeft),
                                   brow_down_left,
                               );
    let brow_expression_right = mean_less(
                                    unified(u, UnifiedExpressions::BrowInnerUpRight),
                                    unified(u, UnifiedExpressions::BrowOuterUpRight),
                                    brow_down_right,
                                );
    let mouth_smile_left = weighted(
                               unified(u, UnifiedExpressions::MouthCornerPullLeft),
                               unified(u, UnifiedExpressions::MouthCornerSlantLeft),
                           );
    let mouth_smile_right = weighted(
                                unified(u, UnifiedExpressions::MouthCornerPullRight),
                                unified(u, UnifiedExpressions::MouthCornerSlantRight),
                            );
    let mouth_sad_left = weighted(
                             unified(u, UnifiedExpressions::MouthFrownLeft),
                             unified(u, UnifiedExpressions::MouthStretchLeft),
                         );
    let mouth_sad_right = weighted(
                              unified(u, UnifiedExpressions::MouthFrownRight),
                              unified(u, UnifiedExpressions::MouthStretchRight),
                          );
    let mouth_upper_up = mean(
                             unified(u, UnifiedExpressions::MouthUpperUpLeft),
                             unified(u, UnifiedExpressions::MouthUpperUpRight),
                         );
    let mouth_lower_down = mean(
                               unified(u, UnifiedExpressions::MouthLowerDownLeft),
                               unified(u, UnifiedExpressions::MouthLowerDownRight),
                           );
    let lip_funnel_upper = mean(
                               unified(u, UnifiedExpressions::LipFunnelUpperLeft),
                               unified(u, UnifiedExpressions::LipFunnelUpperRight),
                           );
    let lip_funnel_lower = mean(
                               unified(u, UnifiedExpressions::LipFunnelLowerLeft),
                               unified(u, UnifiedExpressions::LipFunnelLowerRight),
                           );
    match c {
        CombinedExpression::EyeLidLeft => eye_lid_left,
        CombinedExpression::EyeLidRight => eye_lid_right,
        CombinedExpression::EyeLid => mean(eye_lid_left, eye_lid_right),
        CombinedExpression::EyeSquint => mean(
            unified(u, UnifiedExpressions::EyeSquintLeft),
            unified(u, UnifiedExpressions::EyeSquintRight),
        ),
        CombinedExpression::JawX => difference(
            unified(u, UnifiedExpressions::JawRight),
            unified(u, UnifiedExpressions::JawLeft),
        ),
        CombinedExpression::JawZ => difference(
            unified(u, UnifiedExpressions::JawForward),
            unified(u, UnifiedExpressions::JawBackward),
        ),
        CombinedExpression::BrowDownLeft => brow_down_left,
        CombinedExpression::BrowDownRight => brow_down_right,
        CombinedExpression::BrowOuterUp => brow_outer_up,
        CombinedExpression::BrowInnerUp => brow_inner_up,
        CombinedExpression::BrowUp => mean(brow_outer_up, brow_inner_up),
        CombinedExpression::BrowExpressionLeft => brow_expression_left,
        CombinedExpression::BrowExpressionRight => brow_expression_right,
        CombinedExpression::BrowExpression => mean(brow_expression_left, brow_expression_right),
        CombinedExpression::MouthX => half_balance(
            unified(u, UnifiedExpressions::MouthUpperRight),
            unified(u, UnifiedExpressions::MouthLowerRight),
            unified(u, UnifiedExpressions::MouthUpperLeft),
            unified(u, UnifiedExpressions::MouthLowerLeft),
        ),
        CombinedExpression::MouthUpperX => difference(
            unified(u, UnifiedExpressions::MouthUpperRight),
            unified(u, UnifiedExpressions::MouthUpperLeft),
        ),
        CombinedExpression::MouthLowerX => difference(
            unified(u, UnifiedExpressions::MouthLowerRight),
            unified(u, UnifiedExpressions::MouthLowerLeft),
        ),
        CombinedExpression::MouthUpperUp => mouth_upper_up,
        CombinedExpression::MouthLowerDown => mouth_lower_down,
        CombinedExpression::MouthOpen => mean(mouth_upper_up, mouth_lower_down),
        CombinedExpression::MouthSmileLeft => mouth_smile_left,
        CombinedExpression::MouthSmileRight => mouth_smile_right,
        CombinedExpression::MouthSadLeft => mouth_sad_left,
        CombinedExpression::MouthSadRight => mouth_sad_right,
        CombinedExpression::MouthStretchTightenLeft => difference(
            unified(u, UnifiedExpressions::MouthStretchLeft),
            unified(u, UnifiedExpressions::MouthTightenerLeft),
        ),
        CombinedExpression::MouthStretchTightenRight => difference(
            unified(u, UnifiedExpressions::MouthStretchRight),
            unified(u, UnifiedExpressions::MouthTightenerRight),
        ),
        CombinedExpression::MouthStretch => mean(
            unified(u, UnifiedExpressions::MouthStretchLeft),
            unified(u, UnifiedExpressions::MouthStretchRight),
        ),
        CombinedExpression::MouthTightener => mean(
            unified(u, UnifiedExpressions::MouthTightenerLeft),
            unified(u, UnifiedExpressions::MouthTightenerRight),
        ),
        CombinedExpression::MouthDimple => mean(
            unified(u, UnifiedExpressions::MouthDimpleLeft),
            unified(u, UnifiedExpressions::MouthDimpleRight),
        ),
        CombinedExpression::MouthPress => mean(
            unified(u, UnifiedExpressions::MouthPressLeft),
            unified(u, UnifiedExpressions::MouthPressRight),
        ),
        CombinedExpression::SmileFrownLeft => difference(mouth_smile_left, unified(u, UnifiedExpressions::MouthFrownLeft)),
        CombinedExpression::SmileFrownRight => difference(mouth_smile_right, unified(u, UnifiedExpressions::MouthFrownRight)),
        CombinedExpression::SmileFrown => half_balance(
            mouth_smile_left,
            mouth_smile_right,
            unified(u, UnifiedExpressions::MouthFrownLeft),
            unified(u, UnifiedExpressions::MouthFrownRight),
        ),
        CombinedExpression::SmileSadLeft => difference(mouth_smile_left, mouth_sad_left),
        CombinedExpression::SmileSadRight => difference(mouth_smile_right, mouth_sad_right),
        CombinedExpression::SmileSad => half_balance(mouth_smile_left, mouth_smile_right, mouth_sad_left, mouth_sad_right),
        CombinedExpression::LipSuckUpper => mean(
            unified(u, UnifiedExpressions::LipSuckUpperLeft),
            unified(u, UnifiedExpressions::LipSuckUpperRight),
        ),
        CombinedExpression::LipSuckLower => mean(
            unified(u, UnifiedExpressions::LipSuckLowerLeft),
            unified(u, UnifiedExpressions::LipSuckLowerRight),
        ),
        CombinedExpression::LipSuck => mean4(
            unified(u, UnifiedExpressions::LipSuckLowerLeft),
            unified(u, UnifiedExpressions::LipSuckLowerRight),
            unified(u, UnifiedExpressions::LipSuckUpperLeft),
            unified(u, UnifiedExpressions::LipSuckUpperRight),
        ),
        CombinedExpression::LipFunnelUpper => lip_funnel_upper,
        CombinedExpression::LipFunnelLower => lip_funnel_lower,
        CombinedExpression::LipFunnel => mean(lip_funnel_upper, lip_funnel_lower),
        CombinedExpression::LipPuckerUpper => u[c.spec_index() as int],
        CombinedExpression::LipPuckerLower => u[c.spec_index() as int],
        CombinedExpression::LipPucker => mean4(
            unified(u, UnifiedExpressions::LipPuckerLowerLeft),
            unified(u, UnifiedExpressions::LipPuckerUpperLeft),
            unified(u, UnifiedExpressions::LipPuckerLowerRight),
            unified(u, UnifiedExpressions::LipPuckerUpperRight),
        ),
        CombinedExpression::NoseSneer => mean(
            unified(u, UnifiedExpressions::NoseSneerLeft),
            unified(u, UnifiedExpressions::NoseSneerRight),
        ),
        CombinedExpression::CheekPuffSuckLeft => difference(
            unified(u, UnifiedExpressions::CheekPuffLeft),
            unified(u, UnifiedExpressions::CheekSuckLeft),
        ),
        CombinedExpression::CheekPuffSuckRight => difference(
            unified(u, UnifiedExpressions::CheekPuffRight),
            unified(u, UnifiedExpressions::CheekSuckRight),
        ),
        CombinedExpression::CheekPuffSuck => half_balance(
            unified(u, UnifiedExpressions::CheekPuffLeft),
            unified(u, UnifiedExpressions::CheekPuffRight),
            unified(u, UnifiedExpressions::CheekSuckLeft),
            unified(u, UnifiedExpressions::CheekSuckRight),
        ),
        CombinedExpression::CheekSquint => mean(
            unified(u, UnifiedExpressions::CheekSquintLeft),
            unified(u, UnifiedExpressions::CheekSquintRight),
        ),
        CombinedExpression::EarLeft => balance_clamped(
            unified(u, UnifiedExpressions::BrowInnerUpLeft),
            unified(u, UnifiedExpressions::EyeWideLeft),
            unified(u, UnifiedExpressions::EyeSquintLeft),
            unified(u, UnifiedExpressions::BrowPinchLeft),
        ),
        CombinedExpression::EarRight => balance_clamped(
            unified(u, UnifiedExpressions::BrowInnerUpLeft),
            unified(u, UnifiedExpressions::EyeWideRight),
            unified(u, UnifiedExpressions::EyeSquintRight),
            unified(u, UnifiedExpressions::BrowPinchRight),
        ),
        CombinedExpression::Blush => u[c.spec_index() as int],
    }
}

/// The value that one tick gives the combined channel `c`.
pub open spec fn step_value(
    before: Seq<Level>,
    c: CombinedExpression,
    rising: bool,
    delta_t: u32,
) -> Level {
    if c == CombinedExpression::Blush {
        blush_step(before[c.spec_index() as int], rising, delta_t)
    } else {
        derived(before, c)
    }
}

/// Computes the value that the combined channel `c` takes from the unified
/// channels of `shapes`.
pub fn derive_channel(shapes: &UnifiedShapes, c: CombinedExpression) -> (r: Level)
    ensures
        r == derived(shapes@, c),
    decreases c.spec_index(),
{
    match c {
        CombinedExpression::EyeLidLeft => lid_position(
            shapes[UnifiedExpressions::EyeClosedLeft.index()],
            shapes[UnifiedExpressions::EyeWideLeft.index()],
        ),
        CombinedExpression::EyeLidRight => lid_position(
            shapes[UnifiedExpressions::EyeClosedRight.index()],
            shapes[UnifiedExpressions::EyeWideRight.index()],
        ),
        CombinedExpression::EyeLid => mean(
            derive_channel(shapes, CombinedExpression::EyeLidLeft),
            derive_channel(shapes, CombinedExpression::EyeLidRight),
        ),
        CombinedExpression::EyeSquint => mean(
            shapes[UnifiedExpressions::EyeSquintLeft.index()],
            shapes[UnifiedExpressions::EyeSquintRight.index()],
        ),
        CombinedExpression::JawX => difference(
            shapes[UnifiedExpressions::JawRight.index()],
            shapes[UnifiedExpressions::JawLeft.index()],
        ),
        CombinedExpression::JawZ => difference(
            shapes[UnifiedExpressions::JawForward.index()],
            shapes[UnifiedExpressions::JawBackward.index()],
        ),
        CombinedExpression::BrowDownLeft => weighted(
            shapes[UnifiedExpressions::BrowLowererLeft.index()],
            shapes[UnifiedExpressions::BrowPinchLeft.index()],
        ),
        CombinedExpression::BrowDownRight => weighted(
            shapes[UnifiedExpressions::BrowLowererRight.index()],
            shapes[UnifiedExpressions::BrowPinchRight.index()],
        ),
        CombinedExpression::BrowOuterUp => mean(
            shapes[UnifiedExpressions::BrowOuterUpLeft.index()],
            shapes[UnifiedExpressions::BrowOuterUpRight.index()],
        ),
        CombinedExpression::BrowInnerUp => mean(
            shapes[UnifiedExpressions::BrowInnerUpLeft.index()],
            shapes[UnifiedExpressions::BrowInnerUpRight.index()],
        ),
        CombinedExpression::BrowUp => mean(
            derive_channel(shapes, CombinedExpression::BrowOuterUp),
            derive_channel(shapes, CombinedExpression::BrowInnerUp),
        ),
        CombinedExpression::BrowExpressionLeft => mean_less(
            shapes[UnifiedExpressions::BrowInnerUpLeft.index()],
            shapes[UnifiedExpressions::BrowOuterUpLeft.index()],
            derive_channel(shapes, CombinedExpression::BrowDownLeft),
        ),
        CombinedExpression::BrowExpressionRight => mean_less(
            shapes[UnifiedExpressions::BrowInnerUpRight.index()],
            shapes[UnifiedExpressions::BrowOuterUpRight.index()],
            derive_channel(shapes, CombinedExpression::BrowDownRight),
        ),
        CombinedExpression::BrowExpression => mean(
            derive_channel(shapes, CombinedExpression::BrowExpressionLeft),
            derive_channel(shapes, CombinedExpression::BrowExpressionRight),
        ),
        CombinedExpression::MouthX => half_balance(
            shapes[UnifiedExpressions::MouthUpperRight.index()],
            shapes[UnifiedExpressions::MouthLowerRight.index()],
            shapes[UnifiedExpressions::MouthUpperLeft.index()],
            shapes[UnifiedExpressions::MouthLowerLeft.index()],
        ),
        CombinedExpression::MouthUpperX => difference(
            shapes[UnifiedExpressions::MouthUpperRight.index()],
            shapes[UnifiedExpressions::MouthUpperLeft.index()],
        ),
        CombinedExpression::MouthLowerX => difference(
            shapes[UnifiedExpressions::MouthLowerRight.index()],
            shapes[UnifiedExpressions::MouthLowerLeft.index()],
        ),
        CombinedExpression::MouthUpperUp => mean(
            shapes[UnifiedExpressions::MouthUpperUpLeft.index()],
            shapes[UnifiedExpressions::MouthUpperUpRight.index()],
        ),
        CombinedExpression::MouthLowerDown => mean(
            shapes[UnifiedExpressions::MouthLowerDownLeft.index()],
            shapes[UnifiedExpressions::MouthLowerDownRight.index()],
        ),
        CombinedExpression::MouthOpen => mean(
            derive_channel(shapes, CombinedExpression::MouthUpperUp),
            derive_channel(shapes, CombinedExpression::MouthLowerDown),
        ),
        CombinedExpression::MouthSmileLeft => weighted(
            shapes[UnifiedExpressions::MouthCornerPullLeft.index()],
            shapes[UnifiedExpressions::MouthCornerSlantLeft.index()],
        ),
        CombinedExpression::MouthSmileRight => weighted(
            shapes[UnifiedExpressions::MouthCornerPullRight.index()],
            shapes[UnifiedExpressions::MouthCornerSlantRight.index()],
        ),
        CombinedExpression::MouthSadLeft => weighted(
            shapes[UnifiedExpressions::MouthFrownLeft.index()],
            shapes[UnifiedExpressions::MouthStretchLeft.index()],
        ),
        CombinedExpression::MouthSadRight => weighted(
            shapes[UnifiedExpressions::MouthFrownRight.index()],
            shapes[UnifiedExpressions::MouthStretchRight.index()],
        ),
        CombinedExpression::MouthStretchTightenLeft => difference(
            shapes[UnifiedExpressions::MouthStretchLeft.index()],
            shapes[UnifiedExpressions::MouthTightenerLeft.index()],
        ),
        CombinedExpression::MouthStretchTightenRight => difference(
            shapes[UnifiedExpressions::MouthStretchRight.index()],
            shapes[UnifiedExpressions::MouthTightenerRight.index()],
        ),
        CombinedExpression::MouthStretch => mean(
            shapes[UnifiedExpressions::MouthStretchLeft.index()],
            shapes[UnifiedExpressions::MouthStretchRight.index()],
        ),
        CombinedExpression::MouthTightener => mean(
            shapes[UnifiedExpressions::MouthTightenerLeft.index()],
            shapes[UnifiedExpressions::MouthTightenerRight.index()],
        ),
        CombinedExpression::MouthDimple => mean(
            shapes[UnifiedExpressions::MouthDimpleLeft.index()],
            shapes[UnifiedExpressions::MouthDimpleRight.index()],
        ),
        CombinedExpression::MouthPress => mean(
            shapes[UnifiedExpressions::MouthPressLeft.index()],
            shapes[UnifiedExpressions::MouthPressRight.index()],
        ),
        CombinedExpression::SmileFrownLeft => difference(
            derive_channel(shapes, CombinedExpression::MouthSmileLeft),
            shapes[UnifiedExpressions::MouthFrownLeft.index()],
        ),
        CombinedExpression::SmileFrownRight => difference(
            derive_channel(shapes, CombinedExpression::MouthSmileRight),
            shapes[UnifiedExpressions::MouthFrownRight.index()],
        ),
        CombinedExpression::SmileFrown => half_balance(
            derive_channel(shapes, CombinedExpression::MouthSmileLeft),
            derive_channel(shapes, CombinedExpression::MouthSmileRight),
            shapes[UnifiedExpressions::MouthFrownLeft.index()],
            shapes[UnifiedExpressions::MouthFrownRight.index()],
        ),
        CombinedExpression::SmileSadLeft => difference(
            derive_channel(shapes, CombinedExpression::MouthSmileLeft),
            derive_channel(shapes, CombinedExpression::MouthSadLeft),
        ),
        CombinedExpression::SmileSadRight => difference(
            derive_channel(shapes, CombinedExpression::MouthSmileRight),
            derive_channel(shapes, CombinedExpression::MouthSadRight),
        ),
        CombinedExpression::SmileSad => half_balance(
            derive_channel(shapes, CombinedExpression::MouthSmileLeft),
            derive_channel(shapes, CombinedExpression::MouthSmileRight),
            derive_channel(shapes, CombinedExpression::MouthSadLeft),
            derive_channel(shapes, CombinedExpression::MouthSadRight),
        ),
        CombinedExpression::LipSuckUpper => mean(
            shapes[UnifiedExpressions::LipSuckUpperLeft.index()],
            shapes[UnifiedExpressions::LipSuckUpperRight.index()],
        ),
        CombinedExpression::LipSuckLower => mean(
            shapes[UnifiedExpressions::LipSuckLowerLeft.index()],
            shapes[UnifiedExpressions::LipSuckLowerRight.index()],
        ),
        CombinedExpression::LipSuck => mean4(
            shapes[UnifiedExpressions::LipSuckLowerLeft.index()],
            shapes[UnifiedExpressions::LipSuckLowerRight.index()],
            shapes[UnifiedExpressions::LipSuckUpperLeft.index()],
            shapes[UnifiedExpressions::LipSuckUpperRight.index()],
        ),
        CombinedExpression::LipFunnelUpper => mean(
            shapes[UnifiedExpressions::LipFunnelUpperLeft.index()],
            shapes[UnifiedExpressions::LipFunnelUpperRight.index()],
        ),
        CombinedExpression::LipFunnelLower => mean(
            shapes[UnifiedExpressions::LipFunnelLowerLeft.index()],
            shapes[UnifiedExpressions::LipFunnelLowerRight.index()],
        ),
        CombinedExpression::LipFunnel => mean(
            derive_channel(shapes, CombinedExpression::LipFunnelUpper),
            derive_channel(shapes, CombinedExpression::LipFunnelLower),
        ),
        CombinedExpression::LipPuckerUpper => shapes[c.index()],
        CombinedExpression::LipPuckerLower => shapes[c.index()],
        CombinedExpression::LipPucker => mean4(
            shapes[UnifiedExpressions::LipPuckerLowerLeft.index()],
            shapes[UnifiedExpressions::LipPuckerUpperLeft.index()],
            shapes[UnifiedExpressions::LipPuckerLowerRight.index()],
            shapes[UnifiedExpressions::LipPuckerUpperRight.index()],
        ),
        CombinedExpression::NoseSneer => mean(
            shapes[UnifiedExpressions::NoseSneerLeft.index()],
            shapes[UnifiedExpressions::NoseSneerRight.index()],
        ),
        CombinedExpression::CheekPuffSuckLeft => difference(
            shapes[UnifiedExpressions::CheekPuffLeft.index()],
            shapes[UnifiedExpressions::CheekSuckLeft.index()],
        ),
        CombinedExpression::CheekPuffSuckRight => difference(
            shapes[UnifiedExpressions::CheekPuffRight.index()],
            shapes[UnifiedExpressions::CheekSuckRight.index()],
        ),
        CombinedExpression::CheekPuffSuck => half_balance(
            shapes[UnifiedExpressions::CheekPuffLeft.index()],
            shapes[UnifiedExpressions::CheekPuffRight.index()],
            shapes[UnifiedExpressions::CheekSuckLeft.index()],
            shapes[UnifiedExpressions::CheekSuckRight.index()],
        ),
        CombinedExpression::CheekSquint => mean(
            shapes[UnifiedExpressions::CheekSquintLeft.index()],
            shapes[UnifiedExpressions::CheekSquintRight.index()],
        ),
        CombinedExpression::EarLeft => balance_clamped(
            shapes[UnifiedExpressions::BrowInnerUpLeft.index()],
            shapes[UnifiedExpressions::EyeWideLeft.index()],
            shapes[UnifiedExpressions::EyeSquintLeft.index()],
            shapes[UnifiedExpressions::BrowPinchLeft.index()],
        ),
        CombinedExpression::EarRight => balance_clamped(
            shapes[UnifiedExpressions::BrowInnerUpLeft.index()],
            shapes[UnifiedExpressions::EyeWideRight.index()],
            shapes[UnifiedExpressions::EyeSquintRight.index()],
            shapes[UnifiedExpressions::BrowPinchRight.index()],
        ),
        CombinedExpression::Blush => shapes[c.index()],
    }
}

/// Whether the blush climbs this tick: the face asks for it, a tap on the
/// nose asks for it, or the left eye looks down far enough.
pub open spec fn blush_rising(params: &AvatarParameters, eyes: [Option<Euler>; 2]) -> bool {
    ||| params.spec_get(BLUSH_FACE@) matches Some(crate::bundle::OscValueView::Float(x)) && x
        > BLUSH_PARAM_THRESHOLD
    ||| params.spec_get(BLUSH_NADE@) matches Some(crate::bundle::OscValueView::Float(x)) && x
        > BLUSH_PARAM_THRESHOLD
    ||| eyes@[0] matches Some(e) && e.y > BLUSH_GAZE_THRESHOLD
}

/// `after` is what the derivation step makes of `before`: the unified
/// channels are untouched, the blush has moved by one step, and every other
/// combined channel holds its derived value.
pub open spec fn is_derivation(
    before: Seq<Level>,
    after: Seq<Level>,
    rising: bool,
    delta_t: u32,
) -> bool {
    &&& before.len() == NUM_SHAPES
    &&& after.len() == NUM_SHAPES
    &&& forall|i: int| 0 <= i < UNIFIED_COUNT ==> after[i] == before[i]
    &&& forall|c: CombinedExpression| #[trigger]
        after[c.spec_index() as int] == step_value(before, c, rising, delta_t)
}

/// Deriving again with no ingestion in between leaves every combined channel
/// but the blush as the first derivation left it; the unified channels are
/// not touched at all, and when no time has passed the blush stays too.
pub proof fn lemma_derivation_idempotent(
    start: Seq<Level>,
    once: Seq<Level>,
    twice: Seq<Level>,
    rising_first: bool,
    delta_first: u32,
    rising_second: bool,
    delta_second: u32,
)
    requires
        is_derivation(start, once, rising_first, delta_first),
        is_derivation(once, twice, rising_second, delta_second),
    ensures
        forall|i: int| 0 <= i < UNIFIED_COUNT ==> twice[i] == once[i],
        forall|c: CombinedExpression|
            c != CombinedExpression::Blush ==> twice[#[trigger] c.spec_index() as int]
                == once[c.spec_index() as int],
        delta_second == 0 ==> twice[CombinedExpression::Blush.spec_index() as int]
            == once[CombinedExpression::Blush.spec_index() as int],
{
    assert forall|c: CombinedExpression| c != CombinedExpression::Blush implies twice[
        #[trigger] c.spec_index() as int] == once[c.spec_index() as int] by {
        assert(derived(once, c) == derived(start, c));
        assert(twice[c.spec_index() as int] == step_value(once, c, rising_second, delta_second));
        assert(once[c.spec_index() as int] == step_value(start, c, rising_first, delta_first));
    }
    let blush = CombinedExpression::Blush;
    assert(once[blush.spec_index() as int] == step_value(start, blush, rising_first, delta_first));
    assert(twice[blush.spec_index() as int] == step_value(once, blush, rising_second, delta_second));
}

/// Parameter that tells the avatar that expressions are tracked.
pub const EXPRESSION_TRACKING_ACTIVE: &'static str = "ExpressionTrackingActive";

/// Parameter that tells the avatar that the lips are tracked.
pub const LIP_TRACKING_ACTIVE: &'static str = "LipTrackingActive";

/// Address for how far the eyes are closed.
pub const EYES_CLOSED_ADDRESS: &'static str = "/tracking/eye/EyesClosedAmount";

/// Address for the pitch and yaw of both eyes.
pub const EYES_PITCH_YAW_ADDRESS: &'static str = "/tracking/eye/LeftRightPitchYaw";

/// The angle turned the other way round; the one level without a positive
/// counterpart goes to the largest level.
pub open spec fn spec_negated(x: Level) -> Level {
    if x == i32::MIN {
        i32::MAX
    } else {
        (-x) as Level
    }
}

/// The angle turned the other way round.
#[verifier::when_used_as_spec(spec_negated)]
pub fn negated(x: Level) -> (r: Level)
    ensures
        r == spec_negated(x),
{
    if x == i32::MIN {
        i32::MAX
    } else {
        -x
    }
}

/// The messages that switch tracking on in the avatar, for what was not
/// switched on before.
pub open spec fn activation_messages(expression_tracking: bool, lip_tracking: bool) -> Seq<
    OscMessageView,
> {
    let first = if expression_tracking {
        Seq::<OscMessageView>::empty()
    } else {
        seq![parameter_message(EXPRESSION_TRACKING_ACTIVE@, OscValueView::Bool(true))]
    };
    if lip_tracking {
        first
    } else {
        first.push(parameter_message(LIP_TRACKING_ACTIVE@, OscValueView::Bool(true)))
    }
}

/// What the channels below `upto` put on the wire, in the order of the
/// channel vector: each channel with a descriptor sends its value.
pub open spec fn channel_messages(table: TableView, shapes: Seq<Level>, upto: int) -> Seq<
    OscMessageView,
>
    decreases upto,
{
    if upto <= 0 {
        Seq::empty()
    } else {
        let rest = channel_messages(table, shapes, upto - 1);
        match table[upto - 1] {
            Some(p) => rest + p.sent_messages(shapes[upto - 1]),
            None => rest,
        }
    }
}

/// The table after every channel below `upto` sent its value.
pub open spec fn table_after(table: TableView, shapes: Seq<Level>, upto: int) -> TableView {
    Seq::new(
        table.len(),
        |i: int|
            match table[i] {
                Some(p) => if i < upto {
                    Some(p.sent_state(shapes[i]))
                } else {
                    Some(p)
                },
                None => None,
            },
    )
}

/// The messages about the eyes: nothing while the left gaze is unknown.
/// Else, where the left eyelid has no descriptor, how far the left eye is
/// closed; then pitch and yaw of both eyes, mirrored, the left gaze
/// standing in for a right one that is unknown.
pub open spec fn eye_messages(
    eyes: [Option<Euler>; 2],
    lid_described: bool,
    closed_left: Level,
) -> Seq<OscMessageView> {
    match eyes@[0] {
        None => Seq::empty(),
        Some(left) => {
            let right = match eyes@[1] {
                Some(r) => r,
                None => left,
            };
            let gaze = OscMessageView {
                addr: EYES_PITCH_YAW_ADDRESS@,
                args: seq![
                    OscValueView::Degrees(negated(left.x)),
                    OscValueView::Degrees(negated(left.y)),
                    OscValueView::Degrees(negated(right.x)),
                    OscValueView::Degrees(negated(right.y)),
                ],
            };
            if lid_described {
                seq![gaze]
            } else {
                seq![single(EYES_CLOSED_ADDRESS@, OscValueView::Float(closed_left)), gaze]
            }
        },
    }
}

/// The positions below `upto` at which `now` is more than a hundredth away from `then`.
pub open spec fn moved_positions(now: Seq<Level>, then: Seq<Level>, upto: int) -> Seq<usize>
    decreases upto,
{
    if upto <= 0 {
        Seq::empty()
    } else {
        let rest = moved_positions(now, then, upto - 1);
        if now[upto - 1] - then[upto - 1] > SEND_THRESHOLD || then[upto - 1] - now[upto - 1]
            > SEND_THRESHOLD {
            rest.push((upto - 1) as usize)
        } else {
            rest
        }
    }
}

impl UnifiedTrackingData {
    /// Every channel at rest, no gaze known, nothing sent yet.
    pub fn new() -> (d: UnifiedTrackingData)
        ensures
            forall|i: int| 0 <= i < NUM_SHAPES ==> d.shapes@[i] == 0,
            d.eyes@[0] is None,
            d.eyes@[1] is None,
            d.old_shapes is None,
            !d.expression_tracking,
            !d.lip_tracking,
    {
        UnifiedTrackingData {
            eyes: [None, None],
            shapes: [0; NUM_SHAPES],
            old_shapes: None,
            expression_tracking: false,
            lip_tracking: false,
        }
    }

    /// The value of a unified channel.
    pub fn getu(&self, exp: UnifiedExpressions) -> (v: Level)
        ensures
            v == self.shapes@[exp.spec_index() as int],
    {
        self.shapes[exp.index()]
    }

    /// The value of a combined channel.
    pub fn getc(&self, exp: CombinedExpression) -> (v: Level)
        ensures
            v == self.shapes@[exp.spec_index() as int],
    {
        self.shapes[exp.index()]
    }

    /// Sets a unified channel and leaves the rest alone.
    pub fn setu(&mut self, exp: UnifiedExpressions, value: Level)
        ensures
            final(self).shapes@ == old(self).shapes@.update(exp.spec_index() as int, value),
            final(self).eyes == old(self).eyes,
            final(self).old_shapes == old(self).old_shapes,
            final(self).expression_tracking == old(self).expression_tracking,
            final(self).lip_tracking == old(self).lip_tracking,
    {
        self.shapes[exp.index()] = value;
    }

    /// Sets a combined channel and leaves the rest alone.
    pub fn setc(&mut self, exp: CombinedExpression, value: Level)
        ensures
            final(self).shapes@ == old(self).shapes@.update(exp.spec_index() as int, value),
            final(self).eyes == old(self).eyes,
            final(self).old_shapes == old(self).old_shapes,
            final(self).expression_tracking == old(self).expression_tracking,
            final(self).lip_tracking == old(self).lip_tracking,
    {
        self.shapes[exp.index()] = value;
    }

    /// Whether the blush climbs this tick.
    pub fn blush_trigger(&self, params: &AvatarParameters) -> (r: bool)
        ensures
            r == blush_rising(params, self.eyes),
    {
        let by_eye = match self.eyes[0] {
            Some(e) => e.y > BLUSH_GAZE_THRESHOLD,
            None => false,
        };
        params.float_above(BLUSH_FACE, BLUSH_PARAM_THRESHOLD) || params.float_above(
            BLUSH_NADE,
            BLUSH_PARAM_THRESHOLD,
        ) || by_eye
    }

    /// Overwrites the combined channels with what the unified channels give,
    /// and moves the blush by `delta_t` microseconds.
    pub fn derive_channels(&mut self, rising: bool, delta_t: u32)
        ensures
            is_derivation(old(self).shapes@, final(self).shapes@, rising, delta_t),
            final(self).eyes == old(self).eyes,
            final(self).old_shapes == old(self).old_shapes,
            final(self).expression_tracking == old(self).expression_tracking,
            final(self).lip_tracking == old(self).lip_tracking,
    {
        let before: UnifiedShapes = self.shapes;
        let mut i: usize = UNIFIED_COUNT;
        while i < NUM_SHAPES
            invariant
                UNIFIED_COUNT <= i <= NUM_SHAPES,
                before@ == old(self).shapes@,
                self.eyes == old(self).eyes,
                self.old_shapes == old(self).old_shapes,
                self.expression_tracking == old(self).expression_tracking,
                self.lip_tracking == old(self).lip_tracking,
                forall|j: int| 0 <= j < UNIFIED_COUNT ==> self.shapes@[j] == before@[j],
                forall|c: CombinedExpression| #[trigger]
                    c.spec_index() < i ==> self.shapes@[c.spec_index() as int] == step_value(
                        before@,
                        c,
                        rising,
                        delta_t,
                    ),
            decreases NUM_SHAPES - i,
        {
            if let Some(c) = CombinedExpression::from_index(i) {
                let value: Level = match c {
                    CombinedExpression::Blush => blush_step(before[i], rising, delta_t),
                    _ => derive_channel(&before, c),
                };
                self.shapes[i] = value;
                proof {
                    assert forall|d: CombinedExpression| #[trigger]
                        d.spec_index() < i + 1 implies self.shapes@[d.spec_index() as int]
                        == step_value(before@, d, rising, delta_t) by {
                        if d.spec_index() == i {
                            CombinedExpression::lemma_index_injective(c, d);
                        }
                    }
                }
            }
            i += 1;
        }
    }

    /// The derivation step of one tick: reads the blush inputs from the avatar
    /// parameters and the left eye, then recomputes every combined channel;
    /// `delta_t` is the time since the last tick in microseconds.
    pub fn calc_combined(&mut self, params: &AvatarParameters, delta_t: u32)
        ensures
            is_derivation(
                old(self).shapes@,
                final(self).shapes@,
                blush_rising(params, old(self).eyes),
                delta_t,
            ),
            final(self).eyes == old(self).eyes,
            final(self).old_shapes == old(self).old_shapes,
            final(self).expression_tracking == old(self).expression_tracking,
            final(self).lip_tracking == old(self).lip_tracking,
    {
        let rising = self.blush_trigger(params);
        self.derive_channels(rising, delta_t);
    }

    /// The channels that moved by more than a hundredth since the last
    /// send, in rising order; every channel where nothing was sent yet.
    pub fn dirty_shapes(&self) -> (dirty: Vec<usize>)
        ensures
            match self.old_shapes {
                Some(then) => dirty@ == moved_positions(self.shapes@, then@, NUM_SHAPES as int),
                None => dirty@ == Seq::new(NUM_SHAPES as nat, |i: int| i as usize),
            },
    {
        let mut dirty: Vec<usize> = Vec::new();
        let mut i: usize = 0;
        match &self.old_shapes {
            Some(then) => {
                while i < NUM_SHAPES
                    invariant
                        i <= NUM_SHAPES,
                        dirty@ == moved_positions(self.shapes@, then@, i as int),
                    decreases NUM_SHAPES - i,
                {
                    let delta: i64 = self.shapes[i] as i64 - then[i] as i64;
                    if delta > 10_000 || delta < -10_000 {
                        dirty.push(i);
                    }
                    i += 1;
                }
            },
            None => {
                while i < NUM_SHAPES
                    invariant
                        i <= NUM_SHAPES,
                        dirty@ == Seq::new(i as nat, |j: int| j as usize),
                    decreases NUM_SHAPES - i,
                {
                    dirty.push(i);
                    i += 1;
                    assert(dirty@ =~= Seq::new(i as nat, |j: int| j as usize));
                }
            },
        }
        dirty
    }

    /// Encodes the state for the wire: switches tracking on in the avatar
    /// where that was not done yet, sends every channel that has a
    /// descriptor, and then the eyes.
    pub fn apply_to_bundle(
        &mut self,
        params: &mut Vec<Option<MysteryParam>>,
        bundle: &mut AvatarBundle,
    )
        requires
            table_wf(table_view(old(params)@)),
        ensures
            final(bundle)@ == old(bundle)@ + activation_messages(
                old(self).expression_tracking,
                old(self).lip_tracking,
            ) + channel_messages(
                table_view(old(params)@),
                old(self).shapes@,
                NUM_SHAPES as int,
            ) + eye_messages(
                old(self).eyes,
                table_view(old(params)@)[CombinedExpression::EyeLidLeft.spec_index() as int]
                    is Some,
                old(self).shapes@[UnifiedExpressions::EyeClosedLeft.spec_index() as int],
            ),
            table_view(final(params)@) == table_after(
                table_view(old(params)@),
                old(self).shapes@,
                NUM_SHAPES as int,
            ),
            table_wf(table_view(final(params)@)),
            final(self).shapes == old(self).shapes,
            final(self).eyes == old(self).eyes,
            final(self).old_shapes == Some(old(self).shapes),
            final(self).expression_tracking,
            final(self).lip_tracking,
    {
        let ghost out = bundle@;
        let ghost table = table_view(params@);
        if !self.expression_tracking {
            bundle.send_parameter(EXPRESSION_TRACKING_ACTIVE, OscValue::Bool(true));
            self.expression_tracking = true;
        }
        if !self.lip_tracking {
            bundle.send_parameter(LIP_TRACKING_ACTIVE, OscValue::Bool(true));
            self.lip_tracking = true;
        }
        let ghost started = out + activation_messages(
            old(self).expression_tracking,
            old(self).lip_tracking,
        );
        assert(bundle@ =~= started);
        let mut idx: usize = 0;
        assert(table_view(params@) =~= table_after(table, self.shapes@, 0));
        while idx < NUM_SHAPES
            invariant
                idx <= NUM_SHAPES,
                self.shapes == old(self).shapes,
                table == table_view(old(params)@),
                table_wf(table),
                params@.len() == NUM_SHAPES,
                table_view(params@) == table_after(table, self.shapes@, idx as int),
                bundle@ == started + channel_messages(table, self.shapes@, idx as int),
            decreases NUM_SHAPES - idx,
        {
            let ghost so_far = bundle@;
            let ghost prev = params@;
            let value: Level = self.shapes[idx];
            assert(table_view(params@)[idx as int] == table[idx as int]);
            assert(table[idx as int] matches Some(q) ==> q.wf());
            if let Some(mut param) = params[idx].take() {
                param.send(value, bundle);
                params[idx] = Some(param);
            }
            idx += 1;
            proof {
                let now = table_view(params@);
                let want = table_after(table, self.shapes@, idx as int);
                assert(now.len() == want.len());
                assert forall|i: int| 0 <= i < now.len() implies now[i] == want[i] by {
                    if i != idx - 1 {
                        assert(params@[i] == prev[i]);
                        assert(table_view(prev)[i] == table_after(
                            table,
                            self.shapes@,
                            idx - 1,
                        )[i]);
                    }
                }
                assert(table_view(params@) =~= table_after(table, self.shapes@, idx as int));
                assert(bundle@ =~= started + channel_messages(table, self.shapes@, idx as int));
            }
        }
        self.old_shapes = Some(self.shapes);
        let ghost sent = bundle@;
        proof {
            assert forall|i: int| 0 <= i < NUM_SHAPES implies (#[trigger] table_view(params@)[i]
                matches Some(p) ==> p.wf()) by {
                if table[i] is Some {
                    assert(table[i]->0.wf());
                }
            }
        }
        if let Some(left) = self.eyes[0] {
            assert(table_view(params@)[CombinedExpression::EyeLidLeft.spec_index() as int]
                is None <==> table[CombinedExpression::EyeLidLeft.spec_index() as int] is None);
            if params[CombinedExpression::EyeLidLeft.index()].is_none() {
                let closed_left: Level = self.getu(UnifiedExpressions::EyeClosedLeft);
                let mut closed: Vec<OscValue> = Vec::new();
                closed.push(OscValue::Float(closed_left));
                assert(crate::bundle::values_view(closed@) =~= seq![
                    OscValueView::Float(closed_left),
                ]);
                bundle.send_tracking(EYES_CLOSED_ADDRESS, closed);
            }
            let right = match self.eyes[1] {
                Some(r) => r,
                None => left,
            };
            let mut gaze: Vec<OscValue> = Vec::new();
            gaze.push(OscValue::Degrees(negated(left.x)));
            gaze.push(OscValue::Degrees(negated(left.y)));
            gaze.push(OscValue::Degrees(negated(right.x)));
            gaze.push(OscValue::Degrees(negated(right.y)));
            assert(crate::bundle::values_view(gaze@) =~= seq![
                OscValueView::Degrees(negated(left.x)),
                OscValueView::Degrees(negated(left.y)),
                OscValueView::Degrees(negated(right.x)),
                OscValueView::Degrees(negated(right.y)),
            ]);
            bundle.send_tracking(EYES_PITCH_YAW_ADDRESS, gaze);
        }
        proof {
            let eye = eye_messages(
                old(self).eyes,
                table[CombinedExpression::EyeLidLeft.spec_index() as int] is Some,
                old(self).shapes@[UnifiedExpressions::EyeClosedLeft.spec_index() as int],
            );
            assert(bundle@ =~= sent + eye);
        }
    }
}

} // verus!
