use vstd::prelude::*;
use crate::expressions::UnifiedExpressions;
use crate::level::Level;
use crate::receiver::TrackingEvent;
use crate::text::str_eq;

verus! {

/// The channels that a value heard at `addr` goes to, in order: several
/// where one signal drives more than one channel, none for an address that
/// is not known.
pub open spec fn addr_to_unified(addr: Seq<char>) -> Seq<UnifiedExpressions> {
    if addr == "/cheekPuffLeft"@ {
        seq![UnifiedExpressions::CheekPuffLeft]
    } else if addr == "/cheekPuffRight"@ {
        seq![UnifiedExpressions::CheekPuffRight]
    } else if addr == "/cheekSuckLeft"@ {
        seq![UnifiedExpressions::CheekSuckLeft]
    } else if addr == "/cheekSuckRight"@ {
        seq![UnifiedExpressions::CheekSuckRight]
    } else if addr == "/jawOpen"@ {
        seq![UnifiedExpressions::JawOpen]
    } else if addr == "/jawForward"@ {
        seq![UnifiedExpressions::JawForward]
    } else if addr == "/jawLeft"@ {
        seq![UnifiedExpressions::JawLeft]
    } else if addr == "/jawRight"@ {
        seq![UnifiedExpressions::JawRight]
    } else if addr == "/noseSneerLeft"@ {
        seq![UnifiedExpressions::NoseSneerLeft]
    } else if addr == "/noseSneerRight"@ {
        seq![UnifiedExpressions::NoseSneerRight]
    } else if addr == "/mouthFunnel"@ {
        seq![
            UnifiedExpressions::LipFunnelUpperRight,
            UnifiedExpressions::LipFunnelUpperLeft,
            UnifiedExpressions::LipFunnelLowerRight,
            UnifiedExpressions::LipFunnelLowerLeft,
        ]
    } else if addr == "/mouthPucker"@ {
        seq![
            UnifiedExpressions::LipPuckerUpperRight,
            UnifiedExpressions::LipPuckerUpperLeft,
            UnifiedExpressions::LipPuckerLowerRight,
            UnifiedExpressions::LipPuckerLowerLeft,
        ]
    } else if addr == "/mouthLeft"@ {
        seq![UnifiedExpressions::MouthPressLeft]
    } else if addr == "/mouthRight"@ {
        seq![UnifiedExpressions::MouthPressRight]
    } else if addr == "/mouthRollUpper"@ {
        seq![UnifiedExpressions::LipSuckUpperLeft, UnifiedExpressions::LipSuckUpperRight]
    } else if addr == "/mouthRollLower"@ {
        seq![UnifiedExpressions::LipSuckLowerLeft, UnifiedExpressions::LipSuckLowerRight]
    } else if addr == "/mouthShrugUpper"@ {
        seq![UnifiedExpressions::MouthRaiserUpper]
    } else if addr == "/mouthShrugLower"@ {
        seq![UnifiedExpressions::MouthRaiserLower]
    } else if addr == "/mouthClose"@ {
        seq![UnifiedExpressions::MouthClosed]
    } else if addr == "/mouthSmileLeft"@ {
        seq![
            UnifiedExpressions::MouthCornerPullLeft,
            UnifiedExpressions::MouthCornerSlantLeft,
        ]
    } else if addr == "/mouthSmileRight"@ {
        seq![
            UnifiedExpressions::MouthCornerPullRight,
            UnifiedExpressions::MouthCornerSlantRight,
        ]
    } else if addr == "/mouthFrownLeft"@ {
        seq![UnifiedExpressions::MouthFrownLeft, UnifiedExpressions::MouthStretchLeft]
    } else if addr == "/mouthFrownRight"@ {
        seq![UnifiedExpressions::MouthFrownRight, UnifiedExpressions::MouthStretchRight]
    } else if addr == "/mouthDimpleLeft"@ {
        seq![UnifiedExpressions::MouthDimpleLeft]
    } else if addr == "/mouthDimpleRight"@ {
        seq![UnifiedExpressions::MouthDimpleRight]
    } else if addr == "/mouthUpperUpLeft"@ {
        seq![UnifiedExpressions::MouthUpperUpLeft]
    } else if addr == "/mouthUpperUpRight"@ {
        seq![UnifiedExpressions::MouthUpperUpRight]
    } else if addr == "/mouthLowerDownLeft"@ {
        seq![UnifiedExpressions::MouthLowerDownLeft]
    } else if addr == "/mouthLowerDownRight"@ {
        seq![UnifiedExpressions::MouthLowerDownRight]
    } else if addr == "/mouthStretchLeft"@ {
        seq![UnifiedExpressions::MouthStretchLeft]
    } else if addr == "/mouthStretchRight"@ {
        seq![UnifiedExpressions::MouthStretchRight]
    } else if addr == "/tongueOut"@ {
        seq![UnifiedExpressions::TongueOut]
    } else if addr == "/tongueUp"@ {
        seq![UnifiedExpressions::TongueUp]
    } else if addr == "/tongueDown"@ {
        seq![UnifiedExpressions::TongueDown]
    } else if addr == "/tongueLeft"@ {
        seq![UnifiedExpressions::TongueLeft]
    } else if addr == "/tongueRight"@ {
        seq![UnifiedExpressions::TongueRight]
    } else if addr == "/tongueRoll"@ {
        seq![UnifiedExpressions::TongueRoll]
    } else if addr == "/tongueBendDown"@ {
        seq![UnifiedExpressions::TongueBendDown]
    } else if addr == "/tongueCurlUp"@ {
        seq![UnifiedExpressions::TongueCurlUp]
    } else if addr == "/tongueSquish"@ {
        seq![UnifiedExpressions::TongueSquish]
    } else if addr == "/tongueFlat"@ {
        seq![UnifiedExpressions::TongueFlat]
    } else if addr == "/tongueTwistLeft"@ {
        seq![UnifiedExpressions::TongueTwistLeft]
    } else if addr == "/tongueTwistRight"@ {
        seq![UnifiedExpressions::TongueTwistRight]
    } else if addr == "/mouthPressLeft"@ {
        seq![UnifiedExpressions::MouthPressLeft]
    } else if addr == "/mouthPressRight"@ {
        seq![UnifiedExpressions::MouthPressRight]
    } else if addr == "/avatar/parameters/LeftEyeX"@ {
        seq![UnifiedExpressions::EyeLeftX]
    } else if addr == "/avatar/parameters/RightEyeX"@ {
        seq![UnifiedExpressions::EyeRightX]
    } else if addr == "/avatar/parameters/EyesY"@ {
        seq![UnifiedExpressions::EyeY]
    } else if addr == "/avatar/parameters/LeftEyeLid"@ {
        seq![UnifiedExpressions::EyeClosedLeft]
    } else if addr == "/avatar/parameters/RightEyeLid"@ {
        seq![UnifiedExpressions::EyeClosedRight]
    } else if addr == "/avatar/parameters/v2/EyeLeftX"@ {
        seq![UnifiedExpressions::EyeLeftX]
    } else if addr == "/avatar/parameters/v2/EyeRightX"@ {
        seq![UnifiedExpressions::EyeRightX]
    } else if addr == "/avatar/parameters/v2/EyeLeftY"@ {
        seq![UnifiedExpressions::EyeY]
    } else if addr == "/avatar/parameters/v2/EyeLidLeft"@ {
        seq![UnifiedExpressions::EyeClosedLeft]
    } else if addr == "/avatar/parameters/v2/EyeLidRight"@ {
        seq![UnifiedExpressions::EyeClosedRight]
    } else {
        Seq::empty()
    }
}

/// The channels that a value heard at `addr` goes to.
pub fn babble_targets(addr: &str) -> (targets: Vec<UnifiedExpressions>)
    ensures
        targets@ == addr_to_unified(addr@),
{
    if str_eq(addr, "/cheekPuffLeft") {
        vec![UnifiedExpressions::CheekPuffLeft]
    } else if str_eq(addr, "/cheekPuffRight") {
        vec![UnifiedExpressions::CheekPuffRight]
    } else if str_eq(addr, "/cheekSuckLeft") {
        vec![UnifiedExpressions::CheekSuckLeft]
    } else if str_eq(addr, "/cheekSuckRight") {
        vec![UnifiedExpressions::CheekSuckRight]
    } else if str_eq(addr, "/jawOpen") {
        vec![UnifiedExpressions::JawOpen]
    } else if str_eq(addr, "/jawForward") {
        vec![UnifiedExpressions::JawForward]
    } else if str_eq(addr, "/jawLeft") {
        vec![UnifiedExpressions::JawLeft]
    } else if str_eq(addr, "/jawRight") {
        vec![UnifiedExpressions::JawRight]
    } else if str_eq(addr, "/noseSneerLeft") {
        vec![UnifiedExpressions::NoseSneerLeft]
    } else if str_eq(addr, "/noseSneerRight") {
        vec![UnifiedExpressions::NoseSneerRight]
    } else if str_eq(addr, "/mouthFunnel") {
        vec![
            UnifiedExpressions::LipFunnelUpperRight,
            UnifiedExpressions::LipFunnelUpperLeft,
            UnifiedExpressions::LipFunnelLowerRight,
            UnifiedExpressions::LipFunnelLowerLeft,
        ]
    } else if str_eq(addr, "/mouthPucker") {
        vec![
            UnifiedExpressions::LipPuckerUpperRight,
            UnifiedExpressions::LipPuckerUpperLeft,
            UnifiedExpressions::LipPuckerLowerRight,
            UnifiedExpressions::LipPuckerLowerLeft,
        ]
    } else if str_eq(addr, "/mouthLeft") {
        vec![UnifiedExpressions::MouthPressLeft]
    } else if str_eq(addr, "/mouthRight") {
        vec![UnifiedExpressions::MouthPressRight]
    } else if str_eq(addr, "/mouthRollUpper") {
        vec![UnifiedExpressions::LipSuckUpperLeft, UnifiedExpressions::LipSuckUpperRight]
    } else if str_eq(addr, "/mouthRollLower") {
        vec![UnifiedExpressions::LipSuckLowerLeft, UnifiedExpressions::LipSuckLowerRight]
    } else if str_eq(addr, "/mouthShrugUpper") {
        vec![UnifiedExpressions::MouthRaiserUpper]
    } else if str_eq(addr, "/mouthShrugLower") {
        vec![UnifiedExpressions::MouthRaiserLower]
    } else if str_eq(addr, "/mouthClose") {
        vec![UnifiedExpressions::MouthClosed]
    } else if str_eq(addr, "/mouthSmileLeft") {
        vec![
            UnifiedExpressions::MouthCornerPullLeft,
            UnifiedExpressions::MouthCornerSlantLeft,
        ]
    } else if str_eq(addr, "/mouthSmileRight") {
        vec![
            UnifiedExpressions::MouthCornerPullRight,
            UnifiedExpressions::MouthCornerSlantRight,
        ]
    } else if str_eq(addr, "/mouthFrownLeft") {
        vec![UnifiedExpressions::MouthFrownLeft, UnifiedExpressions::MouthStretchLeft]
    } else if str_eq(addr, "/mouthFrownRight") {
        vec![UnifiedExpressions::MouthFrownRight, UnifiedExpressions::MouthStretchRight]
    } else if str_eq(addr, "/mouthDimpleLeft") {
        vec![UnifiedExpressions::MouthDimpleLeft]
    } else if str_eq(addr, "/mouthDimpleRight") {
        vec![UnifiedExpressions::MouthDimpleRight]
    } else if str_eq(addr, "/mouthUpperUpLeft") {
        vec![UnifiedExpressions::MouthUpperUpLeft]
    } else if str_eq(addr, "/mouthUpperUpRight") {
        vec![UnifiedExpressions::MouthUpperUpRight]
    } else if str_eq(addr, "/mouthLowerDownLeft") {
        vec![UnifiedExpressions::MouthLowerDownLeft]
    } else if str_eq(addr, "/mouthLowerDownRight") {
        vec![UnifiedExpressions::MouthLowerDownRight]
    } else if str_eq(addr, "/mouthStretchLeft") {
        vec![UnifiedExpressions::MouthStretchLeft]
    } else if str_eq(addr, "/mouthStretchRight") {
        vec![UnifiedExpressions::MouthStretchRight]
    } else if str_eq(addr, "/tongueOut") {
        vec![UnifiedExpressions::TongueOut]
    } else if str_eq(addr, "/tongueUp") {
        vec![UnifiedExpressions::TongueUp]
    } else if str_eq(addr, "/tongueDown") {
        vec![UnifiedExpressions::TongueDown]
    } else if str_eq(addr, "/tongueLeft") {
        vec![UnifiedExpressions::TongueLeft]
    } else if str_eq(addr, "/tongueRight") {
        vec![UnifiedExpressions::TongueRight]
    } else if str_eq(addr, "/tongueRoll") {
        vec![UnifiedExpressions::TongueRoll]
    } else if str_eq(addr, "/tongueBendDown") {
        vec![UnifiedExpressions::TongueBendDown]
    } else if str_eq(addr, "/tongueCurlUp") {
        vec![UnifiedExpressions::TongueCurlUp]
    } else if str_eq(addr, "/tongueSquish") {
        vec![UnifiedExpressions::TongueSquish]
    } else if str_eq(addr, "/tongueFlat") {
        vec![UnifiedExpressions::TongueFlat]
    } else if str_eq(addr, "/tongueTwistLeft") {
        vec![UnifiedExpressions::TongueTwistLeft]
    } else if str_eq(addr, "/tongueTwistRight") {
        vec![UnifiedExpressions::TongueTwistRight]
    } else if str_eq(addr, "/mouthPressLeft") {
        vec![UnifiedExpressions::MouthPressLeft]
    } else if str_eq(addr, "/mouthPressRight") {
        vec![UnifiedExpressions::MouthPressRight]
    } else if str_eq(addr, "/avatar/parameters/LeftEyeX") {
        vec![UnifiedExpressions::EyeLeftX]
    } else if str_eq(addr, "/avatar/parameters/RightEyeX") {
        vec![UnifiedExpressions::EyeRightX]
    } else if str_eq(addr, "/avatar/parameters/EyesY") {
        vec![UnifiedExpressions::EyeY]
    } else if str_eq(addr, "/avatar/parameters/LeftEyeLid") {
        vec![UnifiedExpressions::EyeClosedLeft]
    } else if str_eq(addr, "/avatar/parameters/RightEyeLid") {
        vec![UnifiedExpressions::EyeClosedRight]
    } else if str_eq(addr, "/avatar/parameters/v2/EyeLeftX") {
        vec![UnifiedExpressions::EyeLeftX]
    } else if str_eq(addr, "/avatar/parameters/v2/EyeRightX") {
        vec![UnifiedExpressions::EyeRightX]
    } else if str_eq(addr, "/avatar/parameters/v2/EyeLeftY") {
        vec![UnifiedExpressions::EyeY]
    } else if str_eq(addr, "/avatar/parameters/v2/EyeLidLeft") {
        vec![UnifiedExpressions::EyeClosedLeft]
    } else if str_eq(addr, "/avatar/parameters/v2/EyeLidRight") {
        vec![UnifiedExpressions::EyeClosedRight]
    } else {
        Vec::new()
    }
}

/// One update for each of `targets`, all with the same value.
pub open spec fn fanned_out(targets: Seq<UnifiedExpressions>, value: Level) -> Seq<TrackingEvent> {
    Seq::new(targets.len(), |i: int| TrackingEvent::Shape(targets[i], value))
}

/// The updates that a value heard at `addr` stands for.
pub fn babble_events(addr: &str, value: Level) -> (events: Vec<TrackingEvent>)
    ensures
        events@ == fanned_out(addr_to_unified(addr@), value),
{
    let targets = babble_targets(addr);
    let mut events: Vec<TrackingEvent> = Vec::new();
    let mut i: usize = 0;
    while i < targets.len()
        invariant
            i <= targets@.len(),
            events@ == fanned_out(targets@.take(i as int), value),
        decreases targets@.len() - i,
    {
        events.push(TrackingEvent::Shape(targets[i], value));
        i += 1;
        assert(events@ =~= fanned_out(targets@.take(i as int), value));
    }
    assert(targets@.take(targets@.len() as int) =~= targets@);
    events
}

/// Whether the channel belongs to the eye tracker: the gaze and the lids
/// do, everything from the brows on belongs to the mouth tracker.
pub fn is_eye_channel(e: UnifiedExpressions) -> (r: bool)
    ensures
        r == (e.spec_index() < UnifiedExpressions::BrowPinchRight.spec_index()),
{
    e.index() < UnifiedExpressions::BrowPinchRight.index()
}

/// The one channel that the mouth tracker's address `addr` stands for in
/// the older scheme, which knew no signal that drives several channels.
pub open spec fn unified_expression_of(addr: Seq<char>) -> Option<UnifiedExpressions> {
    if addr == "/cheekPuffLeft"@ {
        Some(UnifiedExpressions::CheekPuffLeft)
    } else if addr == "/cheekPuffRight"@ {
        Some(UnifiedExpressions::CheekPuffRight)
    } else if addr == "/cheekSuckLeft"@ {
        Some(UnifiedExpressions::CheekSuckLeft)
    } else if addr == "/cheekSuckRight"@ {
        Some(UnifiedExpressions::CheekSuckRight)
    } else if addr == "/jawOpen"@ {
        Some(UnifiedExpressions::JawOpen)
    } else if addr == "/jawForward"@ {
        Some(UnifiedExpressions::JawForward)
    } else if addr == "/jawLeft"@ {
        Some(UnifiedExpressions::JawLeft)
    } else if addr == "/jawRight"@ {
        Some(UnifiedExpressions::JawRight)
    } else if addr == "/noseSneerLeft"@ {
        Some(UnifiedExpressions::NoseSneerLeft)
    } else if addr == "/noseSneerRight"@ {
        Some(UnifiedExpressions::NoseSneerRight)
    } else if addr == "/mouthFunnel"@ {
        Some(UnifiedExpressions::LipFunnelLowerLeft)
    } else if addr == "/mouthPucker"@ {
        Some(UnifiedExpressions::LipPuckerLowerLeft)
    } else if addr == "/mouthLeft"@ {
        Some(UnifiedExpressions::MouthPressLeft)
    } else if addr == "/mouthRight"@ {
        Some(UnifiedExpressions::MouthPressRight)
    } else if addr == "/mouthRollUpper"@ {
        Some(UnifiedExpressions::LipSuckUpperLeft)
    } else if addr == "/mouthRollLower"@ {
        Some(UnifiedExpressions::LipSuckLowerLeft)
    } else if addr == "/mouthShrugUpper"@ {
        Some(UnifiedExpressions::MouthRaiserUpper)
    } else if addr == "/mouthShrugLower"@ {
        Some(UnifiedExpressions::MouthRaiserLower)
    } else if addr == "/mouthClose"@ {
        Some(UnifiedExpressions::MouthClosed)
    } else if addr == "/mouthSmileLeft"@ {
        Some(UnifiedExpressions::MouthCornerPullLeft)
    } else if addr == "/mouthSmileRight"@ {
        Some(UnifiedExpressions::MouthCornerPullRight)
    } else if addr == "/mouthFrownLeft"@ {
        Some(UnifiedExpressions::MouthFrownLeft)
    } else if addr == "/mouthFrownRight"@ {
        Some(UnifiedExpressions::MouthFrownRight)
    } else if addr == "/mouthDimpleLeft"@ {
        Some(UnifiedExpressions::MouthDimpleLeft)
    } else if addr == "/mouthDimpleRight"@ {
        Some(UnifiedExpressions::MouthDimpleRight)
    } else if addr == "/mouthUpperUpLeft"@ {
        Some(UnifiedExpressions::MouthUpperUpLeft)
    } else if addr == "/mouthUpperUpRight"@ {
        Some(UnifiedExpressions::MouthUpperUpRight)
    } else if addr == "/mouthLowerDownLeft"@ {
        Some(UnifiedExpressions::MouthLowerDownLeft)
    } else if addr == "/mouthLowerDownRight"@ {
        Some(UnifiedExpressions::MouthLowerDownRight)
    } else if addr == "/mouthStretchLeft"@ {
        Some(UnifiedExpressions::MouthStretchLeft)
    } else if addr == "/mouthStretchRight"@ {
        Some(UnifiedExpressions::MouthStretchRight)
    } else if addr == "/tongueOut"@ {
        Some(UnifiedExpressions::TongueOut)
    } else if addr == "/tongueUp"@ {
        Some(UnifiedExpressions::TongueUp)
    } else if addr == "/tongueDown"@ {
        Some(UnifiedExpressions::TongueDown)
    } else if addr == "/tongueLeft"@ {
        Some(UnifiedExpressions::TongueLeft)
    } else if addr == "/tongueRight"@ {
        Some(UnifiedExpressions::TongueRight)
    } else if addr == "/tongueRoll"@ {
        Some(UnifiedExpressions::TongueRoll)
    } else if addr == "/tongueBendDown"@ {
        Some(UnifiedExpressions::TongueBendDown)
    } else if addr == "/tongueCurlUp"@ {
        Some(UnifiedExpressions::TongueCurlUp)
    } else if addr == "/tongueSquish"@ {
        Some(UnifiedExpressions::TongueSquish)
    } else if addr == "/tongueFlat"@ {
        Some(UnifiedExpressions::TongueFlat)
    } else if addr == "/tongueTwistLeft"@ {
        Some(UnifiedExpressions::TongueTwistLeft)
    } else if addr == "/tongueTwistRight"@ {
        Some(UnifiedExpressions::TongueTwistRight)
    } else if addr == "/mouthPressLeft"@ {
        Some(UnifiedExpressions::MouthPressLeft)
    } else if addr == "/mouthPressRight"@ {
        Some(UnifiedExpressions::MouthPressRight)
    } else {
        None
    }
}

/// The one channel that the mouth tracker's address stands for in the older scheme.
pub fn get_unified_expression_from_str(addr: String) -> (r: Option<UnifiedExpressions>)
    ensures
        r == unified_expression_of(addr@),
{
    let addr = addr.as_str();
    if str_eq(addr, "/cheekPuffLeft") {
        Some(UnifiedExpressions::CheekPuffLeft)
    } else if str_eq(addr, "/cheekPuffRight") {
        Some(UnifiedExpressions::CheekPuffRight)
    } else if str_eq(addr, "/cheekSuckLeft") {
        Some(UnifiedExpressions::CheekSuckLeft)
    } else if str_eq(addr, "/cheekSuckRight") {
        Some(UnifiedExpressions::CheekSuckRight)
    } else if str_eq(addr, "/jawOpen") {
        Some(UnifiedExpressions::JawOpen)
    } else if str_eq(addr, "/jawForward") {
        Some(UnifiedExpressions::JawForward)
    } else if str_eq(addr, "/jawLeft") {
        Some(UnifiedExpressions::JawLeft)
    } else if str_eq(addr, "/jawRight") {
        Some(UnifiedExpressions::JawRight)
    } else if str_eq(addr, "/noseSneerLeft") {
        Some(UnifiedExpressions::NoseSneerLeft)
    } else if str_eq(addr, "/noseSneerRight") {
        Some(UnifiedExpressions::NoseSneerRight)
    } else if str_eq(addr, "/mouthFunnel") {
        Some(UnifiedExpressions::LipFunnelLowerLeft)
    } else if str_eq(addr, "/mouthPucker") {
        Some(UnifiedExpressions::LipPuckerLowerLeft)
    } else if str_eq(addr, "/mouthLeft") {
        Some(UnifiedExpressions::MouthPressLeft)
    } else if str_eq(addr, "/mouthRight") {
        Some(UnifiedExpressions::MouthPressRight)
    } else if str_eq(addr, "/mouthRollUpper") {
        Some(UnifiedExpressions::LipSuckUpperLeft)
    } else if str_eq(addr, "/mouthRollLower") {
        Some(UnifiedExpressions::LipSuckLowerLeft)
    } else if str_eq(addr, "/mouthShrugUpper") {
        Some(UnifiedExpressions::MouthRaiserUpper)
    } else if str_eq(addr, "/mouthShrugLower") {
        Some(UnifiedExpressions::MouthRaiserLower)
    } else if str_eq(addr, "/mouthClose") {
        Some(UnifiedExpressions::MouthClosed)
    } else if str_eq(addr, "/mouthSmileLeft") {
        Some(UnifiedExpressions::MouthCornerPullLeft)
    } else if str_eq(addr, "/mouthSmileRight") {
        Some(UnifiedExpressions::MouthCornerPullRight)
    } else if str_eq(addr, "/mouthFrownLeft") {
        Some(UnifiedExpressions::MouthFrownLeft)
    } else if str_eq(addr, "/mouthFrownRight") {
        Some(UnifiedExpressions::MouthFrownRight)
    } else if str_eq(addr, "/mouthDimpleLeft") {
        Some(UnifiedExpressions::MouthDimpleLeft)
    } else if str_eq(addr, "/mouthDimpleRight") {
        Some(UnifiedExpressions::MouthDimpleRight)
    } else if str_eq(addr, "/mouthUpperUpLeft") {
        Some(UnifiedExpressions::MouthUpperUpLeft)
    } else if str_eq(addr, "/mouthUpperUpRight") {
        Some(UnifiedExpressions::MouthUpperUpRight)
    } else if str_eq(addr, "/mouthLowerDownLeft") {
        Some(UnifiedExpressions::MouthLowerDownLeft)
    } else if str_eq(addr, "/mouthLowerDownRight") {
        Some(UnifiedExpressions::MouthLowerDownRight)
    } else if str_eq(addr, "/mouthStretchLeft") {
        Some(UnifiedExpressions::MouthStretchLeft)
    } else if str_eq(addr, "/mouthStretchRight") {
        Some(UnifiedExpressions::MouthStretchRight)
    } else if str_eq(addr, "/tongueOut") {
        Some(UnifiedExpressions::TongueOut)
    } else if str_eq(addr, "/tongueUp") {
        Some(UnifiedExpressions::TongueUp)
    } else if str_eq(addr, "/tongueDown") {
        Some(UnifiedExpressions::TongueDown)
    } else if str_eq(addr, "/tongueLeft") {
        Some(UnifiedExpressions::TongueLeft)
    } else if str_eq(addr, "/tongueRight") {
        Some(UnifiedExpressions::TongueRight)
    } else if str_eq(addr, "/tongueRoll") {
        Some(UnifiedExpressions::TongueRoll)
    } else if str_eq(addr, "/tongueBendDown") {
        Some(UnifiedExpressions::TongueBendDown)
    } else if str_eq(addr, "/tongueCurlUp") {
        Some(UnifiedExpressions::TongueCurlUp)
    } else if str_eq(addr, "/tongueSquish") {
        Some(UnifiedExpressions::TongueSquish)
    } else if str_eq(addr, "/tongueFlat") {
        Some(UnifiedExpressions::TongueFlat)
    } else if str_eq(addr, "/tongueTwistLeft") {
        Some(UnifiedExpressions::TongueTwistLeft)
    } else if str_eq(addr, "/tongueTwistRight") {
        Some(UnifiedExpressions::TongueTwistRight)
    } else if str_eq(addr, "/mouthPressLeft") {
        Some(UnifiedExpressions::MouthPressLeft)
    } else if str_eq(addr, "/mouthPressRight") {
        Some(UnifiedExpressions::MouthPressRight)
    } else {
        None
    }
}

} // verus!
