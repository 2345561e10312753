use oscavmgr::blend::{blush_step, lid_position, mean, weighted};
use oscavmgr::bundle::OscValue;
use oscavmgr::expressions::{CombinedExpression, UnifiedExpressions, NUM_SHAPES, UNIFIED_COUNT};
use oscavmgr::params::AvatarParameters;
use oscavmgr::unified::{derive_channel, Euler, UnifiedTrackingData};

fn level(x: f64) -> i32 {
    (x * 1_000_000.0).round() as i32
}

fn derived_once(data: &mut UnifiedTrackingData) {
    data.calc_combined(&AvatarParameters::new(), 0);
}

#[test]
fn eye_lid_scenario() {
    let mut data = UnifiedTrackingData::new();
    data.setu(UnifiedExpressions::EyeWideLeft, level(0.4));
    data.setu(UnifiedExpressions::EyeClosedLeft, level(0.2));
    derived_once(&mut data);
    assert_eq!(data.getc(CombinedExpression::EyeLidLeft), level(0.625));
}

#[test]
fn eye_lid_of_a_closed_eye_is_a_quarter_of_wide() {
    assert_eq!(lid_position(level(1.0), level(0.8)), level(0.2));
    assert_eq!(lid_position(level(0.0), level(0.0)), level(0.75));
    assert_eq!(lid_position(level(-1.0), level(0.0)), level(0.75));
}

#[test]
fn brow_down_blends_lowerer_and_pinch() {
    let mut data = UnifiedTrackingData::new();
    data.setu(UnifiedExpressions::BrowLowererLeft, level(0.8));
    data.setu(UnifiedExpressions::BrowPinchLeft, level(0.4));
    data.setu(UnifiedExpressions::BrowLowererRight, level(0.2));
    data.setu(UnifiedExpressions::BrowPinchRight, level(1.0));
    derived_once(&mut data);
    assert_eq!(data.getc(CombinedExpression::BrowDownLeft), level(0.7));
    assert_eq!(data.getc(CombinedExpression::BrowDownRight), level(0.4));
}

#[test]
fn smile_sad_is_smile_less_sad() {
    let mut data = UnifiedTrackingData::new();
    data.setu(UnifiedExpressions::MouthCornerPullLeft, level(0.6));
    data.setu(UnifiedExpressions::MouthCornerSlantLeft, level(0.2));
    data.setu(UnifiedExpressions::MouthFrownLeft, level(0.4));
    data.setu(UnifiedExpressions::MouthStretchLeft, level(0.4));
    derived_once(&mut data);
    assert_eq!(data.getc(CombinedExpression::MouthSmileLeft), level(0.5));
    assert_eq!(data.getc(CombinedExpression::MouthSadLeft), level(0.4));
    assert_eq!(data.getc(CombinedExpression::SmileSadLeft), level(0.1));
    assert_eq!(data.getc(CombinedExpression::SmileFrownLeft), level(0.1));
    assert_eq!(data.getc(CombinedExpression::SmileSad), level(0.05));
}

#[test]
fn cheek_puff_suck_is_puff_less_suck() {
    let mut data = UnifiedTrackingData::new();
    data.setu(UnifiedExpressions::CheekPuffLeft, level(0.7));
    data.setu(UnifiedExpressions::CheekSuckLeft, level(0.2));
    data.setu(UnifiedExpressions::CheekPuffRight, level(0.1));
    data.setu(UnifiedExpressions::CheekSuckRight, level(0.4));
    derived_once(&mut data);
    assert_eq!(data.getc(CombinedExpression::CheekPuffSuckLeft), level(0.5));
    assert_eq!(data.getc(CombinedExpression::CheekPuffSuckRight), level(-0.3));
    assert_eq!(data.getc(CombinedExpression::CheekPuffSuck), level(0.1));
}

#[test]
fn ears_stay_between_minus_one_and_one() {
    let mut data = UnifiedTrackingData::new();
    data.setu(UnifiedExpressions::BrowInnerUpLeft, level(0.9));
    data.setu(UnifiedExpressions::EyeWideLeft, level(0.8));
    data.setu(UnifiedExpressions::EyeSquintRight, level(0.9));
    data.setu(UnifiedExpressions::BrowPinchRight, level(1.5));
    derived_once(&mut data);
    assert_eq!(data.getc(CombinedExpression::EarLeft), level(1.0));
    assert_eq!(data.getc(CombinedExpression::EarRight), level(-1.0));
}

#[test]
fn means_round_down() {
    assert_eq!(mean(1, 2), 1);
    assert_eq!(mean(-1, -2), -2);
    assert_eq!(weighted(1, 0), 0);
    assert_eq!(weighted(-1, 0), -1);
    assert_eq!(mean(i32::MAX, i32::MAX), i32::MAX);
}

#[test]
fn derive_reads_only_unified_channels() {
    let mut shapes = [0i32; NUM_SHAPES];
    shapes[UnifiedExpressions::JawRight.index()] = level(0.75);
    shapes[UnifiedExpressions::JawLeft.index()] = level(0.25);
    shapes[CombinedExpression::JawX.index()] = 12345;
    assert_eq!(derive_channel(&shapes, CombinedExpression::JawX), level(0.5));
    assert_eq!(derive_channel(&shapes, CombinedExpression::MouthOpen), 0);
}

#[test]
fn lip_pucker_halves_are_left_alone() {
    let mut data = UnifiedTrackingData::new();
    data.setc(CombinedExpression::LipPuckerUpper, 4242);
    data.setc(CombinedExpression::LipPuckerLower, -17);
    data.setu(UnifiedExpressions::LipPuckerUpperLeft, level(0.4));
    data.setu(UnifiedExpressions::LipPuckerUpperRight, level(0.4));
    derived_once(&mut data);
    assert_eq!(data.getc(CombinedExpression::LipPuckerUpper), 4242);
    assert_eq!(data.getc(CombinedExpression::LipPuckerLower), -17);
    assert_eq!(data.getc(CombinedExpression::LipPucker), level(0.2));
}

#[test]
fn derivation_twice_changes_nothing() {
    let mut data = UnifiedTrackingData::new();
    for i in 0..UNIFIED_COUNT {
        let e = UnifiedExpressions::from_index(i).unwrap();
        data.setu(e, ((i as i32) * 37_123) % 1_000_000 - 300_000);
    }
    let params = AvatarParameters::new();
    data.calc_combined(&params, 11_000);
    let once = data.shapes;
    data.calc_combined(&params, 0);
    assert_eq!(data.shapes, once);
    data.calc_combined(&params, 11_000);
    for i in 0..NUM_SHAPES {
        if i != CombinedExpression::Blush.index() {
            assert_eq!(data.shapes[i], once[i]);
        }
    }
}

#[test]
fn derivation_leaves_unified_channels_alone() {
    let mut data = UnifiedTrackingData::new();
    for i in 0..UNIFIED_COUNT {
        data.shapes[i] = i as i32 * 1000;
    }
    let before = data.shapes;
    derived_once(&mut data);
    assert_eq!(data.shapes[..UNIFIED_COUNT], before[..UNIFIED_COUNT]);
}

#[test]
fn blush_climbs_by_a_tenth_per_second() {
    assert_eq!(blush_step(0, true, 1_000_000), level(0.1));
    assert_eq!(blush_step(level(0.5), true, 11_000), level(0.5011));
    assert_eq!(blush_step(level(0.95), true, 1_000_000), level(1.0));
}

#[test]
fn blush_falls_by_a_twentieth_per_second() {
    assert_eq!(blush_step(level(0.1), false, 1_000_000), level(0.05));
    assert_eq!(blush_step(level(0.5), false, 11_000), level(0.49945));
    assert_eq!(blush_step(level(0.01), false, 1_000_000), 0);
    assert_eq!(blush_step(100, false, 30), 98);
}

#[test]
fn blush_rises_on_the_face_parameter() {
    let mut params = AvatarParameters::new();
    params.insert("BlushFace".to_string(), OscValue::Float(level(0.2)));
    let mut data = UnifiedTrackingData::new();
    data.calc_combined(&params, 1_000_000);
    assert_eq!(data.getc(CombinedExpression::Blush), level(0.1));
    params.insert("BlushFace".to_string(), OscValue::Float(level(0.1)));
    data.calc_combined(&params, 1_000_000);
    assert_eq!(data.getc(CombinedExpression::Blush), level(0.05));
}

#[test]
fn blush_rises_on_the_nose_tap_and_on_a_low_gaze() {
    let mut params = AvatarParameters::new();
    params.insert("BlushNade".to_string(), OscValue::Float(level(0.5)));
    let mut data = UnifiedTrackingData::new();
    assert!(data.blush_trigger(&params));
    let none = AvatarParameters::new();
    assert!(!data.blush_trigger(&none));
    data.eyes[0] = Some(Euler { x: 0, y: level(0.26), z: 0 });
    assert!(data.blush_trigger(&none));
    data.eyes[0] = Some(Euler { x: 0, y: level(0.25), z: 0 });
    assert!(!data.blush_trigger(&none));
    data.eyes[0] = None;
    data.eyes[1] = Some(Euler { x: 0, y: level(0.9), z: 0 });
    assert!(!data.blush_trigger(&none));
}

#[test]
fn blush_parameter_of_another_type_does_not_count() {
    let mut params = AvatarParameters::new();
    params.insert("BlushFace".to_string(), OscValue::Bool(true));
    params.insert("BlushNade".to_string(), OscValue::Int(1));
    let data = UnifiedTrackingData::new();
    assert!(!data.blush_trigger(&params));
}
