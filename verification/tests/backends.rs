use oscavmgr::babble::{
    babble_events, babble_targets, get_unified_expression_from_str, is_eye_channel,
};
use oscavmgr::blend::{doubled_capped, lower, sum};
use oscavmgr::expressions::{
    CombinedExpression, UnifiedExpressions, COMBINED_COUNT, NUM_SHAPES, UNIFIED_COUNT,
};
use oscavmgr::face2_fb::{face2_fb_to_unified, Face2Fb, FaceFb, LipSuckLimit, FACE2_FB_MAX, FACE_FB_MAX};
use oscavmgr::htc::{htc_to_unified, EyeExpressionHtc, HtcFacialData, LipExpressionHtc};
use oscavmgr::receiver::TrackingEvent;
use oscavmgr::sranipal::{resolve_channel, SRanipalExpression};

const NO_LIMIT: LipSuckLimit = LipSuckLimit { right: 1_000_000, left: 1_000_000 };

#[test]
fn channel_counts_add_up() {
    assert_eq!(UNIFIED_COUNT, 89);
    assert_eq!(COMBINED_COUNT, 53);
    assert_eq!(NUM_SHAPES, 142);
    assert_eq!(UnifiedExpressions::EyeLeftX.index(), 0);
    assert_eq!(UnifiedExpressions::TongueTwistLeft.index(), 88);
    assert_eq!(CombinedExpression::EyeLidLeft.index(), 89);
    assert_eq!(CombinedExpression::Blush.index(), 141);
}

#[test]
fn every_channel_is_found_by_its_index_and_its_name() {
    for i in 0..NUM_SHAPES {
        match (UnifiedExpressions::from_index(i), CombinedExpression::from_index(i)) {
            (Some(u), None) => {
                assert!(i < UNIFIED_COUNT);
                assert_eq!(u.index(), i);
                assert_eq!(UnifiedExpressions::from_name(u.name()), Some(u));
                assert_eq!(resolve_channel(u.name()), Some(i));
            }
            (None, Some(c)) => {
                assert!(i >= UNIFIED_COUNT);
                assert_eq!(c.index(), i);
                assert_eq!(CombinedExpression::from_name(c.name()), Some(c));
                assert_eq!(resolve_channel(c.name()), Some(i));
            }
            _ => panic!("position {} belongs to exactly one family", i),
        }
    }
    assert_eq!(UnifiedExpressions::from_index(NUM_SHAPES), None);
    assert_eq!(CombinedExpression::from_index(NUM_SHAPES), None);
}

#[test]
fn names_are_matched_exactly() {
    assert_eq!(UnifiedExpressions::JawOpen.name(), "JawOpen");
    assert_eq!(CombinedExpression::SmileSadLeft.name(), "SmileSadLeft");
    assert_eq!(UnifiedExpressions::from_name("JawOpen"), Some(UnifiedExpressions::JawOpen));
    assert_eq!(UnifiedExpressions::from_name("jawOpen"), None);
    assert_eq!(UnifiedExpressions::from_name("JawOpen "), None);
    assert_eq!(UnifiedExpressions::from_name(""), None);
    assert_eq!(UnifiedExpressions::from_name("JawX"), None);
    assert_eq!(CombinedExpression::from_name("JawX"), Some(CombinedExpression::JawX));
    assert_eq!(resolve_channel("Nothing"), None);
}

#[test]
fn older_names_point_at_channels() {
    assert_eq!(SRanipalExpression::MouthPout.index(), CombinedExpression::LipPucker.index());
    assert_eq!(SRanipalExpression::EyeLeftBlink.index(), UnifiedExpressions::EyeClosedLeft.index());
    assert_eq!(SRanipalExpression::TongueLongStep1.index(), UnifiedExpressions::TongueOut.index());
    assert_eq!(SRanipalExpression::from_name("CheekSuck"), Some(SRanipalExpression::CheekSuck));
    assert_eq!(SRanipalExpression::CheekSuck.name(), "CheekSuck");
    assert_eq!(resolve_channel("CheekSuck"), Some(UnifiedExpressions::CheekSuckLeft.index()));
    assert_eq!(resolve_channel("EyesY"), Some(UnifiedExpressions::EyeY.index()));
    assert_eq!(SRanipalExpression::from_name("JawOpen"), None);
}

#[test]
fn too_few_face_values_are_no_face() {
    assert_eq!(face2_fb_to_unified(&[0; 62], NO_LIMIT), None);
    assert_eq!(face2_fb_to_unified(&[], NO_LIMIT), None);
    assert!(face2_fb_to_unified(&[0; 63], NO_LIMIT).is_some());
}

#[test]
fn face_values_are_translated() {
    assert_eq!(FACE_FB_MAX, 63);
    assert_eq!(FACE2_FB_MAX, 70);
    let mut face = [0i32; 70];
    face[FaceFb::JawDrop.index()] = 600_000;
    face[FaceFb::EyesLookRightR.index()] = 700_000;
    face[FaceFb::EyesLookLeftR.index()] = 200_000;
    face[FaceFb::LidTightenerL.index()] = 300_000;
    face[FaceFb::EyesClosedL.index()] = 400_000;
    face[FaceFb::DimplerL.index()] = 300_000;
    face[FaceFb::DimplerR.index()] = 800_000;
    face[FaceFb::LipPuckerL.index()] = 123_000;
    face[FaceFb::LipSuckRT.index()] = 900_000;
    face[FaceFb::LipSuckLT.index()] = 100_000;
    face[Face2Fb::TongueOut.index()] = 450_000;
    face[Face2Fb::TongueTipAlveolar.index()] = 150_000;
    let limit = LipSuckLimit { right: 250_000, left: 350_000 };
    let shapes = face2_fb_to_unified(&face, limit).unwrap();
    let at = |e: UnifiedExpressions| shapes[e.index()];
    assert_eq!(at(UnifiedExpressions::JawOpen), 600_000);
    assert_eq!(at(UnifiedExpressions::EyeRightX), 500_000);
    assert_eq!(at(UnifiedExpressions::EyeClosedLeft), 400_000);
    assert_eq!(at(UnifiedExpressions::EyeSquintLeft), -100_000);
    assert_eq!(at(UnifiedExpressions::MouthDimpleLeft), 600_000);
    assert_eq!(at(UnifiedExpressions::MouthDimpleRight), 1_000_000);
    assert_eq!(at(UnifiedExpressions::LipPuckerUpperLeft), 123_000);
    assert_eq!(at(UnifiedExpressions::LipPuckerLowerLeft), 123_000);
    assert_eq!(at(UnifiedExpressions::LipSuckUpperRight), 250_000);
    assert_eq!(at(UnifiedExpressions::LipSuckUpperLeft), 100_000);
    assert_eq!(at(UnifiedExpressions::TongueOut), 450_000);
    assert_eq!(at(UnifiedExpressions::TongueCurlUp), 150_000);
    assert_eq!(at(UnifiedExpressions::JawBackward), 0);
    assert!(shapes[UNIFIED_COUNT..].iter().all(|v| *v == 0));
}

#[test]
fn the_tongue_needs_the_second_generation() {
    let mut face = [0i32; 69];
    face[Face2Fb::TongueOut.index()] = 450_000;
    let shapes = face2_fb_to_unified(&face, NO_LIMIT).unwrap();
    assert_eq!(shapes[UnifiedExpressions::TongueOut.index()], 0);
}

#[test]
fn runtime_readings_are_translated() {
    let mut eye = [0i32; 14];
    let mut lip = [0i32; 37];
    eye[EyeExpressionHtc::RightOut.index()] = 800_000;
    eye[EyeExpressionHtc::RightIn.index()] = 100_000;
    eye[EyeExpressionHtc::LeftUp.index()] = 400_000;
    eye[EyeExpressionHtc::RightUp.index()] = 200_000;
    eye[EyeExpressionHtc::LeftDown.index()] = 100_000;
    eye[EyeExpressionHtc::LeftBlink.index()] = 900_000;
    lip[LipExpressionHtc::JawOpen.index()] = 300_000;
    lip[LipExpressionHtc::MouthRaiserRight.index()] = 600_000;
    lip[LipExpressionHtc::MouthRaiserLeft.index()] = 111_000;
    lip[LipExpressionHtc::MouthUpperInside.index()] = 200_000;
    lip[LipExpressionHtc::MouthLowerInside.index()] = 500_000;
    lip[LipExpressionHtc::TongueUpleftMorph.index()] = 300_000;
    lip[LipExpressionHtc::TongueDownrightMorph.index()] = 400_000;
    let shapes = htc_to_unified(&HtcFacialData { eye: Some(eye), lip: Some(lip) });
    let at = |e: UnifiedExpressions| shapes[e.index()];
    assert_eq!(at(UnifiedExpressions::EyeRightX), 700_000);
    assert_eq!(at(UnifiedExpressions::EyeY), 250_000);
    assert_eq!(at(UnifiedExpressions::EyeClosedLeft), 900_000);
    assert_eq!(at(UnifiedExpressions::BrowLowererLeft), 900_000);
    assert_eq!(at(UnifiedExpressions::JawOpen), 300_000);
    assert_eq!(at(UnifiedExpressions::MouthCornerPullLeft), 600_000);
    assert_eq!(at(UnifiedExpressions::MouthCornerPullRight), 600_000);
    assert_eq!(at(UnifiedExpressions::MouthPressLeft), 350_000);
    assert_eq!(at(UnifiedExpressions::TongueTwistLeft), 700_000);
    assert_eq!(at(UnifiedExpressions::NoseSneerLeft), 0);
}

#[test]
fn a_reading_without_values_is_at_rest() {
    let none = HtcFacialData { eye: None, lip: None };
    assert_eq!(none.eyef(EyeExpressionHtc::LeftWide), 0);
    assert_eq!(none.lipf(LipExpressionHtc::CheekSuck), 0);
    assert_eq!(htc_to_unified(&none), [0; NUM_SHAPES]);
    let mut lip = [0i32; 37];
    lip[LipExpressionHtc::CheekSuck.index()] = 5;
    let shapes = htc_to_unified(&HtcFacialData { eye: None, lip: Some(lip) });
    assert_eq!(shapes[UnifiedExpressions::CheekSuckLeft.index()], 5);
    assert_eq!(shapes[UnifiedExpressions::CheekSuckRight.index()], 5);
}

#[test]
fn runtime_values_keep_their_order() {
    assert_eq!(EyeExpressionHtc::LeftBlink.index(), 0);
    assert_eq!(EyeExpressionHtc::RightUp.index(), 13);
    assert_eq!(LipExpressionHtc::JawRight.index(), 0);
    assert_eq!(LipExpressionHtc::MouthRaiserRight.index(), 12);
    assert_eq!(LipExpressionHtc::TongueDownleftMorph.index(), 36);
    assert_eq!(FaceFb::BrowLowererL.index(), 0);
    assert_eq!(FaceFb::UpperLipRaiserR.index(), 62);
    assert_eq!(Face2Fb::TongueTipInterdental.index(), 63);
    assert_eq!(Face2Fb::TongueRetreat.index(), 69);
}

#[test]
fn small_helpers_compute_what_they_say() {
    assert_eq!(sum(1, 2), 3);
    assert_eq!(sum(i32::MAX, 1), i32::MAX);
    assert_eq!(lower(3, -4), -4);
    assert_eq!(doubled_capped(400_000), 800_000);
    assert_eq!(doubled_capped(500_001), 1_000_000);
    assert_eq!(doubled_capped(-3), -6);
    assert_eq!(doubled_capped(i32::MIN), i32::MIN);
}

#[test]
fn one_signal_can_drive_several_channels() {
    assert_eq!(babble_targets("/jawOpen"), vec![UnifiedExpressions::JawOpen]);
    assert_eq!(
        babble_targets("/mouthFunnel"),
        vec![
            UnifiedExpressions::LipFunnelUpperRight,
            UnifiedExpressions::LipFunnelUpperLeft,
            UnifiedExpressions::LipFunnelLowerRight,
            UnifiedExpressions::LipFunnelLowerLeft,
        ]
    );
    assert_eq!(
        babble_targets("/mouthSmileLeft"),
        vec![UnifiedExpressions::MouthCornerPullLeft, UnifiedExpressions::MouthCornerSlantLeft]
    );
    assert_eq!(babble_targets("/avatar/parameters/LeftEyeX"), vec![UnifiedExpressions::EyeLeftX]);
    assert_eq!(babble_targets("/avatar/parameters/v2/EyeLeftY"), vec![UnifiedExpressions::EyeY]);
    assert_eq!(babble_targets("/unknown"), vec![]);
    assert_eq!(babble_targets("jawOpen"), vec![]);
}

#[test]
fn a_signal_becomes_one_update_per_channel() {
    assert_eq!(
        babble_events("/mouthRollUpper", 42),
        vec![
            TrackingEvent::Shape(UnifiedExpressions::LipSuckUpperLeft, 42),
            TrackingEvent::Shape(UnifiedExpressions::LipSuckUpperRight, 42),
        ]
    );
    assert_eq!(babble_events("/nothing", 42), vec![]);
}

#[test]
fn gaze_and_lids_belong_to_the_eye_tracker() {
    assert!(is_eye_channel(UnifiedExpressions::EyeLeftX));
    assert!(is_eye_channel(UnifiedExpressions::EyeWideLeft));
    assert!(!is_eye_channel(UnifiedExpressions::BrowPinchRight));
    assert!(!is_eye_channel(UnifiedExpressions::JawOpen));
}

#[test]
fn the_older_scheme_knows_one_channel_per_address() {
    let of = |s: &str| get_unified_expression_from_str(s.to_string());
    assert_eq!(of("/cheekPuffLeft"), Some(UnifiedExpressions::CheekPuffLeft));
    assert_eq!(of("/mouthFunnel"), Some(UnifiedExpressions::LipFunnelLowerLeft));
    assert_eq!(of("/mouthPucker"), Some(UnifiedExpressions::LipPuckerLowerLeft));
    assert_eq!(of("/mouthRollUpper"), Some(UnifiedExpressions::LipSuckUpperLeft));
    assert_eq!(of("/mouthLeft"), Some(UnifiedExpressions::MouthPressLeft));
    assert_eq!(of("/mouthPressRight"), Some(UnifiedExpressions::MouthPressRight));
    assert_eq!(of("/tongueTwistRight"), Some(UnifiedExpressions::TongueTwistRight));
    assert_eq!(of("/avatar/parameters/LeftEyeX"), None);
    assert_eq!(of(""), None);
}
