use oscavmgr::autopilot::{
    follow_distance, follow_mode, jump_cooldown, AutoPilotStatus, ExtAutoPilot, FollowMode, Followed,
    Heights, Steering,
};
use oscavmgr::bundle::{AvatarBundle, OscMessage, OscValue};
use oscavmgr::expressions::UnifiedExpressions;
use oscavmgr::params::AvatarParameters;
use oscavmgr::unified::{Euler, UnifiedTrackingData};

const LEVEL: Heights = Heights { left_hand: 0, right_hand: 0, head: 1_500_000 };
const HANDS_UP: Heights = Heights { left_hand: 1_700_000, right_hand: 1_600_000, head: 1_500_000 };
const REST: Steering = Steering { look_horizontal: 0, vertical: 0, horizontal: 0 };

fn with(list: &[(&str, OscValue)]) -> AvatarParameters {
    let mut params = AvatarParameters::new();
    for (name, value) in list {
        params.insert(name.to_string(), value.clone());
    }
    params
}

fn input(name: &str, value: OscValue) -> OscMessage {
    OscMessage { addr: format!("/input/{}", name), args: vec![value] }
}

#[test]
fn follow_mode_comes_from_the_parameters() {
    assert_eq!(follow_mode(&with(&[])), FollowMode::Off);
    assert_eq!(follow_mode(&with(&[("Seeker_IsGrabbed", OscValue::Bool(true))])), FollowMode::Grabbed);
    assert_eq!(follow_mode(&with(&[("Tracker1_Enable", OscValue::Bool(true))])), FollowMode::Tracker);
    assert_eq!(
        follow_mode(&with(&[("Tracker1_Enable", OscValue::Bool(true)), ("Seeker_IsGrabbed", OscValue::Bool(true))])),
        FollowMode::Grabbed
    );
    assert_eq!(follow_distance(FollowMode::Grabbed), 100_000);
    assert_eq!(follow_distance(FollowMode::Tracker), 500_000);
    assert_eq!(follow_distance(FollowMode::Off), 100_000);
}

#[test]
fn the_wait_after_a_jump_shrinks_with_the_height() {
    assert_eq!(jump_cooldown(1_500_000, 1_500_000), 20);
    assert_eq!(jump_cooldown(1_700_000, 1_500_000), 0);
    assert_eq!(jump_cooldown(2_700_000, 1_500_000), 0);
    assert_eq!(jump_cooldown(1_000_000, 1_500_000), 30);
    assert_eq!(jump_cooldown(1_505_000, 1_500_000), 19);
}

#[test]
fn flapping_jumps_again_and_again() {
    let params = with(&[("VRCEmote", OscValue::Int(121))]);
    let mut pilot = ExtAutoPilot::new();
    let mut bundle = AvatarBundle::new_bundle();
    let heights = Heights { left_hand: 1_580_000, right_hand: 1_600_000, head: 1_500_000 };
    pilot.avatar_flight(&params, heights, &mut bundle);
    assert!(pilot.jumped);
    assert_eq!(pilot.jump_cd, 12);
    pilot.avatar_flight(&params, heights, &mut bundle);
    assert!(!pilot.jumped);
    assert_eq!(pilot.jump_cd, 11);
    assert_eq!(
        bundle.content,
        vec![input("Jump", OscValue::Bool(true)), input("Jump", OscValue::Bool(false))]
    );
    for _ in 0..11 {
        pilot.avatar_flight(&params, heights, &mut bundle);
    }
    assert_eq!(pilot.jump_cd, 0);
    assert!(!pilot.jumped);
    pilot.avatar_flight(&params, heights, &mut bundle);
    assert!(pilot.jumped);
    assert_eq!(bundle.content.last().unwrap().args, vec![OscValue::Bool(true)]);
}

#[test]
fn a_jump_is_let_go_when_the_flapping_stops() {
    let params = with(&[("VRCEmote", OscValue::Int(120))]);
    let mut pilot = ExtAutoPilot::new();
    let mut bundle = AvatarBundle::new_bundle();
    pilot.avatar_flight(&params, HANDS_UP, &mut bundle);
    assert!(pilot.jumped);
    pilot.avatar_flight(&params, LEVEL, &mut bundle);
    assert!(!pilot.jumped);
    assert_eq!(pilot.jump_cd, 0);
    assert_eq!(bundle.len(), 2);
    pilot.avatar_flight(&params, LEVEL, &mut bundle);
    assert_eq!(bundle.len(), 2);
}

#[test]
fn flight_needs_the_emote() {
    let mut pilot = ExtAutoPilot::new();
    let mut bundle = AvatarBundle::new_bundle();
    pilot.avatar_flight(&with(&[]), HANDS_UP, &mut bundle);
    pilot.avatar_flight(&with(&[("VRCEmote", OscValue::Int(119))]), HANDS_UP, &mut bundle);
    pilot.avatar_flight(&with(&[("VRCEmote", OscValue::Int(125))]), HANDS_UP, &mut bundle);
    pilot.avatar_flight(&with(&[("VRCEmote", OscValue::Float(121))]), HANDS_UP, &mut bundle);
    assert_eq!(bundle.len(), 0);
    assert_eq!(pilot, ExtAutoPilot::new());
    pilot.jumped = true;
    pilot.avatar_flight(&with(&[]), HANDS_UP, &mut bundle);
    assert!(pilot.jumped);
    pilot.avatar_flight(&with(&[("VRCEmote", OscValue::Int(1))]), HANDS_UP, &mut bundle);
    assert!(!pilot.jumped);
}

#[test]
fn the_face_steers() {
    let mut data = UnifiedTrackingData::new();
    data.eyes[0] = Some(Euler { x: 0, y: 0, z: 700_000 });
    data.setu(UnifiedExpressions::CheekPuffLeft, 400_000);
    data.setu(UnifiedExpressions::CheekPuffRight, 300_000);
    let mut pilot = ExtAutoPilot::new();
    let mut bundle = AvatarBundle::new_bundle();
    let steering = pilot.manual(&data, &mut bundle);
    assert_eq!(steering, Steering { look_horizontal: -700_000, vertical: 420_000, horizontal: 0 });
    assert_eq!(bundle.len(), 0);
    data.eyes[0] = Some(Euler { x: 0, y: 0, z: 500_000 });
    data.setu(UnifiedExpressions::CheekPuffLeft, 0);
    data.setu(UnifiedExpressions::CheekSuckLeft, 1_000_000);
    data.setu(UnifiedExpressions::CheekSuckRight, 1_000_000);
    assert_eq!(pilot.manual(&data, &mut bundle), Steering { look_horizontal: 0, vertical: -1_000_000, horizontal: 0 });
    data.eyes[0] = Some(Euler { x: 0, y: 0, z: -600_001 });
    assert_eq!(pilot.manual(&data, &mut bundle).look_horizontal, 600_001);
}

#[test]
fn a_glance_upwards_jumps() {
    let mut data = UnifiedTrackingData::new();
    data.eyes[0] = Some(Euler { x: 0, y: 400_001, z: 0 });
    let mut pilot = ExtAutoPilot::new();
    let mut bundle = AvatarBundle::new_bundle();
    pilot.manual(&data, &mut bundle);
    assert!(pilot.jumped);
    pilot.manual(&data, &mut bundle);
    assert!(!pilot.jumped);
    assert_eq!(
        bundle.content,
        vec![input("Jump", OscValue::Bool(true)), input("Jump", OscValue::Bool(false))]
    );
    data.eyes[0] = Some(Euler { x: 0, y: 400_000, z: 0 });
    pilot.manual(&data, &mut bundle);
    assert_eq!(bundle.len(), 2);
}

#[test]
fn raised_brows_hold_the_voice_button() {
    let mut data = UnifiedTrackingData::new();
    let brows = [
        UnifiedExpressions::BrowInnerUpLeft,
        UnifiedExpressions::BrowInnerUpRight,
        UnifiedExpressions::BrowOuterUpLeft,
        UnifiedExpressions::BrowOuterUpRight,
    ];
    let mut pilot = ExtAutoPilot::new();
    let mut bundle = AvatarBundle::new_bundle();
    for b in brows {
        data.setu(b, 800_000);
    }
    pilot.manual(&data, &mut bundle);
    assert!(pilot.voice && pilot.voice_lock);
    assert_eq!(bundle.content, vec![input("Voice", OscValue::Bool(true))]);
    for b in brows {
        data.setu(b, 600_000);
    }
    pilot.manual(&data, &mut bundle);
    assert!(pilot.voice && pilot.voice_lock);
    for b in brows {
        data.setu(b, 400_000);
    }
    pilot.manual(&data, &mut bundle);
    assert!(!pilot.voice && !pilot.voice_lock);
    assert_eq!(bundle.content[1], input("Voice", OscValue::Bool(false)));
    assert_eq!(bundle.len(), 2);
}

#[test]
fn axes_go_out_when_they_moved() {
    let mut pilot = ExtAutoPilot::new();
    let mut bundle = AvatarBundle::new_bundle();
    pilot.steer(Steering { look_horizontal: 10_000, vertical: 10_001, horizontal: -500_000 }, &mut bundle);
    assert_eq!(
        bundle.content,
        vec![input("Vertical", OscValue::Float(10_001)), input("Horizontal", OscValue::Float(-500_000))]
    );
    assert_eq!(pilot.last_sent, Steering { look_horizontal: 0, vertical: 10_001, horizontal: -500_000 });
    pilot.steer(REST, &mut bundle);
    assert_eq!(bundle.len(), 4);
    assert_eq!(pilot.last_sent, REST);
}

#[test]
fn a_tick_follows_steers_or_rests() {
    let data = UnifiedTrackingData::new();
    let way = Followed { steering: Steering { look_horizontal: 1, vertical: 900_000, horizontal: 2 }, moved: true };
    let mut pilot = ExtAutoPilot::new();
    let mut bundle = AvatarBundle::new_bundle();
    let grabbed = with(&[("Seeker_IsGrabbed", OscValue::Bool(true)), ("AutoPilot", OscValue::Bool(true))]);
    assert_eq!(pilot.step(&grabbed, LEVEL, &data, Some(way), &mut bundle), AutoPilotStatus::Follow);
    assert!(pilot.follow_before);
    assert_eq!(bundle.content, vec![input("Vertical", OscValue::Float(900_000))]);
    assert_eq!(pilot.step(&grabbed, LEVEL, &data, None, &mut bundle), AutoPilotStatus::Off);
    assert_eq!(bundle.content[1], input("Vertical", OscValue::Float(0)));
    let manual = with(&[("AutoPilot", OscValue::Bool(true))]);
    assert_eq!(pilot.step(&manual, LEVEL, &data, Some(way), &mut bundle), AutoPilotStatus::Manual);
    assert_eq!(pilot.step(&with(&[]), LEVEL, &data, Some(way), &mut bundle), AutoPilotStatus::Off);
    assert_eq!(bundle.len(), 2);
}
