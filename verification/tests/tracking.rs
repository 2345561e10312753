use oscavmgr::bundle::{AvatarBundle, OscMessage, OscValue};
use oscavmgr::cli::{Args, FaceSetup};
use oscavmgr::expressions::{CombinedExpression, UnifiedExpressions, NUM_SHAPES};
use oscavmgr::params::AvatarParameters;
use oscavmgr::receiver::{
    ingestion_mode, is_live, output_paused, Ingestion, OscTrack, TrackingEvent, TrackingFrame,
};
use oscavmgr::tracking::ExtTracking;
use oscavmgr::unified::{negated, Euler, Posef, UnifiedTrackingData};

fn flags(list: &[(&str, OscValue)]) -> AvatarParameters {
    let mut params = AvatarParameters::new();
    for (name, value) in list {
        params.insert(name.to_string(), value.clone());
    }
    params
}

fn pose(x: i32) -> Posef {
    Posef { orientation: [0, 0, 0, 1_000_000], position: [x, 0, 0] }
}

fn frame() -> TrackingFrame {
    TrackingFrame { eyes: [None, None], shapes: None, head: None, hands: [None, None] }
}

fn jaw(value: i32) -> TrackingEvent {
    TrackingEvent::Shape(UnifiedExpressions::JawOpen, value)
}

#[test]
fn default_descriptors_send_directly() {
    let tracking = ExtTracking::new(FaceSetup::Dummy);
    assert_eq!(tracking.params.len(), NUM_SHAPES);
    assert_eq!(tracking.params.iter().filter(|p| p.is_some()).count(), 21);
    let jaw = tracking.params[UnifiedExpressions::JawOpen.index()].as_ref().unwrap();
    assert_eq!(jaw.name, "JawOpen");
    assert_eq!(jaw.main_address.as_deref(), Some("FT/v2/JawOpen"));
    assert_eq!(jaw.num_bits, 0);
    let lid = tracking.params[CombinedExpression::EyeLidLeft.index()].as_ref().unwrap();
    assert_eq!(lid.main_address.as_deref(), Some("FT/v2/EyeLidLeft"));
    assert!(tracking.params[CombinedExpression::SmileSadRight.index()].is_some());
    assert!(tracking.params[UnifiedExpressions::MouthClosed.index()].is_some());
    assert!(tracking.params[UnifiedExpressions::TongueOut.index()].is_none());
    assert_eq!(tracking.setup, FaceSetup::Dummy);
    assert_eq!(tracking.data, UnifiedTrackingData::new());
}

#[test]
fn setup_defaults_to_no_face_tracking() {
    assert_eq!(FaceSetup::default(), FaceSetup::Dummy);
    let args = Args::default();
    assert_eq!(args.face, FaceSetup::Dummy);
    assert_eq!(args.avatar, None);
}

#[test]
fn ingestion_follows_the_flags() {
    assert_eq!(ingestion_mode(&flags(&[])), Ingestion::Everything);
    assert_eq!(ingestion_mode(&flags(&[("AFK", OscValue::Bool(true))])), Ingestion::Nothing);
    assert_eq!(ingestion_mode(&flags(&[("IsAfk", OscValue::Bool(true))])), Ingestion::Nothing);
    assert_eq!(ingestion_mode(&flags(&[("AFK", OscValue::Bool(false))])), Ingestion::Everything);
    assert_eq!(ingestion_mode(&flags(&[("Motion", OscValue::Int(1))])), Ingestion::PoseOnly);
    assert_eq!(ingestion_mode(&flags(&[("Motion", OscValue::Int(2))])), Ingestion::Everything);
    assert_eq!(ingestion_mode(&flags(&[("FaceFreeze", OscValue::Bool(true))])), Ingestion::PoseOnly);
    assert_eq!(
        ingestion_mode(&flags(&[("Motion", OscValue::Int(1)), ("FaceFreeze", OscValue::Bool(true))])),
        Ingestion::Everything
    );
    assert_eq!(
        ingestion_mode(&flags(&[("Motion", OscValue::Int(1)), ("AFK", OscValue::Bool(true))])),
        Ingestion::Nothing
    );
    assert!(output_paused(&flags(&[("FacePause", OscValue::Bool(true))])));
    assert!(!output_paused(&flags(&[("FacePause", OscValue::Int(1))])));
}

#[test]
fn data_is_live_for_a_second() {
    assert!(!is_live(None, 5000));
    assert!(is_live(Some(5000), 5000));
    assert!(is_live(Some(5000), 5999));
    assert!(!is_live(Some(5000), 6000));
    assert!(is_live(Some(5000), 4000));
}

#[test]
fn the_later_update_of_a_channel_stays() {
    let mut data = UnifiedTrackingData::new();
    let mut whole = [0i32; NUM_SHAPES];
    whole[UnifiedExpressions::JawOpen.index()] = 111;
    whole[UnifiedExpressions::TongueOut.index()] = 222;
    whole[CombinedExpression::JawX.index()] = 333;
    let events = vec![
        jaw(1),
        TrackingEvent::Frame(TrackingFrame { shapes: Some(whole), ..frame() }),
        TrackingEvent::Shape(UnifiedExpressions::TongueOut, 5),
    ];
    assert!(data.drain_into(&events));
    assert_eq!(data.getu(UnifiedExpressions::JawOpen), 111);
    assert_eq!(data.getu(UnifiedExpressions::TongueOut), 5);
    assert_eq!(data.getc(CombinedExpression::JawX), 0);
    let mut other = UnifiedTrackingData::new();
    assert!(other.drain_into(&vec![TrackingEvent::Frame(TrackingFrame { shapes: Some(whole), ..frame() }), jaw(1)]));
    assert_eq!(other.getu(UnifiedExpressions::JawOpen), 1);
}

#[test]
fn frames_without_a_part_keep_the_old_one() {
    let mut data = UnifiedTrackingData::new();
    let left = Euler { x: 1, y: 2, z: 3 };
    let right = Euler { x: 4, y: 5, z: 6 };
    let events = vec![
        TrackingEvent::Frame(TrackingFrame { eyes: [Some(left), Some(right)], ..frame() }),
        TrackingEvent::Frame(TrackingFrame { eyes: [None, Some(left)], ..frame() }),
    ];
    assert!(!data.drain_into(&events));
    assert_eq!(data.eyes, [Some(left), Some(left)]);
    assert!(!data.drain_into(&vec![]));
    assert_eq!(data.eyes, [Some(left), Some(left)]);
}

#[test]
fn poses_are_taken_from_frames() {
    let mut track = OscTrack::new();
    let events = vec![
        TrackingEvent::Frame(TrackingFrame { head: Some(pose(1)), hands: [Some(pose(2)), None], ..frame() }),
        jaw(7),
        TrackingEvent::Frame(TrackingFrame { hands: [None, Some(pose(3))], ..frame() }),
    ];
    track.drain(&events, 900);
    assert_eq!(track.head, Some(pose(1)));
    assert_eq!(track.left_hand, Some(pose(2)));
    assert_eq!(track.right_hand, Some(pose(3)));
    assert_eq!(track.last_received, Some(900));
    track.drain(&vec![TrackingEvent::Frame(TrackingFrame { hands: [Some(pose(9)), None], ..frame() })], 1200);
    assert_eq!(track.left_hand, Some(pose(9)));
    assert_eq!(track.last_received, Some(900));
}

#[test]
fn a_tick_ingests_derives_and_encodes() {
    let mut tracking = ExtTracking::new(FaceSetup::Dummy);
    let mut track = OscTrack::new();
    let mut bundle = AvatarBundle::new_bundle();
    tracking.step(&flags(&[]), &mut track, &vec![jaw(500_000)], 11_000, 100, &mut bundle);
    assert_eq!(tracking.data.getu(UnifiedExpressions::JawOpen), 500_000);
    assert_eq!(tracking.last_face, Some(100));
    assert!(tracking.face_live(1099));
    assert!(!tracking.face_live(1100));
    let addrs: Vec<&str> = bundle.content.iter().map(|m| m.addr.as_str()).collect();
    assert_eq!(
        addrs,
        vec![
            "/avatar/parameters/ExpressionTrackingActive",
            "/avatar/parameters/LipTrackingActive",
            "/avatar/parameters/FT/v2/JawOpen",
            "/avatar/parameters/FT/v2/EyeLidLeft",
            "/avatar/parameters/FT/v2/EyeLidRight",
        ]
    );
    assert_eq!(bundle.content[2].args, vec![OscValue::Float(500_000)]);
    assert_eq!(bundle.content[3].args, vec![OscValue::Float(750_000)]);
    assert_eq!(tracking.data.old_shapes, Some(tracking.data.shapes));
    let mut second = AvatarBundle::new_bundle();
    tracking.step(&flags(&[]), &mut track, &vec![], 11_000, 111, &mut second);
    assert_eq!(second.len(), 0);
}

#[test]
fn away_takes_nothing_in() {
    let mut tracking = ExtTracking::new(FaceSetup::Dummy);
    let mut track = OscTrack::new();
    let mut bundle = AvatarBundle::new_bundle();
    let events = vec![jaw(500_000), TrackingEvent::Frame(TrackingFrame { head: Some(pose(1)), ..frame() })];
    tracking.step(&flags(&[("AFK", OscValue::Bool(true))]), &mut track, &events, 0, 100, &mut bundle);
    assert_eq!(tracking.data.getu(UnifiedExpressions::JawOpen), 0);
    assert_eq!(track, OscTrack::new());
    assert_eq!(tracking.last_face, None);
}

#[test]
fn motion_override_takes_poses_only() {
    let mut tracking = ExtTracking::new(FaceSetup::Dummy);
    let mut track = OscTrack::new();
    let mut bundle = AvatarBundle::new_bundle();
    let gaze = Euler { x: 1, y: 2, z: 3 };
    let events = vec![
        jaw(500_000),
        TrackingEvent::Frame(TrackingFrame { head: Some(pose(1)), eyes: [Some(gaze), None], ..frame() }),
    ];
    tracking.step(&flags(&[("Motion", OscValue::Int(1))]), &mut track, &events, 0, 100, &mut bundle);
    assert_eq!(tracking.data.getu(UnifiedExpressions::JawOpen), 0);
    assert_eq!(tracking.data.eyes, [None, None]);
    assert_eq!(track.head, Some(pose(1)));
    assert_eq!(tracking.last_face, None);
}

#[test]
fn paused_output_still_ingests_and_derives() {
    let mut tracking = ExtTracking::new(FaceSetup::Dummy);
    let mut track = OscTrack::new();
    let mut bundle = AvatarBundle::new_bundle();
    let events = vec![TrackingEvent::Shape(UnifiedExpressions::JawRight, 400_000)];
    tracking.step(&flags(&[("FacePause", OscValue::Bool(true))]), &mut track, &events, 0, 5, &mut bundle);
    assert_eq!(bundle.len(), 0);
    assert_eq!(tracking.data.getc(CombinedExpression::JawX), 400_000);
    assert_eq!(tracking.data.old_shapes, None);
    assert!(!tracking.data.expression_tracking);
    let mut after = AvatarBundle::new_bundle();
    tracking.step(&flags(&[]), &mut track, &vec![], 0, 16, &mut after);
    assert!(after.content.iter().any(|m| m.addr == "/avatar/parameters/FT/v2/JawX"));
}

#[test]
fn eyes_are_sent_mirrored() {
    let mut data = UnifiedTrackingData::new();
    data.eyes = [Some(Euler { x: 100, y: -200, z: 7 }), None];
    data.setu(UnifiedExpressions::EyeClosedLeft, 250_000);
    let mut table = oscavmgr::discovery::cleared_table();
    let mut bundle = AvatarBundle::new_bundle();
    data.apply_to_bundle(&mut table, &mut bundle);
    assert_eq!(
        bundle.content[2..].to_vec(),
        vec![
            OscMessage { addr: "/tracking/eye/EyesClosedAmount".to_string(), args: vec![OscValue::Float(250_000)] },
            OscMessage {
                addr: "/tracking/eye/LeftRightPitchYaw".to_string(),
                args: vec![
                    OscValue::Degrees(-100),
                    OscValue::Degrees(200),
                    OscValue::Degrees(-100),
                    OscValue::Degrees(200),
                ],
            },
        ]
    );
    assert!(data.expression_tracking && data.lip_tracking);
}

#[test]
fn closed_amount_is_left_out_where_the_lid_is_described() {
    let mut tracking = ExtTracking::new(FaceSetup::Dummy);
    tracking.data.eyes = [Some(Euler { x: 1, y: 2, z: 3 }), Some(Euler { x: 4, y: 5, z: 6 })];
    let mut bundle = AvatarBundle::new_bundle();
    tracking.data.apply_to_bundle(&mut tracking.params, &mut bundle);
    assert!(bundle.content.iter().all(|m| m.addr != "/tracking/eye/EyesClosedAmount"));
    let last = bundle.content.last().unwrap();
    assert_eq!(
        last.args,
        vec![OscValue::Degrees(-1), OscValue::Degrees(-2), OscValue::Degrees(-4), OscValue::Degrees(-5)]
    );
}

#[test]
fn negation_saturates() {
    assert_eq!(negated(5), -5);
    assert_eq!(negated(-5), 5);
    assert_eq!(negated(i32::MIN), i32::MAX);
    assert_eq!(negated(i32::MAX), -i32::MAX);
}

#[test]
fn dirty_shapes_lists_what_moved() {
    let mut data = UnifiedTrackingData::new();
    assert_eq!(data.dirty_shapes(), (0..NUM_SHAPES).collect::<Vec<usize>>());
    data.old_shapes = Some(data.shapes);
    assert_eq!(data.dirty_shapes(), Vec::<usize>::new());
    data.shapes[3] = 10_001;
    data.shapes[7] = -10_001;
    data.shapes[9] = 10_000;
    assert_eq!(data.dirty_shapes(), vec![3, 7]);
}
