use oscavmgr::autopilot::AutoPilotStatus;
use oscavmgr::bundle::OscValue;
use oscavmgr::cli::FaceSetup;
use oscavmgr::expressions::UnifiedExpressions;
use oscavmgr::gogo::ExtGogo;
use oscavmgr::inbound::{classify, Tracker};
use oscavmgr::manager::{Action, AppState, AvatarOsc};
use oscavmgr::oscjson::{OscJsonEntry, OscJsonNode};
use oscavmgr::receiver::{OscTrack, TrackingEvent};
use oscavmgr::storage::ExtStorage;
use oscavmgr::unified::Posef;
use oscavmgr::watchdog::{DriveMode, Scheduler};

fn stages() -> AvatarOsc {
    AvatarOsc::new(
        FaceSetup::Dummy,
        ExtGogo::new("/tmp/g.json".to_string(), 1, 2, 3),
        ExtStorage::new("/tmp/s.json".to_string(), None, 0),
    )
}

fn tree(names: &[&str]) -> OscJsonNode {
    let leaves = names
        .iter()
        .map(|n| OscJsonEntry {
            name: n.to_string(),
            node: OscJsonNode::leaf(format!("/avatar/parameters/{}", n), 3, None),
        })
        .collect();
    OscJsonNode {
        full_path: "/avatar".to_string(),
        access: 0,
        data_type: None,
        contents: Some(vec![OscJsonEntry {
            name: "parameters".to_string(),
            node: OscJsonNode {
                full_path: "/avatar/parameters".to_string(),
                access: 0,
                data_type: None,
                contents: Some(leaves),
            },
        }]),
    }
}

#[test]
fn a_new_manager_is_in_order() {
    let m = stages();
    assert!(m.is_wf());
    let state = AppState::new();
    assert_eq!(state.delta_t, 11_000);
    assert_eq!(state.tracking, OscTrack::new());
}

#[test]
fn the_heartbeat_asks_for_a_tick() {
    let mut m = stages();
    let mut state = AppState::new();
    let mut scheduler = Scheduler::new();
    let inbound = classify("/avatar/parameters/VSync", &vec![OscValue::Bool(true)]);
    assert_eq!(m.handle_message(&mut state, &mut scheduler, inbound, 70), Action::Tick);
    assert_eq!(scheduler.mode, DriveMode::ExternallyDriven);
    assert_eq!(scheduler.watchdog.last_received, 70);
    assert_eq!(m, stages());
}

#[test]
fn a_parameter_goes_to_every_stage_that_listens() {
    let mut m = stages();
    let mut state = AppState::new();
    let mut scheduler = Scheduler::new();
    let inbound = classify("/avatar/parameters/Go/StandIdle", &vec![OscValue::Int(9)]);
    assert_eq!(m.handle_message(&mut state, &mut scheduler, inbound, 70), Action::Nothing);
    assert_eq!(state.params.get("Go/StandIdle"), Some(&OscValue::Int(9)));
    assert_eq!(m.ext_gogo.staging.unwrap().idle_stand, 9);
    let inbound = classify("/avatar/parameters/ExtIndex", &vec![OscValue::Int(4)]);
    m.handle_message(&mut state, &mut scheduler, inbound, 80);
    assert_eq!(m.ext_storage.ext_index, 4);
    assert_eq!(scheduler, Scheduler::new());
}

#[test]
fn other_messages_leave_work_outside() {
    let mut m = stages();
    let mut state = AppState::new();
    let mut scheduler = Scheduler::new();
    let six: Vec<OscValue> = (1..=6).map(OscValue::Float).collect();
    assert_eq!(
        m.handle_message(&mut state, &mut scheduler, classify("/tracking/trackers/head", &six), 1),
        Action::Place { tracker: Tracker::Head, pose: [1, 2, 3, 4, 5, 6] }
    );
    assert_eq!(
        m.handle_message(
            &mut state,
            &mut scheduler,
            classify("/avatar/change", &vec![OscValue::Text("avtr".to_string())]),
            1
        ),
        Action::Fetch { avatar: "avtr".to_string() }
    );
    assert_eq!(m.handle_message(&mut state, &mut scheduler, classify("/x", &vec![]), 1), Action::Note);
    assert_eq!(
        m.handle_message(&mut state, &mut scheduler, classify("/avatar/parameters/A", &vec![]), 1),
        Action::Nothing
    );
    assert_eq!(state, AppState::new());
    assert_eq!(m, stages());
}

#[test]
fn poses_are_placed_by_tracker() {
    let pose = Posef { orientation: [0, 0, 0, 1_000_000], position: [1, 2, 3] };
    let mut track = OscTrack::new();
    track.place(Tracker::LeftWrist, pose, 5);
    assert_eq!(track.left_hand, Some(pose));
    assert_eq!(track.last_received, None);
    track.place(Tracker::Head, pose, 6);
    assert_eq!(track.head, Some(pose));
    assert_eq!(track.last_received, Some(6));
    track.place(Tracker::RightWrist, pose, 7);
    track.place(Tracker::Other, pose, 8);
    assert_eq!(track.right_hand, Some(pose));
    assert_eq!(track.last_received, Some(6));
}

#[test]
fn an_avatar_change_rebuilds_and_sets_the_mode() {
    let mut m = stages();
    let mut scheduler = Scheduler::new();
    let with_vsync = tree(&["JawOpen", "VSync"]);
    let bundle = m.avatar(&mut scheduler, Some(&with_vsync), 500);
    assert_eq!(bundle.len(), 3);
    assert_eq!(bundle.content[0].addr, "/avatar/parameters/Go/StandIdle");
    assert_eq!(bundle.content[0].args, vec![OscValue::Int(1)]);
    assert_eq!(scheduler.mode, DriveMode::ExternallyDriven);
    assert_eq!(m.ext_gogo.avatar_changed, Some(500));
    assert_eq!(m.ext_tracking.params.iter().filter(|p| p.is_some()).count(), 1);
    m.avatar(&mut scheduler, Some(&tree(&["JawOpen"])), 600);
    assert_eq!(scheduler.mode, DriveMode::SelfDriven);
    scheduler.mode = DriveMode::ExternallyDriven;
    m.avatar(&mut scheduler, None, 700);
    assert_eq!(scheduler.mode, DriveMode::SelfDriven);
    assert_eq!(m.ext_tracking.params.iter().filter(|p| p.is_some()).count(), 1);
}

#[test]
fn a_tick_sends_the_stages_in_order() {
    let mut m = stages();
    m.ext_storage.data[3] = 123;
    let mut state = AppState::new();
    state.params.insert("TrackingType".to_string(), OscValue::Int(6));
    state.params.insert("AutoPilot".to_string(), OscValue::Bool(true));
    let events = vec![
        TrackingEvent::Shape(UnifiedExpressions::JawOpen, 500_000),
        TrackingEvent::Shape(UnifiedExpressions::CheekPuffLeft, 900_000),
    ];
    let outcome = m.process(&mut state, &events, None, 1000);
    assert_eq!(outcome.pilot, AutoPilotStatus::Manual);
    assert!(!outcome.save_storage);
    assert!(!outcome.save_gogo);
    let mut addrs: Vec<String> = outcome.plan.fast.iter().map(|m| m.addr.clone()).collect();
    for chunk in outcome.plan.chunks.iter() {
        addrs.extend(chunk.iter().map(|m| m.addr.clone()));
    }
    assert_eq!(
        addrs,
        vec![
            "/avatar/parameters/IntIndex",
            "/avatar/parameters/IntValue",
            "/avatar/parameters/ExpressionTrackingActive",
            "/avatar/parameters/LipTrackingActive",
            "/avatar/parameters/FT/v2/CheekPuffLeft",
            "/avatar/parameters/FT/v2/JawOpen",
            "/avatar/parameters/FT/v2/EyeLidLeft",
            "/avatar/parameters/FT/v2/EyeLidRight",
            "/avatar/parameters/Go/Locomotion",
            "/input/Vertical",
        ]
    );
    assert_eq!(outcome.plan.chunks.len(), 1);
    assert_eq!(outcome.plan.chunks[0].len(), 9);
    assert_eq!(outcome.plan.chunks[0][8].args, vec![OscValue::Float(540_000)]);
}

#[test]
fn a_tick_says_what_to_save() {
    let mut m = stages();
    let mut state = AppState::new();
    let mut scheduler = Scheduler::new();
    m.handle_message(
        &mut state,
        &mut scheduler,
        classify("/avatar/parameters/Go/ProneIdle", &vec![OscValue::Int(8)]),
        1000,
    );
    assert!(!m.process(&mut state, &vec![], None, 5999).save_gogo);
    let outcome = m.process(&mut state, &vec![], None, 300_001);
    assert!(outcome.save_gogo);
    assert!(outcome.save_storage);
    assert_eq!(m.ext_gogo.idle_prone, 8);
    assert_eq!(outcome.pilot, AutoPilotStatus::Off);
}
