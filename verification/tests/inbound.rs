use oscavmgr::bundle::OscValue;
use oscavmgr::inbound::{classify, pose_from, tracker_for, Inbound, Tracker};

fn six(values: [i32; 6]) -> Vec<OscValue> {
    values.iter().map(|v| OscValue::Float(*v)).collect()
}

#[test]
fn the_heartbeat_parameter_is_a_tick() {
    assert_eq!(classify("/avatar/parameters/VSync", &vec![OscValue::Bool(true)]), Inbound::Heartbeat);
    assert_eq!(classify("/avatar/parameters/VSync", &vec![]), Inbound::Heartbeat);
}

#[test]
fn parameters_carry_their_first_value() {
    assert_eq!(
        classify("/avatar/parameters/Go/StandIdle", &vec![OscValue::Int(3), OscValue::Int(4)]),
        Inbound::Parameter { name: "Go/StandIdle".to_string(), value: OscValue::Int(3) }
    );
    assert_eq!(classify("/avatar/parameters/AFK", &vec![]), Inbound::EmptyParameter);
    assert_eq!(
        classify("/avatar/parameters/", &vec![OscValue::Text("x".to_string())]),
        Inbound::Parameter { name: String::new(), value: OscValue::Text("x".to_string()) }
    );
}

#[test]
fn tracker_poses_need_six_numbers() {
    assert_eq!(
        classify("/tracking/trackers/head/position", &six([1, 2, 3, 4, 5, 6])),
        Inbound::Pose { tracker: Tracker::Head, pose: [1, 2, 3, 4, 5, 6] }
    );
    assert_eq!(
        classify("/tracking/trackers/leftwrist", &six([0; 6])),
        Inbound::Pose { tracker: Tracker::LeftWrist, pose: [0; 6] }
    );
    assert_eq!(
        classify("/tracking/trackers/1/position", &six([0; 6])),
        Inbound::Pose { tracker: Tracker::Other, pose: [0; 6] }
    );
    assert_eq!(classify("/tracking/trackers/head", &vec![OscValue::Float(1)]), Inbound::MalformedPose);
    let mut mixed = six([0; 6]);
    mixed[5] = OscValue::Int(0);
    assert_eq!(classify("/tracking/trackers/head", &mixed), Inbound::MalformedPose);
    assert_eq!(pose_from(&mixed), None);
    assert_eq!(pose_from(&six([9, 8, 7, 6, 5, 4])), Some([9, 8, 7, 6, 5, 4]));
}

#[test]
fn tracker_names_are_told_by_their_start() {
    assert_eq!(tracker_for("head"), Tracker::Head);
    assert_eq!(tracker_for("headset"), Tracker::Head);
    assert_eq!(tracker_for("rightwrist/x"), Tracker::RightWrist);
    assert_eq!(tracker_for("leftwrist"), Tracker::LeftWrist);
    assert_eq!(tracker_for("Head"), Tracker::Other);
    assert_eq!(tracker_for(""), Tracker::Other);
}

#[test]
fn an_avatar_change_carries_one_text() {
    assert_eq!(
        classify("/avatar/change", &vec![OscValue::Text("avtr_1".to_string())]),
        Inbound::AvatarChange { avatar: "avtr_1".to_string() }
    );
    assert_eq!(classify("/avatar/change", &vec![OscValue::Int(1)]), Inbound::MalformedAvatarChange);
    assert_eq!(classify("/avatar/change", &vec![]), Inbound::MalformedAvatarChange);
}

#[test]
fn other_addresses_are_unknown() {
    assert_eq!(classify("/chatbox/input", &vec![]), Inbound::Unknown);
    assert_eq!(classify("", &vec![]), Inbound::Unknown);
    assert_eq!(classify("/avatar/parameters", &vec![OscValue::Int(1)]), Inbound::Unknown);
}
