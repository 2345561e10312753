use oscavmgr::bundle::{AvatarBundle, OscMessage, OscValue};
use oscavmgr::params::AvatarParameters;

#[test]
fn parameters_go_below_the_parameter_prefix() {
    let mut bundle = AvatarBundle::new_bundle();
    assert_eq!(bundle.len(), 0);
    bundle.send_parameter("FT/v2/JawOpen", OscValue::Float(250_000));
    assert_eq!(
        bundle.content,
        vec![OscMessage { addr: "/avatar/parameters/FT/v2/JawOpen".to_string(), args: vec![OscValue::Float(250_000)] }]
    );
}

#[test]
fn inputs_go_below_the_input_prefix() {
    let mut bundle = AvatarBundle::new_bundle();
    bundle.send_input_axis("Vertical", -500_000);
    bundle.send_input_button("Jump", true);
    assert_eq!(
        bundle.content,
        vec![
            OscMessage { addr: "/input/Vertical".to_string(), args: vec![OscValue::Float(-500_000)] },
            OscMessage { addr: "/input/Jump".to_string(), args: vec![OscValue::Bool(true)] },
        ]
    );
}

#[test]
fn tracking_messages_keep_their_address() {
    let mut bundle = AvatarBundle::new_bundle();
    bundle.send_tracking("/tracking/eye/X", vec![OscValue::Degrees(1), OscValue::Degrees(2)]);
    assert_eq!(
        bundle.content,
        vec![OscMessage { addr: "/tracking/eye/X".to_string(), args: vec![OscValue::Degrees(1), OscValue::Degrees(2)] }]
    );
}

#[test]
fn chatbox_messages_go_first() {
    let mut bundle = AvatarBundle::new_bundle();
    bundle.send_parameter("A", OscValue::Int(1));
    bundle.send_chatbox_message("hello".to_string(), true, false);
    assert_eq!(bundle.len(), 2);
    assert_eq!(
        bundle.content[0],
        OscMessage {
            addr: "/chatbox/input/".to_string(),
            args: vec![OscValue::Text("hello".to_string()), OscValue::Bool(true), OscValue::Bool(false)],
        }
    );
    assert_eq!(bundle.content[1].addr, "/avatar/parameters/A");
}

#[test]
fn values_compare_by_type_and_content() {
    assert!(OscValue::Float(1).same(&OscValue::Float(1)));
    assert!(!OscValue::Float(1).same(&OscValue::Degrees(1)));
    assert!(!OscValue::Int(1).same(&OscValue::Float(1)));
    assert!(!OscValue::Bool(true).same(&OscValue::Bool(false)));
    assert!(OscValue::Text("a".to_string()).same(&OscValue::Text("a".to_string())));
    assert!(!OscValue::Text("a".to_string()).same(&OscValue::Text("b".to_string())));
    assert_eq!(OscValue::Text("a".to_string()).duplicate(), OscValue::Text("a".to_string()));
}

#[test]
fn parameters_keep_the_latest_value() {
    let mut params = AvatarParameters::new();
    assert!(params.get("AFK").is_none());
    params.insert("AFK".to_string(), OscValue::Bool(false));
    params.insert("Motion".to_string(), OscValue::Int(1));
    params.insert("AFK".to_string(), OscValue::Bool(true));
    assert_eq!(params.get("AFK"), Some(&OscValue::Bool(true)));
    assert_eq!(params.get("Motion"), Some(&OscValue::Int(1)));
    assert!(params.get("afk").is_none());
    assert_eq!(params.entries.len(), 2);
}

#[test]
fn parameter_tests_look_at_type_and_value() {
    let mut params = AvatarParameters::new();
    params.insert("A".to_string(), OscValue::Bool(true));
    params.insert("B".to_string(), OscValue::Int(1));
    params.insert("C".to_string(), OscValue::Float(100_001));
    assert!(params.is_true("A"));
    assert!(!params.is_true("B"));
    assert!(!params.is_true("Z"));
    assert!(params.is_int("B", 1));
    assert!(!params.is_int("B", 2));
    assert!(!params.is_int("A", 1));
    assert!(params.float_above("C", 100_000));
    assert!(!params.float_above("C", 100_001));
    assert!(!params.float_above("B", 0));
}
