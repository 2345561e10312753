use oscavmgr::bundle::{AvatarBundle, OscMessage, OscValue};
use oscavmgr::gogo::{settling, ExtGogo, Staging};
use oscavmgr::params::AvatarParameters;

fn gogo() -> ExtGogo {
    ExtGogo::new("/tmp/poses.json".to_string(), 1, 2, 3)
}

fn int_msg(name: &str, v: i32) -> OscMessage {
    OscMessage { addr: format!("/avatar/parameters/{}", name), args: vec![OscValue::Int(v)] }
}

#[test]
fn a_new_pose_is_staged() {
    let mut g = gogo();
    g.notify("Go/StandIdle", &OscValue::Int(7), 1000);
    assert_eq!(g.staging, Some(Staging { idle_stand: 7, idle_crouch: 2, idle_prone: 3, time: 1000 }));
    g.notify("Go/ProneIdle", &OscValue::Int(9), 2000);
    assert_eq!(g.staging, Some(Staging { idle_stand: 7, idle_crouch: 2, idle_prone: 9, time: 2000 }));
    g.notify("Go/CrouchIdle", &OscValue::Int(8), 2500);
    assert_eq!(g.staging, Some(Staging { idle_stand: 7, idle_crouch: 8, idle_prone: 9, time: 2500 }));
    assert_eq!((g.idle_stand, g.idle_crouch, g.idle_prone), (1, 2, 3));
}

#[test]
fn a_pose_that_is_kept_already_is_not_staged() {
    let mut g = gogo();
    g.notify("Go/StandIdle", &OscValue::Int(1), 1000);
    g.notify("Go/Other", &OscValue::Int(5), 1000);
    g.notify("Go/StandIdle", &OscValue::Float(5), 1000);
    g.notify("Go/StandIdle", &OscValue::Bool(true), 1000);
    assert_eq!(g.staging, None);
}

#[test]
fn nothing_is_staged_while_an_avatar_change_settles() {
    let mut g = gogo();
    let mut bundle = AvatarBundle::new_bundle();
    g.notify("Go/StandIdle", &OscValue::Int(7), 500);
    g.avatar(1000, &mut bundle);
    assert_eq!(g.staging, None);
    assert_eq!(g.avatar_changed, Some(1000));
    assert_eq!(
        bundle.content,
        vec![int_msg("Go/StandIdle", 1), int_msg("Go/CrouchIdle", 2), int_msg("Go/ProneIdle", 3)]
    );
    g.notify("Go/StandIdle", &OscValue::Int(7), 5999);
    assert_eq!(g.staging, None);
    g.notify("Go/StandIdle", &OscValue::Int(7), 6000);
    assert_eq!(g.staging.unwrap().idle_stand, 7);
}

#[test]
fn staged_poses_are_kept_after_five_seconds() {
    let mut g = gogo();
    let params = AvatarParameters::new();
    let mut bundle = AvatarBundle::new_bundle();
    g.notify("Go/StandIdle", &OscValue::Int(7), 1000);
    assert!(!g.step(&params, 5999, &mut bundle));
    assert_eq!(g.idle_stand, 1);
    assert!(g.staging.is_some());
    assert!(g.step(&params, 6000, &mut bundle));
    assert_eq!((g.idle_stand, g.idle_crouch, g.idle_prone), (7, 2, 3));
    assert_eq!(g.staging, None);
    assert!(!g.step(&params, 7000, &mut bundle));
    assert_eq!(bundle.len(), 0);
}

#[test]
fn choosing_again_restarts_the_wait() {
    let mut g = gogo();
    let params = AvatarParameters::new();
    let mut bundle = AvatarBundle::new_bundle();
    g.notify("Go/StandIdle", &OscValue::Int(7), 1000);
    g.notify("Go/StandIdle", &OscValue::Int(8), 4000);
    assert!(!g.step(&params, 6000, &mut bundle));
    assert!(g.step(&params, 9000, &mut bundle));
    assert_eq!(g.idle_stand, 8);
}

#[test]
fn locomotion_follows_the_tracking_type() {
    let mut g = gogo();
    let mut params = AvatarParameters::new();
    let mut bundle = AvatarBundle::new_bundle();
    g.step(&params, 0, &mut bundle);
    assert_eq!(bundle.len(), 0);
    params.insert("TrackingType".to_string(), OscValue::Int(6));
    g.step(&params, 0, &mut bundle);
    assert_eq!(
        bundle.content,
        vec![OscMessage { addr: "/avatar/parameters/Go/Locomotion".to_string(), args: vec![OscValue::Bool(true)] }]
    );
    params.insert("Go/Locomotion".to_string(), OscValue::Bool(true));
    g.step(&params, 0, &mut bundle);
    assert_eq!(bundle.len(), 1);
    params.insert("TrackingType".to_string(), OscValue::Int(5));
    g.step(&params, 0, &mut bundle);
    assert_eq!(bundle.content[1].args, vec![OscValue::Bool(false)]);
    params.insert("TrackingType".to_string(), OscValue::Float(9));
    g.step(&params, 0, &mut bundle);
    assert_eq!(bundle.len(), 2);
}

#[test]
fn staging_copies_the_kept_poses() {
    let mut g = gogo();
    let s = Staging::from_live(&mut g, 77);
    assert_eq!(s, Staging { idle_stand: 1, idle_crouch: 2, idle_prone: 3, time: 77 });
    assert_eq!(g.staging, Some(s));
    g.staging = Some(Staging { idle_stand: 9, ..s });
    let again = Staging::from_live(&mut g, 99);
    assert_eq!(again, Staging { idle_stand: 9, idle_crouch: 2, idle_prone: 3, time: 99 });
    again.commit(&mut g);
    assert_eq!(g.idle_stand, 9);
    assert_eq!(g.staging, Some(again));
}

#[test]
fn settling_lasts_five_seconds() {
    assert!(settling(1000, 1000));
    assert!(settling(1000, 5999));
    assert!(!settling(1000, 6000));
    assert!(settling(1000, 10));
}
