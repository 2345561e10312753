use oscavmgr::bundle::{AvatarBundle, OscMessage, OscValue};
use oscavmgr::transport::{chunked, plan_transport, CHUNK_SIZE};
use oscavmgr::watchdog::{timer_interval, DriveMode, Scheduler, SchedulerEvent, Watchdog};

fn numbered(count: usize) -> AvatarBundle {
    let mut bundle = AvatarBundle::new_bundle();
    for i in 0..count {
        bundle.send_parameter(&format!("N{}", i), OscValue::Int(i as i32));
    }
    bundle
}

fn check_dispatch(count: usize) {
    let bundle = numbered(count);
    let before = bundle.content.clone();
    let plan = plan_transport(bundle);
    let rest = if count > 0 { count - 1 } else { 0 };
    assert_eq!(plan.fast.is_some(), count > 0);
    assert_eq!(plan.chunks.len(), (rest + 29) / 30);
    for (i, chunk) in plan.chunks.iter().enumerate() {
        assert!(!chunk.is_empty());
        assert!(chunk.len() <= 30);
        if i + 1 < plan.chunks.len() {
            assert_eq!(chunk.len(), 30);
        }
    }
    let mut again: Vec<OscMessage> = plan.fast.into_iter().collect();
    for chunk in plan.chunks {
        again.extend(chunk);
    }
    assert_eq!(again, before);
}

#[test]
fn chunk_size_is_thirty() {
    assert_eq!(CHUNK_SIZE, 30);
}

#[test]
fn dispatch_puts_every_message_back_in_order() {
    for count in [0, 1, 2, 29, 30, 31, 32, 60, 61, 62, 91, 200] {
        check_dispatch(count);
    }
}

#[test]
fn a_single_message_travels_alone() {
    let plan = plan_transport(numbered(1));
    assert_eq!(plan.fast.unwrap().addr, "/avatar/parameters/N0");
    assert!(plan.chunks.is_empty());
}

#[test]
fn an_empty_bundle_sends_nothing() {
    let plan = plan_transport(numbered(0));
    assert_eq!(plan.fast, None);
    assert!(plan.chunks.is_empty());
}

#[test]
fn thirty_two_messages_make_one_fast_and_two_packets() {
    let plan = plan_transport(numbered(32));
    assert_eq!(plan.fast.unwrap().addr, "/avatar/parameters/N0");
    assert_eq!(plan.chunks.len(), 2);
    assert_eq!(plan.chunks[0].len(), 30);
    assert_eq!(plan.chunks[0][0].addr, "/avatar/parameters/N1");
    assert_eq!(plan.chunks[1].len(), 1);
    assert_eq!(plan.chunks[1][0].addr, "/avatar/parameters/N31");
}

#[test]
fn chunked_cuts_runs_of_any_size() {
    assert_eq!(chunked(vec![1, 2, 3, 4, 5], 2), vec![vec![1, 2], vec![3, 4], vec![5]]);
    assert_eq!(chunked(vec![1, 2, 3, 4], 2), vec![vec![1, 2], vec![3, 4]]);
    assert_eq!(chunked(vec![1, 2, 3], 5), vec![vec![1, 2, 3]]);
    assert_eq!(chunked(vec![1, 2, 3], 1), vec![vec![1], vec![2], vec![3]]);
    assert_eq!(chunked(Vec::<i32>::new(), 3), Vec::<Vec<i32>>::new());
}

#[test]
fn scheduler_starts_self_driven() {
    let s = Scheduler::new();
    assert_eq!(s.mode, DriveMode::SelfDriven);
    assert_eq!(timer_interval(s.mode), 11);
}

#[test]
fn heartbeat_hands_the_ticks_to_the_avatar_runtime() {
    let mut s = Scheduler::new();
    assert!(s.on_event(SchedulerEvent::Heartbeat, 40));
    assert_eq!(s.mode, DriveMode::ExternallyDriven);
    assert_eq!(s.watchdog.last_received, 40);
    assert_eq!(timer_interval(s.mode), 200);
}

#[test]
fn discovery_sets_the_mode_by_the_heartbeat_parameter() {
    let mut s = Scheduler::new();
    assert!(!s.on_event(SchedulerEvent::Discovered { has_vsync: true }, 10));
    assert_eq!(s.mode, DriveMode::ExternallyDriven);
    assert_eq!(s.watchdog.last_received, 0);
    assert!(!s.on_event(SchedulerEvent::Discovered { has_vsync: false }, 20));
    assert_eq!(s.mode, DriveMode::SelfDriven);
}

#[test]
fn loopback_ticks_in_either_mode() {
    let mut s = Scheduler::new();
    assert!(s.on_event(SchedulerEvent::Loopback, 11));
    assert_eq!(s.mode, DriveMode::SelfDriven);
    s.on_event(SchedulerEvent::Heartbeat, 20);
    assert!(s.on_event(SchedulerEvent::Loopback, 31));
    assert_eq!(s.mode, DriveMode::ExternallyDriven);
    assert_eq!(s.watchdog.last_received, 31);
}

#[test]
fn watchdog_recovers_after_half_a_second_of_silence() {
    let mut s = Scheduler::new();
    s.on_event(SchedulerEvent::Heartbeat, 1000);
    assert!(!s.on_event(SchedulerEvent::WatchdogPoll, 1500));
    assert_eq!(s.mode, DriveMode::ExternallyDriven);
    assert!(!s.on_event(SchedulerEvent::WatchdogPoll, 1501));
    assert_eq!(s.mode, DriveMode::SelfDriven);
    assert_eq!(timer_interval(s.mode), 11);
    assert_eq!(s.watchdog.last_received, 1000);
}

#[test]
fn watchdog_leaves_a_live_driver_alone() {
    let mut s = Scheduler::new();
    for t in (0..3000).step_by(100) {
        s.on_event(SchedulerEvent::Heartbeat, t);
        s.on_event(SchedulerEvent::WatchdogPoll, t + 99);
        assert_eq!(s.mode, DriveMode::ExternallyDriven);
    }
}

#[test]
fn watchdog_catches_a_driver_that_never_came() {
    let mut s = Scheduler::new();
    s.on_event(SchedulerEvent::Discovered { has_vsync: true }, 100);
    s.on_event(SchedulerEvent::WatchdogPoll, 1000);
    assert_eq!(s.mode, DriveMode::SelfDriven);
}

#[test]
fn watchdog_expires_only_past_the_timeout() {
    let mut w = Watchdog::new();
    assert_eq!(w.last_received, 0);
    w.update(200);
    assert_eq!(w.last_received, 200);
    assert!(!w.expired(100));
    assert!(!w.expired(700));
    assert!(w.expired(701));
    assert_eq!(w.run(701, DriveMode::ExternallyDriven), DriveMode::SelfDriven);
    assert_eq!(w.run(700, DriveMode::ExternallyDriven), DriveMode::ExternallyDriven);
    assert_eq!(w.run(700, DriveMode::SelfDriven), DriveMode::SelfDriven);
}
