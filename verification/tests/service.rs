use oscavmgr::cli::FaceSetup;
use oscavmgr::encoder::MysteryParam;
use oscavmgr::service::{avatar_url, preferred_index, ExtOscJson, ServiceAddress};
use oscavmgr::text::{decimal_text, has_char, joined, owned};
use oscavmgr::tracking::ExtTracking;

fn v4(text: &str) -> ServiceAddress {
    ServiceAddress { text: text.to_string(), ipv4: true }
}

fn v6(text: &str) -> ServiceAddress {
    ServiceAddress { text: text.to_string(), ipv4: false }
}

#[test]
fn numbers_are_written_in_decimal() {
    assert_eq!(decimal_text(0), "0");
    assert_eq!(decimal_text(7), "7");
    assert_eq!(decimal_text(10), "10");
    assert_eq!(decimal_text(9000), "9000");
    assert_eq!(decimal_text(65535), "65535");
    assert_eq!(decimal_text(u64::MAX), "18446744073709551615");
}

#[test]
fn text_helpers_do_what_they_say() {
    assert_eq!(joined("ab", "cd"), "abcd");
    assert_eq!(owned("x"), "x");
    assert!(has_char("fe80::1", ':'));
    assert!(!has_char("127.0.0.1", ':'));
    assert!(!has_char("", ':'));
}

#[test]
fn the_older_protocol_version_is_preferred() {
    assert_eq!(preferred_index(&vec![]), None);
    assert_eq!(preferred_index(&vec![v6("::1")]), Some(0));
    assert_eq!(preferred_index(&vec![v6("::1"), v4("10.0.0.2"), v4("10.0.0.3")]), Some(1));
    assert_eq!(preferred_index(&vec![v6("::1"), v6("::2")]), Some(0));
}

#[test]
fn the_url_names_host_and_port() {
    assert_eq!(
        avatar_url("VRChat-Client-ABC._oscjson._tcp.local.", &vec![v4("127.0.0.1")], 9001),
        Some("http://127.0.0.1:9001/avatar".to_string())
    );
    assert_eq!(
        avatar_url("VRChat-Client-ABC", &vec![v6("fe80::1")], 80),
        Some("http://[fe80::1]:80/avatar".to_string())
    );
    assert_eq!(
        avatar_url("VRChat-Client-ABC", &vec![v6("fe80::1"), v4("192.168.1.2")], 65535),
        Some("http://192.168.1.2:65535/avatar".to_string())
    );
}

#[test]
fn other_services_are_skipped() {
    assert_eq!(avatar_url("Other-Client-ABC", &vec![v4("127.0.0.1")], 9001), None);
    assert_eq!(avatar_url("vrchat-client-abc", &vec![v4("127.0.0.1")], 9001), None);
    assert_eq!(avatar_url("VRChat-Client-ABC", &vec![], 9001), None);
}

#[test]
fn the_first_service_found_asks_for_the_tree() {
    let mut watch = ExtOscJson::new(0);
    assert!(!watch.resolved("Other", &vec![v4("127.0.0.1")], 1));
    assert_eq!(watch.oscjson_addr, None);
    assert!(watch.resolved("VRChat-Client-1", &vec![v4("127.0.0.1")], 1));
    assert_eq!(watch.oscjson_addr.as_deref(), Some("http://127.0.0.1:1/avatar"));
    assert!(!watch.resolved("VRChat-Client-2", &vec![v4("127.0.0.2")], 2));
    assert_eq!(watch.oscjson_addr.as_deref(), Some("http://127.0.0.2:2/avatar"));
}

#[test]
fn the_watch_looks_every_quarter_of_a_minute() {
    let mut watch = ExtOscJson::new(100);
    assert!(!watch.step(99));
    assert!(watch.step(100));
    assert_eq!(watch.next_run, 15_100);
    assert!(!watch.step(15_099));
    assert!(watch.step(20_000));
    assert_eq!(watch.next_run, 35_000);
    assert!(watch.step(u64::MAX));
    assert_eq!(watch.next_run, u64::MAX);
}

#[test]
fn descriptors_say_what_they_offer() {
    let mut p = MysteryParam::new("JawX".to_string());
    assert_eq!(p.summary(), "JawX: ");
    p.main_address = Some("FT/v2/JawX".to_string());
    assert_eq!(p.summary(), "JawX: float");
    p.addresses[0] = Some("FT/v2/JawX1".to_string());
    p.num_bits = 1;
    assert_eq!(p.summary(), "JawX: float + 1 bits");
    p.addresses[3] = Some("FT/v2/JawX8".to_string());
    p.num_bits = 4;
    p.neg_address = Some("FT/v2/JawXNegative".to_string());
    assert_eq!(p.summary(), "JawX: float + 4 bit + neg");
    p.main_address = None;
    assert_eq!(p.summary(), "JawX: 4 bit + neg");
}

#[test]
fn every_described_channel_has_a_line() {
    let tracking = ExtTracking::new(FaceSetup::Dummy);
    let lines = tracking.print_params();
    assert_eq!(lines.len(), 21);
    assert_eq!(lines[0], "EyeSquintRight: float");
    assert_eq!(lines[20], "LipPucker: float");
}
