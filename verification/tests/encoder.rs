use oscavmgr::bundle::{AvatarBundle, OscMessage, OscValue};
use oscavmgr::encoder::{quantize_level, MysteryParam};

fn level_e(x: f64) -> i32 {
    (x * 1_000_000.0).round() as i32
}

fn direct(name: &str) -> MysteryParam {
    let mut p = MysteryParam::new(name.to_string());
    p.main_address = Some(format!("FT/v2/{}", name));
    p
}

fn packed(name: &str, bits: usize, sign: bool) -> MysteryParam {
    let mut p = MysteryParam::new(name.to_string());
    let mut weight = 1;
    for i in 0..bits {
        p.addresses[i] = Some(format!("FT/v2/{}{}", name, weight));
        weight *= 2;
    }
    p.num_bits = bits;
    if sign {
        p.neg_address = Some(format!("FT/v2/{}Negative", name));
    }
    p
}

fn param_msg(addr: &str, value: OscValue) -> OscMessage {
    OscMessage { addr: format!("/avatar/parameters/{}", addr), args: vec![value] }
}

fn decode_bits(bits: &[bool]) -> i64 {
    let mut q = 0;
    for (i, b) in bits.iter().enumerate() {
        if *b {
            q += 1 << i;
        }
    }
    q
}

#[test]
fn direct_mode_suppresses_a_small_change() {
    let mut p = direct("JawOpen");
    let mut bundle = AvatarBundle::new_bundle();
    p.send(level_e(0.30), &mut bundle);
    p.send(level_e(0.305), &mut bundle);
    assert_eq!(bundle.content, vec![param_msg("FT/v2/JawOpen", OscValue::Float(level_e(0.30)))]);
    assert_eq!(p.last_value, level_e(0.30));
}

#[test]
fn direct_mode_sends_a_large_change() {
    let mut p = direct("JawOpen");
    let mut bundle = AvatarBundle::new_bundle();
    p.send(level_e(0.30), &mut bundle);
    p.send(level_e(0.32), &mut bundle);
    assert_eq!(
        bundle.content,
        vec![
            param_msg("FT/v2/JawOpen", OscValue::Float(level_e(0.30))),
            param_msg("FT/v2/JawOpen", OscValue::Float(level_e(0.32))),
        ]
    );
    assert_eq!(p.last_value, level_e(0.32));
}

#[test]
fn direct_mode_threshold_is_exclusive() {
    let mut p = direct("JawOpen");
    let mut bundle = AvatarBundle::new_bundle();
    p.send(level_e(0.01), &mut bundle);
    assert_eq!(bundle.len(), 0);
    p.send(level_e(0.010001), &mut bundle);
    assert_eq!(bundle.len(), 1);
    p.send(level_e(0.000001), &mut bundle);
    assert_eq!(bundle.len(), 1);
    p.send(level_e(0.0), &mut bundle);
    assert_eq!(bundle.len(), 2);
}

#[test]
fn direct_mode_compares_with_what_was_sent_last() {
    let mut p = direct("JawOpen");
    let mut bundle = AvatarBundle::new_bundle();
    p.send(level_e(0.30), &mut bundle);
    p.send(level_e(0.308), &mut bundle);
    p.send(level_e(0.316), &mut bundle);
    assert_eq!(bundle.len(), 2);
    assert_eq!(p.last_value, level_e(0.316));
}

#[test]
fn empty_descriptor_sends_nothing() {
    let mut p = MysteryParam::new("JawOpen".to_string());
    let mut bundle = AvatarBundle::new_bundle();
    p.send(level_e(0.9), &mut bundle);
    p.send(level_e(-0.9), &mut bundle);
    assert_eq!(bundle.len(), 0);
}

#[test]
fn bits_go_out_lowest_first() {
    let mut p = packed("JawX", 3, false);
    let mut bundle = AvatarBundle::new_bundle();
    p.send(level_e(1.0), &mut bundle);
    assert_eq!(
        bundle.content,
        vec![
            param_msg("FT/v2/JawX1", OscValue::Bool(true)),
            param_msg("FT/v2/JawX2", OscValue::Bool(true)),
            param_msg("FT/v2/JawX4", OscValue::Bool(true)),
        ]
    );
    assert_eq!(p.last_bits, [true, true, true, false, false, false, false, false]);
}

#[test]
fn only_changed_bits_go_out() {
    let mut p = packed("JawX", 3, false);
    let mut bundle = AvatarBundle::new_bundle();
    p.send(level_e(1.0), &mut bundle);
    let mut second = AvatarBundle::new_bundle();
    p.send(level_e(0.5), &mut second);
    assert_eq!(
        second.content,
        vec![
            param_msg("FT/v2/JawX1", OscValue::Bool(false)),
            param_msg("FT/v2/JawX2", OscValue::Bool(false)),
        ]
    );
    assert_eq!(decode_bits(&p.last_bits), 4);
}

#[test]
fn unchanged_quantized_value_sends_no_bits() {
    let mut p = packed("JawX", 3, false);
    let mut bundle = AvatarBundle::new_bundle();
    p.send(level_e(0.50), &mut bundle);
    let sent = bundle.len();
    p.send(level_e(0.52), &mut bundle);
    p.send(level_e(0.55), &mut bundle);
    assert_eq!(bundle.len(), sent);
    assert_eq!(quantize_level(520_000, 3), quantize_level(500_000, 3));
    assert_eq!(quantize_level(550_000, 3), 4);
}

#[test]
fn sign_goes_out_only_when_it_changes() {
    let mut p = packed("JawX", 2, true);
    let mut bundle = AvatarBundle::new_bundle();
    p.send(level_e(-1.0), &mut bundle);
    assert_eq!(
        bundle.content,
        vec![
            param_msg("FT/v2/JawXNegative", OscValue::Bool(true)),
            param_msg("FT/v2/JawX1", OscValue::Bool(true)),
            param_msg("FT/v2/JawX2", OscValue::Bool(true)),
        ]
    );
    let mut second = AvatarBundle::new_bundle();
    p.send(level_e(-1.0), &mut second);
    assert_eq!(second.len(), 0);
    p.send(level_e(1.0), &mut second);
    assert_eq!(second.content, vec![param_msg("FT/v2/JawXNegative", OscValue::Bool(false))]);
    assert!(!p.last_negative);
}

#[test]
fn without_a_sign_address_negative_values_count_as_zero() {
    let mut p = packed("JawX", 2, false);
    let mut bundle = AvatarBundle::new_bundle();
    p.send(level_e(1.0), &mut bundle);
    let mut second = AvatarBundle::new_bundle();
    p.send(level_e(-1.0), &mut second);
    assert_eq!(
        second.content,
        vec![
            param_msg("FT/v2/JawX1", OscValue::Bool(false)),
            param_msg("FT/v2/JawX2", OscValue::Bool(false)),
        ]
    );
}

#[test]
fn a_bit_without_an_address_is_skipped() {
    let mut p = MysteryParam::new("JawX".to_string());
    p.addresses[2] = Some("FT/v2/JawX4".to_string());
    p.num_bits = 3;
    let mut bundle = AvatarBundle::new_bundle();
    p.send(level_e(1.0), &mut bundle);
    assert_eq!(bundle.content, vec![param_msg("FT/v2/JawX4", OscValue::Bool(true))]);
    assert_eq!(p.last_bits, [false, false, true, false, false, false, false, false]);
}

#[test]
fn direct_and_packed_addresses_both_send() {
    let mut p = packed("JawX", 1, false);
    p.main_address = Some("FT/v2/JawX".to_string());
    let mut bundle = AvatarBundle::new_bundle();
    p.send(level_e(0.8), &mut bundle);
    assert_eq!(
        bundle.content,
        vec![
            param_msg("FT/v2/JawX", OscValue::Float(level_e(0.8))),
            param_msg("FT/v2/JawX1", OscValue::Bool(true)),
        ]
    );
}

#[test]
fn quantization_rounds_to_nearest() {
    assert_eq!(quantize_level(500_000, 8), 128);
    assert_eq!(quantize_level(1_000_000, 8), 255);
    assert_eq!(quantize_level(0, 8), 0);
    assert_eq!(quantize_level(333_333, 2), 1);
    assert_eq!(quantize_level(500_000, 1), 1);
    assert_eq!(quantize_level(499_999, 1), 0);
    assert_eq!(quantize_level(700_000, 0), 0);
    assert_eq!(quantize_level(2_000_000, 2), 6);
}

#[test]
fn quantization_stays_within_one_step() {
    for bits in 1..=8usize {
        let scale: i64 = (1 << bits) - 1;
        for step in 0..=1000i64 {
            let value = step * 1000;
            let mut p = packed("JawOpen", bits, false);
            let mut bundle = AvatarBundle::new_bundle();
            p.send(value as i32, &mut bundle);
            let q = decode_bits(&p.last_bits);
            assert_eq!(q, quantize_level(value, bits));
            assert!(q <= scale);
            assert!((q * 1_000_000 - value * scale).abs() <= 1_000_000);
        }
    }
}
