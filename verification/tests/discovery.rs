use oscavmgr::discovery::{
    apply_leaf, bit_position, cleared_table, discover, slot_for, strip_address, Slot,
};
use oscavmgr::encoder::MysteryParam;
use oscavmgr::expressions::{CombinedExpression, UnifiedExpressions, NUM_SHAPES};
use oscavmgr::oscjson::{OscJsonEntry, OscJsonNode};
use oscavmgr::tracking::ExtTracking;
use oscavmgr::cli::FaceSetup;

fn leaf_node(path: &str) -> OscJsonNode {
    OscJsonNode::leaf(path.to_string(), 3, Some("f".to_string()))
}

fn inner(path: &str, children: Vec<(&str, OscJsonNode)>) -> OscJsonNode {
    OscJsonNode {
        full_path: path.to_string(),
        access: 0,
        data_type: None,
        contents: Some(
            children
                .into_iter()
                .map(|(name, node)| OscJsonEntry { name: name.to_string(), node })
                .collect(),
        ),
    }
}

fn ft_leaf(name: &str) -> (&str, OscJsonNode) {
    (name, leaf_node(&format!("/avatar/parameters/FT/v2/{}", name)))
}

fn avatar(leaves: Vec<(&str, OscJsonNode)>) -> OscJsonNode {
    inner(
        "/avatar",
        vec![(
            "parameters",
            inner(
                "/avatar/parameters",
                vec![("FT", inner("/avatar/parameters/FT", vec![("v2", inner("/avatar/parameters/FT/v2", leaves))]))],
            ),
        )],
    )
}

fn count_described(table: &[Option<MysteryParam>]) -> usize {
    table.iter().filter(|p| p.is_some()).count()
}

#[test]
fn plain_leaf_becomes_the_direct_address() {
    let table = discover(&avatar(vec![ft_leaf("JawOpen")]));
    assert_eq!(table.len(), NUM_SHAPES);
    let p = table[UnifiedExpressions::JawOpen.index()].as_ref().unwrap();
    assert_eq!(p.name, "JawOpen");
    assert_eq!(p.main_address.as_deref(), Some("FT/v2/JawOpen"));
    assert_eq!(p.neg_address, None);
    assert_eq!(p.num_bits, 0);
    assert_eq!(count_described(&table), 1);
}

#[test]
fn digit_suffixes_become_bit_addresses() {
    let table = discover(&avatar(vec![
        ft_leaf("JawX4"),
        ft_leaf("JawX1"),
        ft_leaf("JawX2"),
        ft_leaf("JawXNegative"),
    ]));
    let p = table[CombinedExpression::JawX.index()].as_ref().unwrap();
    assert_eq!(p.name, "JawX");
    assert_eq!(p.main_address, None);
    assert_eq!(p.num_bits, 3);
    assert_eq!(p.addresses[0].as_deref(), Some("FT/v2/JawX1"));
    assert_eq!(p.addresses[1].as_deref(), Some("FT/v2/JawX2"));
    assert_eq!(p.addresses[2].as_deref(), Some("FT/v2/JawX4"));
    assert_eq!(p.addresses[3], None);
    assert_eq!(p.neg_address.as_deref(), Some("FT/v2/JawXNegative"));
    assert_eq!(p.last_bits, [false; 8]);
    assert_eq!(count_described(&table), 1);
}

#[test]
fn bit_count_covers_the_highest_bit() {
    let table = discover(&avatar(vec![ft_leaf("MouthX128"), ft_leaf("MouthX2")]));
    let p = table[CombinedExpression::MouthX.index()].as_ref().unwrap();
    assert_eq!(p.num_bits, 8);
    assert_eq!(p.addresses[7].as_deref(), Some("FT/v2/MouthX128"));
    assert_eq!(p.addresses[1].as_deref(), Some("FT/v2/MouthX2"));
    assert_eq!(p.addresses[0], None);
}

#[test]
fn unknown_names_are_skipped() {
    let table = discover(&avatar(vec![
        ft_leaf("Bogus"),
        ft_leaf("VSync"),
        ft_leaf("jawopen"),
        ft_leaf("JawOpenNegativ"),
        ft_leaf("JawOpen"),
    ]));
    assert_eq!(count_described(&table), 1);
    assert!(table[UnifiedExpressions::JawOpen.index()].is_some());
}

#[test]
fn suffixes_that_are_no_power_of_two_are_skipped() {
    let table = discover(&avatar(vec![
        ft_leaf("JawOpen3"),
        ft_leaf("JawOpen0"),
        ft_leaf("JawOpen256"),
        ft_leaf("JawOpen99999999999999999999999999"),
    ]));
    assert_eq!(count_described(&table), 0);
}

#[test]
fn older_names_stand_for_their_channels() {
    let table = discover(&avatar(vec![ft_leaf("MouthPout"), ft_leaf("EyeLeftBlink2")]));
    let pout = table[CombinedExpression::LipPucker.index()].as_ref().unwrap();
    assert_eq!(pout.name, "MouthPout");
    assert_eq!(pout.main_address.as_deref(), Some("FT/v2/MouthPout"));
    let blink = table[UnifiedExpressions::EyeClosedLeft.index()].as_ref().unwrap();
    assert_eq!(blink.num_bits, 2);
    assert_eq!(blink.addresses[1].as_deref(), Some("FT/v2/EyeLeftBlink2"));
}

#[test]
fn leaves_are_found_at_any_depth() {
    let tree = inner(
        "/avatar",
        vec![(
            "parameters",
            inner(
                "/avatar/parameters",
                vec![
                    ("JawOpen", leaf_node("/avatar/parameters/JawOpen")),
                    ("deep", inner("/avatar/parameters/deep", vec![("JawX", leaf_node("/avatar/parameters/deep/JawX"))])),
                ],
            ),
        )],
    );
    let table = discover(&tree);
    assert_eq!(
        table[UnifiedExpressions::JawOpen.index()].as_ref().unwrap().main_address.as_deref(),
        Some("JawOpen")
    );
    assert_eq!(
        table[CombinedExpression::JawX.index()].as_ref().unwrap().main_address.as_deref(),
        Some("deep/JawX")
    );
}

#[test]
fn a_later_leaf_replaces_an_earlier_address() {
    let tree = avatar(vec![
        ("JawOpen", leaf_node("/avatar/parameters/first/JawOpen")),
        ("JawOpen", leaf_node("/avatar/parameters/second/JawOpen")),
    ]);
    let table = discover(&tree);
    assert_eq!(
        table[UnifiedExpressions::JawOpen.index()].as_ref().unwrap().main_address.as_deref(),
        Some("second/JawOpen")
    );
}

#[test]
fn a_short_path_is_skipped() {
    let tree = avatar(vec![("JawOpen", leaf_node("/avatar/JawOpen"))]);
    assert_eq!(count_described(&discover(&tree)), 0);
    assert_eq!(strip_address("/avatar/parameters/"), Some(String::new()));
    assert_eq!(strip_address("/avatar/parameters"), None);
    assert_eq!(strip_address("/avatar/parameters/FT/v2/X"), Some("FT/v2/X".to_string()));
}

#[test]
fn a_tree_without_parameters_gives_an_empty_table() {
    let tree = inner("/avatar", vec![("other", leaf_node("/avatar/parameters/JawOpen"))]);
    assert_eq!(count_described(&discover(&tree)), 0);
    assert_eq!(count_described(&discover(&leaf_node("/avatar"))), 0);
}

#[test]
fn rebuild_clears_stale_descriptors() {
    let mut tracking = ExtTracking::new(FaceSetup::Dummy);
    assert!(tracking.params[UnifiedExpressions::JawOpen.index()].is_some());
    tracking.osc_json(&avatar(vec![ft_leaf("JawOpen"), ft_leaf("JawX1")]));
    assert!(tracking.params[UnifiedExpressions::JawOpen.index()].is_some());
    assert!(tracking.params[CombinedExpression::JawX.index()].is_some());
    assert!(tracking.params[UnifiedExpressions::MouthClosed.index()].is_none());
    tracking.osc_json(&avatar(vec![ft_leaf("JawX1")]));
    assert!(tracking.params[UnifiedExpressions::JawOpen.index()].is_none());
    assert!(tracking.params[CombinedExpression::JawX.index()].is_some());
    tracking.osc_json(&leaf_node("/avatar"));
    assert_eq!(count_described(&tracking.params), 0);
}

#[test]
fn rebuild_forgets_what_was_sent() {
    let mut tracking = ExtTracking::new(FaceSetup::Dummy);
    let tree = avatar(vec![ft_leaf("JawOpen")]);
    tracking.osc_json(&tree);
    tracking.params[UnifiedExpressions::JawOpen.index()].as_mut().unwrap().last_value = 777;
    tracking.osc_json(&tree);
    assert_eq!(tracking.params[UnifiedExpressions::JawOpen.index()].as_ref().unwrap().last_value, 0);
}

#[test]
fn digit_strings_name_bits() {
    assert_eq!(bit_position("1"), Some(0));
    assert_eq!(bit_position("2"), Some(1));
    assert_eq!(bit_position("4"), Some(2));
    assert_eq!(bit_position("8"), Some(3));
    assert_eq!(bit_position("16"), Some(4));
    assert_eq!(bit_position("32"), Some(5));
    assert_eq!(bit_position("64"), Some(6));
    assert_eq!(bit_position("128"), Some(7));
    assert_eq!(bit_position("0128"), Some(7));
    assert_eq!(bit_position("256"), None);
    assert_eq!(bit_position("3"), None);
    assert_eq!(bit_position("0"), None);
    assert_eq!(bit_position(""), None);
    assert_eq!(bit_position("1x"), None);
    assert_eq!(bit_position("١"), None);
    assert_eq!(bit_position("18446744073709551617"), None);
}

#[test]
fn suffixes_pick_slots() {
    assert_eq!(slot_for(&None), Some(Slot::Main));
    assert_eq!(slot_for(&Some("Negative".to_string())), Some(Slot::Negative));
    assert_eq!(slot_for(&Some("8".to_string())), Some(Slot::Bit(3)));
    assert_eq!(slot_for(&Some("5".to_string())), None);
    assert_eq!(slot_for(&Some("negative".to_string())), None);
}

#[test]
fn a_leaf_is_taken_in_from_its_captured_groups() {
    let mut table = cleared_table();
    let groups = Some(vec![
        Some("JawOpen4".to_string()),
        Some("JawOpen".to_string()),
        Some("4".to_string()),
    ]);
    apply_leaf(&mut table, &groups, "/avatar/parameters/X/JawOpen4");
    let p = table[UnifiedExpressions::JawOpen.index()].as_ref().unwrap();
    assert_eq!(p.addresses[2].as_deref(), Some("X/JawOpen4"));
    assert_eq!(p.num_bits, 3);
    let before = table.clone();
    apply_leaf(&mut table, &None, "/avatar/parameters/X/JawOpen");
    apply_leaf(&mut table, &Some(vec![Some("JawOpen".to_string())]), "/avatar/parameters/X/JawOpen");
    apply_leaf(
        &mut table,
        &Some(vec![Some("JawOpen".to_string()), None, None]),
        "/avatar/parameters/X/JawOpen",
    );
    assert_eq!(table, before);
}
