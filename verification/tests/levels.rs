use oscavmgr::level::{div_floor, to_level};

#[test]
fn floor_division_rounds_down() {
    assert_eq!(div_floor(7, 2), 3);
    assert_eq!(div_floor(-7, 2), -4);
    assert_eq!(div_floor(-8, 2), -4);
    assert_eq!(div_floor(0, 5), 0);
}

#[test]
fn to_level_saturates() {
    assert_eq!(to_level(5_000_000_000), i32::MAX);
    assert_eq!(to_level(-5_000_000_000), i32::MIN);
    assert_eq!(to_level(-17), -17);
}
