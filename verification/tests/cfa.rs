use rawler::cfa::{CFAColor, PlaneColor, CFA};
use rawler::decoders::cfa::CFA as LegacyCFA;

#[test]
fn cfa_color_at_rggb() {
    let cfa = CFA::new("RGGB");
    assert_eq!(cfa.color_at(0, 0), 0);
    assert_eq!(cfa.color_at(0, 1), 1);
    assert_eq!(cfa.color_at(1, 0), 1);
    assert_eq!(cfa.color_at(1, 1), 2);
    // the pattern repeats
    assert_eq!(cfa.color_at(2, 2), 0);
    assert_eq!(cfa.color_at(3, 3), 2);
}

#[test]
fn cfa_shift_rggb() {
    let cfa = CFA::new("RGGB");
    let shifted = cfa.shift(1, 1);
    assert_eq!(shifted.color_at(0, 0), 2);
    assert_eq!(shifted.color_at(0, 1), 1);
    assert_eq!(shifted.color_at(1, 0), 1);
    assert_eq!(shifted.color_at(1, 1), 0);
    assert_eq!(shifted.to_string(), "BGGR");
}

#[test]
fn cfa_shift_twice_is_sum() {
    let cfa = CFA::new("RGGB");
    let once = cfa.shift(1, 0).shift(0, 1);
    let both = cfa.shift(1, 1);
    for row in 0..4 {
        for col in 0..4 {
            assert_eq!(once.color_at(row, col), both.color_at(row, col));
        }
    }
}

#[test]
fn cfa_is_valid() {
    assert!(CFA::new("RGGB").is_valid());
    assert!(!CFA::new("").is_valid());
}

#[test]
fn cfa_to_string() {
    assert_eq!(CFA::new("RGGB").to_string(), "RGGB");
}

#[test]
fn cfa_color_kinds() {
    let rggb = CFA::new("RGGB");
    assert!(rggb.is_rgb());
    assert!(!rggb.is_rgbe());
    assert!(!rggb.is_cygm());
    assert_eq!(rggb.unique_colors(), 3);
    assert_eq!(rggb.flat_pattern(), vec![0, 1, 1, 2]);
    assert_eq!(rggb.cfa_color_at(1, 1), CFAColor::BLUE);
    let rgbe = CFA::new("RGBE");
    assert_eq!(rgbe.unique_colors(), 4);
    assert_eq!(CFA::new("").unique_colors(), 0);
    assert!(rgbe.is_rgbe());
    assert!(!rgbe.is_rgb());
    let cygm = CFA::new("CYGM");
    assert!(cygm.is_cygm());
    assert!(!cygm.is_rgb());
}

#[test]
fn cfa_new_from_tag() {
    let cfa = CFA::new_from_tag(&[0, 1, 1, 2]);
    assert_eq!(cfa.to_string(), "RGGB");
    assert_eq!(cfa.width, 2);
    assert_eq!(cfa.height, 2);
    assert_eq!(cfa.color_at(1, 1), 2);
}

#[test]
fn cfa_map_colors() {
    let cfa = CFA::new("RGGB");
    // the second green of each 2x2 block becomes color 3
    let mapped = cfa.map_colors(|row, _col, c| if c == 1 && row % 2 == 1 { 3 } else { c });
    assert_eq!(mapped.color_at(0, 1), 1);
    assert_eq!(mapped.color_at(1, 0), 3);
    assert_eq!(mapped.color_at(1, 1), 2);
}

#[test]
fn cfa_color_codes() {
    assert_eq!(CFAColor::RED.to_u8(), 0);
    assert_eq!(CFAColor::GREEN.to_u8(), 1);
    assert_eq!(CFAColor::BLUE.to_u8(), 2);
    assert_eq!(CFAColor::try_from_u8(2), Some(CFAColor::BLUE));
    assert_eq!(CFAColor::try_from_u8(200), None);
    assert_eq!(CFAColor::try_from_char('G'), Some(CFAColor::GREEN));
    assert_eq!(CFAColor::try_from_char('X'), None);
}

#[test]
fn plane_color_lookup() {
    let planes = PlaneColor::new("RGB");
    assert_eq!(planes.plane_count(), 3);
    assert_eq!(planes.plane_colors(), vec![CFAColor::RED, CFAColor::GREEN, CFAColor::BLUE]);
    let lut = planes.plane_lookup_table();
    assert_eq!(lut[0], 0);
    assert_eq!(lut[1], 1);
    assert_eq!(lut[2], 2);
    assert_eq!(lut[3], 255);
    let cfa = CFA::new("GRBG");
    assert_eq!(PlaneColor::cfa_index(&cfa, CFAColor::RED), 1);
    assert_eq!(PlaneColor::cfa_index(&cfa, CFAColor::BLUE), 2);
    assert_eq!(PlaneColor::cfa_index(&cfa, CFAColor::GREEN), 0);
}

#[test]
fn legacy_cfa_pattern() {
    let cfa = LegacyCFA::new("RGGB");
    assert_eq!(cfa.color_at(0, 0), 0);
    assert_eq!(cfa.color_at(1, 1), 2);
    assert!(cfa.is_valid());
    let shifted = cfa.shift(1, 1);
    assert_eq!(shifted.to_string(), "BGGR");
    let from_tag = LegacyCFA::new_from_tag(&[0, 1, 1, 2]);
    assert_eq!(from_tag.to_string(), "RGGB");
    assert!(!LegacyCFA::new("").is_valid());
}
