use metarboard::classify::FlightCategory;
use metarboard::encode::{encode, vfr_string};

#[test]
fn repetition_by_cover_density() {
    assert_eq!(vfr_string("FEW", String::from("{66}")), "{66}");
    assert_eq!(vfr_string("SCT", String::from("{66}")), "{66}{66}");
    assert_eq!(vfr_string("BKN", String::from("{66}")), "{66}{66}{66}");
    assert_eq!(vfr_string("OVC", String::from("{66}")), "{66}{66}{66}{66}");
    assert_eq!(vfr_string("OVX", String::from("{66}")), "{66}{66}{66}{66}");
    assert_eq!(vfr_string("VV", String::from("{66}")), "{66}{66}{66}{66}");
}

#[test]
fn unrecognized_cover_gives_bare_token() {
    assert_eq!(vfr_string("XYZ", String::from("{67}")), "{67}");
}

#[test]
fn encode_vfr_with_broken_cover() {
    // Three repetitions of the VFR color token for a broken layer.
    assert_eq!(encode(FlightCategory::Vfr, Some("BKN")), "{66}{66}{66}");
}

#[test]
fn encode_without_cloud_layer() {
    assert_eq!(encode(FlightCategory::Vfr, None), "{66}");
    assert_eq!(encode(FlightCategory::Lifr, None), "{68}");
}

#[test]
fn encode_other_categories() {
    assert_eq!(encode(FlightCategory::Mvfr, Some("SCT")), "{67}{67}");
    assert_eq!(encode(FlightCategory::Ifr, Some("OVC")), "{63}{63}{63}{63}");
}
