use metarboard::classify::{calculate_vfr_color_code, category_color, classify, FlightCategory};

#[test]
fn vfr_band_concrete() {
    assert_eq!(classify(6, 3001), FlightCategory::Vfr);
    assert_eq!(classify(7, 9999), FlightCategory::Vfr);
    assert_eq!(classify(100, 99900), FlightCategory::Vfr);
}

#[test]
fn mvfr_band_concrete() {
    assert_eq!(classify(3, 1000), FlightCategory::Mvfr);
    assert_eq!(classify(4, 2000), FlightCategory::Mvfr);
    assert_eq!(classify(6, 3000), FlightCategory::Mvfr);
}

#[test]
fn ifr_band_concrete() {
    assert_eq!(classify(1, 500), FlightCategory::Ifr);
    assert_eq!(classify(2, 700), FlightCategory::Ifr);
    assert_eq!(classify(2, 999), FlightCategory::Ifr);
}

#[test]
fn lifr_dominates_low_visibility() {
    assert_eq!(classify(0, 9999), FlightCategory::Lifr);
    assert_eq!(classify(0, 400), FlightCategory::Lifr);
}

#[test]
fn lifr_dominates_low_ceiling() {
    assert_eq!(classify(9, 400), FlightCategory::Lifr);
    assert_eq!(classify(2, 499), FlightCategory::Lifr);
}

#[test]
fn fallback_gap_defaults_to_vfr() {
    // 4 sm / 4000 ft matches no band and falls through to the VFR default.
    assert_eq!(classify(4, 4000), FlightCategory::Vfr);
    // 7 sm with a 1500 ft ceiling sits in the gap as well.
    assert_eq!(classify(7, 1500), FlightCategory::Vfr);
}

#[test]
fn category_color_tokens() {
    assert_eq!(category_color(FlightCategory::Vfr), "{66}");
    assert_eq!(category_color(FlightCategory::Mvfr), "{67}");
    assert_eq!(category_color(FlightCategory::Ifr), "{63}");
    assert_eq!(category_color(FlightCategory::Lifr), "{68}");
}

#[test]
fn color_code_from_raw_report() {
    assert_eq!(calculate_vfr_color_code("0002SM BKN007"), "{63}");
    assert_eq!(calculate_vfr_color_code("0002SM OVC003"), "{68}");
    assert_eq!(calculate_vfr_color_code("0007SM"), "{66}");
}
