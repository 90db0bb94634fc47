use metarboard::api::build_api_url;
use metarboard::config::Config;
use metarboard::format::{format_hhmm, format_metar_line, format_taf_fallback, kind_label};
use metarboard::pipeline::handle_data;
use metarboard::report::{Cloud, MetarData, Payload, ReportKind, TafData};

#[test]
fn empty_metar_payload_is_no_data_sentinel() {
    let payload = Payload::Metar(Vec::new());
    assert_eq!(handle_data(&payload, 14, 35), "No METAR data available.");
}

#[test]
fn empty_taf_payload_message() {
    let payload = Payload::Taf(Vec::new());
    assert_eq!(
        handle_data(&payload, 14, 35),
        "1435 TAF\nInvalid response from API."
    );
}

#[test]
fn metar_line_full() {
    let payload = Payload::Metar(vec![MetarData {
        raw_metar: String::from("0002SM BKN007 RED"),
        clouds: Some(vec![Cloud {
            cover: String::from("BKN"),
        }]),
    }]);
    // Visibility 2 sm with a 700 ft ceiling is IFR; the status keyword RED
    // and a broken layer repeat the IFR color three times.
    assert_eq!(
        handle_data(&payload, 14, 35),
        "MET VFR{63}{63}{63} MIL{63}JT1435\\n0002SM BKN007 RED"
    );
}

#[test]
fn metar_line_without_clouds_uses_bare_token() {
    let payload = Payload::Metar(vec![MetarData {
        raw_metar: String::from("0007SM"),
        clouds: None,
    }]);
    assert_eq!(
        handle_data(&payload, 9, 5),
        "MET VFR{66} MIL JT0905\\n0007SM"
    );
}

#[test]
fn metar_uses_only_first_record() {
    let payload = Payload::Metar(vec![
        MetarData {
            raw_metar: String::from("0007SM"),
            clouds: None,
        },
        MetarData {
            raw_metar: String::from("0001SM OVC001 RED"),
            clouds: Some(vec![Cloud {
                cover: String::from("OVC"),
            }]),
        },
    ]);
    assert_eq!(
        handle_data(&payload, 9, 5),
        "MET VFR{66} MIL JT0905\\n0007SM"
    );
}

#[test]
fn metar_line_with_kilometer_visibility() {
    let payload = Payload::Metar(vec![MetarData {
        raw_metar: String::from("5KM OVC010"),
        clouds: Some(vec![Cloud {
            cover: String::from("OVC"),
        }]),
    }]);
    // 5 km converts to 3 sm; with a 1000 ft ceiling that is MVFR, and an
    // overcast layer repeats the MVFR color four times.
    assert_eq!(
        handle_data(&payload, 7, 45),
        "MET VFR{67}{67}{67}{67} MIL JT0745\\n5KM OVC010"
    );
}

#[test]
fn taf_line_with_raw_text() {
    let payload = Payload::Taf(vec![TafData {
        station_id: String::from("EHGR"),
        raw_taf: String::from("TAF EHGR 121325Z 1213/1312 24010KT"),
    }]);
    assert_eq!(
        handle_data(&payload, 9, 5),
        "0905 TAF EHGR 121325Z 1213/1312 24010KT"
    );
}

#[test]
fn taf_empty_raw_text_falls_back_to_kind_and_station() {
    let payload = Payload::Taf(vec![TafData {
        station_id: String::from("EHGR"),
        raw_taf: String::new(),
    }]);
    assert_eq!(handle_data(&payload, 14, 35), "1435 TAF EHGR");
}

#[test]
fn pipeline_is_idempotent() {
    let payload = Payload::Metar(vec![MetarData {
        raw_metar: String::from("0004SM BKN020 GRN"),
        clouds: Some(vec![Cloud {
            cover: String::from("SCT"),
        }]),
    }]);
    let first = handle_data(&payload, 23, 59);
    let second = handle_data(&payload, 23, 59);
    assert_eq!(first, second);
}

#[test]
fn hhmm_zero_pads() {
    assert_eq!(format_hhmm(0, 0), "0000");
    assert_eq!(format_hhmm(9, 5), "0905");
    assert_eq!(format_hhmm(23, 59), "2359");
}

#[test]
fn kind_labels() {
    assert_eq!(kind_label(ReportKind::Metar), "MET");
    assert_eq!(kind_label(ReportKind::Taf), "TAF");
}

#[test]
fn metar_line_assembly() {
    assert_eq!(
        format_metar_line(ReportKind::Metar, "{66}", " ", "1435", "RAW"),
        "MET VFR{66} MIL JT1435\\nRAW"
    );
}

#[test]
fn taf_fallback_assembly() {
    assert_eq!(format_taf_fallback(ReportKind::Taf, "EHGR"), "TAF EHGR");
}

#[test]
fn api_url_for_station() {
    assert_eq!(
        build_api_url("EHGR", "metar"),
        "https://aviationweather.gov/api/data/metar?ids=EHGR&format=json"
    );
    assert_eq!(
        build_api_url("KJFK", "taf"),
        "https://aviationweather.gov/api/data/taf?ids=KJFK&format=json"
    );
}

#[test]
fn default_config_values() {
    let config = Config::default();
    assert_eq!(config.interval, 30);
    assert_eq!(config.station, "EHGR");
}
