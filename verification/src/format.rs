//! Display line assembly: clock digits, report-kind labels and the final
//! board lines.  Pure string assembly; the clock value is injected by the
//! caller.

use vstd::prelude::*;

use crate::report::ReportKind;
use vstd::string::StringExecFns;

verus! {

/// The character of one decimal digit.
pub open spec fn digit_char(d: int) -> char {
    if d == 0 {
        '0'
    } else if d == 1 {
        '1'
    } else if d == 2 {
        '2'
    } else if d == 3 {
        '3'
    } else if d == 4 {
        '4'
    } else if d == 5 {
        '5'
    } else if d == 6 {
        '6'
    } else if d == 7 {
        '7'
    } else if d == 8 {
        '8'
    } else {
        '9'
    }
}

/// A 24-hour clock value as four digits, zero padded, no separator.
pub open spec fn spec_hhmm(hour: int, minute: int) -> Seq<char> {
    seq![
        digit_char(hour / 10),
        digit_char(hour % 10),
        digit_char(minute / 10),
        digit_char(minute % 10),
    ]
}

/// One decimal digit as a string slice.
fn digit_str(d: u8) -> (r: &'static str)
    requires
        d < 10,
    ensures
        r@ == seq![digit_char(d as int)],
{
    let r: &'static str = match d {
        0 => "0",
        1 => "1",
        2 => "2",
        3 => "3",
        4 => "4",
        5 => "5",
        6 => "6",
        7 => "7",
        8 => "8",
        _ => "9",
    };
    proof {
        reveal_strlit("0");
        reveal_strlit("1");
        reveal_strlit("2");
        reveal_strlit("3");
        reveal_strlit("4");
        reveal_strlit("5");
        reveal_strlit("6");
        reveal_strlit("7");
        reveal_strlit("8");
        reveal_strlit("9");
        assert(r@ =~= seq![digit_char(d as int)]);
    }
    r
}

/// Renders an injected clock value as the four-digit `HHMM` form.
pub fn format_hhmm(hour: u8, minute: u8) -> (r: String)
    requires
        hour < 24,
        minute < 60,
    ensures
        r@ == spec_hhmm(hour as int, minute as int),
{
    let mut out = String::new();
    out.append(digit_str(hour / 10));
    out.append(digit_str(hour % 10));
    out.append(digit_str(minute / 10));
    out.append(digit_str(minute % 10));
    proof {
        assert(out@ =~= spec_hhmm(hour as int, minute as int));
    }
    out
}

/// The display label of a report kind.
pub open spec fn spec_kind_label(kind: ReportKind) -> Seq<char> {
    match kind {
        ReportKind::Metar => "MET"@,
        ReportKind::Taf => "TAF"@,
    }
}

/// Returns the display label of a report kind.
pub fn kind_label(kind: ReportKind) -> (r: &'static str)
    ensures
        r@ == spec_kind_label(kind),
{
    match kind {
        ReportKind::Metar => "MET",
        ReportKind::Taf => "TAF",
    }
}

/// The first METAR board line: kind label, category segments, status
/// token, clock digits, then the raw report after a literal backslash-n
/// separator.
pub open spec fn spec_metar_line(
    kind: ReportKind,
    vfr: Seq<char>,
    mil: Seq<char>,
    hhmm: Seq<char>,
    raw: Seq<char>,
) -> Seq<char> {
    spec_kind_label(kind) + " VFR"@ + vfr + " MIL"@ + mil + "JT"@ + hhmm + "\\n"@ + raw
}

/// Assembles the first METAR board line.
pub fn format_metar_line(
    kind: ReportKind,
    vfr: &str,
    mil: &str,
    hhmm: &str,
    raw: &str,
) -> (out: String)
    ensures
        out@ == spec_metar_line(kind, vfr@, mil@, hhmm@, raw@),
{
    let mut out = String::from_str(kind_label(kind));
    out.append(" VFR");
    out.append(vfr);
    out.append(" MIL");
    out.append(mil);
    out.append("JT");
    out.append(hhmm);
    out.append("\\n");
    out.append(raw);
    proof {
        assert(out@ =~= spec_metar_line(kind, vfr@, mil@, hhmm@, raw@));
    }
    out
}

/// The TAF board line: clock digits, then the report text.
pub open spec fn spec_taf_line(hhmm: Seq<char>, text: Seq<char>) -> Seq<char> {
    hhmm + " "@ + text
}

/// Assembles the TAF board line.
pub fn format_taf_line(hhmm: &str, text: &str) -> (out: String)
    ensures
        out@ == spec_taf_line(hhmm@, text@),
{
    let mut out = String::from_str(hhmm);
    out.append(" ");
    out.append(text);
    proof {
        assert(out@ =~= spec_taf_line(hhmm@, text@));
    }
    out
}

/// The fallback TAF text when the report's raw text is empty: the kind
/// label followed by the station identifier.
pub open spec fn spec_taf_fallback(kind: ReportKind, station_id: Seq<char>) -> Seq<char> {
    spec_kind_label(kind) + " "@ + station_id
}

/// Assembles the fallback TAF text for an empty raw report.
pub fn format_taf_fallback(kind: ReportKind, station_id: &str) -> (out: String)
    ensures
        out@ == spec_taf_fallback(kind, station_id@),
{
    let mut out = String::from_str(kind_label(kind));
    out.append(" ");
    out.append(station_id);
    proof {
        assert(out@ =~= spec_taf_fallback(kind, station_id@));
    }
    out
}

} // verus!
