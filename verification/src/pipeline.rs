//! The decode → classify → encode → format pipeline: one stateless
//! invocation per tick, from a decoded provider payload and an injected
//! clock value to the board's display string.

use vstd::prelude::*;

use crate::classify::spec_classify;
use crate::classify::classify;
use crate::encode::spec_encode;
use crate::encode::encode;
use crate::format::spec_hhmm;
use crate::format::spec_kind_label;
use crate::format::spec_metar_line;
use crate::format::spec_taf_fallback;
use crate::format::spec_taf_line;
use crate::format::format_hhmm;
use crate::format::format_metar_line;
use crate::format::format_taf_fallback;
use crate::format::format_taf_line;
use crate::parse::spec_ceiling;
use crate::parse::spec_mil_color;
use crate::parse::spec_visibility;
use crate::parse::find_ceiling;
use crate::parse::find_visibility;
use crate::parse::parse_mil_color;
use crate::report::MetarData;
use crate::report::Payload;
use crate::report::ReportKind;
use crate::report::TafData;
use vstd::string::StringExecFns;

verus! {

/// The sentinel message for an empty METAR payload: a valid terminal
/// state for the tick, not a parse failure.
pub open spec fn spec_no_metar_message() -> Seq<char> {
    "No METAR data available."@
}

/// The message for an empty TAF payload.
pub open spec fn spec_no_taf_message(hour: int, minute: int) -> Seq<char> {
    spec_hhmm(hour, minute) + " "@ + spec_kind_label(ReportKind::Taf)
        + "\nInvalid response from API."@
}

/// The cover code of the lowest cloud layer of a METAR record, if any
/// layer was reported.
pub open spec fn spec_lowest_cover(d: MetarData) -> Option<Seq<char>> {
    match d.clouds {
        Some(clouds) => if clouds@.len() > 0 {
            Some(clouds@[0].cover@)
        } else {
            None
        },
        None => None,
    }
}

/// The display line of one METAR record: the raw text is scanned for
/// visibility, ceiling and status keywords; the classified category is
/// encoded as segments and framed with the clock digits and the raw text.
pub open spec fn spec_metar_output(d: MetarData, hour: int, minute: int) -> Seq<char> {
    spec_metar_line(
        ReportKind::Metar,
        spec_encode(
            spec_classify(spec_visibility(d.raw_metar@), spec_ceiling(d.raw_metar@)),
            spec_lowest_cover(d),
        ),
        spec_mil_color(d.raw_metar@),
        spec_hhmm(hour, minute),
        d.raw_metar@,
    )
}

/// The display line of one TAF record: the clock digits and the raw text,
/// or the kind-and-station fallback when the raw text is empty.
pub open spec fn spec_taf_output(d: TafData, hour: int, minute: int) -> Seq<char> {
    spec_taf_line(
        spec_hhmm(hour, minute),
        if d.raw_taf@.len() > 0 {
            d.raw_taf@
        } else {
            spec_taf_fallback(ReportKind::Taf, d.station_id@)
        },
    )
}

/// The whole pipeline as one function of its inputs: only the first
/// record of a payload is used; an empty payload yields the designated
/// message of its kind.
pub open spec fn spec_handle_data(payload: Payload, hour: int, minute: int) -> Seq<char> {
    match payload {
        Payload::Metar(datas) => if datas@.len() == 0 {
            spec_no_metar_message()
        } else {
            spec_metar_output(datas@[0], hour, minute)
        },
        Payload::Taf(datas) => if datas@.len() == 0 {
            spec_no_taf_message(hour, minute)
        } else {
            spec_taf_output(datas@[0], hour, minute)
        },
    }
}

/// Runs one pipeline tick: turns a decoded payload and the injected clock
/// value into the board's display string.
pub fn handle_data(payload: &Payload, hour: u8, minute: u8) -> (out: String)
    requires
        hour < 24,
        minute < 60,
    ensures
        out@ == spec_handle_data(*payload, hour as int, minute as int),
{
    let time = format_hhmm(hour, minute);
    match payload {
        Payload::Metar(datas) => {
            if datas.len() == 0 {
                String::from_str("No METAR data available.")
            } else {
                let d = &datas[0];
                let raw = d.raw_metar.as_str();
                let mil = parse_mil_color(raw);
                let visibility = find_visibility(raw);
                let ceiling = find_ceiling(raw);
                let category = classify(visibility, ceiling);
                let lowest_cover: Option<&str> = match &d.clouds {
                    Some(clouds) => if clouds.len() > 0 {
                        Some(clouds[0].cover.as_str())
                    } else {
                        None
                    },
                    None => None,
                };
                let vfr = encode(category, lowest_cover);
                format_metar_line(
                    ReportKind::Metar,
                    vfr.as_str(),
                    mil.as_str(),
                    time.as_str(),
                    raw,
                )
            }
        },
        Payload::Taf(datas) => {
            if datas.len() == 0 {
                let mut out = time;
                out.append(" ");
                out.append("TAF");
                out.append("\nInvalid response from API.");
                proof {
                    assert(out@ =~= spec_no_taf_message(hour as int, minute as int));
                }
                out
            } else {
                let d = &datas[0];
                if d.raw_taf.as_str().unicode_len() > 0 {
                    format_taf_line(time.as_str(), d.raw_taf.as_str())
                } else {
                    let fallback = format_taf_fallback(ReportKind::Taf, d.station_id.as_str());
                    format_taf_line(time.as_str(), fallback.as_str())
                }
            }
        },
    }
}

/// Law: the pipeline is idempotent — two invocations with identical
/// payload and clock input yield byte-identical output.
pub proof fn lemma_pipeline_idempotent(
    payload1: Payload,
    payload2: Payload,
    hour1: int,
    minute1: int,
    hour2: int,
    minute2: int,
)
    requires
        payload1 == payload2,
        hour1 == hour2,
        minute1 == minute2,
    ensures
        spec_handle_data(payload1, hour1, minute1) == spec_handle_data(payload2, hour2, minute2),
{
}

} // verus!
