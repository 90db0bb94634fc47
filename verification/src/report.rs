//! The structured report records that a decoded provider payload yields.

use vstd::prelude::*;

verus! {

/// The two report kinds the pipeline handles.
#[derive(Clone, Copy, Debug, PartialEq, Eq, Structural)]
pub enum ReportKind {
    Metar,
    Taf,
}

/// One cloud layer of a METAR record; only its cover code drives the
/// display encoding.
pub struct Cloud {
    pub cover: String,
}

/// One METAR record of a provider payload.
pub struct MetarData {
    pub raw_metar: String,
    pub clouds: Option<Vec<Cloud>>,
}

/// One TAF record of a provider payload.
pub struct TafData {
    pub station_id: String,
    pub raw_taf: String,
}

/// A decoded provider payload: the records of one response, most recent
/// first.
pub enum Payload {
    Metar(Vec<MetarData>),
    Taf(Vec<TafData>),
}

} // verus!
