//! Flight-category classification from visibility and cloud ceiling.

use vstd::prelude::*;

use crate::parse::find_ceiling;
use crate::parse::find_visibility;
use crate::parse::spec_ceiling;
use crate::parse::spec_visibility;
use vstd::string::StringExecFns;

verus! {

/// Standard flight category summarizing flight conditions.
#[derive(Clone, Copy, Debug, PartialEq, Eq, Structural)]
pub enum FlightCategory {
    Vfr,
    Mvfr,
    Ifr,
    Lifr,
}

/// The banding table, evaluated top to bottom; the first matching band wins.
/// The bands do not cover the whole input domain: anything that matches no
/// band (for example visibility 4 sm with a 4000 ft ceiling) falls through
/// to the explicit VFR default.
pub open spec fn spec_classify(visibility_sm: int, ceiling_ft: int) -> FlightCategory {
    if visibility_sm >= 6 && ceiling_ft > 3000 {
        FlightCategory::Vfr
    } else if 3 <= visibility_sm && visibility_sm <= 6 && 1000 <= ceiling_ft && ceiling_ft
        <= 3000 {
        FlightCategory::Mvfr
    } else if 1 <= visibility_sm && visibility_sm < 3 && 500 <= ceiling_ft && ceiling_ft < 1000 {
        FlightCategory::Ifr
    } else if visibility_sm < 1 || ceiling_ft < 500 {
        FlightCategory::Lifr
    } else {
        FlightCategory::Vfr
    }
}

/// Maps visibility (statute miles) and ceiling (feet) to a flight category
/// by the banding table.
pub fn classify(visibility_sm: i32, ceiling_ft: i32) -> (category: FlightCategory)
    ensures
        category == spec_classify(visibility_sm as int, ceiling_ft as int),
{
    if visibility_sm >= 6 && ceiling_ft > 3000 {
        FlightCategory::Vfr
    } else if visibility_sm >= 3 && visibility_sm <= 6 && ceiling_ft >= 1000 && ceiling_ft <= 3000 {
        FlightCategory::Mvfr
    } else if visibility_sm >= 1 && visibility_sm < 3 && ceiling_ft >= 500 && ceiling_ft < 1000 {
        FlightCategory::Ifr
    } else if visibility_sm < 1 || ceiling_ft < 500 {
        FlightCategory::Lifr
    } else {
        FlightCategory::Vfr
    }
}

/// Law: visibility of at least six statute miles together with a ceiling
/// above 3000 ft is always classified VFR.
pub proof fn lemma_vfr_band(visibility_sm: int, ceiling_ft: int)
    requires
        visibility_sm >= 6,
        ceiling_ft > 3000,
    ensures
        spec_classify(visibility_sm, ceiling_ft) == FlightCategory::Vfr,
{
}

/// Law: visibility under one statute mile, or a ceiling under 500 ft, is
/// always classified LIFR, whatever the other value is.
pub proof fn lemma_lifr_dominates(visibility_sm: int, ceiling_ft: int)
    requires
        visibility_sm < 1 || ceiling_ft < 500,
    ensures
        spec_classify(visibility_sm, ceiling_ft) == FlightCategory::Lifr,
{
}

/// The display color token bound to each flight category.
pub open spec fn spec_category_color(category: FlightCategory) -> Seq<char> {
    match category {
        FlightCategory::Vfr => "{66}"@,
        FlightCategory::Mvfr => "{67}"@,
        FlightCategory::Ifr => "{63}"@,
        FlightCategory::Lifr => "{68}"@,
    }
}

/// Returns the display color token of a flight category.
pub fn category_color(category: FlightCategory) -> (r: String)
    ensures
        r@ == spec_category_color(category),
{
    match category {
        FlightCategory::Vfr => String::from_str("{66}"),
        FlightCategory::Mvfr => String::from_str("{67}"),
        FlightCategory::Ifr => String::from_str("{63}"),
        FlightCategory::Lifr => String::from_str("{68}"),
    }
}

/// The category color token of a raw report: its visibility and ceiling
/// are read from the text, classified, and mapped to a color.
pub open spec fn spec_vfr_color_code(s: Seq<char>) -> Seq<char> {
    spec_category_color(spec_classify(spec_visibility(s), spec_ceiling(s)))
}

/// Derives the flight-category color token from a raw report.
pub fn calculate_vfr_color_code(metar: &str) -> (r: String)
    ensures
        r@ == spec_vfr_color_code(metar@),
{
    let visibility = find_visibility(metar);
    let ceiling = find_ceiling(metar);
    category_color(classify(visibility, ceiling))
}

} // verus!
