//! The provider request URL for a station and report kind.  Issuing the
//! request is the caller's concern.

use vstd::prelude::*;

use vstd::string::StringExecFns;

verus! {

/// The provider URL that asks for the reports of one station in the
/// provider's record format.
pub open spec fn spec_api_url(station: Seq<char>, weather_type: Seq<char>) -> Seq<char> {
    "https://aviationweather.gov/api/data/"@ + weather_type + "?ids="@ + station
        + "&format=json"@
}

/// Builds the provider request URL for a station and report kind.
pub fn build_api_url(station: &str, weather_type: &str) -> (url: String)
    ensures
        url@ == spec_api_url(station@, weather_type@),
{
    let mut url = String::from_str("https://aviationweather.gov/api/data/");
    url.append(weather_type);
    url.append("?ids=");
    url.append(station);
    url.append("&format=json");
    proof {
        assert(url@ =~= spec_api_url(station@, weather_type@));
    }
    url
}

} // verus!
