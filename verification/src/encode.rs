//! Segment encoding: a flight-category color token repeated according to
//! the density of the lowest cloud layer's cover code.

use vstd::prelude::*;

use crate::classify::spec_category_color;
use crate::classify::category_color;
use crate::classify::FlightCategory;
use crate::text::str_eq;

verus! {

/// `s` concatenated `n` times.
pub open spec fn repeat_seq(s: Seq<char>, n: nat) -> Seq<char>
    decreases n,
{
    if n == 0 {
        Seq::empty()
    } else {
        s + repeat_seq(s, (n - 1) as nat)
    }
}

/// How many times the color token is repeated for a cover code: denser
/// cover gives more repetitions; an unrecognized code gives the bare
/// token.
pub open spec fn cover_repetitions(cover: Seq<char>) -> nat {
    if cover == "FEW"@ {
        1
    } else if cover == "SCT"@ {
        2
    } else if cover == "BKN"@ {
        3
    } else if cover == "OVC"@ || cover == "OVX"@ || cover == "VV"@ {
        4
    } else {
        1
    }
}

proof fn lemma_cover_literals()
    ensures
        "SCT"@ != "FEW"@,
        "BKN"@ != "FEW"@,
        "BKN"@ != "SCT"@,
        "OVC"@ != "FEW"@,
        "OVC"@ != "SCT"@,
        "OVC"@ != "BKN"@,
        "OVX"@ != "FEW"@,
        "OVX"@ != "SCT"@,
        "OVX"@ != "BKN"@,
        "VV"@ != "FEW"@,
        "VV"@ != "SCT"@,
        "VV"@ != "BKN"@,
{
    reveal_strlit("FEW");
    reveal_strlit("SCT");
    reveal_strlit("BKN");
    reveal_strlit("OVC");
    reveal_strlit("OVX");
    reveal_strlit("VV");
    assert(("FEW"@)[0] == 'F');
    assert(("SCT"@)[0] == 'S');
    assert(("BKN"@)[0] == 'B');
    assert(("OVC"@)[0] == 'O');
    assert(("OVX"@)[0] == 'O');
    assert(("FEW"@).len() == 3);
    assert(("SCT"@).len() == 3);
    assert(("BKN"@).len() == 3);
    assert(("VV"@).len() == 2);
}

/// Repeats the category color token according to the cover code of the
/// lowest cloud layer.
pub fn vfr_string(cloud_cover: &str, vfr_color: String) -> (r: String)
    ensures
        r@ == repeat_seq(vfr_color@, cover_repetitions(cloud_cover@)),
{
    let ghost color = vfr_color@;
    if str_eq(cloud_cover, "SCT") {
        let r = vfr_color.clone().concat(vfr_color.as_str());
        proof {
            reveal_with_fuel(repeat_seq, 5);
            lemma_cover_literals();
            assert(cover_repetitions(cloud_cover@) == 2);
            assert(r@ =~= repeat_seq(color, 2));
        }
        r
    } else if str_eq(cloud_cover, "BKN") {
        let r = vfr_color.clone().concat(vfr_color.as_str()).concat(vfr_color.as_str());
        proof {
            reveal_with_fuel(repeat_seq, 5);
            lemma_cover_literals();
            assert(cover_repetitions(cloud_cover@) == 3);
            assert(r@ =~= repeat_seq(color, 3));
        }
        r
    } else if str_eq(cloud_cover, "OVC") || str_eq(cloud_cover, "OVX") || str_eq(
        cloud_cover,
        "VV",
    ) {
        let r = vfr_color.clone().concat(vfr_color.as_str()).concat(vfr_color.as_str()).concat(
            vfr_color.as_str(),
        );
        proof {
            reveal_with_fuel(repeat_seq, 5);
            lemma_cover_literals();
            assert(cover_repetitions(cloud_cover@) == 4);
            assert(r@ =~= repeat_seq(color, 4));
        }
        r
    } else {
        proof {
            reveal_with_fuel(repeat_seq, 5);
            lemma_cover_literals();
            assert(cover_repetitions(cloud_cover@) == 1);
            assert(vfr_color@ =~= repeat_seq(color, 1));
        }
        vfr_color
    }
}

/// The display segments of a category and an optional lowest cover code:
/// the category's color token, repeated by cover density; the bare token
/// when no cloud layer was reported.
pub open spec fn spec_encode(category: FlightCategory, lowest_cover: Option<Seq<char>>) -> Seq<
    char,
> {
    match lowest_cover {
        Some(cover) => repeat_seq(spec_category_color(category), cover_repetitions(cover)),
        None => spec_category_color(category),
    }
}

/// Encodes a flight category and the lowest cloud layer's cover code as
/// display segments.
pub fn encode(category: FlightCategory, lowest_cover: Option<&str>) -> (r: String)
    ensures
        r@ == spec_encode(
            category,
            match lowest_cover {
                Some(cover) => Some(cover@),
                None => None,
            },
        ),
{
    let color = category_color(category);
    match lowest_cover {
        Some(cover) => vfr_string(cover, color),
        None => color,
    }
}

} // verus!
