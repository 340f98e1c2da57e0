//! WMO weather-code → short French phrase mapping (Open-Meteo's WMO
//! weather interpretation codes).
use vstd::prelude::*;

verus! {

/// The phrase for a WMO weather code.
pub open spec fn fr_phrase_spec(code: i64) -> Seq<char> {
    if code == 0 {
        "temps clair"@
    } else if 1 <= code <= 3 {
        "quelques nuages"@
    } else if code == 45 || code == 48 {
        "du brouillard"@
    } else if 51 <= code <= 57 {
        "de la bruine"@
    } else if 61 <= code <= 65 {
        "de la pluie"@
    } else if code == 66 || code == 67 {
        "de la pluie verglaçante"@
    } else if 71 <= code <= 75 {
        "de la neige"@
    } else if code == 77 {
        "des grains de neige"@
    } else if 80 <= code <= 82 {
        "des averses"@
    } else if code == 85 || code == 86 {
        "des averses de neige"@
    } else if 95 <= code <= 99 {
        "un orage"@
    } else {
        "un temps particulier"@
    }
}

/// A short French phrase for a WMO weather code.
pub fn fr_phrase(code: i64) -> (r: &'static str)
    ensures
        r@ == fr_phrase_spec(code),
{
    match code {
        0 => "temps clair",
        1..=3 => "quelques nuages",
        45 | 48 => "du brouillard",
        51..=57 => "de la bruine",
        61..=65 => "de la pluie",
        66 | 67 => "de la pluie verglaçante",
        71..=75 => "de la neige",
        77 => "des grains de neige",
        80..=82 => "des averses",
        85 | 86 => "des averses de neige",
        95..=99 => "un orage",
        _ => "un temps particulier",
    }
}

} // verus!
