//! Parses a French duration phrase (e.g. `"deux secondes"`, `"5 minutes"`,
//! `"une heure"`) into a number of seconds.
use vstd::prelude::*;
use crate::text::{
    parse_u64, parse_u64_spec, split_whitespace, str_eq, to_lowercase, unicode_lowercase, words,
};

verus! {

/// The French number words `un`/`une` through `dix`.
pub open spec fn number_word(w: Seq<char>) -> Option<u64> {
    if w == "un"@ || w == "une"@ { Some(1) }
    else if w == "deux"@ { Some(2) }
    else if w == "trois"@ { Some(3) }
    else if w == "quatre"@ { Some(4) }
    else if w == "cinq"@ { Some(5) }
    else if w == "six"@ { Some(6) }
    else if w == "sept"@ { Some(7) }
    else if w == "huit"@ { Some(8) }
    else if w == "neuf"@ { Some(9) }
    else if w == "dix"@ { Some(10) }
    else { None }
}

/// An amount: a decimal integer, or a number word in any letter case.
pub open spec fn amount_spec(w: Seq<char>) -> Option<u64> {
    match parse_u64_spec(w) {
        Some(n) => Some(n),
        None => number_word(unicode_lowercase(w)),
    }
}

/// A unit, in any letter case: seconds, minutes or hours (singular or
/// plural), as a number of seconds.
pub open spec fn unit_seconds_spec(w: Seq<char>) -> Option<u64> {
    let l = unicode_lowercase(w);
    if l == "seconde"@ || l == "secondes"@ { Some(1) }
    else if l == "minute"@ || l == "minutes"@ { Some(60) }
    else if l == "heure"@ || l == "heures"@ { Some(3600) }
    else { None }
}

/// `<amount> <unit>`, exactly two words, as a number of seconds.
pub open spec fn fr_duration_spec(text: Seq<char>) -> Option<int> {
    let ws = words(text);
    if ws.len() != 2 {
        None
    } else {
        match (amount_spec(ws[0]), unit_seconds_spec(ws[1])) {
            (Some(a), Some(u)) => Some(a * u),
            _ => None,
        }
    }
}

/// Parses `text` into a number of seconds; `None` if the phrase isn't a
/// recognized `<amount> <unit>` shape.
pub fn parse_fr_duration(text: &str) -> (r: Option<u64>)
    requires
        fr_duration_spec(text@) matches Some(v) ==> v <= u64::MAX,
    ensures
        match fr_duration_spec(text@) {
            Some(v) => r == Some(v as u64),
            None => r is None,
        },
{
    let ws = split_whitespace(text);
    if ws.len() != 2 {
        return None;
    }
    let amount = match parse_amount(ws[0].as_str()) {
        Some(a) => a,
        None => return None,
    };
    let unit = match parse_unit_seconds(ws[1].as_str()) {
        Some(u) => u,
        None => return None,
    };
    Some(amount * unit)
}

/// Whether the phrase's number of seconds, when it is one, fits in a `u64`.
pub fn duration_fits(text: &str) -> (r: bool)
    ensures
        r == (fr_duration_spec(text@) matches Some(v) ==> v <= u64::MAX),
{
    let ws = split_whitespace(text);
    if ws.len() != 2 {
        return true;
    }
    let amount = match parse_amount(ws[0].as_str()) {
        Some(a) => a,
        None => return true,
    };
    let unit = match parse_unit_seconds(ws[1].as_str()) {
        Some(u) => u,
        None => return true,
    };
    amount.checked_mul(unit).is_some()
}

/// A number of seconds' amount: digits, or a French number word.
pub fn parse_amount(word: &str) -> (r: Option<u64>)
    ensures
        r == amount_spec(word@),
{
    match parse_u64(word) {
        Some(n) => return Some(n),
        None => {},
    }
    let l = to_lowercase(word);
    let w = l.as_str();
    if str_eq(w, "un") || str_eq(w, "une") { Some(1) }
    else if str_eq(w, "deux") { Some(2) }
    else if str_eq(w, "trois") { Some(3) }
    else if str_eq(w, "quatre") { Some(4) }
    else if str_eq(w, "cinq") { Some(5) }
    else if str_eq(w, "six") { Some(6) }
    else if str_eq(w, "sept") { Some(7) }
    else if str_eq(w, "huit") { Some(8) }
    else if str_eq(w, "neuf") { Some(9) }
    else if str_eq(w, "dix") { Some(10) }
    else { None }
}

/// A unit word's length in seconds.
pub fn parse_unit_seconds(word: &str) -> (r: Option<u64>)
    ensures
        r == unit_seconds_spec(word@),
{
    let l = to_lowercase(word);
    let w = l.as_str();
    if str_eq(w, "seconde") || str_eq(w, "secondes") { Some(1) }
    else if str_eq(w, "minute") || str_eq(w, "minutes") { Some(60) }
    else if str_eq(w, "heure") || str_eq(w, "heures") { Some(3600) }
    else { None }
}

} // verus!
