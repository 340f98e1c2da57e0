//! `weather` skill: current weather and tomorrow's forecast from
//! Open-Meteo, for a spoken city or the configured default one.
//!
//! Config keys (all optional): `default_city` (fallback city, "Paris"
//! when unset), `geocoding_base_url` and `forecast_base_url` (the
//! Open-Meteo API bases).
use vstd::prelude::*;
use vstd::string::*;
use crate::json::{
    JsonKind, json_float_text, json_float_text_at, json_i64, json_i64_at, json_kind, json_kind_at, json_quote,
    json_quoted, json_rounded, json_rounded_at, json_str, json_str_at,
};
use crate::sdk::host::HostCtx;
use crate::sdk::response::{SkillError, SkillResponse, spoken};
use crate::sdk::schema::{ConfigField, ConfigFieldView, ConfigSchema, FieldKind, ItemField, field};
use crate::sdk::skill::{
    Intent, PatternRule, RuleView, Skill, SlotKind, SlotKindView, SlotSpec, SlotSpecView, rules_view,
    slot_lookup, slot_spec,
};
use crate::text::{
    cat, cat3, has_prefix, owned, signed_decimal, i64_to_decimal, starts_with, str_eq, strings_view,
    to_lowercase, trim, trim_end_char, trimmed, trimmed_end_char, unicode_lowercase, push_char,
    chars_of,
};

pub mod weather_code;

use crate::skills::weather::weather_code::{fr_phrase, fr_phrase_spec};

verus! {

/// The city used when none is spoken nor configured.
pub const HARD_DEFAULT_CITY: &'static str = "Paris";
pub const GEOCODING_DEFAULT_BASE: &'static str = "https://geocoding-api.open-meteo.com";
pub const FORECAST_DEFAULT_BASE: &'static str = "https://api.open-meteo.com";

/// Whether a locale is English.
pub open spec fn english(locale: Seq<char>) -> bool {
    has_prefix(locale, "en"@)
}

/// The apology when the weather service cannot be used.
pub open spec fn http_error_text(locale: Seq<char>) -> Seq<char> {
    if english(locale) {
        "sorry, the weather service is unavailable"@
    } else {
        "désolé, le service météo est indisponible"@
    }
}

/// The apology when the weather service cannot be used.
pub fn http_error_speak(locale: &str) -> (r: &'static str)
    ensures
        r@ == http_error_text(locale@),
{
    if starts_with(locale, "en") {
        "sorry, the weather service is unavailable"
    } else {
        "désolé, le service météo est indisponible"
    }
}

/// How one character is written in the geocoding query string: the few
/// characters Open-Meteo is picky about are escaped, anything else
/// (accented letters included) passes through.
pub open spec fn url_char(c: char) -> Seq<char> {
    if c == ' ' { "%20"@ }
    else if c == '&' { "%26"@ }
    else if c == '#' { "%23"@ }
    else if c == '?' { "%3F"@ }
    else if c == '=' { "%3D"@ }
    else if c == '+' { "%2B"@ }
    else { seq![c] }
}

/// The query-string form of a city name.
pub open spec fn url_encoded(s: Seq<char>) -> Seq<char>
    decreases s.len(),
{
    if s.len() == 0 { seq![] } else { url_encoded(s.drop_last()) + url_char(s.last()) }
}

/// Minimal URL-encoding for the city name in the geocoding query string.
pub fn url_encode(s: &str) -> (out: String)
    ensures
        out@ == url_encoded(s@),
{
    let x = chars_of(s);
    let mut out = String::new();
    let mut i: usize = 0;
    while i < x.len()
        invariant
            x@ == s@,
            i <= x.len(),
            out@ == url_encoded(s@.take(i as int)),
        decreases x.len() - i,
    {
        let c = x[i];
        assert(s@.take(i + 1).drop_last() == s@.take(i as int));
        let ghost before = out@;
        if c == ' ' {
            out.append("%20");
        } else if c == '&' {
            out.append("%26");
        } else if c == '#' {
            out.append("%23");
        } else if c == '?' {
            out.append("%3F");
        } else if c == '=' {
            out.append("%3D");
        } else if c == '+' {
            out.append("%2B");
        } else {
            push_char(&mut out, c);
            assert(out@ =~= before + seq![c]);
        }
        i = i + 1;
    }
    assert(s@.take(x.len() as int) == s@);
    out
}

/// The value of an optional config string when it is set and not empty.
pub open spec fn nonempty(o: Option<Seq<char>>) -> Option<Seq<char>> {
    match o {
        Some(s) => if s.len() > 0 { Some(s) } else { None },
        None => None,
    }
}

pub open spec fn opt_view(o: Option<String>) -> Option<Seq<char>> {
    match o {
        Some(s) => Some(s@),
        None => None,
    }
}

/// The city asked for: the trimmed `city` slot when not empty, else the
/// configured default city when set, else Paris.
pub open spec fn city_spec(intent: Intent, default_city: Option<Seq<char>>) -> Seq<char> {
    let slot = match slot_lookup(intent.slots@, "city"@) {
        Some(v) => match v.text {
            Some(t) => trimmed(t),
            None => seq![],
        },
        None => seq![],
    };
    if slot.len() > 0 {
        slot
    } else {
        match nonempty(default_city) {
            Some(c) => c,
            None => "Paris"@,
        }
    }
}

/// The city asked for, given the configured default city.
pub fn resolve_city_from(intent: &Intent, default_city: Option<String>) -> (r: String)
    ensures
        r@ == city_spec(*intent, opt_view(default_city)),
{
    let slot = match intent.slot_text("city") {
        Some(t) => trim(t.as_str()),
        None => String::new(),
    };
    if !slot.as_str().is_empty() {
        return slot;
    }
    match default_city {
        Some(c) => if c.as_str().is_empty() { owned(HARD_DEFAULT_CITY) } else { c },
        None => owned(HARD_DEFAULT_CITY),
    }
}

/// The city asked for; the host has no configured default city without a
/// guest runtime.
pub fn resolve_city(intent: &Intent, ctx: &HostCtx) -> (r: String)
    ensures
        r@ == city_spec(*intent, None),
{
    resolve_city_from(intent, ctx.config_get_toml("default_city"))
}

/// The base URL of an API: the configured one when set, else the default,
/// without trailing slashes.
pub open spec fn base_url(configured: Option<Seq<char>>, default: Seq<char>) -> Seq<char> {
    trimmed_end_char(match nonempty(configured) { Some(b) => b, None => default }, '/')
}

fn base_from(configured: Option<String>, default: &str) -> (r: String)
    ensures
        r@ == base_url(opt_view(configured), default@),
{
    let b = match configured {
        Some(b) => if b.as_str().is_empty() { owned(default) } else { b },
        None => owned(default),
    };
    trim_end_char(b.as_str(), '/')
}

/// The geocoding query for a city.
pub open spec fn geocoding_url_spec(configured: Option<Seq<char>>, city: Seq<char>, locale: Seq<char>) -> Seq<char> {
    base_url(configured, "https://geocoding-api.open-meteo.com"@) + "/v1/search?name="@ + url_encoded(city)
        + "&language="@ + (if english(locale) { "en"@ } else { "fr"@ }) + "&count=1"@
}

/// The geocoding query URL for a city.
pub fn geocoding_url(configured: Option<String>, city: &str, locale: &str) -> (r: String)
    ensures
        r@ == geocoding_url_spec(opt_view(configured), city@, locale@),
{
    let mut url = base_from(configured, GEOCODING_DEFAULT_BASE);
    url.append("/v1/search?name=");
    url.append(url_encode(city).as_str());
    url.append("&language=");
    url.append(if starts_with(locale, "en") { "en" } else { "fr" });
    url.append("&count=1");
    url
}

/// A geocoded place: its coordinates, as the decimal text Rust prints for
/// them, and its name.
#[derive(Debug, Clone)]
pub struct Geo {
    pub lat: String,
    pub lon: String,
    pub name: String,
}

pub struct GeoView {
    pub lat: Seq<char>,
    pub lon: Seq<char>,
    pub name: Seq<char>,
}

impl View for Geo {
    type V = GeoView;

    open spec fn view(&self) -> GeoView {
        GeoView { lat: self.lat@, lon: self.lon@, name: self.name@ }
    }
}

/// The forecast query for a place.
pub open spec fn forecast_url_spec(configured: Option<Seq<char>>, g: GeoView) -> Seq<char> {
    base_url(configured, "https://api.open-meteo.com"@) + "/v1/forecast?latitude="@ + g.lat + "&longitude="@
        + g.lon
        + "&current=temperature_2m,weather_code&daily=temperature_2m_max,temperature_2m_min,weather_code&timezone=auto"@
}

/// The forecast query URL for a place.
pub fn forecast_url(configured: Option<String>, geo: &Geo) -> (r: String)
    ensures
        r@ == forecast_url_spec(opt_view(configured), geo@),
{
    let mut url = base_from(configured, FORECAST_DEFAULT_BASE);
    url.append("/v1/forecast?latitude=");
    url.append(geo.lat.as_str());
    url.append("&longitude=");
    url.append(geo.lon.as_str());
    url.append("&current=temperature_2m,weather_code&daily=temperature_2m_max,temperature_2m_min,weather_code&timezone=auto");
    url
}

/// What the geocoding API answered, as far as the skill reads it.
#[derive(Debug, Clone)]
pub enum Search {
    /// The body is not JSON.
    NotJson,
    /// No `results`, or an empty list: the city is unknown.
    NoResult,
    /// The first result lacks a numeric latitude or longitude.
    Incomplete,
    /// The first result: coordinates as printed decimal text, and its name
    /// when it has one.
    Found { lat: String, lon: String, name: Option<String> },
}

pub enum SearchView {
    NotJson,
    NoResult,
    Incomplete,
    Found { lat: Seq<char>, lon: Seq<char>, name: Option<Seq<char>> },
}

impl View for Search {
    type V = SearchView;

    open spec fn view(&self) -> SearchView {
        match self {
            Search::NotJson => SearchView::NotJson,
            Search::NoResult => SearchView::NoResult,
            Search::Incomplete => SearchView::Incomplete,
            Search::Found { lat, lon, name } => SearchView::Found {
                lat: lat@,
                lon: lon@,
                name: match name { Some(n) => Some(n@), None => None },
            },
        }
    }
}

/// What the skill reads in a geocoding reply body: not JSON; no first
/// entry in a `results` array (an unknown city); a first entry without a
/// numeric `latitude` and `longitude` (incomplete); else the coordinates
/// as `f64` printed by `Display`, and the entry's `name` when it is a
/// string.
pub open spec fn search_reply(body: Seq<u8>) -> SearchView {
    if json_kind(body, ""@) == JsonKind::NotJson {
        SearchView::NotJson
    } else if json_kind(body, "/results"@) != JsonKind::Array || json_kind(body, "/results/0"@) == JsonKind::Absent {
        SearchView::NoResult
    } else {
        match (json_float_text(body, "/results/0/latitude"@), json_float_text(body, "/results/0/longitude"@)) {
            (Some(lat), Some(lon)) => SearchView::Found { lat, lon, name: json_str(body, "/results/0/name"@) },
            _ => SearchView::Incomplete,
        }
    }
}

/// Reads a geocoding reply.
pub fn read_search(body: &[u8]) -> (r: Search)
    ensures
        r@ == search_reply(body@),
{
    if json_kind_at(body, "") == JsonKind::NotJson {
        return Search::NotJson;
    }
    if json_kind_at(body, "/results") != JsonKind::Array || json_kind_at(body, "/results/0") == JsonKind::Absent {
        return Search::NoResult;
    }
    let lat = json_float_text_at(body, "/results/0/latitude");
    let lon = json_float_text_at(body, "/results/0/longitude");
    match (lat, lon) {
        (Some(lat), Some(lon)) => Search::Found { lat, lon, name: json_str_at(body, "/results/0/name") },
        _ => Search::Incomplete,
    }
}

/// The outcome of geocoding a city from the API's reply: the place (named
/// as the API names it, else as asked), `None` for an unknown city, or the
/// apology to speak.
pub open spec fn geocoded(city: Seq<char>, locale: Seq<char>, reply: SearchView) -> Result<Option<GeoView>, Seq<char>> {
    match reply {
        SearchView::NotJson => Err(http_error_text(locale)),
        SearchView::NoResult => Ok(None),
        SearchView::Incomplete => Err(http_error_text(locale)),
        SearchView::Found { lat, lon, name } => Ok(Some(GeoView {
            lat,
            lon,
            name: match name { Some(n) => n, None => city },
        })),
    }
}

/// Reads the place out of the geocoding API's reply.
pub fn geo_from_search(city: &str, locale: &str, reply: Search) -> (r: Result<Option<Geo>, String>)
    ensures
        match geocoded(city@, locale@, reply@) {
            Ok(Some(g)) => r matches Ok(Some(x)) && x@ == g,
            Ok(None) => r matches Ok(None),
            Err(m) => r matches Err(x) && x@ == m,
        },
{
    match reply {
        Search::NotJson => Err(owned(http_error_speak(locale))),
        Search::NoResult => Ok(None),
        Search::Incomplete => Err(owned(http_error_speak(locale))),
        Search::Found { lat, lon, name } => {
            let name = match name {
                Some(n) => n,
                None => owned(city),
            };
            Ok(Some(Geo { lat, lon, name }))
        },
    }
}

/// The JSON record a place is cached as.
pub open spec fn geo_json(g: GeoView) -> Seq<char> {
    "{\"lat\":"@ + g.lat + ",\"lon\":"@ + g.lon + ",\"name\":"@ + json_quoted(g.name) + "}"@
}

fn encode_geo(g: &Geo) -> (s: String)
    ensures
        s@ == geo_json(g@),
{
    let mut out = owned("{\"lat\":");
    out.append(g.lat.as_str());
    out.append(",\"lon\":");
    out.append(g.lon.as_str());
    out.append(",\"name\":");
    out.append(json_quote(g.name.as_str()).as_str());
    out.append("}");
    out
}

/// The place in a cached record: `lat` and `lon` as `f64` printed by
/// `Display`, and the string `name`; `None` when the bytes are not such a
/// record.
pub open spec fn cached_geo(bytes: Seq<u8>) -> Option<GeoView> {
    match (json_float_text(bytes, "/lat"@), json_float_text(bytes, "/lon"@), json_str(bytes, "/name"@)) {
        (Some(lat), Some(lon), Some(name)) => Some(GeoView { lat, lon, name }),
        _ => None,
    }
}

/// Decodes a cached place record.
pub fn decode_geo(bytes: &[u8]) -> (r: Option<Geo>)
    ensures
        match r {
            Some(g) => cached_geo(bytes@) == Some(g@),
            None => cached_geo(bytes@) is None,
        },
{
    match (json_float_text_at(bytes, "/lat"), json_float_text_at(bytes, "/lon"), json_str_at(bytes, "/name")) {
        (Some(lat), Some(lon), Some(name)) => Some(Geo { lat, lon, name }),
        _ => None,
    }
}

/// Resolves a city to a place: the state cache first, then the geocoding
/// API. `Ok(None)` means the API knows no such city; `Err` carries the
/// apology to speak. The host has no cache and refuses HTTP without a
/// guest runtime.
fn resolve_geocoding(ctx: &HostCtx, city: &str, locale: &str) -> (r: Result<Option<Geo>, String>)
    ensures
        r matches Err(m) && m@ == http_error_text(locale@),
{
    let key = cat("geo/", to_lowercase(city).as_str());
    if let Ok(Some(bytes)) = ctx.state_get(key.as_str()) {
        if let Some(cached) = decode_geo(bytes.as_slice()) {
            return Ok(Some(cached));
        }
    }
    let url = geocoding_url(ctx.config_get_toml("geocoding_base_url"), city, locale);
    let body = match ctx.http_get_json(url.as_str()) {
        Ok(b) => b,
        Err(e) => {
            ctx.log("warn", cat("weather: geocoding HTTP failed: ", e.message().as_str()).as_str());
            return Err(owned(http_error_speak(locale)));
        },
    };
    let found = geo_from_search(city, locale, read_search(body.as_slice()));
    if let Ok(Some(g)) = &found {
        let record = encode_geo(g);
        let _ = ctx.state_set(key.as_str(), record.as_str().as_bytes());
    }
    found
}

/// What the forecast API says of the current weather.
#[derive(Debug, Clone, Copy, PartialEq, Eq, Structural)]
pub enum Current {
    /// The body is not JSON.
    NotJson,
    /// No `current` section.
    Missing,
    /// `current` lacks a numeric temperature or an integer weather code.
    Incomplete,
    /// The temperature rounded to whole degrees, and the weather code.
    Found { temp: i64, code: i64 },
}

/// What the forecast API says of tomorrow (the first day of `daily`).
#[derive(Debug, Clone, Copy, PartialEq, Eq, Structural)]
pub enum Daily {
    NotJson,
    Missing,
    Incomplete,
    /// Minimum and maximum rounded to whole degrees, and the weather code.
    Found { min: i64, max: i64, code: i64 },
}

/// What the skill reads in a forecast body's `current` section: not JSON,
/// no such section, a section without a numeric `temperature_2m` and an
/// integer `weather_code`, or the temperature rounded half away from zero
/// with the code.
pub open spec fn current_reply(body: Seq<u8>) -> Current {
    if json_kind(body, ""@) == JsonKind::NotJson {
        Current::NotJson
    } else if json_kind(body, "/current"@) == JsonKind::Absent {
        Current::Missing
    } else {
        match (json_rounded(body, "/current/temperature_2m"@), json_i64(body, "/current/weather_code"@)) {
            (Some(temp), Some(code)) => Current::Found { temp, code },
            _ => Current::Incomplete,
        }
    }
}

/// The first entry of the array at `ptr`, rounded; nothing when there is
/// no array there.
pub open spec fn first_rounded(body: Seq<u8>, ptr: Seq<char>) -> Option<i64> {
    if json_kind(body, ptr) == JsonKind::Array { json_rounded(body, ptr + "/0"@) } else { None }
}

/// What the skill reads in a forecast body's `daily` section: not JSON, no
/// such section, a section whose `temperature_2m_min`, `temperature_2m_max`
/// and `weather_code` arrays do not all start with a number (an integer
/// for the code), or those first entries, the temperatures rounded half
/// away from zero.
pub open spec fn daily_reply(body: Seq<u8>) -> Daily {
    if json_kind(body, ""@) == JsonKind::NotJson {
        Daily::NotJson
    } else if json_kind(body, "/daily"@) == JsonKind::Absent {
        Daily::Missing
    } else {
        let code = if json_kind(body, "/daily/weather_code"@) == JsonKind::Array {
            json_i64(body, "/daily/weather_code/0"@)
        } else {
            None
        };
        match (
            first_rounded(body, "/daily/temperature_2m_min"@),
            first_rounded(body, "/daily/temperature_2m_max"@),
            code,
        ) {
            (Some(min), Some(max), Some(code)) => Daily::Found { min, max, code },
            _ => Daily::Incomplete,
        }
    }
}

/// Reads the current weather in a forecast body.
pub fn read_current(body: &[u8]) -> (r: Current)
    ensures
        r == current_reply(body@),
{
    if json_kind_at(body, "") == JsonKind::NotJson {
        return Current::NotJson;
    }
    if json_kind_at(body, "/current") == JsonKind::Absent {
        return Current::Missing;
    }
    match (json_rounded_at(body, "/current/temperature_2m"), json_i64_at(body, "/current/weather_code")) {
        (Some(temp), Some(code)) => Current::Found { temp, code },
        _ => Current::Incomplete,
    }
}

/// Reads tomorrow's forecast in a forecast body.
pub fn read_daily(body: &[u8]) -> (r: Daily)
    ensures
        r == daily_reply(body@),
{
    if json_kind_at(body, "") == JsonKind::NotJson {
        return Daily::NotJson;
    }
    if json_kind_at(body, "/daily") == JsonKind::Absent {
        return Daily::Missing;
    }
    let min = if json_kind_at(body, "/daily/temperature_2m_min") == JsonKind::Array {
        json_rounded_at(body, "/daily/temperature_2m_min/0")
    } else {
        None
    };
    let max = if json_kind_at(body, "/daily/temperature_2m_max") == JsonKind::Array {
        json_rounded_at(body, "/daily/temperature_2m_max/0")
    } else {
        None
    };
    let code = if json_kind_at(body, "/daily/weather_code") == JsonKind::Array {
        json_i64_at(body, "/daily/weather_code/0")
    } else {
        None
    };
    proof {
        reveal_strlit("/daily/temperature_2m_min");
        reveal_strlit("/daily/temperature_2m_max");
        reveal_strlit("/daily/temperature_2m_min/0");
        reveal_strlit("/daily/temperature_2m_max/0");
        reveal_strlit("/0");
        assert("/daily/temperature_2m_min"@ + "/0"@ =~= "/daily/temperature_2m_min/0"@);
        assert("/daily/temperature_2m_max"@ + "/0"@ =~= "/daily/temperature_2m_max/0"@);
    }
    match (min, max, code) {
        (Some(min), Some(max), Some(code)) => Daily::Found { min, max, code },
        _ => Daily::Incomplete,
    }
}

/// What the skill says of the current weather at a place.
pub open spec fn now_text(locale: Seq<char>, place: Seq<char>, reply: Current) -> Seq<char> {
    match reply {
        Current::Found { temp, code } => if english(locale) {
            "it is "@ + signed_decimal(temp as int) + " degrees in "@ + place + ", "@ + fr_phrase_spec(code)
        } else {
            "il fait "@ + signed_decimal(temp as int) + " degrés à "@ + place + ", "@ + fr_phrase_spec(code)
        },
        _ => http_error_text(locale),
    }
}

/// What the skill says of tomorrow's weather at a place.
pub open spec fn tomorrow_text(locale: Seq<char>, place: Seq<char>, reply: Daily) -> Seq<char> {
    match reply {
        Daily::Found { min, max, code } => if english(locale) {
            "tomorrow in "@ + place + ", it will be between "@ + signed_decimal(min as int) + " and "@
                + signed_decimal(max as int) + " degrees with "@ + fr_phrase_spec(code)
        } else {
            "demain à "@ + place + ", il fera entre "@ + signed_decimal(min as int) + " et "@
                + signed_decimal(max as int) + " degrés avec "@ + fr_phrase_spec(code)
        },
        _ => http_error_text(locale),
    }
}

/// Phrases the current weather at a place from the forecast reply.
pub fn now_answer(locale: &str, place: &str, reply: Current) -> (r: String)
    ensures
        r@ == now_text(locale@, place@, reply),
{
    match reply {
        Current::Found { temp, code } => {
            let t = i64_to_decimal(temp);
            let en = starts_with(locale, "en");
            let mut out = owned(if en { "it is " } else { "il fait " });
            out.append(t.as_str());
            out.append(if en { " degrees in " } else { " degrés à " });
            out.append(place);
            out.append(", ");
            out.append(fr_phrase(code));
            out
        },
        _ => owned(http_error_speak(locale)),
    }
}

/// Phrases tomorrow's weather at a place from the forecast reply.
pub fn tomorrow_answer(locale: &str, place: &str, reply: Daily) -> (r: String)
    ensures
        r@ == tomorrow_text(locale@, place@, reply),
{
    match reply {
        Daily::Found { min, max, code } => {
            let lo = i64_to_decimal(min);
            let hi = i64_to_decimal(max);
            let en = starts_with(locale, "en");
            let mut out = owned(if en { "tomorrow in " } else { "demain à " });
            out.append(place);
            out.append(if en { ", it will be between " } else { ", il fera entre " });
            out.append(lo.as_str());
            out.append(if en { " and " } else { " et " });
            out.append(hi.as_str());
            out.append(if en { " degrees with " } else { " degrés avec " });
            out.append(fr_phrase(code));
            out
        },
        _ => owned(http_error_speak(locale)),
    }
}

/// Fetches the forecast of a place: the raw reply body, or the apology.
fn fetch_forecast(ctx: &HostCtx, geo: &Geo, locale: &str) -> (r: Result<Vec<u8>, String>)
    ensures
        r matches Err(m) && m@ == http_error_text(locale@),
{
    let url = forecast_url(ctx.config_get_toml("forecast_base_url"), geo);
    match ctx.http_get_json(url.as_str()) {
        Ok(body) => Ok(body),
        Err(e) => {
            ctx.log("warn", cat("weather: forecast HTTP failed: ", e.message().as_str()).as_str());
            Err(owned(http_error_speak(locale)))
        },
    }
}

/// Which forecast an intent asks for: `Some(true)` for the current
/// weather, `Some(false)` for tomorrow's, `None` for an unknown intent.
pub open spec fn weather_kind(name: Seq<char>) -> Option<bool> {
    if name == "weather.now"@ {
        Some(true)
    } else if name == "weather.tomorrow"@ {
        Some(false)
    } else {
        None
    }
}

/// What the skill says from a forecast reply body.
pub open spec fn forecast_text(now: bool, locale: Seq<char>, place: Seq<char>, body: Seq<u8>) -> Seq<char> {
    if now {
        now_text(locale, place, current_reply(body))
    } else {
        tomorrow_text(locale, place, daily_reply(body))
    }
}

/// The geocoding outcome as plain values.
pub open spec fn geo_outcome(g: Result<Option<Geo>, String>) -> Result<Option<GeoView>, Seq<char>> {
    match g {
        Ok(Some(x)) => Ok(Some(x@)),
        Ok(None) => Ok(None),
        Err(m) => Err(m@),
    }
}

/// The answer to a weather intent from what the host returned: the
/// geocoding outcome (a place, an unknown city, or the apology) and, for
/// a known intent on a found place, the forecast body or the apology.
/// `Err` carries the message of an unknown intent.
pub open spec fn weather_reply(
    name: Seq<char>,
    locale: Seq<char>,
    city: Seq<char>,
    geo: Result<Option<GeoView>, Seq<char>>,
    forecast: Result<Seq<u8>, Seq<char>>,
) -> Result<Seq<char>, Seq<char>> {
    match geo {
        Err(m) => Ok(m),
        Ok(None) => Ok(if english(locale) { "sorry, I can't find "@ + city } else { "désolé, je ne trouve pas "@ + city }),
        Ok(Some(g)) => match weather_kind(name) {
            None => Err("unknown intent: "@ + name),
            Some(now) => match forecast {
                Err(m) => Ok(m),
                Ok(body) => Ok(forecast_text(now, locale, g.name, body)),
            },
        },
    }
}

/// Which forecast an intent asks for.
pub fn weather_kind_of(name: &str) -> (r: Option<bool>)
    ensures
        r == weather_kind(name@),
{
    if str_eq(name, "weather.now") {
        Some(true)
    } else if str_eq(name, "weather.tomorrow") {
        Some(false)
    } else {
        None
    }
}

/// What the skill says from a forecast reply body.
pub fn forecast_answer(now: bool, locale: &str, place: &str, body: &[u8]) -> (r: String)
    ensures
        r@ == forecast_text(now, locale@, place@, body@),
{
    if now {
        now_answer(locale, place, read_current(body))
    } else {
        tomorrow_answer(locale, place, read_daily(body))
    }
}

/// The answer to a weather intent from what the host returned.
pub fn weather_answer(
    name: &str,
    locale: &str,
    city: &str,
    geo: &Result<Option<Geo>, String>,
    forecast: Result<Vec<u8>, String>,
) -> (r: Result<SkillResponse, SkillError>)
    ensures
        match weather_reply(name@, locale@, city@, geo_outcome(*geo), match forecast { Ok(b) => Ok(b@), Err(m) => Err(m@) }) {
            Ok(t) => r matches Ok(resp) && spoken(resp) == Some(t),
            Err(m) => r matches Err(SkillError::Custom(e)) && e@ == m,
        },
{
    match geo {
        Err(m) => Ok(SkillResponse::speak(m.as_str())),
        Ok(None) => {
            let speech = if starts_with(locale, "en") {
                cat("sorry, I can't find ", city)
            } else {
                cat("désolé, je ne trouve pas ", city)
            };
            Ok(SkillResponse::speak_owned(speech))
        },
        Ok(Some(g)) => match weather_kind_of(name) {
            None => Err(SkillError::Custom(cat("unknown intent: ", name))),
            Some(now) => match forecast {
                Err(m) => Ok(SkillResponse::speak_owned(m)),
                Ok(body) => Ok(SkillResponse::speak_owned(forecast_answer(now, locale, g.name.as_str(), body.as_slice()))),
            },
        },
    }
}

/// The weather skill's match rules for a locale: `weather.now` and
/// `weather.tomorrow`, both with an optional `city` string slot.
pub open spec fn weather_rules(locale: Seq<char>) -> Seq<RuleView> {
    let slots = seq![SlotSpecView { name: "city"@, kind: SlotKindView::String }];
    if locale == "fr"@ {
        seq![
            RuleView {
                intent: "weather.now"@,
                phrases: seq![
                    "quel temps fait-il"@,
                    "quel temps fait-il à {city}"@,
                    "météo à {city}"@,
                    "quelle est la température"@,
                    "quelle est la température extérieure"@,
                    "quelle température fait-il"@,
                    "quelle température fait-il à {city}"@,
                ],
                slots,
            },
            RuleView {
                intent: "weather.tomorrow"@,
                phrases: seq!["quel temps fera-t-il demain"@, "quel temps fera-t-il demain à {city}"@],
                slots,
            },
        ]
    } else if locale == "en"@ {
        seq![
            RuleView {
                intent: "weather.now"@,
                phrases: seq![
                    "what's the weather"@,
                    "what's the weather in {city}"@,
                    "weather in {city}"@,
                    "what's the temperature"@,
                    "what's the temperature outside"@,
                    "what is the temperature in {city}"@,
                ],
                slots,
            },
            RuleView {
                intent: "weather.tomorrow"@,
                phrases: seq!["what's the weather tomorrow"@, "what's the weather tomorrow in {city}"@],
                slots,
            },
        ]
    } else {
        seq![]
    }
}

/// The weather skill's config schema: the default city.
pub open spec fn weather_schema() -> Seq<ConfigFieldView> {
    seq![ConfigFieldView {
        key: "default_city"@,
        label: "Default city"@,
        kind: FieldKind::String,
        required: false,
        help: "City used when none is spoken"@,
        default: seq![],
        item_fields: seq![],
    }]
}

/// The weather skill's config schema.
pub fn config_schema() -> (s: ConfigSchema)
    ensures
        s@ == weather_schema(),
{
    let f = field("default_city", "Default city", FieldKind::String, false, "City used when none is spoken", Vec::new());
    assert(f.item_fields@.map_values(|i: ItemField| i@) =~= seq![]);
    let s = ConfigSchema { fields: vec![f] };
    assert(s@ =~~= weather_schema());
    s
}

pub struct WeatherSkill;

impl Skill for WeatherSkill {
    fn name(&self) -> (n: &str)
        ensures
            n@ == "weather"@,
    {
        "weather"
    }

    fn pattern_rules(&self, locale: &str) -> (rules: Vec<PatternRule>)
        ensures
            rules_view(rules@) == weather_rules(locale@),
    {
        let (now_phrases, tomorrow_phrases) = if str_eq(locale, "fr") {
            (
                vec![
                    owned("quel temps fait-il"),
                    owned("quel temps fait-il à {city}"),
                    owned("météo à {city}"),
                    owned("quelle est la température"),
                    owned("quelle est la température extérieure"),
                    owned("quelle température fait-il"),
                    owned("quelle température fait-il à {city}"),
                ],
                vec![owned("quel temps fera-t-il demain"), owned("quel temps fera-t-il demain à {city}")],
            )
        } else if str_eq(locale, "en") {
            (
                vec![
                    owned("what's the weather"),
                    owned("what's the weather in {city}"),
                    owned("weather in {city}"),
                    owned("what's the temperature"),
                    owned("what's the temperature outside"),
                    owned("what is the temperature in {city}"),
                ],
                vec![owned("what's the weather tomorrow"), owned("what's the weather tomorrow in {city}")],
            )
        } else {
            let rules = Vec::new();
            assert(rules_view(rules@) =~= weather_rules(locale@));
            return rules;
        };
        let ghost expect = weather_rules(locale@);
        let now_slots = vec![slot_spec("city", SlotKind::String)];
        let tomorrow_slots = vec![slot_spec("city", SlotKind::String)];
        let rules = vec![
            PatternRule { intent: owned("weather.now"), phrases: now_phrases, slots: now_slots },
            PatternRule { intent: owned("weather.tomorrow"), phrases: tomorrow_phrases, slots: tomorrow_slots },
        ];
        proof {
            assert(strings_view(rules@[0].phrases@) =~= expect[0].phrases);
            assert(strings_view(rules@[1].phrases@) =~= expect[1].phrases);
            assert(rules@[0].slots@.map_values(|s: SlotSpec| s@) =~= expect[0].slots);
            assert(rules@[1].slots@.map_values(|s: SlotSpec| s@) =~= expect[1].slots);
        }
        assert(rules_view(rules@) =~= expect);
        rules
    }

    /// Geocodes the city, then answers the intent from the forecast. On a
    /// host without a guest runtime the weather service is unavailable.
    fn handle(&mut self, intent: Intent, ctx: &mut HostCtx) -> (r: Result<SkillResponse, SkillError>)
        ensures
            r matches Ok(resp) && spoken(resp) == Some(http_error_text(intent.locale@)),
    {
        let locale = intent.locale.as_str();
        let c: &HostCtx = ctx;
        let city = resolve_city(&intent, c);
        let geo = resolve_geocoding(c, city.as_str(), locale);
        let forecast = match &geo {
            Ok(Some(g)) => match weather_kind_of(intent.name.as_str()) {
                Some(_) => fetch_forecast(c, g, locale),
                None => Err(String::new()),
            },
            _ => Err(String::new()),
        };
        weather_answer(intent.name.as_str(), locale, city.as_str(), &geo, forecast)
    }
}

} // verus!
