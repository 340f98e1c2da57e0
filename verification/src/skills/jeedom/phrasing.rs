//! What the jeedom skill says: readings, enumeration clauses, labels of
//! pending actions and group answers, and the "metric word" a sensor is
//! grouped under.
use vstd::prelude::*;
use vstd::string::*;
use crate::skills::jeedom::{Sensor, SensorView};
use crate::text::{
    ascii_eq_ignore_case, char_count, decimal, ends_with, ends_with_char, eq_ignore_ascii_case,
    has_suffix, owned, str_eq, take_chars, to_lowercase, trim, trim_end, trimmed, trimmed_end,
    u64_to_decimal, unicode_lowercase,
};

verus! {

/// Whether a raw binary reading means "on": `1`, or `true` in any ASCII case.
pub open spec fn reads_on(value: Seq<char>) -> bool {
    value == "1"@ || ascii_eq_ignore_case(value, "true"@)
}

/// The spoken label of a binary reading: the sensor's own label when set,
/// else activé/désactivé (on/off in English).
pub open spec fn binary_label_spec(s: SensorView, value: Seq<char>, en: bool) -> Seq<char> {
    if reads_on(value) {
        if s.on_label.len() == 0 { if en { "on"@ } else { "activé"@ } } else { s.on_label }
    } else {
        if s.off_label.len() == 0 { if en { "off"@ } else { "désactivé"@ } } else { s.off_label }
    }
}

/// ` <unit>` when the sensor has a unit, else nothing.
pub open spec fn unit_suffix(s: SensorView) -> Seq<char> {
    if s.unit.len() == 0 { seq![] } else { " "@ + s.unit }
}

/// A single-sensor reading, in the session's language.
pub open spec fn reading_spec(s: SensorView, value: Seq<char>, en: bool) -> Seq<char> {
    if s.kind == "binary"@ {
        let label = binary_label_spec(s, value, en);
        if en { "the "@ + s.name + " is "@ + label } else { "la "@ + s.name + " est "@ + label }
    } else if en {
        "the "@ + s.name + " is "@ + value + unit_suffix(s)
    } else {
        "la "@ + s.name + " est de "@ + value + unit_suffix(s)
    }
}

/// Where an enumeration clause says the sensor is: its room, else its name.
pub open spec fn place_of(s: SensorView) -> Seq<char> {
    if s.room.len() == 0 { s.name } else { s.room }
}

/// One enumeration clause for a sensor's reading.
pub open spec fn clause_spec(s: SensorView, value: Seq<char>, en: bool) -> Seq<char> {
    if s.kind == "binary"@ {
        place_of(s) + " "@ + binary_label_spec(s, value, en)
    } else {
        place_of(s) + " "@ + value + unit_suffix(s)
    }
}

/// Selects the spoken label for a binary sensor's raw value. Shared by
/// `phrase_reading` and `enum_clause` so both agree on what a binary
/// reading says.
pub fn binary_label<'a>(sensor: &'a Sensor, value: &str, en: bool) -> (r: &'a str)
    ensures
        r@ == binary_label_spec(sensor@, value@, en),
{
    let on = str_eq(value, "1") || eq_ignore_ascii_case(value, "true");
    if on {
        if sensor.on_label.as_str().is_empty() {
            if en { "on" } else { "activé" }
        } else {
            sensor.on_label.as_str()
        }
    } else if sensor.off_label.as_str().is_empty() {
        if en { "off" } else { "désactivé" }
    } else {
        sensor.off_label.as_str()
    }
}

fn push_unit(out: &mut String, sensor: &Sensor)
    ensures
        final(out)@ == old(out)@ + unit_suffix(sensor@),
{
    if !sensor.unit.as_str().is_empty() {
        out.append(" ");
        out.append(sensor.unit.as_str());
    }
    assert(final(out)@ =~= old(out)@ + unit_suffix(sensor@));
}

/// Phrases a raw reading in the session's language. Binary sensors speak
/// their on/off label; numeric sensors speak the value with its unit.
pub fn phrase_reading(sensor: &Sensor, value: &str, en: bool) -> (r: String)
    ensures
        r@ == reading_spec(sensor@, value@, en),
{
    if str_eq(sensor.kind.as_str(), "binary") {
        let label = binary_label(sensor, value, en);
        let mut out = owned(if en { "the " } else { "la " });
        out.append(sensor.name.as_str());
        out.append(if en { " is " } else { " est " });
        out.append(label);
        return out;
    }
    let mut out = owned(if en { "the " } else { "la " });
    out.append(sensor.name.as_str());
    out.append(if en { " is " } else { " est de " });
    out.append(value);
    push_unit(&mut out, sensor);
    out
}

/// One enumeration clause ("garage ouverte", "salon 21.5 degrés"): the
/// sensor's place, then its label or value and unit.
pub fn enum_clause(sensor: &Sensor, value: &str, en: bool) -> (r: String)
    ensures
        r@ == clause_spec(sensor@, value@, en),
{
    let mut out = if sensor.room.as_str().is_empty() { sensor.name.clone() } else { sensor.room.clone() };
    out.append(" ");
    if str_eq(sensor.kind.as_str(), "binary") {
        out.append(binary_label(sensor, value, en));
    } else {
        out.append(value);
        push_unit(&mut out, sensor);
    }
    out
}

/// The first article of « du », « de la », « de l’ », « de l' », « de »,
/// « dans le », « dans la » that ends `h`, removed.
pub open spec fn article_stripped(h: Seq<char>) -> Seq<char> {
    if has_suffix(h, "du"@) { h.take(h.len() - 2) }
    else if has_suffix(h, "de la"@) { h.take(h.len() - 5) }
    else if has_suffix(h, "de l’"@) { h.take(h.len() - 5) }
    else if has_suffix(h, "de l'"@) { h.take(h.len() - 5) }
    else if has_suffix(h, "de"@) { h.take(h.len() - 2) }
    else if has_suffix(h, "dans le"@) { h.take(h.len() - 7) }
    else if has_suffix(h, "dans la"@) { h.take(h.len() - 7) }
    else { h }
}

/// The sensor's "metric word": its lowercased name with a trailing room
/// reference, and the connector before it, stripped ("température du
/// salon" in room "salon" → "température"); the whole name when there is
/// no room suffix or nothing would be left.
pub open spec fn metric_spec(s: SensorView) -> Seq<char> {
    let name = unicode_lowercase(trimmed(s.name));
    let room = unicode_lowercase(trimmed(s.room));
    if room.len() == 0 || !has_suffix(name, room) {
        name
    } else {
        let head = trimmed_end(name.take(name.len() - room.len()));
        let prefix = unicode_lowercase(trimmed(s.prefix));
        let stripped = if prefix.len() > 0 && has_suffix(head, prefix) {
            trimmed_end(head.take(head.len() - prefix.len()))
        } else {
            trimmed_end(article_stripped(head))
        };
        if stripped.len() == 0 { name } else { stripped }
    }
}

fn strip_suffix_chars(h: &str, suffix: &str) -> (r: Option<String>)
    ensures
        r is Some <==> has_suffix(h@, suffix@),
        r matches Some(t) ==> t@ == h@.take(h@.len() - suffix@.len()),
{
    if ends_with(h, suffix) {
        Some(take_chars(h, char_count(h) - char_count(suffix)))
    } else {
        None
    }
}

fn strip_article(h: &str) -> (r: String)
    ensures
        r@ == article_stripped(h@),
{
    proof {
        reveal_strlit("du");
        reveal_strlit("de la");
        reveal_strlit("de l’");
        reveal_strlit("de l'");
        reveal_strlit("de");
        reveal_strlit("dans le");
        reveal_strlit("dans la");
    }
    if let Some(t) = strip_suffix_chars(h, "du") { return t; }
    if let Some(t) = strip_suffix_chars(h, "de la") { return t; }
    if let Some(t) = strip_suffix_chars(h, "de l’") { return t; }
    if let Some(t) = strip_suffix_chars(h, "de l'") { return t; }
    if let Some(t) = strip_suffix_chars(h, "de") { return t; }
    if let Some(t) = strip_suffix_chars(h, "dans le") { return t; }
    if let Some(t) = strip_suffix_chars(h, "dans la") { return t; }
    owned(h)
}

/// The sensor's metric word ("température" for "température du salon").
pub fn metric_of(sensor: &Sensor) -> (m: String)
    ensures
        m@ == metric_spec(sensor@),
{
    let name = to_lowercase(trim(sensor.name.as_str()).as_str());
    let room = to_lowercase(trim(sensor.room.as_str()).as_str());
    if room.as_str().is_empty() || !ends_with(name.as_str(), room.as_str()) {
        return name;
    }
    let head = trim_end(take_chars(name.as_str(), char_count(name.as_str()) - char_count(room.as_str())).as_str());
    let prefix = to_lowercase(trim(sensor.prefix.as_str()).as_str());
    let stripped = match strip_suffix_chars(head.as_str(), prefix.as_str()) {
        Some(t) if !prefix.as_str().is_empty() => trim_end(t.as_str()),
        _ => trim_end(strip_article(head.as_str()).as_str()),
    };
    if stripped.as_str().is_empty() { name } else { stripped }
}

/// A connector joined to a room: no space after an elided form
/// (« d'alicia »), one space otherwise (« du salon »).
pub open spec fn joined_prefix(prefix: Seq<char>, room: Seq<char>) -> Seq<char> {
    if prefix.len() > 0 && (prefix.last() == '\'' || prefix.last() == '’') {
        prefix + room
    } else {
        prefix + " "@ + room
    }
}

/// Joins a French connector to a room.
pub fn join_prefix(prefix: &str, room: &str) -> (r: String)
    ensures
        r@ == joined_prefix(prefix@, room@),
{
    let mut out = owned(prefix);
    if !(ends_with_char(prefix, '\'') || ends_with_char(prefix, '’')) {
        out.append(" ");
    }
    out.append(room);
    out
}

/// The definite article a de-form connector implies, for locative
/// « dans … » phrases; none for unmapped connectors (« d' », « chez »).
pub open spec fn dans_article_spec(prefix: Seq<char>) -> Option<Seq<char>> {
    let p = trimmed(prefix);
    if p == "du"@ { Some("le"@) }
    else if p == "de la"@ { Some("la"@) }
    else if p == "de l'"@ || p == "de l’"@ { Some("l'"@) }
    else { None }
}

/// Definite article implied by a de-form prefix.
pub fn dans_article(prefix: &str) -> (r: Option<&'static str>)
    ensures
        match dans_article_spec(prefix@) {
            Some(a) => r matches Some(s) && s@ == a,
            None => r is None,
        },
{
    let p = trim(prefix);
    let p = p.as_str();
    if str_eq(p, "du") { Some("le") }
    else if str_eq(p, "de la") { Some("la") }
    else if str_eq(p, "de l'") || str_eq(p, "de l’") { Some("l'") }
    else { None }
}

/// What a shutter intent asks for; `Pos` carries the clamped 0–100 target.
#[derive(Debug, Clone, Copy, PartialEq, Eq, Structural)]
pub enum ShutterCmd {
    Open,
    Close,
    Stop,
    Pos(u64),
}

/// The label of a shutter command, as spoken in a confirmation question.
pub open spec fn shutter_label_spec(name: Seq<char>, cmd: ShutterCmd, en: bool) -> Seq<char> {
    match cmd {
        ShutterCmd::Open => if en { "open "@ + name } else { "ouvrir "@ + name },
        ShutterCmd::Close => if en { "close "@ + name } else { "fermer "@ + name },
        ShutterCmd::Stop => if en { "stop "@ + name } else { "arrêter "@ + name },
        ShutterCmd::Pos(v) => if en {
            "set "@ + name + " to "@ + decimal(v as nat) + " percent"@
        } else {
            "mettre "@ + name + " à "@ + decimal(v as nat) + " pour cent"@
        },
    }
}

pub fn shutter_label(name: &str, cmd: &ShutterCmd, en: bool) -> (r: String)
    ensures
        r@ == shutter_label_spec(name@, *cmd, en),
{
    match cmd {
        ShutterCmd::Open => crate::text::cat(if en { "open " } else { "ouvrir " }, name),
        ShutterCmd::Close => crate::text::cat(if en { "close " } else { "fermer " }, name),
        ShutterCmd::Stop => crate::text::cat(if en { "stop " } else { "arrêter " }, name),
        ShutterCmd::Pos(v) => {
            let n = u64_to_decimal(*v);
            let mut out = owned(if en { "set " } else { "mettre " });
            out.append(name);
            out.append(if en { " to " } else { " à " });
            out.append(n.as_str());
            out.append(if en { " percent" } else { " pour cent" });
            out
        },
    }
}

/// The label of an on/off command, as spoken in a confirmation question.
pub open spec fn action_label_spec(name: Seq<char>, on: bool, en: bool) -> Seq<char> {
    if on {
        if en { "turn on "@ + name } else { "allumer "@ + name }
    } else {
        if en { "turn off "@ + name } else { "éteindre "@ + name }
    }
}

pub fn action_label(d: &crate::skills::jeedom::ActionDevice, on: bool, en: bool) -> (r: String)
    ensures
        r@ == action_label_spec(d.name@, on, en),
{
    let head = if on {
        if en { "turn on " } else { "allumer " }
    } else if en {
        "turn off "
    } else {
        "éteindre "
    };
    crate::text::cat(head, d.name.as_str())
}

/// The question asked when a position command comes without a number.
pub open spec fn ask_position_spec(en: bool) -> Seq<char> {
    if en { "To what position, in percent?"@ } else { "À quelle position, en pourcentage ?"@ }
}

pub fn ask_position(en: bool) -> (r: &'static str)
    ensures
        r@ == ask_position_spec(en),
{
    if en {
        "To what position, in percent?"
    } else {
        "À quelle position, en pourcentage ?"
    }
}

/// "Done." in the session's language.
pub open spec fn done_text(en: bool) -> Seq<char> {
    if en { "Done."@ } else { "C'est fait."@ }
}

/// The apology when Jeedom cannot be reached.
pub open spec fn unreachable_text(en: bool) -> Seq<char> {
    if en { "sorry, I can't reach Jeedom right now"@ } else { "désolé, je n'arrive pas à joindre Jeedom"@ }
}

/// The answer to a group shutter command after `failed` of `total`
/// shutters did not respond.
pub open spec fn group_answer_spec(total: nat, failed: nat, en: bool) -> Seq<char> {
    if failed == 0 {
        done_text(en)
    } else if failed >= total {
        unreachable_text(en)
    } else if en {
        if failed == 1 {
            "Done, but 1 shutter did not respond."@
        } else {
            "Done, but "@ + decimal(failed) + " shutters did not respond."@
        }
    } else if failed == 1 {
        "C'est fait, mais un volet n'a pas répondu."@
    } else {
        "C'est fait, mais "@ + decimal(failed) + " volets n'ont pas répondu."@
    }
}

pub fn group_answer(total: usize, failed: usize, en: bool) -> (r: String)
    ensures
        r@ == group_answer_spec(total as nat, failed as nat, en),
{
    if failed == 0 {
        return owned(if en { "Done." } else { "C'est fait." });
    }
    if failed >= total {
        return owned(
            if en {
                "sorry, I can't reach Jeedom right now"
            } else {
                "désolé, je n'arrive pas à joindre Jeedom"
            },
        );
    }
    if failed == 1 {
        return owned(
            if en {
                "Done, but 1 shutter did not respond."
            } else {
                "C'est fait, mais un volet n'a pas répondu."
            },
        );
    }
    let n = u64_to_decimal(failed as u64);
    if en {
        crate::text::cat3("Done, but ", n.as_str(), " shutters did not respond.")
    } else {
        crate::text::cat3("C'est fait, mais ", n.as_str(), " volets n'ont pas répondu.")
    }
}

} // verus!
