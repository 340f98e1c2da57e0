//! The jeedom skill's match rules: generic and per-sensor read rules, one
//! enumeration rule per metric word, on/off device rules, shutter rules
//! and the shared confirm/cancel rules.
use vstd::prelude::*;
use vstd::string::*;
use crate::sdk::skill::{PatternRule, RuleView, SlotKind, SlotKindView, SlotSpec, SlotSpecView, rules_view, slot_spec};
use crate::skills::jeedom::{
    ActionDevice, DeviceView, Sensor, SensorView, Shutter, ShutterView, devices_view, sensors_view,
    shutters_view,
};
use crate::skills::jeedom::phrasing::{
    dans_article, dans_article_spec, join_prefix, joined_prefix, metric_of, metric_spec,
};
use crate::text::{
    cat, cat3, cat4, decimal, ends_with_char, lemma_seq_lt_total, lemma_seq_lt_trans, owned,
    seq_lt, str_eq, str_lt, strings_view, u64_to_decimal,
};

verus! {

/// The locales the skill speaks.
pub open spec fn spoken_locale(locale: Seq<char>) -> bool {
    locale == "fr"@ || locale == "en"@
}

fn is_fr(locale: &str) -> (r: bool)
    ensures
        r == (locale@ == "fr"@),
{
    str_eq(locale, "fr")
}

fn is_en(locale: &str) -> (r: bool)
    ensures
        r == (locale@ == "en"@),
{
    str_eq(locale, "en")
}

fn no_slots() -> (v: Vec<SlotSpec>)
    ensures
        v@.len() == 0,
{
    Vec::new()
}

fn rule(intent: String, phrases: Vec<String>, slots: Vec<SlotSpec>, Ghost(v): Ghost<RuleView>) -> (r: PatternRule)
    requires
        intent@ =~= v.intent,
        strings_view(phrases@) =~= v.phrases,
        slots@.map_values(|s: SlotSpec| s@) =~= v.slots,
    ensures
        r@ == v,
{
    PatternRule { intent, phrases, slots }
}

// ---------------------------------------------------------------------------
// On/off devices
// ---------------------------------------------------------------------------

/// The turn-on and turn-off rules of one device, keyed by its `on_id`.
pub open spec fn device_rules(locale: Seq<char>, d: DeviceView) -> Seq<RuleView> {
    let n = d.name;
    let on = if locale == "fr"@ {
        seq!["allume la "@ + n, "allume le "@ + n, "allume "@ + n, "active "@ + n]
    } else {
        seq!["turn on the "@ + n, "turn on "@ + n, "switch on the "@ + n]
    };
    let off = if locale == "fr"@ {
        seq!["éteins la "@ + n, "éteins le "@ + n, "éteins "@ + n, "coupe "@ + n, "désactive "@ + n]
    } else {
        seq!["turn off the "@ + n, "turn off "@ + n, "switch off the "@ + n]
    };
    seq![
        RuleView { intent: "jeedom.turn_on."@ + decimal(d.on_id as nat), phrases: on, slots: seq![] },
        RuleView { intent: "jeedom.turn_off."@ + decimal(d.on_id as nat), phrases: off, slots: seq![] },
    ]
}

/// The device rules of a list, in order.
pub open spec fn devices_rules(locale: Seq<char>, ds: Seq<DeviceView>) -> Seq<RuleView>
    decreases ds.len(),
{
    if ds.len() == 0 {
        seq![]
    } else {
        devices_rules(locale, ds.drop_last()) + device_rules(locale, ds.last())
    }
}

/// Match rules for configured on/off devices: none in an unknown locale.
pub open spec fn action_rules_spec(locale: Seq<char>, ds: Seq<DeviceView>) -> Seq<RuleView> {
    if spoken_locale(locale) { devices_rules(locale, ds) } else { seq![] }
}

/// Match rules for configured on/off devices. The device key riding in the
/// intent name is always `on_id`.
pub fn action_rules(locale: &str, devices: &[ActionDevice]) -> (rules: Vec<PatternRule>)
    ensures
        rules_view(rules@) == action_rules_spec(locale@, devices_view(devices@)),
{
    let fr = is_fr(locale);
    if !fr && !is_en(locale) {
        return Vec::new();
    }
    let mut rules: Vec<PatternRule> = Vec::new();
    let mut i: usize = 0;
    while i < devices.len()
        invariant
            i <= devices.len(),
            fr == (locale@ == "fr"@),
            spoken_locale(locale@),
            rules_view(rules@) == devices_rules(locale@, devices_view(devices@.take(i as int))),
        decreases devices.len() - i,
    {
        let d = &devices[i];
        let n = d.name.as_str();
        let on = if fr {
            vec![cat("allume la ", n), cat("allume le ", n), cat("allume ", n), cat("active ", n)]
        } else {
            vec![cat("turn on the ", n), cat("turn on ", n), cat("switch on the ", n)]
        };
        let off = if fr {
            vec![cat("éteins la ", n), cat("éteins le ", n), cat("éteins ", n), cat("coupe ", n), cat("désactive ", n)]
        } else {
            vec![cat("turn off the ", n), cat("turn off ", n), cat("switch off the ", n)]
        };
        let key = u64_to_decimal(d.on_id);
        let ghost expect = device_rules(locale@, d@);
        proof {
            assert(strings_view(on@) =~= expect[0].phrases);
            assert(strings_view(off@) =~= expect[1].phrases);
        }
        rules.push(rule(cat("jeedom.turn_on.", key.as_str()), on, no_slots(), Ghost(expect[0])));
        rules.push(rule(cat("jeedom.turn_off.", key.as_str()), off, no_slots(), Ghost(expect[1])));
        proof {
            assert(devices_view(devices@.take(i + 1)).drop_last() =~= devices_view(devices@.take(i as int)));
            assert(devices_view(devices@.take(i + 1)).last() == d@);
            assert(rules_view(rules@) =~= devices_rules(locale@, devices_view(devices@.take(i + 1))));
        }
        i = i + 1;
    }
    assert(devices@.take(devices.len() as int) == devices@);
    rules
}

// ---------------------------------------------------------------------------
// Confirm / cancel
// ---------------------------------------------------------------------------

/// The shared spoken confirm/cancel rules.
pub open spec fn confirm_rules_spec(locale: Seq<char>) -> Seq<RuleView> {
    if locale == "fr"@ {
        seq![
            RuleView { intent: "jeedom.confirm"@, phrases: seq!["oui"@, "confirme"@, "c'est confirmé"@], slots: seq![] },
            RuleView { intent: "jeedom.cancel"@, phrases: seq!["non"@, "annule"@], slots: seq![] },
        ]
    } else if locale == "en"@ {
        seq![
            RuleView { intent: "jeedom.confirm"@, phrases: seq!["yes"@, "confirm"@], slots: seq![] },
            RuleView { intent: "jeedom.cancel"@, phrases: seq!["no"@, "cancel"@], slots: seq![] },
        ]
    } else {
        seq![]
    }
}

/// The shared spoken confirm/cancel rules, registered once by
/// `pattern_rules` when any device or shutter asks for confirmation.
pub fn confirm_rules(locale: &str) -> (rules: Vec<PatternRule>)
    ensures
        rules_view(rules@) == confirm_rules_spec(locale@),
{
    let (yes, no) = if is_fr(locale) {
        (vec![owned("oui"), owned("confirme"), owned("c'est confirmé")], vec![owned("non"), owned("annule")])
    } else if is_en(locale) {
        (vec![owned("yes"), owned("confirm")], vec![owned("no"), owned("cancel")])
    } else {
        let rules = Vec::new();
        assert(rules_view(rules@) =~= confirm_rules_spec(locale@));
        return rules;
    };
    let ghost expect = confirm_rules_spec(locale@);
    proof {
        assert(strings_view(yes@) =~= expect[0].phrases);
        assert(strings_view(no@) =~= expect[1].phrases);
    }
    let mut rules: Vec<PatternRule> = Vec::new();
    rules.push(rule(owned("jeedom.confirm"), yes, no_slots(), Ghost(expect[0])));
    rules.push(rule(owned("jeedom.cancel"), no, no_slots(), Ghost(expect[1])));
    assert(rules_view(rules@) =~= expect);
    rules
}

// ---------------------------------------------------------------------------
// Shutters
// ---------------------------------------------------------------------------

/// The rules of one shutter, keyed by its `up_id`: open and close always,
/// stop and position only when those commands are configured.
pub open spec fn shutter_rules_of(locale: Seq<char>, s: ShutterView) -> Seq<RuleView> {
    let n = s.name;
    let key = decimal(s.up_id as nat);
    let fr = locale == "fr"@;
    let open = if fr {
        seq!["ouvre le "@ + n, "ouvre la "@ + n, "ouvre "@ + n, "monte le "@ + n, "lève le "@ + n]
    } else {
        seq!["open the "@ + n, "open "@ + n, "raise the "@ + n]
    };
    let close = if fr {
        seq!["ferme le "@ + n, "ferme la "@ + n, "ferme "@ + n, "descends le "@ + n, "baisse le "@ + n]
    } else {
        seq!["close the "@ + n, "close "@ + n, "lower the "@ + n]
    };
    let stop = if fr {
        seq!["stop le "@ + n, "stop "@ + n, "arrête le "@ + n]
    } else {
        seq!["stop the "@ + n, "stop "@ + n]
    };
    let pos = if fr {
        seq![
            "ouvre le "@ + n + " à {position}"@,
            "ouvre le "@ + n + " à {position} pour cent"@,
            "mets le "@ + n + " à {position}"@,
            "mets le "@ + n + " à {position} pour cent"@,
        ]
    } else {
        seq![
            "set the "@ + n + " to {position}"@,
            "set the "@ + n + " to {position} percent"@,
            "open the "@ + n + " to {position} percent"@,
        ]
    };
    seq![
        RuleView { intent: "jeedom.shutter_open."@ + key, phrases: open, slots: seq![] },
        RuleView { intent: "jeedom.shutter_close."@ + key, phrases: close, slots: seq![] },
    ] + (if s.stop_id != 0 {
        seq![RuleView { intent: "jeedom.shutter_stop."@ + key, phrases: stop, slots: seq![] }]
    } else {
        seq![]
    }) + (if s.slider_id != 0 {
        seq![RuleView {
            intent: "jeedom.shutter_pos."@ + key,
            phrases: pos,
            slots: seq![SlotSpecView { name: "position"@, kind: SlotKindView::Number }],
        }]
    } else {
        seq![]
    })
}

/// The per-shutter rules of a list, in order.
pub open spec fn shutters_rules(locale: Seq<char>, ss: Seq<ShutterView>) -> Seq<RuleView>
    decreases ss.len(),
{
    if ss.len() == 0 {
        seq![]
    } else {
        shutters_rules(locale, ss.drop_last()) + shutter_rules_of(locale, ss.last())
    }
}

/// The two group rules ("ouvre tous les volets" / "ferme tous les volets").
pub open spec fn group_rules(locale: Seq<char>) -> Seq<RuleView> {
    let fr = locale == "fr"@;
    seq![
        RuleView {
            intent: "jeedom.shutter_open_all"@,
            phrases: if fr {
                seq!["ouvre tous les volets"@, "ouvre les volets"@]
            } else {
                seq!["open all the shutters"@, "open the shutters"@]
            },
            slots: seq![],
        },
        RuleView {
            intent: "jeedom.shutter_close_all"@,
            phrases: if fr {
                seq!["ferme tous les volets"@, "ferme les volets"@]
            } else {
                seq!["close all the shutters"@, "close the shutters"@]
            },
            slots: seq![],
        },
    ]
}

/// Match rules for configured shutters: nothing without shutters or in an
/// unknown locale; else each shutter's rules, then the group rules once.
pub open spec fn shutter_rules_spec(locale: Seq<char>, ss: Seq<ShutterView>) -> Seq<RuleView> {
    if ss.len() == 0 || !spoken_locale(locale) {
        seq![]
    } else {
        shutters_rules(locale, ss) + group_rules(locale)
    }
}

fn one_shutter_rules(fr: bool, s: &Shutter, rules: &mut Vec<PatternRule>, Ghost(locale): Ghost<Seq<char>>)
    requires
        fr == (locale == "fr"@),
    ensures
        rules_view(final(rules)@) == rules_view(old(rules)@) + shutter_rules_of(locale, s@),
{
    let n = s.name.as_str();
    let key = u64_to_decimal(s.up_id);
    let k = key.as_str();
    let ghost expect = shutter_rules_of(locale, s@);
    let open = if fr {
        vec![cat("ouvre le ", n), cat("ouvre la ", n), cat("ouvre ", n), cat("monte le ", n), cat("lève le ", n)]
    } else {
        vec![cat("open the ", n), cat("open ", n), cat("raise the ", n)]
    };
    let close = if fr {
        vec![cat("ferme le ", n), cat("ferme la ", n), cat("ferme ", n), cat("descends le ", n), cat("baisse le ", n)]
    } else {
        vec![cat("close the ", n), cat("close ", n), cat("lower the ", n)]
    };
    proof {
        assert(strings_view(open@) =~= expect[0].phrases);
        assert(strings_view(close@) =~= expect[1].phrases);
    }
    let ghost before = rules_view(rules@);
    rules.push(rule(cat("jeedom.shutter_open.", k), open, no_slots(), Ghost(expect[0])));
    rules.push(rule(cat("jeedom.shutter_close.", k), close, no_slots(), Ghost(expect[1])));
    assert(rules_view(rules@) =~= before + expect.take(2));
    let mut count: usize = 2;
    if s.stop_id != 0 {
        let stop = if fr {
            vec![cat("stop le ", n), cat("stop ", n), cat("arrête le ", n)]
        } else {
            vec![cat("stop the ", n), cat("stop ", n)]
        };
        assert(strings_view(stop@) =~= expect[2].phrases);
        rules.push(rule(cat("jeedom.shutter_stop.", k), stop, no_slots(), Ghost(expect[2])));
        count = 3;
        assert(rules_view(rules@) =~= before + expect.take(3));
    }
    if s.slider_id != 0 {
        let pos = if fr {
            vec![
                cat3("ouvre le ", n, " à {position}"),
                cat3("ouvre le ", n, " à {position} pour cent"),
                cat3("mets le ", n, " à {position}"),
                cat3("mets le ", n, " à {position} pour cent"),
            ]
        } else {
            vec![
                cat3("set the ", n, " to {position}"),
                cat3("set the ", n, " to {position} percent"),
                cat3("open the ", n, " to {position} percent"),
            ]
        };
        assert(strings_view(pos@) =~= expect[count as int].phrases);
        let slots = vec![slot_spec("position", SlotKind::Number)];
        assert(slots@.map_values(|x: SlotSpec| x@) =~= expect[count as int].slots);
        rules.push(rule(cat("jeedom.shutter_pos.", k), pos, slots, Ghost(expect[count as int])));
        count = count + 1;
        assert(rules_view(rules@) =~= before + expect.take(count as int));
    }
    assert(expect.take(count as int) == expect);
}

/// Match rules for configured shutters. Stop and position rules exist only
/// for shutters that configured those command ids; the two group rules are
/// registered once whenever any shutter exists. Key = `up_id`.
pub fn shutter_rules(locale: &str, list: &[Shutter]) -> (rules: Vec<PatternRule>)
    ensures
        rules_view(rules@) == shutter_rules_spec(locale@, shutters_view(list@)),
{
    let fr = is_fr(locale);
    if list.len() == 0 || (!fr && !is_en(locale)) {
        let rules = Vec::new();
        assert(rules_view(rules@) =~= shutter_rules_spec(locale@, shutters_view(list@)));
        return rules;
    }
    let mut rules: Vec<PatternRule> = Vec::new();
    let mut i: usize = 0;
    while i < list.len()
        invariant
            i <= list.len(),
            fr == (locale@ == "fr"@),
            rules_view(rules@) == shutters_rules(locale@, shutters_view(list@.take(i as int))),
        decreases list.len() - i,
    {
        one_shutter_rules(fr, &list[i], &mut rules, Ghost(locale@));
        proof {
            assert(shutters_view(list@.take(i + 1)).drop_last() =~= shutters_view(list@.take(i as int)));
            assert(shutters_view(list@.take(i + 1)).last() == list@[i as int]@);
        }
        i = i + 1;
    }
    assert(list@.take(list.len() as int) == list@);
    let (open_all, close_all) = if fr {
        (vec![owned("ouvre tous les volets"), owned("ouvre les volets")], vec![owned("ferme tous les volets"), owned("ferme les volets")])
    } else {
        (vec![owned("open all the shutters"), owned("open the shutters")], vec![owned("close all the shutters"), owned("close the shutters")])
    };
    let ghost g = group_rules(locale@);
    assert(strings_view(open_all@) =~= g[0].phrases);
    assert(strings_view(close_all@) =~= g[1].phrases);
    let ghost before = rules_view(rules@);
    rules.push(rule(owned("jeedom.shutter_open_all"), open_all, no_slots(), Ghost(g[0])));
    rules.push(rule(owned("jeedom.shutter_close_all"), close_all, no_slots(), Ghost(g[1])));
    assert(rules_view(rules@) =~= before + g);
    rules
}


// ---------------------------------------------------------------------------
// Sensors
// ---------------------------------------------------------------------------

/// The generic read rule, with the spoken sensor name in its `sensor` slot.
pub open spec fn read_rule(locale: Seq<char>) -> RuleView {
    RuleView {
        intent: "jeedom.read"@,
        phrases: if locale == "fr"@ {
            seq!["capteur {sensor}"@, "valeur du capteur {sensor}"@, "donne-moi la {sensor}"@, "combien fait la {sensor}"@]
        } else {
            seq!["sensor {sensor}"@, "sensor value {sensor}"@, "give me the {sensor}"@, "read the {sensor}"@]
        },
        slots: seq![SlotSpecView { name: "sensor"@, kind: SlotKindView::String }],
    }
}

/// Room-scoped phrasings of a sensor tied to a room. In French, without a
/// configured connector both genders are offered; with one, the connector
/// is used as is, and locative « dans » forms exist only when it maps to a
/// definite article.
pub open spec fn room_phrases(locale: Seq<char>, s: SensorView) -> Seq<Seq<char>> {
    let metric = metric_spec(s);
    let room = s.room;
    if room.len() == 0 {
        seq![]
    } else if locale == "fr"@ {
        if s.prefix.len() == 0 {
            seq![
                "quelle "@ + metric + " dans le "@ + room,
                "quelle "@ + metric + " dans la "@ + room,
                metric + " dans le "@ + room,
                metric + " dans la "@ + room,
                "quelle est la "@ + metric + " dans le "@ + room,
                "quelle est la "@ + metric + " dans la "@ + room,
                "quelle est la "@ + metric + " du "@ + room,
                "quelle est la "@ + metric + " de la "@ + room,
                metric + " du "@ + room,
                metric + " de la "@ + room,
            ]
        } else {
            let with_room = joined_prefix(s.prefix, room);
            seq![metric + " "@ + with_room, "quelle est la "@ + metric + " "@ + with_room] + match dans_article_spec(s.prefix) {
                Some(article) => {
                    let loc = joined_prefix(article, room);
                    seq![
                        metric + " dans "@ + loc,
                        "quelle "@ + metric + " dans "@ + loc,
                        "quelle est la "@ + metric + " dans "@ + loc,
                    ]
                },
                None => seq![],
            }
        }
    } else {
        seq![metric + " in the "@ + room, "what is the "@ + metric + " in the "@ + room]
    }
}

/// The literal phrasings built from one sensor's own name and room.
pub open spec fn literal_phrases(locale: Seq<char>, s: SensorView) -> Seq<Seq<char>> {
    (if locale == "fr"@ {
        seq!["quelle est la "@ + s.name, "quel est le niveau de "@ + s.name]
    } else {
        seq!["what is the "@ + s.name, "what's the "@ + s.name]
    }) + room_phrases(locale, s)
}

/// The per-sensor literal rule; the sensor id rides in the intent name.
pub open spec fn sensor_rule(locale: Seq<char>, s: SensorView) -> RuleView {
    RuleView { intent: "jeedom.read."@ + decimal(s.id as nat), phrases: literal_phrases(locale, s), slots: seq![] }
}

/// Strictly increasing in `String` order (so without repetition).
pub open spec fn strictly_sorted(r: Seq<Seq<char>>) -> bool {
    forall|i: int, j: int| 0 <= i < j < r.len() ==> seq_lt(#[trigger] r[i], #[trigger] r[j])
}

/// The distinct words of `ws`, in increasing `String` order.
pub open spec fn sorted_distinct(ws: Seq<Seq<char>>) -> Seq<Seq<char>> {
    choose|r: Seq<Seq<char>>| strictly_sorted(r) && forall|x: Seq<char>| r.contains(x) <==> ws.contains(x)
}

/// The enumeration rule of a metric word ("toutes les températures").
pub open spec fn enum_rule(locale: Seq<char>, metric: Seq<char>) -> RuleView {
    let plural = if metric.len() > 0 && metric.last() == 's' { metric } else { metric + "s"@ };
    RuleView {
        intent: "jeedom.read_all."@ + metric,
        phrases: if locale == "fr"@ {
            seq!["toutes les "@ + plural, "toutes les "@ + metric]
        } else {
            seq!["all "@ + plural, "all the "@ + plural]
        },
        slots: seq![],
    }
}

/// The metric words of a sensor list, in order.
pub open spec fn metric_words(ss: Seq<SensorView>) -> Seq<Seq<char>> {
    ss.map_values(|s: SensorView| metric_spec(s))
}

/// All match rules for a sensor list: none without sensors or in an
/// unknown locale; else the generic read rule, one literal rule per sensor,
/// and one enumeration rule per distinct metric word.
pub open spec fn rules_for_spec(locale: Seq<char>, ss: Seq<SensorView>) -> Seq<RuleView> {
    if ss.len() == 0 || !spoken_locale(locale) {
        seq![]
    } else {
        seq![read_rule(locale)] + ss.map_values(|s: SensorView| sensor_rule(locale, s))
            + sorted_distinct(metric_words(ss)).map_values(|m: Seq<char>| enum_rule(locale, m))
    }
}

proof fn lemma_sorted_unique(a: Seq<Seq<char>>, b: Seq<Seq<char>>)
    requires
        strictly_sorted(a),
        strictly_sorted(b),
        forall|x: Seq<char>| a.contains(x) <==> b.contains(x),
    ensures
        a == b,
    decreases a.len(),
{
    if a.len() == 0 {
        if b.len() > 0 {
            assert(b.contains(b[0]));
        }
        assert(a =~= b);
    } else {
        if b.len() == 0 {
            assert(a.contains(a[0]));
        }
        assert(a.contains(a[0]));
        assert(b.contains(b[0]));
        let j = choose|j: int| 0 <= j < b.len() && b[j] == a[0];
        let k = choose|k: int| 0 <= k < a.len() && a[k] == b[0];
        lemma_seq_lt_total(a[0], b[0]);
        if j > 0 {
            assert(seq_lt(b[0], b[j]));
            if k > 0 {
                assert(seq_lt(a[0], a[k]));
            }
        }
        assert(a[0] == b[0]);
        let a1 = a.drop_first();
        let b1 = b.drop_first();
        assert forall|x: Seq<char>| a1.contains(x) <==> b1.contains(x) by {
            if a1.contains(x) {
                let i = choose|i: int| 0 <= i < a1.len() && a1[i] == x;
                assert(seq_lt(a[0], a[i + 1]));
                lemma_seq_lt_total(x, x);
                assert(a.contains(x));
                let i2 = choose|i2: int| 0 <= i2 < b.len() && b[i2] == x;
                assert(i2 != 0);
                assert(b1[i2 - 1] == x);
            }
            if b1.contains(x) {
                let i = choose|i: int| 0 <= i < b1.len() && b1[i] == x;
                assert(seq_lt(b[0], b[i + 1]));
                lemma_seq_lt_total(x, x);
                assert(b.contains(x));
                let i2 = choose|i2: int| 0 <= i2 < a.len() && a[i2] == x;
                assert(i2 != 0);
                assert(a1[i2 - 1] == x);
            }
        }
        assert(strictly_sorted(a1)) by {
            assert forall|i: int, j: int| 0 <= i < j < a1.len() implies seq_lt(#[trigger] a1[i], #[trigger] a1[j]) by {
                assert(a1[i] == a[i + 1] && a1[j] == a[j + 1]);
            }
        }
        assert(strictly_sorted(b1)) by {
            assert forall|i: int, j: int| 0 <= i < j < b1.len() implies seq_lt(#[trigger] b1[i], #[trigger] b1[j]) by {
                assert(b1[i] == b[i + 1] && b1[j] == b[j + 1]);
            }
        }
        lemma_sorted_unique(a1, b1);
        assert(a =~= seq![a[0]] + a1);
        assert(b =~= seq![b[0]] + b1);
    }
}

/// Where a word goes in a strictly sorted list: after every smaller word.
spec fn insert_point(r: Seq<Seq<char>>, x: Seq<char>) -> int
    decreases r.len(),
{
    if r.len() == 0 || !seq_lt(r[0], x) { 0 } else { 1 + insert_point(r.drop_first(), x) }
}

proof fn lemma_insert_point(r: Seq<Seq<char>>, x: Seq<char>)
    requires
        strictly_sorted(r),
    ensures
        0 <= insert_point(r, x) <= r.len(),
        forall|k: int| 0 <= k < insert_point(r, x) ==> seq_lt(#[trigger] r[k], x),
        insert_point(r, x) < r.len() ==> !seq_lt(r[insert_point(r, x)], x),
    decreases r.len(),
{
    if r.len() > 0 && seq_lt(r[0], x) {
        let t = r.drop_first();
        assert(strictly_sorted(t)) by {
            assert forall|i: int, j: int| 0 <= i < j < t.len() implies seq_lt(#[trigger] t[i], #[trigger] t[j]) by {
                assert(t[i] == r[i + 1] && t[j] == r[j + 1]);
            }
        }
        lemma_insert_point(t, x);
        assert forall|k: int| 0 <= k < insert_point(r, x) implies seq_lt(#[trigger] r[k], x) by {
            if k > 0 {
                assert(r[k] == t[k - 1]);
            }
        }
    }
}

/// A strictly sorted list with a word added (unchanged when it is there).
proof fn lemma_sorted_insert(r: Seq<Seq<char>>, x: Seq<char>) -> (out: Seq<Seq<char>>)
    requires
        strictly_sorted(r),
    ensures
        strictly_sorted(out),
        forall|y: Seq<char>| out.contains(y) <==> (r.contains(y) || y == x),
{
    lemma_insert_point(r, x);
    let j = insert_point(r, x);
    if j < r.len() && r[j] == x {
        assert forall|y: Seq<char>| r.contains(y) <==> (r.contains(y) || y == x) by {
            if y == x {
                assert(r[j] == y);
            }
        }
        r
    } else {
        let n = r.insert(j, x);
        assert(n.len() == r.len() + 1);
        assert forall|i: int| 0 <= i < n.len() implies #[trigger] n[i] == (if i < j { r[i] } else if i == j { x } else { r[i - 1] }) by {}
        if j < r.len() {
            lemma_seq_lt_total(r[j], x);
            assert(seq_lt(x, r[j]));
        }
        assert forall|a: int, b: int| 0 <= a < b < n.len() implies seq_lt(#[trigger] n[a], #[trigger] n[b]) by {
            if b < j {
                assert(seq_lt(r[a], r[b]));
            } else if b == j {
                assert(seq_lt(r[a], x));
            } else {
                if b - 1 > j {
                    assert(seq_lt(r[j], r[b - 1]));
                    lemma_seq_lt_trans(x, r[j], r[b - 1]);
                }
                assert(seq_lt(x, r[b - 1]));
                if a < j {
                    lemma_seq_lt_trans(r[a], x, r[b - 1]);
                } else if a > j {
                    assert(seq_lt(r[a - 1], r[b - 1]));
                }
            }
        }
        assert forall|y: Seq<char>| n.contains(y) <==> (r.contains(y) || y == x) by {
            if n.contains(y) {
                let i = choose|i: int| 0 <= i < n.len() && n[i] == y;
                if i < j {
                    assert(r[i] == y);
                } else if i > j {
                    assert(r[i - 1] == y);
                }
            }
            if r.contains(y) {
                let i = choose|i: int| 0 <= i < r.len() && r[i] == y;
                if i < j {
                    assert(n[i] == y);
                } else {
                    assert(n[i + 1] == y);
                }
            }
            if y == x {
                assert(n[j] == y);
            }
        }
        n
    }
}

/// Every list of words has a strictly sorted list of its distinct words.
proof fn lemma_sorted_distinct_exists(ws: Seq<Seq<char>>)
    ensures
        strictly_sorted(sorted_distinct(ws)),
        forall|x: Seq<char>| sorted_distinct(ws).contains(x) <==> ws.contains(x),
    decreases ws.len(),
{
    if ws.len() == 0 {
        let e = Seq::<Seq<char>>::empty();
        assert(strictly_sorted(e) && forall|x: Seq<char>| e.contains(x) <==> ws.contains(x));
    } else {
        lemma_sorted_distinct_exists(ws.drop_last());
        let r = sorted_distinct(ws.drop_last());
        let out = lemma_sorted_insert(r, ws.last());
        assert forall|x: Seq<char>| out.contains(x) <==> ws.contains(x) by {
            if ws.contains(x) {
                let i = choose|i: int| 0 <= i < ws.len() && ws[i] == x;
                if i < ws.len() - 1 {
                    assert(ws.drop_last()[i] == x);
                }
            }
            if ws.drop_last().contains(x) {
                let i = choose|i: int| 0 <= i < ws.drop_last().len() && ws.drop_last()[i] == x;
                assert(ws[i] == x);
            }
        }
        assert(strictly_sorted(out) && forall|x: Seq<char>| out.contains(x) <==> ws.contains(x));
    }
}

/// One enumeration rule per distinct metric word: the enumerated words are
/// in strictly increasing order (so none twice), and a word is enumerated
/// exactly when some configured sensor has it as its metric.
pub proof fn law_one_enumeration_per_metric(ss: Seq<SensorView>)
    ensures
        strictly_sorted(sorted_distinct(metric_words(ss))),
        forall|m: Seq<char>| #[trigger] sorted_distinct(metric_words(ss)).contains(m)
            <==> exists|i: int| 0 <= i < ss.len() && metric_spec(ss[i]) == m,
{
    lemma_sorted_distinct_exists(metric_words(ss));
    assert forall|m: Seq<char>| #[trigger] sorted_distinct(metric_words(ss)).contains(m)
        <==> exists|i: int| 0 <= i < ss.len() && metric_spec(ss[i]) == m by {
        if metric_words(ss).contains(m) {
            let i = choose|i: int| 0 <= i < metric_words(ss).len() && metric_words(ss)[i] == m;
            assert(metric_spec(ss[i]) == m);
        }
        if exists|i: int| 0 <= i < ss.len() && metric_spec(ss[i]) == m {
            let i = choose|i: int| 0 <= i < ss.len() && metric_spec(ss[i]) == m;
            assert(metric_words(ss)[i] == m);
        }
    }
}

/// Adds a word to a strictly sorted list of words, keeping it strictly
/// sorted (nothing changes when the word is already there).
fn insert_sorted(v: &mut Vec<String>, m: String)
    requires
        strictly_sorted(strings_view(old(v)@)),
    ensures
        strictly_sorted(strings_view(final(v)@)),
        forall|x: Seq<char>| strings_view(final(v)@).contains(x) <==> (strings_view(old(v)@).contains(x) || x == m@),
{
    let mut j: usize = 0;
    while j < v.len() && str_lt(v[j].as_str(), m.as_str())
        invariant
            j <= v.len(),
            forall|k: int| 0 <= k < j ==> seq_lt(#[trigger] v@[k]@, m@),
        decreases v.len() - j,
    {
        j = j + 1;
    }
    let ghost o = strings_view(v@);
    if j < v.len() && str_eq(v[j].as_str(), m.as_str()) {
        assert forall|x: Seq<char>| o.contains(x) <==> (o.contains(x) || x == m@) by {
            if x == m@ {
                assert(o[j as int] == x);
            }
        }
        return;
    }
    let ghost mv = m@;
    v.insert(j, m);
    proof {
        let n = strings_view(v@);
        assert(n.len() == o.len() + 1);
        assert forall|i: int| 0 <= i < n.len() implies #[trigger] n[i] == (if i < j { o[i] } else if i == j { mv } else { o[i - 1] }) by {
            assert(n[i] == v@[i]@);
        }
        if j < o.len() {
            lemma_seq_lt_total(o[j as int], mv);
            assert(o[j as int] == v@[j + 1]@);
            assert(seq_lt(mv, o[j as int]));
        }
        assert forall|a: int, b: int| 0 <= a < b < n.len() implies seq_lt(#[trigger] n[a], #[trigger] n[b]) by {
            if b < j {
                assert(seq_lt(o[a], o[b]));
            } else if b == j {
                assert(seq_lt(o[a], mv));
            } else {
                if b - 1 > j {
                    assert(seq_lt(o[j as int], o[b - 1]));
                    lemma_seq_lt_trans(mv, o[j as int], o[b - 1]);
                }
                assert(seq_lt(mv, o[b - 1]));
                if a < j {
                    assert(seq_lt(o[a], mv));
                    lemma_seq_lt_trans(o[a], mv, o[b - 1]);
                } else if a > j {
                    assert(seq_lt(o[a - 1], o[b - 1]));
                }
            }
        }
        assert forall|x: Seq<char>| n.contains(x) <==> (o.contains(x) || x == mv) by {
            if n.contains(x) {
                let i = choose|i: int| 0 <= i < n.len() && n[i] == x;
                if i < j {
                    assert(o[i] == x);
                } else if i > j {
                    assert(o[i - 1] == x);
                }
            }
            if o.contains(x) {
                let i = choose|i: int| 0 <= i < o.len() && o[i] == x;
                if i < j {
                    assert(n[i] == x);
                } else {
                    assert(n[i + 1] == x);
                }
            }
            if x == mv {
                assert(n[j as int] == x);
            }
        }
    }
}

fn room_phrases_exec(fr: bool, s: &Sensor, phrases: &mut Vec<String>, Ghost(locale): Ghost<Seq<char>>)
    requires
        fr == (locale == "fr"@),
    ensures
        strings_view(final(phrases)@) == strings_view(old(phrases)@) + room_phrases(locale, s@),
{
    let ghost before = strings_view(phrases@);
    let ghost expect = room_phrases(locale, s@);
    if s.room.as_str().is_empty() {
        assert(expect =~= seq![]);
        assert(strings_view(phrases@) =~= before + expect);
        return;
    }
    let metric = metric_of(s);
    let m = metric.as_str();
    let room = s.room.as_str();
    if !fr {
        phrases.push(cat3(m, " in the ", room));
        phrases.push(cat4("what is the ", m, " in the ", room));
        assert(strings_view(phrases@) =~= before + expect);
        return;
    }
    if s.prefix.as_str().is_empty() {
        phrases.push(cat4("quelle ", m, " dans le ", room));
        phrases.push(cat4("quelle ", m, " dans la ", room));
        phrases.push(cat3(m, " dans le ", room));
        phrases.push(cat3(m, " dans la ", room));
        phrases.push(cat4("quelle est la ", m, " dans le ", room));
        phrases.push(cat4("quelle est la ", m, " dans la ", room));
        phrases.push(cat4("quelle est la ", m, " du ", room));
        phrases.push(cat4("quelle est la ", m, " de la ", room));
        phrases.push(cat3(m, " du ", room));
        phrases.push(cat3(m, " de la ", room));
        assert(strings_view(phrases@) =~= before + expect);
        return;
    }
    let with_room = join_prefix(s.prefix.as_str(), room);
    phrases.push(cat3(m, " ", with_room.as_str()));
    phrases.push(cat4("quelle est la ", m, " ", with_room.as_str()));
    match dans_article(s.prefix.as_str()) {
        Some(article) => {
            let loc = join_prefix(article, room);
            phrases.push(cat3(m, " dans ", loc.as_str()));
            phrases.push(cat4("quelle ", m, " dans ", loc.as_str()));
            phrases.push(cat4("quelle est la ", m, " dans ", loc.as_str()));
        },
        None => {},
    }
    assert(strings_view(phrases@) =~= before + expect);
}

/// Builds the full set of match rules for a locale from a sensor list. No
/// sensors configured → no patterns: installs without a jeedom config must
/// not capture "donne-moi la …" utterances just to apologise.
pub fn rules_for(locale: &str, configured: &[Sensor]) -> (rules: Vec<PatternRule>)
    ensures
        rules_view(rules@) == rules_for_spec(locale@, sensors_view(configured@)),
{
    let ghost ss = sensors_view(configured@);
    if configured.len() == 0 {
        let rules = Vec::new();
        assert(rules_view(rules@) =~= rules_for_spec(locale@, ss));
        return rules;
    }
    let fr = is_fr(locale);
    if !fr && !is_en(locale) {
        let rules = Vec::new();
        assert(rules_view(rules@) =~= rules_for_spec(locale@, ss));
        return rules;
    }
    let phrases = if fr {
        vec![owned("capteur {sensor}"), owned("valeur du capteur {sensor}"), owned("donne-moi la {sensor}"), owned("combien fait la {sensor}")]
    } else {
        vec![owned("sensor {sensor}"), owned("sensor value {sensor}"), owned("give me the {sensor}"), owned("read the {sensor}")]
    };
    let slots = vec![slot_spec("sensor", SlotKind::String)];
    let ghost r0 = read_rule(locale@);
    assert(strings_view(phrases@) =~= r0.phrases);
    assert(slots@.map_values(|x: SlotSpec| x@) =~= r0.slots);
    let mut rules: Vec<PatternRule> = Vec::new();
    rules.push(rule(owned("jeedom.read"), phrases, slots, Ghost(r0)));
    let mut metrics: Vec<String> = Vec::new();
    let mut i: usize = 0;
    while i < configured.len()
        invariant
            i <= configured.len(),
            fr == (locale@ == "fr"@),
            ss == sensors_view(configured@),
            rules_view(rules@) == seq![r0] + ss.take(i as int).map_values(|s: SensorView| sensor_rule(locale@, s)),
            strictly_sorted(strings_view(metrics@)),
            forall|x: Seq<char>| strings_view(metrics@).contains(x) <==> metric_words(ss.take(i as int)).contains(x),
        decreases configured.len() - i,
    {
        let s = &configured[i];
        let name = s.name.as_str();
        let mut lit: Vec<String> = if fr {
            vec![cat("quelle est la ", name), cat("quel est le niveau de ", name)]
        } else {
            vec![cat("what is the ", name), cat("what's the ", name)]
        };
        room_phrases_exec(fr, s, &mut lit, Ghost(locale@));
        let key = u64_to_decimal(s.id);
        let ghost expect = sensor_rule(locale@, s@);
        assert(strings_view(lit@) =~= expect.phrases);
        let ghost before = rules_view(rules@);
        rules.push(rule(cat("jeedom.read.", key.as_str()), lit, no_slots(), Ghost(expect)));
        let ghost old_metrics = strings_view(metrics@);
        let m = metric_of(s);
        let ghost mv = m@;
        insert_sorted(&mut metrics, m);
        proof {
            assert(ss[i as int] == s@);
            assert(rules_view(rules@) =~= before.push(expect));
            assert(ss.take(i + 1) =~= ss.take(i as int).push(s@));
            assert(rules_view(rules@) =~= seq![r0] + ss.take(i + 1).map_values(|s: SensorView| sensor_rule(locale@, s)));
            assert(metric_words(ss.take(i + 1)) =~= metric_words(ss.take(i as int)).push(metric_spec(s@)));
            assert forall|x: Seq<char>| strings_view(metrics@).contains(x) <==> metric_words(ss.take(i + 1)).contains(x) by {
                let w = metric_words(ss.take(i as int));
                assert(strings_view(metrics@).contains(x) <==> (old_metrics.contains(x) || x == mv));
                assert(old_metrics.contains(x) <==> w.contains(x));
                if x == metric_spec(s@) {
                    assert(w.push(metric_spec(s@))[w.len() as int] == x);
                }
                if w.contains(x) {
                    let k = choose|k: int| 0 <= k < w.len() && w[k] == x;
                    assert(w.push(metric_spec(s@))[k] == x);
                }
                if w.push(metric_spec(s@)).contains(x) {
                    let k = choose|k: int| 0 <= k < w.len() + 1 && w.push(metric_spec(s@))[k] == x;
                    if k < w.len() {
                        assert(w[k] == x);
                    }
                }
            }
        }
        i = i + 1;
    }
    assert(ss.take(configured.len() as int) == ss);
    let ghost sorted = strings_view(metrics@);
    proof {
        lemma_sorted_unique(sorted, sorted_distinct(metric_words(ss)));
    }
    let mut k: usize = 0;
    let ghost base = rules_view(rules@);
    while k < metrics.len()
        invariant
            k <= metrics.len(),
            fr == (locale@ == "fr"@),
            sorted == strings_view(metrics@),
            rules_view(rules@) == base + sorted.take(k as int).map_values(|m: Seq<char>| enum_rule(locale@, m)),
        decreases metrics.len() - k,
    {
        let metric = metrics[k].as_str();
        let plural = if ends_with_char(metric, 's') { owned(metric) } else { cat(metric, "s") };
        let ph = if fr {
            vec![cat("toutes les ", plural.as_str()), cat("toutes les ", metric)]
        } else {
            vec![cat("all ", plural.as_str()), cat("all the ", plural.as_str())]
        };
        let ghost expect = enum_rule(locale@, sorted[k as int]);
        assert(sorted[k as int] == metrics@[k as int]@);
        assert(strings_view(ph@) =~= expect.phrases);
        let ghost before = rules_view(rules@);
        rules.push(rule(cat("jeedom.read_all.", metric), ph, no_slots(), Ghost(expect)));
        assert(rules_view(rules@) =~= before.push(expect));
        assert(sorted.take(k + 1) =~= sorted.take(k as int).push(sorted[k as int]));
        assert(rules_view(rules@) =~= base + sorted.take(k + 1).map_values(|m: Seq<char>| enum_rule(locale@, m)));
        k = k + 1;
    }
    proof {
        assert(sorted.take(metrics.len() as int) == sorted);
        assert(rules_view(rules@) =~= rules_for_spec(locale@, ss));
    }
    rules
}

} // verus!
