use athena_voice::sdk::host::HostCtx;
use athena_voice::sdk::response::SkillResponse;
use athena_voice::sdk::schema::FieldKind;
use athena_voice::sdk::skill::{Intent, PatternRule, Skill, SlotKind};
use athena_voice::skills::jeedom::phrasing::{
    action_label, ask_position, enum_clause, group_answer, metric_of, phrase_reading, shutter_label,
    ShutterCmd,
};
use athena_voice::skills::jeedom::resolve::resolve_in;
use athena_voice::skills::jeedom::rules::{action_rules, confirm_rules, rules_for, shutter_rules};
use athena_voice::skills::jeedom::schema::config_schema;
use athena_voice::skills::jeedom::skill::{encode_pending, read_pending, JeedomSkill, Pending};
use athena_voice::skills::jeedom::{
    clean_devices, clean_sensors, clean_shutters, clean_spoken, ActionDevice, Sensor, Shutter,
};

fn s(name: &str, id: u64, unit: &str, room: &str, kind: &str, on: &str, off: &str) -> Sensor {
    Sensor {
        name: name.into(),
        id,
        unit: unit.into(),
        room: room.into(),
        kind: kind.into(),
        on_label: on.into(),
        off_label: off.into(),
        prefix: String::new(),
    }
}

fn sp(name: &str, id: u64, room: &str, prefix: &str) -> Sensor {
    Sensor {
        prefix: prefix.into(),
        ..s(name, id, "", room, "numeric", "", "")
    }
}

fn a(name: &str, on_id: u64, off_id: u64, confirm: bool) -> ActionDevice {
    ActionDevice {
        name: name.into(),
        room: String::new(),
        prefix: String::new(),
        on_id,
        off_id,
        confirm,
    }
}

fn sh(name: &str, up_id: u64, down_id: u64) -> Shutter {
    Shutter {
        name: name.into(),
        room: String::new(),
        prefix: String::new(),
        up_id,
        down_id,
        stop_id: 0,
        slider_id: 0,
        confirm: false,
    }
}

fn speak_text(r: SkillResponse) -> String {
    match r {
        SkillResponse::Speak { text } => text,
        other => panic!("expected Speak, got {other:?}"),
    }
}

fn intent(name: &str, locale: &str) -> Intent {
    Intent {
        name: name.into(),
        slots: Default::default(),
        locale: locale.into(),
    }
}

fn all_phrases(rules: &[PatternRule]) -> Vec<&str> {
    rules
        .iter()
        .flat_map(|r| r.phrases.iter().map(String::as_str))
        .collect()
}

#[test]
fn shutters_parse_cleans_and_defaults() {
    let mut second = sh("volet de la chambre", 220, 221);
    second.room = "chambre".into();
    second.prefix = "de la".into();
    second.stop_id = 222;
    second.slider_id = 223;
    second.confirm = true;
    let v = clean_shutters(vec![sh("volet 🪟 du salon", 210, 211), second]);
    assert_eq!(v[0].name, "volet du salon", "symbols stripped");
    assert_eq!(v[0].stop_id, 0, "stop_id defaults to 0 = unset");
    assert_eq!(v[0].slider_id, 0, "slider_id defaults to 0 = unset");
    assert!(!v[0].confirm);
    assert_eq!(v[1].stop_id, 222);
    assert_eq!(v[1].slider_id, 223);
    assert!(v[1].confirm);
    assert!(clean_shutters(Vec::new()).is_empty());
}

#[test]
fn actions_parse_cleans_and_defaults() {
    let mut garage = a("prise garage", 7, 8, true);
    garage.room = "garage".into();
    let v = clean_devices(vec![a("lumière 💡 du salon", 124, 125, false), garage]);
    assert_eq!(v[0].name, "lumière du salon", "symbols stripped");
    assert!(!v[0].confirm, "confirm defaults to false");
    assert!(v[1].confirm);
    assert!(clean_devices(Vec::new()).is_empty());
}

#[test]
fn action_rules_generate_on_off_phrases() {
    let list = vec![a("lumière du salon", 124, 125, false)];
    let rules = action_rules("fr", &list);
    let on = rules.iter().find(|r| r.intent == "jeedom.turn_on.124").unwrap();
    assert!(
        on.phrases.contains(&"allume la lumière du salon".to_string()),
        "got: {:?}",
        on.phrases
    );
    assert!(on.phrases.contains(&"allume lumière du salon".to_string()));
    let off = rules.iter().find(|r| r.intent == "jeedom.turn_off.124").unwrap();
    assert!(
        off.phrases.contains(&"éteins la lumière du salon".to_string()),
        "got: {:?}",
        off.phrases
    );

    let en = action_rules("en", &list);
    assert!(en.iter().any(|r| {
        r.intent == "jeedom.turn_on.124" && r.phrases.contains(&"turn on the lumière du salon".to_string())
    }));
}

#[test]
fn shutter_rules_generate_open_close_phrases() {
    let list = vec![sh("volet du salon", 210, 211)];
    let rules = shutter_rules("fr", &list);
    let open = rules.iter().find(|r| r.intent == "jeedom.shutter_open.210").unwrap();
    assert!(
        open.phrases.contains(&"ouvre le volet du salon".to_string()),
        "got: {:?}",
        open.phrases
    );
    assert!(open.phrases.contains(&"monte le volet du salon".to_string()));
    let close = rules.iter().find(|r| r.intent == "jeedom.shutter_close.210").unwrap();
    assert!(
        close.phrases.contains(&"ferme le volet du salon".to_string()),
        "got: {:?}",
        close.phrases
    );
    assert!(close.phrases.contains(&"baisse le volet du salon".to_string()));

    let en = shutter_rules("en", &list);
    assert!(en.iter().any(|r| r.intent == "jeedom.shutter_open.210"
        && r.phrases.contains(&"open the volet du salon".to_string())));
}

#[test]
fn shutter_stop_and_pos_rules_require_their_ids() {
    let plain = vec![sh("volet du salon", 210, 211)];
    let rules = shutter_rules("fr", &plain);
    assert!(!rules.iter().any(|r| r.intent.starts_with("jeedom.shutter_stop.")));
    assert!(!rules.iter().any(|r| r.intent.starts_with("jeedom.shutter_pos.")));

    let mut full = sh("volet du salon", 210, 211);
    full.stop_id = 212;
    full.slider_id = 213;
    let rules = shutter_rules("fr", &[full]);
    let stop = rules.iter().find(|r| r.intent == "jeedom.shutter_stop.210").unwrap();
    assert!(
        stop.phrases.contains(&"stop le volet du salon".to_string()),
        "got: {:?}",
        stop.phrases
    );
    let pos = rules.iter().find(|r| r.intent == "jeedom.shutter_pos.210").unwrap();
    assert!(
        pos.phrases.contains(&"ouvre le volet du salon à {position}".to_string()),
        "got: {:?}",
        pos.phrases
    );
    assert_eq!(pos.slots.len(), 1);
    assert_eq!(pos.slots[0].name, "position");
    assert!(matches!(pos.slots[0].kind, SlotKind::Number));
}

#[test]
fn shutter_group_rules_exist_once() {
    let list = vec![sh("volet du salon", 210, 211), sh("volet de la chambre", 220, 221)];
    let rules = shutter_rules("fr", &list);
    let all_open: Vec<_> = rules.iter().filter(|r| r.intent == "jeedom.shutter_open_all").collect();
    assert_eq!(all_open.len(), 1, "one group rule regardless of shutter count");
    assert!(all_open[0].phrases.contains(&"ouvre tous les volets".to_string()));
    assert!(rules.iter().any(|r| r.intent == "jeedom.shutter_close_all"
        && r.phrases.contains(&"ferme tous les volets".to_string())));
    assert!(shutter_rules("fr", &[]).is_empty(), "no shutters, no rules");
}

#[test]
fn action_rules_carry_no_confirm_rules() {
    let confirmed = vec![a("portail", 30, 31, true)];
    assert!(!action_rules("fr", &confirmed)
        .iter()
        .any(|r| r.intent == "jeedom.confirm" || r.intent == "jeedom.cancel"));
}

#[test]
fn confirm_rules_cover_both_locales() {
    let fr = confirm_rules("fr");
    let confirm = fr.iter().find(|r| r.intent == "jeedom.confirm").unwrap();
    assert!(confirm.phrases.contains(&"oui".to_string()));
    assert!(fr
        .iter()
        .any(|r| r.intent == "jeedom.cancel" && r.phrases.contains(&"annule".to_string())));
    let en = confirm_rules("en");
    assert!(en
        .iter()
        .any(|r| r.intent == "jeedom.confirm" && r.phrases.contains(&"yes".to_string())));
    assert!(confirm_rules("de").is_empty(), "unknown locale yields nothing");
}

#[test]
fn no_action_rules_without_devices() {
    assert!(action_rules("fr", &[]).is_empty());
}

#[test]
fn action_labels_phrase_both_locales() {
    let d = a("lumière du salon", 124, 125, true);
    assert_eq!(action_label(&d, true, false), "allumer lumière du salon");
    assert_eq!(action_label(&d, false, false), "éteindre lumière du salon");
    assert_eq!(action_label(&d, true, true), "turn on lumière du salon");
    assert_eq!(action_label(&d, false, true), "turn off lumière du salon");
}

#[test]
fn shutter_labels_phrase_both_locales() {
    assert_eq!(shutter_label("volet du salon", &ShutterCmd::Open, false), "ouvrir volet du salon");
    assert_eq!(shutter_label("volet du salon", &ShutterCmd::Close, false), "fermer volet du salon");
    assert_eq!(
        shutter_label("volet du salon", &ShutterCmd::Pos(50), false),
        "mettre volet du salon à 50 pour cent"
    );
    assert_eq!(shutter_label("volet du salon", &ShutterCmd::Open, true), "open volet du salon");
    assert_eq!(
        shutter_label("volet du salon", &ShutterCmd::Pos(50), true),
        "set volet du salon to 50 percent"
    );
}

#[test]
fn group_answer_phrasing() {
    assert_eq!(group_answer(3, 0, false), "C'est fait.");
    assert_eq!(group_answer(3, 3, false), "désolé, je n'arrive pas à joindre Jeedom");
    assert_eq!(group_answer(3, 1, false), "C'est fait, mais un volet n'a pas répondu.");
    assert_eq!(group_answer(3, 2, false), "C'est fait, mais 2 volets n'ont pas répondu.");
    assert_eq!(group_answer(3, 1, true), "Done, but 1 shutter did not respond.");
    assert_eq!(group_answer(3, 2, true), "Done, but 2 shutters did not respond.");
}

#[test]
fn shutter_intent_for_unknown_device_apologises() {
    let mut ctx = HostCtx::for_testing();
    let r = JeedomSkill::new().handle(intent("jeedom.shutter_open.999", "fr"), &mut ctx).unwrap();
    assert_eq!(speak_text(r), "désolé, je ne connais pas cet appareil");
}

#[test]
fn shutter_pos_without_number_reasks() {
    assert_eq!(ask_position(false), "À quelle position, en pourcentage ?");
    assert_eq!(ask_position(true), "To what position, in percent?");
}

#[test]
fn confirm_with_nothing_pending_says_so() {
    let mut ctx = HostCtx::for_testing();
    let r = JeedomSkill::new().handle(intent("jeedom.confirm", "fr"), &mut ctx).unwrap();
    assert_eq!(speak_text(r), "Rien à confirmer.");
}

#[test]
fn cancel_with_nothing_pending_says_so() {
    let mut ctx = HostCtx::for_testing();
    let r = JeedomSkill::new().handle(intent("jeedom.cancel", "en"), &mut ctx).unwrap();
    assert_eq!(speak_text(r), "Nothing to confirm.");
}

#[test]
fn turn_intent_for_unknown_device_apologises() {
    let mut ctx = HostCtx::for_testing();
    let r = JeedomSkill::new().handle(intent("jeedom.turn_on.999", "fr"), &mut ctx).unwrap();
    assert_eq!(speak_text(r), "désolé, je ne connais pas cet appareil");
}

#[test]
fn prefix_parses_cleans_and_defaults_empty() {
    let v = clean_sensors(vec![
        sp("température d'alicia", 7, "alicia", "d’"),
        s("température du salon", 8, "", "salon", "", "", ""),
    ]);
    assert_eq!(v[0].prefix, "d'", "typographic apostrophe normalized to straight");
    assert_eq!(v[1].prefix, "", "missing prefix defaults empty");
}

#[test]
fn parsing_strips_symbols_from_spoken_fields() {
    let v = clean_sensors(vec![s("température 🌡 du salon", 142, "°C", "salon 🖴", "", "", "")]);
    assert_eq!(v[0].name, "température du salon");
    assert_eq!(v[0].room, "salon");
    assert_eq!(v[0].unit, "°C");
    assert_eq!(
        enum_clause(&v[0], "21.5", false),
        "salon 21.5 °C",
        "spoken clause must be symbol-free apart from the unit"
    );
}

#[test]
fn room_query_phrases_are_generated() {
    let list = vec![s("température du salon", 142, "degrés", "salon", "numeric", "", "")];
    let rules = rules_for("fr", &list);
    let all = all_phrases(&rules);
    assert!(all.contains(&"quelle température dans le salon"), "got: {all:?}");
    assert!(all.contains(&"température dans le salon"));
    assert!(all.contains(&"quelle est la température dans le salon"), "got: {all:?}");
    assert!(all.contains(&"quelle est la température du salon"), "got: {all:?}");
    assert!(all.contains(&"température du salon"));
    assert!(rules.iter().any(|r| r.intent == "jeedom.read.142"
        && r.phrases.iter().any(|p| p.contains("dans le salon"))));
}

#[test]
fn prefix_generates_elided_phrases_without_dans_forms() {
    let list = vec![sp("température d'alicia", 7, "alicia", "d'")];
    let rules = rules_for("fr", &list);
    let all = all_phrases(&rules);
    assert!(all.contains(&"quelle est la température d'alicia"), "got: {all:?}");
    assert!(all.contains(&"température d'alicia"), "got: {all:?}");
    assert!(!all.iter().any(|p| p.contains("dans")), "no dans-form for an unmapped prefix: {all:?}");
    assert!(
        !all.iter().any(|p| p.contains("du alicia") || p.contains("de la alicia")),
        "legacy article enumeration must be gone when a prefix is set: {all:?}"
    );
}

#[test]
fn prefix_du_keeps_locative_dans_forms() {
    let list = vec![sp("température du salon", 142, "salon", "du")];
    let rules = rules_for("fr", &list);
    let all = all_phrases(&rules);
    assert!(all.contains(&"température du salon"), "got: {all:?}");
    assert!(all.contains(&"quelle est la température du salon"), "got: {all:?}");
    assert!(all.contains(&"température dans le salon"), "got: {all:?}");
    assert!(all.contains(&"quelle température dans le salon"), "got: {all:?}");
    assert!(all.contains(&"quelle est la température dans le salon"), "got: {all:?}");
    assert!(!all.contains(&"température de la salon"), "wrong-gender enumeration gone when prefix set: {all:?}");
}

#[test]
fn metric_word_strips_configured_prefix() {
    assert_eq!(metric_of(&sp("température d'alicia", 7, "alicia", "d'")), "température");
}

#[test]
fn enumeration_rule_per_metric() {
    let list = vec![
        s("température du salon", 142, "degrés", "salon", "numeric", "", ""),
        s("température de la chambre", 150, "degrés", "chambre", "numeric", "", ""),
        s("humidité du salon", 143, "%", "salon", "numeric", "", ""),
    ];
    let rules = rules_for("fr", &list);
    let enum_rules: Vec<_> = rules.iter().filter(|r| r.intent.starts_with("jeedom.read_all.")).collect();
    assert_eq!(enum_rules.len(), 2, "one per distinct metric: température, humidité");
    assert!(enum_rules.iter().any(|r| r.intent == "jeedom.read_all.température"
        && r.phrases.contains(&"toutes les températures".to_string())));
}

#[test]
fn metric_word_strips_room_suffix() {
    assert_eq!(metric_of(&s("température du salon", 1, "", "salon", "", "", "")), "température");
    assert_eq!(
        metric_of(&s("température de la chambre", 1, "", "chambre", "", "", "")),
        "température"
    );
    assert_eq!(metric_of(&s("capteur exotique", 1, "", "", "", "", "")), "capteur exotique");
}

#[test]
fn enum_clause_labels_binary_sensors() {
    let temp = s("température du salon", 1, "degrés", "salon", "numeric", "", "");
    assert_eq!(enum_clause(&temp, "21.5", false), "salon 21.5 degrés");
    let door = s("porte du garage", 2, "", "garage", "binary", "ouverte", "fermée");
    assert_eq!(enum_clause(&door, "1", false), "garage ouverte");
    let presence = s("présence chambre", 3, "", "chambre", "binary", "", "");
    assert_eq!(enum_clause(&presence, "1", false), "chambre activé");
}

#[test]
fn binary_reading_uses_labels_and_falls_back() {
    let door = s("porte du garage", 201, "", "garage", "binary", "ouverte", "fermée");
    assert_eq!(phrase_reading(&door, "1", false), "la porte du garage est ouverte");
    assert_eq!(phrase_reading(&door, "0", false), "la porte du garage est fermée");
    let plain = s("présence salon", 202, "", "salon", "binary", "", "");
    assert_eq!(phrase_reading(&plain, "1", false), "la présence salon est activé");
    let temp = s("température du salon", 142, "degrés", "salon", "numeric", "", "");
    assert_eq!(phrase_reading(&temp, "21.5", false), "la température du salon est de 21.5 degrés");
    assert_eq!(phrase_reading(&temp, "21.5", true), "the température du salon is 21.5 degrés");
}

// ---------------------------------------------------------------------------
// Further cases
// ---------------------------------------------------------------------------

#[test]
fn binary_reading_accepts_true_in_any_case() {
    let door = s("porte du garage", 201, "", "garage", "binary", "", "");
    assert_eq!(phrase_reading(&door, "TRUE", true), "the porte du garage is on");
    assert_eq!(phrase_reading(&door, "false", true), "the porte du garage is off");
    assert_eq!(phrase_reading(&door, "0", false), "la porte du garage est désactivé");
}

#[test]
fn clean_spoken_collapses_dropped_runs() {
    assert_eq!(clean_spoken("  salon 🖴🖴  nord "), "salon nord");
    assert_eq!(clean_spoken("l'entrée-est"), "l'entrée-est");
    assert_eq!(clean_spoken("🖴"), "");
}

#[test]
fn metric_word_strips_articles_and_keeps_bare_names() {
    assert_eq!(metric_of(&s("Humidité dans la Cave", 1, "", "cave", "", "", "")), "humidité");
    assert_eq!(metric_of(&s("salon", 1, "", "salon", "", "", "")), "salon");
}

#[test]
fn enumeration_rules_come_in_sorted_order_in_english() {
    let list = vec![
        s("temperature kitchen", 1, "", "kitchen", "", "", ""),
        s("humidity kitchen", 2, "", "kitchen", "", "", ""),
        s("temperature attic", 3, "", "attic", "", "", ""),
    ];
    let rules = rules_for("en", &list);
    let enums: Vec<&str> = rules
        .iter()
        .filter(|r| r.intent.starts_with("jeedom.read_all."))
        .map(|r| r.intent.as_str())
        .collect();
    assert_eq!(enums, vec!["jeedom.read_all.humidity", "jeedom.read_all.temperature"]);
    let t = rules.iter().find(|r| r.intent == "jeedom.read_all.temperature").unwrap();
    assert_eq!(t.phrases, vec!["all temperatures".to_string(), "all the temperatures".to_string()]);
    assert!(rules_for("de", &list).is_empty());
    assert!(rules_for("fr", &[]).is_empty());
}

#[test]
fn resolve_prefers_the_closest_name_over_the_threshold() {
    let list = vec![
        s("température du salon", 1, "", "salon", "", "", ""),
        s("température du garage", 2, "", "garage", "", "", ""),
    ];
    assert_eq!(resolve_in(&list, "Température du Salon"), Some(0));
    assert_eq!(resolve_in(&list, "temperature du garage"), Some(1));
    assert_eq!(resolve_in(&list, "humidité"), None);
    assert_eq!(resolve_in(&[], "salon"), None);
}

#[test]
fn configured_skill_answers_on_a_host_without_jeedom() {
    let skill_sensors = vec![s("température du salon", 142, "degrés", "salon", "", "", "")];
    let mut confirmed = a("portail", 30, 31, true);
    confirmed.room = String::new();
    let mut shutter = sh("volet du salon", 210, 211);
    shutter.slider_id = 213;
    shutter.confirm = true;
    let mut skill = JeedomSkill::with_config(
        skill_sensors,
        vec![confirmed, a("lampe", 40, 41, false)],
        vec![shutter],
    );
    let mut ctx = HostCtx::for_testing();
    let r = skill.handle(intent("jeedom.read.142", "fr"), &mut ctx).unwrap();
    assert_eq!(speak_text(r), "désolé, je n'arrive pas à joindre Jeedom");
    let r = skill.handle(intent("jeedom.read_all.température", "fr"), &mut ctx).unwrap();
    assert_eq!(speak_text(r), "salon indisponible");
    let r = skill.handle(intent("jeedom.read_all.pression", "en"), &mut ctx).unwrap();
    assert_eq!(speak_text(r), "no sensor matches pression");
    let r = skill.handle(intent("jeedom.turn_on.30", "fr"), &mut ctx).unwrap();
    assert_eq!(speak_text(r), "Tu confirmes : allumer portail ?");
    let r = skill.handle(intent("jeedom.turn_off.40", "en"), &mut ctx).unwrap();
    assert_eq!(speak_text(r), "sorry, I can't reach Jeedom right now");
    let r = skill.handle(intent("jeedom.shutter_pos.210", "fr"), &mut ctx).unwrap();
    assert_eq!(speak_text(r), "À quelle position, en pourcentage ?");
    let r = skill.handle(intent("jeedom.shutter_stop.210", "fr"), &mut ctx).unwrap();
    assert_eq!(speak_text(r), "désolé, je ne connais pas cet appareil");
    let r = skill.handle(intent("jeedom.shutter_close_all", "en"), &mut ctx).unwrap();
    assert_eq!(speak_text(r), "sorry, I can't reach Jeedom right now");
    let r = skill.handle(intent("jeedom.read", "fr"), &mut ctx).unwrap();
    assert_eq!(speak_text(r), "quel capteur dois-je lire ?");
    let rules = skill.pattern_rules("fr");
    assert!(rules.iter().any(|r| r.intent == "jeedom.confirm"));
    assert!(rules.iter().any(|r| r.intent == "jeedom.shutter_pos.210"));
    assert_eq!(skill.name(), "jeedom");
}

#[test]
fn pending_is_written_as_json() {
    let p = Pending { cmd_id: 124, label: "allumer \"lampe\"".into(), slider: None };
    assert_eq!(encode_pending(&p), r#"{"cmd_id":124,"label":"allumer \"lampe\"","slider":null}"#);
    let p = Pending { cmd_id: 213, label: "mettre volet à 50 pour cent".into(), slider: Some(50) };
    assert_eq!(encode_pending(&p), r#"{"cmd_id":213,"label":"mettre volet à 50 pour cent","slider":50}"#);
}

#[test]
fn schema_lists_the_five_fields() {
    let schema = config_schema();
    let keys: Vec<&str> = schema.fields.iter().map(|f| f.key.as_str()).collect();
    assert_eq!(keys, vec!["base_url", "api_key", "sensors", "actions", "shutters"]);
    assert!(schema.fields[1].is_secret());
    assert_eq!(schema.fields[2].item_fields.len(), 8);
    assert_eq!(schema.fields[4].item_fields[3].kind, FieldKind::Number);
}

#[test]
fn pending_roundtrips_through_json() {
    let p = Pending { cmd_id: 124, label: "allumer lumière du salon".into(), slider: None };
    let bytes = encode_pending(&p).into_bytes();
    let back = read_pending(&bytes).unwrap();
    assert_eq!(back.cmd_id, 124);
    assert_eq!(back.label, p.label);
}

#[test]
fn pending_slider_roundtrips_and_defaults() {
    // Old payloads (no slider field) must still load.
    let old = br#"{"cmd_id":124,"label":"allumer lampe"}"#;
    let p = read_pending(old).unwrap();
    assert_eq!(p.slider, None);
    let new = Pending { cmd_id: 213, label: "mettre volet à 50 pour cent".into(), slider: Some(50) };
    let bytes = encode_pending(&new).into_bytes();
    let back = read_pending(&bytes).unwrap();
    assert_eq!(back.slider, Some(50));
}

#[test]
fn cleared_or_garbled_pending_reads_as_absent() {
    assert!(read_pending(b"").is_none());
    assert!(read_pending(b"not json").is_none());
    assert!(read_pending(br#"{"label":"x"}"#).is_none());
}
