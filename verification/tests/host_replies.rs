use athena_voice::sdk::host::{
    http_reply, toml_value, config_from_bytes, is_ini_malformed, mqtt_publish_result, schedule_mqtt_result, stored_bytes, IniSlice,
};
use athena_voice::sdk::response::{SkillError, SkillResponse};
use athena_voice::sdk::skill::{Intent, Slot, SlotValue};
use athena_voice::skills::audio_test::config_answer;
use athena_voice::skills::home::{command_message, publish_outcome, Entity};
use athena_voice::skills::jeedom::phrasing::ShutterCmd;
use athena_voice::skills::jeedom::skill::{
    pending_plan, pending_reply, read_pending, reading_from, slider_url, JeedomCommand, JeedomSkill, Pending, PendingPlan,
    ShutterPlan,
};
use athena_voice::skills::jeedom::{ActionDevice, Shutter};
use athena_voice::skills::timer::{timer_record, timer_schedule};
use athena_voice::skills::tmp_test::{tmp_test_answer, tmp_test_request};
use athena_voice::skills::weather::{
    decode_geo, read_current, read_daily, read_search, weather_answer, weather_kind_of, Current, Daily, Geo, Search,
};

fn speak_text(r: SkillResponse) -> String {
    match r {
        SkillResponse::Speak { text } => text,
        other => panic!("expected Speak, got {other:?}"),
    }
}

fn mqtt_message(e: SkillError) -> String {
    match e {
        SkillError::MqttFailed(m) => m,
        other => panic!("expected MqttFailed, got {other:?}"),
    }
}

#[test]
fn a_malformed_ini_line_is_refused_instead_of_panicking() {
    assert!(is_ini_malformed(b"]["));
    assert!(is_ini_malformed(b"[audio]\nspeed=1\nx]y[z\n"));
    assert!(!is_ini_malformed(b"[audio]\nspeed=1\n"));
    // A bracket after a comment mark is not read.
    assert!(!is_ini_malformed(b"speed=1 ; ]["));
    assert_eq!(IniSlice::from_bytes(b"]a[\n".to_vec()).value("audio", "speed"), None);
    assert_eq!(
        IniSlice::from_bytes(b"[Audio]\nspeed = 1.5\n".to_vec()).value("audio", "speed"),
        Some("1.5".to_string())
    );
}

#[test]
fn store_reads_treat_empty_bytes_as_missing() {
    assert_eq!(stored_bytes(vec![]), None);
    assert_eq!(stored_bytes(vec![1, 2]), Some(vec![1, 2]));
    assert!(config_from_bytes(vec![]).is_none());
    assert_eq!(config_from_bytes(b"[a]\nb=c".to_vec()).unwrap().data, b"[a]\nb=c".to_vec());
}

#[test]
fn publish_codes_map_to_results() {
    assert!(mqtt_publish_result("t", 0).is_ok());
    assert_eq!(
        mqtt_message(mqtt_publish_result("lights/x", 1).unwrap_err()),
        "topic lights/x outside skill ACL namespace"
    );
    assert_eq!(mqtt_message(mqtt_publish_result("t", 2).unwrap_err()), "mqtt client error");
    assert_eq!(mqtt_message(mqtt_publish_result("t", -7).unwrap_err()), "unknown mqtt result code -7");
}

#[test]
fn schedule_replies_decode_row_ids_and_errors() {
    assert_eq!(schedule_mqtt_result("t", &42i64.to_le_bytes()).unwrap(), 42);
    assert_eq!(schedule_mqtt_result("t", &(1i64 << 40).to_le_bytes()).unwrap(), 1 << 40);
    assert_eq!(
        mqtt_message(schedule_mqtt_result("a/b", &(-1i64).to_le_bytes()).unwrap_err()),
        "topic a/b outside skill ACL namespace"
    );
    assert_eq!(mqtt_message(schedule_mqtt_result("t", &(-2i64).to_le_bytes()).unwrap_err()), "scheduler store error");
    assert_eq!(
        mqtt_message(schedule_mqtt_result("t", &(-9i64).to_le_bytes()).unwrap_err()),
        "unknown schedule_mqtt result code -9"
    );
    assert_eq!(mqtt_message(schedule_mqtt_result("t", &[1, 2, 3]).unwrap_err()), "malformed schedule_mqtt reply");
}

fn device(name: &str, on_id: u64, off_id: u64, confirm: bool) -> ActionDevice {
    ActionDevice { name: name.into(), room: String::new(), prefix: String::new(), on_id, off_id, confirm }
}

fn shutter(name: &str, up: u64, down: u64, stop: u64, slider: u64, confirm: bool) -> Shutter {
    Shutter {
        name: name.into(),
        room: String::new(),
        prefix: String::new(),
        up_id: up,
        down_id: down,
        stop_id: stop,
        slider_id: slider,
        confirm,
    }
}

#[test]
fn turn_intents_pick_the_on_or_off_command() {
    let skill = JeedomSkill::with_config(
        vec![],
        vec![device("lampe", 124, 125, false), device("four", 300, 301, true)],
        vec![],
    );
    assert!(matches!(skill.turn_command("124", true, false), Some(JeedomCommand::Run { cmd_id: 124, slider: None })));
    assert!(matches!(skill.turn_command("124", false, false), Some(JeedomCommand::Run { cmd_id: 125, slider: None })));
    match skill.turn_command("300", false, false) {
        Some(JeedomCommand::Confirm { cmd_id, slider, label }) => {
            assert_eq!((cmd_id, slider, label.as_str()), (301, None, "éteindre four"));
        },
        _ => panic!("a confirming device must be held"),
    }
    assert!(skill.turn_command("999", true, false).is_none());
}

#[test]
fn shutter_stop_runs_at_once_even_when_confirmation_is_asked() {
    let skill = JeedomSkill::with_config(vec![], vec![], vec![shutter("volet", 210, 211, 212, 213, true)]);
    assert!(matches!(
        skill.shutter_command("210", ShutterCmd::Stop, None, false),
        ShutterPlan::Command(JeedomCommand::Run { cmd_id: 212, slider: None })
    ));
    match skill.shutter_command("210", ShutterCmd::Pos(0), Some(50), false) {
        ShutterPlan::Command(JeedomCommand::Confirm { cmd_id, slider, label }) => {
            assert_eq!((cmd_id, slider, label.as_str()), (213, Some(50), "mettre volet à 50 pour cent"));
        },
        _ => panic!("a confirming shutter must hold its position command"),
    }
    assert!(matches!(skill.shutter_command("210", ShutterCmd::Pos(0), None, true), ShutterPlan::AskPosition));
    assert!(matches!(skill.shutter_command("1", ShutterCmd::Open, None, true), ShutterPlan::Unknown));
    let group = JeedomSkill::with_config(
        vec![],
        vec![],
        vec![shutter("a", 1, 2, 0, 0, false), shutter("b", 3, 4, 0, 0, false)],
    );
    assert_eq!(group.group_commands(true), vec![1, 3]);
    assert_eq!(group.group_commands(false), vec![2, 4]);
}

#[test]
fn pending_confirmation_runs_cancels_or_reports_nothing() {
    let p = Some(Pending { cmd_id: 213, label: "x".into(), slider: Some(50) });
    assert_eq!(pending_plan(&p, true), PendingPlan::Run { cmd_id: 213, slider: Some(50) });
    assert_eq!(pending_plan(&p, false), PendingPlan::Cancel);
    assert_eq!(pending_plan(&None, true), PendingPlan::Nothing);
    assert_eq!(speak_text(pending_reply(PendingPlan::Run { cmd_id: 1, slider: None }, Ok(()), false)), "C'est fait.");
    assert_eq!(
        speak_text(pending_reply(PendingPlan::Run { cmd_id: 1, slider: None }, Err(()), true)),
        "sorry, I can't reach Jeedom right now"
    );
    assert_eq!(speak_text(pending_reply(PendingPlan::Cancel, Err(()), false)), "Annulé.");
    assert_eq!(speak_text(pending_reply(PendingPlan::Nothing, Err(()), true)), "Nothing to confirm.");
    assert_eq!(slider_url("http://j/api?id=213", 50), "http://j/api?id=213&slider=50");
}

#[test]
fn readings_prefer_the_value_field() {
    assert_eq!(reading_from(br#"{"value":"21.5","unit":"C"}"#), Some("21.5".to_string()));
    assert_eq!(reading_from(br#"{"value":21.5}"#), Some("21.5".to_string()));
    assert_eq!(reading_from(br#""ouvert""#), Some("ouvert".to_string()));
    assert_eq!(reading_from(b"12"), Some("12".to_string()));
    assert_eq!(reading_from(b"not json"), None);
}

#[test]
fn timer_schedules_the_expiry_seconds_later() {
    let s = timer_schedule(1_000, 60);
    assert_eq!(s.fires_at_ms, 61_000);
    assert_eq!(s.topic, "athena/skills/timer/expired");
    assert_eq!(s.payload, r#"{"seconds":60}"#);
    let (key, value) = timer_record(7, 60);
    assert_eq!(key, "timer/7");
    assert_eq!(value, 60u64.to_le_bytes().to_vec());
}

#[test]
fn weather_answers_from_the_forecast_body() {
    let geo: Result<Option<Geo>, String> =
        Ok(Some(Geo { lat: "48.5".into(), lon: "7.7".into(), name: "Strasbourg".into() }));
    let body = br#"{"current":{"temperature_2m":21.4,"weather_code":0},"daily":{"temperature_2m_min":[3.5],"temperature_2m_max":[9.5],"weather_code":[61]}}"#.to_vec();
    let now = weather_answer("weather.now", "fr", "strasbourg", &geo, Ok(body.clone())).unwrap();
    assert!(speak_text(now).starts_with("il fait 21 degrés à Strasbourg"));
    let tomorrow = weather_answer("weather.tomorrow", "en", "strasbourg", &geo, Ok(body)).unwrap();
    assert!(speak_text(tomorrow).starts_with("tomorrow in Strasbourg, it will be between 4 and 10 degrees"));
    let unknown = weather_answer("weather.now", "fr", "atlantis", &Ok(None), Err(String::new())).unwrap();
    assert_eq!(speak_text(unknown), "désolé, je ne trouve pas atlantis");
    assert!(weather_answer("weather.week", "fr", "x", &geo, Err(String::new())).is_err());
    assert_eq!(weather_kind_of("weather.tomorrow"), Some(false));
}

#[test]
fn home_publishes_the_entitys_own_payloads() {
    let e = Entity {
        name: "lampe".into(),
        room: "salon".into(),
        kind: "light".into(),
        set_topic: "zigbee/lampe/set".into(),
        on_payload: "ON".into(),
        off_payload: "OFF".into(),
    };
    assert_eq!(command_message(&e, true), ("zigbee/lampe/set", "ON"));
    assert_eq!(command_message(&e, false), ("zigbee/lampe/set", "OFF"));
    assert_eq!(speak_text(publish_outcome(&Ok(()))), "d'accord");
    assert_eq!(
        speak_text(publish_outcome(&Err(SkillError::MqttFailed("x".into())))),
        "je n'ai pas pu envoyer la commande"
    );
}

#[test]
fn test_skills_state_what_they_store_and_read() {
    let mut intent = Intent { name: "tmp.test".into(), slots: Default::default(), locale: "fr".into() };
    intent.slots.push(Slot { name: "key".into(), value: SlotValue { text: Some("k".into()), percent: None } });
    intent.slots.push(Slot { name: "value".into(), value: SlotValue { text: Some("v".into()), percent: None } });
    assert_eq!(tmp_test_request(&intent), ("k".to_string(), "v".to_string()));
    assert_eq!(speak_text(tmp_test_answer(&Some(b"v".to_vec()), b"v")), "found");
    assert_eq!(speak_text(tmp_test_answer(&Some(b"w".to_vec()), b"v")), "not found");
    assert_eq!(speak_text(config_answer(None)), "No config");
    assert_eq!(
        speak_text(config_answer(Some(IniSlice::from_bytes(b"[audio]\nspeed=2\n".to_vec())))),
        "Speed: Some(\"2\")"
    );
}

#[test]
fn http_replies_surface_errors_and_keep_the_body() {
    let body = br#"{"value":1}"#;
    assert_eq!(http_reply(body).unwrap(), body.to_vec());
    match http_reply(br#"{"error":"host not allowed"}"#) {
        Err(SkillError::HttpFailed(m)) => assert_eq!(m, "host not allowed"),
        other => panic!("expected the envelope's error, got {other:?}"),
    }
    match http_reply(b"<html>") {
        Err(SkillError::HttpFailed(m)) => assert!(m.starts_with("decode: ")),
        other => panic!("expected a decode error, got {other:?}"),
    }
    assert_eq!(toml_value(br#"{"base_url":"http://j","n":3}"#, "base_url"), Some("http://j".to_string()));
    assert_eq!(toml_value(br#"{"n":3}"#, "n"), None);
    assert_eq!(toml_value(b"[a]\nb=c", "a"), None);
}

#[test]
fn forecast_and_geocoding_bodies_are_read_field_by_field() {
    assert_eq!(read_current(b"nope"), Current::NotJson);
    assert_eq!(read_current(br#"{"daily":{}}"#), Current::Missing);
    assert_eq!(read_current(br#"{"current":{"temperature_2m":2.5}}"#), Current::Incomplete);
    assert_eq!(
        read_current(br#"{"current":{"temperature_2m":-2.5,"weather_code":3}}"#),
        Current::Found { temp: -3, code: 3 }
    );
    assert_eq!(read_daily(br#"{"current":{}}"#), Daily::Missing);
    assert_eq!(
        read_daily(br#"{"daily":{"temperature_2m_min":[1.4,9],"temperature_2m_max":[7.6],"weather_code":[61]}}"#),
        Daily::Found { min: 1, max: 8, code: 61 }
    );
    // An object in place of an array has no first entry.
    assert_eq!(
        read_daily(br#"{"daily":{"temperature_2m_min":{"0":1},"temperature_2m_max":[7],"weather_code":[61]}}"#),
        Daily::Incomplete
    );
    assert!(matches!(read_search(b"nope"), Search::NotJson));
    assert!(matches!(read_search(br#"{"results":[]}"#), Search::NoResult));
    assert!(matches!(read_search(br#"{"generationtime_ms":1}"#), Search::NoResult));
    assert!(matches!(read_search(br#"{"results":[{"latitude":48.5}]}"#), Search::Incomplete));
    match read_search(br#"{"results":[{"latitude":48.5,"longitude":7,"name":"Strasbourg"}]}"#) {
        Search::Found { lat, lon, name } => {
            assert_eq!((lat.as_str(), lon.as_str(), name.as_deref()), ("48.5", "7", Some("Strasbourg")));
        },
        other => panic!("expected a place, got {other:?}"),
    }
    let g = decode_geo(br#"{"lat":48.5,"lon":7.75,"name":"Strasbourg"}"#).unwrap();
    assert_eq!((g.lat.as_str(), g.lon.as_str(), g.name.as_str()), ("48.5", "7.75", "Strasbourg"));
    assert!(decode_geo(br#"{"lat":48.5,"name":"x"}"#).is_none());
}

#[test]
fn pending_records_with_a_bad_slider_are_refused() {
    assert!(read_pending(br#"{"cmd_id":1,"label":"x","slider":null}"#).unwrap().slider.is_none());
    assert!(read_pending(br#"{"cmd_id":1,"label":"x","slider":"50"}"#).is_none());
    assert!(read_pending(br#"{"cmd_id":-1,"label":"x"}"#).is_none());
}
