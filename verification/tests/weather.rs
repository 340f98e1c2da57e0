use athena_voice::sdk::host::HostCtx;
use athena_voice::sdk::response::SkillResponse;
use athena_voice::sdk::skill::{Intent, Skill, Slot, SlotValue};
use athena_voice::skills::weather::weather_code::fr_phrase;
use athena_voice::skills::weather::{
    config_schema, forecast_url, geo_from_search, geocoding_url, http_error_speak, now_answer,
    resolve_city, resolve_city_from, tomorrow_answer, url_encode, Current, Daily, Geo, Search,
    WeatherSkill,
};

#[test]
fn clear_sky() {
    assert_eq!(fr_phrase(0), "temps clair");
}

#[test]
fn light_clouds_range() {
    for c in 1..=3 {
        assert_eq!(fr_phrase(c), "quelques nuages", "code {c}");
    }
}

#[test]
fn fog_codes() {
    assert_eq!(fr_phrase(45), "du brouillard");
    assert_eq!(fr_phrase(48), "du brouillard");
}

#[test]
fn drizzle_range() {
    for c in 51..=57 {
        assert_eq!(fr_phrase(c), "de la bruine", "code {c}");
    }
}

#[test]
fn rain_range() {
    for c in 61..=65 {
        assert_eq!(fr_phrase(c), "de la pluie", "code {c}");
    }
}

#[test]
fn freezing_rain() {
    assert_eq!(fr_phrase(66), "de la pluie verglaçante");
    assert_eq!(fr_phrase(67), "de la pluie verglaçante");
}

#[test]
fn snow_range() {
    for c in 71..=75 {
        assert_eq!(fr_phrase(c), "de la neige", "code {c}");
    }
}

#[test]
fn snow_grains() {
    assert_eq!(fr_phrase(77), "des grains de neige");
}

#[test]
fn showers_range() {
    for c in 80..=82 {
        assert_eq!(fr_phrase(c), "des averses", "code {c}");
    }
}

#[test]
fn snow_showers() {
    assert_eq!(fr_phrase(85), "des averses de neige");
    assert_eq!(fr_phrase(86), "des averses de neige");
}

#[test]
fn thunderstorm_range() {
    for c in 95..=99 {
        assert_eq!(fr_phrase(c), "un orage", "code {c}");
    }
}

#[test]
fn unknown_code_falls_back() {
    assert_eq!(fr_phrase(-1), "un temps particulier");
    assert_eq!(fr_phrase(42), "un temps particulier");
    assert_eq!(fr_phrase(200), "un temps particulier");
}

fn city_intent(city: Option<&str>) -> Intent {
    Intent {
        name: "weather.now".into(),
        slots: city
            .map(|c| {
                vec![Slot {
                    name: "city".into(),
                    value: SlotValue { text: Some(c.into()), percent: None },
                }]
            })
            .unwrap_or_default(),
        locale: "fr".into(),
    }
}

#[test]
fn url_encoding_escapes_only_picky_characters() {
    assert_eq!(url_encode("Saint Étienne & co?"), "Saint%20Étienne%20%26%20co%3F");
    assert_eq!(url_encode("a=b+c#d"), "a%3Db%2Bc%23d");
    assert_eq!(url_encode(""), "");
}

#[test]
fn city_comes_from_slot_then_config_then_paris() {
    assert_eq!(resolve_city_from(&city_intent(Some("  Lyon ")), Some("Nice".into())), "Lyon");
    assert_eq!(resolve_city_from(&city_intent(Some("   ")), Some("Nice".into())), "Nice");
    assert_eq!(resolve_city_from(&city_intent(None), Some(String::new())), "Paris");
    assert_eq!(resolve_city(&city_intent(None), &HostCtx::for_testing()), "Paris");
}

#[test]
fn urls_use_configured_bases_without_trailing_slashes() {
    assert_eq!(
        geocoding_url(Some("http://127.0.0.1:9/".into()), "Le Mans", "en-GB"),
        "http://127.0.0.1:9/v1/search?name=Le%20Mans&language=en&count=1"
    );
    assert_eq!(
        geocoding_url(None, "Lyon", "fr"),
        "https://geocoding-api.open-meteo.com/v1/search?name=Lyon&language=fr&count=1"
    );
    let geo = Geo { lat: "48.85".into(), lon: "2.35".into(), name: "Paris".into() };
    assert_eq!(
        forecast_url(Some(String::new()), &geo),
        "https://api.open-meteo.com/v1/forecast?latitude=48.85&longitude=2.35&current=temperature_2m,weather_code&daily=temperature_2m_max,temperature_2m_min,weather_code&timezone=auto"
    );
}

#[test]
fn geocoding_reply_is_read() {
    let found = geo_from_search(
        "lyon",
        "fr",
        Search::Found { lat: "45.75".into(), lon: "4.85".into(), name: None },
    )
    .unwrap()
    .unwrap();
    assert_eq!(found.name, "lyon");
    assert_eq!(found.lat, "45.75");
    assert!(geo_from_search("x", "fr", Search::NoResult).unwrap().is_none());
    assert_eq!(
        geo_from_search("x", "en", Search::Incomplete).unwrap_err(),
        "sorry, the weather service is unavailable"
    );
}

#[test]
fn forecasts_are_phrased() {
    assert_eq!(
        now_answer("fr", "Paris", Current::Found { temp: -3, code: 71 }),
        "il fait -3 degrés à Paris, de la neige"
    );
    assert_eq!(
        now_answer("en", "Paris", Current::Found { temp: 21, code: 0 }),
        "it is 21 degrees in Paris, temps clair"
    );
    assert_eq!(now_answer("fr", "Paris", Current::Missing), "désolé, le service météo est indisponible");
    assert_eq!(
        tomorrow_answer("fr", "Lyon", Daily::Found { min: 4, max: 12, code: 61 }),
        "demain à Lyon, il fera entre 4 et 12 degrés avec de la pluie"
    );
    assert_eq!(
        tomorrow_answer("en", "Lyon", Daily::Found { min: 4, max: 12, code: 95 }),
        "tomorrow in Lyon, it will be between 4 and 12 degrees with un orage"
    );
    assert_eq!(tomorrow_answer("en", "Lyon", Daily::NotJson), http_error_speak("en"));
}

#[test]
fn handle_without_a_weather_service_apologises() {
    let mut ctx = HostCtx::for_testing();
    let r = WeatherSkill.handle(city_intent(Some("Lyon")), &mut ctx).unwrap();
    match r {
        SkillResponse::Speak { text } => assert_eq!(text, "désolé, le service météo est indisponible"),
        other => panic!("expected speech, got {other:?}"),
    }
}

#[test]
fn weather_rules_and_schema() {
    let fr = WeatherSkill.pattern_rules("fr");
    assert_eq!(fr.len(), 2);
    assert_eq!(fr[0].intent, "weather.now");
    assert_eq!(fr[0].phrases.len(), 7);
    assert_eq!(fr[1].phrases[1], "quel temps fera-t-il demain à {city}");
    assert_eq!(WeatherSkill.pattern_rules("en")[0].phrases.len(), 6);
    assert!(WeatherSkill.pattern_rules("it").is_empty());
    assert_eq!(config_schema().fields[0].key, "default_city");
    assert_eq!(WeatherSkill.name(), "weather");
}
