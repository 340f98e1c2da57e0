use athena_voice::satellite::config::{Config, MAX_LEN, checked, log_lengths};

/// The default configuration must hold sane `&'static str`s.
#[test]
fn generated_config_strings_are_sane() {
    let config = Config::default();
    for (name, value) in [
        ("wifi_ssid", config.wifi_ssid),
        ("wifi_pass", config.wifi_pass),
        ("mqtt_url", config.mqtt_url),
        ("sat_id", config.sat_id),
        ("locale", config.locale),
        ("topic_root", config.topic_root),
    ] {
        assert!(
            value.len() < 512,
            "{name} has an implausible length ({})",
            value.len()
        );
        assert!(value.is_ascii(), "{name} is not ascii: {value:?}");
    }
    assert!(!config.topic_root.is_empty(), "topic_root must not be empty");
    assert!(!config.sat_id.is_empty(), "sat_id must not be empty");
}

#[test]
fn checked_passes_plausible_values_through() {
    assert_eq!(checked("assist", "topic_root", "athena"), "assist");
    assert_eq!(checked("", "topic_root", "athena"), "");
}

#[test]
fn checked_substitutes_the_fallback_for_an_implausible_length() {
    // A string one byte past the plausible maximum must be replaced.
    let huge: &'static str = Box::leak("x".repeat(MAX_LEN + 1).into_boxed_str());
    assert_eq!(checked(huge, "topic_root", "athena"), "athena");
}

#[test]
fn checked_keeps_a_value_of_exactly_the_maximum_length() {
    let edge: &'static str = Box::leak("x".repeat(MAX_LEN).into_boxed_str());
    assert_eq!(checked(edge, "topic_root", "athena"), edge);
}

#[test]
fn length_report_names_each_field() {
    let line = log_lengths(&Config::default());
    assert_eq!(
        line,
        "config lengths: ssid=0 pass=0 url=21 sat_id=9 locale=2 topic_root=6"
    );
}
