use athena_voice::sdk::host::{HostCtx, LocalTime};
use athena_voice::sdk::response::SkillError;

#[test]
fn local_time_hour_minute_respect_offset() {
    // 1970-01-01 00:00 UTC at +02:00 → 02:00 local.
    let t = LocalTime { epoch_ms: 0, offset_sec: 7_200 };
    assert_eq!(t.hour(), 2);
    assert_eq!(t.minute(), 0);

    // 23:59:59 UTC at -01:00 → 22:59 local.
    let t = LocalTime { epoch_ms: 86_399_000, offset_sec: -3_600 };
    assert_eq!(t.hour(), 22);
    assert_eq!(t.minute(), 59);
}

#[test]
fn local_time_before_the_epoch_wraps_to_the_previous_day() {
    // 1969-12-31 23:30 UTC.
    let t = LocalTime { epoch_ms: -1_800_000, offset_sec: 0 };
    assert_eq!(t.hour(), 23);
    assert_eq!(t.minute(), 30);
}

#[test]
fn error_display() {
    assert!(SkillError::HttpFailed("boom".into()).message().contains("boom"));
    assert_eq!(SkillError::HttpFailed("boom".into()).message(), "http failed: boom");
    assert_eq!(SkillError::Custom("x".into()).message(), "custom: x");
}

#[test]
fn host_build_context_answers_with_its_stubs() {
    let ctx = HostCtx::for_guest("jeedom");
    assert_eq!(ctx.skill_name(), "jeedom");
    assert_eq!(HostCtx::for_testing().skill_name(), "");
    assert!(matches!(ctx.tmp_get("k"), Ok(None)));
    assert!(matches!(ctx.config_get(), Ok(None)));
    assert_eq!(ctx.schedule_mqtt(5, "t", b"p").unwrap(), 0);
    match ctx.http_get_json("http://x") {
        Err(SkillError::HttpFailed(m)) => assert_eq!(m, "HostCtx::http_get_json only wired on wasm guest"),
        _ => panic!("http must be refused without a guest runtime"),
    }
}
