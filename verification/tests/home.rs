use athena_voice::sdk::host::{HostCtx, IniSlice};
use athena_voice::sdk::response::SkillResponse;
use athena_voice::sdk::skill::{Intent, Skill, Slot, SlotValue};
use athena_voice::skills::audio_test::{speed_of, AudioTestSkill};
use athena_voice::skills::home::{find_device_fuzzy, find_light, slot_str, Entity, HomeSkill};
use athena_voice::skills::smoke::audio;
use athena_voice::skills::smoke::time::{self, speak_time_fr};
use athena_voice::skills::tmp_test::TmpTestSkill;

fn entity(name: &str, room: &str, kind: &str) -> Entity {
    Entity {
        name: name.into(),
        room: room.into(),
        kind: kind.into(),
        set_topic: format!("zigbee/{name}/set"),
        on_payload: "ON".into(),
        off_payload: "OFF".into(),
    }
}

fn intent(name: &str, slot: &str, value: &str) -> Intent {
    Intent {
        name: name.into(),
        slots: vec![Slot { name: slot.into(), value: SlotValue { text: Some(value.into()), percent: None } }],
        locale: "fr".into(),
    }
}

fn text(r: SkillResponse) -> String {
    match r {
        SkillResponse::Speak { text } => text,
        other => panic!("expected speech, got {other:?}"),
    }
}

#[test]
fn lights_are_found_by_room_ignoring_case() {
    let list = vec![entity("prise", "Salon", "switch"), entity("plafonnier", "Salon", "light")];
    assert_eq!(find_light(&list, "salon"), Some(1));
    assert_eq!(find_light(&list, "cuisine"), None);
}

#[test]
fn devices_are_found_fuzzily_first_best_wins() {
    let ctx = HostCtx::for_testing();
    let list = vec![entity("lampe du bureau", "bureau", "light"), entity("lampe du bureau", "bureau", "light")];
    assert_eq!(find_device_fuzzy(&ctx, &list, "Lampe du Bureau"), Some(0));
    assert_eq!(find_device_fuzzy(&ctx, &list, "lampe du burau"), Some(0));
    assert_eq!(find_device_fuzzy(&ctx, &list, "radio"), None);
    assert_eq!(find_device_fuzzy(&ctx, &list, ""), None);
}

#[test]
fn home_skill_answers() {
    let mut skill = HomeSkill::new(vec![entity("ventilateur", "chambre", "switch"), entity("plafonnier", "salon", "light")]);
    let mut ctx = HostCtx::for_testing();
    assert_eq!(text(skill.handle(intent("home.light.on", "room", " salon "), &mut ctx).unwrap()), "d'accord");
    assert_eq!(
        text(skill.handle(intent("home.light.off", "room", "garage"), &mut ctx).unwrap()),
        "désolé, je ne connais pas la lumière du garage"
    );
    assert_eq!(text(skill.handle(intent("home.device.on", "device", "ventilateur"), &mut ctx).unwrap()), "d'accord");
    assert_eq!(
        text(skill.handle(intent("home.device.off", "device", "télé"), &mut ctx).unwrap()),
        "désolé, je ne connais pas télé"
    );
    let err = skill.handle(intent("home.other", "x", "y"), &mut ctx).unwrap_err();
    assert_eq!(err.message(), "custom: unknown intent: home.other");
    assert_eq!(skill.pattern_rules("fr").len(), 4);
    assert!(skill.pattern_rules("en").is_empty());
    assert_eq!(slot_str(&intent("a", "room", "  x y "), "room"), "x y");
}

#[test]
fn time_is_spoken_in_french() {
    assert_eq!(speak_time_fr(0, 0), "il est minuit");
    assert_eq!(speak_time_fr(12, 5), "il est midi 5");
    assert_eq!(speak_time_fr(14, 30), "il est 14 heures 30");
    assert_eq!(speak_time_fr(7, 0), "il est 7 heures");
    let ctx = HostCtx::for_testing();
    assert_eq!(text(time::handle(&Intent::default(), &ctx).unwrap()), "il est minuit");
    assert_eq!(time::patterns()[0].intent, "time.query");
    let rules = audio::patterns();
    assert_eq!(rules[1].intent, "audio.volume");
    assert_eq!(rules[1].slots[0].name, "percent");
}

#[test]
fn tmp_test_reads_back_nothing_on_the_host() {
    let mut ctx = HostCtx::for_testing();
    let r = TmpTestSkill.handle(intent("tmp.test", "key", "k"), &mut ctx).unwrap();
    assert_eq!(text(r), "not found");
    assert_eq!(TmpTestSkill.pattern_rules("fr")[0].slots.len(), 2);
}

#[test]
fn audio_test_reads_the_speed() {
    let mut ctx = HostCtx::for_testing();
    assert_eq!(text(AudioTestSkill.handle(Intent::default(), &mut ctx).unwrap()), "No config");
    let ini = IniSlice::from_bytes(b"[Audio]\nspeed = 1.5\n".to_vec());
    assert_eq!(speed_of(&ini), "Speed: Some(\"1.5\")");
    let none = IniSlice::from_bytes(b"[video]\nspeed = 2\n".to_vec());
    assert_eq!(speed_of(&none), "Speed: None");
}
