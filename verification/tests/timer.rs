use athena_voice::sdk::host::HostCtx;
use athena_voice::sdk::response::SkillResponse;
use athena_voice::sdk::skill::{Intent, Skill, Slot, SlotValue};
use athena_voice::skills::timer::TimerSkill;

fn intent(duration: &str, locale: &str) -> Intent {
    Intent {
        name: "timer.set".to_string(),
        slots: vec![Slot {
            name: "duration".to_string(),
            value: SlotValue { text: Some(duration.to_string()), percent: None },
        }],
        locale: locale.to_string(),
    }
}

fn spoken(r: SkillResponse) -> String {
    match r {
        SkillResponse::Speak { text } => text,
        other => panic!("expected speech, got {other:?}"),
    }
}

#[test]
fn timer_confirms_in_french() {
    let mut ctx = HostCtx::for_testing();
    let r = TimerSkill.handle(intent("5 minutes", "fr"), &mut ctx).unwrap();
    assert_eq!(spoken(r), "d'accord, minuteur de 5 minutes lancé");
}

#[test]
fn timer_confirms_in_english() {
    let mut ctx = HostCtx::for_testing();
    let r = TimerSkill.handle(intent("deux minutes", "en-US"), &mut ctx).unwrap();
    assert_eq!(spoken(r), "okay, timer for deux minutes started");
}

#[test]
fn timer_refuses_over_a_day() {
    let mut ctx = HostCtx::for_testing();
    let r = TimerSkill.handle(intent("25 heures", "fr"), &mut ctx).unwrap();
    assert_eq!(spoken(r), "désolé, je ne gère que les minuteurs de moins de vingt-quatre heures");
    let r = TimerSkill.handle(intent("99999999999999999999 heures", "en"), &mut ctx);
    assert!(r.is_ok());
    let r = TimerSkill.handle(intent("9999999999999999 heures", "en"), &mut ctx).unwrap();
    assert_eq!(spoken(r), "sorry, I only handle timers under twenty-four hours");
}

#[test]
fn timer_says_when_it_did_not_understand() {
    let mut ctx = HostCtx::for_testing();
    let r = TimerSkill.handle(intent("un moment", "fr"), &mut ctx).unwrap();
    assert_eq!(spoken(r), "désolé, je n'ai pas compris la durée du minuteur");
    let r = TimerSkill.handle(Intent::default(), &mut ctx).unwrap();
    assert_eq!(spoken(r), "désolé, je n'ai pas compris la durée du minuteur");
}

#[test]
fn timer_rules_exist_for_fr_and_en_only() {
    let fr = TimerSkill.pattern_rules("fr");
    assert_eq!(fr.len(), 1);
    assert_eq!(fr[0].intent, "timer.set");
    assert_eq!(fr[0].phrases.len(), 3);
    assert_eq!(TimerSkill.pattern_rules("en")[0].phrases[0], "set a timer for {duration}");
    assert!(TimerSkill.pattern_rules("de").is_empty());
    assert_eq!(TimerSkill.name(), "timer");
}
