//! `timer` skill: sets a timer from a spoken duration and schedules the
//! expiry announcement over MQTT.
use vstd::prelude::*;
use vstd::string::*;
use crate::sdk::host::HostCtx;
use crate::sdk::response::{SkillError, SkillResponse, spoken};
use crate::sdk::skill::{
    Intent, PatternRule, RuleView, Skill, SlotKind, SlotKindView, SlotSpecView, rules_view, slot_lookup,
    slot_spec,
};
use crate::skills::duration::{duration_fits, fr_duration_spec, parse_fr_duration};
use crate::text::{
    cat, cat3, decimal, has_prefix, i64_to_decimal, le_bytes_u64, owned, signed_decimal, starts_with, u64_le_bytes,
    u64_to_decimal,
};

verus! {

/// Longest accepted timer: twenty-four hours.
pub const MAX_SECONDS: u64 = 86_400;

/// The topic the expiry announcement is scheduled on.
pub open spec fn expiry_topic() -> Seq<char> {
    "athena/skills/timer/expired"@
}

/// The timer's match rules for a locale: one `timer.set` rule with a
/// `duration` string slot, for `fr` and `en` only.
pub open spec fn timer_rules(locale: Seq<char>) -> Seq<RuleView> {
    let slots = seq![SlotSpecView { name: "duration"@, kind: SlotKindView::String }];
    if locale == "fr"@ {
        seq![RuleView {
            intent: "timer.set"@,
            phrases: seq!["mets un minuteur de {duration}"@, "minuteur {duration}"@, "réveille-moi dans {duration}"@],
            slots,
        }]
    } else if locale == "en"@ {
        seq![RuleView {
            intent: "timer.set"@,
            phrases: seq!["set a timer for {duration}"@, "timer for {duration}"@, "wake me up in {duration}"@],
            slots,
        }]
    } else {
        seq![]
    }
}

/// The JSON payload of the expiry announcement: `{"seconds":N}`.
pub open spec fn expiry_payload(seconds: u64) -> Seq<char> {
    "{\"seconds\":"@ + decimal(seconds as nat) + "}"@
}

/// What the timer skill says for a duration phrase in a language (whether
/// or not the timer could be set), given the scheduler's answer when it is
/// asked.
pub open spec fn timer_answer(text: Seq<char>, en: bool) -> Seq<char> {
    match fr_duration_spec(text) {
        None => if en { "sorry, I didn't understand the timer duration"@ } else { "désolé, je n'ai pas compris la durée du minuteur"@ },
        Some(s) => if s > MAX_SECONDS {
            if en { "sorry, I only handle timers under twenty-four hours"@ } else { "désolé, je ne gère que les minuteurs de moins de vingt-quatre heures"@ }
        } else if en {
            "okay, timer for "@ + text + " started"@
        } else {
            "d'accord, minuteur de "@ + text + " lancé"@
        },
    }
}

/// The duration phrase of an intent: its `duration` slot when it holds a
/// string, else empty.
pub open spec fn duration_text(intent: Intent) -> Seq<char> {
    match slot_lookup(intent.slots@, "duration"@) {
        Some(v) => match v.text { Some(t) => t, None => Seq::empty() },
        None => Seq::empty(),
    }
}

/// Calls `SystemTime::now()` and `duration_since(UNIX_EPOCH)`, as
/// milliseconds (0 before the epoch). The clock is outside the library:
/// nothing is promised of the value.
#[verifier::external_body]
fn now_millis() -> (ms: i64) {
    std::time::SystemTime::now()
        .duration_since(std::time::UNIX_EPOCH)
        .map(|d| d.as_millis() as i64)
        .unwrap_or(0)
}

/// The expiry announcement to schedule for a timer of `seconds` set at
/// `now_ms`: when it fires (`now + seconds` in ms, in `i64` arithmetic),
/// on which topic, with which payload.
pub struct TimerSchedule {
    pub fires_at_ms: i64,
    pub topic: String,
    pub payload: String,
}

/// When a timer of `seconds` set at `now_ms` fires, as the skill computes
/// it in `i64` (wrapping on overflow, which a millisecond clock never
/// reaches).
pub open spec fn fires_at(now_ms: i64, seconds: u64) -> i64 {
    now_ms.wrapping_add((seconds * 1000) as i64)
}

/// The schedule of a timer of `seconds` set at `now_ms`.
pub fn timer_schedule(now_ms: i64, seconds: u64) -> (s: TimerSchedule)
    requires
        seconds <= MAX_SECONDS,
    ensures
        s.fires_at_ms == fires_at(now_ms, seconds),
        now_ms + seconds * 1000 <= i64::MAX ==> s.fires_at_ms == now_ms + seconds * 1000,
        s.topic@ == expiry_topic(),
        s.payload@ == expiry_payload(seconds),
{
    let fires_at_ms = now_ms.wrapping_add((seconds * 1000) as i64);
    proof {
        if now_ms + seconds * 1000 <= i64::MAX {
            assert(fires_at_ms == now_ms + seconds * 1000);
        }
    }
    TimerSchedule {
        fires_at_ms,
        topic: owned("athena/skills/timer/expired"),
        payload: cat3("{\"seconds\":", u64_to_decimal(seconds).as_str(), "}"),
    }
}

/// The key a scheduled timer is remembered under: `timer/<id>`.
pub open spec fn timer_key_spec(id: i64) -> Seq<char> {
    "timer/"@ + signed_decimal(id as int)
}

/// The key and value a scheduled timer is remembered under in the tmp and
/// persistent stores: `timer/<id>` and the duration as 8 little-endian
/// bytes.
pub fn timer_record(id: i64, seconds: u64) -> (r: (String, Vec<u8>))
    ensures
        r.0@ == timer_key_spec(id),
        r.1@ == le_bytes_u64(seconds),
{
    (cat("timer/", i64_to_decimal(id).as_str()), u64_le_bytes(seconds))
}

pub struct TimerSkill;

impl Skill for TimerSkill {
    fn name(&self) -> (n: &str)
        ensures
            n@ == "timer"@,
    {
        "timer"
    }

    fn pattern_rules(&self, locale: &str) -> (rules: Vec<PatternRule>)
        ensures
            rules_view(rules@) == timer_rules(locale@),
    {
        let phrases = if crate::text::str_eq(locale, "fr") {
            vec![owned("mets un minuteur de {duration}"), owned("minuteur {duration}"), owned("réveille-moi dans {duration}")]
        } else if crate::text::str_eq(locale, "en") {
            vec![owned("set a timer for {duration}"), owned("timer for {duration}"), owned("wake me up in {duration}")]
        } else {
            let rules = Vec::new();
            assert(rules_view(rules@) =~= timer_rules(locale@));
            return rules;
        };
        let rules = vec![PatternRule {
            intent: owned("timer.set"),
            phrases,
            slots: vec![slot_spec("duration", SlotKind::String)],
        }];
        proof {
            let r = rules@[0];
            assert(r.slots@.map_values(|s: crate::sdk::skill::SlotSpec| s@) =~= timer_rules(locale@)[0].slots);
            assert(crate::text::strings_view(r.phrases@) =~= timer_rules(locale@)[0].phrases);
        }
        assert(rules_view(rules@) =~= timer_rules(locale@));
        rules
    }

    /// Sets the timer: parses the duration, refuses anything over 24 h,
    /// schedules `{"seconds":N}` on the expiry topic, remembers the timer
    /// in the tmp and persistent stores, and confirms.
    fn handle(&mut self, intent: Intent, ctx: &mut HostCtx) -> (r: Result<SkillResponse, SkillError>)
        ensures
            r matches Ok(resp) && spoken(resp) == Some(timer_answer(duration_text(intent), has_prefix(intent.locale@, "en"@))),
    {
        let text = match intent.slot_text("duration") {
            Some(t) => t.clone(),
            None => String::new(),
        };
        assert(text@ == duration_text(intent));
        let en = starts_with(intent.locale.as_str(), "en");
        let too_long = if en {
            "sorry, I only handle timers under twenty-four hours"
        } else {
            "désolé, je ne gère que les minuteurs de moins de vingt-quatre heures"
        };
        if !duration_fits(text.as_str()) {
            return Ok(SkillResponse::speak(too_long));
        }
        let seconds = match parse_fr_duration(text.as_str()) {
            Some(s) => s,
            None => {
                return Ok(SkillResponse::speak(if en {
                    "sorry, I didn't understand the timer duration"
                } else {
                    "désolé, je n'ai pas compris la durée du minuteur"
                }));
            },
        };
        if seconds > MAX_SECONDS {
            return Ok(SkillResponse::speak(too_long));
        }
        let plan = timer_schedule(now_millis(), seconds);
        let id = ctx.schedule_mqtt(plan.fires_at_ms, plan.topic.as_str(), plan.payload.as_str().as_bytes())?;
        let (key, le) = timer_record(id, seconds);
        ctx.tmp_set(key.as_str(), &le, seconds)?;
        ctx.state_set(key.as_str(), &le)?;
        let answer = if en {
            cat3("okay, timer for ", text.as_str(), " started")
        } else {
            cat3("d'accord, minuteur de ", text.as_str(), " lancé")
        };
        Ok(SkillResponse::speak_owned(answer))
    }
}

} // verus!
