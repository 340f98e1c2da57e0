//! `audio-test` skill: reads the `speed` key of the `[audio]` section of
//! the skill's INI config.
use vstd::prelude::*;
use crate::sdk::host::{HostCtx, IniSlice, ini_lookup, ini_malformed};
use crate::sdk::response::{SkillError, SkillResponse, spoken};
use crate::sdk::skill::{Intent, PatternRule, RuleView, Skill, rules_view};
use crate::text::{cat, owned, strings_view};

verus! {

pub open spec fn audio_test_rules() -> Seq<RuleView> {
    seq![RuleView { intent: "audio.test"@, phrases: seq!["test config"@], slots: seq![] }]
}

/// What `format!("{:?}", s)` prints for a string: quoted, with escapes.
pub uninterp spec fn debug_quoted(s: Seq<char>) -> Seq<char>;

/// Calls `str`'s `Debug` formatting; the result is named `debug_quoted`.
#[verifier::external_body]
fn debug_str(s: &str) -> (r: String)
    ensures
        r@ == debug_quoted(s@),
{
    format!("{s:?}")
}

/// The answer for a configured speed, printed as `Option`'s `Debug` does.
pub open spec fn speed_answer(speed: Option<Seq<char>>) -> Seq<char> {
    match speed {
        Some(s) => "Speed: Some("@ + debug_quoted(s) + ")"@,
        None => "Speed: None"@,
    }
}

/// Phrases the configured `[audio] speed`.
pub fn speed_of(ini: &IniSlice) -> (r: String)
    ensures
        r@ == speed_answer(if ini_malformed(ini.data@) { None } else { ini_lookup(ini.data@, "audio"@, "speed"@) }),
{
    match ini.value("audio", "speed") {
        Some(s) => {
            let mut out = cat("Speed: Some(", debug_str(s.as_str()).as_str());
            out.append(")");
            out
        },
        None => owned("Speed: None"),
    }
}

/// What the skill says of its configuration: "No config" when the host
/// serves none, else the configured speed.
pub open spec fn config_reply(cfg: Option<Seq<u8>>) -> Seq<char> {
    match cfg {
        None => "No config"@,
        Some(d) => speed_answer(if ini_malformed(d) { None } else { ini_lookup(d, "audio"@, "speed"@) }),
    }
}

/// What the skill says of the configuration the host served.
pub fn config_answer(cfg: Option<IniSlice>) -> (r: SkillResponse)
    ensures
        spoken(r) == Some(config_reply(match cfg { Some(i) => Some(i.data@), None => None })),
{
    match cfg {
        Some(ini) => SkillResponse::speak_owned(speed_of(&ini)),
        None => SkillResponse::speak("No config"),
    }
}

pub struct AudioTestSkill;

impl Skill for AudioTestSkill {
    fn name(&self) -> (n: &str)
        ensures
            n@ == "audio-test"@,
    {
        "audio-test"
    }

    fn pattern_rules(&self, locale: &str) -> (rules: Vec<PatternRule>)
        ensures
            rules_view(rules@) == audio_test_rules(),
    {
        let r = PatternRule { intent: owned("audio.test"), phrases: vec![owned("test config")], slots: Vec::new() };
        assert(strings_view(r.phrases@) =~= audio_test_rules()[0].phrases);
        assert(r.slots@.map_values(|s: crate::sdk::skill::SlotSpec| s@) =~= seq![]);
        let rules = vec![r];
        assert(rules_view(rules@) =~= audio_test_rules());
        rules
    }

    /// Speaks the configured speed, or "No config" (always, on a host
    /// without a guest runtime).
    fn handle(&mut self, intent: Intent, ctx: &mut HostCtx) -> (r: Result<SkillResponse, SkillError>)
        ensures
            r matches Ok(resp) && spoken(resp) == Some("No config"@),
    {
        let c: &HostCtx = ctx;
        match c.config_get() {
            Ok(cfg) => Ok(config_answer(cfg)),
            Err(e) => Err(e),
        }
    }
}

} // verus!
