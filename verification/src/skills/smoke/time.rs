//! Time intent: speaks the host's local wall-clock time.
use vstd::prelude::*;
use crate::sdk::host::HostCtx;
use crate::sdk::response::{SkillError, SkillResponse, spoken};
use crate::sdk::skill::{Intent, PatternRule, RuleView, rules_view};
use crate::text::{cat, cat3, decimal, owned, strings_view, u64_to_decimal};

verus! {

/// The time rule: "quelle heure est-il".
pub open spec fn time_rules() -> Seq<RuleView> {
    seq![RuleView { intent: "time.query"@, phrases: seq!["quelle heure est-il"@], slots: seq![] }]
}

pub fn patterns() -> (rules: Vec<PatternRule>)
    ensures
        rules_view(rules@) == time_rules(),
{
    let r = PatternRule { intent: owned("time.query"), phrases: vec![owned("quelle heure est-il")], slots: Vec::new() };
    assert(strings_view(r.phrases@) =~= seq!["quelle heure est-il"@]);
    assert(r.slots@.map_values(|s: crate::sdk::skill::SlotSpec| s@) =~= seq![]);
    let rules = vec![r];
    assert(rules_view(rules@) =~= time_rules());
    rules
}

/// The time in French words: "il est minuit", "il est midi 5",
/// "il est 14 heures 30".
pub open spec fn time_fr(hour: u8, minute: u8) -> Seq<char> {
    let h = if hour == 0 {
        "minuit"@
    } else if hour == 12 {
        "midi"@
    } else {
        decimal(hour as nat) + " heures"@
    };
    if minute == 0 { "il est "@ + h } else { "il est "@ + h + " "@ + decimal(minute as nat) }
}

pub fn speak_time_fr(hour: u8, minute: u8) -> (s: String)
    ensures
        s@ == time_fr(hour, minute),
{
    let h = if hour == 0 {
        owned("minuit")
    } else if hour == 12 {
        owned("midi")
    } else {
        cat(u64_to_decimal(hour as u64).as_str(), " heures")
    };
    if minute == 0 {
        cat("il est ", h.as_str())
    } else {
        let mut out = cat3("il est ", h.as_str(), " ");
        out.append(u64_to_decimal(minute as u64).as_str());
        out
    }
}

/// Speaks the host's local time (the unix epoch without a guest runtime,
/// so "il est minuit").
pub fn handle(intent: &Intent, ctx: &HostCtx) -> (r: Result<SkillResponse, SkillError>)
    ensures
        r matches Ok(resp) && spoken(resp) == Some(time_fr(0, 0)),
{
    let t = match ctx.local_time() {
        Ok(t) => t,
        Err(e) => return Err(e),
    };
    let h = t.hour();
    let m = t.minute();
    assert(h == 0 && m == 0);
    Ok(SkillResponse::speak_owned(speak_time_fr(h, m)))
}

} // verus!
