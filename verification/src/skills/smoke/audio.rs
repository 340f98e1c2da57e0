//! Rules for skill-driven audio playback: play a test sound, set the
//! volume.
use vstd::prelude::*;
use crate::sdk::skill::{PatternRule, RuleView, SlotKind, SlotKindView, SlotSpec, SlotSpecView, rules_view, slot_spec};
use crate::text::{owned, strings_view};

verus! {

/// "joue un son" → `audio.play`; "mets le volume à {}%" → `audio.volume`
/// with a numeric `percent` slot.
pub open spec fn audio_rules() -> Seq<RuleView> {
    seq![
        RuleView { intent: "audio.play"@, phrases: seq!["joue un son"@], slots: seq![] },
        RuleView {
            intent: "audio.volume"@,
            phrases: seq!["mets le volume à {}%"@],
            slots: seq![SlotSpecView { name: "percent"@, kind: SlotKindView::Number }],
        },
    ]
}

pub fn patterns() -> (rules: Vec<PatternRule>)
    ensures
        rules_view(rules@) == audio_rules(),
{
    let play = PatternRule { intent: owned("audio.play"), phrases: vec![owned("joue un son")], slots: Vec::new() };
    let volume = PatternRule {
        intent: owned("audio.volume"),
        phrases: vec![owned("mets le volume à {}%")],
        slots: vec![slot_spec("percent", SlotKind::Number)],
    };
    let ghost expect = audio_rules();
    assert(strings_view(play.phrases@) =~= expect[0].phrases);
    assert(play.slots@.map_values(|s: SlotSpec| s@) =~= expect[0].slots);
    assert(strings_view(volume.phrases@) =~= expect[1].phrases);
    assert(volume.slots@.map_values(|s: SlotSpec| s@) =~= expect[1].slots);
    let rules = vec![play, volume];
    assert(rules_view(rules@) =~= expect);
    rules
}

} // verus!
