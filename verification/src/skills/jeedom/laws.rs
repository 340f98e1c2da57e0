//! What holds of the jeedom skill whatever its configuration.
use vstd::prelude::*;
use vstd::string::*;
use crate::sdk::skill::{Intent, RuleView};
use crate::skills::jeedom::SensorView;
use crate::skills::jeedom::phrasing::{
    ShutterCmd, binary_label_spec, clause_spec, place_of, reading_spec, unreachable_text,
};
use crate::skills::jeedom::rules::{action_rules_spec, confirm_rules_spec, rules_for_spec, shutter_rules_spec, devices_rules};
use crate::skills::jeedom::skill::{
    JeedomCommandView, JeedomView, ShutterPlanView, after, any_confirm, jeedom_reply, jeedom_rules, shutter_intent,
    shutter_plan, shutter_with_key, unknown_device_text,
};
use crate::text::{has_prefix, parse_u64_spec};

verus! {

proof fn lemma_prefixes_clash(s: Seq<char>, p: Seq<char>, q: Seq<char>, i: int)
    requires
        0 <= i < p.len(),
        i < q.len(),
        p[i] != q[i],
    ensures
        !(has_prefix(s, p) && has_prefix(s, q)),
{
    if has_prefix(s, p) && has_prefix(s, q) {
        assert(s.take(p.len() as int)[i] == s[i]);
        assert(s.take(q.len() as int)[i] == s[i]);
    }
}

proof fn lemma_not_equal_literal(s: Seq<char>, p: Seq<char>, lit: Seq<char>, i: int)
    requires
        has_prefix(s, p),
        0 <= i < p.len(),
        i < lit.len(),
        p[i] != lit[i],
    ensures
        s != lit,
{
    if s == lit {
        assert(s.take(p.len() as int)[i] == s[i]);
    }
}

/// Stopping a shutter is never held behind a confirmation: a stop intent
/// either names no configured stop command or runs it at once (on this
/// host, answering that Jeedom cannot be reached).
pub proof fn law_stop_is_never_confirmed(v: JeedomView, intent: Intent)
    requires
        has_prefix(intent.name@, "jeedom.shutter_stop."@),
    ensures
        jeedom_reply(v, intent) == unknown_device_text(has_prefix(intent.locale@, "en"@))
            || jeedom_reply(v, intent) == unreachable_text(has_prefix(intent.locale@, "en"@)),
{
    let name = intent.name@;
    let stop = "jeedom.shutter_stop."@;
    reveal_strlit("jeedom.shutter_stop.");
    reveal_strlit("jeedom.read.");
    reveal_strlit("jeedom.read_all.");
    reveal_strlit("jeedom.turn_on.");
    reveal_strlit("jeedom.turn_off.");
    reveal_strlit("jeedom.shutter_open_all");
    reveal_strlit("jeedom.shutter_close_all");
    reveal_strlit("jeedom.shutter_open.");
    reveal_strlit("jeedom.shutter_close.");
    lemma_prefixes_clash(name, stop, "jeedom.read."@, 7);
    lemma_prefixes_clash(name, stop, "jeedom.read_all."@, 7);
    lemma_prefixes_clash(name, stop, "jeedom.turn_on."@, 7);
    lemma_prefixes_clash(name, stop, "jeedom.turn_off."@, 7);
    lemma_not_equal_literal(name, stop, "jeedom.shutter_open_all"@, 15);
    lemma_not_equal_literal(name, stop, "jeedom.shutter_close_all"@, 15);
    lemma_prefixes_clash(name, stop, "jeedom.shutter_open."@, 15);
    lemma_prefixes_clash(name, stop, "jeedom.shutter_close."@, 15);
    assert(shutter_intent(name) == Some((name.skip(stop.len() as int), ShutterCmd::Stop)));
}

/// A binary sensor's single reading and its enumeration clause end with
/// the same spoken label, so the two phrasings never disagree on what a
/// binary value means.
pub proof fn law_binary_phrasings_agree(s: SensorView, value: Seq<char>, en: bool)
    requires
        s.kind == "binary"@,
    ensures
        ({
            let label = binary_label_spec(s, value, en);
            &&& reading_spec(s, value, en) == (if en { "the "@ + s.name + " is "@ } else { "la "@ + s.name + " est "@ }) + label
            &&& clause_spec(s, value, en) == place_of(s) + " "@ + label
        }),
{
}

/// With nothing configured the skill registers no rule at all, so it
/// never captures an utterance just to apologise.
pub proof fn law_unconfigured_skill_has_no_rules(v: JeedomView, locale: Seq<char>)
    requires
        v.sensors.len() == 0,
        v.devices.len() == 0,
        v.shutters.len() == 0,
    ensures
        jeedom_rules(v, locale) == Seq::<RuleView>::empty(),
{
    assert(!any_confirm(v));
    assert(devices_rules(locale, v.devices) == Seq::<RuleView>::empty());
    assert(jeedom_rules(v, locale) =~= Seq::<RuleView>::empty());
}


/// Whether a shutter plan runs or holds exactly command `id` with slider
/// `slider`.
pub open spec fn plan_commands(p: ShutterPlanView, id: u64, slider: Option<u64>) -> bool {
    match p {
        ShutterPlanView::Command(JeedomCommandView::Run { cmd_id, slider: sl }) => cmd_id == id && sl == slider,
        ShutterPlanView::Command(JeedomCommandView::Confirm { cmd_id, slider: sl, .. }) => cmd_id == id && sl == slider,
        _ => false,
    }
}

/// Each shutter command drives the shutter's own id for it: opening runs
/// its `up_id`, closing its `down_id`, stopping its `stop_id` (at once,
/// never held), and a position its `slider_id` at the asked percentage; a
/// command whose id is not configured (0) is an unknown device.
pub proof fn law_shutter_commands_use_their_ids(
    v: JeedomView,
    key: Seq<char>,
    k: u64,
    i: int,
    p: u64,
    en: bool,
)
    requires
        parse_u64_spec(key) == Some(k),
        shutter_with_key(v.shutters, k) == Some(i),
    ensures
        v.shutters[i].up_id != 0 ==> plan_commands(shutter_plan(v, key, ShutterCmd::Open, None, en), v.shutters[i].up_id, None),
        v.shutters[i].down_id != 0 ==> plan_commands(shutter_plan(v, key, ShutterCmd::Close, None, en), v.shutters[i].down_id, None),
        v.shutters[i].stop_id != 0 ==> shutter_plan(v, key, ShutterCmd::Stop, None, en) == ShutterPlanView::Command(
            JeedomCommandView::Run { cmd_id: v.shutters[i].stop_id, slider: None },
        ),
        v.shutters[i].slider_id != 0 ==> plan_commands(
            shutter_plan(v, key, ShutterCmd::Pos(0), Some(p), en),
            v.shutters[i].slider_id,
            Some(p),
        ),
        v.shutters[i].up_id == 0 ==> shutter_plan(v, key, ShutterCmd::Open, None, en) == ShutterPlanView::Unknown,
        v.shutters[i].down_id == 0 ==> shutter_plan(v, key, ShutterCmd::Close, None, en) == ShutterPlanView::Unknown,
{
}

} // verus!
