//! `home` skill: switches lights and devices by publishing their
//! configured MQTT payloads.
use vstd::prelude::*;
use crate::sdk::host::HostCtx;
use crate::sdk::response::{SkillError, SkillResponse, error_message, spoken};
use crate::sdk::skill::{
    Intent, PatternRule, RuleView, Skill, SlotKind, SlotKindView, SlotSpec, SlotSpecView, rules_view,
    slot_lookup, slot_spec,
};
use crate::skills::jeedom::resolve::{at_least_as_similar, close_enough, similarity, similarity_den, similarity_num};
use crate::text::{
    ascii_eq_ignore_case, cat, eq_ignore_ascii_case, owned, str_eq, strings_view, to_lowercase, trim,
    trimmed, unicode_lowercase, utf8,
};

verus! {

/// A controllable entity: its spoken name, room and kind, and the MQTT
/// topic and payloads that switch it.
#[derive(Debug, Clone)]
pub struct Entity {
    pub name: String,
    pub room: String,
    pub kind: String,
    pub set_topic: String,
    pub on_payload: String,
    pub off_payload: String,
}

/// The first light of a room (room names compared ignoring ASCII case).
pub open spec fn light_index(es: Seq<Entity>, room: Seq<char>) -> Option<int>
    decreases es.len(),
{
    if es.len() == 0 {
        None
    } else {
        match light_index(es.drop_last(), room) {
            Some(i) => Some(i),
            None => if es.last().kind@ == "light"@ && ascii_eq_ignore_case(es.last().room@, room) {
                Some(es.len() - 1)
            } else {
                None
            },
        }
    }
}

/// The first light of a room.
pub fn find_light(entities: &[Entity], room: &str) -> (r: Option<usize>)
    ensures
        match light_index(entities@, room@) {
            Some(i) => r matches Some(j) && j == i && i < entities@.len(),
            None => r is None,
        },
{
    let mut i: usize = 0;
    while i < entities.len()
        invariant
            i <= entities.len(),
            light_index(entities@.take(i as int), room@) is None,
        decreases entities.len() - i,
    {
        assert(entities@.take(i + 1).drop_last() == entities@.take(i as int));
        assert(entities@.take(i + 1).last() == entities@[i as int]);
        if str_eq(entities[i].kind.as_str(), "light") && eq_ignore_ascii_case(entities[i].room.as_str(), room) {
            proof {
                lemma_light_index_stable(entities@, room@, i as int, entities@.len() as int);
                assert(entities@.take(entities@.len() as int) == entities@);
            }
            return Some(i);
        }
        i = i + 1;
    }
    assert(entities@.take(i as int) == entities@);
    None
}

proof fn lemma_light_index_stable(es: Seq<Entity>, room: Seq<char>, i: int, n: int)
    requires
        0 <= i < n <= es.len(),
        light_index(es.take(i + 1), room) == Some(i),
    ensures
        light_index(es.take(n), room) == Some(i),
    decreases n,
{
    if n > i + 1 {
        lemma_light_index_stable(es, room, i, n - 1);
        assert(es.take(n).drop_last() == es.take(n - 1));
    }
}

/// The most similar entity name to the query (similarity at least 0.75,
/// names and query lowercased); the first one on ties.
pub open spec fn fuzzy_index(names: Seq<Seq<char>>, q: Seq<char>) -> Option<int>
    decreases names.len(),
{
    if names.len() == 0 {
        None
    } else {
        let prev = fuzzy_index(names.drop_last(), q);
        let i = names.len() - 1;
        if close_enough(names[i], q) && match prev {
            None => true,
            Some(p) => !at_least_as_similar(names[p], q, names[i], q),
        } {
            Some(i)
        } else {
            prev
        }
    }
}

proof fn lemma_fuzzy_bound(names: Seq<Seq<char>>, q: Seq<char>)
    ensures
        fuzzy_index(names, q) matches Some(p) ==> 0 <= p < names.len(),
    decreases names.len(),
{
    if names.len() > 0 {
        lemma_fuzzy_bound(names.drop_last(), q);
    }
}

/// The lowercased names of entities.
pub open spec fn entity_names(es: Seq<Entity>) -> Seq<Seq<char>> {
    es.map_values(|e: Entity| unicode_lowercase(e.name@))
}

/// Fuzzy device lookup: nothing for an empty query or list, else the most
/// similar entity name above the threshold.
pub fn find_device_fuzzy(ctx: &HostCtx, entities: &[Entity], query: &str) -> (r: Option<usize>)
    ensures
        if query@.len() == 0 {
            r is None
        } else {
            match fuzzy_index(entity_names(entities@), unicode_lowercase(query@)) {
                Some(i) => r matches Some(j) && j == i && i < entities@.len(),
                None => r is None,
            }
        },
{
    if query.is_empty() || entities.len() == 0 {
        return None;
    }
    let q = to_lowercase(query);
    let ghost names = entity_names(entities@);
    let mut best: Option<(usize, u128, u128)> = None;
    let mut i: usize = 0;
    while i < entities.len()
        invariant
            i <= entities.len(),
            names == entity_names(entities@),
            q@ == unicode_lowercase(query@),
            match fuzzy_index(names.take(i as int), q@) {
                Some(p) => best matches Some((bi, bn, bd)) && bi == p && bn == similarity_num(names[p], q@)
                    && bd == similarity_den(names[p], q@) && bn <= u64::MAX && bd <= u64::MAX,
                None => best is None,
            },
        decreases entities.len() - i,
    {
        let name = to_lowercase(entities[i].name.as_str());
        assert(name@ == names[i as int]);
        let (num, den) = similarity(name.as_str(), q.as_str());
        proof {
            assert(names.take(i + 1).drop_last() =~= names.take(i as int));
            assert(names.take(i + 1)[i as int] == names[i as int]);
            lemma_fuzzy_bound(names.take(i as int), q@);
            match fuzzy_index(names.take(i as int), q@) {
                Some(p) => {
                    assert(names.take(i + 1)[p] == names[p]);
                    assert(names.take(i as int)[p] == names[p]);
                },
                None => {},
            }
        }
        ctx.log("debug", cat("home: candidate ", entities[i].name.as_str()).as_str());
        if 4 * num >= 3 * den {
            match best {
                None => {
                    best = Some((i, num, den));
                },
                Some((_, bn, bd)) => {
                    assert(num * bd <= u64::MAX as u128 * u64::MAX as u128) by (nonlinear_arith)
                        requires num <= u64::MAX, bd <= u64::MAX;
                    assert(bn * den <= u64::MAX as u128 * u64::MAX as u128) by (nonlinear_arith)
                        requires bn <= u64::MAX, den <= u64::MAX;
                    if num * bd > bn * den {
                        best = Some((i, num, den));
                    }
                },
            }
        }
        i = i + 1;
    }
    assert(names.take(entities.len() as int) == names);
    proof {
        lemma_fuzzy_bound(names, q@);
    }
    match best {
        Some((bi, _, _)) => Some(bi),
        None => None,
    }
}

/// The MQTT message that switches an entity: its set topic, with its on
/// or off payload.
pub fn command_message(entity: &Entity, on: bool) -> (r: (&str, &str))
    ensures
        r.0@ == entity.set_topic@,
        r.1@ == (if on { entity.on_payload@ } else { entity.off_payload@ }),
{
    (entity.set_topic.as_str(), if on { entity.on_payload.as_str() } else { entity.off_payload.as_str() })
}

/// What the skill says once the host answered the publish.
pub open spec fn publish_reply(published: bool) -> Seq<char> {
    if published { "d'accord"@ } else { "je n'ai pas pu envoyer la commande"@ }
}

/// "d'accord" when the host took the message, else the apology.
pub fn publish_outcome(published: &Result<(), SkillError>) -> (r: SkillResponse)
    ensures
        spoken(r) == Some(publish_reply(published is Ok)),
{
    match published {
        Ok(()) => SkillResponse::speak("d'accord"),
        Err(_) => SkillResponse::speak("je n'ai pas pu envoyer la commande"),
    }
}

/// Publishes the entity's on or off payload on its set topic; "d'accord"
/// when the host took it (always, on a host without a guest runtime),
/// else the apology.
pub fn publish_command(ctx: &HostCtx, entity: &Entity, on: bool) -> (r: Result<SkillResponse, SkillError>)
    ensures
        r matches Ok(resp) && spoken(resp) == Some("d'accord"@),
{
    let (topic, payload) = command_message(entity, on);
    let published = ctx.mqtt_publish(topic, payload.as_bytes());
    if let Err(e) = &published {
        ctx.log("warn", cat("home: publish failed: ", e.message().as_str()).as_str());
    }
    Ok(publish_outcome(&published))
}

/// Publishes the entity's on or off payload on its set topic through the
/// context, which records it, and answers "d'accord" when the host took it
/// (always, on a host without a guest runtime).
pub fn send_command(ctx: &mut HostCtx, entity: &Entity, on: bool) -> (r: Result<SkillResponse, SkillError>)
    ensures
        final(ctx)@ == old(ctx)@,
        final(ctx).published() == old(ctx).published().push(
            (entity.set_topic@, utf8(if on { entity.on_payload@ } else { entity.off_payload@ })),
        ),
        r matches Ok(resp) && spoken(resp) == Some("d'accord"@),
{
    let (topic, payload) = command_message(entity, on);
    let published = ctx.publish(topic, payload.as_bytes());
    Ok(publish_outcome(&published))
}

/// A slot's text, trimmed; empty when the slot is missing or not text.
pub open spec fn slot_text_spec(intent: Intent, key: Seq<char>) -> Seq<char> {
    match slot_lookup(intent.slots@, key) {
        Some(v) => match v.text {
            Some(t) => trimmed(t),
            None => seq![],
        },
        None => seq![],
    }
}

/// A slot's text, trimmed.
pub fn slot_str(intent: &Intent, key: &str) -> (r: String)
    ensures
        r@ == slot_text_spec(*intent, key@),
{
    match intent.slot_text(key) {
        Some(t) => trim(t.as_str()),
        None => String::new(),
    }
}

/// The home skill's match rules: French only.
pub open spec fn home_rules(locale: Seq<char>) -> Seq<RuleView> {
    let room = seq![SlotSpecView { name: "room"@, kind: SlotKindView::String }];
    let device = seq![SlotSpecView { name: "device"@, kind: SlotKindView::String }];
    if locale != "fr"@ {
        seq![]
    } else {
        seq![
            RuleView { intent: "home.light.on"@, phrases: seq!["allume la lumière du {room}"@], slots: room },
            RuleView { intent: "home.light.off"@, phrases: seq!["éteins la lumière du {room}"@], slots: room },
            RuleView { intent: "home.device.on"@, phrases: seq!["allume {device}"@], slots: device },
            RuleView { intent: "home.device.off"@, phrases: seq!["éteins {device}"@], slots: device },
        ]
    }
}

/// The home skill, with its configured entities.
pub struct HomeSkill {
    pub entities: Vec<Entity>,
}

/// What the home skill answers an intent (the host accepts every publish).
pub open spec fn home_reply(es: Seq<Entity>, intent: Intent) -> Result<Seq<char>, Seq<char>> {
    let name = intent.name@;
    if name == "home.light.on"@ || name == "home.light.off"@ {
        let room = slot_text_spec(intent, "room"@);
        match light_index(es, room) {
            Some(_) => Ok("d'accord"@),
            None => Ok("désolé, je ne connais pas la lumière du "@ + room),
        }
    } else if name == "home.device.on"@ || name == "home.device.off"@ {
        let device = slot_text_spec(intent, "device"@);
        if device.len() == 0 {
            Ok("désolé, je ne connais pas "@ + device)
        } else {
            match fuzzy_index(entity_names(es), unicode_lowercase(device)) {
                Some(_) => Ok("d'accord"@),
                None => Ok("désolé, je ne connais pas "@ + device),
            }
        }
    } else {
        Err("custom: "@ + ("unknown intent: "@ + name))
    }
}

/// The MQTT messages an intent makes the skill publish: for a light
/// intent on a room with a light, that light's message; for a device
/// intent naming a known device, that device's message; switched on for
/// `.on` intents and off for `.off` ones. Nothing otherwise.
pub open spec fn home_messages(es: Seq<Entity>, intent: Intent) -> Seq<(Seq<char>, Seq<u8>)> {
    let name = intent.name@;
    if name == "home.light.on"@ || name == "home.light.off"@ {
        match light_index(es, slot_text_spec(intent, "room"@)) {
            Some(i) => seq![(es[i].set_topic@, utf8(if name == "home.light.on"@ { es[i].on_payload@ } else { es[i].off_payload@ }))],
            None => seq![],
        }
    } else if name == "home.device.on"@ || name == "home.device.off"@ {
        let device = slot_text_spec(intent, "device"@);
        if device.len() == 0 {
            seq![]
        } else {
            match fuzzy_index(entity_names(es), unicode_lowercase(device)) {
                Some(i) => seq![(es[i].set_topic@, utf8(if name == "home.device.on"@ { es[i].on_payload@ } else { es[i].off_payload@ }))],
                None => seq![],
            }
        }
    } else {
        seq![]
    }
}

impl HomeSkill {
    /// The skill with these entities.
    pub fn new(entities: Vec<Entity>) -> (s: Self)
        ensures
            s.entities@ == entities@,
    {
        HomeSkill { entities }
    }

    fn rule(intent: &str, phrase: &str, slot: &str, Ghost(v): Ghost<RuleView>) -> (r: PatternRule)
        requires
            v == (RuleView {
                intent: intent@,
                phrases: seq![phrase@],
                slots: seq![SlotSpecView { name: slot@, kind: SlotKindView::String }],
            }),
        ensures
            r@ == v,
    {
        let r = PatternRule {
            intent: owned(intent),
            phrases: vec![owned(phrase)],
            slots: vec![slot_spec(slot, SlotKind::String)],
        };
        assert(strings_view(r.phrases@) =~= v.phrases);
        assert(r.slots@.map_values(|s: SlotSpec| s@) =~= v.slots);
        r
    }
}

impl Skill for HomeSkill {
    fn name(&self) -> (n: &str)
        ensures
            n@ == "home"@,
    {
        "home"
    }

    fn pattern_rules(&self, locale: &str) -> (rules: Vec<PatternRule>)
        ensures
            rules_view(rules@) == home_rules(locale@),
    {
        let ghost expect = home_rules(locale@);
        if !str_eq(locale, "fr") {
            let rules = Vec::new();
            assert(rules_view(rules@) =~= expect);
            return rules;
        }
        let mut rules: Vec<PatternRule> = Vec::new();
        rules.push(Self::rule("home.light.on", "allume la lumière du {room}", "room", Ghost(expect[0])));
        rules.push(Self::rule("home.light.off", "éteins la lumière du {room}", "room", Ghost(expect[1])));
        rules.push(Self::rule("home.device.on", "allume {device}", "device", Ghost(expect[2])));
        rules.push(Self::rule("home.device.off", "éteins {device}", "device", Ghost(expect[3])));
        assert(rules_view(rules@) =~= expect);
        rules
    }

    fn handle(&mut self, intent: Intent, ctx: &mut HostCtx) -> (r: Result<SkillResponse, SkillError>)
        ensures
            final(self).entities@ == old(self).entities@,
            match home_reply(old(self).entities@, intent) {
                Ok(t) => r matches Ok(resp) && spoken(resp) == Some(t),
                Err(m) => r matches Err(e) && error_message(e) == m,
            },
            final(ctx)@ == old(ctx)@,
            final(ctx).published() == old(ctx).published() + home_messages(old(self).entities@, intent),
    {
        let name = intent.name.as_str();
        if str_eq(name, "home.light.on") || str_eq(name, "home.light.off") {
            let room = slot_str(&intent, "room");
            let on = str_eq(name, "home.light.on");
            return match find_light(self.entities.as_slice(), room.as_str()) {
                Some(i) => {
                    let r = send_command(ctx, &self.entities[i], on);
                    assert(ctx.published() =~= old(ctx).published() + home_messages(old(self).entities@, intent));
                    r
                },
                None => {
                    assert(ctx.published() =~= old(ctx).published() + home_messages(old(self).entities@, intent));
                    Ok(SkillResponse::speak_owned(cat("désolé, je ne connais pas la lumière du ", room.as_str())))
                },
            };
        }
        if str_eq(name, "home.device.on") || str_eq(name, "home.device.off") {
            let device = slot_str(&intent, "device");
            let on = str_eq(name, "home.device.on");
            return match find_device_fuzzy(ctx, self.entities.as_slice(), device.as_str()) {
                Some(i) => {
                    let r = send_command(ctx, &self.entities[i], on);
                    assert(ctx.published() =~= old(ctx).published() + home_messages(old(self).entities@, intent));
                    r
                },
                None => {
                    assert(ctx.published() =~= old(ctx).published() + home_messages(old(self).entities@, intent));
                    Ok(SkillResponse::speak_owned(cat("désolé, je ne connais pas ", device.as_str())))
                },
            };
        }
        assert(ctx.published() =~= old(ctx).published() + home_messages(old(self).entities@, intent));
        let e = SkillError::Custom(cat("unknown intent: ", name));
        Err(e)
    }
}


/// A light intent switches the room's light the way it asks: "on" publishes
/// the light's `on_payload` and "off" its `off_payload`, each exactly once
/// on the light's `set_topic`; a room without a light publishes nothing.
pub proof fn law_light_intents_publish_their_own_payload(es: Seq<Entity>, intent: Intent)
    requires
        intent.name@ == "home.light.on"@ || intent.name@ == "home.light.off"@,
    ensures
        match light_index(es, slot_text_spec(intent, "room"@)) {
            Some(i) => home_messages(es, intent).len() == 1
                && home_messages(es, intent)[0].0 == es[i].set_topic@
                && (intent.name@ == "home.light.on"@ ==> home_messages(es, intent)[0].1 == utf8(es[i].on_payload@))
                && (intent.name@ == "home.light.off"@ ==> home_messages(es, intent)[0].1 == utf8(es[i].off_payload@)),
            None => home_messages(es, intent).len() == 0,
        },
{
    reveal_strlit("home.light.on");
    reveal_strlit("home.light.off");
    if intent.name@ == "home.light.off"@ {
        assert("home.light.off"@[12] != "home.light.on"@[12]);
    }
}

/// A device intent naming a known device switches it the way it asks.
pub proof fn law_device_intents_publish_their_own_payload(es: Seq<Entity>, intent: Intent, i: int)
    requires
        intent.name@ == "home.device.on"@ || intent.name@ == "home.device.off"@,
        slot_text_spec(intent, "device"@).len() > 0,
        fuzzy_index(entity_names(es), unicode_lowercase(slot_text_spec(intent, "device"@))) == Some(i),
    ensures
        home_messages(es, intent).len() == 1,
        home_messages(es, intent)[0].0 == es[i].set_topic@,
        intent.name@ == "home.device.on"@ ==> home_messages(es, intent)[0].1 == utf8(es[i].on_payload@),
        intent.name@ == "home.device.off"@ ==> home_messages(es, intent)[0].1 == utf8(es[i].off_payload@),
{
    reveal_strlit("home.light.on");
    reveal_strlit("home.light.off");
    reveal_strlit("home.device.on");
    reveal_strlit("home.device.off");
    assert("home.device.on"@[5] != "home.light.on"@[5]);
    assert("home.device.off"@[5] != "home.light.off"@[5]);
    assert("home.device.off"@[13] != "home.device.on"@[13]);
}

} // verus!
