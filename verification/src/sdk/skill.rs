//! The vocabulary shared by the host and the skills: match rules, slots and
//! the intents a skill is asked to handle.
use vstd::prelude::*;
use crate::text::{str_eq, strings_view};

verus! {

/// What a slot may hold.
#[derive(Debug, Clone, PartialEq, Eq)]
pub enum SlotKind {
    String,
    Number,
    /// Restricted vocabulary; enforced by the pattern matcher on the host side.
    OneOf(Vec<String>),
}

#[derive(Debug, Clone, PartialEq, Eq)]
pub struct SlotSpec {
    pub name: String,
    pub kind: SlotKind,
}

#[derive(Debug, Clone)]
pub struct PatternRule {
    pub intent: String,
    /// Phrases with `{slot_name}` placeholders. Example: `"météo à {city}"`.
    pub phrases: Vec<String>,
    pub slots: Vec<SlotSpec>,
}

/// Mathematical form of a slot kind.
pub enum SlotKindView {
    String,
    Number,
    OneOf(Seq<Seq<char>>),
}

/// Mathematical form of a slot declaration.
pub struct SlotSpecView {
    pub name: Seq<char>,
    pub kind: SlotKindView,
}

/// Mathematical form of a match rule.
pub struct RuleView {
    pub intent: Seq<char>,
    pub phrases: Seq<Seq<char>>,
    pub slots: Seq<SlotSpecView>,
}

impl View for SlotKind {
    type V = SlotKindView;

    open spec fn view(&self) -> SlotKindView {
        match self {
            SlotKind::String => SlotKindView::String,
            SlotKind::Number => SlotKindView::Number,
            SlotKind::OneOf(v) => SlotKindView::OneOf(strings_view(v@)),
        }
    }
}

impl View for SlotSpec {
    type V = SlotSpecView;

    open spec fn view(&self) -> SlotSpecView {
        SlotSpecView { name: self.name@, kind: self.kind@ }
    }
}

impl View for PatternRule {
    type V = RuleView;

    open spec fn view(&self) -> RuleView {
        RuleView {
            intent: self.intent@,
            phrases: strings_view(self.phrases@),
            slots: self.slots@.map_values(|s: SlotSpec| s@),
        }
    }
}

/// The rules of a list, by their views.
pub open spec fn rules_view(v: Seq<PatternRule>) -> Seq<RuleView> {
    v.map_values(|r: PatternRule| r@)
}

/// The value the matcher filled into a slot, by what skills read from it.
#[derive(Debug, Clone, Default)]
pub struct SlotValue {
    /// The value when it is a JSON string.
    pub text: Option<String>,
    /// The value read as a number (a JSON number, or a string holding one),
    /// clamped to 0..=100 and truncated: what a percentage slot means.
    pub percent: Option<u64>,
}

/// One filled slot.
#[derive(Debug, Clone)]
pub struct Slot {
    pub name: String,
    pub value: SlotValue,
}

/// A matched intent handed to a skill.
#[derive(Debug, Clone, Default)]
pub struct Intent {
    pub name: String,
    pub slots: Vec<Slot>,
    /// The session's locale, e.g. `"fr"` or `"en-US"`.
    pub locale: String,
}

/// Mathematical form of a slot value.
pub struct SlotValueView {
    pub text: Option<Seq<char>>,
    pub percent: Option<u64>,
}

impl View for SlotValue {
    type V = SlotValueView;

    open spec fn view(&self) -> SlotValueView {
        SlotValueView {
            text: match self.text { Some(t) => Some(t@), None => None },
            percent: self.percent,
        }
    }
}

/// The value of the first slot named `key`, if any.
pub open spec fn slot_lookup(slots: Seq<Slot>, key: Seq<char>) -> Option<SlotValueView>
    decreases slots.len(),
{
    if slots.len() == 0 {
        None
    } else if slots[0].name@ == key {
        Some(slots[0].value@)
    } else {
        slot_lookup(slots.drop_first(), key)
    }
}

impl Intent {
    /// The value of the slot named `key` (the first one, should the matcher
    /// have filled a name twice).
    pub fn slot(&self, key: &str) -> (r: Option<&SlotValue>)
        ensures
            match r {
                Some(v) => slot_lookup(self.slots@, key@) == Some(v@),
                None => slot_lookup(self.slots@, key@) is None,
            },
    {
        let mut i: usize = 0;
        assert(self.slots@.skip(0) == self.slots@);
        while i < self.slots.len()
            invariant
                i <= self.slots.len(),
                slot_lookup(self.slots@, key@) == slot_lookup(self.slots@.skip(i as int), key@),
            decreases self.slots.len() - i,
        {
            assert(self.slots@.skip(i as int).drop_first() == self.slots@.skip(i + 1));
            if str_eq(self.slots[i].name.as_str(), key) {
                return Some(&self.slots[i].value);
            }
            i = i + 1;
        }
        None
    }

    /// The slot named `key` as a string, when the matcher filled it with one.
    pub fn slot_text(&self, key: &str) -> (r: Option<&String>)
        ensures
            match r {
                Some(t) => slot_lookup(self.slots@, key@) matches Some(v) && v.text == Some(t@),
                None => !(slot_lookup(self.slots@, key@) matches Some(v) && v.text is Some),
            },
    {
        match self.slot(key) {
            Some(v) => match &v.text {
                Some(t) => Some(t),
                None => None,
            },
            None => None,
        }
    }
}

} // verus!

verus! {

/// A skill: its match rules per locale, and how it answers an intent.
pub trait Skill {
    fn name(&self) -> &str;

    fn pattern_rules(&self, locale: &str) -> Vec<PatternRule>;

    fn handle(&mut self, intent: Intent, ctx: &mut crate::sdk::host::HostCtx) -> Result<crate::sdk::response::SkillResponse, crate::sdk::response::SkillError>;
}

/// A slot declaration.
pub fn slot_spec(name: &str, kind: SlotKind) -> (s: SlotSpec)
    ensures
        s.name@ == name@,
        s.kind == kind,
{
    SlotSpec { name: crate::text::owned(name), kind }
}

} // verus!
