//! `tmp-test` skill: stores a value in the tmp store and reads it back.
use vstd::prelude::*;
use crate::sdk::host::HostCtx;
use crate::sdk::response::{SkillError, SkillResponse, spoken};
use crate::sdk::skill::{
    Intent, PatternRule, RuleView, Skill, SlotKind, SlotKindView, SlotSpec, SlotSpecView, rules_view, slot_lookup,
    slot_spec,
};
use crate::text::{owned, strings_view};

verus! {

pub open spec fn tmp_rules() -> Seq<RuleView> {
    seq![RuleView {
        intent: "tmp.test"@,
        phrases: seq!["test tmp {key} {value}"@],
        slots: seq![
            SlotSpecView { name: "key"@, kind: SlotKindView::String },
            SlotSpecView { name: "value"@, kind: SlotKindView::String },
        ],
    }]
}

/// What the skill says once it read back what it stored: "found" when the
/// stored bytes are the value's.
pub open spec fn tmp_answer(stored: Option<Seq<u8>>, value: Seq<u8>) -> Seq<char> {
    if stored == Some(value) { "found"@ } else { "not found"@ }
}

fn same_bytes(a: &[u8], b: &[u8]) -> (r: bool)
    ensures
        r == (a@ == b@),
{
    if a.len() != b.len() {
        return false;
    }
    let mut i: usize = 0;
    while i < a.len()
        invariant
            a.len() == b.len(),
            i <= a.len(),
            forall|k: int| 0 <= k < i ==> a@[k] == b@[k],
        decreases a.len() - i,
    {
        if a[i] != b[i] {
            return false;
        }
        i = i + 1;
    }
    assert(a@ =~= b@);
    true
}

/// How long the test value lives in the tmp store, in seconds.
pub const TMP_TEST_TTL_SEC: u64 = 2;

/// A slot's text, empty when the slot is missing or not text.
pub open spec fn slot_or_empty(intent: Intent, key: Seq<char>) -> Seq<char> {
    match slot_lookup(intent.slots@, key) {
        Some(v) => match v.text {
            Some(t) => t,
            None => seq![],
        },
        None => seq![],
    }
}

/// The key and value the skill stores: its `key` and `value` slots.
pub fn tmp_test_request(intent: &Intent) -> (r: (String, String))
    ensures
        r.0@ == slot_or_empty(*intent, "key"@),
        r.1@ == slot_or_empty(*intent, "value"@),
{
    let key = match intent.slot_text("key") {
        Some(k) => k.clone(),
        None => String::new(),
    };
    let val = match intent.slot_text("value") {
        Some(v) => v.clone(),
        None => String::new(),
    };
    (key, val)
}

/// What the skill says once it read back the key: "found" when the stored
/// bytes are the value's.
pub fn tmp_test_answer(stored: &Option<Vec<u8>>, value: &[u8]) -> (r: SkillResponse)
    ensures
        spoken(r) == Some(tmp_answer(match stored { Some(b) => Some(b@), None => None }, value@)),
{
    let found = match stored {
        Some(bytes) => same_bytes(bytes.as_slice(), value),
        None => false,
    };
    SkillResponse::speak(if found { "found" } else { "not found" })
}

pub struct TmpTestSkill;

impl Skill for TmpTestSkill {
    fn name(&self) -> (n: &str)
        ensures
            n@ == "tmp-test"@,
    {
        "tmp-test"
    }

    fn pattern_rules(&self, locale: &str) -> (rules: Vec<PatternRule>)
        ensures
            rules_view(rules@) == tmp_rules(),
    {
        let r = PatternRule {
            intent: owned("tmp.test"),
            phrases: vec![owned("test tmp {key} {value}")],
            slots: vec![slot_spec("key", SlotKind::String), slot_spec("value", SlotKind::String)],
        };
        assert(strings_view(r.phrases@) =~= tmp_rules()[0].phrases);
        assert(r.slots@.map_values(|s: SlotSpec| s@) =~= tmp_rules()[0].slots);
        let rules = vec![r];
        assert(rules_view(rules@) =~= tmp_rules());
        rules
    }

    /// Sets the value under the key (2 s TTL), reads it back and says
    /// whether it was found; the host keeps nothing without a guest
    /// runtime.
    fn handle(&mut self, intent: Intent, ctx: &mut HostCtx) -> (r: Result<SkillResponse, SkillError>)
        ensures
            r matches Ok(resp) && spoken(resp) == Some("not found"@),
    {
        let (key, val) = tmp_test_request(&intent);
        let c: &HostCtx = ctx;
        match c.tmp_set(key.as_str(), val.as_str().as_bytes(), TMP_TEST_TTL_SEC) {
            Ok(()) => {},
            Err(e) => return Err(e),
        }
        let stored = match c.tmp_get(key.as_str()) {
            Ok(s) => s,
            Err(e) => return Err(e),
        };
        Ok(tmp_test_answer(&stored, val.as_str().as_bytes()))
    }
}

} // verus!
