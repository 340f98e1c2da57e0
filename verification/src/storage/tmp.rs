//! Skill-local temporary storage: values under (skill, key) that expire
//! `expires_sec` seconds after they were set. Transient across restarts.
use vstd::prelude::*;
use dashmap::DashMap;

verus! {

/// `dashmap::DashMap`, the concurrent map the store keeps its entries in.
#[verifier::external_type_specification]
#[verifier::external_body]
#[verifier::reject_recursive_types(K)]
#[verifier::reject_recursive_types(V)]
#[verifier::reject_recursive_types(S)]
pub struct ExDashMap<K, V, S>(dashmap::DashMap<K, V, S>);

/// The map the store keeps: (skill, key) to (expiry second, value).
pub type TmpMap = DashMap<(String, String), (u64, Vec<u8>)>;

/// What a store map holds: for each (skill, key), the expiry second and
/// the value.
pub uninterp spec fn tmp_contents(m: TmpMap) -> Map<(Seq<char>, Seq<char>), (u64, Seq<u8>)>;

/// No entry at all.
pub open spec fn no_entries() -> Map<(Seq<char>, Seq<char>), (u64, Seq<u8>)> {
    Map::empty()
}

/// `DashMap::new`: an empty map.
#[verifier::external_body]
fn map_new() -> (fresh: TmpMap)
    ensures
        tmp_contents(fresh) == no_entries(),
{
    DashMap::new()
}

/// `DashMap::insert`: sets the entry of (skill, key), replacing any.
#[verifier::external_body]
fn map_insert(m: &mut TmpMap, skill: &str, key: &str, expires_at: u64, val: Vec<u8>)
    ensures
        tmp_contents(*final(m)) == tmp_contents(*old(m)).insert((skill@, key@), (expires_at, val@)),
{
    m.insert((skill.to_string(), key.to_string()), (expires_at, val));
}

/// `DashMap::get`, the entry of (skill, key) copied out.
#[verifier::external_body]
fn map_get(m: &TmpMap, skill: &str, key: &str) -> (r: Option<(u64, Vec<u8>)>)
    ensures
        match r {
            Some((e, v)) => tmp_contents(*m).contains_key((skill@, key@)) && tmp_contents(*m)[(skill@, key@)] == (e, v@),
            None => !tmp_contents(*m).contains_key((skill@, key@)),
        },
{
    m.get(&(skill.to_string(), key.to_string())).map(|e| e.value().clone())
}

/// `DashMap::remove`: drops the entry of (skill, key).
#[verifier::external_body]
fn map_remove(m: &mut TmpMap, skill: &str, key: &str)
    ensures
        tmp_contents(*final(m)) == tmp_contents(*old(m)).remove((skill@, key@)),
{
    m.remove(&(skill.to_string(), key.to_string()));
}

/// Whether an entry expiring at `expires_at` is still live at `now_sec`.
pub open spec fn live(expires_at: u64, now_sec: u64) -> bool {
    expires_at > now_sec
}

/// Whether an entry expiring at `expires_at` is still live at `now_sec`.
pub fn is_live(expires_at: u64, now_sec: u64) -> (r: bool)
    ensures
        r == live(expires_at, now_sec),
{
    expires_at > now_sec
}

/// The entries of `m` still live at `now_sec`.
pub open spec fn live_entries(
    m: Map<(Seq<char>, Seq<char>), (u64, Seq<u8>)>,
    now_sec: u64,
) -> Map<(Seq<char>, Seq<char>), (u64, Seq<u8>)> {
    Map::new(|k: (Seq<char>, Seq<char>)| m.contains_key(k) && live(m[k].0, now_sec), |k: (Seq<char>, Seq<char>)| m[k])
}

/// `DashMap::retain` with `is_live`: keeps the entries live at `now_sec`.
#[verifier::external_body]
fn map_retain_live(m: &mut TmpMap, now_sec: u64)
    ensures
        tmp_contents(*final(m)) == live_entries(tmp_contents(*old(m)), now_sec),
{
    m.retain(|_, v| is_live(v.0, now_sec));
}

/// Reads `SystemTime::now()` as whole seconds since the unix epoch (0
/// before it). The clock is outside the library: nothing is promised of
/// the value.
#[verifier::external_body]
fn now_secs() -> (s: u64) {
    std::time::SystemTime::now().duration_since(std::time::UNIX_EPOCH).unwrap_or_default().as_secs()
}

/// The bytes of an optional value.
pub open spec fn opt_bytes(r: Option<Vec<u8>>) -> Option<Seq<u8>> {
    match r {
        Some(v) => Some(v@),
        None => None,
    }
}

/// Reading `k` at `now` from `before` answers `r` and leaves `after`: a
/// live entry's value with the store unchanged; nothing for an expired
/// entry, which is dropped; nothing for an absent key.
pub open spec fn read_at(
    before: Map<(Seq<char>, Seq<char>), (u64, Seq<u8>)>,
    k: (Seq<char>, Seq<char>),
    now: u64,
    r: Option<Seq<u8>>,
    after: Map<(Seq<char>, Seq<char>), (u64, Seq<u8>)>,
) -> bool {
    match before.get(k) {
        Some((e, v)) => if now >= e {
            r is None && after == before.remove(k)
        } else {
            r == Some(v) && after == before
        },
        None => r is None && after == before,
    }
}

/// In-memory temporary store.
pub struct MemoryTmpStore {
    store: TmpMap,
}

impl View for MemoryTmpStore {
    type V = Map<(Seq<char>, Seq<char>), (u64, Seq<u8>)>;

    closed spec fn view(&self) -> Self::V {
        tmp_contents(self.store)
    }
}

impl MemoryTmpStore {
    /// An empty store.
    pub fn new() -> (s: Self)
        ensures
            s@ == Map::<(Seq<char>, Seq<char>), (u64, Seq<u8>)>::empty(),
    {
        MemoryTmpStore { store: map_new() }
    }

    /// Stores a value for `expires_sec` seconds from `now_sec` (the expiry
    /// saturates at the end of time).
    pub fn tmp_set_at(&mut self, skill: &str, key: &str, val: Vec<u8>, expires_sec: u64, now_sec: u64)
        ensures
            final(self)@ == old(self)@.insert((skill@, key@), (now_sec.saturating_add(expires_sec), val@)),
    {
        map_insert(&mut self.store, skill, key, now_sec.saturating_add(expires_sec), val);
    }

    /// Stores a value for `expires_sec` seconds from now.
    pub fn tmp_set(&mut self, skill: &str, key: &str, val: Vec<u8>, expires_sec: u64)
        ensures
            exists|now: u64| final(self)@ == old(self)@.insert((skill@, key@), (now.saturating_add(expires_sec), val@)),
    {
        let now = now_secs();
        self.tmp_set_at(skill, key, val, expires_sec, now);
    }

    /// The value of (skill, key) if it has not expired at `now_sec`; an
    /// expired entry is dropped.
    pub fn tmp_get_at(&mut self, skill: &str, key: &str, now_sec: u64) -> (r: Option<Vec<u8>>)
        ensures
            read_at(old(self)@, (skill@, key@), now_sec, opt_bytes(r), final(self)@),
    {
        let (expires_at, val) = match map_get(&self.store, skill, key) {
            Some(entry) => entry,
            None => return None,
        };
        if now_sec >= expires_at {
            map_remove(&mut self.store, skill, key);
            None
        } else {
            Some(val)
        }
    }

    /// The value of (skill, key) if it has not expired now.
    pub fn tmp_get(&mut self, skill: &str, key: &str) -> (r: Option<Vec<u8>>)
        ensures
            exists|now: u64| read_at(old(self)@, (skill@, key@), now, opt_bytes(r), final(self)@),
    {
        let now = now_secs();
        self.tmp_get_at(skill, key, now)
    }

    /// Drops every entry expired at `now_sec`.
    pub fn tmp_gc(&mut self, now_sec: u64)
        ensures
            final(self)@ == live_entries(old(self)@, now_sec),
    {
        map_retain_live(&mut self.store, now_sec);
    }
}

/// Each skill's values live in its own namespace: setting a key for one
/// skill leaves every key of every other skill as it was.
pub proof fn law_tmp_scoped_by_skill(
    m: Map<(Seq<char>, Seq<char>), (u64, Seq<u8>)>,
    skill: Seq<char>,
    key: Seq<char>,
    entry: (u64, Seq<u8>),
    other: Seq<char>,
    other_key: Seq<char>,
)
    requires
        skill != other,
    ensures
        m.insert((skill, key), entry).get((other, other_key)) == m.get((other, other_key)),
{
}

/// A value set with a positive lifetime reads back until it expires, and
/// not after.
pub proof fn law_set_then_get(
    m: Map<(Seq<char>, Seq<char>), (u64, Seq<u8>)>,
    k: (Seq<char>, Seq<char>),
    v: Seq<u8>,
    set_at: u64,
    expires_sec: u64,
    now: u64,
)
    ensures
        ({
            let m2 = m.insert(k, (set_at.saturating_add(expires_sec), v));
            &&& m2.get(k) == Some((set_at.saturating_add(expires_sec), v))
            &&& (now < set_at.saturating_add(expires_sec) <==> live(m2[k].0, now))
        }),
{
    let m2 = m.insert(k, (set_at.saturating_add(expires_sec), v));
    assert(m2.contains_key(k));
}

} // verus!
