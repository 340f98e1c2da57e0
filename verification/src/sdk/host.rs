//! The skill's view of its host: configuration, local time, storage, MQTT
//! and HTTP. This is the host-side build of the context, used by host
//! tests and host tools: every host call answers as the host does when no
//! guest runtime is attached (no config, no stored values, HTTP refused).
use vstd::prelude::*;
use crate::sdk::response::SkillError;
use crate::json::{json_error_message, json_str_field, json_syntax_error, json_value, read_json_str};
use crate::text::{cat, cat3, i64_to_decimal, owned, signed_decimal};

verus! {

/// Parsed view of the skill's INI config bytes returned by the host.
pub struct IniSlice {
    pub data: Vec<u8>,
}

/// What the `ini` crate reads for `key` in `section` of the INI text whose
/// UTF-8 bytes are `data` (`macro_safe_read`, then the section lowercased,
/// then the key); `None` when the bytes are not UTF-8 or not INI, or the
/// section, key or value is missing.
pub uninterp spec fn ini_lookup(data: Seq<u8>, section: Seq<char>, key: Seq<char>) -> Option<Seq<char>>;

/// The state of the INI reader at a point of the text: on the current
/// line, whether a comment started (`;` or `#`), whether a `[` was seen
/// before it, whether a `]` was, and whether a `]` came after a `[`; and
/// whether an earlier line was malformed.
#[derive(Clone, Copy)]
pub struct IniScan {
    pub comment: bool,
    pub open: bool,
    pub close: bool,
    pub close_after_open: bool,
    pub bad: bool,
}

/// A line whose last `]` comes before its first `[` (outside comments):
/// the `ini` parser slices the section name between them and panics.
pub open spec fn line_malformed(s: IniScan) -> bool {
    s.open && s.close && !s.close_after_open
}

/// The reader state after one more byte.
pub open spec fn ini_step(s: IniScan, b: u8) -> IniScan {
    if b == 10 {
        IniScan { comment: false, open: false, close: false, close_after_open: false, bad: s.bad || line_malformed(s) }
    } else if s.comment {
        s
    } else if b == 59 || b == 35 {
        IniScan { comment: true, ..s }
    } else if b == 91 {
        IniScan { open: true, ..s }
    } else if b == 93 {
        IniScan { close: true, close_after_open: s.close_after_open || s.open, ..s }
    } else {
        s
    }
}

/// The reader state after `data`.
pub open spec fn ini_scan(data: Seq<u8>) -> IniScan
    decreases data.len(),
{
    if data.len() == 0 {
        IniScan { comment: false, open: false, close: false, close_after_open: false, bad: false }
    } else {
        ini_step(ini_scan(data.drop_last()), data.last())
    }
}

/// Some line of `data` is malformed. The brackets, comment marks and line
/// feeds are ASCII, so reading the bytes finds the same lines as reading
/// the UTF-8 text.
pub open spec fn ini_malformed(data: Seq<u8>) -> bool {
    ini_scan(data).bad || line_malformed(ini_scan(data))
}

fn ini_step_exec(s: IniScan, b: u8) -> (r: IniScan)
    ensures
        r == ini_step(s, b),
{
    if b == 10 {
        IniScan {
            comment: false,
            open: false,
            close: false,
            close_after_open: false,
            bad: s.bad || (s.open && s.close && !s.close_after_open),
        }
    } else if s.comment {
        s
    } else if b == 59 || b == 35 {
        IniScan { comment: true, ..s }
    } else if b == 91 {
        IniScan { open: true, ..s }
    } else if b == 93 {
        IniScan { close: true, close_after_open: s.close_after_open || s.open, ..s }
    } else {
        s
    }
}

/// Whether some line of `data` is malformed.
pub fn is_ini_malformed(data: &[u8]) -> (r: bool)
    ensures
        r == ini_malformed(data@),
{
    let mut s = IniScan { comment: false, open: false, close: false, close_after_open: false, bad: false };
    let mut i: usize = 0;
    while i < data.len()
        invariant
            i <= data.len(),
            s == ini_scan(data@.take(i as int)),
        decreases data.len() - i,
    {
        assert(data@.take(i + 1).drop_last() == data@.take(i as int));
        s = ini_step_exec(s, data[i]);
        i = i + 1;
    }
    assert(data@.take(i as int) == data@);
    s.bad || (s.open && s.close && !s.close_after_open)
}

/// Parses `data` with `std::str::from_utf8` and `ini::macro_safe_read`,
/// then looks up the lowercased `section` and `key`; the result is named
/// `ini_lookup`. The parser panics on a malformed line, so such data is
/// left out.
#[verifier::external_body]
fn ini_read(data: &[u8], section: &str, key: &str) -> (r: Option<String>)
    requires
        !ini_malformed(data@),
    ensures
        r matches Some(v) ==> ini_lookup(data@, section@, key@) == Some(v@),
        r is None ==> ini_lookup(data@, section@, key@) is None,
{
    let text = std::str::from_utf8(data).ok()?;
    let map = ini::macro_safe_read(text).ok()?;
    map.get(&section.to_lowercase())?.get(key).cloned().flatten()
}

impl IniSlice {
    /// Wraps raw INI bytes (as served by the host) for parsing.
    pub fn from_bytes(data: Vec<u8>) -> (s: Self)
        ensures
            s.data@ == data@,
    {
        IniSlice { data }
    }

    /// The value of `key` in `section` (section names are case-insensitive).
    /// Data with a malformed line (its last `]` before its first `[`), on
    /// which the parser would panic, is refused: it has no value.
    pub fn value(&self, section: &str, key: &str) -> (r: Option<String>)
        ensures
            ini_malformed(self.data@) ==> r is None,
            !ini_malformed(self.data@) ==> (r matches Some(v) ==> ini_lookup(self.data@, section@, key@) == Some(v@)),
            !ini_malformed(self.data@) ==> (r is None ==> ini_lookup(self.data@, section@, key@) is None),
    {
        if is_ini_malformed(&self.data) {
            return None;
        }
        ini_read(&self.data, section, key)
    }
}

/// Local wall-clock time served by the host: UTC milliseconds plus the
/// user's timezone offset.
#[derive(Debug, Clone, Copy)]
pub struct LocalTime {
    /// Milliseconds since the unix epoch (UTC).
    pub epoch_ms: i64,
    /// Local timezone offset from UTC in seconds (positive east of GMT).
    pub offset_sec: i32,
}

/// Local seconds since the epoch: whole UTC seconds (milliseconds divided
/// by 1000, rounding toward zero) plus the offset.
pub open spec fn local_secs_spec(t: LocalTime) -> int {
    let ms = t.epoch_ms as int;
    let secs = if ms >= 0 { ms / 1000 } else { -((-ms) / 1000) };
    secs + t.offset_sec as int
}

fn rem_euclid(x: i128, m: i128) -> (r: i128)
    requires
        m > 0,
        -0x1_0000_0000_0000_0000 < x < 0x1_0000_0000_0000_0000,
        m < 0x1_0000_0000,
    ensures
        r == x % m,
{
    if x >= 0 {
        x % m
    } else {
        let k = (-x) % m;
        let r = if k == 0 { 0 } else { m - k };
        assert(r == x % m) by (nonlinear_arith)
            requires k as int == (-(x as int)) % (m as int), r == (if k == 0 { 0 } else { m - k }), x < 0, m > 0;
        r
    }
}

impl LocalTime {
    fn local_secs(&self) -> (s: i128)
        ensures
            s == local_secs_spec(*self),
    {
        let ms = self.epoch_ms as i128;
        let secs = if ms >= 0 { ms / 1000 } else { -((-ms) / 1000) };
        secs + self.offset_sec as i128
    }

    /// Local hour of day, 0–23.
    pub fn hour(&self) -> (h: u8)
        ensures
            h == local_secs_spec(*self) % 86_400 / 3_600,
    {
        let r = rem_euclid(self.local_secs(), 86_400);
        (r / 3_600) as u8
    }

    /// Local minute of hour, 0–59.
    pub fn minute(&self) -> (m: u8)
        ensures
            m == local_secs_spec(*self) % 3_600 / 60,
    {
        let r = rem_euclid(self.local_secs(), 3_600);
        (r / 60) as u8
    }
}

/// What a guest makes of the bytes a store read (`host_tmp_get`,
/// `host_state_get`) returns: empty bytes mean a missing or expired value.
pub open spec fn stored_value(bytes: Seq<u8>) -> Option<Seq<u8>> {
    if bytes.len() == 0 { None } else { Some(bytes) }
}

/// Reads the bytes a store read returned.
pub fn stored_bytes(bytes: Vec<u8>) -> (r: Option<Vec<u8>>)
    ensures
        match r {
            Some(b) => stored_value(bytes@) == Some(b@),
            None => stored_value(bytes@) is None,
        },
{
    if bytes.len() == 0 { None } else { Some(bytes) }
}

/// Reads the bytes the config read (`host_config_get`) returned: empty
/// bytes mean no config for this skill, else the INI text, unchanged.
pub fn config_from_bytes(bytes: Vec<u8>) -> (r: Option<IniSlice>)
    ensures
        match r {
            Some(c) => bytes@.len() > 0 && c.data@ == bytes@,
            None => bytes@.len() == 0,
        },
{
    if bytes.len() == 0 { None } else { Some(IniSlice { data: bytes }) }
}

/// What a guest makes of an HTTP reply (`host_http_get_json`): bytes that
/// are not JSON fail with `decode: ` and the parser's message; an error
/// envelope (a string `error` field) fails with its message; anything else
/// is the JSON body.
pub open spec fn http_result(bytes: Seq<u8>) -> Result<Seq<u8>, Seq<char>> {
    if !json_value(bytes) {
        Err("decode: "@ + json_error_message(bytes))
    } else {
        match json_str_field(bytes, "error"@) {
            Some(m) => Err(m),
            None => Ok(bytes),
        }
    }
}

/// Reads the bytes of an HTTP reply.
pub fn http_reply(bytes: &[u8]) -> (r: Result<Vec<u8>, SkillError>)
    ensures
        match http_result(bytes@) {
            Ok(b) => r matches Ok(v) && v@ == b,
            Err(m) => r matches Err(SkillError::HttpFailed(e)) && e@ == m,
        },
{
    if let Some(m) = json_syntax_error(bytes) {
        return Err(SkillError::HttpFailed(cat("decode: ", m.as_str())));
    }
    match read_json_str(bytes, "error") {
        Some(m) => Err(SkillError::HttpFailed(m)),
        None => Ok(vstd::slice::slice_to_vec(bytes)),
    }
}

/// A value of the legacy config map (served as a JSON object): the string
/// under `key`, if any.
pub fn toml_value(bytes: &[u8], key: &str) -> (r: Option<String>)
    ensures
        match json_str_field(bytes@, key@) {
            Some(v) => r matches Some(s) && s@ == v,
            None => r is None,
        },
{
    read_json_str(bytes, key)
}

/// The error of a publish outside the skill's topic namespace.
pub open spec fn acl_message(topic: Seq<char>) -> Seq<char> {
    "topic "@ + topic + " outside skill ACL namespace"@
}

/// What a publish's result code (`host_mqtt_publish`) means: 0 sent, 1
/// refused by the skill's topic ACL, 2 a client error; any other code is
/// unknown.
pub open spec fn publish_result(topic: Seq<char>, code: i64) -> Result<(), Seq<char>> {
    if code == 0 {
        Ok(())
    } else if code == 1 {
        Err(acl_message(topic))
    } else if code == 2 {
        Err("mqtt client error"@)
    } else {
        Err("unknown mqtt result code "@ + signed_decimal(code as int))
    }
}

/// Reads a publish's result code.
pub fn mqtt_publish_result(topic: &str, code: i64) -> (r: Result<(), SkillError>)
    ensures
        match publish_result(topic@, code) {
            Ok(()) => r is Ok,
            Err(m) => r matches Err(SkillError::MqttFailed(e)) && e@ == m,
        },
{
    if code == 0 {
        Ok(())
    } else if code == 1 {
        Err(SkillError::MqttFailed(cat3("topic ", topic, " outside skill ACL namespace")))
    } else if code == 2 {
        Err(SkillError::MqttFailed(owned("mqtt client error")))
    } else {
        Err(SkillError::MqttFailed(cat("unknown mqtt result code ", i64_to_decimal(code).as_str())))
    }
}

/// The unsigned value of little-endian bytes.
pub open spec fn le_value(b: Seq<u8>) -> nat
    decreases b.len(),
{
    if b.len() == 0 { 0 } else { b[0] as nat + 256 * le_value(b.drop_first()) }
}

/// The `i64` whose little-endian two's-complement bytes are the 8 bytes `b`.
pub open spec fn le_i64(b: Seq<u8>) -> int {
    if le_value(b) < 0x8000_0000_0000_0000 { le_value(b) as int } else { le_value(b) - 0x1_0000_0000_0000_0000 }
}

proof fn lemma_le_value_bound(b: Seq<u8>)
    ensures
        le_value(b) < crate::text::pow256(b.len() as int),
    decreases b.len(),
{
    if b.len() > 0 {
        lemma_le_value_bound(b.drop_first());
        assert(crate::text::pow256(b.len() as int) == 256 * crate::text::pow256(b.len() - 1));
    }
}

/// What a schedule reply (`host_schedule_mqtt`) means: 8 little-endian
/// bytes holding the scheduled event's row id when non-negative, -1 for a
/// topic outside the skill's ACL, -2 for a scheduler store error; any
/// other reply is an error.
pub open spec fn schedule_result(topic: Seq<char>, reply: Seq<u8>) -> Result<i64, Seq<char>> {
    if reply.len() != 8 {
        Err("malformed schedule_mqtt reply"@)
    } else {
        let c = le_i64(reply);
        if c == -1 {
            Err(acl_message(topic))
        } else if c == -2 {
            Err("scheduler store error"@)
        } else if c >= 0 {
            Ok(c as i64)
        } else {
            Err("unknown schedule_mqtt result code "@ + signed_decimal(c))
        }
    }
}

/// Reads a schedule reply.
pub fn schedule_mqtt_result(topic: &str, reply: &[u8]) -> (r: Result<i64, SkillError>)
    ensures
        match schedule_result(topic@, reply@) {
            Ok(id) => r == Ok::<i64, SkillError>(id),
            Err(m) => r matches Err(SkillError::MqttFailed(e)) && e@ == m,
        },
{
    if reply.len() != 8 {
        return Err(SkillError::MqttFailed(owned("malformed schedule_mqtt reply")));
    }
    let mut v: u64 = 0;
    let mut i: usize = 8;
    while i > 0
        invariant
            reply@.len() == 8,
            i <= 8,
            v == le_value(reply@.subrange(i as int, 8)),
            v < crate::text::pow256(8 - i),
        decreases i,
    {
        let ghost rest = reply@.subrange(i as int, 8);
        assert(reply@.subrange(i - 1, 8).drop_first() == rest);
        proof {
            lemma_le_value_bound(rest);
            assert(crate::text::pow256(9 - i) == 256 * crate::text::pow256(8 - i));
            assert(crate::text::pow256(8 - i) <= 0x100_0000_0000_0000) by {
                lemma_pow256_mono(8 - i, 7);
                lemma_pow256_7();
            }
            assert(v * 256 + 255 < 0x1_0000_0000_0000_0000) by (nonlinear_arith)
                requires v < crate::text::pow256(8 - i), crate::text::pow256(8 - i) <= 0x100_0000_0000_0000;
            assert(v * 256 + reply@[i - 1] < 256 * crate::text::pow256(8 - i)) by (nonlinear_arith)
                requires v < crate::text::pow256(8 - i), reply@[i - 1] < 256;
        }
        v = v * 256 + reply[i - 1] as u64;
        i = i - 1;
    }
    assert(reply@.subrange(0, 8) == reply@);
    let code: i64 = if v < 0x8000_0000_0000_0000 {
        v as i64
    } else {
        ((v - 0x8000_0000_0000_0000) as i64) - 0x7fff_ffff_ffff_ffff - 1
    };
    if code == -1 {
        Err(SkillError::MqttFailed(cat3("topic ", topic, " outside skill ACL namespace")))
    } else if code == -2 {
        Err(SkillError::MqttFailed(owned("scheduler store error")))
    } else if code >= 0 {
        Ok(code)
    } else {
        Err(SkillError::MqttFailed(cat("unknown schedule_mqtt result code ", i64_to_decimal(code).as_str())))
    }
}

proof fn lemma_pow256_7()
    ensures
        crate::text::pow256(7) == 0x100_0000_0000_0000,
{
    assert(crate::text::pow256(0) == 1);
    assert(crate::text::pow256(1) == 0x100);
    assert(crate::text::pow256(2) == 0x1_0000);
    assert(crate::text::pow256(3) == 0x100_0000);
    assert(crate::text::pow256(4) == 0x1_0000_0000);
    assert(crate::text::pow256(5) == 0x100_0000_0000);
    assert(crate::text::pow256(6) == 0x1_0000_0000_0000);
}

proof fn lemma_pow256_mono(i: int, j: int)
    requires
        0 <= i <= j,
    ensures
        crate::text::pow256(i) <= crate::text::pow256(j),
    decreases j - i,
{
    if i < j {
        lemma_pow256_mono(i, j - 1);
        assert(crate::text::pow256(j) == 256 * crate::text::pow256(j - 1));
    }
}

pub struct HostCtx {
    skill_name: String,
    /// The MQTT messages handed to the host through `publish`, in order.
    sent: Ghost<Seq<(Seq<char>, Seq<u8>)>>,
}

impl View for HostCtx {
    type V = Seq<char>;

    /// The skill name the context is bound to.
    closed spec fn view(&self) -> Seq<char> {
        self.skill_name@
    }
}

/// The error `http_get_json` answers with when no guest runtime is attached.
pub open spec fn http_unwired_message() -> Seq<char> {
    "HostCtx::http_get_json only wired on wasm guest"@
}

impl HostCtx {
    /// A context with no skill name.
    pub fn for_testing() -> (c: Self)
        ensures
            c@ == Seq::<char>::empty(),
            c.published() == Seq::<(Seq<char>, Seq<u8>)>::empty(),
    {
        HostCtx { skill_name: String::new(), sent: Ghost(Seq::empty()) }
    }

    /// A context bound to `skill_name`, which scopes the tmp namespace.
    pub fn for_guest(skill_name: &str) -> (c: Self)
        ensures
            c@ == skill_name@,
            c.published() == Seq::<(Seq<char>, Seq<u8>)>::empty(),
    {
        HostCtx { skill_name: owned(skill_name), sent: Ghost(Seq::empty()) }
    }

    /// The MQTT messages (topic, payload) this context has handed to the
    /// host through `publish`, in order.
    pub closed spec fn published(&self) -> Seq<(Seq<char>, Seq<u8>)> {
        self.sent@
    }

    /// Publishes a message on MQTT under the skill's namespace, as
    /// `mqtt_publish` does, and records it among the published messages.
    pub fn publish(&mut self, topic: &str, payload: &[u8]) -> (r: Result<(), SkillError>)
        ensures
            final(self)@ == old(self)@,
            final(self).published() == old(self).published().push((topic@, payload@)),
            r is Ok,
    {
        let r = self.mqtt_publish(topic, payload);
        proof {
            self.sent@ = self.sent@.push((topic@, payload@));
        }
        r
    }

    /// The skill name this context is bound to (empty for `for_testing`).
    pub fn skill_name(&self) -> (s: &str)
        ensures
            s@ == self@,
    {
        self.skill_name.as_str()
    }

    /// Emits a structured log line; nothing to do without a guest runtime.
    pub fn log(&self, level: &str, msg: &str) {
    }

    /// The skill's INI config: none without a guest runtime.
    pub fn config_get(&self) -> (r: Result<Option<IniSlice>, SkillError>)
        ensures
            r matches Ok(None),
    {
        Ok(None)
    }

    /// A config value scoped to this skill: none without a guest runtime.
    pub fn config_get_toml(&self, key: &str) -> (r: Option<String>)
        ensures
            r is None,
    {
        None
    }

    /// The host's local time: the unix epoch without a guest runtime.
    pub fn local_time(&self) -> (r: Result<LocalTime, SkillError>)
        ensures
            r matches Ok(t) && t.epoch_ms == 0 && t.offset_sec == 0,
    {
        Ok(LocalTime { epoch_ms: 0, offset_sec: 0 })
    }

    /// Stores a short-lived value; accepted and dropped without a guest
    /// runtime.
    pub fn tmp_set(&self, key: &str, val: &[u8], expires_sec: u64) -> (r: Result<(), SkillError>)
        ensures
            r is Ok,
    {
        Ok(())
    }

    /// Reads a short-lived value: nothing without a guest runtime.
    pub fn tmp_get(&self, key: &str) -> (r: Result<Option<Vec<u8>>, SkillError>)
        ensures
            r matches Ok(None),
    {
        Ok(None)
    }

    /// Reads from the per-skill KV store: nothing without a guest runtime.
    pub fn state_get(&self, key: &str) -> (r: Result<Option<Vec<u8>>, SkillError>)
        ensures
            r matches Ok(None),
    {
        Ok(None)
    }

    /// Writes to the per-skill KV store; accepted and dropped.
    pub fn state_set(&self, key: &str, val: &[u8]) -> (r: Result<(), SkillError>)
        ensures
            r is Ok,
    {
        Ok(())
    }

    /// Publishes on MQTT under the skill's namespace; accepted and dropped.
    pub fn mqtt_publish(&self, topic: &str, payload: &[u8]) -> (r: Result<(), SkillError>)
        ensures
            r is Ok,
    {
        Ok(())
    }

    /// Fetches JSON from an allowlisted URL, as the raw JSON body: refused
    /// without a guest runtime.
    pub fn http_get_json(&self, url: &str) -> (r: Result<Vec<u8>, SkillError>)
        ensures
            r matches Err(SkillError::HttpFailed(m)) && m@ == http_unwired_message(),
    {
        Err(SkillError::HttpFailed(owned("HostCtx::http_get_json only wired on wasm guest")))
    }

    /// Schedules a future MQTT publish, returning the scheduled event's id:
    /// id 0 without a guest runtime.
    pub fn schedule_mqtt(&self, fires_at_ms: i64, topic: &str, payload: &[u8]) -> (r: Result<i64, SkillError>)
        ensures
            r == Ok::<i64, SkillError>(0),
    {
        Ok(0)
    }

    /// Plays raw PCM samples (IEEE-754 bit patterns of `f32`); accepted and
    /// dropped.
    pub fn play_pcm(&self, sample_rate: u32, samples: &[u32]) -> (r: Result<(), SkillError>)
        ensures
            r is Ok,
    {
        Ok(())
    }

    /// Plays Opus-encoded frames; accepted and dropped.
    pub fn play_opus(&self, frames: &[u8]) -> (r: Result<(), SkillError>)
        ensures
            r is Ok,
    {
        Ok(())
    }
}

} // verus!
