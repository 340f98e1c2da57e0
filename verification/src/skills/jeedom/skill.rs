//! The jeedom skill itself: its configuration, the Jeedom HTTP calls, the
//! pending-confirmation record and the intent handler.
use vstd::prelude::*;
use vstd::string::*;
use crate::json::{
    JsonKind, json_kind, json_kind_at, json_quote, json_quoted, json_str, json_str_at, json_text, json_text_at,
    json_u64, json_u64_at,
};
use crate::sdk::host::HostCtx;
use crate::sdk::response::{SkillError, SkillResponse, spoken};
use crate::sdk::skill::{Intent, PatternRule, RuleView, Skill, rules_view, slot_lookup};
use crate::skills::jeedom::{
    ActionDevice, DeviceView, Sensor, SensorView, Shutter, ShutterView, clean_device_spec,
    clean_devices, clean_sensor_spec, clean_sensors, clean_shutter_spec, clean_shutters,
    devices_view, sensors_view, shutters_view,
};
use crate::skills::jeedom::phrasing::{
    ShutterCmd, action_label, action_label_spec, ask_position, ask_position_spec, done_text,
    enum_clause, group_answer, group_answer_spec, metric_of, metric_spec, phrase_reading,
    place_of, reading_spec, shutter_label, shutter_label_spec, unreachable_text,
};
use crate::skills::jeedom::resolve::{best_match, lowered_names, resolve_in};
use crate::skills::jeedom::rules::{
    action_rules, action_rules_spec, confirm_rules, confirm_rules_spec, rules_for, rules_for_spec,
    shutter_rules, shutter_rules_spec,
};
use crate::text::{
    cat, cat3, contains, decimal, has_infix, has_prefix, join, joined, owned, parse_u64,
    parse_u64_spec, starts_with, str_eq, strings_view, strip_prefix, trim, trim_end_char,
    trimmed, trimmed_end_char, u64_to_decimal, unicode_lowercase,
};

verus! {

/// The tmp-store key of the pending confirmation.
pub const PENDING_KEY: &'static str = "pending_action";

/// How long a pending confirmation lives, in seconds.
pub const PENDING_TTL_SEC: u64 = 30;

/// A pending confirmation, stored in the skill's tmp store. The tmp store
/// has no delete: "clear" overwrites with an empty payload, and every
/// reader treats an empty payload as absent.
#[derive(Debug, Clone)]
pub struct Pending {
    pub cmd_id: u64,
    pub label: String,
    /// Set for position commands: confirming runs `cmd_id` as a slider.
    pub slider: Option<u64>,
}

pub struct PendingView {
    pub cmd_id: u64,
    pub label: Seq<char>,
    pub slider: Option<u64>,
}

impl View for Pending {
    type V = PendingView;

    open spec fn view(&self) -> PendingView {
        PendingView { cmd_id: self.cmd_id, label: self.label@, slider: self.slider }
    }
}

/// The JSON form of a pending confirmation, as `serde_json` writes the
/// record: `{"cmd_id":N,"label":"…","slider":null}` (or the slider value).
pub open spec fn pending_json(p: PendingView) -> Seq<char> {
    "{\"cmd_id\":"@ + decimal(p.cmd_id as nat) + ",\"label\":"@ + json_quoted(p.label) + ",\"slider\":"@
        + match p.slider {
        Some(v) => decimal(v as nat),
        None => "null"@,
    } + "}"@
}

/// Encodes a pending confirmation as JSON.
pub fn encode_pending(p: &Pending) -> (s: String)
    ensures
        s@ == pending_json(p@),
{
    let mut out = owned("{\"cmd_id\":");
    out.append(u64_to_decimal(p.cmd_id).as_str());
    out.append(",\"label\":");
    out.append(json_quote(p.label.as_str()).as_str());
    out.append(",\"slider\":");
    match p.slider {
        Some(v) => out.append(u64_to_decimal(v).as_str()),
        None => out.append("null"),
    }
    out.append("}");
    assert(out@ =~= pending_json(p@));
    out
}

/// The pending record stored as JSON: an object with an unsigned
/// `cmd_id` and a string `label`, and a `slider` that is missing or null
/// (no slider) or unsigned; `None` for any other bytes.
pub open spec fn pending_decoded(bytes: Seq<u8>) -> Option<PendingView> {
    match (json_u64(bytes, "/cmd_id"@), json_str(bytes, "/label"@)) {
        (Some(cmd_id), Some(label)) => {
            let k = json_kind(bytes, "/slider"@);
            if k == JsonKind::Absent || k == JsonKind::Null {
                Some(PendingView { cmd_id, label, slider: None })
            } else {
                match json_u64(bytes, "/slider"@) {
                    Some(v) => Some(PendingView { cmd_id, label, slider: Some(v) }),
                    None => None,
                }
            }
        },
        _ => None,
    }
}

/// Decodes a stored pending record.
fn decode_pending(bytes: &[u8]) -> (r: Option<Pending>)
    ensures
        match r {
            Some(p) => pending_decoded(bytes@) == Some(p@),
            None => pending_decoded(bytes@) is None,
        },
{
    let cmd_id = match json_u64_at(bytes, "/cmd_id") {
        Some(c) => c,
        None => return None,
    };
    let label = match json_str_at(bytes, "/label") {
        Some(l) => l,
        None => return None,
    };
    let k = json_kind_at(bytes, "/slider");
    let slider = if k == JsonKind::Absent || k == JsonKind::Null {
        None
    } else {
        match json_u64_at(bytes, "/slider") {
            Some(v) => Some(v),
            None => return None,
        }
    };
    Some(Pending { cmd_id, label, slider })
}

/// How a reply renders the value at `ptr`: a string as its text, any
/// other value as its JSON text.
pub open spec fn rendered(body: Seq<u8>, ptr: Seq<char>) -> Option<Seq<char>> {
    if json_kind(body, ptr) == JsonKind::Str { json_str(body, ptr) } else { json_text(body, ptr) }
}

/// What Jeedom's reply body says a command's value is: the top-level
/// `value` field when the reply has one, else the whole reply, each
/// rendered. `None` when the body is not JSON.
pub open spec fn reading_of(body: Seq<u8>) -> Option<Seq<char>> {
    if json_kind(body, ""@) == JsonKind::NotJson {
        None
    } else if json_kind(body, "/value"@) == JsonKind::Absent {
        rendered(body, ""@)
    } else {
        rendered(body, "/value"@)
    }
}

fn render(body: &[u8], ptr: &str) -> (r: Option<String>)
    ensures
        opt_view(r) == rendered(body@, ptr@),
{
    if json_kind_at(body, ptr) == JsonKind::Str { json_str_at(body, ptr) } else { json_text_at(body, ptr) }
}

/// The reading in a Jeedom reply body.
pub fn reading_from(body: &[u8]) -> (r: Option<String>)
    ensures
        opt_view(r) == reading_of(body@),
{
    if json_kind_at(body, "") == JsonKind::NotJson {
        None
    } else if json_kind_at(body, "/value") == JsonKind::Absent {
        render(body, "")
    } else {
        render(body, "/value")
    }
}

/// The simple-API URL of one command id, from the configured base URL and
/// API key; `Err` when either is missing or empty.
pub open spec fn jeedom_url_spec(base: Option<Seq<char>>, api_key: Option<Seq<char>>, id: u64) -> Result<Seq<char>, ()> {
    match (base, api_key) {
        (Some(b), Some(k)) => if b.len() > 0 && k.len() > 0 {
            Ok(trimmed_end_char(b, '/') + "/core/api/jeeApi.php?apikey="@ + k + "&type=cmd&id="@ + decimal(id as nat))
        } else {
            Err(())
        },
        _ => Err(()),
    }
}

pub open spec fn opt_view(o: Option<String>) -> Option<Seq<char>> {
    match o {
        Some(s) => Some(s@),
        None => None,
    }
}

/// Builds the authenticated simple-API URL for one command id.
pub fn jeedom_url_from(base: Option<String>, api_key: Option<String>, id: u64) -> (r: Result<String, ()>)
    ensures
        match jeedom_url_spec(opt_view(base), opt_view(api_key), id) {
            Ok(u) => r matches Ok(s) && s@ == u,
            Err(_) => r is Err,
        },
{
    let base = match base {
        Some(b) => b,
        None => return Err(()),
    };
    let key = match api_key {
        Some(k) => k,
        None => return Err(()),
    };
    if base.as_str().is_empty() || key.as_str().is_empty() {
        return Err(());
    }
    let mut url = trim_end_char(base.as_str(), '/');
    url.append("/core/api/jeeApi.php?apikey=");
    url.append(key.as_str());
    url.append("&type=cmd&id=");
    url.append(u64_to_decimal(id).as_str());
    Ok(url)
}

/// The URL of a command, from the host's configuration (which has no
/// `base_url` nor `api_key` without a guest runtime).
fn jeedom_url(ctx: &HostCtx, id: u64) -> (r: Result<String, ()>)
    ensures
        r is Err,
{
    jeedom_url_from(ctx.config_get_toml("base_url"), ctx.config_get_toml("api_key"), id)
}

/// Executes one Jeedom action command: the same GET as a read; any reply
/// counts as executed.
fn exec_cmd(ctx: &HostCtx, id: u64) -> (r: Result<(), ()>)
    ensures
        r is Err,
{
    let url = jeedom_url(ctx, id)?;
    match ctx.http_get_json(url.as_str()) {
        Ok(_) => Ok(()),
        Err(e) => {
            ctx.log("warn", cat("jeedom: action exec failed: ", e.message().as_str()).as_str());
            Err(())
        },
    }
}

/// Executes a slider command: the same GET with the target as `&slider=`.
fn exec_slider(ctx: &HostCtx, id: u64, value: u64) -> (r: Result<(), ()>)
    ensures
        r is Err,
{
    let url = jeedom_url(ctx, id)?;
    let full = slider_url(url.as_str(), value);
    match ctx.http_get_json(full.as_str()) {
        Ok(_) => Ok(()),
        Err(e) => {
            ctx.log("warn", cat("jeedom: slider exec failed: ", e.message().as_str()).as_str());
            Err(())
        },
    }
}

/// Reads one command value through Jeedom's simple HTTP GET API.
fn read_value(ctx: &HostCtx, sensor: &Sensor) -> (r: Result<String, ()>)
    ensures
        r is Err,
{
    let url = jeedom_url(ctx, sensor.id)?;
    match ctx.http_get_json(url.as_str()) {
        Ok(body) => match reading_from(body.as_slice()) {
            Some(t) => Ok(t),
            None => Err(()),
        },
        Err(e) => {
            ctx.log("warn", cat("jeedom: HTTP failed: ", e.message().as_str()).as_str());
            Err(())
        },
    }
}

/// The pending confirmation in the tmp store, if any.
fn load_pending(ctx: &HostCtx) -> (r: Option<Pending>)
    ensures
        r is None,
{
    let bytes = match ctx.tmp_get(PENDING_KEY) {
        Ok(Some(b)) => b,
        _ => return None,
    };
    read_pending(bytes.as_slice())
}

/// Reads a stored pending record: an empty payload is a cleared one.
pub fn read_pending(bytes: &[u8]) -> (r: Option<Pending>)
    ensures
        bytes@.len() == 0 ==> r is None,
        bytes@.len() > 0 ==> match pending_decoded(bytes@) {
            Some(v) => r matches Some(p) && p@ == v,
            None => r is None,
        },
{
    if bytes.len() == 0 {
        return None;
    }
    decode_pending(bytes)
}

/// Forgets the pending confirmation (overwrites it with an empty payload).
fn clear_pending(ctx: &HostCtx) {
    let empty: Vec<u8> = Vec::new();
    let _ = ctx.tmp_set(PENDING_KEY, empty.as_slice(), 1);
}

/// Remembers a pending confirmation.
fn store_pending(ctx: &HostCtx, p: &Pending) {
    let text = encode_pending(p);
    let _ = ctx.tmp_set(PENDING_KEY, text.as_str().as_bytes(), PENDING_TTL_SEC);
}

/// What an executed command is answered.
pub open spec fn executed_reply(executed: Result<(), ()>, en: bool) -> Seq<char> {
    match executed {
        Ok(_) => done_text(en),
        Err(_) => unreachable_text(en),
    }
}

/// "Done." when the command ran, else the apology.
pub fn done_or_error(executed: Result<(), ()>, en: bool) -> (r: SkillResponse)
    ensures
        spoken(r) == Some(executed_reply(executed, en)),
{
    match executed {
        Ok(()) => SkillResponse::speak(if en { "Done." } else { "C'est fait." }),
        Err(()) => SkillResponse::speak(
            if en {
                "sorry, I can't reach Jeedom right now"
            } else {
                "désolé, je n'arrive pas à joindre Jeedom"
            },
        ),
    }
}

/// What a single reading is answered, given what was read.
pub open spec fn reading_reply(s: SensorView, read: Result<Seq<char>, ()>, en: bool) -> Seq<char> {
    match read {
        Ok(v) => reading_spec(s, v, en),
        Err(_) => unreachable_text(en),
    }
}

/// Phrases the answer to a reading in the session's language.
pub fn reading_answer(sensor: &Sensor, read: Result<String, ()>, en: bool) -> (r: SkillResponse)
    ensures
        spoken(r) == Some(reading_reply(sensor@, match read { Ok(v) => Ok(v@), Err(e) => Err(e) }, en)),
{
    match read {
        Ok(value) => SkillResponse::speak_owned(phrase_reading(sensor, value.as_str(), en)),
        Err(()) => SkillResponse::speak(
            if en {
                "sorry, I can't reach Jeedom right now"
            } else {
                "désolé, je n'arrive pas à joindre Jeedom"
            },
        ),
    }
}

/// The configuration of the skill: its sensors, on/off devices and
/// shutters.
pub struct JeedomSkill {
    sensors: Vec<Sensor>,
    actions: Vec<ActionDevice>,
    shutters: Vec<Shutter>,
}

pub struct JeedomView {
    pub sensors: Seq<SensorView>,
    pub devices: Seq<DeviceView>,
    pub shutters: Seq<ShutterView>,
}

impl View for JeedomSkill {
    type V = JeedomView;

    closed spec fn view(&self) -> JeedomView {
        JeedomView {
            sensors: sensors_view(self.sensors@),
            devices: devices_view(self.actions@),
            shutters: shutters_view(self.shutters@),
        }
    }
}

/// Whether any device or shutter asks for confirmation.
pub open spec fn any_confirm(v: JeedomView) -> bool {
    (exists|i: int| 0 <= i < v.devices.len() && (#[trigger] v.devices[i]).confirm)
        || (exists|i: int| 0 <= i < v.shutters.len() && (#[trigger] v.shutters[i]).confirm)
}

/// All of the skill's match rules for a locale.
pub open spec fn jeedom_rules(v: JeedomView, locale: Seq<char>) -> Seq<RuleView> {
    rules_for_spec(locale, v.sensors) + action_rules_spec(locale, v.devices) + shutter_rules_spec(locale, v.shutters)
        + if any_confirm(v) { confirm_rules_spec(locale) } else { seq![] }
}

/// The index of the first occurrence of `k` in `keys`.
pub open spec fn first_index(keys: Seq<u64>, k: u64) -> Option<int>
    decreases keys.len(),
{
    if keys.len() == 0 {
        None
    } else {
        match first_index(keys.drop_last(), k) {
            Some(i) => Some(i),
            None => if keys.last() == k { Some(keys.len() - 1) } else { None },
        }
    }
}

proof fn lemma_first_index_found(keys: Seq<u64>, k: u64, i: int, n: int)
    requires
        0 <= i < n <= keys.len(),
        first_index(keys.take(i), k) is None,
        keys[i] == k,
    ensures
        first_index(keys.take(n), k) == Some(i),
    decreases n,
{
    if n > i + 1 {
        lemma_first_index_found(keys, k, i, n - 1);
        assert(keys.take(n).drop_last() == keys.take(n - 1));
    } else {
        assert(keys.take(n).drop_last() == keys.take(i));
    }
}

/// The first sensor with an id.
pub open spec fn sensor_with_id(ss: Seq<SensorView>, id: u64) -> Option<int> {
    first_index(ss.map_values(|s: SensorView| s.id), id)
}

/// The first device with an `on_id`.
pub open spec fn device_with_key(ds: Seq<DeviceView>, key: u64) -> Option<int> {
    first_index(ds.map_values(|d: DeviceView| d.on_id), key)
}

/// The first shutter with an `up_id`.
pub open spec fn shutter_with_key(ss: Seq<ShutterView>, key: u64) -> Option<int> {
    first_index(ss.map_values(|s: ShutterView| s.up_id), key)
}

/// The text after a prefix of the intent name, when it has that prefix.
pub open spec fn after(name: Seq<char>, prefix: Seq<char>) -> Option<Seq<char>> {
    if has_prefix(name, prefix) { Some(name.skip(prefix.len() as int)) } else { None }
}

/// The number after a prefix of the intent name.
pub open spec fn key_after(name: Seq<char>, prefix: Seq<char>) -> Option<u64> {
    match after(name, prefix) {
        Some(k) => parse_u64_spec(k),
        None => None,
    }
}

/// The apology for an unknown device.
pub open spec fn unknown_device_text(en: bool) -> Seq<char> {
    if en { "sorry, I don't know that device"@ } else { "désolé, je ne connais pas cet appareil"@ }
}

/// The confirmation question for a label.
pub open spec fn confirm_question(label: Seq<char>, en: bool) -> Seq<char> {
    if en { "Confirm: "@ + label + "?"@ } else { "Tu confirmes : "@ + label + " ?"@ }
}

/// "Nothing to confirm." in the session's language.
pub open spec fn nothing_to_confirm(en: bool) -> Seq<char> {
    if en { "Nothing to confirm."@ } else { "Rien à confirmer."@ }
}

/// The sensors an enumeration covers: those whose metric word is the
/// asked one, or whose name contains it.
pub open spec fn metric_matches(ss: Seq<SensorView>, metric: Seq<char>) -> Seq<SensorView> {
    ss.filter(|s: SensorView| covers_metric(s, metric))
}

/// A sensor's metric word is `metric`, or its name contains it.
pub open spec fn covers_metric(s: SensorView, metric: Seq<char>) -> bool {
    metric_spec(s) == metric || has_infix(s.name, metric)
}

/// The clause for a sensor that could not be read.
pub open spec fn unavailable_clause(s: SensorView, en: bool) -> Seq<char> {
    if en { place_of(s) + " unavailable"@ } else { place_of(s) + " indisponible"@ }
}

/// The shutter command an intent name asks for, with the key after it.
pub open spec fn shutter_intent(name: Seq<char>) -> Option<(Seq<char>, ShutterCmd)> {
    match after(name, "jeedom.shutter_open."@) {
        Some(k) => Some((k, ShutterCmd::Open)),
        None => match after(name, "jeedom.shutter_close."@) {
            Some(k) => Some((k, ShutterCmd::Close)),
            None => match after(name, "jeedom.shutter_stop."@) {
                Some(k) => Some((k, ShutterCmd::Stop)),
                None => match after(name, "jeedom.shutter_pos."@) {
                    Some(k) => Some((k, ShutterCmd::Pos(0))),
                    None => None,
                },
            },
        },
    }
}

/// The command id a shutter command runs.
pub open spec fn shutter_cmd_id(s: ShutterView, cmd: ShutterCmd) -> u64 {
    match cmd {
        ShutterCmd::Open => s.up_id,
        ShutterCmd::Close => s.down_id,
        ShutterCmd::Stop => s.stop_id,
        ShutterCmd::Pos(_) => s.slider_id,
    }
}

/// The spoken sensor name of an intent: its trimmed `sensor` slot.
pub open spec fn asked_sensor(intent: Intent) -> Seq<char> {
    match slot_lookup(intent.slots@, "sensor"@) {
        Some(v) => match v.text {
            Some(t) => trimmed(t),
            None => seq![],
        },
        None => seq![],
    }
}

/// The percentage of an intent's `position` slot.
pub open spec fn position_of(intent: Intent) -> Option<u64> {
    match slot_lookup(intent.slots@, "position"@) {
        Some(v) => v.percent,
        None => None,
    }
}

/// What a device or shutter intent asks of Jeedom.
#[derive(Debug, Clone)]
pub enum JeedomCommand {
    /// Run command `cmd_id` now, as a slider at the value when one is set.
    Run { cmd_id: u64, slider: Option<u64> },
    /// Hold the command until the user confirms; `label` is what the
    /// question names.
    Confirm { cmd_id: u64, slider: Option<u64>, label: String },
}

pub enum JeedomCommandView {
    Run { cmd_id: u64, slider: Option<u64> },
    Confirm { cmd_id: u64, slider: Option<u64>, label: Seq<char> },
}

impl View for JeedomCommand {
    type V = JeedomCommandView;

    open spec fn view(&self) -> JeedomCommandView {
        match self {
            JeedomCommand::Run { cmd_id, slider } => JeedomCommandView::Run { cmd_id: *cmd_id, slider: *slider },
            JeedomCommand::Confirm { cmd_id, slider, label } => JeedomCommandView::Confirm {
                cmd_id: *cmd_id,
                slider: *slider,
                label: label@,
            },
        }
    }
}

/// The command an on/off intent runs: the device whose `on_id` rides in
/// the intent name, its `on_id` to switch on and its `off_id` to switch
/// off, held for confirmation when the device asks for it. `None` for an
/// unknown device.
pub open spec fn turn_plan(v: JeedomView, key: Seq<char>, on: bool, en: bool) -> Option<JeedomCommandView> {
    match (match parse_u64_spec(key) {
        Some(k) => device_with_key(v.devices, k),
        None => None,
    }) {
        None => None,
        Some(i) => {
            let d = v.devices[i];
            let id = if on { d.on_id } else { d.off_id };
            if d.confirm {
                Some(JeedomCommandView::Confirm { cmd_id: id, slider: None, label: action_label_spec(d.name, on, en) })
            } else {
                Some(JeedomCommandView::Run { cmd_id: id, slider: None })
            }
        },
    }
}

/// What a per-shutter intent leads to.
#[derive(Debug, Clone)]
pub enum ShutterPlan {
    /// No such shutter, or it has no id for this command.
    Unknown,
    /// A position command without a position: ask for one.
    AskPosition,
    /// The command to run or to confirm.
    Command(JeedomCommand),
}

pub enum ShutterPlanView {
    Unknown,
    AskPosition,
    Command(JeedomCommandView),
}

impl View for ShutterPlan {
    type V = ShutterPlanView;

    open spec fn view(&self) -> ShutterPlanView {
        match self {
            ShutterPlan::Unknown => ShutterPlanView::Unknown,
            ShutterPlan::AskPosition => ShutterPlanView::AskPosition,
            ShutterPlan::Command(c) => ShutterPlanView::Command(c@),
        }
    }
}

/// The plan of a per-shutter intent: the shutter whose `up_id` rides in
/// the intent name; its up, down, stop or slider id (a position command
/// runs the slider at the asked percentage); held for confirmation when
/// the shutter asks for it, except a stop, which always runs at once.
pub open spec fn shutter_plan(v: JeedomView, key: Seq<char>, cmd0: ShutterCmd, position: Option<u64>, en: bool) -> ShutterPlanView {
    match (match parse_u64_spec(key) {
        Some(k) => shutter_with_key(v.shutters, k),
        None => None,
    }) {
        None => ShutterPlanView::Unknown,
        Some(i) => {
            let s = v.shutters[i];
            if cmd0 is Pos && position is None {
                ShutterPlanView::AskPosition
            } else {
                let cmd = if cmd0 is Pos { ShutterCmd::Pos(position->0) } else { cmd0 };
                let slider = match cmd {
                    ShutterCmd::Pos(p) => Some(p),
                    _ => None,
                };
                if shutter_cmd_id(s, cmd) == 0 {
                    ShutterPlanView::Unknown
                } else if s.confirm && !(cmd is Stop) {
                    ShutterPlanView::Command(JeedomCommandView::Confirm {
                        cmd_id: shutter_cmd_id(s, cmd),
                        slider,
                        label: shutter_label_spec(s.name, cmd, en),
                    })
                } else {
                    ShutterPlanView::Command(JeedomCommandView::Run { cmd_id: shutter_cmd_id(s, cmd), slider })
                }
            }
        },
    }
}

/// What a confirm or cancel intent does with the stored pending record.
#[derive(Debug, Clone, Copy, PartialEq, Eq, Structural)]
pub enum PendingPlan {
    /// Nothing was pending.
    Nothing,
    /// The pending command is dropped.
    Cancel,
    /// The pending command runs, as a slider at the value when one is set.
    Run { cmd_id: u64, slider: Option<u64> },
}

/// Confirming runs the pending command; cancelling drops it; with nothing
/// pending there is nothing to do. Either way a pending record is cleared.
pub open spec fn pending_plan_spec(stored: Option<PendingView>, confirm: bool) -> PendingPlan {
    match stored {
        None => PendingPlan::Nothing,
        Some(p) => if confirm { PendingPlan::Run { cmd_id: p.cmd_id, slider: p.slider } } else { PendingPlan::Cancel },
    }
}

/// The answer to a confirm or cancel intent, given whether the command ran.
pub open spec fn pending_reply_spec(plan: PendingPlan, executed: Result<(), ()>, en: bool) -> Seq<char> {
    match plan {
        PendingPlan::Nothing => nothing_to_confirm(en),
        PendingPlan::Cancel => if en { "Cancelled."@ } else { "Annulé."@ },
        PendingPlan::Run { .. } => executed_reply(executed, en),
    }
}

/// What a confirm or cancel intent does with the stored pending record.
pub fn pending_plan(stored: &Option<Pending>, confirm: bool) -> (r: PendingPlan)
    ensures
        r == pending_plan_spec(match stored { Some(p) => Some(p@), None => None }, confirm),
{
    match stored {
        None => PendingPlan::Nothing,
        Some(p) => if confirm { PendingPlan::Run { cmd_id: p.cmd_id, slider: p.slider } } else { PendingPlan::Cancel },
    }
}

/// The answer to a confirm or cancel intent, given whether the command ran.
pub fn pending_reply(plan: PendingPlan, executed: Result<(), ()>, en: bool) -> (r: SkillResponse)
    ensures
        spoken(r) == Some(pending_reply_spec(plan, executed, en)),
{
    match plan {
        PendingPlan::Nothing => SkillResponse::speak(if en { "Nothing to confirm." } else { "Rien à confirmer." }),
        PendingPlan::Cancel => SkillResponse::speak(if en { "Cancelled." } else { "Annulé." }),
        PendingPlan::Run { .. } => done_or_error(executed, en),
    }
}

/// The command ids a group shutter intent runs: every shutter's `up_id`
/// to open, its `down_id` to close, in order.
pub open spec fn group_ids(ss: Seq<ShutterView>, open: bool) -> Seq<u64> {
    ss.map_values(|s: ShutterView| if open { s.up_id } else { s.down_id })
}

/// The URL of a slider command: the command URL with the target as
/// `&slider=`.
pub open spec fn slider_url_spec(url: Seq<char>, value: u64) -> Seq<char> {
    url + "&slider="@ + decimal(value as nat)
}

/// Appends the slider target to a command URL.
pub fn slider_url(url: &str, value: u64) -> (r: String)
    ensures
        r@ == slider_url_spec(url@, value),
{
    cat3(url, "&slider=", u64_to_decimal(value).as_str())
}

/// What the skill answers an intent, on a host where Jeedom cannot be
/// reached and nothing is pending (the host build of `HostCtx`).
pub open spec fn jeedom_reply(v: JeedomView, intent: Intent) -> Seq<char> {
    let name = intent.name@;
    let en = has_prefix(intent.locale@, "en"@);
    let read_hit = match key_after(name, "jeedom.read."@) {
        Some(id) => sensor_with_id(v.sensors, id),
        None => None,
    };
    if read_hit is Some {
        reading_reply(v.sensors[read_hit->0], Err(()), en)
    } else if after(name, "jeedom.read_all."@) is Some {
        let metric = after(name, "jeedom.read_all."@)->0;
        let matching = metric_matches(v.sensors, metric);
        if matching.len() == 0 {
            if en { "no sensor matches "@ + metric } else { "aucun capteur ne correspond à "@ + metric }
        } else {
            joined(matching.map_values(|s: SensorView| unavailable_clause(s, en)), ", "@)
        }
    } else if after(name, "jeedom.turn_on."@) is Some || after(name, "jeedom.turn_off."@) is Some {
        let on = after(name, "jeedom.turn_on."@) is Some;
        let key = if on { after(name, "jeedom.turn_on."@)->0 } else { after(name, "jeedom.turn_off."@)->0 };
        let hit = match parse_u64_spec(key) {
            Some(k) => device_with_key(v.devices, k),
            None => None,
        };
        match hit {
            None => unknown_device_text(en),
            Some(i) => if v.devices[i].confirm {
                confirm_question(action_label_spec(v.devices[i].name, on, en), en)
            } else {
                unreachable_text(en)
            },
        }
    } else if name == "jeedom.shutter_open_all"@ || name == "jeedom.shutter_close_all"@ {
        if v.shutters.len() == 0 {
            unknown_device_text(en)
        } else {
            group_answer_spec(v.shutters.len(), v.shutters.len(), en)
        }
    } else if shutter_intent(name) is Some {
        let (key, cmd0) = shutter_intent(name)->0;
        let hit = match parse_u64_spec(key) {
            Some(k) => shutter_with_key(v.shutters, k),
            None => None,
        };
        match hit {
            None => unknown_device_text(en),
            Some(i) => {
                let s = v.shutters[i];
                if cmd0 is Pos && position_of(intent) is None {
                    ask_position_spec(en)
                } else {
                    let cmd = if cmd0 is Pos { ShutterCmd::Pos(position_of(intent)->0) } else { cmd0 };
                    if shutter_cmd_id(s, cmd) == 0 {
                        unknown_device_text(en)
                    } else if s.confirm && !(cmd is Stop) {
                        confirm_question(shutter_label_spec(s.name, cmd, en), en)
                    } else {
                        unreachable_text(en)
                    }
                }
            },
        }
    } else if name == "jeedom.confirm"@ || name == "jeedom.cancel"@ {
        nothing_to_confirm(en)
    } else {
        let asked = asked_sensor(intent);
        if asked.len() == 0 {
            if en { "which sensor should I read?"@ } else { "quel capteur dois-je lire ?"@ }
        } else {
            match best_match(v.sensors.map_values(|s: SensorView| unicode_lowercase(s.name)), unicode_lowercase(asked)) {
                None => if en {
                    "sorry, I don't know a sensor called "@ + asked
                } else {
                    "désolé, je ne connais pas de capteur "@ + asked
                },
                Some(i) => reading_reply(v.sensors[i], Err(()), en),
            }
        }
    }
}


impl JeedomSkill {
    /// The skill with nothing configured (what the host gives without a
    /// guest runtime): no sensors, devices nor shutters.
    pub fn new() -> (s: Self)
        ensures
            s@.sensors.len() == 0,
            s@.devices.len() == 0,
            s@.shutters.len() == 0,
    {
        JeedomSkill { sensors: Vec::new(), actions: Vec::new(), shutters: Vec::new() }
    }

    /// The skill configured with these sensors, devices and shutters, their
    /// spoken fields cleaned of symbols.
    pub fn with_config(sensors: Vec<Sensor>, actions: Vec<ActionDevice>, shutters: Vec<Shutter>) -> (s: Self)
        ensures
            s@.sensors.len() == sensors@.len(),
            forall|k: int| 0 <= k < sensors@.len() ==> s@.sensors[k] == clean_sensor_spec(#[trigger] sensors@[k]@),
            s@.devices.len() == actions@.len(),
            forall|k: int| 0 <= k < actions@.len() ==> s@.devices[k] == clean_device_spec(#[trigger] actions@[k]@),
            s@.shutters.len() == shutters@.len(),
            forall|k: int| 0 <= k < shutters@.len() ==> s@.shutters[k] == clean_shutter_spec(#[trigger] shutters@[k]@),
    {
        let s = JeedomSkill {
            sensors: clean_sensors(sensors),
            actions: clean_devices(actions),
            shutters: clean_shutters(shutters),
        };
        s
    }

    /// The configured sensors.
    pub fn sensors(&self) -> (r: &[Sensor])
        ensures
            sensors_view(r@) == self@.sensors,
    {
        self.sensors.as_slice()
    }

    /// The configured on/off devices.
    pub fn actions(&self) -> (r: &[ActionDevice])
        ensures
            devices_view(r@) == self@.devices,
    {
        self.actions.as_slice()
    }

    /// The configured shutters.
    pub fn shutters(&self) -> (r: &[Shutter])
        ensures
            shutters_view(r@) == self@.shutters,
    {
        self.shutters.as_slice()
    }

    fn any_confirm(&self) -> (r: bool)
        ensures
            r == any_confirm(self@),
    {
        let mut i: usize = 0;
        while i < self.actions.len()
            invariant
                i <= self.actions.len(),
                forall|k: int| 0 <= k < i ==> !self.actions@[k].confirm,
            decreases self.actions.len() - i,
        {
            if self.actions[i].confirm {
                assert(self@.devices[i as int].confirm);
                return true;
            }
            i = i + 1;
        }
        let mut j: usize = 0;
        while j < self.shutters.len()
            invariant
                j <= self.shutters.len(),
                forall|k: int| 0 <= k < j ==> !self.shutters@[k].confirm,
            decreases self.shutters.len() - j,
        {
            if self.shutters[j].confirm {
                assert(self@.shutters[j as int].confirm);
                return true;
            }
            j = j + 1;
        }
        assert(!any_confirm(self@)) by {
            assert forall|k: int| 0 <= k < self@.devices.len() implies !(#[trigger] self@.devices[k]).confirm by {
                assert(self@.devices[k] == self.actions@[k]@);
            }
            assert forall|k: int| 0 <= k < self@.shutters.len() implies !(#[trigger] self@.shutters[k]).confirm by {
                assert(self@.shutters[k] == self.shutters@[k]@);
            }
        }
        false
    }

    fn find_sensor(&self, id: u64) -> (r: Option<usize>)
        ensures
            match sensor_with_id(self@.sensors, id) {
                Some(i) => r matches Some(j) && j == i && i < self.sensors@.len(),
                None => r is None,
            },
    {
        let ghost keys = self@.sensors.map_values(|x: SensorView| x.id);
        let mut i: usize = 0;
        while i < self.sensors.len()
            invariant
                i <= self.sensors.len(),
                keys == sensors_view(self.sensors@).map_values(|x: SensorView| x.id),
                first_index(keys.take(i as int), id) is None,
            decreases self.sensors.len() - i,
        {
            assert(keys[i as int] == self.sensors@[i as int].id);
            if self.sensors[i].id == id {
                proof {
                    lemma_first_index_found(keys, id, i as int, keys.len() as int);
                    assert(keys.take(keys.len() as int) == keys);
                }
                return Some(i);
            }
            assert(keys.take(i + 1).drop_last() == keys.take(i as int));
            i = i + 1;
        }
        assert(keys.take(i as int) == keys);
        None
    }

    fn find_device(&self, key: u64) -> (r: Option<usize>)
        ensures
            match device_with_key(self@.devices, key) {
                Some(i) => r matches Some(j) && j == i && i < self.actions@.len(),
                None => r is None,
            },
    {
        let ghost keys = self@.devices.map_values(|x: DeviceView| x.on_id);
        let mut i: usize = 0;
        while i < self.actions.len()
            invariant
                i <= self.actions.len(),
                keys == devices_view(self.actions@).map_values(|x: DeviceView| x.on_id),
                first_index(keys.take(i as int), key) is None,
            decreases self.actions.len() - i,
        {
            assert(keys[i as int] == self.actions@[i as int].on_id);
            if self.actions[i].on_id == key {
                proof {
                    lemma_first_index_found(keys, key, i as int, keys.len() as int);
                    assert(keys.take(keys.len() as int) == keys);
                }
                return Some(i);
            }
            assert(keys.take(i + 1).drop_last() == keys.take(i as int));
            i = i + 1;
        }
        assert(keys.take(i as int) == keys);
        None
    }

    fn find_shutter(&self, key: u64) -> (r: Option<usize>)
        ensures
            match shutter_with_key(self@.shutters, key) {
                Some(i) => r matches Some(j) && j == i && i < self.shutters@.len(),
                None => r is None,
            },
    {
        let ghost keys = self@.shutters.map_values(|x: ShutterView| x.up_id);
        let mut i: usize = 0;
        while i < self.shutters.len()
            invariant
                i <= self.shutters.len(),
                keys == shutters_view(self.shutters@).map_values(|x: ShutterView| x.up_id),
                first_index(keys.take(i as int), key) is None,
            decreases self.shutters.len() - i,
        {
            assert(keys[i as int] == self.shutters@[i as int].up_id);
            if self.shutters[i].up_id == key {
                proof {
                    lemma_first_index_found(keys, key, i as int, keys.len() as int);
                    assert(keys.take(keys.len() as int) == keys);
                }
                return Some(i);
            }
            assert(keys.take(i + 1).drop_last() == keys.take(i as int));
            i = i + 1;
        }
        assert(keys.take(i as int) == keys);
        None
    }

    /// Reads every sensor sharing a metric word ("toutes les températures").
    fn enumerate(&self, ctx: &HostCtx, metric: &str, en: bool) -> (r: String)
        ensures
            r@ == (if metric_matches(self@.sensors, metric@).len() == 0 {
                if en { "no sensor matches "@ + metric@ } else { "aucun capteur ne correspond à "@ + metric@ }
            } else {
                joined(metric_matches(self@.sensors, metric@).map_values(|s: SensorView| unavailable_clause(s, en)), ", "@)
            }),
    {
        let ghost ss = self@.sensors;
        let mut clauses: Vec<String> = Vec::new();
        let mut i: usize = 0;
        while i < self.sensors.len()
            invariant
                i <= self.sensors.len(),
                ss == sensors_view(self.sensors@),
                strings_view(clauses@) == metric_matches(ss.take(i as int), metric@).map_values(
                    |s: SensorView| unavailable_clause(s, en),
                ),
            decreases self.sensors.len() - i,
        {
            let s = &self.sensors[i];
            assert(ss.take(i + 1).drop_last() == ss.take(i as int));
            assert(ss.take(i + 1).last() == s@);
            let m = metric_of(s);
            proof {
                reveal(Seq::filter);
            }
            assert(metric_matches(ss.take(i + 1), metric@) == if covers_metric(s@, metric@) {
                metric_matches(ss.take(i as int), metric@).push(s@)
            } else {
                metric_matches(ss.take(i as int), metric@)
            });
            if str_eq(m.as_str(), metric) || contains(s.name.as_str(), metric) {
                let ghost before = strings_view(clauses@);
                match read_value(ctx, s) {
                    Ok(v) => clauses.push(enum_clause(s, v.as_str(), en)),
                    Err(()) => {
                        let place = if s.room.as_str().is_empty() { s.name.as_str() } else { s.room.as_str() };
                        clauses.push(cat(place, if en { " unavailable" } else { " indisponible" }));
                    },
                }
                assert(strings_view(clauses@) =~= before.push(unavailable_clause(s@, en)));
            }
            i = i + 1;
        }
        assert(ss.take(i as int) == ss);
        if clauses.len() == 0 {
            return cat(if en { "no sensor matches " } else { "aucun capteur ne correspond à " }, metric);
        }
        join(clauses.as_slice(), ", ")
    }

    /// Asks for confirmation of a command: remembers it as pending and
    /// phrases the question.
    fn ask_confirmation(ctx: &HostCtx, cmd_id: u64, label: String, slider: Option<u64>, en: bool) -> (r: SkillResponse)
        ensures
            spoken(r) == Some(confirm_question(label@, en)),
    {
        let question = if en {
            cat3("Confirm: ", label.as_str(), "?")
        } else {
            cat3("Tu confirmes : ", label.as_str(), " ?")
        };
        let pending = Pending { cmd_id, label, slider };
        store_pending(ctx, &pending);
        SkillResponse::speak_owned(question)
    }

    fn unknown_device(en: bool) -> (r: SkillResponse)
        ensures
            spoken(r) == Some(unknown_device_text(en)),
    {
        SkillResponse::speak(if en { "sorry, I don't know that device" } else { "désolé, je ne connais pas cet appareil" })
    }

    /// On/off device intents: the key riding in the intent name is the
    /// device's `on_id`, for both directions.
    fn handle_turn(&self, ctx: &HostCtx, key: &str, on: bool, en: bool) -> (r: SkillResponse)
        ensures
            spoken(r) == Some(
                match (match parse_u64_spec(key@) {
                    Some(k) => device_with_key(self@.devices, k),
                    None => None,
                }) {
                    None => unknown_device_text(en),
                    Some(i) => if self@.devices[i].confirm {
                        confirm_question(action_label_spec(self@.devices[i].name, on, en), en)
                    } else {
                        unreachable_text(en)
                    },
                },
            ),
    {
        match self.turn_command(key, on, en) {
            None => Self::unknown_device(en),
            Some(JeedomCommand::Confirm { cmd_id, slider, label }) => Self::ask_confirmation(ctx, cmd_id, label, slider, en),
            Some(JeedomCommand::Run { cmd_id, .. }) => done_or_error(exec_cmd(ctx, cmd_id), en),
        }
    }

    /// The command an on/off intent runs, or `None` for an unknown device.
    pub fn turn_command(&self, key: &str, on: bool, en: bool) -> (r: Option<JeedomCommand>)
        ensures
            match r {
                Some(c) => turn_plan(self@, key@, on, en) == Some(c@),
                None => turn_plan(self@, key@, on, en) is None,
            },
    {
        let k = match parse_u64(key) {
            Some(k) => k,
            None => return None,
        };
        let i = match self.find_device(k) {
            Some(i) => i,
            None => return None,
        };
        let d = &self.actions[i];
        assert(self@.devices[i as int] == d@);
        let cmd_id = if on { d.on_id } else { d.off_id };
        if d.confirm {
            Some(JeedomCommand::Confirm { cmd_id, slider: None, label: action_label(d, on, en) })
        } else {
            Some(JeedomCommand::Run { cmd_id, slider: None })
        }
    }

    /// Group shutter intents run every configured shutter (no confirmation:
    /// the command names its full scope already).
    fn handle_group(&self, ctx: &HostCtx, open: bool, en: bool) -> (r: SkillResponse)
        ensures
            spoken(r) == Some(
                if self@.shutters.len() == 0 {
                    unknown_device_text(en)
                } else {
                    group_answer_spec(self@.shutters.len(), self@.shutters.len(), en)
                },
            ),
    {
        if self.shutters.len() == 0 {
            return Self::unknown_device(en);
        }
        let ids = self.group_commands(open);
        let mut failed: usize = 0;
        let mut i: usize = 0;
        while i < ids.len()
            invariant
                i <= ids.len(),
                failed == i,
            decreases ids.len() - i,
        {
            if exec_cmd(ctx, ids[i]).is_err() {
                failed = failed + 1;
            }
            i = i + 1;
        }
        SkillResponse::speak_owned(group_answer(self.shutters.len(), failed, en))
    }

    /// The command ids a group shutter intent runs, in order.
    pub fn group_commands(&self, open: bool) -> (r: Vec<u64>)
        ensures
            r@ == group_ids(self@.shutters, open),
    {
        let ghost ss = self@.shutters;
        let mut ids: Vec<u64> = Vec::new();
        let mut i: usize = 0;
        while i < self.shutters.len()
            invariant
                i <= self.shutters.len(),
                ss == shutters_view(self.shutters@),
                ids@ == group_ids(ss.take(i as int), open),
            decreases self.shutters.len() - i,
        {
            let s = &self.shutters[i];
            assert(ss.take(i + 1) == ss.take(i as int).push(s@));
            ids.push(if open { s.up_id } else { s.down_id });
            assert(ids@ =~= group_ids(ss.take(i + 1), open));
            i = i + 1;
        }
        assert(ss.take(i as int) == ss);
        ids
    }

    /// Per-shutter intents: the key riding in the intent name is `up_id`.
    fn handle_shutter(&self, ctx: &HostCtx, key: &str, cmd0: ShutterCmd, position: Option<u64>, en: bool) -> (r: SkillResponse)
        ensures
            spoken(r) == Some(
                match (match parse_u64_spec(key@) {
                    Some(k) => shutter_with_key(self@.shutters, k),
                    None => None,
                }) {
                    None => unknown_device_text(en),
                    Some(i) => {
                        let s = self@.shutters[i];
                        if cmd0 is Pos && position is None {
                            ask_position_spec(en)
                        } else {
                            let cmd = if cmd0 is Pos { ShutterCmd::Pos(position->0) } else { cmd0 };
                            if shutter_cmd_id(s, cmd) == 0 {
                                unknown_device_text(en)
                            } else if s.confirm && !(cmd is Stop) {
                                confirm_question(shutter_label_spec(s.name, cmd, en), en)
                            } else {
                                unreachable_text(en)
                            }
                        }
                    },
                },
            ),
    {
        match self.shutter_command(key, cmd0, position, en) {
            ShutterPlan::Unknown => Self::unknown_device(en),
            ShutterPlan::AskPosition => SkillResponse::speak(ask_position(en)),
            ShutterPlan::Command(JeedomCommand::Confirm { cmd_id, slider, label }) => {
                Self::ask_confirmation(ctx, cmd_id, label, slider, en)
            },
            ShutterPlan::Command(JeedomCommand::Run { cmd_id, slider }) => {
                let executed = match slider {
                    Some(v) => exec_slider(ctx, cmd_id, v),
                    None => exec_cmd(ctx, cmd_id),
                };
                done_or_error(executed, en)
            },
        }
    }

    /// What a per-shutter intent leads to.
    pub fn shutter_command(&self, key: &str, cmd0: ShutterCmd, position: Option<u64>, en: bool) -> (r: ShutterPlan)
        ensures
            r@ == shutter_plan(self@, key@, cmd0, position, en),
    {
        let hit = match parse_u64(key) {
            Some(k) => self.find_shutter(k),
            None => None,
        };
        let i = match hit {
            Some(i) => i,
            None => return ShutterPlan::Unknown,
        };
        let s = &self.shutters[i];
        assert(self@.shutters[i as int] == s@);
        let cmd = match cmd0 {
            ShutterCmd::Pos(_) => match position {
                Some(p) => ShutterCmd::Pos(p),
                None => return ShutterPlan::AskPosition,
            },
            other => other,
        };
        let cmd_id = match cmd {
            ShutterCmd::Open => s.up_id,
            ShutterCmd::Close => s.down_id,
            ShutterCmd::Stop => s.stop_id,
            ShutterCmd::Pos(_) => s.slider_id,
        };
        if cmd_id == 0 {
            return ShutterPlan::Unknown;
        }
        let is_stop = match cmd {
            ShutterCmd::Stop => true,
            _ => false,
        };
        let slider = match cmd {
            ShutterCmd::Pos(v) => Some(v),
            _ => None,
        };
        if s.confirm && !is_stop {
            ShutterPlan::Command(JeedomCommand::Confirm { cmd_id, slider, label: shutter_label(s.name.as_str(), &cmd, en) })
        } else {
            ShutterPlan::Command(JeedomCommand::Run { cmd_id, slider })
        }
    }

    /// The spoken confirmation or cancellation of the pending command.
    fn handle_pending(&self, ctx: &HostCtx, confirm: bool, en: bool) -> (r: SkillResponse)
        ensures
            spoken(r) == Some(nothing_to_confirm(en)),
    {
        let stored = load_pending(ctx);
        if stored.is_some() {
            clear_pending(ctx);
        }
        let plan = pending_plan(&stored, confirm);
        let executed = match plan {
            PendingPlan::Run { cmd_id, slider: Some(v) } => exec_slider(ctx, cmd_id, v),
            PendingPlan::Run { cmd_id, slider: None } => exec_cmd(ctx, cmd_id),
            _ => Err(()),
        };
        pending_reply(plan, executed, en)
    }

    /// Resolves the spoken sensor name and reads it.
    fn handle_asked(&self, ctx: &HostCtx, intent: &Intent, en: bool) -> (r: SkillResponse)
        ensures
            spoken(r) == Some({
                let asked = asked_sensor(*intent);
                if asked.len() == 0 {
                    if en { "which sensor should I read?"@ } else { "quel capteur dois-je lire ?"@ }
                } else {
                    match best_match(self@.sensors.map_values(|s: SensorView| unicode_lowercase(s.name)), unicode_lowercase(asked)) {
                        None => if en {
                            "sorry, I don't know a sensor called "@ + asked
                        } else {
                            "désolé, je ne connais pas de capteur "@ + asked
                        },
                        Some(i) => reading_reply(self@.sensors[i], Err(()), en),
                    }
                }
            }),
    {
        let asked = match intent.slot_text("sensor") {
            Some(t) => trim(t.as_str()),
            None => String::new(),
        };
        assert(asked@ == asked_sensor(*intent));
        if asked.as_str().is_empty() {
            return SkillResponse::speak(if en { "which sensor should I read?" } else { "quel capteur dois-je lire ?" });
        }
        assert(lowered_names(self.sensors@) =~= self@.sensors.map_values(|s: SensorView| unicode_lowercase(s.name)));
        match resolve_in(self.sensors.as_slice(), asked.as_str()) {
            None => SkillResponse::speak_owned(
                if en {
                    cat("sorry, I don't know a sensor called ", asked.as_str())
                } else {
                    cat("désolé, je ne connais pas de capteur ", asked.as_str())
                },
            ),
            Some(i) => {
                let s = &self.sensors[i];
                assert(self@.sensors[i as int] == s@);
                let read = read_value(ctx, s);
                reading_answer(s, read, en)
            },
        }
    }
}

impl Skill for JeedomSkill {
    fn name(&self) -> (n: &str)
        ensures
            n@ == "jeedom"@,
    {
        "jeedom"
    }

    fn pattern_rules(&self, locale: &str) -> (rules: Vec<PatternRule>)
        ensures
            rules_view(rules@) == jeedom_rules(self@, locale@),
    {
        let mut rules = rules_for(locale, self.sensors.as_slice());
        let ghost r1 = rules_view(rules@);
        let mut a = action_rules(locale, self.actions.as_slice());
        let ghost r2 = rules_view(a@);
        rules.append(&mut a);
        assert(rules_view(rules@) =~= r1 + r2);
        let mut s = shutter_rules(locale, self.shutters.as_slice());
        let ghost r3 = rules_view(s@);
        rules.append(&mut s);
        assert(rules_view(rules@) =~= r1 + r2 + r3);
        if self.any_confirm() {
            let mut c = confirm_rules(locale);
            let ghost r4 = rules_view(c@);
            rules.append(&mut c);
            assert(rules_view(rules@) =~= r1 + r2 + r3 + r4);
        } else {
            assert(r1 + r2 + r3 =~= r1 + r2 + r3 + seq![]);
        }
        rules
    }

    fn handle(&mut self, intent: Intent, ctx: &mut HostCtx) -> (r: Result<SkillResponse, SkillError>)
        ensures
            final(self)@ == old(self)@,
            r matches Ok(resp) && spoken(resp) == Some(jeedom_reply(old(self)@, intent)),
    {
        let en = starts_with(intent.locale.as_str(), "en");
        let name = intent.name.as_str();
        let c: &HostCtx = ctx;

        // Per-sensor literal rules carry the id in the intent name.
        if let Some(id_text) = strip_prefix(name, "jeedom.read.") {
            if let Some(id) = parse_u64(id_text.as_str()) {
                if let Some(i) = self.find_sensor(id) {
                    let s = &self.sensors[i];
                    assert(self@.sensors[i as int] == s@);
                    let read = read_value(c, s);
                    return Ok(reading_answer(s, read, en));
                }
            }
        }

        // Enumeration intents read every sensor sharing a metric.
        if let Some(metric) = strip_prefix(name, "jeedom.read_all.") {
            return Ok(SkillResponse::speak_owned(self.enumerate(c, metric.as_str(), en)));
        }

        let turn = match strip_prefix(name, "jeedom.turn_on.") {
            Some(k) => Some((k, true)),
            None => match strip_prefix(name, "jeedom.turn_off.") {
                Some(k) => Some((k, false)),
                None => None,
            },
        };
        if let Some((key, on)) = turn {
            return Ok(self.handle_turn(c, key.as_str(), on, en));
        }

        if str_eq(name, "jeedom.shutter_open_all") || str_eq(name, "jeedom.shutter_close_all") {
            let open = str_eq(name, "jeedom.shutter_open_all");
            return Ok(self.handle_group(c, open, en));
        }

        let shutter_cmd = match strip_prefix(name, "jeedom.shutter_open.") {
            Some(k) => Some((k, ShutterCmd::Open)),
            None => match strip_prefix(name, "jeedom.shutter_close.") {
                Some(k) => Some((k, ShutterCmd::Close)),
                None => match strip_prefix(name, "jeedom.shutter_stop.") {
                    Some(k) => Some((k, ShutterCmd::Stop)),
                    None => match strip_prefix(name, "jeedom.shutter_pos.") {
                        Some(k) => Some((k, ShutterCmd::Pos(0))),
                        None => None,
                    },
                },
            },
        };
        if let Some((key, cmd)) = shutter_cmd {
            let position = match intent.slot("position") {
                Some(v) => v.percent,
                None => None,
            };
            return Ok(self.handle_shutter(c, key.as_str(), cmd, position, en));
        }

        if str_eq(name, "jeedom.confirm") {
            return Ok(self.handle_pending(c, true, en));
        }
        if str_eq(name, "jeedom.cancel") {
            return Ok(self.handle_pending(c, false, en));
        }

        Ok(self.handle_asked(c, &intent, en))
    }
}

} // verus!
