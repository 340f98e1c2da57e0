//! `jeedom` skill: reads sensors, switches on/off devices and drives roller
//! shutters of a Jeedom box over its simple HTTP API.
//!
//! Configuration lists three kinds of equipment, each with the spoken name
//! the user says and the Jeedom command ids behind it: sensors (read),
//! on/off devices (two action commands) and shutters (up/down, optional
//! stop and position slider). Devices and shutters may ask for a spoken
//! confirmation first.
use vstd::prelude::*;
use crate::text::{
    ascii_eq_ignore_case, chars_of, eq_ignore_ascii_case, is_alphanumeric, owned, push_char,
    replace_char, replaced, str_eq, unicode_alphanumeric,
};

pub mod laws;
pub mod phrasing;
pub mod rules;
pub mod resolve;
pub mod schema;
pub mod skill;

verus! {

/// A configured sensor.
#[derive(Debug, Clone)]
pub struct Sensor {
    pub name: String,
    pub id: u64,
    /// Spoken after the value; may be empty.
    pub unit: String,
    /// Room the sensor lives in, e.g. "salon"; empty when unknown. Enables
    /// room-scoped phrasings.
    pub room: String,
    /// `"binary"` switches reading phrasing to on/off labels; anything else
    /// is numeric.
    pub kind: String,
    /// Spoken word for the "on"/true state of a binary sensor.
    pub on_label: String,
    /// Spoken word for the "off"/false state of a binary sensor.
    pub off_label: String,
    /// French connector spoken before the room (« du », « de la », « d' »);
    /// empty keeps the both-genders phrase enumeration.
    pub prefix: String,
}

/// A controllable on/off device: two Jeedom action command ids behind one
/// spoken name.
#[derive(Debug, Clone)]
pub struct ActionDevice {
    pub name: String,
    pub room: String,
    pub prefix: String,
    pub on_id: u64,
    pub off_id: u64,
    /// Ask "Tu confirmes : … ?" and wait for a spoken yes first.
    pub confirm: bool,
}

/// A roller shutter: up/down command ids, with optional stop and position
/// slider commands (0 = not configured).
#[derive(Debug, Clone)]
pub struct Shutter {
    pub name: String,
    pub room: String,
    pub prefix: String,
    pub up_id: u64,
    pub down_id: u64,
    pub stop_id: u64,
    pub slider_id: u64,
    /// Open/close/position ask for confirmation first; stop never does.
    pub confirm: bool,
}

pub struct SensorView {
    pub name: Seq<char>,
    pub id: u64,
    pub unit: Seq<char>,
    pub room: Seq<char>,
    pub kind: Seq<char>,
    pub on_label: Seq<char>,
    pub off_label: Seq<char>,
    pub prefix: Seq<char>,
}

pub struct DeviceView {
    pub name: Seq<char>,
    pub room: Seq<char>,
    pub prefix: Seq<char>,
    pub on_id: u64,
    pub off_id: u64,
    pub confirm: bool,
}

pub struct ShutterView {
    pub name: Seq<char>,
    pub room: Seq<char>,
    pub prefix: Seq<char>,
    pub up_id: u64,
    pub down_id: u64,
    pub stop_id: u64,
    pub slider_id: u64,
    pub confirm: bool,
}

impl View for Sensor {
    type V = SensorView;

    open spec fn view(&self) -> SensorView {
        SensorView {
            name: self.name@,
            id: self.id,
            unit: self.unit@,
            room: self.room@,
            kind: self.kind@,
            on_label: self.on_label@,
            off_label: self.off_label@,
            prefix: self.prefix@,
        }
    }
}

impl View for ActionDevice {
    type V = DeviceView;

    open spec fn view(&self) -> DeviceView {
        DeviceView {
            name: self.name@,
            room: self.room@,
            prefix: self.prefix@,
            on_id: self.on_id,
            off_id: self.off_id,
            confirm: self.confirm,
        }
    }
}

impl View for Shutter {
    type V = ShutterView;

    open spec fn view(&self) -> ShutterView {
        ShutterView {
            name: self.name@,
            room: self.room@,
            prefix: self.prefix@,
            up_id: self.up_id,
            down_id: self.down_id,
            stop_id: self.stop_id,
            slider_id: self.slider_id,
            confirm: self.confirm,
        }
    }
}

pub open spec fn sensors_view(v: Seq<Sensor>) -> Seq<SensorView> {
    v.map_values(|s: Sensor| s@)
}

pub open spec fn devices_view(v: Seq<ActionDevice>) -> Seq<DeviceView> {
    v.map_values(|d: ActionDevice| d@)
}

pub open spec fn shutters_view(v: Seq<Shutter>) -> Seq<ShutterView> {
    v.map_values(|s: Shutter| s@)
}

/// Characters that survive in a spoken field: letters and digits of any
/// script, apostrophes and hyphens.
pub open spec fn speakable(c: char) -> bool {
    unicode_alphanumeric(c) || c == '\'' || c == '-'
}

/// Left-to-right cleaning of `s`: the text kept so far, and whether
/// dropped characters are waiting to become one space.
pub open spec fn clean_state(s: Seq<char>) -> (Seq<char>, bool)
    decreases s.len(),
{
    if s.len() == 0 {
        (seq![], false)
    } else {
        let (out, pending) = clean_state(s.drop_last());
        let c = s.last();
        if speakable(c) {
            ((if pending && out.len() > 0 { out.push(' ') } else { out }).push(c), false)
        } else {
            (out, true)
        }
    }
}

/// `s` with symbol characters (emoji, icons) dropped: the runs of speakable
/// characters, separated by single spaces.
pub open spec fn cleaned(s: Seq<char>) -> Seq<char> {
    clean_state(s).0
}

/// Strips symbol characters (emoji, icons) from a spoken/matchable field.
/// Jeedom discovery can compose names and rooms carrying icons
/// ("salon 🖴"); STT never hears them and TTS should never read them.
pub fn clean_spoken(s: &str) -> (out: String)
    ensures
        out@ == cleaned(s@),
{
    let x = chars_of(s);
    let mut out = String::new();
    let mut pending = false;
    let mut i: usize = 0;
    while i < x.len()
        invariant
            x@ == s@,
            i <= x.len(),
            (out@, pending) == clean_state(s@.take(i as int)),
        decreases x.len() - i,
    {
        let c = x[i];
        assert(s@.take(i + 1).drop_last() == s@.take(i as int));
        if is_alphanumeric(c) || c == '\'' || c == '-' {
            if pending && !out.as_str().is_empty() {
                push_char(&mut out, ' ');
            }
            push_char(&mut out, c);
            pending = false;
        } else {
            pending = true;
        }
        i = i + 1;
    }
    assert(s@.take(x.len() as int) == s@);
    out
}

/// A connector with the typographic apostrophe straightened, then cleaned.
pub open spec fn cleaned_prefix(p: Seq<char>) -> Seq<char> {
    cleaned(replaced(p, '’', '\''))
}

fn clean_prefix(p: &str) -> (out: String)
    ensures
        out@ == cleaned_prefix(p@),
{
    let straight = replace_char(p, '’', '\'');
    clean_spoken(straight.as_str())
}

/// A sensor as configured, with every field that ends up in generated
/// patterns or spoken answers cleaned. The unit is kept as is: "°C" must
/// survive for TTS to read it as degrees.
pub open spec fn clean_sensor_spec(s: SensorView) -> SensorView {
    SensorView {
        name: cleaned(s.name),
        id: s.id,
        unit: s.unit,
        room: cleaned(s.room),
        kind: s.kind,
        on_label: cleaned(s.on_label),
        off_label: cleaned(s.off_label),
        prefix: cleaned_prefix(s.prefix),
    }
}

pub open spec fn clean_device_spec(d: DeviceView) -> DeviceView {
    DeviceView { name: cleaned(d.name), room: cleaned(d.room), prefix: cleaned_prefix(d.prefix), ..d }
}

pub open spec fn clean_shutter_spec(s: ShutterView) -> ShutterView {
    ShutterView { name: cleaned(s.name), room: cleaned(s.room), prefix: cleaned_prefix(s.prefix), ..s }
}

/// Cleans the spoken fields of configured sensors.
pub fn clean_sensors(v: Vec<Sensor>) -> (out: Vec<Sensor>)
    ensures
        out@.len() == v@.len(),
        forall|k: int| 0 <= k < v@.len() ==> (#[trigger] out@[k])@ == clean_sensor_spec(v@[k]@),
{
    let mut out: Vec<Sensor> = Vec::new();
    let mut i: usize = 0;
    while i < v.len()
        invariant
            i <= v.len(),
            out@.len() == i,
            forall|k: int| 0 <= k < i ==> (#[trigger] out@[k])@ == clean_sensor_spec(v@[k]@),
        decreases v.len() - i,
    {
        let s = &v[i];
        let c = Sensor {
            name: clean_spoken(s.name.as_str()),
            id: s.id,
            unit: s.unit.clone(),
            room: clean_spoken(s.room.as_str()),
            kind: s.kind.clone(),
            on_label: clean_spoken(s.on_label.as_str()),
            off_label: clean_spoken(s.off_label.as_str()),
            prefix: clean_prefix(s.prefix.as_str()),
        };
        out.push(c);
        i = i + 1;
    }
    out
}

/// Cleans the spoken fields of configured on/off devices.
pub fn clean_devices(v: Vec<ActionDevice>) -> (out: Vec<ActionDevice>)
    ensures
        out@.len() == v@.len(),
        forall|k: int| 0 <= k < v@.len() ==> (#[trigger] out@[k])@ == clean_device_spec(v@[k]@),
{
    let mut out: Vec<ActionDevice> = Vec::new();
    let mut i: usize = 0;
    while i < v.len()
        invariant
            i <= v.len(),
            out@.len() == i,
            forall|k: int| 0 <= k < i ==> (#[trigger] out@[k])@ == clean_device_spec(v@[k]@),
        decreases v.len() - i,
    {
        let d = &v[i];
        let c = ActionDevice {
            name: clean_spoken(d.name.as_str()),
            room: clean_spoken(d.room.as_str()),
            prefix: clean_prefix(d.prefix.as_str()),
            on_id: d.on_id,
            off_id: d.off_id,
            confirm: d.confirm,
        };
        out.push(c);
        i = i + 1;
    }
    out
}

/// Cleans the spoken fields of configured shutters.
pub fn clean_shutters(v: Vec<Shutter>) -> (out: Vec<Shutter>)
    ensures
        out@.len() == v@.len(),
        forall|k: int| 0 <= k < v@.len() ==> (#[trigger] out@[k])@ == clean_shutter_spec(v@[k]@),
{
    let mut out: Vec<Shutter> = Vec::new();
    let mut i: usize = 0;
    while i < v.len()
        invariant
            i <= v.len(),
            out@.len() == i,
            forall|k: int| 0 <= k < i ==> (#[trigger] out@[k])@ == clean_shutter_spec(v@[k]@),
        decreases v.len() - i,
    {
        let s = &v[i];
        let c = Shutter {
            name: clean_spoken(s.name.as_str()),
            room: clean_spoken(s.room.as_str()),
            prefix: clean_prefix(s.prefix.as_str()),
            up_id: s.up_id,
            down_id: s.down_id,
            stop_id: s.stop_id,
            slider_id: s.slider_id,
            confirm: s.confirm,
        };
        out.push(c);
        i = i + 1;
    }
    out
}

} // verus!
