//! MQTT session state machine for the `athena/sat/<id>/session/<uuid>/…`
//! satellite protocol.
//!
//! Hardware-free by design: inputs in, commands out. The firmware owns the
//! I2S/MQTT/GPIO handles and executes the commands.
use vstd::prelude::*;
use vstd::string::*;
use crate::json::{json_bool_field, json_str_field, json_u64_field, read_json_bool, read_json_str, read_json_u64};
use crate::text::{cat, cat3, cat5, has_prefix, owned, str_eq, strip_prefix, utf8};

verus! {

/// Hard cap on how long one utterance may stream before the satellite
/// force-closes it (the runtime also has its own VAD).
pub const UTTERANCE_MAX_MS: u64 = 10_000;

/// How long to wait for the runtime's reply (transcript/tts/done) before
/// giving up and returning to idle.
pub const REPLY_TIMEOUT_MS: u64 = 30_000;

#[derive(Debug)]
pub enum Input {
    /// Button press (or wake word detection).
    Trigger,
    /// One captured mic frame, s16le mono 16 kHz bytes.
    MicFrame(Vec<u8>),
    /// End of utterance detected by the mic's silence tracker.
    SilenceDetected,
    /// Any MQTT message received on the subscribed filters.
    Inbound { topic: String, payload: Vec<u8> },
    /// Periodic timer, drives the timeout transitions.
    Tick,
}

#[derive(Debug)]
pub enum Command {
    Publish { topic: String, payload: Vec<u8> },
    ConfigureSpeaker { sample_rate: u32 },
    Play(Vec<u8>),
    /// What STT heard.
    ShowTranscript { text: String, is_final: bool },
    /// The spoken answer as text, from `tts/text`.
    ShowAnswer(String),
    /// Back to idle.
    SessionEnded,
}

#[derive(Debug, PartialEq, Eq, Structural, Clone, Copy)]
pub enum State {
    Idle,
    Streaming,
    AwaitingReply,
    Playing,
}

pub struct Session {
    sat_id: String,
    locale: String,
    state: State,
    sid: Option<String>,
    deadline_ms: Option<u64>,
}

/// Mathematical form of an input.
pub enum InputView {
    Trigger,
    MicFrame(Seq<u8>),
    SilenceDetected,
    Inbound { topic: Seq<char>, payload: Seq<u8> },
    Tick,
}

/// Mathematical form of a command.
pub enum CommandView {
    Publish { topic: Seq<char>, payload: Seq<u8> },
    ConfigureSpeaker { sample_rate: u32 },
    Play(Seq<u8>),
    ShowTranscript { text: Seq<char>, is_final: bool },
    ShowAnswer(Seq<char>),
    SessionEnded,
}

/// Mathematical form of a session.
pub struct SessionView {
    pub sat_id: Seq<char>,
    pub locale: Seq<char>,
    pub state: State,
    pub sid: Option<Seq<char>>,
    pub deadline_ms: Option<u64>,
}

impl View for Input {
    type V = InputView;

    open spec fn view(&self) -> InputView {
        match self {
            Input::Trigger => InputView::Trigger,
            Input::MicFrame(b) => InputView::MicFrame(b@),
            Input::SilenceDetected => InputView::SilenceDetected,
            Input::Inbound { topic, payload } => InputView::Inbound { topic: topic@, payload: payload@ },
            Input::Tick => InputView::Tick,
        }
    }
}

impl View for Command {
    type V = CommandView;

    open spec fn view(&self) -> CommandView {
        match self {
            Command::Publish { topic, payload } => CommandView::Publish { topic: topic@, payload: payload@ },
            Command::ConfigureSpeaker { sample_rate } => CommandView::ConfigureSpeaker { sample_rate: *sample_rate },
            Command::Play(b) => CommandView::Play(b@),
            Command::ShowTranscript { text, is_final } => CommandView::ShowTranscript { text: text@, is_final: *is_final },
            Command::ShowAnswer(t) => CommandView::ShowAnswer(t@),
            Command::SessionEnded => CommandView::SessionEnded,
        }
    }
}

impl View for Session {
    type V = SessionView;

    closed spec fn view(&self) -> SessionView {
        SessionView {
            sat_id: self.sat_id@,
            locale: self.locale@,
            state: self.state,
            sid: match self.sid { Some(s) => Some(s@), None => None },
            deadline_ms: self.deadline_ms,
        }
    }
}

/// The commands of a batch, each by its view.
pub open spec fn commands_view(v: Seq<Command>) -> Seq<CommandView> {
    v.map_values(|c: Command| c@)
}

// ---------------------------------------------------------------------------
// Outside calls: a fresh session id, and reading fields of JSON payloads.
// ---------------------------------------------------------------------------

/// A character of a hyphenated lowercase UUID.
pub open spec fn uuid_char(c: char) -> bool {
    c == '-' || ('0' <= c <= '9') || ('a' <= c <= 'f')
}

/// The hyphenated lowercase form of a UUID: 36 characters, hyphens at 8,
/// 13, 18 and 23, lowercase hex elsewhere.
pub open spec fn uuid_shaped(id: Seq<char>) -> bool {
    &&& id.len() == 36
    &&& forall|i: int| 0 <= i < 36 ==> uuid_char(#[trigger] id[i])
    &&& id[8] == '-' && id[13] == '-' && id[18] == '-' && id[23] == '-'
}

/// Calls `uuid::Uuid::new_v4` and renders it with `to_string`. The value is
/// random; what holds of every outcome is the hyphenated lowercase form:
/// 36 characters, hyphens at 8, 13, 18 and 23, lowercase hex elsewhere.
#[verifier::external_body]
fn new_session_id() -> (id: String)
    ensures
        id@.len() == 36,
        forall|i: int| 0 <= i < 36 ==> uuid_char(#[trigger] id@[i]),
        id@[8] == '-' && id@[13] == '-' && id@[18] == '-' && id@[23] == '-',
{
    uuid::Uuid::new_v4().to_string()
}

/// The UTF-8 bytes of a string.
pub fn string_bytes(s: &String) -> (b: Vec<u8>)
    ensures
        b@ == utf8(s@),
{
    vstd::slice::slice_to_vec(s.as_str().as_bytes())
}

// ---------------------------------------------------------------------------
// The protocol, stated over views.
// ---------------------------------------------------------------------------

/// `athena/sat/<sat>/session/<sid>/`, the root of one session's topics.
pub open spec fn session_prefix(sat: Seq<char>, sid: Seq<char>) -> Seq<char> {
    "athena/sat/"@ + sat + "/session/"@ + sid + "/"@
}

/// `athena/sat/<sat>/session/<sid>/<suffix>`.
pub open spec fn session_topic(sat: Seq<char>, sid: Seq<char>, suffix: Seq<char>) -> Seq<char> {
    session_prefix(sat, sid) + suffix
}

/// The five response filters a satellite subscribes to.
pub open spec fn subscription_filters(sat: Seq<char>) -> Seq<Seq<char>> {
    let base = "athena/sat/"@ + sat + "/session/+"@;
    seq![
        base + "/transcript"@,
        base + "/tts"@,
        base + "/tts/meta"@,
        base + "/tts/text"@,
        base + "/done"@,
    ]
}

/// The JSON body of a `start` message.
pub open spec fn start_payload(locale: Seq<char>) -> Seq<char> {
    "{\"locale\":\""@ + locale + "\"}"@
}

/// Every state but `Idle` belongs to a session with an id and a deadline;
/// `Idle` has neither.
pub open spec fn session_inv(s: SessionView) -> bool {
    &&& ((s.state == State::Idle) <==> (s.sid is None))
    &&& ((s.sid is None) <==> (s.deadline_ms is None))
}

/// The session after `finish`: idle, with no id and no deadline.
pub open spec fn finished(s: SessionView) -> SessionView {
    SessionView { state: State::Idle, sid: None, deadline_ms: None, ..s }
}

/// End of utterance from the `Streaming` state: an empty audio message
/// closes the upload and the reply timeout starts.
pub open spec fn end_utterance_spec(s: SessionView, now: u64) -> (SessionView, Seq<CommandView>) {
    if s.state != State::Streaming {
        (s, seq![])
    } else {
        (
            SessionView { state: State::AwaitingReply, deadline_ms: Some((now + REPLY_TIMEOUT_MS) as u64), ..s },
            seq![CommandView::Publish { topic: session_topic(s.sat_id, s.sid.unwrap(), "audio"@), payload: seq![] }],
        )
    }
}

/// A response message under the current session's topics.
pub open spec fn inbound_spec(s: SessionView, topic: Seq<char>, payload: Seq<u8>) -> (SessionView, Seq<CommandView>) {
    if !(s.state == State::AwaitingReply || s.state == State::Playing) || s.sid is None {
        (s, seq![])
    } else if !has_prefix(topic, session_prefix(s.sat_id, s.sid.unwrap())) {
        (s, seq![])
    } else {
        let suffix = topic.skip(session_prefix(s.sat_id, s.sid.unwrap()).len() as int);
        if suffix == "tts/meta"@ {
            let playing = SessionView { state: State::Playing, ..s };
            match json_u64_field(payload, "sample_rate"@) {
                Some(r) => if r <= u32::MAX {
                    (playing, seq![CommandView::ConfigureSpeaker { sample_rate: r as u32 }])
                } else {
                    (playing, seq![])
                },
                None => (playing, seq![]),
            }
        } else if suffix == "tts"@ {
            (SessionView { state: State::Playing, ..s }, seq![CommandView::Play(payload)])
        } else if suffix == "done"@ {
            (finished(s), seq![CommandView::SessionEnded])
        } else if suffix == "transcript"@ {
            match json_str_field(payload, "text"@) {
                Some(t) => (s, seq![CommandView::ShowTranscript {
                    text: t,
                    is_final: match json_bool_field(payload, "is_final"@) { Some(b) => b, None => false },
                }]),
                None => (s, seq![]),
            }
        } else if suffix == "tts/text"@ {
            match json_str_field(payload, "text"@) {
                Some(t) => (s, seq![CommandView::ShowAnswer(t)]),
                None => (s, seq![]),
            }
        } else {
            (s, seq![])
        }
    }
}

/// The timer: once the deadline has passed, a streaming utterance is closed
/// and a session waiting for (or playing) its reply is abandoned.
pub open spec fn tick_spec(s: SessionView, now: u64) -> (SessionView, Seq<CommandView>) {
    let expired = match s.deadline_ms { Some(d) => now > d, None => false };
    if !expired {
        (s, seq![])
    } else if s.state == State::Idle {
        (s, seq![])
    } else if s.state == State::Streaming {
        end_utterance_spec(s, now)
    } else {
        (finished(s), seq![CommandView::SessionEnded])
    }
}

/// One step of the protocol: the next session and the commands to run.
/// `fresh` is the session id a trigger opens (a random UUID).
pub open spec fn step(s: SessionView, input: InputView, now: u64, fresh: Seq<char>) -> (SessionView, Seq<CommandView>) {
    match input {
        InputView::Trigger => if s.state != State::Idle {
            (s, seq![])
        } else {
            (
                SessionView { state: State::Streaming, sid: Some(fresh), deadline_ms: Some((now + UTTERANCE_MAX_MS) as u64), ..s },
                seq![CommandView::Publish {
                    topic: session_topic(s.sat_id, fresh, "start"@),
                    payload: utf8(start_payload(s.locale)),
                }],
            )
        },
        InputView::MicFrame(bytes) => if s.state != State::Streaming {
            (s, seq![])
        } else {
            (s, seq![CommandView::Publish { topic: session_topic(s.sat_id, s.sid.unwrap(), "audio"@), payload: bytes }])
        },
        InputView::SilenceDetected => end_utterance_spec(s, now),
        InputView::Inbound { topic, payload } => inbound_spec(s, topic, payload),
        InputView::Tick => tick_spec(s, now),
    }
}

/// The millisecond clock leaves room for the deadline an input sets: a
/// trigger while idle sets `now + UTTERANCE_MAX_MS`; the end of speech
/// while streaming, or a tick past the deadline while streaming, sets
/// `now + REPLY_TIMEOUT_MS`. Every other input sets no deadline.
pub open spec fn clock_fits(s: SessionView, input: InputView, now: u64) -> bool {
    match input {
        InputView::Trigger => s.state == State::Idle ==> now + UTTERANCE_MAX_MS <= u64::MAX,
        InputView::SilenceDetected => s.state == State::Streaming ==> now + REPLY_TIMEOUT_MS <= u64::MAX,
        InputView::Tick => (s.state == State::Streaming && (s.deadline_ms matches Some(d) && now > d))
            ==> now + REPLY_TIMEOUT_MS <= u64::MAX,
        _ => true,
    }
}

// ---------------------------------------------------------------------------
// Laws of the protocol.
// ---------------------------------------------------------------------------

/// Every step keeps the session invariant: a session id and a deadline
/// exactly when the satellite is not idle.
pub proof fn law_step_keeps_invariant(s: SessionView, input: InputView, now: u64, fresh: Seq<char>)
    requires
        session_inv(s),
    ensures
        session_inv(step(s, input, now, fresh).0),
{
}

/// A trigger while a session is under way is ignored: no command, no change.
pub proof fn law_trigger_while_busy_is_ignored(s: SessionView, now: u64, fresh: Seq<char>)
    requires
        s.state != State::Idle,
    ensures
        step(s, InputView::Trigger, now, fresh) == (s, Seq::<CommandView>::empty()),
{
}

/// An input the current state does not take (a trigger while a session is
/// under way, audio or end of speech while not streaming, a reply while
/// none is awaited or playing) produces no command and leaves the session,
/// its id included, as it was.
pub proof fn law_ignored_inputs_change_nothing(s: SessionView, input: InputView, now: u64, fresh: Seq<char>)
    requires
        match input {
            InputView::Trigger => s.state != State::Idle,
            InputView::MicFrame(_) => s.state != State::Streaming,
            InputView::SilenceDetected => s.state != State::Streaming,
            InputView::Inbound { .. } => !(s.state == State::AwaitingReply || s.state == State::Playing),
            InputView::Tick => false,
        },
    ensures
        step(s, input, now, fresh) == (s, Seq::<CommandView>::empty()),
{
}

/// The end of speech gives the runtime `REPLY_TIMEOUT_MS` to answer: from
/// streaming at time `t`, the session awaits its reply with the deadline
/// `t + REPLY_TIMEOUT_MS`, and every tick up to that deadline leaves it
/// waiting, with no command.
pub proof fn law_reply_gets_its_timeout(s: SessionView, t: u64, now: u64, fresh: Seq<char>)
    requires
        s.state == State::Streaming,
        t + REPLY_TIMEOUT_MS <= u64::MAX,
    ensures
        step(s, InputView::SilenceDetected, t, fresh).0.state == State::AwaitingReply,
        step(s, InputView::SilenceDetected, t, fresh).0.deadline_ms == Some((t + REPLY_TIMEOUT_MS) as u64),
        step(s, InputView::SilenceDetected, t, fresh).0.sid == s.sid,
        now <= t + REPLY_TIMEOUT_MS ==> step(step(s, InputView::SilenceDetected, t, fresh).0, InputView::Tick, now, fresh)
            == (step(s, InputView::SilenceDetected, t, fresh).0, Seq::<CommandView>::empty()),
{
}

/// Mic frames are forwarded only while streaming; otherwise they are dropped.
pub proof fn law_mic_frames_only_while_streaming(s: SessionView, bytes: Seq<u8>, now: u64, fresh: Seq<char>)
    ensures
        s.state != State::Streaming ==> step(s, InputView::MicFrame(bytes), now, fresh) == (s, Seq::<CommandView>::empty()),
        s.state == State::Streaming ==> step(s, InputView::MicFrame(bytes), now, fresh).1
            == seq![CommandView::Publish { topic: session_topic(s.sat_id, s.sid.unwrap(), "audio"@), payload: bytes }],
{
}

/// A message whose topic is not under the current session's topics leaves
/// the session unchanged and produces no command.
pub proof fn law_foreign_topic_is_ignored(s: SessionView, topic: Seq<char>, payload: Seq<u8>, now: u64, fresh: Seq<char>)
    requires
        s.sid matches Some(sid) ==> !has_prefix(topic, session_prefix(s.sat_id, sid)),
    ensures
        step(s, InputView::Inbound { topic, payload }, now, fresh) == (s, Seq::<CommandView>::empty()),
{
}

/// `done` on the current session while a reply is awaited or playing ends
/// the session: back to idle, with `SessionEnded`.
pub proof fn law_done_ends_session(s: SessionView, payload: Seq<u8>, now: u64, fresh: Seq<char>)
    requires
        s.state == State::AwaitingReply || s.state == State::Playing,
        s.sid is Some,
    ensures
        step(s, InputView::Inbound { topic: session_topic(s.sat_id, s.sid.unwrap(), "done"@), payload }, now, fresh)
            == (finished(s), seq![CommandView::SessionEnded]),
{
    reveal_strlit("done");
    reveal_strlit("tts/meta");
    reveal_strlit("tts");
    let p = session_prefix(s.sat_id, s.sid.unwrap());
    let t = session_topic(s.sat_id, s.sid.unwrap(), "done"@);
    assert(t.take(p.len() as int) =~= p);
    assert(t.skip(p.len() as int) =~= "done"@);
}

/// Once its deadline has passed, a session waiting for or playing its reply
/// is abandoned, and a streaming utterance is closed with an empty audio
/// message.
pub proof fn law_deadline_forces_progress(s: SessionView, now: u64, fresh: Seq<char>)
    requires
        s.deadline_ms matches Some(d) && now > d,
    ensures
        (s.state == State::AwaitingReply || s.state == State::Playing)
            ==> step(s, InputView::Tick, now, fresh) == (finished(s), seq![CommandView::SessionEnded]),
        s.state == State::Streaming ==> step(s, InputView::Tick, now, fresh) == end_utterance_spec(s, now),
{
}

/// No subscription filter is the `athena/sat/<id>/#` wildcard, under which
/// the broker would echo the satellite's own audio back to it.
pub proof fn law_no_wildcard_subscription(sat: Seq<char>)
    ensures
        forall|i: int| 0 <= i < 5 ==> #[trigger] subscription_filters(sat)[i] != "athena/sat/"@ + sat + "/#"@,
{
    reveal_strlit("athena/sat/");
    reveal_strlit("/#");
    reveal_strlit("/session/+");
    let w = "athena/sat/"@ + sat + "/#"@;
    let base = "athena/sat/"@ + sat + "/session/+"@;
    let k: int = ("athena/sat/"@ + sat).len() as int + 1;
    assert(w[k] == '#');
    assert(base[k] == 's');
    assert forall|i: int| 0 <= i < 5 implies #[trigger] subscription_filters(sat)[i] != w by {
        let f = subscription_filters(sat)[i];
        assert(f[k] == base[k]);
    }
}

impl Session {
    /// The session's state, by its view.
    pub open spec fn inv(&self) -> bool {
        session_inv(self@)
    }

    /// A new, idle session of satellite `sat_id` speaking `locale`.
    pub fn new(sat_id: &str, locale: &str) -> (s: Self)
        ensures
            s@ == (SessionView { sat_id: sat_id@, locale: locale@, state: State::Idle, sid: None, deadline_ms: None }),
            s.inv(),
    {
        Session { sat_id: owned(sat_id), locale: owned(locale), state: State::Idle, sid: None, deadline_ms: None }
    }

    /// The current protocol state.
    pub fn state(&self) -> (r: &State)
        ensures
            *r == self@.state,
    {
        &self.state
    }

    /// The five response filters the firmware subscribes to once at
    /// connect. Never the `athena/sat/<id>/#` wildcard: the broker would
    /// echo the satellite's own audio stream back at it.
    pub fn subscriptions(sat_id: &str) -> (r: [String; 5])
        ensures
            r@.map_values(|t: String| t@) == subscription_filters(sat_id@),
    {
        let base = cat3("athena/sat/", sat_id, "/session/+");
        let r = [
            cat(base.as_str(), "/transcript"),
            cat(base.as_str(), "/tts"),
            cat(base.as_str(), "/tts/meta"),
            cat(base.as_str(), "/tts/text"),
            cat(base.as_str(), "/done"),
        ];
        assert(r@.map_values(|t: String| t@) =~= subscription_filters(sat_id@));
        r
    }

    /// Feeds one input at time `now_ms` (milliseconds since boot) and
    /// returns the commands to execute, in order.
    pub fn handle(&mut self, input: Input, now_ms: u64) -> (cmds: Vec<Command>)
        requires
            old(self).inv(),
            clock_fits(old(self)@, input@, now_ms),
        ensures
            final(self).inv(),
            final(self)@.sat_id == old(self)@.sat_id,
            final(self)@.locale == old(self)@.locale,
            exists|fresh: Seq<char>| #![trigger step(old(self)@, input@, now_ms, fresh)]
                (final(self)@, commands_view(cmds@)) == step(old(self)@, input@, now_ms, fresh)
                && (input@ is Trigger && old(self)@.state == State::Idle ==> final(self)@.sid == Some(fresh)
                && uuid_shaped(fresh)),
    {
        let ghost input_v = input@;
        match input {
            Input::Trigger => {
                let cmds = self.on_trigger(now_ms);
                cmds
            }
            Input::MicFrame(bytes) => {
                let cmds = self.on_mic_frame(bytes);
                assert(step(old(self)@, input_v, now_ms, seq![]) == (self@, commands_view(cmds@)));
                cmds
            }
            Input::SilenceDetected => {
                let cmds = self.end_utterance(now_ms);
                assert(step(old(self)@, input_v, now_ms, seq![]) == (self@, commands_view(cmds@)));
                cmds
            }
            Input::Inbound { topic, payload } => {
                let cmds = self.on_inbound(&topic, payload, now_ms);
                assert(step(old(self)@, input_v, now_ms, seq![]) == (self@, commands_view(cmds@)));
                cmds
            }
            Input::Tick => {
                let cmds = self.on_tick(now_ms);
                assert(step(old(self)@, input_v, now_ms, seq![]) == (self@, commands_view(cmds@)));
                cmds
            }
        }
    }

    fn topic(&self, suffix: &str) -> (t: String)
        requires
            self.sid is Some,
        ensures
            t@ == session_topic(self.sat_id@, self.sid.unwrap()@, suffix@),
    {
        let sid = match &self.sid {
            Some(s) => s.as_str(),
            None => "",
        };
        let mut t = cat5("athena/sat/", self.sat_id.as_str(), "/session/", sid, "/");
        t.append(suffix);
        t
    }

    fn on_trigger(&mut self, now_ms: u64) -> (cmds: Vec<Command>)
        requires
            old(self).inv(),
            old(self)@.state == State::Idle ==> now_ms + UTTERANCE_MAX_MS <= u64::MAX,
        ensures
            final(self).inv(),
            exists|fresh: Seq<char>| #![trigger step(old(self)@, InputView::Trigger, now_ms, fresh)]
                (final(self)@, commands_view(cmds@)) == step(old(self)@, InputView::Trigger, now_ms, fresh)
                && (old(self)@.state == State::Idle ==> final(self)@.sid == Some(fresh) && uuid_shaped(fresh)),
    {
        if self.state != State::Idle {
            let cmds = Vec::new();
            assert(commands_view(cmds@) =~= seq![]);
            assert(step(old(self)@, InputView::Trigger, now_ms, seq![]) == (self@, commands_view(cmds@)));
            return cmds;
        }
        let id = new_session_id();
        let ghost fresh = id@;
        self.sid = Some(id);
        self.state = State::Streaming;
        self.deadline_ms = Some(now_ms + UTTERANCE_MAX_MS);
        let body = cat3("{\"locale\":\"", self.locale.as_str(), "\"}");
        let cmd = Command::Publish { topic: self.topic("start"), payload: string_bytes(&body) };
        let mut cmds = Vec::new();
        cmds.push(cmd);
        assert(commands_view(cmds@) =~= step(old(self)@, InputView::Trigger, now_ms, fresh).1);
        cmds
    }

    fn on_mic_frame(&mut self, bytes: Vec<u8>) -> (cmds: Vec<Command>)
        requires
            old(self).inv(),
        ensures
            final(self)@ == old(self)@,
            (final(self)@, commands_view(cmds@)) == step(old(self)@, InputView::MicFrame(bytes@), 0, seq![]),
    {
        let mut cmds = Vec::new();
        if self.state != State::Streaming {
            assert(commands_view(cmds@) =~= seq![]);
            return cmds;
        }
        let ghost b = bytes@;
        cmds.push(Command::Publish { topic: self.topic("audio"), payload: bytes });
        assert(commands_view(cmds@) =~= step(old(self)@, InputView::MicFrame(b), 0, seq![]).1);
        cmds
    }

    /// Empty audio payload = end of utterance (protocol contract).
    fn end_utterance(&mut self, now_ms: u64) -> (cmds: Vec<Command>)
        requires
            old(self).inv(),
            old(self)@.state == State::Streaming ==> now_ms + REPLY_TIMEOUT_MS <= u64::MAX,
        ensures
            final(self).inv(),
            (final(self)@, commands_view(cmds@)) == end_utterance_spec(old(self)@, now_ms),
    {
        let mut cmds = Vec::new();
        if self.state != State::Streaming {
            assert(commands_view(cmds@) =~= seq![]);
            return cmds;
        }
        self.state = State::AwaitingReply;
        self.deadline_ms = Some(now_ms + REPLY_TIMEOUT_MS);
        cmds.push(Command::Publish { topic: self.topic("audio"), payload: Vec::new() });
        assert(commands_view(cmds@) =~= end_utterance_spec(old(self)@, now_ms).1);
        cmds
    }

    fn on_inbound(&mut self, topic: &String, payload: Vec<u8>, _now_ms: u64) -> (cmds: Vec<Command>)
        requires
            old(self).inv(),
        ensures
            final(self).inv(),
            (final(self)@, commands_view(cmds@)) == inbound_spec(old(self)@, topic@, payload@),
    {
        let mut cmds = Vec::new();
        if !(self.state == State::AwaitingReply || self.state == State::Playing) {
            assert(commands_view(cmds@) =~= seq![]);
            return cmds;
        }
        let sid = match &self.sid {
            Some(s) => s.as_str(),
            None => {
                assert(commands_view(cmds@) =~= seq![]);
                return cmds;
            },
        };
        let prefix = cat5("athena/sat/", self.sat_id.as_str(), "/session/", sid, "/");
        let suffix = match strip_prefix(topic.as_str(), prefix.as_str()) {
            Some(rest) => rest,
            None => {
                assert(commands_view(cmds@) =~= seq![]);
                return cmds;
            },
        };
        let ghost pv = payload@;
        proof {
            reveal_strlit("tts/meta");
            reveal_strlit("tts");
            reveal_strlit("done");
            reveal_strlit("transcript");
            reveal_strlit("tts/text");
        }
        if str_eq(suffix.as_str(), "tts/meta") {
            let rate = read_json_u64(&payload, "sample_rate");
            self.state = State::Playing;
            match rate {
                Some(r) => {
                    if r <= 0xffff_ffffu64 {
                        cmds.push(Command::ConfigureSpeaker { sample_rate: r as u32 });
                    }
                },
                None => {},
            }
        } else if str_eq(suffix.as_str(), "tts") {
            self.state = State::Playing;
            cmds.push(Command::Play(payload));
        } else if str_eq(suffix.as_str(), "done") {
            let cmds = self.finish();
            return cmds;
        } else if str_eq(suffix.as_str(), "transcript") {
            match read_json_str(&payload, "text") {
                Some(text) => {
                    let is_final = match read_json_bool(&payload, "is_final") {
                        Some(b) => b,
                        None => false,
                    };
                    cmds.push(Command::ShowTranscript { text, is_final });
                },
                None => {},
            }
        } else if str_eq(suffix.as_str(), "tts/text") {
            match read_json_str(&payload, "text") {
                Some(text) => {
                    cmds.push(Command::ShowAnswer(text));
                },
                None => {},
            }
        }
        assert(commands_view(cmds@) =~= inbound_spec(old(self)@, topic@, pv).1);
        cmds
    }

    fn on_tick(&mut self, now_ms: u64) -> (cmds: Vec<Command>)
        requires
            old(self).inv(),
            clock_fits(old(self)@, InputView::Tick, now_ms),
        ensures
            final(self).inv(),
            (final(self)@, commands_view(cmds@)) == tick_spec(old(self)@, now_ms),
    {
        let expired = match self.deadline_ms {
            Some(d) => now_ms > d,
            None => false,
        };
        if !expired {
            let cmds = Vec::new();
            assert(commands_view(cmds@) =~= seq![]);
            return cmds;
        }
        match self.state {
            State::Idle => {
                let cmds = Vec::new();
                assert(commands_view(cmds@) =~= seq![]);
                cmds
            },
            State::Streaming => self.end_utterance(now_ms),
            State::AwaitingReply | State::Playing => self.finish(),
        }
    }

    fn finish(&mut self) -> (cmds: Vec<Command>)
        ensures
            final(self)@ == finished(old(self)@),
            commands_view(cmds@) == seq![CommandView::SessionEnded],
    {
        self.state = State::Idle;
        self.sid = None;
        self.deadline_ms = None;
        let mut cmds = Vec::new();
        cmds.push(Command::SessionEnded);
        assert(commands_view(cmds@) =~= seq![CommandView::SessionEnded]);
        cmds
    }
}

} // verus!
