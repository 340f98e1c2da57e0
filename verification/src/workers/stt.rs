//! STT worker: per-session PCM buffering driven by the request messages,
//! and the cleanup of whisper's transcript.
//!
//! A request opens a session (`{session_id, locale}`), appends audio to it
//! (`{session_id, audio_b64}`) or marks an utterance boundary
//! (`{session_id, done: true}`), after which the buffer is transcribed and
//! cleared while the session stays open.
use base64::Engine as _;
use vstd::prelude::*;
use crate::json::{json_bool_field, json_quote, json_quoted, json_str_field, read_json_bool, read_json_str};
use crate::text::{
    chars_of, from_chars, has_prefix, has_suffix, join, joined, owned, split_whitespace, strings_view,
    unicode_whitespace, words, is_whitespace,
};

verus! {

/// Sessions idle this long (ms) are dropped (the satellite died
/// mid-utterance).
pub const SESSION_TTL_MS: u64 = 120_000;

/// Below this many bytes (100 ms of 16 kHz s16le) nothing is transcribed.
pub const MIN_UTTERANCE_BYTES: usize = 3200;

/// What `base64`'s standard engine decodes a string to; `None` when it is
/// not valid base64.
pub uninterp spec fn base64_decoded(s: Seq<char>) -> Option<Seq<u8>>;

/// Calls `STANDARD.decode`; the result is named `base64_decoded`.
#[verifier::external_body]
fn base64_decode(s: &str) -> (r: Option<Vec<u8>>)
    ensures
        match r {
            Some(b) => base64_decoded(s@) == Some(b@),
            None => base64_decoded(s@) is None,
        },
{
    base64::engine::general_purpose::STANDARD.decode(s).ok()
}

/// One session's buffered audio.
#[derive(Debug, Clone)]
pub struct SessionBuf {
    pub pcm: Vec<u8>,
    pub locale: String,
    /// When the session was last touched, in ms of the worker's clock.
    pub updated_ms: u64,
}

pub struct BufView {
    pub pcm: Seq<u8>,
    pub locale: Seq<char>,
    pub updated_ms: u64,
}

impl View for SessionBuf {
    type V = BufView;

    open spec fn view(&self) -> BufView {
        BufView { pcm: self.pcm@, locale: self.locale@, updated_ms: self.updated_ms }
    }
}

impl SessionBuf {
    /// Appends PCM bytes and marks the session as touched now.
    pub fn append(&mut self, bytes: Vec<u8>, now_ms: u64)
        ensures
            final(self).pcm@ == old(self).pcm@ + bytes@,
            final(self).locale@ == old(self).locale@,
            final(self).updated_ms == now_ms,
    {
        let mut i: usize = 0;
        let ghost start = self.pcm@;
        let ghost loc = self.locale@;
        while i < bytes.len()
            invariant
                i <= bytes.len(),
                self.pcm@ == start + bytes@.take(i as int),
                self.locale@ == loc,
            decreases bytes.len() - i,
        {
            self.pcm.push(bytes[i]);
            assert(bytes@.take(i + 1) == bytes@.take(i as int).push(bytes@[i as int]));
            i = i + 1;
        }
        assert(bytes@.take(bytes.len() as int) == bytes@);
        self.updated_ms = now_ms;
    }
}

/// A session entry: its id and buffer.
pub type Entry = (Seq<char>, BufView);

/// Whether a session was touched less than the TTL ago.
pub open spec fn alive(b: BufView, now_ms: u64) -> bool {
    (if now_ms >= b.updated_ms { now_ms - b.updated_ms } else { 0 }) < SESSION_TTL_MS
}

/// The index of a session id.
pub open spec fn index_of(es: Seq<Entry>, sid: Seq<char>) -> Option<int>
    decreases es.len(),
{
    if es.len() == 0 {
        None
    } else {
        match index_of(es.drop_last(), sid) {
            Some(i) => Some(i),
            None => if es.last().0 == sid { Some(es.len() - 1) } else { None },
        }
    }
}

/// What a request makes the worker do.
pub enum SttAction {
    Nothing,
    /// Transcribe this session's utterance, in its locale.
    Transcribe { session_id: String, locale: String, pcm: Vec<u8> },
}

pub enum SttActionView {
    Nothing,
    Transcribe { session_id: Seq<char>, locale: Seq<char>, pcm: Seq<u8> },
}

impl View for SttAction {
    type V = SttActionView;

    open spec fn view(&self) -> SttActionView {
        match self {
            SttAction::Nothing => SttActionView::Nothing,
            SttAction::Transcribe { session_id, locale, pcm } => SttActionView::Transcribe {
                session_id: session_id@,
                locale: locale@,
                pcm: pcm@,
            },
        }
    }
}

/// Sets (or adds, at the end) the buffer of a session.
pub open spec fn put(es: Seq<Entry>, sid: Seq<char>, b: BufView) -> Seq<Entry> {
    match index_of(es, sid) {
        Some(i) => es.update(i, (sid, b)),
        None => es.push((sid, b)),
    }
}

/// A request's effect on the sessions (after expired ones are dropped),
/// and what it makes the worker do.
pub open spec fn stt_step(es: Seq<Entry>, payload: Seq<u8>, now_ms: u64) -> (Seq<Entry>, SttActionView) {
    let kept = es.filter(|e: Entry| alive(e.1, now_ms));
    match json_str_field(payload, "session_id"@) {
        None => (kept, SttActionView::Nothing),
        Some(sid) => match json_str_field(payload, "audio_b64"@) {
            Some(b64) => match base64_decoded(b64) {
                None => (kept, SttActionView::Nothing),
                Some(bytes) => {
                    let b = match index_of(kept, sid) {
                        Some(i) => BufView { pcm: kept[i].1.pcm + bytes, locale: kept[i].1.locale, updated_ms: now_ms },
                        None => BufView { pcm: bytes, locale: "fr"@, updated_ms: now_ms },
                    };
                    (put(kept, sid, b), SttActionView::Nothing)
                },
            },
            None => if json_bool_field(payload, "done"@) == Some(true) {
                match index_of(kept, sid) {
                    None => (kept, SttActionView::Nothing),
                    Some(i) => {
                        let old = kept[i].1;
                        let next = put(kept, sid, BufView { pcm: seq![], locale: old.locale, updated_ms: now_ms });
                        if old.pcm.len() < MIN_UTTERANCE_BYTES {
                            (next, SttActionView::Nothing)
                        } else {
                            (next, SttActionView::Transcribe { session_id: sid, locale: old.locale, pcm: old.pcm })
                        }
                    },
                }
            } else {
                let locale = match json_str_field(payload, "locale"@) {
                    Some(l) => l,
                    None => "fr"@,
                };
                (put(kept, sid, BufView { pcm: seq![], locale, updated_ms: now_ms }), SttActionView::Nothing)
            },
        },
    }
}

/// The open sessions of the worker, each id once.
pub struct Sessions {
    entries: Vec<(String, SessionBuf)>,
}

pub open spec fn entry_view(e: (String, SessionBuf)) -> Entry {
    (e.0@, e.1@)
}

impl View for Sessions {
    type V = Seq<Entry>;

    closed spec fn view(&self) -> Seq<Entry> {
        self.entries@.map_values(|e: (String, SessionBuf)| entry_view(e))
    }
}

/// Each session id occurs once.
pub open spec fn distinct_ids(es: Seq<Entry>) -> bool {
    forall|i: int, j: int| 0 <= i < j < es.len() ==> es[i].0 != es[j].0
}

proof fn lemma_index_of(es: Seq<Entry>, sid: Seq<char>)
    ensures
        match index_of(es, sid) {
            Some(i) => 0 <= i < es.len() && es[i].0 == sid && forall|j: int| 0 <= j < i ==> es[j].0 != sid,
            None => forall|j: int| 0 <= j < es.len() ==> es[j].0 != sid,
        },
    decreases es.len(),
{
    if es.len() > 0 {
        lemma_index_of(es.drop_last(), sid);
        assert forall|j: int| 0 <= j < es.len() - 1 implies es.drop_last()[j] == es[j] by {}
    }
}

impl Sessions {
    /// No open session.
    pub fn new() -> (s: Self)
        ensures
            s@ == Seq::<Entry>::empty(),
    {
        let s = Sessions { entries: Vec::new() };
        assert(s@ =~= Seq::<Entry>::empty());
        s
    }

    fn find(&self, sid: &str) -> (r: Option<usize>)
        ensures
            match index_of(self@, sid@) {
                Some(i) => r matches Some(j) && j == i,
                None => r is None,
            },
    {
        let ghost es = self@;
        let mut i: usize = 0;
        while i < self.entries.len()
            invariant
                i <= self.entries.len(),
                es == self@,
                es.len() == self.entries@.len(),
                forall|j: int| 0 <= j < i ==> es[j].0 != sid@,
            decreases self.entries.len() - i,
        {
            assert(es[i as int] == entry_view(self.entries@[i as int]));
            if crate::text::str_eq(self.entries[i].0.as_str(), sid) {
                proof {
                    lemma_index_of(es, sid@);
                }
                return Some(i);
            }
            i = i + 1;
        }
        proof {
            lemma_index_of(es, sid@);
        }
        None
    }

    fn replace_at(&mut self, i: usize, sid: String, b: SessionBuf)
        requires
            i < old(self)@.len(),
        ensures
            final(self)@ == old(self)@.update(i as int, (sid@, b@)),
    {
        let _ = self.entries.remove(i);
        self.entries.insert(i, (sid, b));
        assert(self@ =~= old(self)@.update(i as int, (sid@, b@)));
    }

    fn put(&mut self, sid: String, b: SessionBuf)
        ensures
            final(self)@ == put(old(self)@, sid@, b@),
    {
        match self.find(sid.as_str()) {
            Some(i) => {
                proof {
                    lemma_index_of(self@, sid@);
                }
                self.replace_at(i, sid, b);
            },
            None => {
                self.entries.push((sid, b));
                assert(self@ =~= old(self)@.push((sid@, b@)));
            },
        }
    }

    fn retain_alive(&mut self, now_ms: u64)
        ensures
            final(self)@ == old(self)@.filter(|e: Entry| alive(e.1, now_ms)),
    {
        let ghost orig = self@;
        let mut rest: Vec<(String, SessionBuf)> = Vec::new();
        std::mem::swap(&mut rest, &mut self.entries);
        let ghost n = rest@.len();
        let total = rest.len();
        let mut i: usize = 0;
        assert(self@ =~= orig.take(0).filter(|e: Entry| alive(e.1, now_ms))) by {
            reveal(Seq::filter);
        }
        while rest.len() > 0
            invariant
                i <= n,
                n == total,
                n == orig.len(),
                rest@.len() == n - i,
                forall|j: int| 0 <= j < rest@.len() ==> entry_view(#[trigger] rest@[j]) == orig[i + j],
                self@ == orig.take(i as int).filter(|e: Entry| alive(e.1, now_ms)),
            decreases rest.len(),
        {
            let e = rest.remove(0);
            assert(entry_view(e) == orig[i as int]);
            proof {
                reveal(Seq::filter);
                assert(orig.take(i + 1).drop_last() == orig.take(i as int));
                assert(orig.take(i + 1).last() == orig[i as int]);
            }
            let updated = e.1.updated_ms;
            let age: u64 = if now_ms >= updated { now_ms - updated } else { 0 };
            let ghost before = self@;
            if age < SESSION_TTL_MS {
                self.entries.push(e);
                assert(self@ =~= before.push(orig[i as int]));
            }
            i = i + 1;
        }
        assert(orig.take(n as int) == orig);
    }

    /// Handles one request at `now_ms`: drops expired sessions, then opens,
    /// fills or cuts the requested session, and says whether an utterance
    /// is to be transcribed.
    pub fn step(&mut self, payload: &[u8], now_ms: u64) -> (a: SttAction)
        ensures
            (final(self)@, a@) == stt_step(old(self)@, payload@, now_ms),
    {
        self.retain_alive(now_ms);
        let ghost kept = self@;
        let sid = match read_json_str(payload, "session_id") {
            Some(s) => s,
            None => return SttAction::Nothing,
        };
        match read_json_str(payload, "audio_b64") {
            Some(b64) => {
                let bytes = match base64_decode(b64.as_str()) {
                    Some(b) => b,
                    None => return SttAction::Nothing,
                };
                let buf = match self.find(sid.as_str()) {
                    Some(i) => {
                        proof {
                            lemma_index_of(self@, sid@);
                        }
                        let mut b = self.entries[i].1.clone_buf();
                        b.append(bytes, now_ms);
                        b
                    },
                    None => {
                        let mut b = SessionBuf { pcm: Vec::new(), locale: owned("fr"), updated_ms: now_ms };
                        b.append(bytes, now_ms);
                        assert(b.pcm@ =~= bytes@);
                        b
                    },
                };
                self.put(sid, buf);
                return SttAction::Nothing;
            },
            None => {},
        }
        if read_json_bool(payload, "done") == Some(true) {
            let i = match self.find(sid.as_str()) {
                Some(i) => i,
                None => return SttAction::Nothing,
            };
            proof {
                lemma_index_of(self@, sid@);
            }
            let old = self.entries[i].1.clone_buf();
            let next = SessionBuf { pcm: Vec::new(), locale: old.locale.clone(), updated_ms: now_ms };
            let key = self.entries[i].0.clone();
            self.replace_at(i, key, next);
            assert(self@ =~= put(kept, sid@, BufView { pcm: seq![], locale: old.locale@, updated_ms: now_ms }));
            if old.pcm.len() < MIN_UTTERANCE_BYTES {
                return SttAction::Nothing;
            }
            return SttAction::Transcribe { session_id: sid, locale: old.locale, pcm: old.pcm };
        }
        let locale = match read_json_str(payload, "locale") {
            Some(l) => l,
            None => owned("fr"),
        };
        let buf = SessionBuf { pcm: Vec::new(), locale, updated_ms: now_ms };
        assert(buf@.pcm =~= seq![]);
        self.put(sid, buf);
        SttAction::Nothing
    }
}

impl SessionBuf {
    fn clone_buf(&self) -> (c: SessionBuf)
        ensures
            c@ == self@,
    {
        let mut pcm: Vec<u8> = Vec::new();
        let mut i: usize = 0;
        while i < self.pcm.len()
            invariant
                i <= self.pcm.len(),
                pcm@ == self.pcm@.take(i as int),
            decreases self.pcm.len() - i,
        {
            pcm.push(self.pcm[i]);
            assert(self.pcm@.take(i + 1) == self.pcm@.take(i as int).push(self.pcm@[i as int]));
            i = i + 1;
        }
        assert(self.pcm@.take(self.pcm.len() as int) == self.pcm@);
        SessionBuf { pcm, locale: self.locale.clone(), updated_ms: self.updated_ms }
    }
}

/// A whisper word kept in the transcript: not a bracketed (`[Musique]`)
/// nor parenthesized (`(bruit)`) annotation.
pub open spec fn spoken_word(w: Seq<char>) -> bool {
    !(w.len() > 0 && w[0] == '[' && w.last() == ']') && !(w.len() > 0 && w[0] == '(' && w.last() == ')')
}

/// Trailing sentence punctuation.
pub open spec fn trailing_mark(c: char) -> bool {
    c == '.' || c == '!' || c == '?' || c == '…' || c == ',' || unicode_whitespace(c)
}

/// `t` without its trailing punctuation and whitespace.
pub open spec fn without_trailing_marks(t: Seq<char>) -> Seq<char>
    decreases t.len(),
{
    if t.len() > 0 && trailing_mark(t.last()) { without_trailing_marks(t.drop_last()) } else { t }
}

/// Whisper's output normalized for the intent matcher: words separated by
/// single spaces, annotations dropped, trailing punctuation stripped.
pub open spec fn cleaned_transcript(raw: Seq<char>) -> Seq<char> {
    without_trailing_marks(joined(words(raw).filter(|w: Seq<char>| spoken_word(w)), " "@))
}

fn is_annotation(w: &str) -> (r: bool)
    ensures
        r == !spoken_word(w@),
{
    let x = chars_of(w);
    x.len() > 0 && ((x[0] == '[' && x[x.len() - 1] == ']') || (x[0] == '(' && x[x.len() - 1] == ')'))
}

/// Normalizes whisper output for the intent matcher.
pub fn clean_transcript(raw: &str) -> (r: String)
    ensures
        r@ == cleaned_transcript(raw@),
{
    let ws = split_whitespace(raw);
    let ghost all = strings_view(ws@);
    let mut kept: Vec<String> = Vec::new();
    let mut i: usize = 0;
    while i < ws.len()
        invariant
            i <= ws.len(),
            all == strings_view(ws@),
            strings_view(kept@) == all.take(i as int).filter(|w: Seq<char>| spoken_word(w)),
        decreases ws.len() - i,
    {
        proof {
            reveal(Seq::filter);
            assert(all.take(i + 1).drop_last() == all.take(i as int));
            assert(all.take(i + 1).last() == ws@[i as int]@);
        }
        let ghost before = strings_view(kept@);
        if !is_annotation(ws[i].as_str()) {
            kept.push(ws[i].clone());
            assert(strings_view(kept@) =~= before.push(ws@[i as int]@));
        }
        i = i + 1;
    }
    proof {
        reveal(Seq::filter);
        assert(all.take(ws.len() as int) == all);
    }
    let text = join(kept.as_slice(), " ");
    let x = chars_of(text.as_str());
    let mut j: usize = x.len();
    assert(text@.take(j as int) == text@);
    while j > 0 && (x[j - 1] == '.' || x[j - 1] == '!' || x[j - 1] == '?' || x[j - 1] == '…' || x[j - 1] == ','
        || is_whitespace(x[j - 1]))
        invariant
            j <= x.len(),
            x@ == text@,
            without_trailing_marks(text@) == without_trailing_marks(text@.take(j as int)),
        decreases j,
    {
        assert(text@.take(j as int).drop_last() == text@.take(j - 1));
        j = j - 1;
    }
    assert(x@.take(j as int) == x@.subrange(0, j as int));
    crate::text::from_range(&x, 0, j)
}

/// The language whisper is asked for: the locale up to its first `-` or
/// `_` ("fr" for "fr-FR").
pub open spec fn whisper_lang_spec(locale: Seq<char>) -> Seq<char>
    decreases locale.len(),
{
    if locale.len() == 0 {
        seq![]
    } else if locale[0] == '-' || locale[0] == '_' {
        seq![]
    } else {
        seq![locale[0]] + whisper_lang_spec(locale.drop_first())
    }
}

/// The whisper language code of a locale.
pub fn whisper_lang(locale: &str) -> (r: String)
    ensures
        r@ == whisper_lang_spec(locale@),
{
    let x = chars_of(locale);
    let mut j: usize = 0;
    while j < x.len() && x[j] != '-' && x[j] != '_'
        invariant
            j <= x.len(),
            x@ == locale@,
            forall|k: int| 0 <= k < j ==> x@[k] != '-' && x@[k] != '_',
        decreases x.len() - j,
    {
        j = j + 1;
    }
    proof {
        lemma_whisper_lang(locale@, j as int);
    }
    crate::text::from_range(&x, 0, j)
}

proof fn lemma_whisper_lang(s: Seq<char>, j: int)
    requires
        0 <= j <= s.len(),
        forall|k: int| 0 <= k < j ==> s[k] != '-' && s[k] != '_',
        j == s.len() || s[j] == '-' || s[j] == '_',
    ensures
        whisper_lang_spec(s) == s.subrange(0, j),
    decreases j,
{
    if j > 0 {
        lemma_whisper_lang(s.drop_first(), j - 1);
        assert(s.subrange(0, j) =~= seq![s[0]] + s.drop_first().subrange(0, j - 1));
    } else {
        assert(s.subrange(0, 0) =~= seq![]);
    }
}

/// The transcript message for a session; nothing to send for an empty
/// transcript.
pub open spec fn transcript_json(sid: Seq<char>, text: Seq<char>) -> Option<Seq<char>> {
    if text.len() == 0 {
        None
    } else {
        Some("{\"is_final\":true,\"session_id\":"@ + json_quoted(sid) + ",\"text\":"@ + json_quoted(text) + "}"@)
    }
}

/// The JSON transcript message, when there is a transcript.
pub fn transcript_message(session_id: &str, text: &str) -> (r: Option<String>)
    ensures
        match transcript_json(session_id@, text@) {
            Some(m) => r matches Some(s) && s@ == m,
            None => r is None,
        },
{
    if text.is_empty() {
        return None;
    }
    let mut m = owned("{\"is_final\":true,\"session_id\":");
    m.append(json_quote(session_id).as_str());
    m.append(",\"text\":");
    m.append(json_quote(text).as_str());
    m.append("}");
    Some(m)
}

proof fn lemma_filter_distinct(es: Seq<Entry>, now_ms: u64)
    requires
        distinct_ids(es),
    ensures
        distinct_ids(es.filter(|e: Entry| alive(e.1, now_ms))),
        forall|x: Entry| es.filter(|e: Entry| alive(e.1, now_ms)).contains(x) ==> es.contains(x),
    decreases es.len(),
{
    reveal(Seq::filter);
    if es.len() > 0 {
        let init = es.drop_last();
        assert(distinct_ids(init)) by {
            assert forall|i: int, j: int| 0 <= i < j < init.len() implies init[i].0 != init[j].0 by {
                assert(init[i] == es[i] && init[j] == es[j]);
            }
        }
        lemma_filter_distinct(init, now_ms);
        let f = init.filter(|e: Entry| alive(e.1, now_ms));
        let last = es.last();
        assert forall|x: Entry| f.contains(x) implies x.0 != last.0 by {
            assert(init.contains(x));
            let k = choose|k: int| 0 <= k < init.len() && init[k] == x;
            assert(es[k] == x);
        }
        if alive(last.1, now_ms) {
            let g = f.push(last);
            assert forall|i: int, j: int| 0 <= i < j < g.len() implies g[i].0 != g[j].0 by {
                if j == g.len() - 1 {
                    assert(f.contains(g[i]));
                }
            }
            assert forall|x: Entry| g.contains(x) implies es.contains(x) by {
                let k = choose|k: int| 0 <= k < g.len() && g[k] == x;
                if k == g.len() - 1 {
                    assert(es[es.len() - 1] == x);
                } else {
                    assert(f.contains(x));
                    assert(init.contains(x));
                    let m = choose|m: int| 0 <= m < init.len() && init[m] == x;
                    assert(es[m] == x);
                }
            }
        } else {
            assert forall|x: Entry| f.contains(x) implies es.contains(x) by {
                assert(init.contains(x));
                let m = choose|m: int| 0 <= m < init.len() && init[m] == x;
                assert(es[m] == x);
            }
        }
    }
}

proof fn lemma_put_distinct(es: Seq<Entry>, sid: Seq<char>, b: BufView)
    requires
        distinct_ids(es),
    ensures
        distinct_ids(put(es, sid, b)),
{
    lemma_index_of(es, sid);
    let r = put(es, sid, b);
    match index_of(es, sid) {
        Some(i) => {
            assert forall|p: int, q: int| 0 <= p < q < r.len() implies r[p].0 != r[q].0 by {
                if p == i {
                    assert(r[q] == es[q]);
                } else if q == i {
                    assert(r[p] == es[p]);
                } else {
                    assert(r[p] == es[p] && r[q] == es[q]);
                }
            }
        },
        None => {
            assert forall|p: int, q: int| 0 <= p < q < r.len() implies r[p].0 != r[q].0 by {
                if q < es.len() {
                    assert(r[p] == es[p] && r[q] == es[q]);
                }
            }
        },
    }
}

/// Each session id stays open at most once: a request never duplicates a
/// session, whatever it carries.
pub proof fn law_sessions_keep_distinct_ids(es: Seq<Entry>, payload: Seq<u8>, now_ms: u64)
    requires
        distinct_ids(es),
    ensures
        distinct_ids(stt_step(es, payload, now_ms).0),
{
    lemma_filter_distinct(es, now_ms);
    let kept = es.filter(|e: Entry| alive(e.1, now_ms));
    match json_str_field(payload, "session_id"@) {
        None => {},
        Some(sid) => {
            lemma_index_of(kept, sid);
            match json_str_field(payload, "audio_b64"@) {
                Some(b64) => match base64_decoded(b64) {
                    None => {},
                    Some(bytes) => {
                        let b = match index_of(kept, sid) {
                            Some(i) => BufView { pcm: kept[i].1.pcm + bytes, locale: kept[i].1.locale, updated_ms: now_ms },
                            None => BufView { pcm: bytes, locale: "fr"@, updated_ms: now_ms },
                        };
                        lemma_put_distinct(kept, sid, b);
                    },
                },
                None => if json_bool_field(payload, "done"@) == Some(true) {
                    match index_of(kept, sid) {
                        None => {},
                        Some(i) => {
                            lemma_put_distinct(kept, sid, BufView { pcm: seq![], locale: kept[i].1.locale, updated_ms: now_ms });
                        },
                    }
                } else {
                    let locale = match json_str_field(payload, "locale"@) {
                        Some(l) => l,
                        None => "fr"@,
                    };
                    lemma_put_distinct(kept, sid, BufView { pcm: seq![], locale, updated_ms: now_ms });
                },
            }
        },
    }
}


/// Audio on an open session is appended: after an audio request on a live
/// session, that session's buffer is its buffer before followed by the
/// decoded bytes, in the same locale, and nothing is transcribed.
pub proof fn law_audio_is_appended(
    es: Seq<Entry>,
    payload: Seq<u8>,
    now_ms: u64,
    i: int,
    b64: Seq<char>,
    bytes: Seq<u8>,
)
    requires
        distinct_ids(es),
        0 <= i < es.len(),
        alive(es[i].1, now_ms),
        json_str_field(payload, "session_id"@) == Some(es[i].0),
        json_str_field(payload, "audio_b64"@) == Some(b64),
        base64_decoded(b64) == Some(bytes),
    ensures
        stt_step(es, payload, now_ms).1 == SttActionView::Nothing,
        exists|j: int| #![trigger stt_step(es, payload, now_ms).0[j]]
            0 <= j < stt_step(es, payload, now_ms).0.len() && stt_step(es, payload, now_ms).0[j].0 == es[i].0,
        forall|j: int| #![trigger stt_step(es, payload, now_ms).0[j]]
            0 <= j < stt_step(es, payload, now_ms).0.len() && stt_step(es, payload, now_ms).0[j].0 == es[i].0
                ==> stt_step(es, payload, now_ms).0[j].1.pcm == es[i].1.pcm + bytes
                && stt_step(es, payload, now_ms).0[j].1.locale == es[i].1.locale,
{
    let sid = es[i].0;
    let pred = |e: Entry| alive(e.1, now_ms);
    let kept = es.filter(pred);
    lemma_filter_distinct(es, now_ms);
    es.lemma_filter_contains(pred, i);
    assert(kept.contains(es[i]));
    lemma_index_of(kept, sid);
    let k = index_of(kept, sid)->0;
    assert(es.contains(kept[k]));
    let m = choose|m: int| 0 <= m < es.len() && es[m] == kept[k];
    assert(m == i);
    assert(kept[k] == es[i]);
    let b = BufView { pcm: kept[k].1.pcm + bytes, locale: kept[k].1.locale, updated_ms: now_ms };
    let next = put(kept, sid, b);
    assert(stt_step(es, payload, now_ms).0 == next);
    assert(next[k] == (sid, b));
    assert forall|j: int| #![trigger next[j]] 0 <= j < next.len() && next[j].0 == sid implies j == k by {
        if j != k {
            assert(next[j] == kept[j]);
        }
    }
}

} // verus!
