//! TTS worker: reads a synthesis request and turns synthesized samples
//! into the response messages (base64 audio chunks, then a done marker;
//! the first message declares the audio format).
use base64::Engine as _;
use vstd::prelude::*;
use crate::json::{is_json, json_quote, json_quoted, json_str_field, json_value, read_json_str};
use crate::text::{decimal, owned, u64_to_decimal};

verus! {

/// The character of a 6-bit value in the standard base64 alphabet
/// (`A`–`Z`, `a`–`z`, `0`–`9`, `+`, `/`).
pub open spec fn base64_char(n: int) -> char {
    seq!['A', 'B', 'C', 'D', 'E', 'F', 'G', 'H', 'I', 'J', 'K', 'L', 'M', 'N', 'O', 'P', 'Q', 'R', 'S', 'T', 'U', 'V', 'W', 'X', 'Y', 'Z', 'a', 'b', 'c', 'd', 'e', 'f', 'g', 'h', 'i', 'j', 'k', 'l', 'm', 'n', 'o', 'p', 'q', 'r', 's', 't', 'u', 'v', 'w', 'x', 'y', 'z', '0', '1', '2', '3', '4', '5', '6', '7', '8', '9', '+', '/'][n]
}

/// Standard base64 with padding (what `base64`'s `STANDARD` engine
/// writes): each group of three bytes as four characters, a last group of
/// one or two bytes as two or three characters and `=` padding.
pub open spec fn base64_of(b: Seq<u8>) -> Seq<char>
    decreases b.len(),
{
    if b.len() == 0 {
        seq![]
    } else if b.len() == 1 {
        let n = b[0] as int;
        seq![base64_char(n / 4), base64_char((n % 4) * 16), '=', '=']
    } else if b.len() == 2 {
        let n = b[0] as int * 256 + b[1] as int;
        seq![base64_char(n / 1024), base64_char((n / 16) % 64), base64_char((n % 16) * 4), '=']
    } else {
        let n = b[0] as int * 65536 + b[1] as int * 256 + b[2] as int;
        seq![base64_char(n / 262144), base64_char((n / 4096) % 64), base64_char((n / 64) % 64), base64_char(n % 64)]
            + base64_of(b.subrange(3, b.len() as int))
    }
}

/// Calls `STANDARD.encode`; the result is the encoding `base64_of` states.
#[verifier::external_body]
fn base64_encode(bytes: &[u8]) -> (s: String)
    ensures
        s@ == base64_of(bytes@),
{
    base64::engine::general_purpose::STANDARD.encode(bytes)
}

/// A synthesis request.
#[derive(Debug, Clone)]
pub struct TtsRequest {
    pub session_id: String,
    pub text: String,
    pub locale: String,
}

/// Why a request cannot be served.
#[derive(Debug, Clone, Copy, PartialEq, Eq, Structural)]
pub enum TtsRequestError {
    /// The payload is not JSON.
    NotJson,
    /// The request has no string `session_id`.
    MissingSessionId,
}

/// Reading a request: its session id, text (empty by default) and locale
/// (`fr` by default).
pub open spec fn request_spec(payload: Seq<u8>) -> Result<(Seq<char>, Seq<char>, Seq<char>), TtsRequestError> {
    if !json_value(payload) {
        Err(TtsRequestError::NotJson)
    } else {
        match json_str_field(payload, "session_id"@) {
            None => Err(TtsRequestError::MissingSessionId),
            Some(sid) => Ok((
                sid,
                match json_str_field(payload, "text"@) { Some(t) => t, None => seq![] },
                match json_str_field(payload, "locale"@) { Some(l) => l, None => "fr"@ },
            )),
        }
    }
}

/// Reads a synthesis request.
pub fn parse_tts_request(payload: &[u8]) -> (r: Result<TtsRequest, TtsRequestError>)
    ensures
        match request_spec(payload@) {
            Ok((sid, text, locale)) => r matches Ok(q) && q.session_id@ == sid && q.text@ == text && q.locale@ == locale,
            Err(e) => r == Err::<TtsRequest, TtsRequestError>(e),
        },
{
    if !is_json(payload) {
        return Err(TtsRequestError::NotJson);
    }
    let session_id = match read_json_str(payload, "session_id") {
        Some(s) => s,
        None => return Err(TtsRequestError::MissingSessionId),
    };
    let text = match read_json_str(payload, "text") {
        Some(t) => t,
        None => String::new(),
    };
    let locale = match read_json_str(payload, "locale") {
        Some(l) => l,
        None => owned("fr"),
    };
    Ok(TtsRequest { session_id, text, locale })
}

/// A request's own fields are what is synthesized: for a JSON request with
/// a string `session_id`, the session id, and the `text` and `locale`
/// whenever they are strings, are taken from the request as they are;
/// the text defaults to empty and the locale to `fr` only when the field
/// is missing or not a string.
pub proof fn law_request_fields_are_kept(payload: Seq<u8>, sid: Seq<char>)
    requires
        json_value(payload),
        json_str_field(payload, "session_id"@) == Some(sid),
    ensures
        request_spec(payload) matches Ok((s, t, l)) && s == sid
            && (json_str_field(payload, "text"@) matches Some(x) ==> t == x)
            && (json_str_field(payload, "text"@) is None ==> t == Seq::<char>::empty())
            && (json_str_field(payload, "locale"@) matches Some(x) ==> l == x)
            && (json_str_field(payload, "locale"@) is None ==> l == "fr"@),
{
}

/// A request that is not JSON, or has no string `session_id`, is refused.
pub proof fn law_request_needs_a_session(payload: Seq<u8>)
    ensures
        !json_value(payload) ==> request_spec(payload) == Err::<(Seq<char>, Seq<char>, Seq<char>), TtsRequestError>(
            TtsRequestError::NotJson,
        ),
        json_value(payload) && json_str_field(payload, "session_id"@) is None ==> request_spec(payload) == Err::<
            (Seq<char>, Seq<char>, Seq<char>),
            TtsRequestError,
        >(TtsRequestError::MissingSessionId),
{
}

/// Samples per chunk: `rate * chunk_ms / 1000`, at least one.
pub open spec fn chunk_len(rate: u32, chunk_ms: u32) -> nat {
    let v = (rate as nat * chunk_ms as nat) / 1000;
    if v == 0 { 1 } else { v }
}

/// Samples per chunk, never zero (so chunking cannot stall).
pub fn samples_per_chunk(rate: u32, chunk_ms: u32) -> (n: usize)
    requires
        rate as nat * chunk_ms as nat <= u32::MAX,
    ensures
        n == chunk_len(rate, chunk_ms),
        n >= 1,
{
    let v = rate * chunk_ms / 1000;
    if v == 0 { 1 } else { v as usize }
}

/// The two little-endian bytes of a sample.
pub open spec fn sample_bytes(s: i16) -> Seq<u8> {
    let u: int = if s < 0 { s as int + 65536 } else { s as int };
    seq![(u % 256) as u8, (u / 256) as u8]
}

/// Samples as s16le bytes.
pub open spec fn pcm_bytes(samples: Seq<i16>) -> Seq<u8>
    decreases samples.len(),
{
    if samples.len() == 0 { seq![] } else { pcm_bytes(samples.drop_last()) + sample_bytes(samples.last()) }
}

/// One audio chunk message; the first also declares the format.
pub open spec fn chunk_message(sid: Seq<char>, bytes: Seq<u8>, first: bool, rate: u32) -> Seq<char> {
    if first {
        "{\"channels\":1,\"chunk_b64\":"@ + json_quoted(base64_of(bytes)) + ",\"done\":false,\"format\":\"s16le\",\"sample_rate\":"@
            + decimal(rate as nat) + ",\"session_id\":"@ + json_quoted(sid) + "}"@
    } else {
        "{\"chunk_b64\":"@ + json_quoted(base64_of(bytes)) + ",\"done\":false,\"session_id\":"@ + json_quoted(sid) + "}"@
    }
}

/// The done marker; it declares the format when no chunk did.
pub open spec fn done_message(sid: Seq<char>, declared: bool, rate: u32) -> Seq<char> {
    if declared {
        "{\"done\":true,\"session_id\":"@ + json_quoted(sid) + "}"@
    } else {
        "{\"channels\":1,\"done\":true,\"format\":\"s16le\",\"sample_rate\":"@ + decimal(rate as nat) + ",\"session_id\":"@
            + json_quoted(sid) + "}"@
    }
}

/// Chunk `k` of the samples, `n` samples a chunk (the last may be short).
pub open spec fn chunk_of(samples: Seq<i16>, n: nat, k: int) -> Seq<i16> {
    let lo = k * n;
    let hi = if (k + 1) * n <= samples.len() { (k + 1) * n } else { samples.len() as int };
    samples.subrange(lo, hi)
}

/// The number of chunks of `n` samples.
pub open spec fn chunk_count(len: nat, n: nat) -> nat {
    ((len + n - 1) / (n as int)) as nat
}

proof fn lemma_chunk_count(len: nat, n: nat)
    requires
        n >= 1,
    ensures
        chunk_count(len, n) * n >= len,
        chunk_count(len, n) == 0 || (chunk_count(len, n) - 1) * n < len,
        chunk_count(len, n) == 0 <==> len == 0,
{
    let c = chunk_count(len, n);
    let x = len + n - 1;
    vstd::arithmetic::div_mod::lemma_fundamental_div_mod(x as int, n as int);
    vstd::arithmetic::div_mod::lemma_mod_bound(x as int, n as int);
    assert(c * n == x - x % (n as int)) by (nonlinear_arith)
        requires x == (n as int) * c + x % (n as int);
    assert((c - 1) * n == c * n - n) by (nonlinear_arith);
    if len == 0 {
        assert(x < n);
        vstd::arithmetic::div_mod::lemma_basic_div(x as int, n as int);
    }
    if c == 0 {
        assert(c * n == 0) by (nonlinear_arith)
            requires c == 0;
    }
}

proof fn lemma_chunk_index(len: nat, n: nat, k: int)
    requires
        n >= 1,
        k >= 0,
        k * n < len,
    ensures
        k < chunk_count(len, n),
{
    lemma_chunk_count(len, n);
    let c = chunk_count(len, n);
    assert(k < c) by (nonlinear_arith)
        requires k * n < len, c * n >= len, n >= 1;
}

proof fn lemma_chunk_last(len: nat, n: nat, k: int)
    requires
        n >= 1,
        k >= 0,
        k * n >= len,
        k == 0 || (k - 1) * n < len,
    ensures
        k == chunk_count(len, n),
{
    lemma_chunk_count(len, n);
    let c = chunk_count(len, n);
    if k < c {
        assert(false) by (nonlinear_arith)
            requires k * n >= len, k < c, c >= 1, (c - 1) * n < len, n >= 1;
    }
    if k > c {
        assert(false) by (nonlinear_arith)
            requires k > c, k >= 1, (k - 1) * n < len, c * n >= len, n >= 1;
    }
}

/// The response messages for synthesized samples: one per chunk, then
/// the done marker.
pub open spec fn tts_replies(sid: Seq<char>, samples: Seq<i16>, rate: u32, n: nat) -> Seq<Seq<char>> {
    let c = chunk_count(samples.len(), n);
    Seq::new(c, |k: int| chunk_message(sid, pcm_bytes(chunk_of(samples, n, k)), k == 0, rate)).push(
        done_message(sid, c > 0, rate),
    )
}

fn le_bytes_of(samples: &[i16], lo: usize, hi: usize) -> (b: Vec<u8>)
    requires
        lo <= hi <= samples.len(),
    ensures
        b@ == pcm_bytes(samples@.subrange(lo as int, hi as int)),
{
    let mut b: Vec<u8> = Vec::new();
    let mut i: usize = lo;
    while i < hi
        invariant
            lo <= i <= hi <= samples.len(),
            b@ == pcm_bytes(samples@.subrange(lo as int, i as int)),
        decreases hi - i,
    {
        let s = samples[i];
        let u: i32 = if s < 0 { s as i32 + 65536 } else { s as i32 };
        b.push((u % 256) as u8);
        b.push((u / 256) as u8);
        assert(samples@.subrange(lo as int, i + 1).drop_last() == samples@.subrange(lo as int, i as int));
        assert(b@ =~= pcm_bytes(samples@.subrange(lo as int, i + 1)));
        i = i + 1;
    }
    b
}

/// The response messages for synthesized samples at `rate`, `n` samples a
/// chunk.
pub fn response_messages(session_id: &str, samples: &[i16], rate: u32, n: usize) -> (msgs: Vec<String>)
    requires
        n >= 1,
    ensures
        msgs@.map_values(|m: String| m@) == tts_replies(session_id@, samples@, rate, n as nat),
{
    let sid = json_quote(session_id);
    let mut msgs: Vec<String> = Vec::new();
    let mut lo: usize = 0;
    let ghost mut k: int = 0;
    let ghost c = chunk_count(samples@.len(), n as nat);
    let ghost spec_msgs = Seq::new(c, |k: int| chunk_message(session_id@, pcm_bytes(chunk_of(samples@, n as nat, k)), k == 0, rate));
    while lo < samples.len()
        invariant
            n >= 1,
            0 <= k <= c,
            lo <= samples.len(),
            lo < samples.len() ==> lo == k * n,
            lo >= samples.len() ==> k * n >= samples.len(),
            k == 0 || (k - 1) * n < samples.len(),
            c == chunk_count(samples@.len(), n as nat),
            sid@ == json_quoted(session_id@),
            spec_msgs == Seq::new(c, |k: int| chunk_message(session_id@, pcm_bytes(chunk_of(samples@, n as nat, k)), k == 0, rate)),
            msgs@.map_values(|m: String| m@) == spec_msgs.take(k),
        decreases samples.len() - lo,
    {
        proof {
            lemma_chunk_index(samples@.len(), n as nat, k);
            assert((k + 1) * n == k * n + n) by (nonlinear_arith);
        }
        let hi = if samples.len() - lo >= n { lo + n } else { samples.len() };
        let bytes = le_bytes_of(samples, lo, hi);
        let b64 = json_quote(base64_encode(bytes.as_slice()).as_str());
        let m = if lo == 0 {
            let mut m = owned("{\"channels\":1,\"chunk_b64\":");
            m.append(b64.as_str());
            m.append(",\"done\":false,\"format\":\"s16le\",\"sample_rate\":");
            m.append(u64_to_decimal(rate as u64).as_str());
            m.append(",\"session_id\":");
            m.append(sid.as_str());
            m.append("}");
            m
        } else {
            let mut m = owned("{\"chunk_b64\":");
            m.append(b64.as_str());
            m.append(",\"done\":false,\"session_id\":");
            m.append(sid.as_str());
            m.append("}");
            m
        };
        proof {
            assert(hi == (if (k + 1) * n <= samples@.len() { (k + 1) * n } else { samples@.len() as int }));
            assert(lo == 0 <==> k == 0) by (nonlinear_arith)
                requires lo == k * n, n >= 1, k >= 0;
            assert(m@ == spec_msgs[k]);
        }
        let ghost before = msgs@.map_values(|m: String| m@);
        msgs.push(m);
        assert(msgs@.map_values(|m: String| m@) =~= before.push(spec_msgs[k]));
        assert(spec_msgs.take(k + 1) =~= spec_msgs.take(k).push(spec_msgs[k]));
        lo = hi;
        proof {
            k = k + 1;
        }
    }
    proof {
        lemma_chunk_last(samples@.len(), n as nat, k);
        assert(spec_msgs.take(c as int) == spec_msgs);
        lemma_chunk_count(samples@.len(), n as nat);
    }
    let declared = samples.len() > 0;
    let done = if declared {
        let mut m = owned("{\"done\":true,\"session_id\":");
        m.append(sid.as_str());
        m.append("}");
        m
    } else {
        let mut m = owned("{\"channels\":1,\"done\":true,\"format\":\"s16le\",\"sample_rate\":");
        m.append(u64_to_decimal(rate as u64).as_str());
        m.append(",\"session_id\":");
        m.append(sid.as_str());
        m.append("}");
        m
    };
    msgs.push(done);
    assert(msgs@.map_values(|m: String| m@) =~= tts_replies(session_id@, samples@, rate, n as nat));
    msgs
}

/// Rust's truncating integer division.
pub open spec fn tdiv(a: int, b: int) -> int {
    if a >= 0 { a / b } else { -((-a) / b) }
}

/// The sum of samples.
pub open spec fn sample_sum(s: Seq<i16>) -> int
    decreases s.len(),
{
    if s.len() == 0 { 0 } else { sample_sum(s.drop_last()) + s.last() as int }
}

proof fn lemma_sample_sum_bound(s: Seq<i16>)
    ensures
        -32768 * s.len() <= sample_sum(s) <= 32767 * s.len(),
    decreases s.len(),
{
    if s.len() > 0 {
        lemma_sample_sum_bound(s.drop_last());
    }
}

/// Interleaved frames of `c` channels downmixed to mono: each frame's
/// sum divided by `c` (rounding toward zero); a trailing partial frame is
/// summed and divided by `c` too. One channel passes through.
pub open spec fn downmixed(samples: Seq<i16>, c: nat) -> Seq<i16> {
    if c <= 1 {
        samples
    } else {
        Seq::new(chunk_count(samples.len(), c), |k: int| tdiv(sample_sum(chunk_of(samples, c, k)), c as int) as i16)
    }
}

/// Downmixes interleaved multichannel samples to mono.
pub fn downmix(samples: Vec<i16>, channels: u16) -> (out: Vec<i16>)
    ensures
        out@ == downmixed(samples@, channels as nat),
{
    if channels <= 1 {
        return samples;
    }
    let c = channels as usize;
    let ghost cnt = chunk_count(samples@.len(), c as nat);
    proof {
        lemma_chunk_count(samples@.len(), c as nat);
    }
    let mut out: Vec<i16> = Vec::new();
    let mut lo: usize = 0;
    let ghost mut k: int = 0;
    while lo < samples.len()
        invariant
            c == channels as usize,
            c >= 2,
            0 <= k <= cnt,
            lo <= samples.len(),
            lo < samples.len() ==> lo == k * c,
            lo >= samples.len() ==> k * c >= samples.len(),
            k == 0 || (k - 1) * c < samples.len(),
            cnt == chunk_count(samples@.len(), c as nat),
            out@.len() == k,
            forall|j: int| 0 <= j < k ==> out@[j] == tdiv(sample_sum(#[trigger] chunk_of(samples@, c as nat, j)), c as int) as i16,
        decreases samples.len() - lo,
    {
        proof {
            lemma_chunk_index(samples@.len(), c as nat, k);
            assert((k + 1) * c == k * c + c) by (nonlinear_arith);
        }
        let hi = if samples.len() - lo >= c { lo + c } else { samples.len() };
        let mut sum: i32 = 0;
        let mut i: usize = lo;
        while i < hi
            invariant
                lo <= i <= hi <= samples.len(),
                hi - lo <= c,
                c <= 65535,
                sum == sample_sum(samples@.subrange(lo as int, i as int)),
            decreases hi - i,
        {
            proof {
                assert(samples@.subrange(lo as int, i + 1).drop_last() == samples@.subrange(lo as int, i as int));
                lemma_sample_sum_bound(samples@.subrange(lo as int, i + 1));
                assert(32768 * (i + 1 - lo) <= 32768 * 65535) by (nonlinear_arith)
                    requires i + 1 - lo <= 65535;
            }
            sum = sum + samples[i] as i32;
            i = i + 1;
        }
        let ghost chunk = samples@.subrange(lo as int, hi as int);
        assert(chunk == chunk_of(samples@, c as nat, k));
        proof {
            lemma_sample_sum_bound(chunk);
            assert(32768 * chunk.len() <= 32768 * c) by (nonlinear_arith)
                requires chunk.len() <= c;
        }
        let ci = c as i32;
        let q: i32 = if sum >= 0 { sum / ci } else { -((-sum) / ci) };
        proof {
            assert(-32768 <= q <= 32767) by (nonlinear_arith)
                requires
                    q == tdiv(sum as int, ci as int),
                    -32768 * ci <= sum <= 32767 * ci,
                    ci >= 2;
        }
        out.push(q as i16);
        lo = hi;
        proof {
            k = k + 1;
        }
    }
    proof {
        lemma_chunk_last(samples@.len(), c as nat, k);
    }
    assert(out@ =~= downmixed(samples@, channels as nat));
    out
}

/// The first `k` chunks, concatenated.
pub open spec fn chunks_upto(samples: Seq<i16>, n: nat, k: nat) -> Seq<i16>
    decreases k,
{
    if k == 0 { seq![] } else { chunks_upto(samples, n, (k - 1) as nat) + chunk_of(samples, n, k - 1) }
}

#[verifier::spinoff_prover]
#[verifier::rlimit(30)]
proof fn lemma_chunks_upto(samples: Seq<i16>, n: nat, k: nat)
    requires
        n >= 1,
        k == 0 || (k - 1) * n < samples.len(),
    ensures
        chunks_upto(samples, n, k) == samples.subrange(0, if k * n <= samples.len() { (k * n) as int } else { samples.len() as int }),
    decreases k,
{
    if k > 0 {
        let j = (k - 1) as nat;
        assert(k * n == j * n + n) by (nonlinear_arith)
            requires k == j + 1;
        if j > 0 {
            assert((j - 1) * n < j * n) by (nonlinear_arith)
                requires n >= 1, j >= 1;
        }
        lemma_chunks_upto(samples, n, j);
        assert(j * n < samples.len());
        let hi = if k * n <= samples.len() { (k * n) as int } else { samples.len() as int };
        assert(chunks_upto(samples, n, k) =~= samples.subrange(0, hi));
    } else {
        assert(samples.subrange(0, 0) =~= seq![]);
    }
}

/// Chunking loses and repeats nothing: the chunks, in order, are exactly
/// the synthesized samples.
pub proof fn law_chunks_cover_the_samples(samples: Seq<i16>, n: nat)
    requires
        n >= 1,
    ensures
        chunks_upto(samples, n, chunk_count(samples.len(), n)) == samples,
{
    lemma_chunk_count(samples.len(), n);
    let c = chunk_count(samples.len(), n);
    lemma_chunks_upto(samples, n, c);
    assert(samples.subrange(0, samples.len() as int) == samples);
}

/// The first response message always declares the audio format (a chunk
/// when there is audio, else the done marker), and the last one is the
/// done marker.
pub proof fn law_first_reply_declares_format(sid: Seq<char>, samples: Seq<i16>, rate: u32, n: nat)
    requires
        n >= 1,
    ensures
        tts_replies(sid, samples, rate, n)[0] == (if samples.len() > 0 {
            chunk_message(sid, pcm_bytes(chunk_of(samples, n, 0)), true, rate)
        } else {
            done_message(sid, false, rate)
        }),
        tts_replies(sid, samples, rate, n).last() == done_message(sid, samples.len() > 0, rate),
{
    lemma_chunk_count(samples.len(), n);
}

} // verus!
