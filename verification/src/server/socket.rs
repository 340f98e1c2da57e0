//! The framed socket protocol: each frame is the header byte `0xAE`, an
//! operation code, the payload length as a big-endian `u16`, then the
//! payload.
use vstd::prelude::*;
use crate::text::{cat, owned, u64_to_decimal};

verus! {

/// The header byte that starts every frame.
pub const HEADER: u8 = 0xAE;

/// Operation codes.
#[derive(Debug, Clone, Copy, PartialEq, Eq, Structural)]
pub enum Op {
    /// Audio input/output (code 1).
    Audio,
    /// Transcript/metrics JSON (code 2).
    Transcript,
}

/// The wire code of an operation.
pub open spec fn op_code(op: Op) -> u8 {
    match op {
        Op::Audio => 1,
        Op::Transcript => 2,
    }
}

/// The operation a wire code names.
pub open spec fn op_of(code: u8) -> Option<Op> {
    if code == 1 { Some(Op::Audio) } else if code == 2 { Some(Op::Transcript) } else { None }
}

/// Why bytes are not a frame.
#[derive(Debug, Clone, Copy, PartialEq, Eq, Structural)]
pub enum CodecError {
    /// The first byte is not the header.
    InvalidHeader(u8),
    /// The operation code is unknown.
    InvalidOperation(u8),
}

impl CodecError {
    /// The error's text, e.g. `Invalid header: 12`.
    pub fn message(&self) -> (m: String)
        ensures
            m@ == match *self {
                CodecError::InvalidHeader(h) => "Invalid header: "@ + crate::text::decimal(h as nat),
                CodecError::InvalidOperation(c) => "Invalid operation code: "@ + crate::text::decimal(c as nat),
            },
    {
        match self {
            CodecError::InvalidHeader(h) => cat("Invalid header: ", u64_to_decimal(*h as u64).as_str()),
            CodecError::InvalidOperation(c) => cat("Invalid operation code: ", u64_to_decimal(*c as u64).as_str()),
        }
    }
}

impl Op {
    /// The operation of a wire code.
    pub fn try_from(value: u8) -> (r: Result<Op, CodecError>)
        ensures
            match op_of(value) {
                Some(op) => r == Ok::<Op, CodecError>(op),
                None => r == Err::<Op, CodecError>(CodecError::InvalidOperation(value)),
            },
    {
        match value {
            1 => Ok(Op::Audio),
            2 => Ok(Op::Transcript),
            _ => Err(CodecError::InvalidOperation(value)),
        }
    }

    /// The wire code of the operation.
    pub fn code(&self) -> (c: u8)
        ensures
            c == op_code(*self),
    {
        match self {
            Op::Audio => 1,
            Op::Transcript => 2,
        }
    }
}

/// The frame carrying `payload` for `op`. The length field holds the
/// payload length modulo 2^16.
pub open spec fn frame_spec(op: Op, payload: Seq<u8>) -> Seq<u8> {
    let n = payload.len() % 65536;
    seq![HEADER, op_code(op), (n / 256) as u8, (n % 256) as u8] + payload
}

/// What decoding the front of a byte buffer finds.
pub enum Decoded {
    /// More bytes are needed.
    Incomplete,
    /// A whole frame: its operation and payload, and the bytes it used.
    Frame(Op, Seq<u8>, nat),
    Error(CodecError),
}

/// The payload length a frame's header announces.
pub open spec fn announced(b: Seq<u8>) -> nat {
    (b[2] as nat) * 256 + (b[3] as nat)
}

/// Decoding the front of a byte buffer.
pub open spec fn decode_spec(b: Seq<u8>) -> Decoded {
    if b.len() < 4 {
        Decoded::Incomplete
    } else if b[0] != HEADER {
        Decoded::Error(CodecError::InvalidHeader(b[0]))
    } else {
        match op_of(b[1]) {
            None => Decoded::Error(CodecError::InvalidOperation(b[1])),
            Some(op) => if b.len() < 4 + announced(b) {
                Decoded::Incomplete
            } else {
                Decoded::Frame(op, b.subrange(4, 4 + announced(b) as int), 4 + announced(b))
            },
        }
    }
}

/// Socket protocol codec.
#[derive(Debug, Default)]
pub struct SocketCodec;

fn copy_range(src: &Vec<u8>, lo: usize, hi: usize) -> (out: Vec<u8>)
    requires
        lo <= hi <= src.len(),
    ensures
        out@ == src@.subrange(lo as int, hi as int),
{
    let mut out: Vec<u8> = Vec::new();
    let mut i: usize = lo;
    while i < hi
        invariant
            lo <= i <= hi <= src.len(),
            out@ == src@.subrange(lo as int, i as int),
        decreases hi - i,
    {
        out.push(src[i]);
        assert(src@.subrange(lo as int, i + 1) == src@.subrange(lo as int, i as int).push(src@[i as int]));
        i = i + 1;
    }
    out
}

impl SocketCodec {
    /// Decodes one frame from the front of `src`, removing it; `Ok(None)`
    /// (with `src` untouched) while the frame is incomplete.
    pub fn decode(&mut self, src: &mut Vec<u8>) -> (r: Result<Option<(Op, Vec<u8>)>, CodecError>)
        ensures
            match decode_spec(old(src)@) {
                Decoded::Incomplete => r matches Ok(None) && final(src)@ == old(src)@,
                Decoded::Error(e) => r == Err::<Option<(Op, Vec<u8>)>, CodecError>(e) && final(src)@ == old(src)@,
                Decoded::Frame(op, payload, used) => r matches Ok(Some((o, p))) && o == op && p@ == payload
                    && final(src)@ == old(src)@.skip(used as int),
            },
    {
        if src.len() < 4 {
            return Ok(None);
        }
        let header = src[0];
        if header != HEADER {
            return Err(CodecError::InvalidHeader(header));
        }
        let op = match Op::try_from(src[1]) {
            Ok(op) => op,
            Err(e) => return Err(e),
        };
        let len = (src[2] as usize) * 256 + src[3] as usize;
        if src.len() < 4 + len {
            return Ok(None);
        }
        let payload = copy_range(src, 4, 4 + len);
        let rest = copy_range(src, 4 + len, src.len());
        *src = rest;
        Ok(Some((op, payload)))
    }

    /// Appends the frame of `item` to `dst`.
    pub fn encode(&mut self, item: (Op, Vec<u8>), dst: &mut Vec<u8>) -> (r: Result<(), CodecError>)
        ensures
            r is Ok,
            final(dst)@ == old(dst)@ + frame_spec(item.0, item.1@),
    {
        let (op, payload) = item;
        let n = payload.len() % 65536;
        dst.push(HEADER);
        dst.push(op.code());
        dst.push((n / 256) as u8);
        dst.push((n % 256) as u8);
        let mut i: usize = 0;
        let ghost head = dst@;
        while i < payload.len()
            invariant
                i <= payload.len(),
                dst@ == head + payload@.take(i as int),
            decreases payload.len() - i,
        {
            dst.push(payload[i]);
            assert(payload@.take(i + 1) == payload@.take(i as int).push(payload@[i as int]));
            i = i + 1;
        }
        assert(payload@.take(payload.len() as int) == payload@);
        assert(dst@ =~= old(dst)@ + frame_spec(op, payload@));
        Ok(())
    }
}

/// The frame of a message, as bytes.
pub fn msg_to_frame(msg: (Op, Vec<u8>)) -> (r: Result<Vec<u8>, CodecError>)
    ensures
        r matches Ok(f) && f@ == frame_spec(msg.0, msg.1@),
{
    let mut frame: Vec<u8> = Vec::new();
    let mut codec = SocketCodec;
    let _ = codec.encode(msg, &mut frame);
    assert(frame@ =~= frame_spec(msg.0, msg.1@));
    Ok(frame)
}

/// A frame decodes back to what it carries, whatever follows it, as long
/// as the payload fits the 16-bit length field.
pub proof fn law_frame_roundtrip(op: Op, payload: Seq<u8>, rest: Seq<u8>)
    requires
        payload.len() <= 65535,
    ensures
        decode_spec(frame_spec(op, payload) + rest) == Decoded::Frame(op, payload, 4 + payload.len()),
        (frame_spec(op, payload) + rest).skip(4 + payload.len() as int) == rest,
{
    let b = frame_spec(op, payload) + rest;
    let n = payload.len();
    assert(n % 65536 == n);
    assert(announced(b) == n) by {
        assert(b[2] == (n / 256) as u8);
        assert(b[3] == (n % 256) as u8);
        assert((n / 256) * 256 + n % 256 == n) by (nonlinear_arith);
    }
    assert(op_of(op_code(op)) == Some(op));
    assert(b.subrange(4, 4 + n as int) =~= payload);
    assert(b.skip(4 + n as int) =~= rest);
}

/// Any strict prefix of a frame is incomplete: the decoder waits for the
/// rest instead of failing or inventing a frame.
pub proof fn law_partial_frame_waits(op: Op, payload: Seq<u8>, cut: int)
    requires
        payload.len() <= 65535,
        0 <= cut < 4 + payload.len(),
    ensures
        decode_spec(frame_spec(op, payload).take(cut)) == Decoded::Incomplete,
{
    let f = frame_spec(op, payload);
    let b = f.take(cut);
    let n = payload.len();
    if cut >= 4 {
        assert(b[0] == f[0] && b[1] == f[1] && b[2] == f[2] && b[3] == f[3]);
        assert(n % 65536 == n);
        assert((n / 256) * 256 + n % 256 == n) by (nonlinear_arith);
        assert(announced(b) == n);
        assert(op_of(op_code(op)) == Some(op));
    }
}

} // verus!
