//! Length-prefixed framing of IPC messages.
//!
//! Each message on a stream socket is a 4-byte little-endian length
//! followed by that many payload bytes (the JSON text of the message).
use vstd::prelude::*;
use crate::text::{chars_of, decimal, lowercase, lowercase_of, occurs, occurs_in, push_decimal, push_str};

verus! {

/// Largest payload a frame may carry (16 MiB).
pub const MAX_MESSAGE_SIZE: usize = 16 * 1024 * 1024;

/// Size of the length prefix in bytes.
pub const LENGTH_PREFIX_SIZE: usize = 4;

/// The four little-endian bytes of `n` (taken modulo 2^32).
pub open spec fn le_bytes(n: nat) -> Seq<u8> {
    seq![
        (n % 256) as u8,
        ((n / 256) % 256) as u8,
        ((n / 65536) % 256) as u8,
        ((n / 16777216) % 256) as u8,
    ]
}

/// The number that four little-endian bytes stand for.
pub open spec fn le_value(b: Seq<u8>) -> nat {
    (b[0] + 256 * b[1] + 65536 * b[2] + 16777216 * b[3]) as nat
}

/// The frame that carries `payload`.
pub open spec fn frame_of(payload: Seq<u8>) -> Seq<u8> {
    le_bytes(payload.len()) + payload
}

/// What the front of a receive buffer holds.
pub enum FrameOutcome {
    /// Not enough bytes for a whole frame yet.
    NeedMore,
    /// The length prefix announces more than `MAX_MESSAGE_SIZE` bytes.
    TooLarge(nat),
    /// A whole frame: its payload and the number of bytes it occupies.
    Frame(Seq<u8>, nat),
}

/// How the front of `buf` splits into a frame.
pub open spec fn split_outcome(buf: Seq<u8>) -> FrameOutcome {
    if buf.len() < LENGTH_PREFIX_SIZE {
        FrameOutcome::NeedMore
    } else {
        let len = le_value(buf.take(4));
        if len > MAX_MESSAGE_SIZE {
            FrameOutcome::TooLarge(len)
        } else if buf.len() < LENGTH_PREFIX_SIZE + len {
            FrameOutcome::NeedMore
        } else {
            FrameOutcome::Frame(buf.subrange(4, 4 + len as int), 4 + len)
        }
    }
}

/// Errors of the framing layer.
#[derive(Debug, Clone, Copy)]
pub enum WireError {
    /// A payload, or an announced payload, of `len` bytes exceeds
    /// `MAX_MESSAGE_SIZE`.
    TooLarge { len: usize },
}

/// The text of a `TooLarge` error for a payload of `len` bytes.
pub open spec fn too_large_text(len: nat) -> Seq<char> {
    "Message too large: "@ + decimal(len) + " bytes (max "@ + decimal(MAX_MESSAGE_SIZE as nat) + ")"@
}

impl WireError {
    /// Human-readable description of the error.
    pub fn message(&self) -> (s: String)
        ensures
            match *self {
                WireError::TooLarge { len } => s@ == too_large_text(len as nat),
            },
    {
        match self {
            WireError::TooLarge { len } => {
                let mut s = String::new();
                push_str(&mut s, "Message too large: ");
                push_decimal(&mut s, *len as u64);
                push_str(&mut s, " bytes (max ");
                push_decimal(&mut s, MAX_MESSAGE_SIZE as u64);
                push_str(&mut s, ")");
                s
            },
        }
    }
}

/// The result of looking for a frame at the front of a receive buffer.
#[derive(Debug)]
pub enum FrameSplit {
    /// Not enough bytes for a whole frame yet.
    NeedMore,
    /// The length prefix announces `len` bytes, more than `MAX_MESSAGE_SIZE`.
    TooLarge { len: usize },
    /// A whole frame: its payload and the number of bytes it occupies.
    Frame { payload: Vec<u8>, consumed: usize },
}

impl FrameSplit {
    /// The outcome this value stands for.
    pub open spec fn outcome(&self) -> FrameOutcome {
        match self {
            FrameSplit::NeedMore => FrameOutcome::NeedMore,
            FrameSplit::TooLarge { len } => FrameOutcome::TooLarge(*len as nat),
            FrameSplit::Frame { payload, consumed } => FrameOutcome::Frame(payload@, *consumed as nat),
        }
    }
}

proof fn lemma_le_roundtrip(x: u32)
    ensures
        (x % 256) + 256 * ((x / 256) % 256) + 65536 * ((x / 65536) % 256) + 16777216 * ((x / 16777216) % 256) == x,
{
    assert((x % 256) + 256 * ((x / 256) % 256) + 65536 * ((x / 65536) % 256) + 16777216 * ((x / 16777216) % 256) == x)
        by (bit_vector);
}

/// Reading back the length prefix of a frame gives the payload length, and
/// the bytes after it are the payload.
pub proof fn lemma_prefix_roundtrip(payload: Seq<u8>)
    requires
        payload.len() <= MAX_MESSAGE_SIZE,
    ensures
        le_value(frame_of(payload).take(4)) == payload.len(),
        frame_of(payload).subrange(4, 4 + payload.len() as int) == payload,
        frame_of(payload).len() == 4 + payload.len(),
{
    let n = payload.len() as u32;
    lemma_le_roundtrip(n);
    let f = frame_of(payload);
    assert(f.take(4) == le_bytes(payload.len()));
    assert(f.subrange(4, 4 + payload.len() as int) =~= payload);
}

/// A frame followed by any further bytes splits off exactly that frame's
/// payload: decoding undoes encoding.
pub proof fn lemma_split_frame_of(payload: Seq<u8>, rest: Seq<u8>)
    requires
        payload.len() <= MAX_MESSAGE_SIZE,
    ensures
        split_outcome(frame_of(payload) + rest) == FrameOutcome::Frame(payload, 4 + payload.len()),
{
    lemma_prefix_roundtrip(payload);
    let buf = frame_of(payload) + rest;
    assert(buf.take(4) == frame_of(payload).take(4));
    assert(buf.subrange(4, 4 + payload.len() as int) == frame_of(payload).subrange(4, 4 + payload.len() as int));
}

/// Encode a payload with a 4-byte little-endian length prefix.
///
/// Fails when the payload is longer than `MAX_MESSAGE_SIZE`.
pub fn encode_frame(payload: &[u8]) -> (res: Result<Vec<u8>, WireError>)
    ensures
        payload@.len() <= MAX_MESSAGE_SIZE ==> (res matches Ok(v) && v@ == frame_of(payload@)),
        payload@.len() > MAX_MESSAGE_SIZE ==> (res matches Err(WireError::TooLarge { len }) && len == payload@.len()),
{
    let n = payload.len();
    if n > MAX_MESSAGE_SIZE {
        return Err(WireError::TooLarge { len: n });
    }
    let mut out: Vec<u8> = Vec::new();
    out.push((n % 256) as u8);
    out.push(((n / 256) % 256) as u8);
    out.push(((n / 65536) % 256) as u8);
    out.push(((n / 16777216) % 256) as u8);
    assert(out@ =~= le_bytes(n as nat));
    let mut i: usize = 0;
    while i < n
        invariant
            n == payload@.len(),
            i <= n,
            out@ == le_bytes(n as nat) + payload@.take(i as int),
        decreases n - i,
    {
        out.push(payload[i]);
        i = i + 1;
        assert(out@ =~= le_bytes(n as nat) + payload@.take(i as int));
    }
    assert(payload@.take(n as int) =~= payload@);
    Ok(out)
}

/// Read the payload length from a length prefix.
///
/// Fails when the announced length exceeds `MAX_MESSAGE_SIZE`.
pub fn decode_length(prefix: &[u8; 4]) -> (res: Result<usize, WireError>)
    ensures
        le_value(prefix@) <= MAX_MESSAGE_SIZE ==> res == Ok::<usize, WireError>(le_value(prefix@) as usize),
        le_value(prefix@) > MAX_MESSAGE_SIZE ==> (res matches Err(WireError::TooLarge { len }) && len == le_value(prefix@)),
{
    let len: u64 = prefix[0] as u64 + 256 * (prefix[1] as u64) + 65536 * (prefix[2] as u64) + 16777216 * (prefix[3] as u64);
    if len > MAX_MESSAGE_SIZE as u64 {
        assert(len <= 0xffff_ffff);
        return Err(WireError::TooLarge { len: len as usize });
    }
    Ok(len as usize)
}

/// Look for a whole frame at the front of `buf`.
pub fn split_frame(buf: &[u8]) -> (res: FrameSplit)
    ensures
        res.outcome() == split_outcome(buf@),
{
    if buf.len() < LENGTH_PREFIX_SIZE {
        return FrameSplit::NeedMore;
    }
    let prefix: [u8; 4] = [buf[0], buf[1], buf[2], buf[3]];
    assert(prefix@ =~= buf@.take(4));
    match decode_length(&prefix) {
        Err(WireError::TooLarge { len }) => FrameSplit::TooLarge { len },
        Ok(len) => {
            if buf.len() - LENGTH_PREFIX_SIZE < len {
                return FrameSplit::NeedMore;
            }
            let buf_len = buf.len();
            let mut payload: Vec<u8> = Vec::new();
            let mut i: usize = 0;
            while i < len
                invariant
                    buf_len == buf@.len(),
                    4 + len <= buf@.len(),
                    i <= len,
                    payload@ == buf@.subrange(4, 4 + i as int),
                decreases len - i,
            {
                payload.push(buf[4 + i]);
                i = i + 1;
                assert(payload@ =~= buf@.subrange(4, 4 + i as int));
            }
            FrameSplit::Frame { payload, consumed: 4 + len }
        },
    }
}

/// Error of receiving a message from a stream.
#[derive(Debug)]
pub enum DecodeError {
    /// Timeout or would-block — no data available yet (expected during polling).
    Timeout,
    /// A real I/O or deserialization error.
    Other(String),
}

impl DecodeError {
    /// Returns true if this is a timeout/would-block error (expected during polling).
    pub fn is_timeout(&self) -> (b: bool)
        ensures
            b == (*self is Timeout),
    {
        match self {
            DecodeError::Timeout => true,
            DecodeError::Other(_) => false,
        }
    }

    /// The text shown for the error: "timeout", or the error's own text.
    pub fn message(&self) -> (m: String)
        ensures
            *self is Timeout ==> m@ == "timeout"@,
            self matches DecodeError::Other(t) ==> m@ == t@,
    {
        match self {
            DecodeError::Timeout => "timeout".to_string(),
            DecodeError::Other(t) => t.clone(),
        }
    }
}

/// Whether a read error text reports a timeout or would-block condition:
/// its lowercase form contains one of the phrases that the platforms use.
pub open spec fn reports_timeout(message: Seq<char>) -> bool {
    let l = lowercase_of(message);
    ||| occurs_in("timed out"@, l)
    ||| occurs_in("would block"@, l)
    ||| occurs_in("wouldblock"@, l)
    ||| occurs_in("resource temporarily unavailable"@, l)
    ||| occurs_in("os error 35"@, l)
    ||| occurs_in("os error 11"@, l)
}

/// Classify the text of a failed read: timeouts (normal while polling)
/// become `Timeout`, everything else `Other` with the text unchanged.
pub fn classify_read_error(message: &str) -> (e: DecodeError)
    ensures
        reports_timeout(message@) ==> e is Timeout,
        !reports_timeout(message@) ==> (e matches DecodeError::Other(m) && m@ == message@),
{
    let lower = lowercase(message);
    let l = chars_of(lower.as_str());
    let timeout = occurs(&chars_of("timed out"), &l) || occurs(&chars_of("would block"), &l)
        || occurs(&chars_of("wouldblock"), &l) || occurs(&chars_of("resource temporarily unavailable"), &l)
        || occurs(&chars_of("os error 35"), &l) || occurs(&chars_of("os error 11"), &l);
    if timeout {
        DecodeError::Timeout
    } else {
        DecodeError::Other(message.to_owned())
    }
}

} // verus!
