//! Length-delimited framing: a two-byte big-endian length, then exactly that
//! many bytes.

use vstd::prelude::*;

verus! {

/// Bytes taken by the length prefix of every frame.
pub const LEN_PREFIX: usize = 2;

/// Largest record that a frame can carry (the Noise message limit).
pub const MAX_RECORD_LEN: usize = 65535;

/// Bytes of the authentication tag added by each encryption.
pub const TAG_LEN: usize = 16;

/// Largest application payload: a record less room for the tag.
pub const MAX_PAYLOAD_LEN: usize = 65519;

#[derive(Debug, Clone, Copy, PartialEq, Eq, Structural)]
pub enum FramingError {
    /// An outgoing payload is larger than the frame bound allows.
    Oversized,
    /// The byte stream ended in the middle of a frame.
    Truncated,
}

/// The two prefix bytes for a record of `n` bytes, high byte first.
pub open spec fn length_prefix(n: nat) -> Seq<u8> {
    seq![(n / 256) as u8, (n % 256) as u8]
}

/// The wire form of a record: its length prefix, then the record.
pub open spec fn frame_bytes(p: Seq<u8>) -> Seq<u8> {
    length_prefix(p.len()) + p
}

/// The length that the first two bytes of `s` declare.
pub open spec fn declared_len(s: Seq<u8>) -> nat
    recommends
        s.len() >= 2,
{
    s[0] as nat * 256 + s[1] as nat
}

/// The first frame at the start of `s`: its record and the number of bytes
/// it takes, or `None` while the bytes for a whole frame are not all there.
pub open spec fn parse_frame(s: Seq<u8>) -> Option<(Seq<u8>, nat)> {
    if s.len() < 2 || s.len() < 2 + declared_len(s) {
        None
    } else {
        Some((s.subrange(2, 2 + declared_len(s) as int), 2 + declared_len(s)))
    }
}

/// The length declared by a frame's two-byte header.
pub fn frame_length(header: &[u8]) -> (r: usize)
    requires
        header@.len() >= 2,
    ensures
        r as nat == declared_len(header@),
        r <= MAX_RECORD_LEN,
{
    header[0] as usize * 256 + header[1] as usize
}

/// Frames a record of at most `MAX_RECORD_LEN` bytes.
pub(crate) fn frame_record(record: &[u8]) -> (r: Vec<u8>)
    requires
        record@.len() <= MAX_RECORD_LEN,
    ensures
        r@ == frame_bytes(record@),
{
    let n = record.len();
    let mut out: Vec<u8> = Vec::with_capacity(n + LEN_PREFIX);
    out.push((n / 256) as u8);
    out.push((n % 256) as u8);
    let mut i: usize = 0;
    while i < n
        invariant
            n == record@.len(),
            i <= n,
            out@ == length_prefix(n as nat) + record@.subrange(0, i as int),
        decreases n - i,
    {
        out.push(record[i]);
        i += 1;
        assert(record@.subrange(0, i as int) == record@.subrange(0, i - 1) + seq![record@[i - 1]]);
    }
    assert(record@.subrange(0, n as int) == record@);
    out
}

/// Wraps an application payload in a frame. A payload of more than
/// `MAX_PAYLOAD_LEN` bytes is refused, so that its encryption still fits.
pub fn encode_frame(payload: &[u8]) -> (r: Result<Vec<u8>, FramingError>)
    ensures
        match r {
            Ok(f) => payload@.len() <= MAX_PAYLOAD_LEN && f@ == frame_bytes(payload@),
            Err(e) => payload@.len() > MAX_PAYLOAD_LEN && e == FramingError::Oversized,
        },
{
    if payload.len() > MAX_PAYLOAD_LEN {
        Err(FramingError::Oversized)
    } else {
        Ok(frame_record(payload))
    }
}

/// Reads the first frame at the start of `buf`. Returns the record and the
/// number of bytes the frame took, or `None` when `buf` does not yet hold the
/// whole frame: a short record is never returned.
pub fn decode_frame(buf: &[u8]) -> (r: Option<(Vec<u8>, usize)>)
    ensures
        match r {
            Some((p, used)) => parse_frame(buf@) == Some((p@, used as nat)),
            None => parse_frame(buf@) is None,
        },
{
    if buf.len() < LEN_PREFIX {
        return None;
    }
    let n = frame_length(buf);
    if buf.len() - LEN_PREFIX < n {
        return None;
    }
    let end = n + LEN_PREFIX;
    let mut out: Vec<u8> = Vec::with_capacity(n);
    let mut i: usize = LEN_PREFIX;
    while i < end
        invariant
            end == n + 2,
            end <= buf@.len(),
            2 <= i <= end,
            out@ == buf@.subrange(2, i as int),
        decreases end - i,
    {
        out.push(buf[i]);
        i += 1;
        assert(buf@.subrange(2, i as int) == buf@.subrange(2, i - 1) + seq![buf@[i - 1]]);
    }
    Some((out, end))
}

/// Reads the first frame of what is left once the stream has ended: none
/// when nothing is left, the frame when it is whole, and `Truncated` when the
/// stream ended inside it.
pub fn decode_at_end(buf: &[u8]) -> (r: Result<Option<(Vec<u8>, usize)>, FramingError>)
    ensures
        buf@.len() == 0 ==> r == Ok::<Option<(Vec<u8>, usize)>, FramingError>(None),
        buf@.len() > 0 ==> match r {
            Ok(Some((p, used))) => parse_frame(buf@) == Some((p@, used as nat)),
            Ok(None) => false,
            Err(e) => parse_frame(buf@) is None && e == FramingError::Truncated,
        },
{
    if buf.len() == 0 {
        return Ok(None);
    }
    match decode_frame(buf) {
        Some(f) => Ok(Some(f)),
        None => Err(FramingError::Truncated),
    }
}

/// Decoding what `encode_frame` produced gives back the payload and the
/// whole frame's length, whatever bytes follow it in the stream.
pub proof fn lemma_frame_round_trip(payload: Seq<u8>, rest: Seq<u8>)
    requires
        payload.len() <= MAX_PAYLOAD_LEN,
    ensures
        parse_frame(frame_bytes(payload) + rest) == Some((payload, payload.len() + 2)),
{
    let s = frame_bytes(payload) + rest;
    let n = payload.len();
    assert(s[0] == (n / 256) as u8);
    assert(s[1] == (n % 256) as u8);
    assert(declared_len(s) == n);
    assert(s.subrange(2, 2 + n as int) == payload);
}

} // verus!
