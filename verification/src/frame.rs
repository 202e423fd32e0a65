//! The frame codec: one XML document per frame, prefixed by a four-byte
//! big-endian length that counts the prefix itself.

use crate::common::Error;
use vstd::prelude::*;
use vstd::utf8::{decode_utf8, encode_utf8, valid_utf8};

verus! {

/// The frame cap used when the caller has no reason to pick another: 1 MiB.
pub const DEFAULT_MAX_FRAME: u32 = 1048576;

/// Why a frame could not be read or written.
#[derive(Clone, Copy, Debug, PartialEq, Eq, Structural)]
pub enum FrameError {
    /// The length prefix is out of range.
    Framing,
    /// The stream ended inside a frame.
    Truncated,
}

/// The four bytes of `n`, most significant first.
pub open spec fn be_u32(n: int) -> Seq<u8> {
    seq![
        ((n / 0x100_0000) % 0x100) as u8,
        ((n / 0x1_0000) % 0x100) as u8,
        ((n / 0x100) % 0x100) as u8,
        (n % 0x100) as u8,
    ]
}

/// The number that the first four bytes of `b` denote, most significant first.
pub open spec fn be_value(b: Seq<u8>) -> int
    recommends
        b.len() >= 4,
{
    b[0] as int * 0x100_0000 + b[1] as int * 0x1_0000 + b[2] as int * 0x100 + b[3] as int
}

/// The wire form of a payload: the prefix, then the payload.
pub open spec fn frame_of(payload: Seq<u8>) -> Seq<u8> {
    be_u32(payload.len() as int + 4) + payload
}

/// Whether `total` is acceptable as the length field of a frame under `max_frame`.
pub open spec fn total_in_range(total: int, max_frame: int) -> bool {
    5 <= total <= max_frame
}

/// What reading one frame from the bytes `stream` (all that arrive before the
/// stream ends) gives.
pub open spec fn read_frame_spec(stream: Seq<u8>, max_frame: int) -> Result<Seq<u8>, FrameError> {
    if stream.len() < 4 {
        Err(FrameError::Truncated)
    } else if !total_in_range(be_value(stream), max_frame) {
        Err(FrameError::Framing)
    } else if stream.len() < be_value(stream) {
        Err(FrameError::Truncated)
    } else {
        Ok(stream.subrange(4, be_value(stream)))
    }
}

/// What writing `payload` as one frame gives.
pub open spec fn write_frame_spec(payload: Seq<u8>, max_frame: int) -> Result<Seq<u8>, FrameError> {
    if payload.len() + 4 > max_frame {
        Err(FrameError::Framing)
    } else {
        Ok(frame_of(payload))
    }
}

/// The big-endian prefix for a frame of `total` bytes.
pub fn encode_length(total: u32) -> (prefix: [u8; 4])
    ensures
        prefix@ == be_u32(total as int),
{
    let b0: u8 = (total / 0x100_0000) as u8;
    let b1: u8 = ((total / 0x1_0000) % 0x100) as u8;
    let b2: u8 = ((total / 0x100) % 0x100) as u8;
    let b3: u8 = (total % 0x100) as u8;
    let prefix: [u8; 4] = [b0, b1, b2, b3];
    assert(prefix@ =~= be_u32(total as int));
    prefix
}

/// The total length that a prefix announces.
pub fn decode_length(prefix: &[u8; 4]) -> (total: u32)
    ensures
        total == be_value(prefix@),
{
    let b0: u32 = prefix[0] as u32;
    let b1: u32 = prefix[1] as u32;
    let b2: u32 = prefix[2] as u32;
    let b3: u32 = prefix[3] as u32;
    b0 * 0x100_0000 + b1 * 0x1_0000 + b2 * 0x100 + b3
}

/// The number of payload bytes that follow a prefix, or `Framing` when the
/// announced total is below five or above `max_frame`.
pub fn payload_length(prefix: &[u8; 4], max_frame: u32) -> (r: Result<u32, FrameError>)
    ensures
        total_in_range(be_value(prefix@), max_frame as int) ==> r == Ok::<u32, FrameError>(
            (be_value(prefix@) - 4) as u32,
        ),
        !total_in_range(be_value(prefix@), max_frame as int) ==> r == Err::<u32, FrameError>(
            FrameError::Framing,
        ),
{
    let total = decode_length(prefix);
    if total < 5 || total > max_frame {
        Err(FrameError::Framing)
    } else {
        Ok(total - 4)
    }
}

/// Reads the first frame of `stream` and returns its payload.
///
/// `stream` holds every byte that arrives before the stream ends. The result
/// is `Truncated` when the stream ends inside the prefix or the payload, and
/// `Framing` when the prefix announces fewer than five bytes or more than
/// `max_frame`.
pub fn read_frame(stream: &[u8], max_frame: u32) -> (r: Result<Vec<u8>, FrameError>)
    ensures
        r is Ok <==> read_frame_spec(stream@, max_frame as int) is Ok,
        r matches Ok(p) ==> read_frame_spec(stream@, max_frame as int) == Ok::<
            Seq<u8>,
            FrameError,
        >(p@),
        r matches Err(e) ==> read_frame_spec(stream@, max_frame as int) == Err::<
            Seq<u8>,
            FrameError,
        >(e),
{
    if stream.len() < 4 {
        return Err(FrameError::Truncated);
    }
    let prefix: [u8; 4] = [stream[0], stream[1], stream[2], stream[3]];
    assert(be_value(prefix@) == be_value(stream@));
    let n = match payload_length(&prefix, max_frame) {
        Ok(n) => n,
        Err(e) => {
            return Err(e);
        },
    };
    if stream.len() - 4 < n as usize {
        return Err(FrameError::Truncated);
    }
    let end: usize = 4 + n as usize;
    let mut payload: Vec<u8> = Vec::new();
    let mut i: usize = 4;
    while i < end
        invariant
            4 <= i <= end <= stream@.len(),
            payload@ == stream@.subrange(4, i as int),
        decreases end - i,
    {
        payload.push(stream[i]);
        i = i + 1;
        assert(payload@ =~= stream@.subrange(4, i as int));
    }
    Ok(payload)
}

/// Writes `payload` as one frame: the prefix, then the payload.
///
/// Fails with `Framing` exactly when the payload and its prefix together
/// exceed `max_frame`.
pub fn write_frame(payload: &[u8], max_frame: u32) -> (r: Result<Vec<u8>, FrameError>)
    ensures
        r is Ok <==> write_frame_spec(payload@, max_frame as int) is Ok,
        r matches Ok(f) ==> write_frame_spec(payload@, max_frame as int) == Ok::<
            Seq<u8>,
            FrameError,
        >(f@),
        r matches Err(e) ==> write_frame_spec(payload@, max_frame as int) == Err::<
            Seq<u8>,
            FrameError,
        >(e),
{
    if max_frame < 4 || payload.len() > (max_frame - 4) as usize {
        return Err(FrameError::Framing);
    }
    let total: u32 = payload.len() as u32 + 4;
    let prefix = encode_length(total);
    let mut out: Vec<u8> = Vec::new();
    out.push(prefix[0]);
    out.push(prefix[1]);
    out.push(prefix[2]);
    out.push(prefix[3]);
    assert(out@ =~= be_u32(total as int));
    let mut i: usize = 0;
    while i < payload.len()
        invariant
            i <= payload@.len(),
            out@ == be_u32(total as int) + payload@.subrange(0, i as int),
        decreases payload@.len() - i,
    {
        out.push(payload[i]);
        i = i + 1;
        assert(out@ =~= be_u32(total as int) + payload@.subrange(0, i as int));
    }
    assert(payload@.subrange(0, payload@.len() as int) =~= payload@);
    Ok(out)
}

/// Decoding the prefix of a length that fits in 32 bits gives the length back.
pub proof fn lemma_be_round_trip(n: int)
    requires
        0 <= n <= u32::MAX,
    ensures
        be_u32(n).len() == 4,
        be_value(be_u32(n)) == n,
{
    let b = be_u32(n);
    assert(b[0] as int == (n / 0x100_0000) % 0x100);
    assert(b[1] as int == (n / 0x1_0000) % 0x100);
    assert(b[2] as int == (n / 0x100) % 0x100);
    assert(b[3] as int == n % 0x100);
}

/// Frame round trip: a non-empty payload that fits under `max_frame` is
/// written as its big-endian total length followed by the payload itself,
/// and reading that frame back gives the payload; bytes that follow the
/// frame on the stream do not matter.
pub proof fn lemma_frame_round_trip(payload: Seq<u8>, max_frame: int, rest: Seq<u8>)
    requires
        0 < payload.len() <= max_frame - 4,
        max_frame <= u32::MAX,
    ensures
        write_frame_spec(payload, max_frame) == Ok::<Seq<u8>, FrameError>(frame_of(payload)),
        frame_of(payload).subrange(0, 4) == be_u32(payload.len() as int + 4),
        read_frame_spec(frame_of(payload) + rest, max_frame) == Ok::<Seq<u8>, FrameError>(
            payload,
        ),
{
    let total: int = payload.len() as int + 4;
    lemma_be_round_trip(total);
    let f = frame_of(payload);
    let s = f + rest;
    assert(f.subrange(0, 4) =~= be_u32(total));
    assert(s[0] == be_u32(total)[0]);
    assert(s[1] == be_u32(total)[1]);
    assert(s[2] == be_u32(total)[2]);
    assert(s[3] == be_u32(total)[3]);
    assert(be_value(s) == total);
    assert(s.subrange(4, total) =~= payload);
}

/// The library's error for a failure of the codec.
pub open spec fn frame_error(e: FrameError) -> Error {
    match e {
        FrameError::Framing => Error::Framing,
        FrameError::Truncated => Error::Truncated,
    }
}

impl Error {
    /// The library's error for a failure of the codec.
    pub fn from_frame(e: FrameError) -> (r: Error)
        ensures
            r == frame_error(e),
    {
        match e {
            FrameError::Framing => Error::Framing,
            FrameError::Truncated => Error::Truncated,
        }
    }
}

/// The string that the bytes encode, where they are UTF-8.
///
/// Trusted: calls `String::from_utf8`, which std documents as failing
/// exactly on bytes that are not UTF-8 and as giving the string of those
/// bytes otherwise.
#[verifier::external_body]
fn string_from_utf8(bytes: Vec<u8>) -> (r: Option<String>)
    ensures
        r is Some <==> valid_utf8(bytes@),
        r matches Some(s) ==> s@ == decode_utf8(bytes@),
{
    String::from_utf8(bytes).ok()
}

/// What reading one document from `stream` gives: the failure of the codec
/// where the frame cannot be read, `Xml` where the payload is not UTF-8,
/// and the payload's text otherwise.
pub open spec fn read_document_frame_spec(stream: Seq<u8>, max_frame: int) -> Result<
    Seq<char>,
    Error,
> {
    match read_frame_spec(stream, max_frame) {
        Err(e) => Err(frame_error(e)),
        Ok(payload) => if valid_utf8(payload) {
            Ok(decode_utf8(payload))
        } else {
            Err(Error::Xml)
        },
    }
}

/// Reads the first frame of `stream` and returns its payload as text.
pub fn read_document_frame(stream: &[u8], max_frame: u32) -> (r: Result<String, Error>)
    ensures
        match read_document_frame_spec(stream@, max_frame as int) {
            Ok(text) => r matches Ok(s) && s@ == text,
            Err(e) => r matches Err(x) && x == e,
        },
{
    match read_frame(stream, max_frame) {
        Err(e) => Err(Error::from_frame(e)),
        Ok(payload) => match string_from_utf8(payload) {
            Some(s) => Ok(s),
            None => Err(Error::Xml),
        },
    }
}

/// Writes the document `xml` as one frame: the prefix, then the UTF-8
/// bytes of the text. Fails with `Framing` where they exceed `max_frame`.
pub fn write_document_frame(xml: &str, max_frame: u32) -> (r: Result<Vec<u8>, Error>)
    ensures
        match write_frame_spec(encode_utf8(xml@), max_frame as int) {
            Ok(frame) => r matches Ok(f) && f@ == frame,
            Err(e) => r matches Err(x) && x == frame_error(e),
        },
{
    match write_frame(xml.as_bytes(), max_frame) {
        Ok(f) => Ok(f),
        Err(e) => Err(Error::from_frame(e)),
    }
}

/// Document round trip over the wire: a non-empty document that fits
/// under `max_frame` is read back from its frame as the same text.
pub proof fn lemma_document_frame_round_trip(text: Seq<char>, max_frame: int, rest: Seq<u8>)
    requires
        0 < encode_utf8(text).len() <= max_frame - 4,
        max_frame <= u32::MAX,
    ensures
        read_document_frame_spec(frame_of(encode_utf8(text)) + rest, max_frame) == Ok::<
            Seq<char>,
            Error,
        >(text),
{
    lemma_frame_round_trip(encode_utf8(text), max_frame, rest);
    vstd::utf8::encode_utf8_valid_utf8(text);
    vstd::utf8::encode_utf8_decode_utf8(text);
}

} // verus!
