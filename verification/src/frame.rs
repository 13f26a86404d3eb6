//! The wire frame: an 8-byte header carrying a protocol version, three
//! reserved pass-through bytes, and a little-endian 32-bit payload length.

use vstd::prelude::*;

verus! {

/// Why an 8-byte header failed to decode.
#[derive(Debug, Clone, Copy, PartialEq, Eq, Structural)]
pub enum FrameError {
    /// Byte 0 of the header was not the supported protocol version 1;
    /// carries the byte that was observed.
    InvalidVersion(u8),
    /// The length field decoded to 0, which the protocol forbids.
    ZeroMessageLength,
}

/// The fixed 8-byte message header. The reserved bytes are unused but must
/// round-trip unchanged; `msg_len` counts the payload bytes that follow the
/// header and must be greater than 0 in a valid frame.
#[derive(Debug, Clone, Copy, PartialEq, Eq, Structural)]
pub struct Frame {
    pub version: u8,
    pub p1: u8,
    pub p2: u8,
    pub p3: u8,
    pub msg_len: u32,
}

/// The payload length carried by an 8-byte header: bytes 4..8 read as a
/// little-endian 32-bit integer.
pub open spec fn spec_payload_len(b: Seq<u8>) -> u32
    recommends
        b.len() == 8,
{
    (b[4] as u32) | ((b[5] as u32) << 8) | ((b[6] as u32) << 16) | ((b[7] as u32) << 24)
}

/// What decoding an 8-byte header yields: the version byte is checked
/// first, then the length field; a header that passes both checks is
/// preserved field for field.
pub open spec fn spec_decode(b: Seq<u8>) -> Result<Frame, FrameError>
    recommends
        b.len() == 8,
{
    if b[0] != 1 {
        Err(FrameError::InvalidVersion(b[0]))
    } else if spec_payload_len(b) == 0 {
        Err(FrameError::ZeroMessageLength)
    } else {
        Ok(
            Frame {
                version: b[0],
                p1: b[1],
                p2: b[2],
                p3: b[3],
                msg_len: spec_payload_len(b),
            },
        )
    }
}

/// The 8 header bytes a frame encodes to: the version byte, the three
/// reserved bytes unchanged, and the length as 4 little-endian bytes.
pub open spec fn spec_encode(f: Frame) -> Seq<u8> {
    seq![
        f.version,
        f.p1,
        f.p2,
        f.p3,
        (f.msg_len & 0xff) as u8,
        ((f.msg_len >> 8) & 0xff) as u8,
        ((f.msg_len >> 16) & 0xff) as u8,
        ((f.msg_len >> 24) & 0xff) as u8,
    ]
}

/// A frame the protocol accepts: version 1 and a non-zero payload length.
pub open spec fn spec_valid_frame(f: Frame) -> bool {
    f.version == 1 && f.msg_len > 0
}

impl Frame {
    /// A fresh frame with the given version and length; the reserved bytes
    /// of a frame built this way are zero.
    pub fn new(version: u8, msg_len: u32) -> (f: Frame)
        ensures
            f == (Frame { version, p1: 0, p2: 0, p3: 0, msg_len }),
    {
        Frame { version, p1: 0, p2: 0, p3: 0, msg_len }
    }

    /// Decode an 8-byte header. Fails with `InvalidVersion` carrying the
    /// observed byte if byte 0 is not 1, with `ZeroMessageLength` if the
    /// length field is 0, and otherwise returns the header's fields exactly
    /// as received.
    pub fn from_bytes(buff: &[u8; 8]) -> (r: Result<Frame, FrameError>)
        ensures
            r == spec_decode(buff@),
            r is Err <==> (buff@[0] != 1 || spec_payload_len(buff@) == 0),
            r matches Ok(f) ==> spec_valid_frame(f),
    {
        let version = buff[0];
        if version != 1 {
            return Err(FrameError::InvalidVersion(version));
        }
        let msg_length = (buff[4] as u32) | ((buff[5] as u32) << 8) | ((buff[6] as u32) << 16) | (
        (buff[7] as u32) << 24);
        if msg_length == 0 {
            return Err(FrameError::ZeroMessageLength);
        }
        Ok(Frame { version, p1: buff[1], p2: buff[2], p3: buff[3], msg_len: msg_length })
    }

    /// Encode the frame as its 8 header bytes.
    pub fn as_bytes(&self) -> (r: [u8; 8])
        ensures
            r@ == spec_encode(*self),
    {
        let b4 = (self.msg_len & 0xff) as u8;
        let b5 = ((self.msg_len >> 8) & 0xff) as u8;
        let b6 = ((self.msg_len >> 16) & 0xff) as u8;
        let b7 = ((self.msg_len >> 24) & 0xff) as u8;
        let r = [self.version, self.p1, self.p2, self.p3, b4, b5, b6, b7];
        proof {
            assert(r@ =~= spec_encode(*self));
        }
        r
    }
}

/// Law: decoding never accepts a header whose version byte is not 1, and
/// the error carries the byte that was observed.
pub proof fn lemma_bad_version_rejected(b: Seq<u8>)
    requires
        b.len() == 8,
        b[0] != 1,
    ensures
        spec_decode(b) == Err::<Frame, FrameError>(FrameError::InvalidVersion(b[0])),
{
}

/// Law: a header whose length field is 0 never decodes successfully,
/// whatever its version and reserved bytes hold.
pub proof fn lemma_zero_length_never_decodes(b: Seq<u8>)
    requires
        b.len() == 8,
        spec_payload_len(b) == 0,
    ensures
        spec_decode(b) is Err,
{
}

/// Law: under the supported version, a zero length field is rejected as
/// `ZeroMessageLength`, whatever the reserved bytes hold. (With a bad
/// version byte the version error takes precedence.)
pub proof fn lemma_zero_length_rejected(b: Seq<u8>)
    requires
        b.len() == 8,
        b[0] == 1,
        spec_payload_len(b) == 0,
    ensures
        spec_decode(b) == Err::<Frame, FrameError>(FrameError::ZeroMessageLength),
{
}

/// Law: any 8-byte header that decodes successfully is reproduced exactly,
/// byte for byte, by encoding the decoded frame.
pub proof fn lemma_decode_then_encode(b: Seq<u8>)
    requires
        b.len() == 8,
        spec_decode(b) is Ok,
    ensures
        spec_encode(spec_decode(b)->Ok_0) == b,
{
    let x = spec_payload_len(b);
    let s0 = b[4] as u32;
    let s1 = b[5] as u32;
    let s2 = b[6] as u32;
    let s3 = b[7] as u32;
    assert((x == (s0 | s1 << 8 | s2 << 16 | s3 << 24) && s0 < 256 && s1 < 256 && s2 < 256 && s3
        < 256) ==> (s0 == (x & 0xff) && s1 == ((x >> 8) & 0xff) && s2 == ((x >> 16) & 0xff) && s3
        == ((x >> 24) & 0xff))) by (bit_vector);
    assert(spec_encode(spec_decode(b)->Ok_0) =~= b);
}

/// Law: every valid frame survives an encode-decode round trip unchanged.
pub proof fn lemma_encode_then_decode(f: Frame)
    requires
        spec_valid_frame(f),
    ensures
        spec_decode(spec_encode(f)) == Ok::<Frame, FrameError>(f),
{
    let x = f.msg_len;
    assert(x & 0xff < 256 && (x >> 8) & 0xff < 256 && (x >> 16) & 0xff < 256 && (x >> 24) & 0xff
        < 256) by (bit_vector);
    assert(x == ((x & 0xff) | ((x >> 8) & 0xff) << 8 | ((x >> 16) & 0xff) << 16 | ((x >> 24) & 0xff)
        << 24)) by (bit_vector);
    assert(spec_payload_len(spec_encode(f)) == f.msg_len);
}

} // verus!
