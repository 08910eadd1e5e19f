//! The frame decoder: validates one received datagram and parses the
//! fixed 32-byte USRP header plus the trailing type-dependent payload.
//!
//! A datagram shorter than the full header is a malformed frame, never a
//! panic; magic bytes other than `"USRP"` are tolerated deliberately (the
//! frame is still decoded, with `magic_ok` recording the mismatch).

use vstd::prelude::*;
use vstd::slice::{slice_subrange, slice_to_vec};
use vstd::utf8::{decode_utf8, valid_utf8};

verus! {

/// Frame type selector: voice audio payload.
pub const USRP_TYPE_VOICE: u32 = 0;

/// Frame type selector: DTMF signaling (unhandled).
pub const USRP_TYPE_DTMF: u32 = 1;

/// Frame type selector: text / TLV metadata payload.
pub const USRP_TYPE_TEXT: u32 = 2;

/// Frame type selector: liveness ping (no state effect).
pub const USRP_TYPE_PING: u32 = 3;

/// Frame type selector: raw TLV (unhandled).
pub const USRP_TYPE_TLV: u32 = 4;

/// Frame type selector: ADPCM-coded voice (unhandled).
pub const USRP_TYPE_VOICE_ADPCM: u32 = 5;

/// Frame type selector: u-law-coded voice (unhandled).
pub const USRP_TYPE_VOICE_ULAW: u32 = 6;

/// Tag byte that marks a TEXT payload as caller identification.
pub const TLV_TAG_SET_INFO: u8 = 8;

/// Total length of the fixed USRP header that precedes the payload.
pub const HEADER_LEN: usize = 32;

/// The four magic bytes every conforming datagram starts with: ASCII `"USRP"`.
pub open spec fn magic_bytes() -> Seq<u8> {
    seq![0x55u8, 0x53u8, 0x52u8, 0x50u8]
}

/// The unsigned 32-bit value stored big-endian at offset `off` of `b`.
pub open spec fn be32(b: Seq<u8>, off: int) -> u32
    recommends
        0 <= off,
        off + 4 <= b.len(),
{
    (b[off] * 0x100_0000 + b[off + 1] * 0x1_0000 + b[off + 2] * 0x100 + b[off + 3]) as u32
}

/// The unsigned 32-bit value stored little-endian at offset `off` of `b`.
pub open spec fn le32(b: Seq<u8>, off: int) -> u32
    recommends
        0 <= off,
        off + 4 <= b.len(),
{
    (b[off + 3] * 0x100_0000 + b[off + 2] * 0x1_0000 + b[off + 1] * 0x100 + b[off]) as u32
}

/// Why a datagram could not be decoded into a frame.
#[derive(Clone, Copy, Debug, PartialEq, Eq, Structural)]
pub enum DecodeError {
    /// The datagram is shorter than the fixed 32-byte header.
    FrameTooShort,
    /// The four magic bytes are not valid UTF-8 text.
    Utf8DecodeError,
}

/// The view of a decoded [`Frame`]: header scalars plus the payload bytes.
#[verifier::ext_equal]
pub ghost struct FrameView {
    pub magic_ok: bool,
    pub sequence: u32,
    pub memory_slot: u32,
    pub keyup: u32,
    pub talkgroup: u32,
    pub frame_type: u32,
    pub payload: Seq<u8>,
}

/// One decoded USRP frame: the six header scalars, whether the magic
/// matched `"USRP"`, and the payload bytes after the 32-byte header.
#[derive(Debug)]
pub struct Frame {
    pub magic_ok: bool,
    pub sequence: u32,
    pub memory_slot: u32,
    pub keyup: u32,
    pub talkgroup: u32,
    pub frame_type: u32,
    pub payload: Vec<u8>,
}

impl View for Frame {
    type V = FrameView;

    open spec fn view(&self) -> FrameView {
        FrameView {
            magic_ok: self.magic_ok,
            sequence: self.sequence,
            memory_slot: self.memory_slot,
            keyup: self.keyup,
            talkgroup: self.talkgroup,
            frame_type: self.frame_type,
            payload: self.payload@,
        }
    }
}

/// Decoding succeeds exactly when the datagram carries the whole header
/// and its magic field is valid text.
pub open spec fn spec_decode_ok(b: Seq<u8>) -> bool {
    b.len() >= 32 && valid_utf8(b.subrange(0, 4))
}

/// The error a failing decode reports: a length error for any datagram
/// shorter than the header, otherwise a text-decode error for the magic.
pub open spec fn spec_decode_err(b: Seq<u8>) -> DecodeError {
    if b.len() < 32 {
        DecodeError::FrameTooShort
    } else {
        DecodeError::Utf8DecodeError
    }
}

/// The frame a successful decode of `b` yields.
pub open spec fn spec_frame(b: Seq<u8>) -> FrameView
    recommends
        b.len() >= 32,
{
    FrameView {
        magic_ok: b.subrange(0, 4) == magic_bytes(),
        sequence: be32(b, 4),
        memory_slot: le32(b, 8),
        keyup: be32(b, 12),
        talkgroup: be32(b, 16),
        frame_type: be32(b, 20),
        payload: b.subrange(32, b.len() as int),
    }
}

/// Relies on `str::from_utf8`: it succeeds exactly on valid UTF-8 input
/// and decodes it to the characters `vstd::utf8::decode_utf8` describes.
#[verifier::external_body]
pub(crate) fn bytes_to_str<'a>(b: &'a [u8]) -> (r: Option<&'a str>)
    ensures
        r is Some <==> valid_utf8(b@),
        r matches Some(s) ==> s@ == decode_utf8(b@),
{
    match std::str::from_utf8(b) {
        Ok(s) => Some(s),
        Err(_) => None,
    }
}

/// Reads the big-endian 32-bit scalar at offset `off` of `b`.
fn read_be32(b: &[u8], off: usize) -> (r: u32)
    requires
        off + 4 <= b@.len(),
        off + 4 <= usize::MAX,
    ensures
        r == be32(b@, off as int),
{
    (b[off] as u32) * 0x100_0000 + (b[off + 1] as u32) * 0x1_0000 + (b[off + 2] as u32) * 0x100
        + (b[off + 3] as u32)
}

/// Reads the little-endian 32-bit scalar at offset `off` of `b`.
fn read_le32(b: &[u8], off: usize) -> (r: u32)
    requires
        off + 4 <= b@.len(),
        off + 4 <= usize::MAX,
    ensures
        r == le32(b@, off as int),
{
    (b[off + 3] as u32) * 0x100_0000 + (b[off + 2] as u32) * 0x1_0000 + (b[off + 1] as u32) * 0x100
        + (b[off] as u32)
}

/// Decodes one datagram into a frame.
///
/// Any datagram shorter than the 32-byte header fails with
/// [`DecodeError::FrameTooShort`]; magic bytes that are not valid text
/// fail with [`DecodeError::Utf8DecodeError`]; everything else decodes,
/// including frames whose magic is valid text other than `"USRP"` —
/// those merely carry `magic_ok == false` (deliberate leniency).
pub fn decode_frame(b: &[u8]) -> (r: Result<Frame, DecodeError>)
    ensures
        r is Ok <==> spec_decode_ok(b@),
        r matches Ok(f) ==> f@ == spec_frame(b@),
        r matches Err(e) ==> e == spec_decode_err(b@),
{
    if b.len() < HEADER_LEN {
        return Err(DecodeError::FrameTooShort);
    }
    let magic = slice_subrange(b, 0, 4);
    if bytes_to_str(magic).is_none() {
        return Err(DecodeError::Utf8DecodeError);
    }
    let magic_ok = magic[0] == 0x55 && magic[1] == 0x53 && magic[2] == 0x52 && magic[3] == 0x50;
    proof {
        if magic_ok {
            assert(b@.subrange(0, 4) =~= magic_bytes());
        } else {
            assert(b@.subrange(0, 4) != magic_bytes());
        }
    }
    let frame = Frame {
        magic_ok,
        sequence: read_be32(b, 4),
        memory_slot: read_le32(b, 8),
        keyup: read_be32(b, 12),
        talkgroup: read_be32(b, 16),
        frame_type: read_be32(b, 20),
        payload: slice_to_vec(slice_subrange(b, HEADER_LEN, b.len())),
    };
    assert(frame@ =~= spec_frame(b@));
    Ok(frame)
}

} // verus!
