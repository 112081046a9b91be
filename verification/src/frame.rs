//! Frames and their wire layout.
//!
//! A frame is a nine-byte header followed by its payload:
//!
//! ```text
//! offset 0..3   payload length (24-bit big-endian)
//! offset 3      frame type (one of the codes 0x00 to 0x09)
//! offset 4      flags
//! offset 5..9   stream id (32-bit big-endian, top bit reserved and zero)
//! offset 9..    payload
//! ```

use crate::error::FrameError;
use crate::headers::{default_request_headers, hpack_encoded, FrameHeaders};
use crate::settings::{decode_settings, parse_settings, Setting};
use crate::utils::{declared_len, extract_length};
use crate::wire::{
    be24_bytes, be32, be32_bytes, lemma_be24_of_bytes, lemma_be32_of_bytes, push_u24, push_u32,
    read_u32,
};
use vstd::prelude::*;
use vstd::slice::{slice_subrange, slice_to_vec};
use vstd::std_specs::convert::TryFromSpecImpl;
use vstd::std_specs::convert::TryIntoSpecImpl;
use vstd::std_specs::ops::BitOrSpecImpl;

verus! {

broadcast use vstd::string::group_string_axioms;

/// Length of the fixed frame header in bytes.
pub const HEADER_LEN: usize = 9;

/// The largest payload length that the 24-bit length field can declare.
pub const MAX_PAYLOAD_LEN: u32 = 0xff_ffff;

/// Flag bit: the frame ends its stream.
pub const END_STREAM: u8 = 0x01;

/// Flag bit: the frame ends a header block.
pub const END_HEADERS: u8 = 0x04;

/// Flag bit: the payload is padded.
pub const PADDED: u8 = 0x08;

/// Flag bit: the payload carries priority fields.
pub const PRIORITY: u8 = 0x20;

/// All defined flag bits together.
pub const KNOWN_FLAGS: u8 = 0x2d;

/// What a frame is for. The set is closed: ten codes, `0x00` to `0x09`.
#[derive(Clone, Copy, Debug, PartialEq, Eq, Structural)]
pub enum FrameType {
    DATA,
    HEADERS,
    PRIORITY,
    RSTSTREAM,
    SETTINGS,
    PUSHPROMISE,
    PING,
    GOAWAY,
    WINDOWUPDATE,
    CONTINUATION,
}

impl FrameType {
    /// The code that stands for this frame type on the wire.
    pub open spec fn code(self) -> u8 {
        match self {
            FrameType::DATA => 0x00,
            FrameType::HEADERS => 0x01,
            FrameType::PRIORITY => 0x02,
            FrameType::RSTSTREAM => 0x03,
            FrameType::SETTINGS => 0x04,
            FrameType::PUSHPROMISE => 0x05,
            FrameType::PING => 0x06,
            FrameType::GOAWAY => 0x07,
            FrameType::WINDOWUPDATE => 0x08,
            FrameType::CONTINUATION => 0x09,
        }
    }

    /// The frame type that a code stands for; codes above `0x09` stand for none.
    pub open spec fn of_code(b: u8) -> Result<FrameType, FrameError> {
        if b == 0x00 {
            Ok(FrameType::DATA)
        } else if b == 0x01 {
            Ok(FrameType::HEADERS)
        } else if b == 0x02 {
            Ok(FrameType::PRIORITY)
        } else if b == 0x03 {
            Ok(FrameType::RSTSTREAM)
        } else if b == 0x04 {
            Ok(FrameType::SETTINGS)
        } else if b == 0x05 {
            Ok(FrameType::PUSHPROMISE)
        } else if b == 0x06 {
            Ok(FrameType::PING)
        } else if b == 0x07 {
            Ok(FrameType::GOAWAY)
        } else if b == 0x08 {
            Ok(FrameType::WINDOWUPDATE)
        } else if b == 0x09 {
            Ok(FrameType::CONTINUATION)
        } else {
            Err(FrameError::InvalidFrameType)
        }
    }

    /// The upper-case name of this frame type.
    pub open spec fn name(self) -> Seq<char> {
        match self {
            FrameType::DATA => "DATA"@,
            FrameType::HEADERS => "HEADERS"@,
            FrameType::PRIORITY => "PRIORITY"@,
            FrameType::RSTSTREAM => "RSTSTREAM"@,
            FrameType::SETTINGS => "SETTINGS"@,
            FrameType::PUSHPROMISE => "PUSHPROMISE"@,
            FrameType::PING => "PING"@,
            FrameType::GOAWAY => "GOAWAY"@,
            FrameType::WINDOWUPDATE => "WINDOWUPDATE"@,
            FrameType::CONTINUATION => "CONTINUATION"@,
        }
    }

    /// Decodes a type byte. Fails with `InvalidFrameType` exactly when the
    /// byte is above `0x09`.
    pub fn from_byte(b: u8) -> (r: Result<FrameType, FrameError>)
        ensures
            r == FrameType::of_code(b),
            b <= 0x09 ==> r is Ok,
            b > 0x09 ==> r == Err::<FrameType, FrameError>(FrameError::InvalidFrameType),
    {
        match b {
            0x00 => Ok(FrameType::DATA),
            0x01 => Ok(FrameType::HEADERS),
            0x02 => Ok(FrameType::PRIORITY),
            0x03 => Ok(FrameType::RSTSTREAM),
            0x04 => Ok(FrameType::SETTINGS),
            0x05 => Ok(FrameType::PUSHPROMISE),
            0x06 => Ok(FrameType::PING),
            0x07 => Ok(FrameType::GOAWAY),
            0x08 => Ok(FrameType::WINDOWUPDATE),
            0x09 => Ok(FrameType::CONTINUATION),
            _ => Err(FrameError::InvalidFrameType),
        }
    }

    /// Encodes the frame type as its code. Never fails.
    pub fn to_byte(self) -> (b: u8)
        ensures
            b == self.code(),
            b <= 0x09,
    {
        match self {
            FrameType::DATA => 0x00,
            FrameType::HEADERS => 0x01,
            FrameType::PRIORITY => 0x02,
            FrameType::RSTSTREAM => 0x03,
            FrameType::SETTINGS => 0x04,
            FrameType::PUSHPROMISE => 0x05,
            FrameType::PING => 0x06,
            FrameType::GOAWAY => 0x07,
            FrameType::WINDOWUPDATE => 0x08,
            FrameType::CONTINUATION => 0x09,
        }
    }

    /// The name of the frame type, as it is printed.
    pub fn to_string(&self) -> (s: String)
        ensures
            s@ == self.name(),
    {
        match self {
            FrameType::DATA => "DATA".to_owned(),
            FrameType::HEADERS => "HEADERS".to_owned(),
            FrameType::PRIORITY => "PRIORITY".to_owned(),
            FrameType::RSTSTREAM => "RSTSTREAM".to_owned(),
            FrameType::SETTINGS => "SETTINGS".to_owned(),
            FrameType::PUSHPROMISE => "PUSHPROMISE".to_owned(),
            FrameType::PING => "PING".to_owned(),
            FrameType::GOAWAY => "GOAWAY".to_owned(),
            FrameType::WINDOWUPDATE => "WINDOWUPDATE".to_owned(),
            FrameType::CONTINUATION => "CONTINUATION".to_owned(),
        }
    }
}

/// Every frame type is found again from its code, and a code stands for at
/// most one frame type.
pub proof fn lemma_type_code_roundtrip(t: FrameType, b: u8)
    ensures
        FrameType::of_code(t.code()) == Ok::<FrameType, FrameError>(t),
        FrameType::of_code(b) == Ok::<FrameType, FrameError>(t) <==> t.code() == b,
        FrameType::of_code(b) is Ok <==> b <= 0x09,
{
}

impl TryFrom<u8> for FrameType {
    type Error = FrameError;

    fn try_from(value: u8) -> (r: Result<FrameType, FrameError>) {
        FrameType::from_byte(value)
    }
}

impl TryFromSpecImpl<u8> for FrameType {
    open spec fn obeys_try_from_spec() -> bool {
        true
    }

    open spec fn try_from_spec(value: u8) -> Result<FrameType, FrameError> {
        FrameType::of_code(value)
    }
}

impl TryInto<u8> for FrameType {
    type Error = FrameError;

    fn try_into(self) -> (r: Result<u8, FrameError>) {
        Ok(self.to_byte())
    }
}

impl TryIntoSpecImpl<u8> for FrameType {
    open spec fn obeys_try_into_spec() -> bool {
        true
    }

    open spec fn try_into_spec(self) -> Result<u8, FrameError> {
        Ok(self.code())
    }
}

/// The flags of a frame: a set over `END_STREAM`, `END_HEADERS`, `PADDED` and
/// `PRIORITY`, held as the byte that goes on the wire.
#[derive(Clone, Copy, Debug, PartialEq, Eq, Structural)]
pub struct FrameFlags {
    bits: u8,
}

impl View for FrameFlags {
    type V = u8;

    closed spec fn view(&self) -> u8 {
        self.bits
    }
}

impl FrameFlags {
    /// Only defined flag bits are set.
    pub open spec fn wf(self) -> bool {
        self@ & KNOWN_FLAGS == self@
    }

    /// The set that holds the flags of both `self` and `other`: what `|`
    /// computes.
    pub closed spec fn union(self, other: FrameFlags) -> FrameFlags {
        FrameFlags { bits: self.bits | other.bits }
    }

    /// The empty set of flags.
    pub fn none() -> (r: FrameFlags)
        ensures
            r@ == 0,
            r.wf(),
    {
        assert(0u8 & 0x2d == 0u8) by (bit_vector);
        FrameFlags { bits: 0 }
    }

    /// The flag `END_STREAM` alone.
    pub fn end_stream() -> (r: FrameFlags)
        ensures
            r@ == END_STREAM,
            r.wf(),
    {
        assert(0x01u8 & 0x2d == 0x01u8) by (bit_vector);
        FrameFlags { bits: END_STREAM }
    }

    /// The flag `END_HEADERS` alone.
    pub fn end_headers() -> (r: FrameFlags)
        ensures
            r@ == END_HEADERS,
            r.wf(),
    {
        assert(0x04u8 & 0x2d == 0x04u8) by (bit_vector);
        FrameFlags { bits: END_HEADERS }
    }

    /// The flag `PADDED` alone.
    pub fn padded() -> (r: FrameFlags)
        ensures
            r@ == PADDED,
            r.wf(),
    {
        assert(0x08u8 & 0x2d == 0x08u8) by (bit_vector);
        FrameFlags { bits: PADDED }
    }

    /// The flag `PRIORITY` alone.
    pub fn priority() -> (r: FrameFlags)
        ensures
            r@ == PRIORITY,
            r.wf(),
    {
        assert(0x20u8 & 0x2d == 0x20u8) by (bit_vector);
        FrameFlags { bits: PRIORITY }
    }

    /// Decodes a flags byte. Never fails: bits that are not defined are
    /// dropped.
    pub fn from_byte(b: u8) -> (r: FrameFlags)
        ensures
            r@ == b & KNOWN_FLAGS,
            r.wf(),
    {
        assert((b & 0x2d) & 0x2d == b & 0x2d) by (bit_vector);
        FrameFlags { bits: b & KNOWN_FLAGS }
    }

    /// The flags as the byte that goes on the wire.
    pub fn to_byte(&self) -> (b: u8)
        ensures
            b == self@,
    {
        self.bits
    }

    /// Whether every flag of `other` is also set in `self`.
    pub fn contains(&self, other: FrameFlags) -> (r: bool)
        ensures
            r == (self@ & other@ == other@),
    {
        self.bits & other.bits == other.bits
    }
}

impl core::ops::BitOr for FrameFlags {
    type Output = FrameFlags;

    /// The union of two sets of flags.
    fn bitor(self, rhs: FrameFlags) -> (r: FrameFlags) {
        FrameFlags { bits: self.bits | rhs.bits }
    }
}

impl BitOrSpecImpl for FrameFlags {
    open spec fn obeys_bitor_spec() -> bool {
        true
    }

    open spec fn bitor_req(self, rhs: FrameFlags) -> bool {
        true
    }

    open spec fn bitor_spec(self, rhs: FrameFlags) -> FrameFlags {
        self.union(rhs)
    }
}

/// The union of two sets of flags holds the bits of both, and defined flags
/// stay defined.
pub proof fn lemma_flags_union(a: FrameFlags, b: FrameFlags)
    ensures
        a.union(b)@ == a@ | b@,
        a.wf() && b.wf() ==> a.union(b).wf(),
{
    let x = a@;
    let y = b@;
    assert(x & 0x2d == x && y & 0x2d == y ==> (x | y) & 0x2d == (x | y)) by (bit_vector);
}

/// Two sets of flags with the same bits are the same.
pub proof fn lemma_flags_equal(a: FrameFlags, b: FrameFlags)
    requires
        a@ == b@,
    ensures
        a == b,
{
}

/// A frame as a mathematical value: what a `FrameWriter` or a `FrameReader`
/// holds, with the flags as their byte and the payload as a sequence.
pub struct Frame {
    pub frame_type: FrameType,
    pub flags: u8,
    pub stream_id: u32,
    pub payload_len: u32,
    pub payload: Seq<u8>,
}

impl Frame {
    /// The stored length is the length of the payload, and it fits the
    /// 24-bit length field.
    pub open spec fn wf(self) -> bool {
        &&& self.payload_len == self.payload.len()
        &&& self.payload.len() <= MAX_PAYLOAD_LEN
    }

    /// Only defined flag bits are set.
    pub open spec fn flags_known(self) -> bool {
        self.flags & KNOWN_FLAGS == self.flags
    }
}

/// A stream id with the reserved top bit of its 32-bit field cleared: the
/// id modulo 2^31.
pub open spec fn clear_reserved_bit(stream_id: u32) -> u32 {
    (stream_id % 0x8000_0000) as u32
}

/// The nine header bytes of a frame.
pub open spec fn frame_header(f: Frame) -> Seq<u8> {
    be24_bytes(f.payload_len) + seq![f.frame_type.code(), f.flags] + be32_bytes(
        clear_reserved_bit(f.stream_id),
    )
}

/// The wire bytes of a frame: its header, then its payload verbatim.
pub open spec fn encode_frame(f: Frame) -> Seq<u8> {
    frame_header(f) + f.payload
}

/// What decoding a buffer gives: the frame at its start, or the reason why
/// there is none. A short header is reported first, then an unknown type,
/// then a payload that is not all there. Bytes behind the payload are not
/// looked at.
pub open spec fn decode_frame(buf: Seq<u8>) -> Result<Frame, FrameError> {
    if buf.len() < HEADER_LEN {
        Err(FrameError::BufferTooSmall)
    } else {
        match FrameType::of_code(buf[3]) {
            Err(e) => Err(e),
            Ok(frame_type) => if buf.len() < HEADER_LEN + declared_len(buf) {
                Err(FrameError::TruncatedFrame)
            } else {
                Ok(
                    Frame {
                        frame_type,
                        flags: buf[4] & KNOWN_FLAGS,
                        stream_id: clear_reserved_bit(be32(buf[5], buf[6], buf[7], buf[8]) as u32),
                        payload_len: declared_len(buf) as u32,
                        payload: buf.subrange(
                            HEADER_LEN as int,
                            HEADER_LEN + declared_len(buf),
                        ),
                    },
                )
            },
        }
    }
}

/// A frame to be written to the wire.
#[derive(Debug, PartialEq, Eq)]
pub struct FrameWriter {
    pub frame_type: FrameType,
    pub flags: FrameFlags,
    pub stream_id: u32,
    pub payload_len: u32,
    pub payload: Vec<u8>,
}

impl View for FrameWriter {
    type V = Frame;

    open spec fn view(&self) -> Frame {
        Frame {
            frame_type: self.frame_type,
            flags: self.flags@,
            stream_id: self.stream_id,
            payload_len: self.payload_len,
            payload: self.payload@,
        }
    }
}

impl FrameWriter {
    /// A frame with the given fields. The stored payload length is the length
    /// of `payload`, reduced modulo 2^32; the frame is well formed whenever
    /// the payload fits the 24-bit length field.
    pub fn new(frame_type: FrameType, flags: FrameFlags, stream_id: u32, payload: Vec<u8>) -> (r:
        Self)
        ensures
            r@ == (Frame {
                frame_type,
                flags: flags@,
                stream_id,
                payload_len: (payload@.len() % 0x1_0000_0000) as u32,
                payload: payload@,
            }),
            r.flags == flags,
            payload@.len() <= MAX_PAYLOAD_LEN ==> r@.wf(),
    {
        let len = payload.len();
        assert(len as u32 == (len as u64) % 0x1_0000_0000u64) by (bit_vector);
        FrameWriter { frame_type, flags, stream_id, payload_len: len as u32, payload }
    }

    /// A frame of the given type, flags and stream whose payload is the
    /// compressed header list of a plain request: `GET /` over `https` to
    /// `example.com`. Always succeeds.
    pub fn new_frame_writer(frame_type: FrameType, flags: FrameFlags, stream_id: u32) -> (r: Result<
        Self,
        FrameError,
    >)
        ensures
            r matches Ok(frame) && frame@ == (Frame {
                frame_type,
                flags: flags@,
                stream_id,
                payload_len: (hpack_encoded(default_request_headers()).len()
                    % 0x1_0000_0000) as u32,
                payload: hpack_encoded(default_request_headers()),
            }),
            r matches Ok(frame) && frame.flags == flags && (frame.payload@.len() <= MAX_PAYLOAD_LEN
                ==> frame@.wf()),
    {
        let mut headers = FrameHeaders::new();
        headers.add_header(":method".to_string(), "GET".to_string());
        headers.add_header(":path".to_string(), "/".to_string());
        headers.add_header(":scheme".to_string(), "https".to_string());
        headers.add_header(":authority".to_string(), "example.com".to_string());
        assert(headers@ =~= default_request_headers());
        let payload = headers.serialize();
        Ok(FrameWriter::new(frame_type, flags, stream_id, payload))
    }

    /// The wire bytes of the frame: the nine-byte header, then the payload.
    /// The reserved bit of the stream id is written as zero whatever the
    /// field holds. The frame must be well formed: a payload that does not
    /// fit the 24-bit length field cannot be framed.
    pub fn serialize(self) -> (r: Result<Vec<u8>, FrameError>)
        requires
            self@.wf(),
        ensures
            r matches Ok(bytes) && bytes@ == encode_frame(self@),
            r matches Ok(bytes) && bytes@.len() == HEADER_LEN + self.payload@.len(),
    {
        let mut bytes: Vec<u8> = Vec::with_capacity(HEADER_LEN + (self.payload_len as usize));
        push_u24(&mut bytes, self.payload_len);
        bytes.push(self.frame_type.to_byte());
        bytes.push(self.flags.to_byte());
        let id = self.stream_id;
        assert(id & 0x7fff_ffff == id % 0x8000_0000) by (bit_vector);
        push_u32(&mut bytes, id & 0x7fff_ffff);
        assert(bytes@ =~= frame_header(self@));
        bytes.extend_from_slice(self.payload.as_slice());
        assert(bytes@ =~= encode_frame(self@));
        Ok(bytes)
    }
}

/// A frame that was read from the wire.
#[derive(Debug, PartialEq, Eq)]
pub struct FrameReader {
    pub frame_type: FrameType,
    pub flags: FrameFlags,
    pub stream_id: u32,
    pub payload_len: u32,
    pub payload: Vec<u8>,
}

impl View for FrameReader {
    type V = Frame;

    open spec fn view(&self) -> Frame {
        Frame {
            frame_type: self.frame_type,
            flags: self.flags@,
            stream_id: self.stream_id,
            payload_len: self.payload_len,
            payload: self.payload@,
        }
    }
}

impl FrameReader {
    /// Decodes the frame at the start of `buf`.
    ///
    /// Fails with `BufferTooSmall` when `buf` is shorter than a header, with
    /// `InvalidFrameType` when the type byte is above `0x09`, and with
    /// `TruncatedFrame` when the header declares more payload than `buf`
    /// holds behind it; in this order. Otherwise the frame is returned, with
    /// undefined flag bits dropped and the reserved bit of the stream id
    /// cleared.
    pub fn read_frame(buf: &[u8]) -> (r: Result<Self, FrameError>)
        ensures
            match r {
                Ok(f) => decode_frame(buf@) == Ok::<Frame, FrameError>(f@),
                Err(e) => decode_frame(buf@) == Err::<Frame, FrameError>(e),
            },
            r matches Ok(f) ==> f@.wf() && f.flags.wf() && f.stream_id < 0x8000_0000,
            buf@.len() < HEADER_LEN ==> r == Err::<FrameReader, FrameError>(
                FrameError::BufferTooSmall,
            ),
            buf@.len() >= HEADER_LEN && buf@[3] > 0x09 ==> r == Err::<FrameReader, FrameError>(
                FrameError::InvalidFrameType,
            ),
            buf@.len() >= HEADER_LEN && buf@[3] <= 0x09 && buf@.len() < HEADER_LEN + declared_len(
                buf@,
            ) ==> r == Err::<FrameReader, FrameError>(FrameError::TruncatedFrame),
            buf@.len() >= HEADER_LEN && buf@[3] <= 0x09 && buf@.len() >= HEADER_LEN + declared_len(
                buf@,
            ) ==> r is Ok,
    {
        if buf.len() < HEADER_LEN {
            return Err(FrameError::BufferTooSmall);
        }
        let payload_len = extract_length(buf);
        let frame_type = match FrameType::from_byte(buf[3]) {
            Ok(t) => t,
            Err(e) => {
                return Err(e);
            },
        };
        let flags = FrameFlags::from_byte(buf[4]);
        let field = read_u32(buf, 5);
        assert(field & 0x7fff_ffff == field % 0x8000_0000) by (bit_vector);
        let stream_id = field & 0x7fff_ffff;
        if buf.len() - HEADER_LEN < payload_len as usize {
            return Err(FrameError::TruncatedFrame);
        }
        let payload = slice_to_vec(
            slice_subrange(buf, HEADER_LEN, HEADER_LEN + (payload_len as usize)),
        );
        Ok(FrameReader { frame_type, flags, stream_id, payload_len, payload })
    }

    /// The settings that the payload of this frame carries, in order: one
    /// for each whole six-byte record. Never fails: an empty payload gives no
    /// setting, and a remainder of fewer than six bytes at the end is dropped.
    pub fn parse_settings_payload(&self) -> (list: Vec<Setting>)
        ensures
            list@ == decode_settings(self.payload@),
            list@.len() == self.payload@.len() / 6,
    {
        parse_settings(self.payload.as_slice())
    }
}

/// Round trip: decoding the wire bytes of a well-formed frame whose flags are
/// all defined gives the frame back, with the reserved bit of its stream id
/// cleared and everything else unchanged.
pub proof fn lemma_frame_roundtrip(f: Frame)
    requires
        f.wf(),
        f.flags_known(),
    ensures
        decode_frame(encode_frame(f)) == Ok::<Frame, FrameError>(
            Frame {
                frame_type: f.frame_type,
                flags: f.flags,
                stream_id: clear_reserved_bit(f.stream_id),
                payload_len: f.payload_len,
                payload: f.payload,
            },
        ),
        f.stream_id < 0x8000_0000 ==> decode_frame(encode_frame(f)) == Ok::<Frame, FrameError>(f),
{
    let bytes = encode_frame(f);
    lemma_encoded_layout(f);
    lemma_stream_id_reserved_bit_cleared(f);
    assert(bytes[4] == f.flags);
    assert(bytes.subrange(HEADER_LEN as int, HEADER_LEN + declared_len(bytes)) =~= f.payload);
}

/// Whatever the reserved top bit of the stream id of a well-formed frame is,
/// encoding and then decoding gives the id with that bit cleared: the id
/// modulo 2^31.
pub proof fn lemma_stream_id_reserved_bit_cleared(f: Frame)
    requires
        f.wf(),
    ensures
        decode_frame(encode_frame(f)) matches Ok(g) && g.stream_id == f.stream_id % 0x8000_0000
            && g.stream_id < 0x8000_0000,
        encode_frame(f)[5] < 0x80,
{
    let bytes = encode_frame(f);
    let id = clear_reserved_bit(f.stream_id);
    lemma_encoded_layout(f);
    lemma_be32_of_bytes(id);
    assert(bytes[5] == be32_bytes(id)[0] && bytes[6] == be32_bytes(id)[1] && bytes[7]
        == be32_bytes(id)[2] && bytes[8] == be32_bytes(id)[3]);
}

/// The wire bytes of a well-formed frame are nine more than its payload, the
/// first three spell the payload length as a 24-bit big-endian number, the
/// fourth is the code of the frame type, and the payload follows the header
/// verbatim.
pub proof fn lemma_encoded_layout(f: Frame)
    requires
        f.wf(),
    ensures
        encode_frame(f).len() == HEADER_LEN + f.payload.len(),
        declared_len(encode_frame(f)) == f.payload.len(),
        encode_frame(f).subrange(0, 3) == be24_bytes(f.payload.len() as u32),
        encode_frame(f)[3] == f.frame_type.code(),
        FrameType::of_code(encode_frame(f)[3]) == Ok::<FrameType, FrameError>(f.frame_type),
        encode_frame(f).subrange(HEADER_LEN as int, encode_frame(f).len() as int) == f.payload,
{
    let bytes = encode_frame(f);
    lemma_be24_of_bytes(f.payload_len);
    assert(bytes[0] == be24_bytes(f.payload_len)[0] && bytes[1] == be24_bytes(f.payload_len)[1]
        && bytes[2] == be24_bytes(f.payload_len)[2]);
    assert(bytes.subrange(0, 3) =~= be24_bytes(f.payload_len));
    assert(bytes.subrange(HEADER_LEN as int, bytes.len() as int) =~= f.payload);
}

/// A buffer that holds a whole header with a type byte above `0x09` is
/// rejected with `InvalidFrameType`, whatever else it holds.
pub proof fn lemma_unknown_type_rejected(buf: Seq<u8>)
    requires
        buf.len() >= HEADER_LEN,
        buf[3] > 0x09,
    ensures
        decode_frame(buf) == Err::<Frame, FrameError>(FrameError::InvalidFrameType),
{
}

/// A buffer that holds a whole header with a known type, but fewer bytes
/// behind it than the header declares, is rejected with `TruncatedFrame`.
/// Decoding succeeds exactly on the buffers that are neither too short for a
/// header, nor of unknown type, nor truncated.
pub proof fn lemma_truncated_frame_rejected(buf: Seq<u8>)
    ensures
        buf.len() >= HEADER_LEN && buf[3] <= 0x09 && buf.len() < HEADER_LEN + declared_len(buf)
            ==> decode_frame(buf) == Err::<Frame, FrameError>(FrameError::TruncatedFrame),
        decode_frame(buf) is Ok <==> buf.len() >= HEADER_LEN && buf[3] <= 0x09 && buf.len()
            >= HEADER_LEN + declared_len(buf),
        decode_frame(buf) matches Ok(f) ==> f.wf() && f.flags_known() && f.stream_id < 0x8000_0000,
{
    if buf.len() >= HEADER_LEN {
        let b = buf[4];
        assert((b & 0x2d) & 0x2d == b & 0x2d) by (bit_vector);
    }
}

} // verus!
