//! The wire format: a fixed 26-byte header, big-endian, followed by the
//! payload.

use bytes::{Bytes, BytesMut};
use vstd::prelude::*;

use crate::buffer::{
    buf_contents, buf_extend_from_slice, buf_put_u16, buf_put_u32, buf_put_u64, buf_put_u8,
    buf_with_capacity, bytes_as_slice, bytes_contents, bytes_get_u16, bytes_get_u32,
    bytes_get_u64, bytes_get_u8, bytes_remaining,
};
use crate::endian::{
    be_bytes_u16, be_bytes_u32, be_bytes_u64, be_value_u16, be_value_u32, be_value_u64,
    lemma_be_u16_bytes_of_value, lemma_be_u16_roundtrip, lemma_be_u32_bytes_of_value,
    lemma_be_u32_roundtrip, lemma_be_u64_bytes_of_value, lemma_be_u64_roundtrip,
};
use crate::error::{decimal_digits, text_with_number, Error};

verus! {

/// The protocol version that this library speaks.
pub const PROTOCOL_VERSION: u8 = 1;

/// The largest payload, in bytes, that a frame may carry (16 MiB).
pub const MAX_FRAME_PAYLOAD_SIZE: usize = 0x100_0000;

/// The length of the frame header on the wire.
pub const FRAME_HEADER_SIZE: usize = 26;

/// What a frame carries.
#[derive(Debug, Clone, Copy, PartialEq, Eq, Structural)]
pub enum FrameType {
    /// Raw RGBA pixel data.
    RawFrame,
    /// One H.264 access unit.
    H264Frame,
    /// A control message.
    Control,
    /// Statistics or heartbeat.
    Stats,
}

impl FrameType {
    /// The tag byte that stands for the type on the wire.
    pub open spec fn tag(self) -> u8 {
        match self {
            FrameType::RawFrame => 0,
            FrameType::H264Frame => 1,
            FrameType::Control => 2,
            FrameType::Stats => 3,
        }
    }

    /// The type that a tag byte stands for, if any.
    pub open spec fn from_tag(tag: u8) -> Option<FrameType> {
        if tag == 0 {
            Some(FrameType::RawFrame)
        } else if tag == 1 {
            Some(FrameType::H264Frame)
        } else if tag == 2 {
            Some(FrameType::Control)
        } else if tag == 3 {
            Some(FrameType::Stats)
        } else {
            None
        }
    }

    /// The tag byte of this type.
    pub fn to_u8(self) -> (tag: u8)
        ensures
            tag == self.tag(),
    {
        match self {
            FrameType::RawFrame => 0,
            FrameType::H264Frame => 1,
            FrameType::Control => 2,
            FrameType::Stats => 3,
        }
    }

    /// Reads a tag byte. Tags 0 to 3 give their type; any other tag is a
    /// protocol error that names the tag.
    pub fn try_from(value: u8) -> (r: Result<FrameType, Error>)
        ensures
            match FrameType::from_tag(value) {
                Some(t) => r == Ok::<FrameType, Error>(t),
                None => r is Err && ProtocolFault::UnknownFrameType(value).reported_by(r->Err_0),
            },
    {
        if value == 0 {
            Ok(FrameType::RawFrame)
        } else if value == 1 {
            Ok(FrameType::H264Frame)
        } else if value == 2 {
            Ok(FrameType::Control)
        } else if value == 3 {
            Ok(FrameType::Stats)
        } else {
            Err(Error::Protocol(text_with_number("Unknown frame type: ", value as u64)))
        }
    }
}

/// The fixed-size record in front of every payload.
#[derive(Debug, Clone, Copy, PartialEq, Eq, Structural)]
pub struct FrameHeader {
    /// Protocol version.
    pub version: u8,
    /// What the payload is.
    pub frame_type: FrameType,
    /// Sequence number, counted by the sender.
    pub sequence: u64,
    /// Microseconds since the sender started the stream.
    pub timestamp_us: u64,
    /// Frame width in pixels.
    pub width: u16,
    /// Frame height in pixels.
    pub height: u16,
    /// Length of the payload in bytes.
    pub payload_size: u32,
}

/// Why bytes are refused as a frame.
pub enum ProtocolFault {
    /// Fewer than 26 bytes where a header should stand.
    HeaderTooShort,
    /// The version byte is not the protocol version.
    UnsupportedVersion(u8),
    /// The tag byte stands for no frame type.
    UnknownFrameType(u8),
    /// The header announces a payload above the limit.
    PayloadTooLarge(u32),
    /// Fewer bytes follow the header than it announces.
    PayloadTruncated { expected: u32, available: nat },
}

impl ProtocolFault {
    /// The message of the protocol error that reports the fault.
    pub open spec fn message(self) -> Seq<char> {
        match self {
            ProtocolFault::HeaderTooShort => "Header too short"@,
            ProtocolFault::UnsupportedVersion(v) => "Unsupported version: "@ + decimal_digits(
                v as nat,
            ),
            ProtocolFault::UnknownFrameType(t) => "Unknown frame type: "@ + decimal_digits(
                t as nat,
            ),
            ProtocolFault::PayloadTooLarge(n) => "Payload too large: "@ + decimal_digits(n as nat)
                + " bytes"@,
            ProtocolFault::PayloadTruncated { expected, available } =>
                "Payload size mismatch: expected "@ + decimal_digits(expected as nat) + ", got "@
                    + decimal_digits(available),
        }
    }

    /// Whether `e` is the protocol error that reports this fault.
    pub open spec fn reported_by(self, e: Error) -> bool {
        e is Protocol && e.message() == self.message()
    }
}

/// The header that a byte sequence starts with, or why it starts with none.
/// The length is tested first, then the version, then the tag. Only the first
/// 26 bytes are looked at.
pub open spec fn parse_header(s: Seq<u8>) -> Result<FrameHeader, ProtocolFault> {
    if s.len() < 26 {
        Err(ProtocolFault::HeaderTooShort)
    } else if s[0] != PROTOCOL_VERSION {
        Err(ProtocolFault::UnsupportedVersion(s[0]))
    } else {
        match FrameType::from_tag(s[1]) {
            None => Err(ProtocolFault::UnknownFrameType(s[1])),
            Some(frame_type) => Ok(
                FrameHeader {
                    version: s[0],
                    frame_type,
                    sequence: be_value_u64(s.subrange(2, 10)),
                    timestamp_us: be_value_u64(s.subrange(10, 18)),
                    width: be_value_u16(s.subrange(18, 20)),
                    height: be_value_u16(s.subrange(20, 22)),
                    payload_size: be_value_u32(s.subrange(22, 26)),
                },
            ),
        }
    }
}

impl FrameHeader {
    /// Header size in bytes:
    /// version(1) + frame_type(1) + sequence(8) + timestamp_us(8) + width(2) + height(2) + payload_size(4).
    pub const SIZE: usize = 26;

    /// The 26 bytes of the header on the wire.
    pub open spec fn bytes(self) -> Seq<u8> {
        seq![self.version, self.frame_type.tag()] + be_bytes_u64(self.sequence) + be_bytes_u64(
            self.timestamp_us,
        ) + be_bytes_u16(self.width) + be_bytes_u16(self.height) + be_bytes_u32(self.payload_size)
    }

    /// A header of the current protocol version.
    pub fn new(
        frame_type: FrameType,
        sequence: u64,
        timestamp_us: u64,
        width: u16,
        height: u16,
        payload_size: u32,
    ) -> (h: FrameHeader)
        ensures
            h == (FrameHeader {
                version: PROTOCOL_VERSION,
                frame_type,
                sequence,
                timestamp_us,
                width,
                height,
                payload_size,
            }),
    {
        FrameHeader {
            version: PROTOCOL_VERSION,
            frame_type,
            sequence,
            timestamp_us,
            width,
            height,
            payload_size,
        }
    }

    /// Appends the 26 header bytes to `buf`.
    pub fn encode(&self, buf: &mut BytesMut)
        requires
            buf_contents(*old(buf)).len() + 26 <= isize::MAX,
        ensures
            buf_contents(*final(buf)) == buf_contents(*old(buf)) + self.bytes(),
    {
        buf_put_u8(buf, self.version);
        buf_put_u8(buf, self.frame_type.to_u8());
        buf_put_u64(buf, self.sequence);
        buf_put_u64(buf, self.timestamp_us);
        buf_put_u16(buf, self.width);
        buf_put_u16(buf, self.height);
        buf_put_u32(buf, self.payload_size);
        assert(buf_contents(*buf) =~= buf_contents(*old(buf)) + self.bytes());
    }

    /// Reads a header off the front of `buf`. On success the 26 bytes are
    /// consumed. Every refusal is a protocol error: a buffer of fewer than 26
    /// bytes is left as it is, a wrong version costs one byte, an unknown
    /// frame type two. The payload is not read, and its length is not held
    /// against any limit.
    pub fn decode(buf: &mut Bytes) -> (r: Result<FrameHeader, Error>)
        ensures
            match parse_header(bytes_contents(*old(buf))) {
                Ok(h) => r == Ok::<FrameHeader, Error>(h) && bytes_contents(*final(buf))
                    == bytes_contents(*old(buf)).skip(26),
                Err(fault) => r is Err && fault.reported_by(r->Err_0) && bytes_contents(
                    *final(buf),
                ) == bytes_contents(*old(buf)).skip(
                    match fault {
                        ProtocolFault::UnsupportedVersion(_) => 1int,
                        ProtocolFault::UnknownFrameType(_) => 2int,
                        _ => 0int,
                    },
                ),
            },
    {
        let ghost s = bytes_contents(*buf);
        if bytes_remaining(buf) < FrameHeader::SIZE {
            return Err(Error::protocol("Header too short"));
        }
        let version = bytes_get_u8(buf);
        if version != PROTOCOL_VERSION {
            return Err(Error::Protocol(text_with_number("Unsupported version: ", version as u64)));
        }
        let tag = bytes_get_u8(buf);
        let frame_type = match FrameType::try_from(tag) {
            Ok(t) => t,
            Err(e) => {
                return Err(e);
            },
        };
        let sequence = bytes_get_u64(buf);
        let timestamp_us = bytes_get_u64(buf);
        let width = bytes_get_u16(buf);
        let height = bytes_get_u16(buf);
        let payload_size = bytes_get_u32(buf);
        proof {
            assert(s.skip(1).skip(1).take(8) =~= s.subrange(2, 10));
            assert(s.skip(1).skip(1).skip(8).take(8) =~= s.subrange(10, 18));
            assert(s.skip(1).skip(1).skip(8).skip(8).take(2) =~= s.subrange(18, 20));
            assert(s.skip(1).skip(1).skip(8).skip(8).skip(2).take(2) =~= s.subrange(20, 22));
            assert(s.skip(1).skip(1).skip(8).skip(8).skip(2).skip(2).take(4) =~= s.subrange(22, 26));
            assert(s.skip(1).skip(1).skip(8).skip(8).skip(2).skip(2).skip(4) =~= s.skip(26));
        }
        Ok(FrameHeader { version, frame_type, sequence, timestamp_us, width, height, payload_size })
    }
}

/// A frame: its header and its payload.
#[derive(Debug, Clone)]
pub struct Frame {
    /// The header.
    pub header: FrameHeader,
    /// The payload bytes.
    pub payload: Bytes,
}

/// A frame as a mathematical value.
pub struct FrameView {
    /// The header.
    pub header: FrameHeader,
    /// The payload bytes.
    pub payload: Seq<u8>,
}

impl FrameView {
    /// The frame on the wire: header bytes, then payload.
    pub open spec fn bytes(self) -> Seq<u8> {
        self.header.bytes() + self.payload
    }

    /// A frame that a receiver accepts: current version, the payload as long
    /// as the header says, and no longer than the limit.
    pub open spec fn well_formed(self) -> bool {
        &&& self.header.version == PROTOCOL_VERSION
        &&& self.header.payload_size == self.payload.len()
        &&& self.payload.len() <= MAX_FRAME_PAYLOAD_SIZE
    }
}

impl View for Frame {
    type V = FrameView;

    open spec fn view(&self) -> FrameView {
        FrameView { header: self.header, payload: bytes_contents(self.payload) }
    }
}

impl Frame {
    /// A frame of the given parts.
    pub fn new(header: FrameHeader, payload: Bytes) -> (f: Frame)
        ensures
            f.header == header,
            f.payload == payload,
    {
        Frame { header, payload }
    }

    /// The frame on the wire, in a new buffer.
    pub fn encode(&self) -> (buf: BytesMut)
        requires
            self@.payload.len() + 26 <= isize::MAX,
        ensures
            buf_contents(buf) == self@.bytes(),
    {
        let payload = bytes_as_slice(&self.payload);
        let mut buf = buf_with_capacity(FrameHeader::SIZE + payload.len());
        self.header.encode(&mut buf);
        buf_extend_from_slice(&mut buf, payload);
        assert(buf_contents(buf) =~= self@.bytes());
        buf
    }
}

/// Messages that the two sides may exchange in control frames. The receiver
/// hands them on and does not act on them.
#[derive(Debug, Clone)]
pub enum ControlMessage {
    /// Start streaming.
    Start { width: u16, height: u16, fps: u8 },
    /// Stop streaming.
    Stop,
    /// Ask for a key frame.
    RequestKeyframe,
    /// The resolution changes.
    ResolutionChange { width: u16, height: u16 },
}

/// A header of the current version, written out and read back, is the same
/// header, whatever follows its 26 bytes.
pub proof fn lemma_header_roundtrip(h: FrameHeader, rest: Seq<u8>)
    requires
        h.version == PROTOCOL_VERSION,
    ensures
        h.bytes().len() == 26,
        parse_header(h.bytes() + rest) == Ok::<FrameHeader, ProtocolFault>(h),
{
    let s = h.bytes() + rest;
    lemma_be_u64_roundtrip(h.sequence);
    lemma_be_u64_roundtrip(h.timestamp_us);
    lemma_be_u16_roundtrip(h.width);
    lemma_be_u16_roundtrip(h.height);
    lemma_be_u32_roundtrip(h.payload_size);
    assert(s.subrange(2, 10) =~= be_bytes_u64(h.sequence));
    assert(s.subrange(10, 18) =~= be_bytes_u64(h.timestamp_us));
    assert(s.subrange(18, 20) =~= be_bytes_u16(h.width));
    assert(s.subrange(20, 22) =~= be_bytes_u16(h.height));
    assert(s.subrange(22, 26) =~= be_bytes_u32(h.payload_size));
}

/// A header that was read, written out again, is the 26 bytes that it was
/// read from.
pub proof fn lemma_header_bytes_of_parse(s: Seq<u8>)
    requires
        parse_header(s) is Ok,
    ensures
        parse_header(s)->Ok_0.bytes() == s.take(26),
{
    let h = parse_header(s)->Ok_0;
    lemma_be_u64_bytes_of_value(s.subrange(2, 10));
    lemma_be_u64_bytes_of_value(s.subrange(10, 18));
    lemma_be_u16_bytes_of_value(s.subrange(18, 20));
    lemma_be_u16_bytes_of_value(s.subrange(20, 22));
    lemma_be_u32_bytes_of_value(s.subrange(22, 26));
    assert(h.bytes() =~= s.take(26));
}

/// The bytes of a header of any other version are refused for that version.
pub proof fn lemma_other_version_refused(h: FrameHeader, rest: Seq<u8>)
    requires
        h.version != PROTOCOL_VERSION,
    ensures
        parse_header(h.bytes() + rest) == Err::<FrameHeader, ProtocolFault>(
            ProtocolFault::UnsupportedVersion(h.version),
        ),
{
}

/// Twenty-six bytes or more with the right version and a tag outside 0 to 3
/// are refused for that tag.
pub proof fn lemma_unknown_tag_refused(s: Seq<u8>)
    requires
        s.len() >= 26,
        s[0] == PROTOCOL_VERSION,
        s[1] > 3,
    ensures
        parse_header(s) == Err::<FrameHeader, ProtocolFault>(ProtocolFault::UnknownFrameType(s[1])),
{
}

} // verus!
