//! Cutting a byte stream back into frames.
//!
//! A stream of frames arrives in chunks of any size. The reassembler keeps
//! what has arrived and not yet been emitted, and emits each frame once its
//! last byte is there. What it emits depends on the bytes alone, not on how
//! they were cut into chunks.

use bytes::BytesMut;
use vstd::prelude::*;

use crate::buffer::{
    buf_as_slice, buf_contents, buf_extend_from_slice, buf_freeze, buf_len, buf_split_to,
    buf_with_capacity, bytes_contents, bytes_copy_from_slice, bytes_from_vec, bytes_remaining,
    bytes_split_to,
};
use crate::error::{text_with_number, Error};
use crate::protocol::{
    parse_header, Frame, FrameHeader, FrameView, ProtocolFault, FRAME_HEADER_SIZE,
    MAX_FRAME_PAYLOAD_SIZE,
};

verus! {

/// How many bytes to ask the transport for while no header is complete.
pub const HEADER_READ_SIZE: usize = 0x1_0000;

/// How many bytes to ask the transport for while a payload is incomplete.
pub const PAYLOAD_READ_SIZE: usize = 0x4_0000;

/// What stands at the front of a stream.
pub enum Front {
    /// Too few bytes to tell: the header or the payload is incomplete.
    Incomplete,
    /// A header that is refused.
    Fault(ProtocolFault),
    /// A whole frame.
    Whole(FrameView),
}

/// What stands at the front of `s`. A header is held against the protocol
/// version, the frame types and the payload limit as soon as its 26 bytes are
/// there, before any of the payload is.
pub open spec fn front_of(s: Seq<u8>) -> Front {
    match parse_header(s) {
        Err(ProtocolFault::HeaderTooShort) => Front::Incomplete,
        Err(fault) => Front::Fault(fault),
        Ok(header) => if header.payload_size > MAX_FRAME_PAYLOAD_SIZE {
            Front::Fault(ProtocolFault::PayloadTooLarge(header.payload_size))
        } else if s.len() < 26 + header.payload_size {
            Front::Incomplete
        } else {
            Front::Whole(
                FrameView { header, payload: s.subrange(26, 26 + header.payload_size as int) },
            )
        },
    }
}

/// A stream taken apart: the frames at its front, the bytes after the last
/// whole frame, and the fault that those bytes start with, if any.
pub struct StreamParse {
    /// The whole frames, in order.
    pub frames: Seq<FrameView>,
    /// What follows the last whole frame.
    pub rest: Seq<u8>,
    /// Why `rest` can never become a frame, if it cannot.
    pub fault: Option<ProtocolFault>,
}

/// Takes frames off the front of `s` until the front is incomplete or refused.
pub open spec fn parse_stream(s: Seq<u8>) -> StreamParse
    decreases s.len(),
{
    match front_of(s) {
        Front::Incomplete => StreamParse { frames: Seq::empty(), rest: s, fault: None },
        Front::Fault(fault) => StreamParse { frames: Seq::empty(), rest: s, fault: Some(fault) },
        Front::Whole(frame) => {
            let tail = parse_stream(s.skip(26 + frame.payload.len() as int));
            StreamParse { frames: seq![frame] + tail.frames, rest: tail.rest, fault: tail.fault }
        },
    }
}

/// The frames of a sequence of exec frames, as mathematical values.
pub open spec fn frame_views(frames: Seq<Frame>) -> Seq<FrameView> {
    frames.map_values(|f: Frame| f@)
}

/// The frames of a stream, each followed directly by the next.
pub open spec fn encode_all(frames: Seq<FrameView>) -> Seq<u8>
    decreases frames.len(),
{
    if frames.len() == 0 {
        Seq::empty()
    } else {
        frames[0].bytes() + encode_all(frames.skip(1))
    }
}

/// What a reassembler holding `pending` emits, and what it is left with, when
/// it is fed the chunks one after the other.
pub open spec fn feed_all(pending: Seq<u8>, chunks: Seq<Seq<u8>>) -> (Seq<FrameView>, Seq<u8>)
    decreases chunks.len(),
{
    if chunks.len() == 0 {
        (Seq::empty(), pending)
    } else {
        let now = parse_stream(pending + chunks[0]);
        let later = feed_all(now.rest, chunks.skip(1));
        (now.frames + later.0, later.1)
    }
}

/// The protocol error for a payload above the limit.
fn payload_too_large(size: u32) -> (e: Error)
    ensures
        ProtocolFault::PayloadTooLarge(size).reported_by(e),
{
    Error::Protocol(text_with_number("Payload too large: ", size as u64).concat(" bytes"))
}

/// The protocol error for a payload shorter than its header says.
fn payload_truncated(expected: u32, available: usize) -> (e: Error)
    ensures
        (ProtocolFault::PayloadTruncated { expected, available: available as nat }).reported_by(e),
{
    let got = text_with_number(", got ", available as u64);
    let text = text_with_number("Payload size mismatch: expected ", expected as u64).concat(
        got.as_str(),
    );
    assert(text@ =~= (ProtocolFault::PayloadTruncated {
        expected,
        available: available as nat,
    }).message());
    Error::Protocol(text)
}

/// The frames that one call of [`Reassembler::feed`] emits.
#[derive(Debug)]
pub struct FrameBatch {
    /// The frames completed by the chunk, in stream order.
    pub frames: Vec<Frame>,
    /// The protocol error that ends the stream, if the bytes after the last
    /// frame are refused.
    pub fault: Option<Error>,
}

/// The state of one byte stream: the bytes received and not yet emitted.
pub struct Reassembler {
    buf: BytesMut,
}

impl View for Reassembler {
    type V = Seq<u8>;

    closed spec fn view(&self) -> Seq<u8> {
        buf_contents(self.buf)
    }
}

impl Reassembler {
    /// A reassembler at the start of a stream.
    pub fn new() -> (r: Reassembler)
        ensures
            r@ == Seq::<u8>::empty(),
    {
        Reassembler { buf: buf_with_capacity(PAYLOAD_READ_SIZE) }
    }

    /// The number of bytes held.
    pub fn pending(&self) -> (n: usize)
        ensures
            n == self@.len(),
    {
        buf_len(&self.buf)
    }

    /// How many bytes to ask the transport for next: the smaller read while
    /// the header is incomplete, the larger once it is there.
    pub fn next_read_size(&self) -> (n: usize)
        ensures
            n == if self@.len() < FRAME_HEADER_SIZE {
                HEADER_READ_SIZE
            } else {
                PAYLOAD_READ_SIZE
            },
    {
        if buf_len(&self.buf) < FRAME_HEADER_SIZE {
            HEADER_READ_SIZE
        } else {
            PAYLOAD_READ_SIZE
        }
    }

    /// Takes in the next bytes of the stream.
    pub fn push(&mut self, chunk: &[u8])
        requires
            old(self)@.len() + chunk@.len() <= isize::MAX,
        ensures
            final(self)@ == old(self)@ + chunk@,
    {
        buf_extend_from_slice(&mut self.buf, chunk);
    }

    /// Takes the frame at the front, if it is whole. An incomplete front
    /// gives `None` and a refused one the protocol error; both leave the
    /// bytes as they are, so that the error comes again on the next call.
    pub fn next_frame(&mut self) -> (r: Result<Option<Frame>, Error>)
        ensures
            match front_of(old(self)@) {
                Front::Incomplete => r is Ok && r->Ok_0 is None && final(self)@ == old(self)@,
                Front::Fault(fault) => r is Err && fault.reported_by(r->Err_0) && final(self)@
                    == old(self)@,
                Front::Whole(frame) => r is Ok && r->Ok_0 is Some && r->Ok_0->Some_0@ == frame
                    && final(self)@ == old(self)@.skip(26 + frame.payload.len() as int),
            },
    {
        let ghost s = self@;
        if buf_len(&self.buf) < FRAME_HEADER_SIZE {
            return Ok(None);
        }
        let mut peek = bytes_copy_from_slice(
            vstd::slice::slice_subrange(buf_as_slice(&self.buf), 0, FRAME_HEADER_SIZE),
        );
        proof {
            assert(bytes_contents(peek).take(26) =~= s.take(26));
            lemma_parse_header_prefix(s, bytes_contents(peek));
        }
        let header = match FrameHeader::decode(&mut peek) {
            Ok(h) => h,
            Err(e) => {
                return Err(e);
            },
        };
        if header.payload_size as usize > MAX_FRAME_PAYLOAD_SIZE {
            return Err(payload_too_large(header.payload_size));
        }
        let total = FRAME_HEADER_SIZE + header.payload_size as usize;
        if buf_len(&self.buf) < total {
            return Ok(None);
        }
        let mut payload = buf_freeze(buf_split_to(&mut self.buf, total));
        let _ = bytes_split_to(&mut payload, FRAME_HEADER_SIZE);
        assert(bytes_contents(payload) =~= s.subrange(26, 26 + header.payload_size as int));
        Ok(Some(Frame { header, payload }))
    }

    /// Takes in the next bytes of the stream and emits every frame that they
    /// complete. The result is that of parsing everything held: the whole
    /// frames come out in order, the bytes after them stay, and a refused
    /// front is reported at once, with the frames before it.
    pub fn feed(&mut self, chunk: &[u8]) -> (batch: FrameBatch)
        requires
            old(self)@.len() + chunk@.len() <= isize::MAX,
        ensures
            frame_views(batch.frames@) == parse_stream(old(self)@ + chunk@).frames,
            final(self)@ == parse_stream(old(self)@ + chunk@).rest,
            match parse_stream(old(self)@ + chunk@).fault {
                None => batch.fault is None,
                Some(fault) => batch.fault is Some && fault.reported_by(batch.fault->Some_0),
            },
    {
        self.push(chunk);
        let ghost all = self@;
        let mut frames: Vec<Frame> = Vec::new();
        assert(frame_views(frames@) =~= Seq::<FrameView>::empty());
        loop
            invariant
                all == old(self)@ + chunk@,
                parse_stream(all).frames == frame_views(frames@) + parse_stream(self@).frames,
                parse_stream(all).rest == parse_stream(self@).rest,
                parse_stream(all).fault == parse_stream(self@).fault,
            decreases self@.len(),
        {
            let ghost before = self@;
            let ghost emitted = frames@;
            match self.next_frame() {
                Ok(Some(frame)) => {
                    frames.push(frame);
                    assert(frame_views(frames@) =~= frame_views(emitted).push(frame@));
                    assert(frame_views(emitted) + (seq![frame@] + parse_stream(self@).frames)
                        =~= frame_views(frames@) + parse_stream(self@).frames);
                },
                Ok(None) => {
                    assert(frame_views(frames@) + Seq::<FrameView>::empty() =~= frame_views(
                        frames@,
                    ));
                    return FrameBatch { frames, fault: None };
                },
                Err(e) => {
                    assert(frame_views(frames@) + Seq::<FrameView>::empty() =~= frame_views(
                        frames@,
                    ));
                    return FrameBatch { frames, fault: Some(e) };
                },
            }
        }
    }
}

/// One frame that came alone, as a datagram or as a whole stream.
pub open spec fn single_frame_of(s: Seq<u8>) -> Result<FrameView, ProtocolFault> {
    match parse_header(s) {
        Err(fault) => Err(fault),
        Ok(header) => if header.payload_size > MAX_FRAME_PAYLOAD_SIZE {
            Err(ProtocolFault::PayloadTooLarge(header.payload_size))
        } else if s.len() - 26 < header.payload_size {
            Err(
                ProtocolFault::PayloadTruncated {
                    expected: header.payload_size,
                    available: (s.len() - 26) as nat,
                },
            )
        } else {
            Ok(FrameView { header, payload: s.subrange(26, 26 + header.payload_size as int) })
        },
    }
}

/// Reads the one frame that `data` holds. The header is held against the
/// version, the frame types and the payload limit; the payload is the bytes
/// that follow it, as many as it announces, and bytes after those are
/// ignored. Every refusal is a protocol error.
pub fn parse_single_frame(data: Vec<u8>) -> (r: Result<Frame, Error>)
    ensures
        match single_frame_of(data@) {
            Ok(frame) => r is Ok && r->Ok_0@ == frame,
            Err(fault) => r is Err && fault.reported_by(r->Err_0),
        },
{
    let ghost s = data@;
    let mut bytes = bytes_from_vec(data);
    let header = match FrameHeader::decode(&mut bytes) {
        Ok(h) => h,
        Err(e) => {
            return Err(e);
        },
    };
    if header.payload_size as usize > MAX_FRAME_PAYLOAD_SIZE {
        return Err(payload_too_large(header.payload_size));
    }
    let available = bytes_remaining(&bytes);
    if available < header.payload_size as usize {
        return Err(payload_truncated(header.payload_size, available));
    }
    let payload = bytes_split_to(&mut bytes, header.payload_size as usize);
    assert(bytes_contents(payload) =~= s.subrange(26, 26 + header.payload_size as int));
    Ok(Frame { header, payload })
}

/// The most bytes to read from a stream that carries one frame: a header and
/// the largest payload.
pub fn single_frame_read_limit() -> (n: usize)
    ensures
        n == FRAME_HEADER_SIZE + MAX_FRAME_PAYLOAD_SIZE,
{
    FRAME_HEADER_SIZE + MAX_FRAME_PAYLOAD_SIZE
}

/// A header is read from the first 26 bytes alone.
pub proof fn lemma_parse_header_prefix(s: Seq<u8>, t: Seq<u8>)
    requires
        s.len() >= 26,
        t.len() >= 26,
        s.take(26) == t.take(26),
    ensures
        parse_header(s) == parse_header(t),
{
    assert forall|i: int| 0 <= i < 26 implies s[i] == t[i] by {
        assert(s[i] == s.take(26)[i]);
        assert(t[i] == t.take(26)[i]);
    }
    assert(s.subrange(2, 10) =~= t.subrange(2, 10));
    assert(s.subrange(10, 18) =~= t.subrange(10, 18));
    assert(s.subrange(18, 20) =~= t.subrange(18, 20));
    assert(s.subrange(20, 22) =~= t.subrange(20, 22));
    assert(s.subrange(22, 26) =~= t.subrange(22, 26));
}

} // verus!
