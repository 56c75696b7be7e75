//! What holds of stream reassembly whatever the input: the frames that come
//! out do not depend on how the bytes were cut into chunks, a stream of
//! well-formed frames comes out frame for frame, and a header that announces
//! too large a payload stops the stream before anything of it is emitted.

use vstd::prelude::*;

use crate::protocol::{
    lemma_header_bytes_of_parse, lemma_header_roundtrip, FrameHeader, FrameView, ProtocolFault, MAX_FRAME_PAYLOAD_SIZE,
    PROTOCOL_VERSION,
};
use crate::reassembler::{
    encode_all, feed_all, front_of, lemma_parse_header_prefix, parse_stream, single_frame_of,
    Front, StreamParse,
};

verus! {

/// Every frame that comes out of a stream is well-formed: its header is of
/// the current version, its payload is as long as the header says, and no
/// longer than the limit.
pub proof fn lemma_parsed_frames_are_well_formed(s: Seq<u8>)
    ensures
        forall|i: int|
            0 <= i < parse_stream(s).frames.len() ==> (#[trigger] parse_stream(
                s,
            ).frames[i]).well_formed(),
    decreases s.len(),
{
    if let Front::Whole(frame) = front_of(s) {
        lemma_parsed_frames_are_well_formed(s.skip(26 + frame.payload.len() as int));
    }
}

/// A whole frame at the front of a stream, written out, is the front of the
/// stream: its 26 header bytes and as many payload bytes as its header says.
pub proof fn lemma_whole_front_is_exact(s: Seq<u8>)
    requires
        front_of(s) is Whole,
    ensures
        front_of(s)->Whole_0.bytes() == s.take(26 + front_of(s)->Whole_0.payload.len() as int),
{
    let frame = front_of(s)->Whole_0;
    let n = 26 + frame.payload.len() as int;
    lemma_header_bytes_of_parse(s);
    let head = frame.header.bytes();
    assert(head == s.take(26));
    assert(frame.payload == s.subrange(26, n));
    assert(s.take(26) + s.subrange(26, n) =~= s.take(n));
}

/// Nothing is lost and nothing is made up: the frames that come out of a
/// stream, written out one after the other and followed by what is left,
/// are the stream.
pub proof fn lemma_parse_is_exact(s: Seq<u8>)
    ensures
        encode_all(parse_stream(s).frames) + parse_stream(s).rest == s,
    decreases s.len(),
{
    let parsed = parse_stream(s);
    if front_of(s) is Whole {
        let frame = front_of(s)->Whole_0;
        let n = 26 + frame.payload.len() as int;
        let tail = parse_stream(s.skip(n));
        lemma_parse_is_exact(s.skip(n));
        lemma_whole_front_is_exact(s);
        assert(parsed.frames[0] == frame);
        assert(parsed.frames.skip(1) =~= tail.frames);
        assert(encode_all(parsed.frames) == s.take(n) + encode_all(tail.frames));
        assert(s.take(n) + s.skip(n) =~= s);
        assert((s.take(n) + encode_all(tail.frames)) + tail.rest =~= s.take(n) + (encode_all(
            tail.frames,
        ) + tail.rest));
    } else {
        assert(parsed.frames.len() == 0);
        assert(encode_all(parsed.frames) + parsed.rest =~= s);
    }
}

/// A frame that came alone and is accepted is well-formed.
pub proof fn lemma_single_frame_is_well_formed(s: Seq<u8>)
    requires
        single_frame_of(s) is Ok,
    ensures
        single_frame_of(s)->Ok_0.well_formed(),
{
}

/// A whole frame at the front of a stream stays the front when more bytes
/// follow, and so does a refused header.
pub proof fn lemma_front_is_stable(s: Seq<u8>, more: Seq<u8>)
    requires
        !(front_of(s) is Incomplete),
    ensures
        front_of(s + more) == front_of(s),
{
    assert(s.len() >= 26);
    assert((s + more).take(26) =~= s.take(26));
    lemma_parse_header_prefix(s + more, s);
    if let Front::Whole(frame) = front_of(s) {
        let n = frame.header.payload_size as int;
        assert((s + more).subrange(26, 26 + n) =~= s.subrange(26, 26 + n));
    }
}

/// What is left after parsing holds no further whole frame: parsing it again
/// changes nothing.
pub proof fn lemma_rest_is_parsed(s: Seq<u8>)
    ensures
        parse_stream(parse_stream(s).rest) == (StreamParse {
            frames: Seq::empty(),
            rest: parse_stream(s).rest,
            fault: parse_stream(s).fault,
        }),
    decreases s.len(),
{
    if let Front::Whole(frame) = front_of(s) {
        lemma_rest_is_parsed(s.skip(26 + frame.payload.len() as int));
    }
}

/// Parsing `s` and then, with what is left, the bytes that follow gives what
/// parsing all the bytes at once gives.
pub proof fn lemma_parse_in_two_steps(s: Seq<u8>, more: Seq<u8>)
    ensures
        parse_stream(s + more).frames == parse_stream(s).frames + parse_stream(
            parse_stream(s).rest + more,
        ).frames,
        parse_stream(s + more).rest == parse_stream(parse_stream(s).rest + more).rest,
        parse_stream(s + more).fault == parse_stream(parse_stream(s).rest + more).fault,
    decreases s.len(),
{
    let whole = parse_stream(s + more);
    let first = parse_stream(s);
    let second = parse_stream(first.rest + more);
    match front_of(s) {
        Front::Whole(frame) => {
            let n = 26 + frame.payload.len() as int;
            lemma_front_is_stable(s, more);
            assert((s + more).skip(n) =~= s.skip(n) + more);
            lemma_parse_in_two_steps(s.skip(n), more);
            let tail = parse_stream(s.skip(n));
            assert(seq![frame] + (tail.frames + second.frames) =~= (seq![frame] + tail.frames)
                + second.frames);
        },
        _ => {
            assert(first.frames + second.frames =~= second.frames);
        },
    }
}

/// However a stream is cut into chunks, a reassembler that is fed the chunks
/// in turn emits the frames of the whole stream, in order, and is left with
/// what follows the last of them.
pub proof fn lemma_chunking_does_not_matter(pending: Seq<u8>, chunks: Seq<Seq<u8>>)
    requires
        parse_stream(pending).frames.len() == 0,
    ensures
        feed_all(pending, chunks).0 == parse_stream(pending + chunks.flatten()).frames,
        feed_all(pending, chunks).1 == parse_stream(pending + chunks.flatten()).rest,
    decreases chunks.len(),
{
    if chunks.len() == 0 {
        assert(pending + chunks.flatten() =~= pending);
        assert(parse_stream(pending).rest == pending);
        assert(parse_stream(pending).frames =~= Seq::<FrameView>::empty());
    } else {
        let now = parse_stream(pending + chunks[0]);
        let tail = chunks.skip(1);
        assert(chunks.first() == chunks[0]);
        assert(chunks.drop_first() =~= tail);
        assert(pending + chunks.flatten() =~= (pending + chunks[0]) + tail.flatten());
        lemma_rest_is_parsed(pending + chunks[0]);
        lemma_chunking_does_not_matter(now.rest, tail);
        lemma_parse_in_two_steps(pending + chunks[0], tail.flatten());
    }
}

/// A stream of well-formed frames, parsed, is those frames, with nothing left
/// over and nothing refused.
pub proof fn lemma_parse_of_encoded_frames(frames: Seq<FrameView>)
    requires
        forall|i: int| 0 <= i < frames.len() ==> (#[trigger] frames[i]).well_formed(),
    ensures
        parse_stream(encode_all(frames)) == (StreamParse {
            frames,
            rest: Seq::empty(),
            fault: None,
        }),
    decreases frames.len(),
{
    let s = encode_all(frames);
    if frames.len() == 0 {
        assert(parse_stream(s).frames =~= frames);
    } else {
        let frame = frames[0];
        let tail = frames.skip(1);
        let after = encode_all(tail);
        assert(frame.well_formed());
        lemma_header_roundtrip(frame.header, frame.payload + after);
        assert(s =~= frame.header.bytes() + (frame.payload + after));
        let n = frame.payload.len() as int;
        assert(s.subrange(26, 26 + n) =~= frame.payload);
        assert(front_of(s) == Front::Whole(frame));
        assert(s.skip(26 + n) =~= after);
        assert forall|i: int| 0 <= i < tail.len() implies (#[trigger] tail[i]).well_formed() by {
            assert(tail[i] == frames[i + 1]);
        }
        lemma_parse_of_encoded_frames(tail);
        assert(seq![frame] + tail =~= frames);
    }
}

/// A reassembler at the start of a stream, fed a sequence of well-formed
/// frames in chunks cut anywhere, emits exactly those frames in order and is
/// left with nothing.
pub proof fn lemma_reassembly_of_chunked_frames(frames: Seq<FrameView>, chunks: Seq<Seq<u8>>)
    requires
        forall|i: int| 0 <= i < frames.len() ==> (#[trigger] frames[i]).well_formed(),
        chunks.flatten() == encode_all(frames),
    ensures
        feed_all(Seq::empty(), chunks) == (frames, Seq::<u8>::empty()),
{
    assert(Seq::<u8>::empty() + chunks.flatten() =~= encode_all(frames));
    lemma_chunking_does_not_matter(Seq::empty(), chunks);
    lemma_parse_of_encoded_frames(frames);
}

/// A header of the current version that announces a payload above the limit
/// is refused as soon as it is there: no frame comes out, whatever follows.
pub proof fn lemma_oversized_payload_is_refused(header: FrameHeader, more: Seq<u8>)
    requires
        header.version == PROTOCOL_VERSION,
        header.payload_size > MAX_FRAME_PAYLOAD_SIZE,
    ensures
        parse_stream(header.bytes() + more) == (StreamParse {
            frames: Seq::empty(),
            rest: header.bytes() + more,
            fault: Some(ProtocolFault::PayloadTooLarge(header.payload_size)),
        }),
{
    lemma_header_roundtrip(header, more);
}

} // verus!
