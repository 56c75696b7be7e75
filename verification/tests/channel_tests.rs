use bytes::Bytes;
use thunder_mirror::channel::{
    frame_channel, frame_channel_with_capacity, take_frame, RecvAnswer, SendAnswer, SendOutcome,
    FRAME_CHANNEL_CAPACITY,
};
use thunder_mirror::protocol::{Frame, FrameHeader, FrameType};

fn frame(sequence: u64) -> Frame {
    let header = FrameHeader::new(FrameType::RawFrame, sequence, 0, 1, 1, 4);
    Frame::new(header, Bytes::from(vec![sequence as u8; 4]))
}

#[test]
fn new_channel_has_dropped_nothing_and_holds_nothing() {
    let (producer, mut consumer) = frame_channel();
    assert_eq!(producer.dropped_frames(), 0);
    assert!(consumer.drain(100).is_empty());
    assert_eq!(FRAME_CHANNEL_CAPACITY, 60);
}

#[test]
fn frames_leave_in_the_order_they_came() {
    let (mut producer, mut consumer) = frame_channel_with_capacity(4);
    for i in 0..4 {
        assert_eq!(producer.try_send(frame(i)), SendOutcome::Enqueued);
    }
    let frames = consumer.drain(10);
    let sequences: Vec<u64> = frames.iter().map(|f| f.header.sequence).collect();
    assert_eq!(sequences, vec![0, 1, 2, 3]);
    assert_eq!(&frames[2].payload[..], &[2u8; 4]);
    assert!(consumer.drain(10).is_empty());
}

#[test]
fn full_channel_drops_the_newest_and_counts() {
    let (mut producer, mut consumer) = frame_channel_with_capacity(3);
    for i in 0..3 {
        assert_eq!(producer.try_send(frame(i)), SendOutcome::Enqueued);
    }
    for n in 1..=10u64 {
        assert_eq!(producer.try_send(frame(100 + n)), SendOutcome::Dropped);
        assert_eq!(producer.dropped_frames(), n);
    }
    let drained = consumer.drain(100);
    let sequences: Vec<u64> = drained.iter().map(|f| f.header.sequence).collect();
    assert_eq!(sequences, vec![0, 1, 2]);
    assert_eq!(producer.dropped_frames(), 10);
    assert_eq!(producer.try_send(frame(7)), SendOutcome::Enqueued);
    assert_eq!(consumer.drain(100)[0].header.sequence, 7);
    assert_eq!(producer.dropped_frames(), 10);
}

#[test]
fn default_capacity_holds_sixty_frames() {
    let (mut producer, mut consumer) = frame_channel();
    for i in 0..60 {
        assert_eq!(producer.try_send(frame(i)), SendOutcome::Enqueued);
    }
    assert_eq!(producer.try_send(frame(60)), SendOutcome::Dropped);
    assert_eq!(producer.dropped_frames(), 1);
    assert_eq!(consumer.drain(1000).len(), 60);
}

#[test]
fn room_comes_back_when_the_consumer_takes_a_frame() {
    let (mut producer, mut consumer) = frame_channel_with_capacity(2);
    producer.try_send(frame(1));
    producer.try_send(frame(2));
    assert_eq!(producer.try_send(frame(3)), SendOutcome::Dropped);
    assert_eq!(consumer.drain(1)[0].header.sequence, 1);
    assert_eq!(producer.try_send(frame(4)), SendOutcome::Enqueued);
    let rest: Vec<u64> = consumer.drain(10).iter().map(|f| f.header.sequence).collect();
    assert_eq!(rest, vec![2, 4]);
}

#[test]
fn drain_takes_no_more_than_the_limit() {
    let (mut producer, mut consumer) = frame_channel_with_capacity(8);
    for i in 0..5 {
        producer.try_send(frame(i));
    }
    assert!(consumer.drain(0).is_empty());
    let first: Vec<u64> = consumer.drain(2).iter().map(|f| f.header.sequence).collect();
    assert_eq!(first, vec![0, 1]);
    let rest: Vec<u64> = consumer.drain(usize::MAX).iter().map(|f| f.header.sequence).collect();
    assert_eq!(rest, vec![2, 3, 4]);
}

#[test]
fn closed_channel_turns_frames_away() {
    let (mut producer, consumer) = frame_channel_with_capacity(4);
    producer.try_send(frame(1));
    producer.try_send(frame(2));
    consumer.close();
    assert_eq!(producer.try_send(frame(3)), SendOutcome::Closed);
    assert_eq!(producer.try_send(frame(4)), SendOutcome::Closed);
    assert_eq!(producer.dropped_frames(), 0);
}

#[test]
fn closed_full_channel_reports_closed_and_counts_nothing_more() {
    let (mut producer, consumer) = frame_channel_with_capacity(1);
    producer.try_send(frame(1));
    assert_eq!(producer.try_send(frame(2)), SendOutcome::Dropped);
    consumer.close();
    assert_eq!(producer.try_send(frame(3)), SendOutcome::Closed);
    assert_eq!(producer.dropped_frames(), 1);
}

#[test]
fn every_answer_to_an_offer_has_its_outcome() {
    let (mut producer, _consumer) = frame_channel_with_capacity(1);
    assert_eq!(producer.record(SendAnswer::Sent), SendOutcome::Enqueued);
    assert_eq!(producer.dropped_frames(), 0);
    assert_eq!(producer.record(SendAnswer::Full(frame(1))), SendOutcome::Dropped);
    assert_eq!(producer.dropped_frames(), 1);
    assert_eq!(producer.record(SendAnswer::Closed(frame(2))), SendOutcome::Closed);
    assert_eq!(producer.dropped_frames(), 1);
    for _ in 0..5 {
        producer.record(SendAnswer::Full(frame(3)));
    }
    assert_eq!(producer.dropped_frames(), 6);
}

#[test]
fn every_answer_to_the_consumer_has_its_frame_or_none() {
    assert_eq!(take_frame(RecvAnswer::Frame(frame(9))).unwrap().header.sequence, 9);
    assert!(take_frame(RecvAnswer::Empty).is_none());
    assert!(take_frame(RecvAnswer::Disconnected).is_none());
}
