//! The bounded channel between the network side and the presenter.
//!
//! The channel is tokio's bounded multi-producer channel. Producers never
//! wait: a frame that the channel does not take because it is full is
//! dropped and counted, so that the frames already in flight, a key frame
//! among them, are never lost to a later frame. Once the consumer has closed
//! the channel, every offer is turned away, which tells the producers to
//! stop.
//!
//! What the channel answers to an offer depends on what other threads have
//! done with it, so nothing is claimed of that. What the library does with
//! each answer is stated exactly.

use tokio::sync::mpsc::error::{TryRecvError, TrySendError};
use tokio::sync::mpsc::{Receiver, Sender};
use vstd::prelude::*;

use crate::protocol::Frame;
use crate::telemetry::saturated;

verus! {

/// `tokio::sync::mpsc::Sender`: the sending end of a bounded channel,
/// opaque.
#[verifier::external_type_specification]
#[verifier::external_body]
#[verifier::reject_recursive_types(T)]
pub struct ExSender<T>(tokio::sync::mpsc::Sender<T>);

/// `tokio::sync::mpsc::Receiver`: the receiving end of a bounded channel,
/// opaque.
#[verifier::external_type_specification]
#[verifier::external_body]
#[verifier::reject_recursive_types(T)]
pub struct ExReceiver<T>(tokio::sync::mpsc::Receiver<T>);

/// The number of frames that the channel of a receiver holds: about one
/// second at 60 frames per second.
pub const FRAME_CHANNEL_CAPACITY: usize = 60;

/// What the channel answered to an offer.
#[derive(Debug)]
pub enum SendAnswer {
    /// The frame is in the channel.
    Sent,
    /// The channel is full; it hands the frame back.
    Full(Frame),
    /// The channel is closed; it hands the frame back.
    Closed(Frame),
}

/// What the channel answered to the consumer.
#[derive(Debug)]
pub enum RecvAnswer {
    /// The eldest frame in the channel.
    Frame(Frame),
    /// Nothing is in the channel now.
    Empty,
    /// Nothing is in the channel, and nothing will come: every producer is
    /// gone, or the channel is closed.
    Disconnected,
}

/// What became of a frame offered to the channel.
#[derive(Debug, Clone, Copy, PartialEq, Eq, Structural)]
pub enum SendOutcome {
    /// The frame is in the channel.
    Enqueued,
    /// The channel was full: the frame is dropped and counted.
    Dropped,
    /// The channel is closed: the producer should stop.
    Closed,
}

/// `tokio::sync::mpsc::channel`: the two ends of a new bounded channel. It
/// panics on a capacity of zero and on one above an eighth of `usize::MAX`,
/// which the precondition leaves out. Nothing is promised of the result.
#[verifier::external_body]
pub(crate) fn channel_new(capacity: usize) -> (ends: (Sender<Frame>, Receiver<Frame>))
    requires
        0 < capacity <= usize::MAX / 8,
{
    tokio::sync::mpsc::channel(capacity)
}

/// `Sender::try_send`: offers the frame without waiting. Where the channel
/// does not take the frame, it hands back the frame that was offered. Which
/// of the three answers comes is not promised.
#[verifier::external_body]
pub(crate) fn sender_try_send(tx: &Sender<Frame>, frame: Frame) -> (answer: SendAnswer)
    ensures
        answer matches SendAnswer::Full(f) ==> f == frame,
        answer matches SendAnswer::Closed(f) ==> f == frame,
{
    match tx.try_send(frame) {
        Ok(()) => SendAnswer::Sent,
        Err(TrySendError::Full(f)) => SendAnswer::Full(f),
        Err(TrySendError::Closed(f)) => SendAnswer::Closed(f),
    }
}

/// `Receiver::try_recv`: asks for the eldest frame without waiting. Nothing
/// is promised of the answer.
#[verifier::external_body]
pub(crate) fn receiver_try_recv(rx: &mut Receiver<Frame>) -> (answer: RecvAnswer) {
    match rx.try_recv() {
        Ok(frame) => RecvAnswer::Frame(frame),
        Err(TryRecvError::Empty) => RecvAnswer::Empty,
        Err(TryRecvError::Disconnected) => RecvAnswer::Disconnected,
    }
}

/// `Receiver::close`: closes the channel, so that no further frame is
/// taken in.
#[verifier::external_body]
pub(crate) fn receiver_close(rx: &mut Receiver<Frame>) {
    rx.close()
}

/// What becomes of a frame to which the channel gave this answer.
pub open spec fn outcome_of(answer: SendAnswer) -> SendOutcome {
    match answer {
        SendAnswer::Sent => SendOutcome::Enqueued,
        SendAnswer::Full(_) => SendOutcome::Dropped,
        SendAnswer::Closed(_) => SendOutcome::Closed,
    }
}

/// The count of drops after an answer: one more where the channel was full.
/// The count stops at `u64::MAX`.
pub open spec fn drops_after(dropped: u64, answer: SendAnswer) -> u64 {
    if answer is Full {
        saturated(dropped + 1)
    } else {
        dropped
    }
}

/// The count of drops after the answers, one after the other.
pub open spec fn drops_after_all(dropped: u64, answers: Seq<SendAnswer>) -> u64
    decreases answers.len(),
{
    if answers.len() == 0 {
        dropped
    } else {
        drops_after(drops_after_all(dropped, answers.drop_last()), answers.last())
    }
}

/// The frame that an answer to the consumer holds, if it holds one.
pub open spec fn frame_in(answer: RecvAnswer) -> Option<Frame> {
    match answer {
        RecvAnswer::Frame(frame) => Some(frame),
        _ => None,
    }
}

/// The producers' end of the channel, with the count of the frames that
/// were dropped at it.
pub struct FrameProducer {
    tx: Sender<Frame>,
    dropped: u64,
}

/// The consumer's end of the channel.
pub struct FrameConsumer {
    rx: Receiver<Frame>,
}

impl FrameProducer {
    /// How many frames were dropped because the channel was full.
    pub closed spec fn dropped(&self) -> u64 {
        self.dropped
    }

    /// How many frames were dropped because the channel was full.
    pub fn dropped_frames(&self) -> (n: u64)
        ensures
            n == self.dropped(),
    {
        self.dropped
    }

    /// Takes note of the channel's answer to an offer: a frame that the full
    /// channel handed back is dropped and counted.
    pub fn record(&mut self, answer: SendAnswer) -> (outcome: SendOutcome)
        ensures
            outcome == outcome_of(answer),
            final(self).dropped() == drops_after(old(self).dropped(), answer),
    {
        match answer {
            SendAnswer::Sent => SendOutcome::Enqueued,
            SendAnswer::Full(_) => {
                if self.dropped < u64::MAX {
                    self.dropped = self.dropped + 1;
                }
                SendOutcome::Dropped
            },
            SendAnswer::Closed(_) => SendOutcome::Closed,
        }
    }

    /// Offers a frame, without waiting, and takes note of the answer. The
    /// frame is counted as dropped if and only if that is what is reported
    /// of it.
    pub fn try_send(&mut self, frame: Frame) -> (outcome: SendOutcome)
        ensures
            exists|answer: SendAnswer|
                {
                    &&& outcome == #[trigger] outcome_of(answer)
                    &&& final(self).dropped() == drops_after(old(self).dropped(), answer)
                    &&& !(answer is Sent) ==> answer == SendAnswer::Full(frame) || answer
                        == SendAnswer::Closed(frame)
                },
            final(self).dropped() == if outcome == SendOutcome::Dropped {
                saturated(old(self).dropped() + 1)
            } else {
                old(self).dropped()
            },
    {
        let answer = sender_try_send(&self.tx, frame);
        let ghost given = answer;
        let outcome = self.record(answer);
        assert(outcome == outcome_of(given));
        outcome
    }
}

impl FrameConsumer {
    /// Takes the frames that the channel holds, eldest first, without
    /// waiting: until the channel answers that it has none, and `limit`
    /// frames at most.
    pub fn drain(&mut self, limit: usize) -> (frames: Vec<Frame>)
        ensures
            frames@.len() <= limit,
    {
        let mut frames: Vec<Frame> = Vec::new();
        while frames.len() < limit
            invariant
                frames@.len() <= limit,
            decreases limit - frames@.len(),
        {
            match take_frame(receiver_try_recv(&mut self.rx)) {
                Some(frame) => frames.push(frame),
                None => {
                    return frames;
                },
            }
        }
        frames
    }

    /// Closes the channel and gives up the consumer's end. Every later offer
    /// is turned away, and what the channel still holds is discarded.
    pub fn close(self) {
        let mut rx = self.rx;
        receiver_close(&mut rx);
    }
}

/// The frame that the channel's answer to the consumer holds. An empty
/// channel and a disconnected one both give none.
pub fn take_frame(answer: RecvAnswer) -> (frame: Option<Frame>)
    ensures
        frame == frame_in(answer),
{
    match answer {
        RecvAnswer::Frame(frame) => Some(frame),
        RecvAnswer::Empty => None,
        RecvAnswer::Disconnected => None,
    }
}

/// A new channel of the usual capacity.
pub fn frame_channel() -> (ends: (FrameProducer, FrameConsumer))
    ensures
        ends.0.dropped() == 0,
{
    frame_channel_with_capacity(FRAME_CHANNEL_CAPACITY)
}

/// A new channel that holds at most `capacity` frames.
pub fn frame_channel_with_capacity(capacity: usize) -> (ends: (FrameProducer, FrameConsumer))
    requires
        0 < capacity <= usize::MAX / 8,
    ensures
        ends.0.dropped() == 0,
{
    let (tx, rx) = channel_new(capacity);
    (FrameProducer { tx, dropped: 0 }, FrameConsumer { rx })
}

/// While the channel answers that it is full, every frame offered is
/// dropped and counted: the count of drops goes up by the number of frames
/// offered, and none of them is reported as taken. (The count stops at
/// `u64::MAX`, so the law is stated for counts that stay below it.)
pub proof fn lemma_full_answers_are_all_counted(dropped: u64, answers: Seq<SendAnswer>)
    requires
        forall|i: int| 0 <= i < answers.len() ==> (#[trigger] answers[i]) is Full,
        dropped + answers.len() <= u64::MAX,
    ensures
        drops_after_all(dropped, answers) == dropped + answers.len(),
        forall|i: int|
            0 <= i < answers.len() ==> outcome_of(#[trigger] answers[i]) == SendOutcome::Dropped,
    decreases answers.len(),
{
    if answers.len() > 0 {
        lemma_full_answers_are_all_counted(dropped, answers.drop_last());
    }
}

/// Only a full channel raises the count of drops: after answers of which
/// none is `Full`, the count is what it was.
pub proof fn lemma_other_answers_are_not_counted(dropped: u64, answers: Seq<SendAnswer>)
    requires
        forall|i: int| 0 <= i < answers.len() ==> !((#[trigger] answers[i]) is Full),
    ensures
        drops_after_all(dropped, answers) == dropped,
    decreases answers.len(),
{
    if answers.len() > 0 {
        lemma_other_answers_are_not_counted(dropped, answers.drop_last());
    }
}

} // verus!
