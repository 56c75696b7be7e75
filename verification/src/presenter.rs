//! The presenter: what each frame taken from the channel does to the
//! framebuffer, to the telemetry window and to the presenter's state.
//!
//! The presenter owns the framebuffer and the decoder, and nothing else
//! touches them. Showing the framebuffer on a surface, and measuring time,
//! are the caller's part.

use openh264::decoder::Decoder;
use vstd::prelude::*;

use crate::buffer::bytes_as_slice;
use crate::decoder::{answers, decode_access_unit, Decoded, MAX_ACCESS_UNIT_SIZE};
use crate::error::Error;
use crate::framebuffer::{Framebuffer, FramebufferView};
use crate::picture::Picture;
use crate::protocol::{Frame, FrameType, FrameView};
use crate::reassembler::frame_views;
use crate::telemetry::{Codec, TelemetryReport, TelemetryWindow, TELEMETRY_INTERVAL_US};

verus! {

/// The width of the framebuffer before the first frame sets it.
pub const DEFAULT_WIDTH: usize = 1920;

/// The height of the framebuffer before the first frame sets it.
pub const DEFAULT_HEIGHT: usize = 1080;

/// What the presentation surface is titled until the first report.
pub const WAITING_TITLE: &'static str = "ThunderMirror - Waiting for stream...";

/// How long the channel may stay empty before a streaming presenter goes
/// back to waiting, in microseconds: 60 seconds.
pub const IDLE_TIMEOUT_US: u64 = 60_000_000;

/// Where the presenter stands.
#[derive(Debug, Clone, Copy, PartialEq, Eq, Structural)]
pub enum PresenterState {
    /// No frame has been shown since the start or since the stream ended.
    Waiting,
    /// Frames are being shown.
    Streaming,
    /// Stopped for good.
    Stopped,
}

/// What can move the presenter from one state to another.
#[derive(Debug, Clone, Copy, PartialEq, Eq, Structural)]
pub enum PresenterEvent {
    /// A frame was written to the framebuffer.
    FrameShown,
    /// The channel has been empty for the idle timeout.
    Idle,
    /// The transport reports that the connection is closed.
    ConnectionClosed,
    /// The owner of the surface asks the presenter to stop.
    StopRequested,
}

/// The state that follows `state` on `event`. Nothing leads out of
/// `Stopped`; a stop request leads there from anywhere; a frame shown leads
/// to `Streaming`, and an idle channel or a closed connection to `Waiting`.
pub open spec fn state_after(state: PresenterState, event: PresenterEvent) -> PresenterState {
    if state == PresenterState::Stopped {
        PresenterState::Stopped
    } else {
        match event {
            PresenterEvent::StopRequested => PresenterState::Stopped,
            PresenterEvent::FrameShown => PresenterState::Streaming,
            PresenterEvent::Idle => PresenterState::Waiting,
            PresenterEvent::ConnectionClosed => PresenterState::Waiting,
        }
    }
}

/// What became of one frame.
#[derive(Debug)]
pub enum FrameOutcome {
    /// The frame was written to the framebuffer.
    Shown(Codec),
    /// An H.264 frame gave no picture yet; the framebuffer is as it was.
    Buffering,
    /// An H.264 frame was refused by the decoder and is dropped; later
    /// frames are still tried.
    DecodeFailed(Error),
    /// A control or statistics frame: handed on, the framebuffer untouched.
    PassedThrough,
}

/// The presenter as a mathematical value.
pub struct PresenterView {
    /// The framebuffer.
    pub framebuffer: FramebufferView,
    /// The telemetry window.
    pub telemetry: TelemetryWindow,
    /// The state.
    pub state: PresenterState,
}

/// The codec under which a frame reached the framebuffer, if it did. A raw
/// frame always does; an H.264 frame does when the decoder gave a picture.
pub open spec fn shown_codec(frame_type: FrameType, decoded: Decoded) -> Option<Codec> {
    match frame_type {
        FrameType::RawFrame => Some(Codec::Raw),
        FrameType::H264Frame => if decoded is Picture {
            Some(Codec::H264)
        } else {
            None
        },
        _ => None,
    }
}

/// Whether `decoded` can be what stands for the decoder's answer to `frame`.
/// A frame that is not H.264 never reaches the decoder, and `Buffering`
/// stands for the answer. An H.264 payload that is too long for the decoder
/// is refused by the library. Any other H.264 payload goes to the decoder,
/// and `decoded` is what the library makes of some answer of it.
pub open spec fn may_answer(frame: FrameView, decoded: Decoded) -> bool {
    if frame.header.frame_type != FrameType::H264Frame {
        decoded == Decoded::Buffering
    } else if frame.payload.len() > MAX_ACCESS_UNIT_SIZE {
        decoded is Failed && decoded->Failed_0 is Decode && decoded->Failed_0.message()
            == "access unit too large"@
    } else {
        exists|result: Result<Option<Picture>, String>| #[trigger] answers(result, decoded)
    }
}

impl PresenterView {
    /// The framebuffer after a frame. First the framebuffer takes on the
    /// dimensions of the header, where they are non-zero and new. Then a raw
    /// frame is written over it; a decoded picture with pixels replaces it,
    /// with the picture's own dimensions; anything else leaves it.
    pub open spec fn framebuffer_after(self, frame: FrameView, decoded: Decoded) -> FramebufferView {
        let resized = self.framebuffer.resized(
            frame.header.width as usize,
            frame.header.height as usize,
        );
        match frame.header.frame_type {
            FrameType::RawFrame => resized.with_raw(frame.payload),
            FrameType::H264Frame => match decoded {
                Decoded::Picture(picture) => resized.with_picture(picture),
                _ => resized,
            },
            _ => resized,
        }
    }

    /// The presenter after a frame, where `decoded` is what the decoder made
    /// of the payload (it is looked at for H.264 frames only). Every frame is
    /// counted; a frame that reached the framebuffer is counted under its
    /// codec and moves the presenter to `Streaming`.
    pub open spec fn after_frame(self, frame: FrameView, decoded: Decoded) -> PresenterView {
        let shown = shown_codec(frame.header.frame_type, decoded);
        PresenterView {
            framebuffer: self.framebuffer_after(frame, decoded),
            telemetry: self.telemetry.recorded(frame.payload.len(), shown),
            state: if shown is Some {
                state_after(self.state, PresenterEvent::FrameShown)
            } else {
                self.state
            },
        }
    }

    /// The presenter after the frames, one after the other, where
    /// `decoded[i]` is what the decoder made of `frames[i]`.
    pub open spec fn after_frames(self, frames: Seq<FrameView>, decoded: Seq<Decoded>) -> PresenterView
        recommends
            frames.len() == decoded.len(),
        decreases frames.len(),
    {
        if frames.len() == 0 {
            self
        } else {
            self.after_frames(frames.drop_last(), decoded.drop_last()).after_frame(
                frames.last(),
                decoded.last(),
            )
        }
    }

    /// What is reported of a frame.
    pub open spec fn outcome_matches(outcome: FrameOutcome, frame: FrameView, decoded: Decoded) -> bool {
        match frame.header.frame_type {
            FrameType::RawFrame => outcome == FrameOutcome::Shown(Codec::Raw),
            FrameType::H264Frame => match decoded {
                Decoded::Picture(_) => outcome == FrameOutcome::Shown(Codec::H264),
                Decoded::Buffering => outcome == FrameOutcome::Buffering,
                Decoded::Failed(e) => outcome == FrameOutcome::DecodeFailed(e),
            },
            _ => outcome == FrameOutcome::PassedThrough,
        }
    }
}

/// The presenter.
pub struct Presenter {
    framebuffer: Framebuffer,
    decoder: Decoder,
    telemetry: TelemetryWindow,
    state: PresenterState,
}

impl View for Presenter {
    type V = PresenterView;

    closed spec fn view(&self) -> PresenterView {
        PresenterView {
            framebuffer: self.framebuffer@,
            telemetry: self.telemetry,
            state: self.state,
        }
    }
}

impl Presenter {
    /// The framebuffer holds exactly width times height pixels.
    pub open spec fn well_formed(&self) -> bool {
        self@.framebuffer.well_formed()
    }

    /// A waiting presenter with a black framebuffer of the default
    /// dimensions and an empty telemetry window.
    pub fn new(decoder: Decoder) -> (p: Presenter)
        ensures
            p.well_formed(),
            p@.framebuffer.width == DEFAULT_WIDTH,
            p@.framebuffer.height == DEFAULT_HEIGHT,
            p@.framebuffer.pixels == crate::framebuffer::black(
                (DEFAULT_WIDTH * DEFAULT_HEIGHT) as nat,
            ),
            p@.telemetry == (TelemetryWindow {
                frame_count: 0,
                total_bytes: 0,
                h264_frames: 0,
                raw_frames: 0,
            }),
            p@.state == PresenterState::Waiting,
    {
        Presenter {
            framebuffer: Framebuffer::new(DEFAULT_WIDTH, DEFAULT_HEIGHT),
            decoder,
            telemetry: TelemetryWindow::new(),
            state: PresenterState::Waiting,
        }
    }

    /// The framebuffer, to show it.
    pub fn framebuffer(&self) -> (fb: &Framebuffer)
        ensures
            fb@ == self@.framebuffer,
    {
        &self.framebuffer
    }

    /// The telemetry window as it stands.
    pub fn telemetry(&self) -> (w: TelemetryWindow)
        ensures
            w == self@.telemetry,
    {
        self.telemetry
    }

    /// The state.
    pub fn state(&self) -> (s: PresenterState)
        ensures
            s == self@.state,
    {
        self.state
    }

    /// Moves the presenter on `event`.
    pub fn on_event(&mut self, event: PresenterEvent)
        ensures
            final(self)@ == (PresenterView {
                state: state_after(old(self)@.state, event),
                ..old(self)@
            }),
    {
        if self.state != PresenterState::Stopped {
            self.state = match event {
                PresenterEvent::StopRequested => PresenterState::Stopped,
                PresenterEvent::FrameShown => PresenterState::Streaming,
                PresenterEvent::Idle => PresenterState::Waiting,
                PresenterEvent::ConnectionClosed => PresenterState::Waiting,
            };
        }
    }

    /// Tells the presenter how long the channel has been empty. Once that is
    /// the idle timeout or more, the presenter goes back to waiting.
    pub fn on_idle(&mut self, idle_us: u64)
        ensures
            final(self)@ == (PresenterView {
                state: if idle_us >= IDLE_TIMEOUT_US {
                    state_after(old(self)@.state, PresenterEvent::Idle)
                } else {
                    old(self)@.state
                },
                ..old(self)@
            }),
    {
        if idle_us >= IDLE_TIMEOUT_US {
            self.on_event(PresenterEvent::Idle);
        }
    }

    /// Applies one frame, given what the decoder made of its payload. The
    /// decoder's answer is looked at for H.264 frames only.
    pub fn apply_frame(&mut self, frame: &Frame, decoded: Decoded) -> (outcome: FrameOutcome)
        requires
            old(self).well_formed(),
            decoded.well_formed(),
        ensures
            final(self).well_formed(),
            final(self)@ == old(self)@.after_frame(frame@, decoded),
            PresenterView::outcome_matches(outcome, frame@, decoded),
    {
        let payload = bytes_as_slice(&frame.payload);
        let _ = self.framebuffer.resize(frame.header.width as usize, frame.header.height as usize);
        let outcome = match frame.header.frame_type {
            FrameType::RawFrame => {
                self.framebuffer.write_raw(payload);
                FrameOutcome::Shown(Codec::Raw)
            },
            FrameType::H264Frame => match decoded {
                Decoded::Picture(picture) => {
                    self.framebuffer.show_picture(&picture);
                    FrameOutcome::Shown(Codec::H264)
                },
                Decoded::Buffering => FrameOutcome::Buffering,
                Decoded::Failed(e) => FrameOutcome::DecodeFailed(e),
            },
            _ => FrameOutcome::PassedThrough,
        };
        let shown = match outcome {
            FrameOutcome::Shown(codec) => Some(codec),
            _ => None,
        };
        self.telemetry.record_frame(payload.len(), shown);
        if shown.is_some() {
            self.on_event(PresenterEvent::FrameShown);
        }
        outcome
    }

    /// Handles one frame taken from the channel: an H.264 payload goes to the
    /// decoder, and the frame is applied with the decoder's answer. The
    /// presenter ends as `after_frame` says for that answer, whatever it was.
    /// A frame that is not H.264 is applied without the decoder, and an H.264
    /// payload that is too long for the decoder is a decode failure.
    pub fn handle_frame(&mut self, frame: &Frame) -> (outcome: FrameOutcome)
        requires
            old(self).well_formed(),
        ensures
            final(self).well_formed(),
            exists|decoded: Decoded|
                {
                    &&& decoded.well_formed()
                    &&& may_answer(frame@, decoded)
                    &&& #[trigger] old(self)@.after_frame(frame@, decoded) == final(self)@
                    &&& PresenterView::outcome_matches(outcome, frame@, decoded)
                },
            frame@.header.frame_type != FrameType::H264Frame ==> final(self)@ == old(self)@.after_frame(
                frame@,
                Decoded::Buffering,
            ),
            frame@.header.frame_type == FrameType::H264Frame && frame@.payload.len()
                > MAX_ACCESS_UNIT_SIZE ==> outcome is DecodeFailed && outcome->DecodeFailed_0 is Decode
                && outcome->DecodeFailed_0.message() == "access unit too large"@,
    {
        let decoded = match frame.header.frame_type {
            FrameType::H264Frame => decode_access_unit(
                &mut self.decoder,
                bytes_as_slice(&frame.payload),
            ),
            _ => Decoded::Buffering,
        };
        let ghost answer = decoded;
        assert(may_answer(frame@, answer));
        let outcome = self.apply_frame(frame, decoded);
        assert(old(self)@.after_frame(frame@, answer) == self@);
        outcome
    }

    /// Handles the frames taken from the channel, in order. The presenter
    /// ends as `after_frames` says for the decoder's answers, whatever they
    /// were, and `outcomes` tells what became of each frame.
    pub fn handle_frames(&mut self, frames: &Vec<Frame>) -> (outcomes: Vec<FrameOutcome>)
        requires
            old(self).well_formed(),
        ensures
            final(self).well_formed(),
            outcomes@.len() == frames@.len(),
            exists|decoded: Seq<Decoded>|
                {
                    &&& decoded.len() == frames@.len()
                    &&& forall|i: int| 0 <= i < decoded.len() ==> (#[trigger] decoded[i]).well_formed()
                    &&& forall|i: int|
                        0 <= i < decoded.len() ==> may_answer(frames@[i]@, #[trigger] decoded[i])
                    &&& final(self)@ == #[trigger] old(self)@.after_frames(
                        frame_views(frames@),
                        decoded,
                    )
                    &&& forall|i: int|
                        0 <= i < decoded.len() ==> PresenterView::outcome_matches(
                            outcomes@[i],
                            frames@[i]@,
                            decoded[i],
                        )
                },
    {
        let mut outcomes: Vec<FrameOutcome> = Vec::new();
        let ghost mut answers: Seq<Decoded> = Seq::empty();
        let mut i: usize = 0;
        while i < frames.len()
            invariant
                i <= frames@.len(),
                self.well_formed(),
                outcomes@.len() == i,
                answers.len() == i,
                forall|k: int| 0 <= k < i ==> (#[trigger] answers[k]).well_formed(),
                forall|k: int| 0 <= k < i ==> may_answer(frames@[k]@, #[trigger] answers[k]),
                old(self)@.after_frames(frame_views(frames@.take(i as int)), answers) == self@,
                forall|k: int|
                    0 <= k < i ==> PresenterView::outcome_matches(
                        outcomes@[k],
                        frames@[k]@,
                        answers[k],
                    ),
            decreases frames@.len() - i,
        {
            let ghost before = self@;
            let outcome = self.handle_frame(&frames[i]);
            proof {
                let answer = choose|decoded: Decoded|
                    {
                        &&& decoded.well_formed()
                        &&& may_answer(frames@[i as int]@, decoded)
                        &&& #[trigger] before.after_frame(frames@[i as int]@, decoded) == self@
                        &&& PresenterView::outcome_matches(outcome, frames@[i as int]@, decoded)
                    };
                let taken = frame_views(frames@.take(i + 1));
                assert(taken.drop_last() =~= frame_views(frames@.take(i as int)));
                assert(taken.last() == frames@[i as int]@);
                assert(answers.push(answer).drop_last() =~= answers);
                answers = answers.push(answer);
            }
            outcomes.push(outcome);
            i = i + 1;
        }
        assert(frames@.take(i as int) =~= frames@);
        outcomes
    }

    /// Makes the telemetry report once a second or more has passed since the
    /// last one, and starts a new window; before that, nothing happens.
    pub fn tick(&mut self, elapsed_us: u64) -> (report: Option<TelemetryReport>)
        ensures
            elapsed_us >= TELEMETRY_INTERVAL_US ==> report == Some(
                old(self)@.telemetry.report(
                    elapsed_us,
                    old(self)@.framebuffer.width as usize,
                    old(self)@.framebuffer.height as usize,
                ),
            ) && final(self)@ == (PresenterView {
                telemetry: TelemetryWindow {
                    frame_count: 0,
                    total_bytes: 0,
                    h264_frames: 0,
                    raw_frames: 0,
                },
                ..old(self)@
            }),
            elapsed_us < TELEMETRY_INTERVAL_US ==> report is None && final(self)@ == old(self)@,
    {
        let width = self.framebuffer.width();
        let height = self.framebuffer.height();
        self.telemetry.emit(elapsed_us, width, height)
    }
}

/// Whatever frame comes, and whatever the decoder makes of it, the
/// framebuffer holds exactly width times height pixels afterwards.
pub proof fn lemma_framebuffer_stays_well_formed(
    presenter: PresenterView,
    frame: FrameView,
    decoded: Decoded,
)
    requires
        presenter.framebuffer.well_formed(),
        decoded.well_formed(),
    ensures
        presenter.after_frame(frame, decoded).framebuffer.well_formed(),
{
}

/// After an H.264 frame that gave a picture without pixels, the
/// framebuffer is what the frame's header alone made of it: a zero
/// dimension is skipped, and the dimensions stay.
pub proof fn lemma_picture_without_pixels_keeps_the_dimensions(
    presenter: PresenterView,
    frame: FrameView,
    picture: Picture,
)
    requires
        frame.header.frame_type == FrameType::H264Frame,
        !picture.has_pixels(),
    ensures
        presenter.after_frame(frame, Decoded::Picture(picture)).framebuffer
            == presenter.framebuffer.resized(
            frame.header.width as usize,
            frame.header.height as usize,
        ),
{
}

/// After an H.264 frame that gave a picture with pixels, the framebuffer
/// has the picture's dimensions and pixels, whatever its dimensions were
/// before and whatever the frame's header says: what is shown next is the
/// new picture at its own size.
pub proof fn lemma_picture_sets_the_dimensions(
    presenter: PresenterView,
    frame: FrameView,
    picture: Picture,
)
    requires
        frame.header.frame_type == FrameType::H264Frame,
        picture.has_pixels(),
    ensures
        presenter.after_frame(frame, Decoded::Picture(picture)).framebuffer.width == picture.width,
        presenter.after_frame(frame, Decoded::Picture(picture)).framebuffer.height
            == picture.height,
        presenter.after_frame(frame, Decoded::Picture(picture)).framebuffer.pixels
            == picture.pixels(),
        presenter.after_frame(frame, Decoded::Picture(picture)).framebuffer.pixels.len()
            == picture.width * picture.height,
        presenter.after_frame(frame, Decoded::Picture(picture)).framebuffer.well_formed(),
{
}

} // verus!
