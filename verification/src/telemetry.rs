//! The rolling telemetry window: what the presenter counts between two
//! reports, and the report that it makes of the counts once a second.
//!
//! Rates are given as whole numbers: frames per second in thousandths, and
//! kilobits per second, both rounded down. A count or a rate that would pass
//! `u64::MAX` stays there.

use vstd::prelude::*;

verus! {

/// The time between two reports, in microseconds: one second.
pub const TELEMETRY_INTERVAL_US: u64 = 1_000_000;

/// The codec of a frame that reached the framebuffer.
#[derive(Debug, Clone, Copy, PartialEq, Eq, Structural)]
pub enum Codec {
    /// H.264.
    H264,
    /// Raw RGBA.
    Raw,
}

impl Codec {
    /// The codec's name as shown to the user.
    pub fn label(self) -> (s: &'static str)
        ensures
            s@ == match self {
                Codec::H264 => "H.264"@,
                Codec::Raw => "raw"@,
            },
    {
        match self {
            Codec::H264 => "H.264",
            Codec::Raw => "raw",
        }
    }
}

/// `n`, held at `u64::MAX` where it is larger.
pub open spec fn saturated(n: int) -> u64 {
    if n > u64::MAX {
        u64::MAX
    } else {
        n as u64
    }
}

/// Frames per second in thousandths, rounded down: `frames` frames in
/// `elapsed_us` microseconds.
pub open spec fn fps_millis_of(frames: u64, elapsed_us: u64) -> u64 {
    saturated(frames * 1_000_000_000 / elapsed_us as int)
}

/// Kilobits per second, rounded down: `bytes` bytes in `elapsed_us`
/// microseconds.
pub open spec fn kbps_of(bytes: u64, elapsed_us: u64) -> u64 {
    saturated(bytes * 8_000 / elapsed_us as int)
}

/// The codec that most frames of a window had: H.264 where more H.264 frames
/// than raw frames were shown, raw otherwise.
pub open spec fn dominant_codec_of(h264_frames: u64, raw_frames: u64) -> Codec {
    if h264_frames > raw_frames {
        Codec::H264
    } else {
        Codec::Raw
    }
}

/// The counts since the last report.
#[derive(Debug, Clone, Copy, PartialEq, Eq, Structural)]
pub struct TelemetryWindow {
    /// Frames taken from the channel.
    pub frame_count: u64,
    /// Payload bytes of those frames.
    pub total_bytes: u64,
    /// H.264 frames that gave a picture.
    pub h264_frames: u64,
    /// Raw frames.
    pub raw_frames: u64,
}

/// What is reported once a second.
#[derive(Debug, Clone, Copy, PartialEq, Eq, Structural)]
pub struct TelemetryReport {
    /// Frames taken from the channel in the window.
    pub frame_count: u64,
    /// Payload bytes of those frames.
    pub total_bytes: u64,
    /// H.264 frames that gave a picture.
    pub h264_frames: u64,
    /// Raw frames.
    pub raw_frames: u64,
    /// The length of the window in microseconds.
    pub elapsed_us: u64,
    /// Frames per second, in thousandths.
    pub fps_millis: u64,
    /// Kilobits per second.
    pub kbps: u64,
    /// The codec of most frames.
    pub codec: Codec,
    /// The framebuffer's width at the time of the report.
    pub width: usize,
    /// The framebuffer's height at the time of the report.
    pub height: usize,
}

fn add_saturating(a: u64, b: u64) -> (sum: u64)
    ensures
        sum == saturated(a + b),
{
    if a > u64::MAX - b {
        u64::MAX
    } else {
        a + b
    }
}

/// The rate `count * scale / elapsed_us`, rounded down and held at
/// `u64::MAX`.
pub(crate) fn rate(count: u64, scale: u64, elapsed_us: u64) -> (r: u64)
    requires
        elapsed_us > 0,
    ensures
        r == saturated(count * scale / elapsed_us as int),
{
    assert(0 <= count * scale <= 0xFFFF_FFFF_FFFF_FFFF * 0xFFFF_FFFF_FFFF_FFFF) by (nonlinear_arith)
        requires
            0 <= count <= 0xFFFF_FFFF_FFFF_FFFF,
            0 <= scale <= 0xFFFF_FFFF_FFFF_FFFF,
    ;
    let product: u128 = count as u128 * scale as u128;
    let quotient: u128 = product / elapsed_us as u128;
    if quotient > u64::MAX as u128 {
        u64::MAX
    } else {
        quotient as u64
    }
}

impl TelemetryWindow {
    /// The window after one more frame: the frame and its payload bytes are
    /// counted, and the frame is counted under its codec where it reached
    /// the framebuffer.
    pub open spec fn recorded(self, payload_len: nat, shown: Option<Codec>) -> TelemetryWindow {
        TelemetryWindow {
            frame_count: saturated(self.frame_count + 1),
            total_bytes: saturated(self.total_bytes + saturated(payload_len as int)),
            h264_frames: if shown == Some(Codec::H264) {
                saturated(self.h264_frames + 1)
            } else {
                self.h264_frames
            },
            raw_frames: if shown == Some(Codec::Raw) {
                saturated(self.raw_frames + 1)
            } else {
                self.raw_frames
            },
        }
    }

    /// The report of the window after `elapsed_us` microseconds.
    pub open spec fn report(self, elapsed_us: u64, width: usize, height: usize) -> TelemetryReport {
        TelemetryReport {
            frame_count: self.frame_count,
            total_bytes: self.total_bytes,
            h264_frames: self.h264_frames,
            raw_frames: self.raw_frames,
            elapsed_us,
            fps_millis: fps_millis_of(self.frame_count, elapsed_us),
            kbps: kbps_of(self.total_bytes, elapsed_us),
            codec: dominant_codec_of(self.h264_frames, self.raw_frames),
            width,
            height,
        }
    }

    /// An empty window.
    pub fn new() -> (w: TelemetryWindow)
        ensures
            w == (TelemetryWindow { frame_count: 0, total_bytes: 0, h264_frames: 0, raw_frames: 0 }),
    {
        TelemetryWindow { frame_count: 0, total_bytes: 0, h264_frames: 0, raw_frames: 0 }
    }

    /// Counts one frame.
    pub fn record_frame(&mut self, payload_len: usize, shown: Option<Codec>)
        ensures
            *final(self) == old(self).recorded(payload_len as nat, shown),
    {
        self.frame_count = add_saturating(self.frame_count, 1);
        self.total_bytes = add_saturating(self.total_bytes, payload_len as u64);
        match shown {
            Some(Codec::H264) => {
                self.h264_frames = add_saturating(self.h264_frames, 1);
            },
            Some(Codec::Raw) => {
                self.raw_frames = add_saturating(self.raw_frames, 1);
            },
            None => {},
        }
    }

    /// The codec of most frames in the window.
    pub fn dominant_codec(&self) -> (c: Codec)
        ensures
            c == dominant_codec_of(self.h264_frames, self.raw_frames),
    {
        if self.h264_frames > self.raw_frames {
            Codec::H264
        } else {
            Codec::Raw
        }
    }

    /// Reports and starts a new window, once a second or more has passed
    /// since the last report; before that, nothing happens.
    pub fn emit(&mut self, elapsed_us: u64, width: usize, height: usize) -> (report: Option<
        TelemetryReport,
    >)
        ensures
            elapsed_us >= TELEMETRY_INTERVAL_US ==> report == Some(
                old(self).report(elapsed_us, width, height),
            ) && *final(self) == (TelemetryWindow {
                frame_count: 0,
                total_bytes: 0,
                h264_frames: 0,
                raw_frames: 0,
            }),
            elapsed_us < TELEMETRY_INTERVAL_US ==> report is None && *final(self) == *old(self),
    {
        if elapsed_us < TELEMETRY_INTERVAL_US {
            return None;
        }
        let report = TelemetryReport {
            frame_count: self.frame_count,
            total_bytes: self.total_bytes,
            h264_frames: self.h264_frames,
            raw_frames: self.raw_frames,
            elapsed_us,
            fps_millis: rate(self.frame_count, 1_000_000_000, elapsed_us),
            kbps: rate(self.total_bytes, 8_000, elapsed_us),
            codec: self.dominant_codec(),
            width,
            height,
        };
        *self = TelemetryWindow::new();
        Some(report)
    }
}

} // verus!
