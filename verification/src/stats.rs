//! Counters of a running stream, and the snapshot that is taken of them.
//!
//! The collector does not read a clock: the caller says how many
//! microseconds have passed since the collector was made. Rates are whole
//! numbers, rounded down. The counters wrap around at `u64::MAX`.

use vstd::prelude::*;

use crate::telemetry::{rate, saturated};

verus! {

/// The shortest time between two snapshots that gives rates, in
/// microseconds: a tenth of a second.
pub const MIN_RATE_INTERVAL_US: u64 = 100_000;

/// The counters at one moment.
#[derive(Debug, Clone, Copy, PartialEq, Eq, Structural)]
pub struct StatsSnapshot {
    /// Frames per second since the last snapshot that gave rates, in
    /// thousandths.
    pub fps_millis: u64,
    /// Bytes per second since the last snapshot that gave rates.
    pub bytes_per_sec: u64,
    /// Kilobits per second, from `bytes_per_sec`.
    pub bitrate_kbps: u64,
    /// All frames counted.
    pub total_frames: u64,
    /// All bytes counted.
    pub total_bytes: u64,
    /// All dropped frames counted.
    pub dropped_frames: u64,
    /// Estimated latency in microseconds; the collector does not measure it.
    pub latency_us: Option<u64>,
    /// Microseconds since the collector was made.
    pub uptime_us: u64,
}

/// The collector.
#[derive(Debug, Clone, Copy, PartialEq, Eq, Structural)]
pub struct Stats {
    /// When the last snapshot that gave rates was taken.
    pub last_snapshot_us: u64,
    /// Frames counted.
    pub frames: u64,
    /// Bytes counted.
    pub bytes: u64,
    /// Dropped frames counted.
    pub dropped: u64,
    /// `frames` at the last snapshot that gave rates.
    pub last_frames: u64,
    /// `bytes` at the last snapshot that gave rates.
    pub last_bytes: u64,
}

/// `a + b` as a 64-bit counter holds it: wrapped around.
pub open spec fn wrapped(n: int) -> u64 {
    (n % 0x1_0000_0000_0000_0000) as u64
}

/// `a - b`, or zero where `b` is the larger.
pub open spec fn difference(a: u64, b: u64) -> u64 {
    if a >= b {
        (a - b) as u64
    } else {
        0
    }
}

fn sub_or_zero(a: u64, b: u64) -> (d: u64)
    ensures
        d == difference(a, b),
{
    if a >= b {
        a - b
    } else {
        0
    }
}

impl Stats {
    /// Whether a snapshot at `now_us` gives rates: a tenth of a second or
    /// more has passed since the last one that did.
    pub open spec fn gives_rates(self, now_us: u64) -> bool {
        difference(now_us, self.last_snapshot_us) >= MIN_RATE_INTERVAL_US
    }

    /// The snapshot at `now_us`. Rates are taken over the time since the
    /// last snapshot that gave rates, and are zero before a tenth of a second
    /// has passed.
    pub open spec fn snapshot_at(self, now_us: u64) -> StatsSnapshot {
        let elapsed = difference(now_us, self.last_snapshot_us);
        let bytes_per_sec = if self.gives_rates(now_us) {
            saturated(difference(self.bytes, self.last_bytes) * 1_000_000 / elapsed as int)
        } else {
            0
        };
        StatsSnapshot {
            fps_millis: if self.gives_rates(now_us) {
                saturated(
                    difference(self.frames, self.last_frames) * 1_000_000_000 / elapsed as int,
                )
            } else {
                0
            },
            bytes_per_sec,
            bitrate_kbps: saturated(bytes_per_sec * 8 / 1000),
            total_frames: self.frames,
            total_bytes: self.bytes,
            dropped_frames: self.dropped,
            latency_us: None,
            uptime_us: now_us,
        }
    }

    /// The collector after a snapshot at `now_us`: one that gave rates is
    /// remembered, with the counters as they stood.
    pub open spec fn after_snapshot(self, now_us: u64) -> Stats {
        if self.gives_rates(now_us) {
            Stats {
                last_snapshot_us: now_us,
                last_frames: self.frames,
                last_bytes: self.bytes,
                ..self
            }
        } else {
            self
        }
    }

    /// A collector with every counter at zero.
    pub fn new() -> (s: Stats)
        ensures
            s == (Stats {
                last_snapshot_us: 0,
                frames: 0,
                bytes: 0,
                dropped: 0,
                last_frames: 0,
                last_bytes: 0,
            }),
    {
        Stats { last_snapshot_us: 0, frames: 0, bytes: 0, dropped: 0, last_frames: 0, last_bytes: 0 }
    }

    /// Counts a frame of `bytes` bytes.
    pub fn record_frame(&mut self, bytes: u64)
        ensures
            *final(self) == (Stats {
                frames: wrapped(old(self).frames + 1),
                bytes: wrapped(old(self).bytes + bytes),
                ..*old(self)
            }),
    {
        self.frames = self.frames.wrapping_add(1);
        self.bytes = self.bytes.wrapping_add(bytes);
    }

    /// Counts a dropped frame.
    pub fn record_drop(&mut self)
        ensures
            *final(self) == (Stats { dropped: wrapped(old(self).dropped + 1), ..*old(self) }),
    {
        self.dropped = self.dropped.wrapping_add(1);
    }

    /// Takes a snapshot, `now_us` microseconds after the collector was made.
    pub fn snapshot(&mut self, now_us: u64) -> (snapshot: StatsSnapshot)
        ensures
            snapshot == old(self).snapshot_at(now_us),
            *final(self) == old(self).after_snapshot(now_us),
    {
        let elapsed = sub_or_zero(now_us, self.last_snapshot_us);
        let mut fps_millis: u64 = 0;
        let mut bytes_per_sec: u64 = 0;
        let total_frames = self.frames;
        let total_bytes = self.bytes;
        if elapsed >= MIN_RATE_INTERVAL_US {
            let frame_delta = sub_or_zero(self.frames, self.last_frames);
            let byte_delta = sub_or_zero(self.bytes, self.last_bytes);
            fps_millis = rate(frame_delta, 1_000_000_000, elapsed);
            bytes_per_sec = rate(byte_delta, 1_000_000, elapsed);
            self.last_frames = self.frames;
            self.last_bytes = self.bytes;
            self.last_snapshot_us = now_us;
        }
        StatsSnapshot {
            fps_millis,
            bytes_per_sec,
            bitrate_kbps: rate(bytes_per_sec, 8, 1000),
            total_frames,
            total_bytes,
            dropped_frames: self.dropped,
            latency_us: None,
            uptime_us: now_us,
        }
    }

    /// Sets every counter back to zero. The time of the last snapshot stays.
    pub fn reset(&mut self)
        ensures
            *final(self) == (Stats {
                last_snapshot_us: old(self).last_snapshot_us,
                frames: 0,
                bytes: 0,
                dropped: 0,
                last_frames: 0,
                last_bytes: 0,
            }),
    {
        self.frames = 0;
        self.bytes = 0;
        self.dropped = 0;
        self.last_frames = 0;
        self.last_bytes = 0;
    }
}

impl Default for Stats {
    /// A collector with every counter at zero.
    fn default() -> (s: Stats)
        ensures
            s == (Stats {
                last_snapshot_us: 0,
                frames: 0,
                bytes: 0,
                dropped: 0,
                last_frames: 0,
                last_bytes: 0,
            }),
    {
        Stats::new()
    }
}

} // verus!
