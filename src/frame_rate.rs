use vstd::prelude::*;

use crate::clock::now_millis;

verus! {

/// The frame count after one more frame; the counter wraps to zero.
pub open spec fn next_count(frames: u16) -> u16 {
    if frames == u16::MAX {
        0
    } else {
        (frames + 1) as u16
    }
}

/// Average milliseconds per frame over `elapsed` milliseconds, rounded down
/// and held within `u16`. A count that wrapped to zero gives the largest value.
pub open spec fn average_frame_time(elapsed: int, frames: int) -> u16 {
    if elapsed <= 0 {
        0
    } else if frames == 0 || elapsed / frames > u16::MAX {
        u16::MAX
    } else {
        (elapsed / frames) as u16
    }
}

/// Counts rendered frames and, once per interval, the average frame time.
/// Times are milliseconds since the Unix epoch.
#[derive(Debug)]
pub struct FrameRateCounter {
    /// The latest average, none before the first interval has passed.
    pub frame_time: Option<u16>,
    /// Frames since the last sample.
    pub frames: u16,
    /// When the last sample was taken (or the counter made).
    pub last_interval: i64,
    /// Milliseconds between samples.
    pub update_interval: i64,
}

impl FrameRateCounter {
    /// A counter that samples every `update_interval` milliseconds, started
    /// at time `now`.
    pub fn new_at(update_interval: i64, now: i64) -> (r: FrameRateCounter)
        ensures
            r.frame_time is None,
            r.frames == 0,
            r.last_interval == now,
            r.update_interval == update_interval,
    {
        FrameRateCounter { frame_time: None, frames: 0, last_interval: now, update_interval }
    }

    /// A counter that samples every `update_interval` milliseconds, started
    /// now.
    pub fn new(update_interval: i64) -> (r: FrameRateCounter)
        ensures
            r.frame_time is None,
            r.frames == 0,
            r.update_interval == update_interval,
    {
        FrameRateCounter::new_at(update_interval, now_millis())
    }

    /// Counts one frame rendered at time `now`. Where a whole interval has
    /// passed since the last sample, takes a new one, restarts the count and
    /// returns the sample.
    pub fn incr_at(&mut self, now: i64) -> (r: Option<u16>)
        ensures
            final(self).update_interval == old(self).update_interval,
            ({
                let elapsed = now - old(self).last_interval;
                let frames = next_count(old(self).frames);
                if elapsed >= old(self).update_interval {
                    let sample = average_frame_time(elapsed, frames as int);
                    &&& r == Some(sample)
                    &&& final(self).frame_time == Some(sample)
                    &&& final(self).frames == 0
                    &&& final(self).last_interval == now
                } else {
                    &&& r is None
                    &&& final(self).frame_time == old(self).frame_time
                    &&& final(self).frames == frames
                    &&& final(self).last_interval == old(self).last_interval
                }
            }),
    {
        self.frames = self.frames.wrapping_add(1);
        let elapsed: i128 = now as i128 - self.last_interval as i128;
        if elapsed >= self.update_interval as i128 {
            let frames: i128 = self.frames as i128;
            let sample: u16 = if elapsed <= 0 {
                0
            } else if frames == 0 || elapsed / frames > u16::MAX as i128 {
                u16::MAX
            } else {
                (elapsed / frames) as u16
            };
            self.frame_time = Some(sample);
            self.frames = 0;
            self.last_interval = now;
            Some(sample)
        } else {
            None
        }
    }

    /// Counts one frame rendered now; see `incr_at`.
    pub fn incr(&mut self) -> (r: Option<u16>)
        ensures
            final(self).update_interval == old(self).update_interval,
            r matches Some(sample) ==> final(self).frame_time == Some(sample)
                && final(self).frames == 0,
            r is None ==> final(self).frame_time == old(self).frame_time
                && final(self).frames == next_count(old(self).frames),
    {
        let now = now_millis();
        self.incr_at(now)
    }

    /// The latest average frame time in milliseconds, none before the first
    /// interval has passed.
    pub fn frame_time(&self) -> (r: Option<u16>)
        ensures
            r == self.frame_time,
    {
        self.frame_time
    }
}

} // verus!
