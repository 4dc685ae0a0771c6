//! Bounds of the recording buffer: how much audio a recording may hold and
//! how many frames of each incoming block are kept, so a held-down hotkey
//! cannot grow the buffer without limit.
use vstd::prelude::*;

verus! {

/// Sample rate the speech-to-text model takes.
pub const TARGET_SAMPLE_RATE: u32 = 16000;

/// Buffer limits of one recording.
#[derive(Clone, Copy, Debug)]
pub struct RecordingLimits {
    /// Most mono frames kept.
    pub max_frames: usize,
    /// Frames reserved up front.
    pub initial_capacity: usize,
}

pub open spec fn limit_frames(src_rate: u32, max_seconds: u32) -> int {
    let secs = if max_seconds >= 1 {
        max_seconds as int
    } else {
        1
    };
    if src_rate * secs > usize::MAX {
        usize::MAX as int
    } else {
        src_rate * secs
    }
}

/// Limits for recording at `src_rate` Hz for at most `max_seconds` seconds
/// (at least one): the frame limit saturates at `usize::MAX`, and up to four
/// seconds are reserved up front.
pub fn recording_limits(src_rate: u32, max_seconds: u32) -> (res: RecordingLimits)
    requires
        src_rate * 4 <= usize::MAX,
    ensures
        res.max_frames == limit_frames(src_rate, max_seconds),
        res.initial_capacity == (if res.max_frames <= src_rate * 4 {
            res.max_frames as int
        } else {
            src_rate * 4
        }),
{
    let secs: usize = if max_seconds >= 1 {
        max_seconds as usize
    } else {
        1
    };
    let rate = src_rate as usize;
    let max_frames: usize = if rate > 0 && secs > usize::MAX / rate {
        proof {
            assert(rate * secs > usize::MAX) by (nonlinear_arith)
                requires
                    rate > 0,
                    secs > usize::MAX / rate,
            ;
        }
        usize::MAX
    } else {
        proof {
            assert(rate * secs <= usize::MAX) by (nonlinear_arith)
                requires
                    rate == 0 || secs <= usize::MAX / rate,
            ;
        }
        rate * secs
    };
    let four = rate * 4;
    RecordingLimits {
        max_frames,
        initial_capacity: if max_frames <= four {
            max_frames
        } else {
            four
        },
    }
}

/// How many frames of a block of `n_samples` interleaved samples with
/// `channels` channels (at least one) are kept when `buffered` frames are
/// already held and the limit is `max_frames`.
pub fn frames_to_keep(n_samples: usize, channels: u16, max_frames: usize, buffered: usize) -> (res:
    usize)
    ensures
        res == ({
            let c = if channels >= 1 {
                channels as int
            } else {
                1
            };
            let room = if buffered <= max_frames {
                max_frames - buffered
            } else {
                0
            };
            if (n_samples as int) / c <= room {
                (n_samples as int) / c
            } else {
                room
            }
        }),
        buffered <= max_frames ==> buffered + res <= max_frames,
{
    let c: usize = if channels >= 1 {
        channels as usize
    } else {
        1
    };
    let frames = n_samples / c;
    let room = max_frames.saturating_sub(buffered);
    if frames <= room {
        frames
    } else {
        room
    }
}

} // verus!
