use vstd::prelude::*;

use crate::timeline::PlaybackObservation;
use crate::types::{BackendTime, Generation, OutputFrame, SeekEpoch};

verus! {

/// A stream-local nanosecond count as a backend time, saturating at the largest
/// representable time.
pub open spec fn saturated_backend_time(nanos: u128) -> BackendTime {
    BackendTime(
        if nanos <= u64::MAX {
            nanos as u64
        } else {
            u64::MAX
        },
    )
}

/// Convert a backend's stream-local nanosecond count to the backend-neutral
/// time base.
pub fn backend_time_from_nanos(nanos: u128) -> (time: BackendTime)
    ensures
        time == saturated_backend_time(nanos),
{
    let ceiling = u64::MAX as u128;
    if nanos < ceiling {
        BackendTime(nanos as u64)
    } else {
        BackendTime(u64::MAX)
    }
}

/// Build the backend-neutral observation of one output callback from its
/// stream-local callback and playback instants (in nanoseconds) and the
/// embedding engine's contiguous valid-PCM prefix.
///
/// `output_frame_end` is exclusive. Frames in the hardware callback after that
/// boundary are intentionally outside the logical audible timeline.
pub fn observation_from_timestamps(
    callback_nanos: u128,
    playback_nanos: u128,
    generation: Generation,
    seek_epoch: SeekEpoch,
    output_frame_start: OutputFrame,
    output_frame_end: OutputFrame,
    playing: bool,
) -> (observation: PlaybackObservation)
    ensures
        observation == (PlaybackObservation {
            generation,
            seek_epoch,
            callback_time: saturated_backend_time(callback_nanos),
            playback_time: saturated_backend_time(playback_nanos),
            output_frame_start,
            output_frame_end,
            playing,
        }),
{
    PlaybackObservation {
        generation,
        seek_epoch,
        callback_time: backend_time_from_nanos(callback_nanos),
        playback_time: backend_time_from_nanos(playback_nanos),
        output_frame_start,
        output_frame_end,
        playing,
    }
}

} // verus!
