use audio_playback_timeline::{
    BackendTime, Generation, ObservationOutcome, OutputFrame, PlaybackObservation, SeekEpoch,
    SharedAudibleClock,
};

fn observation(
    generation: Generation,
    seek_epoch: SeekEpoch,
    playback_ns: u64,
    output_frame_start: u64,
    output_frame_end: u64,
) -> PlaybackObservation {
    PlaybackObservation {
        generation,
        seek_epoch,
        callback_time: BackendTime(playback_ns.saturating_sub(100_000)),
        playback_time: BackendTime(playback_ns),
        output_frame_start: OutputFrame(output_frame_start),
        output_frame_end: OutputFrame(output_frame_end),
        playing: true,
    }
}

#[test]
fn shared_clock_keeps_previous_span_for_future_current_callback() {
    let generation = Generation(3);
    let seek_epoch = SeekEpoch(2);
    let (mut writer, reader) = SharedAudibleClock::new(48_000, generation, seek_epoch)
        .unwrap()
        .split();

    writer
        .observe_callback(observation(generation, seek_epoch, 1_000_000_000, 100, 148))
        .unwrap();
    writer
        .observe_callback(observation(generation, seek_epoch, 1_003_000_000, 148, 196))
        .unwrap();

    assert_eq!(
        reader.audible_frame_at(BackendTime(1_002_000_000)),
        OutputFrame(148)
    );
}

#[test]
fn shared_clock_ignores_stale_and_regressive_observations() {
    let generation = Generation(3);
    let seek_epoch = SeekEpoch(2);
    let (mut writer, reader) = SharedAudibleClock::new(48_000, generation, seek_epoch)
        .unwrap()
        .split();

    assert_eq!(
        writer
            .observe_callback(observation(generation, seek_epoch, 1_000_000_000, 100, 148,))
            .unwrap(),
        ObservationOutcome::Accepted
    );
    assert_eq!(
        writer
            .observe_callback(observation(
                Generation(99),
                seek_epoch,
                2_000_000_000,
                148,
                196,
            ))
            .unwrap(),
        ObservationOutcome::IgnoredStale
    );
    assert_eq!(
        writer
            .observe_callback(observation(generation, seek_epoch, 999_000_000, 148, 196,))
            .unwrap(),
        ObservationOutcome::IgnoredRegressiveTimestamp
    );

    assert_eq!(
        reader.audible_frame_at(BackendTime(1_000_750_000)),
        OutputFrame(136)
    );
}
