use vstd::prelude::*;

use crate::types::{BackendTime, Generation, OutputFrame, SeekEpoch};

verus! {

pub const NANOS_PER_SECOND: u128 = 1_000_000_000;

/// Timing and valid-PCM extent reported for one output callback.
#[derive(Debug, Clone, Copy, PartialEq, Eq, Structural)]
pub struct PlaybackObservation {
    pub generation: Generation,
    pub seek_epoch: SeekEpoch,
    pub callback_time: BackendTime,
    pub playback_time: BackendTime,
    /// First logical output frame represented by this callback.
    pub output_frame_start: OutputFrame,
    /// Exclusive end of the contiguous valid PCM prefix.
    /// Any hardware-buffer frames after this point are treated as silence.
    pub output_frame_end: OutputFrame,
    pub playing: bool,
}

#[derive(Debug, Clone, Copy, PartialEq, Eq, Structural)]
pub enum ObservationOutcome {
    Accepted,
    IgnoredStale,
    /// The backend reported a playback timestamp earlier than the last accepted
    /// callback. Ignoring the whole observation is deliberately conservative:
    /// an invalid timestamp must never make the logical audible position lead.
    IgnoredRegressiveTimestamp,
}

#[derive(Debug, Clone, Copy, PartialEq, Eq, Structural)]
pub enum ClockError {
    InvalidSampleRate,
    InvalidSpan { start: OutputFrame, end: OutputFrame },
    /// The observation does not continue the last accepted span: its first
    /// frame differs from the end of the valid prefix accepted before it.
    DiscontinuousSpan { expected_start: OutputFrame, actual_start: OutputFrame },
}

/// The part of an accepted observation that the timeline keeps.
#[derive(Debug, Clone, Copy, PartialEq, Eq, Structural)]
pub struct CallbackSpan {
    pub playback_time: BackendTime,
    pub output_frame_start: OutputFrame,
    pub output_frame_end: OutputFrame,
    pub playing: bool,
}

/// The span an observation contributes once it is accepted.
pub open spec fn span_of(observation: PlaybackObservation) -> CallbackSpan {
    CallbackSpan {
        playback_time: observation.playback_time,
        output_frame_start: observation.output_frame_start,
        output_frame_end: observation.output_frame_end,
        playing: observation.playing,
    }
}

impl From<PlaybackObservation> for CallbackSpan {
    fn from(value: PlaybackObservation) -> (span: Self) {
        CallbackSpan {
            playback_time: value.playback_time,
            output_frame_start: value.output_frame_start,
            output_frame_end: value.output_frame_end,
            playing: value.playing,
        }
    }
}

impl vstd::std_specs::convert::FromSpecImpl<PlaybackObservation> for CallbackSpan {
    open spec fn obeys_from_spec() -> bool {
        true
    }

    open spec fn from_spec(v: PlaybackObservation) -> Self {
        span_of(v)
    }
}

/// A span whose valid prefix is not reversed.
pub open spec fn span_is_valid(span: CallbackSpan) -> bool {
    span.output_frame_start.0 <= span.output_frame_end.0
}

/// What the timeline keeps of its accepted spans: there is never a previous span
/// without a current one, both are valid, and the previous one ends where the
/// current one starts and is not scheduled after it.
pub open spec fn spans_wf(current: Option<CallbackSpan>, previous: Option<CallbackSpan>) -> bool {
    match current {
        None => previous is None,
        Some(c) => {
            &&& span_is_valid(c)
            &&& match previous {
                None => true,
                Some(p) => {
                    &&& span_is_valid(p)
                    &&& p.output_frame_end == c.output_frame_start
                    &&& p.playback_time.0 <= c.playback_time.0
                },
            }
        },
    }
}

/// Check of identity and span order: stale observations pass (they are ignored
/// later); a reversed span of the current timeline is an error.
pub open spec fn identity_and_span_check(
    observation: PlaybackObservation,
    generation: Generation,
    seek_epoch: SeekEpoch,
) -> Result<(), ClockError> {
    if observation.generation != generation || observation.seek_epoch != seek_epoch {
        Ok(())
    } else if observation.output_frame_end.0 < observation.output_frame_start.0 {
        Err(
            ClockError::InvalidSpan {
                start: observation.output_frame_start,
                end: observation.output_frame_end,
            },
        )
    } else {
        Ok(())
    }
}

/// The timing rules of an observation, for a timeline of identity
/// (`generation`, `seek_epoch`) whose last accepted span is `current`: stale
/// observations are ignored, a reversed span is an error, and a playback
/// timestamp earlier than the last accepted one is ignored.
pub open spec fn timing_verdict(
    observation: PlaybackObservation,
    generation: Generation,
    seek_epoch: SeekEpoch,
    current: Option<CallbackSpan>,
) -> Result<ObservationOutcome, ClockError> {
    if observation.generation != generation || observation.seek_epoch != seek_epoch {
        Ok(ObservationOutcome::IgnoredStale)
    } else if observation.output_frame_end.0 < observation.output_frame_start.0 {
        Err(
            ClockError::InvalidSpan {
                start: observation.output_frame_start,
                end: observation.output_frame_end,
            },
        )
    } else {
        match current {
            Some(c) => if observation.playback_time.0 < c.playback_time.0 {
                Ok(ObservationOutcome::IgnoredRegressiveTimestamp)
            } else {
                Ok(ObservationOutcome::Accepted)
            },
            None => Ok(ObservationOutcome::Accepted),
        }
    }
}

/// What the timing rules keep of accepted spans: there is never a previous
/// span without a current one, both are valid, and the previous one is not
/// scheduled after the current one.
pub open spec fn timed_spans_wf(current: Option<CallbackSpan>, previous: Option<CallbackSpan>) -> bool {
    match current {
        None => previous is None,
        Some(c) => {
            &&& span_is_valid(c)
            &&& match previous {
                None => true,
                Some(p) => span_is_valid(p) && p.playback_time.0 <= c.playback_time.0,
            }
        },
    }
}

/// What a clock of identity (`generation`, `seek_epoch`) whose last accepted span
/// is `current` answers to `observation`.
pub open spec fn observation_verdict(
    observation: PlaybackObservation,
    generation: Generation,
    seek_epoch: SeekEpoch,
    current: Option<CallbackSpan>,
) -> Result<ObservationOutcome, ClockError> {
    if observation.generation != generation || observation.seek_epoch != seek_epoch {
        Ok(ObservationOutcome::IgnoredStale)
    } else if observation.output_frame_end.0 < observation.output_frame_start.0 {
        Err(
            ClockError::InvalidSpan {
                start: observation.output_frame_start,
                end: observation.output_frame_end,
            },
        )
    } else {
        match current {
            None => Ok(ObservationOutcome::Accepted),
            Some(c) => if observation.playback_time.0 < c.playback_time.0 {
                Ok(ObservationOutcome::IgnoredRegressiveTimestamp)
            } else if observation.output_frame_start != c.output_frame_end {
                Err(
                    ClockError::DiscontinuousSpan {
                        expected_start: c.output_frame_end,
                        actual_start: observation.output_frame_start,
                    },
                )
            } else {
                Ok(ObservationOutcome::Accepted)
            },
        }
    }
}

/// Frames of `span` that have become audible `elapsed_ns` after its playback
/// instant, at `sample_rate` frames per second (rounded down).
pub open spec fn elapsed_frames(elapsed_ns: int, sample_rate: u32) -> int {
    (elapsed_ns * sample_rate) / (NANOS_PER_SECOND as int)
}

/// The output frame that `span` makes audible at `now`: none before its playback
/// instant; its start when paused or empty; otherwise its start advanced by the
/// elapsed frames, but never past the end of its valid prefix.
pub open spec fn span_frame(span: CallbackSpan, now: BackendTime, sample_rate: u32) -> Option<
    OutputFrame,
> {
    if now.0 < span.playback_time.0 {
        None
    } else if !span.playing || span.output_frame_end.0 <= span.output_frame_start.0 {
        Some(span.output_frame_start)
    } else {
        let elapsed = elapsed_frames(now.0 - span.playback_time.0, sample_rate);
        let valid = span.output_frame_end.0 - span.output_frame_start.0;
        Some(
            OutputFrame(
                (span.output_frame_start.0 + if elapsed < valid {
                    elapsed
                } else {
                    valid
                }) as u64,
            ),
        )
    }
}

/// The frame of the current span at `now`, or else that of the previous span.
pub open spec fn spans_frame(
    current: Option<CallbackSpan>,
    previous: Option<CallbackSpan>,
    now: BackendTime,
    sample_rate: u32,
) -> Option<OutputFrame> {
    let from_previous = match previous {
        Some(p) => span_frame(p, now, sample_rate),
        None => None,
    };
    match current {
        Some(c) => match span_frame(c, now, sample_rate) {
            Some(f) => Some(f),
            None => from_previous,
        },
        None => from_previous,
    }
}

/// The larger of two output frames.
pub open spec fn later_frame(a: OutputFrame, b: OutputFrame) -> OutputFrame {
    if b.0 > a.0 {
        b
    } else {
        a
    }
}

/// Abstract state of an [`AudibleClock`].
pub struct ClockState {
    pub sample_rate: u32,
    pub generation: Generation,
    pub seek_epoch: SeekEpoch,
    pub current: Option<CallbackSpan>,
    pub previous: Option<CallbackSpan>,
    pub reported: OutputFrame,
}

impl ClockState {
    pub open spec fn initial(sample_rate: u32, generation: Generation, seek_epoch: SeekEpoch) -> Self {
        ClockState {
            sample_rate,
            generation,
            seek_epoch,
            current: None,
            previous: None,
            reported: OutputFrame(0),
        }
    }

    pub open spec fn wf(self) -> bool {
        &&& self.sample_rate > 0
        &&& spans_wf(self.current, self.previous)
    }

    /// Result of offering `observation` to the clock.
    pub open spec fn observe_result(self, observation: PlaybackObservation) -> Result<
        ObservationOutcome,
        ClockError,
    > {
        observation_verdict(observation, self.generation, self.seek_epoch, self.current)
    }

    /// State after offering `observation`: an accepted observation becomes the
    /// current span and the old current span becomes the previous one; anything
    /// else leaves the state as it was.
    pub open spec fn observe(self, observation: PlaybackObservation) -> Self {
        if self.observe_result(observation) == Ok::<ObservationOutcome, ClockError>(
            ObservationOutcome::Accepted,
        ) {
            ClockState {
                sample_rate: self.sample_rate,
                generation: self.generation,
                seek_epoch: self.seek_epoch,
                current: Some(span_of(observation)),
                previous: self.current,
                reported: self.reported,
            }
        } else {
            self
        }
    }

    /// The frame the spans map `now` to, or the last reported frame when
    /// neither span is audible yet.
    pub open spec fn candidate(self, now: BackendTime) -> OutputFrame {
        match spans_frame(self.current, self.previous, now, self.sample_rate) {
            Some(f) => f,
            None => self.reported,
        }
    }

    /// State after a query at `now`: the reported frame only moves forward.
    pub open spec fn query(self, now: BackendTime) -> Self {
        ClockState {
            sample_rate: self.sample_rate,
            generation: self.generation,
            seek_epoch: self.seek_epoch,
            current: self.current,
            previous: self.previous,
            reported: later_frame(self.reported, self.candidate(now)),
        }
    }

    /// State after starting a new timeline.
    pub open spec fn reset(self, generation: Generation, seek_epoch: SeekEpoch) -> Self {
        ClockState::initial(self.sample_rate, generation, seek_epoch)
    }
}

/// Maps backend output timing observations to a monotonic logical audible frame.
///
/// The clock deliberately keeps the current and previous callback spans. This
/// allows a query that occurs before the current callback's scheduled playback
/// instant to fall back to the previous span instead of reporting future audio.
#[derive(Debug)]
pub struct AudibleClock {
    sample_rate: u32,
    generation: Generation,
    seek_epoch: SeekEpoch,
    current: Option<CallbackSpan>,
    previous: Option<CallbackSpan>,
    reported: OutputFrame,
}

impl View for AudibleClock {
    type V = ClockState;

    closed spec fn view(&self) -> ClockState {
        ClockState {
            sample_rate: self.sample_rate,
            generation: self.generation,
            seek_epoch: self.seek_epoch,
            current: self.current,
            previous: self.previous,
            reported: self.reported,
        }
    }
}

impl Clone for AudibleClock {
    fn clone(&self) -> (copy: Self)
        ensures
            copy@ == self@,
    {
        proof {
            use_type_invariant(self);
        }
        AudibleClock {
            sample_rate: self.sample_rate,
            generation: self.generation,
            seek_epoch: self.seek_epoch,
            current: self.current,
            previous: self.previous,
            reported: self.reported,
        }
    }
}

impl AudibleClock {
    /// Every clock is well formed: a positive sample rate and well-formed spans.
    #[verifier::type_invariant]
    closed spec fn clock_invariant(self) -> bool {
        self@.wf()
    }

    pub fn new(sample_rate: u32, generation: Generation, seek_epoch: SeekEpoch) -> (r: Result<
        Self,
        ClockError,
    >)
        ensures
            match r {
                Ok(clock) => {
                    &&& sample_rate != 0
                    &&& clock@ == ClockState::initial(sample_rate, generation, seek_epoch)
                    &&& clock@.wf()
                },
                Err(e) => sample_rate == 0 && e == ClockError::InvalidSampleRate,
            },
    {
        if sample_rate == 0 {
            return Err(ClockError::InvalidSampleRate);
        }
        Ok(
            AudibleClock {
                sample_rate,
                generation,
                seek_epoch,
                current: None,
                previous: None,
                reported: OutputFrame(0),
            },
        )
    }

    /// Start a new logical playback timeline and invalidate all prior spans.
    pub fn reset(&mut self, generation: Generation, seek_epoch: SeekEpoch)
        ensures
            final(self)@ == old(self)@.reset(generation, seek_epoch),
            final(self)@.generation == generation,
            final(self)@.seek_epoch == seek_epoch,
            final(self)@.sample_rate == old(self)@.sample_rate,
            final(self)@.current is None,
            final(self)@.previous is None,
            final(self)@.reported == OutputFrame(0),
            final(self)@.wf(),
    {
        proof {
            use_type_invariant(&*self);
        }
        self.generation = generation;
        self.seek_epoch = seek_epoch;
        self.previous = None;
        self.current = None;
        self.reported = OutputFrame(0);
        proof {
            use_type_invariant(&*self);
        }
    }

    /// Record one callback's scheduled playback time and contiguous valid PCM span.
    pub fn observe_callback(&mut self, observation: PlaybackObservation) -> (r: Result<
        ObservationOutcome,
        ClockError,
    >)
        ensures
            r == old(self)@.observe_result(observation),
            final(self)@ == old(self)@.observe(observation),
            final(self)@.wf(),
    {
        proof {
            use_type_invariant(&*self);
        }
        let verdict = judge_observation(observation, self.generation, self.seek_epoch, self.current);
        if let Ok(ObservationOutcome::Accepted) = verdict {
            *self =
            AudibleClock {
                sample_rate: self.sample_rate,
                generation: self.generation,
                seek_epoch: self.seek_epoch,
                current: Some(CallbackSpan::from(observation)),
                previous: self.current,
                reported: self.reported,
            };
        }
        proof {
            use_type_invariant(&*self);
        }
        verdict
    }

    /// Return the logical output frame audible at `now` according to the backend
    /// playback time base. The returned value never moves backwards within one
    /// generation/seek epoch.
    pub fn audible_frame_at(&mut self, now: BackendTime) -> (r: OutputFrame)
        ensures
            final(self)@ == old(self)@.query(now),
            r == final(self)@.reported,
            r.0 >= old(self)@.reported.0,
            final(self)@.wf(),
    {
        proof {
            use_type_invariant(&*self);
        }
        let candidate = match frame_for_spans(
            self.current,
            self.previous,
            now,
            self.sample_rate,
        ) {
            Some(frame) => frame,
            None => self.reported,
        };
        if candidate.0 > self.reported.0 {
            self.reported = candidate;
        }
        proof {
            use_type_invariant(&*self);
        }
        self.reported
    }
}

/// Identity and span-order check of one observation against a timeline.
pub fn validate_observation_identity_and_span(
    observation: PlaybackObservation,
    generation: Generation,
    seek_epoch: SeekEpoch,
) -> (r: Result<(), ClockError>)
    ensures
        r == identity_and_span_check(observation, generation, seek_epoch),
{
    if observation.generation != generation || observation.seek_epoch != seek_epoch {
        return Ok(());
    }
    if observation.output_frame_end.0 < observation.output_frame_start.0 {
        return Err(
            ClockError::InvalidSpan {
                start: observation.output_frame_start,
                end: observation.output_frame_end,
            },
        );
    }
    Ok(())
}

/// Apply the timing rules to `observation` for a timeline of identity
/// (`generation`, `seek_epoch`) whose last accepted span is `current`.
pub fn judge_timing(
    observation: PlaybackObservation,
    generation: Generation,
    seek_epoch: SeekEpoch,
    current: Option<CallbackSpan>,
) -> (r: Result<ObservationOutcome, ClockError>)
    ensures
        r == timing_verdict(observation, generation, seek_epoch, current),
        observation.generation != generation || observation.seek_epoch != seek_epoch ==> r == Ok::<
            ObservationOutcome,
            ClockError,
        >(ObservationOutcome::IgnoredStale),
{
    match validate_observation_identity_and_span(observation, generation, seek_epoch) {
        Err(e) => {
            return Err(e);
        },
        Ok(()) => {},
    }
    if observation.generation != generation || observation.seek_epoch != seek_epoch {
        return Ok(ObservationOutcome::IgnoredStale);
    }
    if let Some(span) = current {
        if observation.playback_time.0 < span.playback_time.0 {
            return Ok(ObservationOutcome::IgnoredRegressiveTimestamp);
        }
    }
    Ok(ObservationOutcome::Accepted)
}

/// Decide what a timeline of identity (`generation`, `seek_epoch`) whose last
/// accepted span is `current` does with `observation`: the timing rules, and
/// then an observation that does not start where `current` ends is an error.
pub fn judge_observation(
    observation: PlaybackObservation,
    generation: Generation,
    seek_epoch: SeekEpoch,
    current: Option<CallbackSpan>,
) -> (r: Result<ObservationOutcome, ClockError>)
    ensures
        r == observation_verdict(observation, generation, seek_epoch, current),
        observation.generation != generation || observation.seek_epoch != seek_epoch ==> r == Ok::<
            ObservationOutcome,
            ClockError,
        >(ObservationOutcome::IgnoredStale),
{
    let timing = judge_timing(observation, generation, seek_epoch, current);
    if let Ok(ObservationOutcome::Accepted) = timing {
        if let Some(span) = current {
            if observation.output_frame_start != span.output_frame_end {
                return Err(
                    ClockError::DiscontinuousSpan {
                        expected_start: span.output_frame_end,
                        actual_start: observation.output_frame_start,
                    },
                );
            }
        }
    }
    timing
}

/// The frame of the current span at `now`, falling back to the previous span.
pub fn frame_for_spans(
    current: Option<CallbackSpan>,
    previous: Option<CallbackSpan>,
    now: BackendTime,
    sample_rate: u32,
) -> (r: Option<OutputFrame>)
    ensures
        r == spans_frame(current, previous, now, sample_rate),
{
    let from_current = match current {
        Some(span) => frame_for_span(span, now, sample_rate),
        None => None,
    };
    match from_current {
        Some(frame) => Some(frame),
        None => match previous {
            Some(span) => frame_for_span(span, now, sample_rate),
            None => None,
        },
    }
}

/// The output frame `span` makes audible at `now`.
pub fn frame_for_span(span: CallbackSpan, now: BackendTime, sample_rate: u32) -> (r: Option<
    OutputFrame,
>)
    ensures
        r == span_frame(span, now, sample_rate),
{
    if now.0 < span.playback_time.0 {
        return None;
    }
    if !span.playing || span.output_frame_end.0 <= span.output_frame_start.0 {
        return Some(span.output_frame_start);
    }
    let elapsed_ns = now.0.saturating_sub(span.playback_time.0);
    let wide_ns = elapsed_ns as u128;
    let wide_rate = sample_rate as u128;
    assert(wide_ns * wide_rate <= 0xffff_ffff_ffff_ffff_ffff_ffff_ffff_ffffu128) by (nonlinear_arith)
        requires
            wide_ns <= 0xffff_ffff_ffff_ffffu128,
            wide_rate <= 0xffff_ffffu128,
    ;
    let wide_frames = (wide_ns * wide_rate) / NANOS_PER_SECOND;
    let ceiling = u64::MAX as u128;
    let elapsed_frames: u64 = if wide_frames < ceiling {
        wide_frames as u64
    } else {
        u64::MAX
    };
    let valid_frames = span.output_frame_end.0 - span.output_frame_start.0;
    let advance = if elapsed_frames < valid_frames {
        elapsed_frames
    } else {
        valid_frames
    };
    Some(OutputFrame(span.output_frame_start.0.saturating_add(advance)))
}


/// One step of a clock's life within a single timeline.
pub enum TimelineEvent {
    Observe(PlaybackObservation),
    Query(BackendTime),
}

impl ClockState {
    /// State after one event.
    pub open spec fn step(self, event: TimelineEvent) -> Self {
        match event {
            TimelineEvent::Observe(observation) => self.observe(observation),
            TimelineEvent::Query(now) => self.query(now),
        }
    }

    /// State after a run of events.
    pub open spec fn replay(self, events: Seq<TimelineEvent>) -> Self
        decreases events.len(),
    {
        if events.len() == 0 {
            self
        } else {
            self.step(events[0]).replay(events.drop_first())
        }
    }

    /// The frames the queries of a run of events answer, in order.
    pub open spec fn answers(self, events: Seq<TimelineEvent>) -> Seq<OutputFrame>
        decreases events.len(),
    {
        if events.len() == 0 {
            Seq::empty()
        } else {
            let next = self.step(events[0]);
            let rest = next.answers(events.drop_first());
            match events[0] {
                TimelineEvent::Query(_) => seq![next.reported] + rest,
                TimelineEvent::Observe(_) => rest,
            }
        }
    }
}

/// A span never makes audible a frame before its start or past the end of its
/// valid prefix: silence after the prefix does not advance the timeline.
pub proof fn lemma_span_frame_within_valid_prefix(
    span: CallbackSpan,
    now: BackendTime,
    sample_rate: u32,
)
    ensures
        span_frame(span, now, sample_rate) matches Some(f) ==> {
            &&& span.output_frame_start.0 <= f.0
            &&& span_is_valid(span) ==> f.0 <= span.output_frame_end.0
        },
        now.0 < span.playback_time.0 ==> span_frame(span, now, sample_rate) is None,
        now.0 >= span.playback_time.0 && !span.playing ==> span_frame(span, now, sample_rate)
            == Some(span.output_frame_start),
{
    if now.0 >= span.playback_time.0 {
        let elapsed_ns = now.0 - span.playback_time.0;
        assert(elapsed_ns * sample_rate >= 0) by (nonlinear_arith)
            requires
                elapsed_ns >= 0,
                sample_rate >= 0,
        ;
    }
}

/// Every event keeps the clock well formed and never lowers the reported
/// frame; an observation leaves the reported frame as it was.
pub proof fn lemma_step_keeps_clock_wf(state: ClockState, event: TimelineEvent)
    requires
        state.wf(),
    ensures
        state.step(event).wf(),
        state.step(event).reported.0 >= state.reported.0,
        event is Observe ==> state.step(event).reported == state.reported,
{
}

/// A stale or regressive observation, or one the clock rejects, leaves the clock
/// exactly as it was; a reset clock answers only to its new identity.
pub proof fn lemma_unaccepted_observation_changes_nothing(
    state: ClockState,
    observation: PlaybackObservation,
)
    ensures
        state.observe_result(observation) != Ok::<ObservationOutcome, ClockError>(
            ObservationOutcome::Accepted,
        ) ==> state.observe(observation) == state,
        observation.generation != state.generation || observation.seek_epoch != state.seek_epoch
            ==> state.observe_result(observation) == Ok::<ObservationOutcome, ClockError>(
            ObservationOutcome::IgnoredStale,
        ),
        (state.current matches Some(c) && observation.generation == state.generation
            && observation.seek_epoch == state.seek_epoch && observation.output_frame_start.0
            <= observation.output_frame_end.0 && observation.playback_time.0
            < c.playback_time.0) ==> state.observe_result(observation) == Ok::<
            ObservationOutcome,
            ClockError,
        >(ObservationOutcome::IgnoredRegressiveTimestamp),
{
}

/// A callback scheduled after `now` cannot make the frame reported at `now`
/// lead: accepting it never raises that frame, and while the span it displaces
/// is already playing at `now` the answer is unchanged, because that span is
/// kept as the previous one.
pub proof fn lemma_future_callback_does_not_lead(
    state: ClockState,
    observation: PlaybackObservation,
    now: BackendTime,
)
    requires
        now.0 < observation.playback_time.0,
    ensures
        state.observe(observation).query(now).reported.0 <= state.query(now).reported.0,
        (state.current matches Some(c) && c.playback_time.0 <= now.0) ==> state.observe(
            observation,
        ).query(now).reported == state.query(now).reported,
{
    lemma_span_frame_within_valid_prefix(span_of(observation), now, state.sample_rate);
    if let Some(c) = state.current {
        lemma_span_frame_within_valid_prefix(c, now, state.sample_rate);
    }
}

/// Within one timeline the audible position is monotonic: a run of
/// observations and queries never lowers the reported frame, every answer is at
/// least the frame reported before the run, and each answer is at least every
/// earlier one.
pub proof fn lemma_answers_never_move_backwards(state: ClockState, events: Seq<TimelineEvent>)
    requires
        state.wf(),
    ensures
        state.replay(events).wf(),
        state.replay(events).reported.0 >= state.reported.0,
        forall|i: int|
            0 <= i < state.answers(events).len() ==> #[trigger] state.answers(events)[i].0
                >= state.reported.0,
        forall|i: int, j: int|
            0 <= i <= j < state.answers(events).len() ==> state.answers(events)[i].0
                <= state.answers(events)[j].0,
    decreases events.len(),
{
    if events.len() > 0 {
        let next = state.step(events[0]);
        let rest = events.drop_first();
        lemma_step_keeps_clock_wf(state, events[0]);
        lemma_answers_never_move_backwards(next, rest);
        let tail = next.answers(rest);
        match events[0] {
            TimelineEvent::Query(_) => {
                let all = seq![next.reported] + tail;
                assert(state.answers(events) == all);
                assert forall|i: int, j: int| 0 <= i <= j < all.len() implies all[i].0
                    <= all[j].0 by {
                    if i > 0 {
                        assert(all[i] == tail[i - 1]);
                        assert(all[j] == tail[j - 1]);
                    } else if j > 0 {
                        assert(all[j] == tail[j - 1]);
                    }
                }
                assert forall|i: int| 0 <= i < all.len() implies #[trigger] all[i].0
                    >= state.reported.0 by {
                    if i > 0 {
                        assert(all[i] == tail[i - 1]);
                    }
                }
            },
            TimelineEvent::Observe(_) => {},
        }
    }
}


/// The same observation with another callback instant.
pub open spec fn with_callback_time(observation: PlaybackObservation, callback_time: BackendTime) -> PlaybackObservation {
    PlaybackObservation {
        generation: observation.generation,
        seek_epoch: observation.seek_epoch,
        callback_time,
        playback_time: observation.playback_time,
        output_frame_start: observation.output_frame_start,
        output_frame_end: observation.output_frame_end,
        playing: observation.playing,
    }
}

/// An observation of another generation, or of another seek epoch of the same
/// generation, is ignored as stale by both rule sets, whatever its span and
/// timestamps; one of the timeline's own identity never is.
pub proof fn lemma_other_identity_is_stale(
    observation: PlaybackObservation,
    generation: Generation,
    seek_epoch: SeekEpoch,
    current: Option<CallbackSpan>,
)
    ensures
        observation.generation != generation || observation.seek_epoch != seek_epoch ==> {
            &&& timing_verdict(observation, generation, seek_epoch, current) == Ok::<
                ObservationOutcome,
                ClockError,
            >(ObservationOutcome::IgnoredStale)
            &&& observation_verdict(observation, generation, seek_epoch, current) == Ok::<
                ObservationOutcome,
                ClockError,
            >(ObservationOutcome::IgnoredStale)
        },
        observation.generation == generation && observation.seek_epoch == seek_epoch ==> {
            &&& timing_verdict(observation, generation, seek_epoch, current) != Ok::<
                ObservationOutcome,
                ClockError,
            >(ObservationOutcome::IgnoredStale)
            &&& observation_verdict(observation, generation, seek_epoch, current) != Ok::<
                ObservationOutcome,
                ClockError,
            >(ObservationOutcome::IgnoredStale)
        },
{
}

/// The timing rules on an observation of the timeline's own identity: a
/// reversed span is rejected with that span; otherwise it is ignored as
/// regressive exactly when its playback instant precedes that of the last
/// accepted span, and accepted in every other case. The callback instant plays
/// no part in the verdict.
pub proof fn lemma_timing_rules(
    observation: PlaybackObservation,
    generation: Generation,
    seek_epoch: SeekEpoch,
    current: Option<CallbackSpan>,
    callback_time: BackendTime,
)
    requires
        observation.generation == generation,
        observation.seek_epoch == seek_epoch,
    ensures
        observation.output_frame_end.0 < observation.output_frame_start.0 ==> timing_verdict(
            observation,
            generation,
            seek_epoch,
            current,
        ) == Err::<ObservationOutcome, ClockError>(
            ClockError::InvalidSpan {
                start: observation.output_frame_start,
                end: observation.output_frame_end,
            },
        ),
        timing_verdict(observation, generation, seek_epoch, current) == Ok::<
            ObservationOutcome,
            ClockError,
        >(ObservationOutcome::Accepted) <==> {
            &&& observation.output_frame_start.0 <= observation.output_frame_end.0
            &&& (current matches Some(c) ==> c.playback_time.0 <= observation.playback_time.0)
        },
        timing_verdict(observation, generation, seek_epoch, current) == Ok::<
            ObservationOutcome,
            ClockError,
        >(ObservationOutcome::IgnoredRegressiveTimestamp) <==> {
            &&& observation.output_frame_start.0 <= observation.output_frame_end.0
            &&& current matches Some(c)
            &&& observation.playback_time.0 < c.playback_time.0
        },
        timing_verdict(with_callback_time(observation, callback_time), generation, seek_epoch, current)
            == timing_verdict(observation, generation, seek_epoch, current),
{
}

/// The clock's rules on an observation of its own identity: a reversed span is
/// rejected with that span; a playback instant before that of the current span
/// is ignored as regressive; a span that does not start where the current span
/// ends is rejected with both frames; and every other observation is accepted.
/// The callback instant plays no part in the verdict.
pub proof fn lemma_clock_rules(
    observation: PlaybackObservation,
    generation: Generation,
    seek_epoch: SeekEpoch,
    current: Option<CallbackSpan>,
    callback_time: BackendTime,
)
    requires
        observation.generation == generation,
        observation.seek_epoch == seek_epoch,
    ensures
        observation.output_frame_end.0 < observation.output_frame_start.0 ==> observation_verdict(
            observation,
            generation,
            seek_epoch,
            current,
        ) == Err::<ObservationOutcome, ClockError>(
            ClockError::InvalidSpan {
                start: observation.output_frame_start,
                end: observation.output_frame_end,
            },
        ),
        observation_verdict(observation, generation, seek_epoch, current) == Ok::<
            ObservationOutcome,
            ClockError,
        >(ObservationOutcome::Accepted) <==> {
            &&& observation.output_frame_start.0 <= observation.output_frame_end.0
            &&& (current matches Some(c) ==> c.playback_time.0 <= observation.playback_time.0
                && observation.output_frame_start == c.output_frame_end)
        },
        observation_verdict(observation, generation, seek_epoch, current) == Ok::<
            ObservationOutcome,
            ClockError,
        >(ObservationOutcome::IgnoredRegressiveTimestamp) <==> {
            &&& observation.output_frame_start.0 <= observation.output_frame_end.0
            &&& current matches Some(c)
            &&& observation.playback_time.0 < c.playback_time.0
        },
        current matches Some(c) ==> ((observation.output_frame_start.0
            <= observation.output_frame_end.0 && c.playback_time.0 <= observation.playback_time.0
            && observation.output_frame_start != c.output_frame_end) ==> observation_verdict(
            observation,
            generation,
            seek_epoch,
            current,
        ) == Err::<ObservationOutcome, ClockError>(
            ClockError::DiscontinuousSpan {
                expected_start: c.output_frame_end,
                actual_start: observation.output_frame_start,
            },
        )),
        observation_verdict(with_callback_time(observation, callback_time), generation, seek_epoch, current)
            == observation_verdict(observation, generation, seek_epoch, current),
{
}

/// A reset starts an empty timeline of the given identity: the clock keeps its
/// sample rate, forgets its spans and reports frame 0; it then accepts any valid
/// observation of the new identity and ignores every other one as stale.
pub proof fn lemma_reset_starts_new_timeline(
    state: ClockState,
    generation: Generation,
    seek_epoch: SeekEpoch,
    observation: PlaybackObservation,
)
    ensures
        state.reset(generation, seek_epoch).generation == generation,
        state.reset(generation, seek_epoch).seek_epoch == seek_epoch,
        state.reset(generation, seek_epoch).sample_rate == state.sample_rate,
        state.reset(generation, seek_epoch).current is None,
        state.reset(generation, seek_epoch).previous is None,
        state.reset(generation, seek_epoch).reported.0 == 0,
        observation.generation == generation && observation.seek_epoch == seek_epoch
            && observation.output_frame_start.0 <= observation.output_frame_end.0 ==> state.reset(
            generation,
            seek_epoch,
        ).observe_result(observation) == Ok::<ObservationOutcome, ClockError>(
            ObservationOutcome::Accepted,
        ),
        observation.generation != generation || observation.seek_epoch != seek_epoch ==> state.reset(
            generation,
            seek_epoch,
        ).observe_result(observation) == Ok::<ObservationOutcome, ClockError>(
            ObservationOutcome::IgnoredStale,
        ),
{
}

} // verus!
