use vstd::prelude::*;

use std::sync::atomic::AtomicBool;
use std::sync::atomic::AtomicU64;
use std::sync::atomic::Ordering;
use std::sync::Arc;

use crate::timeline::{
    judge_timing, frame_for_spans, timing_verdict, span_of, spans_frame, timed_spans_wf,
    CallbackSpan, ClockError, ObservationOutcome, PlaybackObservation,
};
use crate::types::{BackendTime, Generation, OutputFrame, SeekEpoch};

verus! {

const SNAPSHOT_ATTEMPTS: usize = 8;

/// Builder for a lock-free single-writer/multi-reader audible clock.
///
/// Call [`SharedAudibleClock::split`] once to obtain the non-cloneable writer
/// intended for the audio callback and a cloneable reader for control/UI
/// threads. The shared path uses only atomics; it never takes a mutex.
pub struct SharedAudibleClock {
    inner: Arc<SharedClockInner>,
}

impl SharedAudibleClock {
    pub closed spec fn sample_rate(&self) -> u32 {
        self.inner.sample_rate
    }

    pub closed spec fn generation(&self) -> Generation {
        self.inner.generation
    }

    pub closed spec fn seek_epoch(&self) -> SeekEpoch {
        self.inner.seek_epoch
    }

    pub fn new(sample_rate: u32, generation: Generation, seek_epoch: SeekEpoch) -> (r: Result<
        Self,
        ClockError,
    >)
        ensures
            match r {
                Ok(clock) => {
                    &&& sample_rate != 0
                    &&& clock.sample_rate() == sample_rate
                    &&& clock.generation() == generation
                    &&& clock.seek_epoch() == seek_epoch
                },
                Err(e) => sample_rate == 0 && e == ClockError::InvalidSampleRate,
            },
    {
        if sample_rate == 0 {
            return Err(ClockError::InvalidSampleRate);
        }
        Ok(
            SharedAudibleClock {
                inner: Arc::new(SharedClockInner::new(sample_rate, generation, seek_epoch)),
            },
        )
    }

    /// Consume the builder and create exactly one callback writer plus one
    /// cloneable reader handle.
    pub fn split(self) -> (handles: (SharedAudibleClockWriter, SharedAudibleClockReader))
        ensures
            handles.0.sample_rate() == self.sample_rate(),
            handles.0.generation() == self.generation(),
            handles.0.seek_epoch() == self.seek_epoch(),
            handles.0.current() is None,
            handles.0.previous() is None,
            handles.0.wf(),
            handles.1.sample_rate() == self.sample_rate(),
            handles.1.generation() == self.generation(),
            handles.1.seek_epoch() == self.seek_epoch(),
    {
        let reader = SharedAudibleClockReader { inner: share_inner(&self.inner) };
        let writer = SharedAudibleClockWriter {
            inner: self.inner,
            published: SharedClockSnapshot { current: None, previous: None },
        };
        (writer, reader)
    }
}

/// Single callback-side writer. This type intentionally does not implement
/// `Clone`; `observe_callback` also requires `&mut self`.
///
/// Being the only writer, it keeps the spans it last published beside the
/// shared atomics and decides on them, which is what a reload of its own
/// stores would give. It applies the timing rules: stale observations are
/// ignored, a reversed span is rejected, and a regressive playback timestamp
/// is ignored. Unlike [`crate::AudibleClock`], it does not check that a span
/// starts where the last accepted one ended.
///
/// What it stores into the atomics is not part of its contract: the atomics'
/// contents are not modelled.
pub struct SharedAudibleClockWriter {
    inner: Arc<SharedClockInner>,
    published: SharedClockSnapshot,
}

impl SharedAudibleClockWriter {
    pub closed spec fn sample_rate(&self) -> u32 {
        self.inner.sample_rate
    }

    pub closed spec fn generation(&self) -> Generation {
        self.inner.generation
    }

    pub closed spec fn seek_epoch(&self) -> SeekEpoch {
        self.inner.seek_epoch
    }

    /// The span most recently published as current.
    pub closed spec fn current(&self) -> Option<CallbackSpan> {
        self.published.current
    }

    /// The span most recently published as previous.
    pub closed spec fn previous(&self) -> Option<CallbackSpan> {
        self.published.previous
    }

    pub open spec fn wf(&self) -> bool {
        timed_spans_wf(self.current(), self.previous())
    }

    /// The spans a writer has published are always well formed.
    #[verifier::type_invariant]
    closed spec fn writer_invariant(self) -> bool {
        timed_spans_wf(self.published.current, self.published.previous)
    }

    /// Publish one callback's scheduled playback timestamp and contiguous valid
    /// PCM prefix. This method performs no allocation and never blocks.
    pub fn observe_callback(&mut self, observation: PlaybackObservation) -> (r: Result<
        ObservationOutcome,
        ClockError,
    >)
        ensures
            r == timing_verdict(
                observation,
                old(self).generation(),
                old(self).seek_epoch(),
                old(self).current(),
            ),
            observation.generation != old(self).generation() || observation.seek_epoch
                != old(self).seek_epoch() ==> {
                &&& r == Ok::<ObservationOutcome, ClockError>(ObservationOutcome::IgnoredStale)
                &&& final(self).current() == old(self).current()
                &&& final(self).previous() == old(self).previous()
            },
            final(self).sample_rate() == old(self).sample_rate(),
            final(self).generation() == old(self).generation(),
            final(self).seek_epoch() == old(self).seek_epoch(),
            r == Ok::<ObservationOutcome, ClockError>(ObservationOutcome::Accepted) ==> {
                &&& final(self).current() == Some(span_of(observation))
                &&& final(self).previous() == old(self).current()
            },
            r != Ok::<ObservationOutcome, ClockError>(ObservationOutcome::Accepted) ==> {
                &&& final(self).current() == old(self).current()
                &&& final(self).previous() == old(self).previous()
            },
            final(self).wf(),
    {
        proof {
            use_type_invariant(&*self);
        }
        let verdict = judge_timing(
            observation,
            self.inner.generation,
            self.inner.seek_epoch,
            self.published.current,
        );
        match verdict {
            Ok(ObservationOutcome::Accepted) => {},
            _ => {
                return verdict;
            },
        }

        // Odd sequence = writer active, even sequence = coherent snapshot.
        // This handle is the sole writer, so no writer-side CAS or lock is needed.
        self.inner.sequence.fetch_add(1, Ordering::AcqRel);

        match self.published.current {
            Some(span) => {
                self.inner.previous_playback_ns.store(span.playback_time.0, Ordering::Relaxed);
                self.inner.previous_frame_start.store(span.output_frame_start.0, Ordering::Relaxed);
                self.inner.previous_frame_end.store(span.output_frame_end.0, Ordering::Relaxed);
                self.inner.previous_playing.store(span.playing, Ordering::Relaxed);
                self.inner.previous_valid.store(true, Ordering::Relaxed);
            },
            None => {
                self.inner.previous_valid.store(false, Ordering::Relaxed);
            },
        }

        self.inner.current_playback_ns.store(observation.playback_time.0, Ordering::Relaxed);
        self.inner.current_frame_start.store(observation.output_frame_start.0, Ordering::Relaxed);
        self.inner.current_frame_end.store(observation.output_frame_end.0, Ordering::Relaxed);
        self.inner.current_playing.store(observation.playing, Ordering::Relaxed);
        self.inner.current_valid.store(true, Ordering::Relaxed);

        self.inner.sequence.fetch_add(1, Ordering::Release);

        self.published =
        SharedClockSnapshot {
            current: Some(CallbackSpan::from(observation)),
            previous: self.published.current,
        };
        proof {
            use_type_invariant(&*self);
        }
        verdict
    }
}

/// The frame a reader offers as its candidate, given the report it loaded
/// before the query and the coherent span pair it read, if any: the frame the
/// spans map `now` to, or else the loaded report. No candidate without a pair.
pub open spec fn shared_candidate(
    previous_report: u64,
    snapshot: Option<SharedClockSnapshot>,
    now: BackendTime,
    sample_rate: u32,
) -> Option<u64> {
    match snapshot {
        None => None,
        Some(spans) => Some(
            match spans_frame(spans.current, spans.previous, now, sample_rate) {
                Some(frame) => frame.0,
                None => previous_report,
            },
        ),
    }
}

/// The frame a reader answers: the loaded report when it offered no candidate,
/// else the larger of its candidate and the largest report published before it
/// offered the candidate.
pub open spec fn shared_answer(previous_report: u64, candidate: Option<u64>, prior_maximum: u64) -> OutputFrame {
    match candidate {
        None => OutputFrame(previous_report),
        Some(c) => OutputFrame(
            if prior_maximum > c {
                prior_maximum
            } else {
                c
            },
        ),
    }
}

/// The candidate a reader offers after its reads.
pub fn candidate_from_reads(
    previous_report: u64,
    snapshot: Option<SharedClockSnapshot>,
    now: BackendTime,
    sample_rate: u32,
) -> (candidate: Option<u64>)
    ensures
        candidate == shared_candidate(previous_report, snapshot, now, sample_rate),
{
    match snapshot {
        None => None,
        Some(spans) => Some(
            match frame_for_spans(spans.current, spans.previous, now, sample_rate) {
                Some(frame) => frame.0,
                None => previous_report,
            },
        ),
    }
}

/// The frame a reader answers after its reads.
pub fn answer_from_reads(previous_report: u64, candidate: Option<u64>, prior_maximum: u64) -> (r:
    OutputFrame)
    ensures
        r == shared_answer(previous_report, candidate, prior_maximum),
{
    match candidate {
        None => OutputFrame(previous_report),
        Some(c) => OutputFrame(
            if prior_maximum > c {
                prior_maximum
            } else {
                c
            },
        ),
    }
}

/// The shared sequence counter shows a settled publication: something was
/// published and the writer is not in the middle of a publication.
pub open spec fn sequence_settled(sequence: u64) -> bool {
    sequence != 0 && sequence & 1 == 0
}

/// Two reads of the sequence counter around a read of the spans show that the
/// spans were read from one settled publication.
pub open spec fn reads_coherent(before: u64, after: u64) -> bool {
    sequence_settled(before) && before == after
}

/// Whether a sequence value shows a settled publication.
pub fn sequence_is_settled(sequence: u64) -> (settled: bool)
    ensures
        settled == sequence_settled(sequence),
{
    sequence != 0 && sequence & 1 == 0
}

/// Whether the sequence values read before and after the spans show a
/// coherent read, given that the first one was settled.
pub fn reads_are_coherent(before: u64, after: u64) -> (coherent: bool)
    requires
        sequence_settled(before),
    ensures
        coherent == reads_coherent(before, after),
{
    before == after && after & 1 == 0
}

/// Cloneable control-side view of the callback clock.
#[derive(Clone)]
pub struct SharedAudibleClockReader {
    inner: Arc<SharedClockInner>,
}

impl SharedAudibleClockReader {
    pub closed spec fn sample_rate(&self) -> u32 {
        self.inner.sample_rate
    }

    pub closed spec fn generation(&self) -> Generation {
        self.inner.generation
    }

    pub closed spec fn seek_epoch(&self) -> SeekEpoch {
        self.inner.seek_epoch
    }

    /// Return the monotonic logical output frame audible at `now`.
    ///
    /// If a reader races the callback writer repeatedly, it falls back to the
    /// last published audible frame instead of waiting for the writer.
    ///
    /// Nothing is stated of the result: every value it is computed from is read
    /// from atomics whose contents are not modelled, so the result is not tied
    /// to the writer's publications nor to earlier answers. What is done with
    /// the values read is [`candidate_from_reads`] and [`answer_from_reads`],
    /// whose contracts are exact.
    pub fn audible_frame_at(&self, now: BackendTime) -> OutputFrame {
        let previous_report = self.inner.reported.load(Ordering::Acquire);
        let (snapshot, Ghost(_sequence)) = self.inner.snapshot();
        let candidate = candidate_from_reads(previous_report, snapshot, now, self.inner.sample_rate);
        let prior_maximum = match candidate {
            Some(c) => self.inner.reported.fetch_max(c, Ordering::AcqRel),
            None => 0,
        };
        answer_from_reads(previous_report, candidate, prior_maximum)
    }
}

struct SharedClockInner {
    sample_rate: u32,
    generation: Generation,
    seek_epoch: SeekEpoch,
    sequence: AtomicU64,
    current_valid: AtomicBool,
    current_playback_ns: AtomicU64,
    current_frame_start: AtomicU64,
    current_frame_end: AtomicU64,
    current_playing: AtomicBool,
    previous_valid: AtomicBool,
    previous_playback_ns: AtomicU64,
    previous_frame_start: AtomicU64,
    previous_frame_end: AtomicU64,
    previous_playing: AtomicBool,
    reported: AtomicU64,
}

impl SharedClockInner {
    fn new(sample_rate: u32, generation: Generation, seek_epoch: SeekEpoch) -> (inner: Self)
        ensures
            inner.sample_rate == sample_rate,
            inner.generation == generation,
            inner.seek_epoch == seek_epoch,
    {
        SharedClockInner {
            sample_rate,
            generation,
            seek_epoch,
            sequence: AtomicU64::new(0),
            current_valid: AtomicBool::new(false),
            current_playback_ns: AtomicU64::new(0),
            current_frame_start: AtomicU64::new(0),
            current_frame_end: AtomicU64::new(0),
            current_playing: AtomicBool::new(false),
            previous_valid: AtomicBool::new(false),
            previous_playback_ns: AtomicU64::new(0),
            previous_frame_start: AtomicU64::new(0),
            previous_frame_end: AtomicU64::new(0),
            previous_playing: AtomicBool::new(false),
            reported: AtomicU64::new(0),
        }
    }

    /// Read the current/previous spans as one coherent pair: a pair is taken only
    /// when the sequence counter was even, nonzero and unchanged around the
    /// reads. Gives up after a bounded number of attempts.
    ///
    /// Beside the pair it gives the two sequence values read around it, and a
    /// pair comes back only when those show a coherent read. The spans
    /// themselves are what the atomics held, which is not modelled.
    fn snapshot(&self) -> (r: (Option<SharedClockSnapshot>, Ghost<(u64, u64)>))
        ensures
            r.0 is Some ==> reads_coherent(r.1@.0, r.1@.1),
    {
        for _attempt in 0..SNAPSHOT_ATTEMPTS {
            let before = self.sequence.load(Ordering::Acquire);
            if sequence_is_settled(before) {
                let current = if self.current_valid.load(Ordering::Relaxed) {
                    Some(
                        CallbackSpan {
                            playback_time: BackendTime(
                                self.current_playback_ns.load(Ordering::Relaxed),
                            ),
                            output_frame_start: OutputFrame(
                                self.current_frame_start.load(Ordering::Relaxed),
                            ),
                            output_frame_end: OutputFrame(
                                self.current_frame_end.load(Ordering::Relaxed),
                            ),
                            playing: self.current_playing.load(Ordering::Relaxed),
                        },
                    )
                } else {
                    None
                };

                let previous = if self.previous_valid.load(Ordering::Relaxed) {
                    Some(
                        CallbackSpan {
                            playback_time: BackendTime(
                                self.previous_playback_ns.load(Ordering::Relaxed),
                            ),
                            output_frame_start: OutputFrame(
                                self.previous_frame_start.load(Ordering::Relaxed),
                            ),
                            output_frame_end: OutputFrame(
                                self.previous_frame_end.load(Ordering::Relaxed),
                            ),
                            playing: self.previous_playing.load(Ordering::Relaxed),
                        },
                    )
                } else {
                    None
                };

                let after = self.sequence.load(Ordering::Acquire);
                if reads_are_coherent(before, after) {
                    return (Some(SharedClockSnapshot { current, previous }), Ghost((before, after)));
                }
            }
            spin_hint();
        }
        (None, Ghost((0, 0)))
    }
}

/// A pair of current/previous spans: as published by the writer, or as read by
/// a reader.
#[derive(Clone, Copy)]
pub struct SharedClockSnapshot {
    pub current: Option<CallbackSpan>,
    pub previous: Option<CallbackSpan>,
}

/// Calls `Arc::clone`: a second handle to the same allocation, so it holds the
/// same value.
#[verifier::external_body]
fn share_inner(inner: &Arc<SharedClockInner>) -> (shared: Arc<SharedClockInner>)
    ensures
        shared == *inner,
{
    Arc::clone(inner)
}

/// Calls `std::hint::spin_loop`, a processor hint inside a busy-wait; it has no
/// effect on program state, so nothing is stated of it.
#[verifier::external_body]
fn spin_hint() {
    std::hint::spin_loop()
}

} // verus!
