use vstd::prelude::*;

use std::collections::VecDeque;

use crate::types::{Generation, OutputFrame, SeekEpoch};

verus! {

/// Arbitrary metadata associated with an output-frame boundary.
#[derive(Debug, Clone, PartialEq, Eq)]
pub struct TimedFrame<T> {
    pub generation: Generation,
    pub seek_epoch: SeekEpoch,
    pub output_frame_end: OutputFrame,
    pub payload: T,
}

#[derive(Debug, Clone, Copy, PartialEq, Eq, Structural)]
pub enum GateError {
    OutOfOrder { previous: OutputFrame, next: OutputFrame },
}

/// Frames that belong to the timeline (`generation`, `seek_epoch`).
pub open spec fn in_timeline<T>(generation: Generation, seek_epoch: SeekEpoch) -> spec_fn(
    TimedFrame<T>,
) -> bool {
    |frame: TimedFrame<T>| frame.generation == generation && frame.seek_epoch == seek_epoch
}

/// Frames of that timeline whose boundary `audible_frame` has reached.
pub open spec fn ready_in_timeline<T>(
    generation: Generation,
    seek_epoch: SeekEpoch,
    audible_frame: OutputFrame,
) -> spec_fn(TimedFrame<T>) -> bool {
    |frame: TimedFrame<T>|
        frame.generation == generation && frame.seek_epoch == seek_epoch
            && frame.output_frame_end.0 <= audible_frame.0
}

/// Index of the last frame of `queue` that `keep` selects, or -1.
pub open spec fn latest_index<T>(queue: Seq<TimedFrame<T>>, keep: spec_fn(TimedFrame<T>) -> bool) -> int
    decreases queue.len(),
{
    if queue.len() == 0 {
        -1
    } else if keep(queue.last()) {
        queue.len() - 1
    } else {
        latest_index(queue.drop_last(), keep)
    }
}

/// The last frame of `queue` that `keep` selects.
pub open spec fn latest_matching<T>(
    queue: Seq<TimedFrame<T>>,
    keep: spec_fn(TimedFrame<T>) -> bool,
) -> Option<TimedFrame<T>> {
    let i = latest_index(queue, keep);
    if i < 0 {
        None
    } else {
        Some(queue[i])
    }
}

/// Within every timeline, boundaries never decrease from front to back.
pub open spec fn ordered_within_timelines<T>(queue: Seq<TimedFrame<T>>) -> bool {
    forall|i: int, j: int|
        0 <= i < j < queue.len() && queue[i].generation == queue[j].generation
            && queue[i].seek_epoch == queue[j].seek_epoch ==> queue[i].output_frame_end.0
            <= queue[j].output_frame_end.0
}

/// A frame of the timeline whose boundary is not audible yet: it stops the release.
pub open spec fn holds_back<T>(
    frame: TimedFrame<T>,
    generation: Generation,
    seek_epoch: SeekEpoch,
    audible_frame: OutputFrame,
) -> bool {
    frame.generation == generation && frame.seek_epoch == seek_epoch
        && frame.output_frame_end.0 > audible_frame.0
}

/// How many frames at the front of `queue` a release removes: all of them up
/// to the first frame of the timeline that is not audible yet.
pub open spec fn release_count<T>(
    queue: Seq<TimedFrame<T>>,
    generation: Generation,
    seek_epoch: SeekEpoch,
    audible_frame: OutputFrame,
) -> nat
    decreases queue.len(),
{
    if queue.len() == 0 {
        0
    } else if holds_back(queue[0], generation, seek_epoch, audible_frame) {
        0
    } else {
        1 + release_count(queue.drop_first(), generation, seek_epoch, audible_frame)
    }
}

/// What pushing `frame` behind `queue` answers: an error exactly when the last
/// pending frame of its timeline has a later boundary.
pub open spec fn push_result<T>(queue: Seq<TimedFrame<T>>, frame: TimedFrame<T>) -> Result<
    (),
    GateError,
> {
    match latest_matching(queue, in_timeline(frame.generation, frame.seek_epoch)) {
        Some(previous) => if frame.output_frame_end.0 < previous.output_frame_end.0 {
            Err(
                GateError::OutOfOrder {
                    previous: previous.output_frame_end,
                    next: frame.output_frame_end,
                },
            )
        } else {
            Ok(())
        },
        None => Ok(()),
    }
}

/// Holds metadata computed ahead of playback and releases it only when its
/// output-frame boundary has become audible.
pub struct ClockGate<T> {
    pending: VecDeque<TimedFrame<T>>,
}

impl<T> View for ClockGate<T> {
    type V = Seq<TimedFrame<T>>;

    closed spec fn view(&self) -> Seq<TimedFrame<T>> {
        self.pending@
    }
}

impl<T> Default for ClockGate<T> {
    fn default() -> (gate: Self)
        ensures
            gate@ == Seq::<TimedFrame<T>>::empty(),
            gate.wf(),
    {
        Self::new()
    }
}

impl<T> ClockGate<T> {
    /// The pending frames are ordered within each timeline.
    pub open spec fn wf(&self) -> bool {
        ordered_within_timelines(self@)
    }

    /// Every gate keeps its pending frames ordered within each timeline.
    #[verifier::type_invariant]
    closed spec fn gate_invariant(self) -> bool {
        ordered_within_timelines(self.pending@)
    }

    pub fn new() -> (gate: Self)
        ensures
            gate@ == Seq::<TimedFrame<T>>::empty(),
            gate.wf(),
    {
        ClockGate { pending: VecDeque::new() }
    }

    /// Queue `frame` behind the pending frames, unless a pending frame of its
    /// timeline has a later boundary.
    pub fn push(&mut self, frame: TimedFrame<T>) -> (r: Result<(), GateError>)
        ensures
            r == push_result(old(self)@, frame),
            r is Ok ==> final(self)@ == old(self)@.push(frame),
            r is Err ==> final(self)@ == old(self)@,
            r is Err <==> exists|i: int|
                0 <= i < old(self)@.len() && #[trigger] old(self)@[i].generation == frame.generation
                    && old(self)@[i].seek_epoch == frame.seek_epoch
                    && old(self)@[i].output_frame_end.0 > frame.output_frame_end.0,
            final(self).wf(),
    {
        proof {
            use_type_invariant(&*self);
            lemma_push_keeps_order(self@, frame);
        }
        match self.latest_boundary(frame.generation, frame.seek_epoch) {
            Some(previous) => {
                if frame.output_frame_end.0 < previous.0 {
                    return Err(
                        GateError::OutOfOrder { previous: previous, next: frame.output_frame_end },
                    );
                }
            },
            None => {},
        }
        let mut pending: VecDeque<TimedFrame<T>> = VecDeque::new();
        std::mem::swap(&mut pending, &mut self.pending);
        pending.push_back(frame);
        self.pending = pending;
        Ok(())
    }

    /// Boundary of the last pending frame of the given timeline.
    fn latest_boundary(&self, generation: Generation, seek_epoch: SeekEpoch) -> (r: Option<
        OutputFrame,
    >)
        ensures
            r == match latest_matching(self@, in_timeline(generation, seek_epoch)) {
                Some(frame) => Some(frame.output_frame_end),
                None => None,
            },
    {
        let ghost keep = in_timeline::<T>(generation, seek_epoch);
        let mut i = self.pending.len();
        assert(self@.take(i as int) =~= self@);
        while i > 0
            invariant
                i <= self@.len(),
                self@ == self.pending@,
                keep == in_timeline::<T>(generation, seek_epoch),
                latest_index(self@, keep) == latest_index(self@.take(i as int), keep),
            decreases i,
        {
            assert(self@.take(i as int).drop_last() =~= self@.take(i - 1));
            assert(self@.take(i as int).last() == self@[i - 1]);
            i = i - 1;
            let candidate = &self.pending[i];
            if candidate.generation == generation && candidate.seek_epoch == seek_epoch {
                return Some(candidate.output_frame_end);
            }
        }
        None
    }

    /// Drop obsolete timelines and return only the newest frame that is ready.
    /// Future frames remain queued; multiple ready frames collapse to the latest
    /// so a delayed consumer does not replay a burst of stale visual state.
    pub fn take_latest_ready(
        &mut self,
        generation: Generation,
        seek_epoch: SeekEpoch,
        audible_frame: OutputFrame,
    ) -> (r: Option<TimedFrame<T>>)
        ensures
            final(self)@ == old(self)@.skip(
                release_count(old(self)@, generation, seek_epoch, audible_frame) as int,
            ),
            r == latest_matching(
                old(self)@.take(
                    release_count(old(self)@, generation, seek_epoch, audible_frame) as int,
                ),
                in_timeline(generation, seek_epoch),
            ),
            r == latest_matching(old(self)@, ready_in_timeline(generation, seek_epoch, audible_frame)),
            r matches Some(frame) ==> frame.generation == generation && frame.seek_epoch
                == seek_epoch && frame.output_frame_end.0 <= audible_frame.0,
            forall|i: int|
                0 <= i < final(self)@.len() && #[trigger] final(self)@[i].generation == generation
                    && final(self)@[i].seek_epoch == seek_epoch ==> final(self)@[i].output_frame_end.0
                    > audible_frame.0,
            final(self).wf(),
    {
        proof {
            use_type_invariant(&*self);
        }
        let ghost original = self@;
        let ghost keep = in_timeline::<T>(generation, seek_epoch);
        let ghost total = release_count(original, generation, seek_epoch, audible_frame);
        let ghost mut k: int = 0;
        let mut latest: Option<TimedFrame<T>> = None;
        let mut pending: VecDeque<TimedFrame<T>> = VecDeque::new();
        std::mem::swap(&mut pending, &mut self.pending);
        loop
            invariant
                keep == in_timeline::<T>(generation, seek_epoch),
                0 <= k <= original.len(),
                pending@ == original.skip(k),
                total == k + release_count(original.skip(k), generation, seek_epoch, audible_frame),
                latest == latest_matching(original.take(k), keep),
            ensures
                k == total,
                pending@ == original.skip(k),
                latest == latest_matching(original.take(k), keep),
            decreases pending@.len(),
        {
            if pending.len() == 0 {
                break;
            }
            let front_generation = pending[0].generation;
            let front_seek_epoch = pending[0].seek_epoch;
            let front_end = pending[0].output_frame_end;
            proof {
                assert(original.skip(k)[0] == original[k]);
                assert(original.skip(k).drop_first() =~= original.skip(k + 1));
                assert(original.take(k + 1).drop_last() =~= original.take(k));
                assert(original.take(k + 1).last() == original[k]);
                lemma_latest_index(original.take(k), keep);
                let l = latest_index(original.take(k), keep);
                if l >= 0 {
                    assert(original.take(k + 1)[l] == original.take(k)[l]);
                }
            }
            if front_generation != generation || front_seek_epoch != seek_epoch {
                pending.pop_front();
                proof {
                    k = k + 1;
                }
            } else if front_end.0 > audible_frame.0 {
                break;
            } else {
                latest = pending.pop_front();
                proof {
                    k = k + 1;
                }
            }
        }
        proof {
            lemma_release_takes_newest_ready(original, generation, seek_epoch, audible_frame);
        }
        self.pending = pending;
        latest
    }

    pub fn clear(&mut self)
        ensures
            final(self)@ == Seq::<TimedFrame<T>>::empty(),
            final(self).wf(),
    {
        let mut pending: VecDeque<TimedFrame<T>> = VecDeque::new();
        std::mem::swap(&mut pending, &mut self.pending);
        pending.clear();
        self.pending = pending;
    }

    pub fn len(&self) -> (n: usize)
        ensures
            n == self@.len(),
    {
        self.pending.len()
    }

    pub fn is_empty(&self) -> (empty: bool)
        ensures
            empty == (self@.len() == 0),
    {
        self.pending.len() == 0
    }
}

/// `latest_index` names the last selected frame: it selects it, and nothing
/// after it is selected; it is -1 exactly when nothing is selected.
pub proof fn lemma_latest_index<T>(queue: Seq<TimedFrame<T>>, keep: spec_fn(TimedFrame<T>) -> bool)
    ensures
        -1 <= latest_index(queue, keep) < queue.len(),
        latest_index(queue, keep) >= 0 ==> keep(queue[latest_index(queue, keep)]),
        forall|i: int|
            latest_index(queue, keep) < i < queue.len() ==> !keep(#[trigger] queue[i]),
    decreases queue.len(),
{
    if queue.len() > 0 && !keep(queue.last()) {
        let shorter = queue.drop_last();
        lemma_latest_index(shorter, keep);
        assert forall|i: int| latest_index(queue, keep) < i < queue.len() implies !keep(
            #[trigger] queue[i],
        ) by {
            if i < queue.len() - 1 {
                assert(queue[i] == shorter[i]);
            }
        }
    }
}

/// Any index that selects a frame with nothing selected after it is `latest_index`.
pub proof fn lemma_latest_index_unique<T>(
    queue: Seq<TimedFrame<T>>,
    keep: spec_fn(TimedFrame<T>) -> bool,
    j: int,
)
    requires
        -1 <= j < queue.len(),
        j >= 0 ==> keep(queue[j]),
        forall|i: int| j < i < queue.len() ==> !keep(#[trigger] queue[i]),
    ensures
        latest_index(queue, keep) == j,
{
    lemma_latest_index(queue, keep);
    let l = latest_index(queue, keep);
    if l < j {
        assert(!keep(queue[j]));
    } else if l > j {
        assert(!keep(queue[l]));
    }
}

/// With the pending frames ordered, the last frame of a timeline has the latest
/// boundary of that timeline; pushing `frame` fails exactly when some pending
/// frame of its timeline has a later boundary, and otherwise keeps the order.
pub proof fn lemma_push_keeps_order<T>(queue: Seq<TimedFrame<T>>, frame: TimedFrame<T>)
    requires
        ordered_within_timelines(queue),
    ensures
        push_result(queue, frame) is Err <==> exists|i: int|
            0 <= i < queue.len() && #[trigger] queue[i].generation == frame.generation
                && queue[i].seek_epoch == frame.seek_epoch && queue[i].output_frame_end.0
                > frame.output_frame_end.0,
        push_result(queue, frame) is Ok ==> ordered_within_timelines(queue.push(frame)),
{
    let keep = in_timeline::<T>(frame.generation, frame.seek_epoch);
    lemma_latest_index(queue, keep);
    let l = latest_index(queue, keep);
    if exists|i: int|
        0 <= i < queue.len() && #[trigger] queue[i].generation == frame.generation
            && queue[i].seek_epoch == frame.seek_epoch && queue[i].output_frame_end.0
            > frame.output_frame_end.0 {
        let i = choose|i: int|
            0 <= i < queue.len() && #[trigger] queue[i].generation == frame.generation
                && queue[i].seek_epoch == frame.seek_epoch && queue[i].output_frame_end.0
                > frame.output_frame_end.0;
        assert(keep(queue[i]));
        assert(l >= i);
        if l > i {
            assert(keep(queue[l]));
        }
    }
    if push_result(queue, frame) is Ok {
        let pushed = queue.push(frame);
        assert forall|i: int, j: int|
            0 <= i < j < pushed.len() && pushed[i].generation == pushed[j].generation
                && pushed[i].seek_epoch == pushed[j].seek_epoch implies pushed[i].output_frame_end.0
            <= pushed[j].output_frame_end.0 by {
            if j == queue.len() {
                assert(pushed[i] == queue[i]);
                assert(keep(queue[i]));
                assert(i <= l);
                assert(keep(queue[l]));
            } else {
                assert(pushed[i] == queue[i]);
                assert(pushed[j] == queue[j]);
            }
        }
    }
}

/// Facts about `release_count`: it stays within the queue, no frame it removes
/// holds the release back, and the frame after them does.
pub proof fn lemma_release_count<T>(
    queue: Seq<TimedFrame<T>>,
    generation: Generation,
    seek_epoch: SeekEpoch,
    audible_frame: OutputFrame,
)
    ensures
        release_count(queue, generation, seek_epoch, audible_frame) <= queue.len(),
        forall|i: int|
            0 <= i < release_count(queue, generation, seek_epoch, audible_frame) ==> !holds_back(
                #[trigger] queue[i],
                generation,
                seek_epoch,
                audible_frame,
            ),
        release_count(queue, generation, seek_epoch, audible_frame) < queue.len() ==> holds_back(
            queue[release_count(queue, generation, seek_epoch, audible_frame) as int],
            generation,
            seek_epoch,
            audible_frame,
        ),
    decreases queue.len(),
{
    if queue.len() > 0 && !holds_back(queue[0], generation, seek_epoch, audible_frame) {
        let rest = queue.drop_first();
        lemma_release_count(rest, generation, seek_epoch, audible_frame);
        assert forall|i: int|
            0 <= i < release_count(queue, generation, seek_epoch, audible_frame) implies !holds_back(
            #[trigger] queue[i],
            generation,
            seek_epoch,
            audible_frame,
        ) by {
            if i > 0 {
                assert(queue[i] == rest[i - 1]);
            }
        }
    }
}

/// A release takes exactly the newest ready frame of the timeline: of the frames
/// it removes, the last one of the timeline is the last ready frame of the whole
/// queue, and no frame of the timeline that stays is ready.
pub proof fn lemma_release_takes_newest_ready<T>(
    queue: Seq<TimedFrame<T>>,
    generation: Generation,
    seek_epoch: SeekEpoch,
    audible_frame: OutputFrame,
)
    requires
        ordered_within_timelines(queue),
    ensures
        ({
            let k = release_count(queue, generation, seek_epoch, audible_frame) as int;
            &&& latest_matching(queue.take(k), in_timeline(generation, seek_epoch))
                == latest_matching(queue, ready_in_timeline(generation, seek_epoch, audible_frame))
            &&& forall|i: int|
                0 <= i < queue.skip(k).len() && #[trigger] queue.skip(k)[i].generation == generation
                    && queue.skip(k)[i].seek_epoch == seek_epoch ==> queue.skip(
                    k,
                )[i].output_frame_end.0 > audible_frame.0
            &&& ordered_within_timelines(queue.skip(k))
        }),
        latest_matching(queue, ready_in_timeline(generation, seek_epoch, audible_frame)) matches Some(
            frame,
        ) ==> frame.generation == generation && frame.seek_epoch == seek_epoch
            && frame.output_frame_end.0 <= audible_frame.0,
{
    let k = release_count(queue, generation, seek_epoch, audible_frame) as int;
    let keep = in_timeline::<T>(generation, seek_epoch);
    let ready = ready_in_timeline::<T>(generation, seek_epoch, audible_frame);
    let prefix = queue.take(k);
    let rest = queue.skip(k);
    lemma_release_count(queue, generation, seek_epoch, audible_frame);
    lemma_latest_index(prefix, keep);
    lemma_latest_index(queue, ready);
    let l = latest_index(prefix, keep);
    // Frames of the timeline from position k on are not ready.
    assert forall|i: int| k <= i < queue.len() && keep(queue[i]) implies queue[i].output_frame_end.0
        > audible_frame.0 by {
        assert(holds_back(queue[k], generation, seek_epoch, audible_frame));
        if i > k {
            assert(queue[k].output_frame_end.0 <= queue[i].output_frame_end.0);
        }
    }
    assert forall|i: int| l < i < queue.len() implies !ready(#[trigger] queue[i]) by {
        if i < k {
            assert(prefix[i] == queue[i]);
            assert(!keep(prefix[i]));
        }
    }
    if l >= 0 {
        assert(prefix[l] == queue[l]);
        assert(!holds_back(queue[l], generation, seek_epoch, audible_frame));
    }
    lemma_latest_index_unique(queue, ready, l);
    assert forall|i: int|
        0 <= i < rest.len() && #[trigger] rest[i].generation == generation && rest[i].seek_epoch
            == seek_epoch implies rest[i].output_frame_end.0 > audible_frame.0 by {
        assert(rest[i] == queue[k + i]);
        assert(keep(queue[k + i]));
    }
    assert forall|i: int, j: int|
        0 <= i < j < rest.len() && rest[i].generation == rest[j].generation && rest[i].seek_epoch
            == rest[j].seek_epoch implies rest[i].output_frame_end.0 <= rest[j].output_frame_end.0 by {
        assert(rest[i] == queue[k + i]);
        assert(rest[j] == queue[k + j]);
    }
}

} // verus!
