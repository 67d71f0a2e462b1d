use vstd::prelude::*;

verus! {

/// Logical identity of one loaded playback source/session.
#[derive(Debug, Clone, Copy, Default, PartialEq, Eq, Structural, PartialOrd, Ord, Hash)]
pub struct Generation(pub u64);

/// Logical identity of the current seek position within a generation.
#[derive(Debug, Clone, Copy, Default, PartialEq, Eq, Structural, PartialOrd, Ord, Hash)]
pub struct SeekEpoch(pub u64);

/// Frame index in the output-device sample-rate domain.
#[derive(Debug, Clone, Copy, Default, PartialEq, Eq, Structural, PartialOrd, Ord, Hash)]
pub struct OutputFrame(pub u64);

/// Timestamp in a backend-provided stream-local time base, expressed in nanoseconds.
///
/// The timeline never compares this value with wall-clock time. An adapter must
/// ensure that callback, playback, and query timestamps use the same time base.
#[derive(Debug, Clone, Copy, Default, PartialEq, Eq, Structural, PartialOrd, Ord, Hash)]
pub struct BackendTime(pub u64);

} // verus!
