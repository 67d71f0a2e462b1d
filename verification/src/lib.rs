//! Precise audible playback timeline primitives for audio engines.
//!
//! The crate maps backend playback timing to a monotonic audible output-frame
//! timeline and gates arbitrary timestamped metadata against that timeline.
//! The contents of the shared clock's atomics are not modelled: what its
//! writer publishes and what its readers answer is tied by no contract, while
//! the decisions taken around those reads and writes are.

pub mod adapter;
pub mod gate;
pub mod shared;
pub mod timeline;
pub mod types;

pub use adapter::{backend_time_from_nanos, observation_from_timestamps};
pub use gate::{ClockGate, GateError, TimedFrame};
pub use shared::{
    SharedAudibleClock, SharedAudibleClockReader, SharedAudibleClockWriter, SharedClockSnapshot,
};
pub use timeline::{
    AudibleClock, CallbackSpan, ClockError, ClockState, ObservationOutcome, PlaybackObservation,
};
pub use types::{BackendTime, Generation, OutputFrame, SeekEpoch};
