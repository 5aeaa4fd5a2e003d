//! The records that travel through the bridge.

use std::time::SystemTime;
use vstd::prelude::*;

verus! {

/// `std::time::SystemTime`, carried through as an opaque wall-clock reading.
#[verifier::external_type_specification]
#[verifier::external_body]
pub struct ExSystemTime(SystemTime);

/// What happened. `timing_offset` is the sample offset within the processing
/// cycle at which the event occurred. `velocity_bits` is the IEEE-754 bit pattern of the
/// single-precision velocity, so that a record is made of integers only.
#[derive(Clone, Copy, Debug, PartialEq, Eq)]
pub enum EventPayload {
    NoteOn { timing_offset: u32, channel: u8, note: u8, velocity_bits: u32 },
    NoteOff { timing_offset: u32, channel: u8, note: u8, velocity_bits: u32 },
    Unrecognized,
}

/// One event together with the wall-clock time at which it was enqueued.
/// `captured_at` is that reading as it was taken: the event's offset within
/// its cycle stays in the payload and is not added to it, so the events of
/// one cycle are told apart by their offsets, not by their capture times.
#[derive(Clone, Copy, Debug, PartialEq, Eq)]
pub struct EventRecord {
    pub captured_at: SystemTime,
    pub payload: EventPayload,
}

impl EventPayload {
    /// The kinds that the bridge forwards: note-on and note-off.
    pub open spec fn forwarded_kind(self) -> bool {
        self is NoteOn || self is NoteOff
    }

    /// Whether this payload is of a kind that the bridge forwards.
    pub fn is_forwarded_kind(&self) -> (r: bool)
        ensures
            r == self.forwarded_kind(),
    {
        match self {
            EventPayload::NoteOn { .. } => true,
            EventPayload::NoteOff { .. } => true,
            EventPayload::Unrecognized => false,
        }
    }
}

impl EventRecord {
    /// Pairs a payload with the time of its capture.
    pub fn new(captured_at: SystemTime, payload: EventPayload) -> (r: EventRecord)
        ensures
            r.captured_at == captured_at,
            r.payload == payload,
    {
        EventRecord { captured_at, payload }
    }
}

} // verus!
