//! Decisions of the test subscriber hub that do not depend on its channel or
//! its clock: what to do with each outcome of a receive, and how field values
//! narrow to 64 bits when a field map is serialized.

use vstd::prelude::*;

use crate::event::TracingEventValue;

verus! {

/// What one receive on the event channel gave.
#[derive(Clone, Copy, Debug, PartialEq, Eq, Structural)]
pub enum ReceiveOutcome {
    /// An event arrived; `matches` tells whether it passes the subscriber's filter.
    Event { matches: bool },
    /// The subscriber fell behind and this many events were dropped.
    Lagged(u64),
    /// Every sender is gone.
    Closed,
    /// The wait's time budget ran out.
    TimedOut,
}

/// What a subscriber waiting for an event does next.
#[derive(Clone, Copy, Debug, PartialEq, Eq, Structural)]
pub enum WaitStep {
    /// Hand the event that arrived to the caller.
    Deliver,
    /// Drop the event and receive again.
    KeepWaiting,
    /// Fail the test: events were lost. Carries how many.
    FailLagged(u64),
    /// Return no event.
    GiveUp,
}

/// The step that follows a receive outcome. A lagging subscriber never drops
/// events silently: it fails with the number of events it missed.
pub fn next_wait_step(outcome: ReceiveOutcome) -> (r: WaitStep)
    ensures
        r == match outcome {
            ReceiveOutcome::Event { matches } => if matches {
                WaitStep::Deliver
            } else {
                WaitStep::KeepWaiting
            },
            ReceiveOutcome::Lagged(n) => WaitStep::FailLagged(n),
            ReceiveOutcome::Closed => WaitStep::GiveUp,
            ReceiveOutcome::TimedOut => WaitStep::GiveUp,
        },
{
    match outcome {
        ReceiveOutcome::Event { matches } => {
            if matches {
                WaitStep::Deliver
            } else {
                WaitStep::KeepWaiting
            }
        },
        ReceiveOutcome::Lagged(n) => WaitStep::FailLagged(n),
        ReceiveOutcome::Closed => WaitStep::GiveUp,
        ReceiveOutcome::TimedOut => WaitStep::GiveUp,
    }
}

/// A field value as it is written when a field map is serialized.
#[derive(Clone, Debug)]
pub enum SerializedValue {
    I64(i64),
    U64(u64),
    Bool(bool),
    Str(String),
}

/// A 128-bit value that does not fit in 64 bits.
#[derive(Clone, Copy, Debug, PartialEq, Eq, Structural)]
pub enum NarrowingError {
    I128OutOfRange(i128),
    U128OutOfRange(u128),
}

impl TracingEventValue {
    /// The value as it is serialized: 128-bit integers narrow to 64 bits when
    /// they fit, and are an error otherwise.
    pub fn serialized(&self) -> (r: Result<SerializedValue, NarrowingError>)
        ensures
            match *self {
                TracingEventValue::I64(v) => r matches Ok(SerializedValue::I64(w)) && w == v,
                TracingEventValue::U64(v) => r matches Ok(SerializedValue::U64(w)) && w == v,
                TracingEventValue::I128(v) => if i64::MIN <= v <= i64::MAX {
                    r matches Ok(SerializedValue::I64(w)) && w == v
                } else {
                    r == Err::<SerializedValue, NarrowingError>(NarrowingError::I128OutOfRange(v))
                },
                TracingEventValue::U128(v) => if v <= u64::MAX {
                    r matches Ok(SerializedValue::U64(w)) && w == v
                } else {
                    r == Err::<SerializedValue, NarrowingError>(NarrowingError::U128OutOfRange(v))
                },
                TracingEventValue::Bool(b) => r matches Ok(SerializedValue::Bool(c)) && c == b,
                TracingEventValue::String(s) => r matches Ok(SerializedValue::Str(t)) && t@ == s@,
            },
    {
        match self {
            TracingEventValue::I64(v) => Ok(SerializedValue::I64(*v)),
            TracingEventValue::U64(v) => Ok(SerializedValue::U64(*v)),
            TracingEventValue::I128(v) => {
                if i64::MIN as i128 <= *v && *v <= i64::MAX as i128 {
                    Ok(SerializedValue::I64(*v as i64))
                } else {
                    Err(NarrowingError::I128OutOfRange(*v))
                }
            },
            TracingEventValue::U128(v) => {
                if *v <= u64::MAX as u128 {
                    Ok(SerializedValue::U64(*v as u64))
                } else {
                    Err(NarrowingError::U128OutOfRange(*v))
                }
            },
            TracingEventValue::Bool(b) => Ok(SerializedValue::Bool(*b)),
            TracingEventValue::String(s) => Ok(SerializedValue::Str(s.clone())),
        }
    }
}

} // verus!
