//! Handing stream items to Ruby: what the consumer makes of each item it
//! receives.
use vstd::prelude::*;
use crate::exception::{is_error, RubyError, RubyErrorClass};
use crate::gvl::{Poll, RecvOutcome};
use crate::value::{SendableValue, StreamItem};

verus! {

/// What the consumer yields for one received item: a value to hand to
/// Ruby, the producer's error as a `RuntimeError`, or nothing once the
/// stream ended, its producer went away or the wait was cancelled.
pub open spec fn stream_next_spec(
    outcome: RecvOutcome<StreamItem>,
    r: Option<Result<SendableValue, RubyError>>,
) -> bool {
    match outcome {
        RecvOutcome::Received(StreamItem::Value(v)) => r == Some(Ok::<SendableValue, RubyError>(v)),
        RecvOutcome::Received(StreamItem::Error(e)) => r matches Some(Err(x)) && is_error(
            x,
            RubyErrorClass::RuntimeError,
            e@,
        ),
        _ => r is None,
    }
}

/// The next element of a stream, from what the receive gave.
pub fn stream_next(outcome: RecvOutcome<StreamItem>) -> (r: Option<Result<SendableValue, RubyError>>)
    ensures
        stream_next_spec(outcome, r),
{
    match outcome {
        RecvOutcome::Received(StreamItem::Value(v)) => Some(Ok(v)),
        RecvOutcome::Received(StreamItem::Error(e)) => Some(
            Err(RubyError::new(RubyErrorClass::RuntimeError, e.as_str())),
        ),
        _ => None,
    }
}

/// What the fiber-aware consumer does with one poll of the channel.
#[derive(Debug)]
pub enum FiberStep {
    /// Yield this value to the block, then poll again.
    Yield(SendableValue),
    /// Raise this error.
    Fail(RubyError),
    /// The iteration is over.
    Finish,
    /// Nothing is there: wait until the pipe is readable.
    Wait,
}

/// After a poll, the fiber-aware consumer yields a value, raises the
/// producer's error, finishes on the end of the stream or on a
/// disconnected producer, or waits when nothing is there.
pub fn fiber_step(poll: Poll<StreamItem>) -> (r: FiberStep)
    ensures
        match poll {
            Poll::Item(StreamItem::Value(v)) => r == FiberStep::Yield(v),
            Poll::Item(StreamItem::Error(e)) => r matches FiberStep::Fail(x) && is_error(
                x,
                RubyErrorClass::RuntimeError,
                e@,
            ),
            Poll::Item(StreamItem::End) => r matches FiberStep::Finish,
            Poll::Empty => r matches FiberStep::Wait,
            Poll::Disconnected => r matches FiberStep::Finish,
        },
{
    match poll {
        Poll::Item(StreamItem::Value(v)) => FiberStep::Yield(v),
        Poll::Item(StreamItem::Error(e)) => FiberStep::Fail(
            RubyError::new(RubyErrorClass::RuntimeError, e.as_str()),
        ),
        Poll::Item(StreamItem::End) => FiberStep::Finish,
        Poll::Empty => FiberStep::Wait,
        Poll::Disconnected => FiberStep::Finish,
    }
}

} // verus!
