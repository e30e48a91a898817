//! The result of a Python coroutine run on a worker thread, as Ruby gets it.
use vstd::prelude::*;
use crate::exception::{is_error, RubyError, RubyErrorClass};
use crate::gvl::{Poll, RecvOutcome};
use crate::value::SendableValue;

verus! {

/// What `Future#value` gives for what the receive got: the worker's value,
/// its error as a `RuntimeError`, or, when nothing came (the future was
/// already consumed, the worker failed, or the wait was cancelled), a
/// `RuntimeError` saying so.
pub open spec fn future_value_spec(
    outcome: RecvOutcome<Result<SendableValue, String>>,
    r: Result<SendableValue, RubyError>,
) -> bool {
    match outcome {
        RecvOutcome::Received(Ok(v)) => r == Ok::<SendableValue, RubyError>(v),
        RecvOutcome::Received(Err(e)) => r matches Err(x) && is_error(
            x,
            RubyErrorClass::RuntimeError,
            e@,
        ),
        _ => r matches Err(x) && is_error(
            x,
            RubyErrorClass::RuntimeError,
            "Future cancelled or worker failed"@,
        ),
    }
}

/// The value of a future, from what the receive got.
pub fn future_value(outcome: RecvOutcome<Result<SendableValue, String>>) -> (r: Result<
    SendableValue,
    RubyError,
>)
    ensures
        future_value_spec(outcome, r),
{
    match outcome {
        RecvOutcome::Received(Ok(v)) => Ok(v),
        RecvOutcome::Received(Err(e)) => Err(RubyError::new(RubyErrorClass::RuntimeError, e.as_str())),
        _ => Err(RubyError::new(RubyErrorClass::RuntimeError, "Future cancelled or worker failed")),
    }
}

/// Whether `e` is the error for asking a future for its value again.
pub open spec fn is_consumed_error(e: RubyError) -> bool {
    is_error(e, RubyErrorClass::RuntimeError, "Future value already consumed"@)
}

/// A poll's message, as `Future#value` gives it: the worker's value or its
/// error; `None` when nothing was there yet.
pub fn ready_value(p: Poll<Result<SendableValue, String>>) -> (r: Option<
    Result<SendableValue, RubyError>,
>)
    ensures
        match p {
            Poll::Item(x) => r matches Some(y) && future_value_spec(RecvOutcome::Received(x), y),
            _ => r is None,
        },
{
    match p {
        Poll::Item(x) => Some(future_value(RecvOutcome::Received(x))),
        _ => None,
    }
}

/// What `Future#value` does after its first look.
#[derive(Debug)]
pub enum ValueStep {
    /// Answer this.
    Done(Result<SendableValue, RubyError>),
    /// Nothing is there yet: wait for the worker.
    Wait,
}

/// Whether a future's value was already handed out: it can be only once.
#[derive(Debug)]
pub struct FutureSlot {
    taken: bool,
}

impl FutureSlot {
    /// Whether the value was already handed out.
    pub closed spec fn is_taken(&self) -> bool {
        self.taken
    }

    /// A future whose value was not asked for yet.
    pub fn new() -> (s: FutureSlot)
        ensures
            !s.is_taken(),
    {
        FutureSlot { taken: false }
    }

    /// Whether the value was already handed out.
    pub fn taken(&self) -> (b: bool)
        ensures
            b == self.is_taken(),
    {
        self.taken
    }

    /// `Future#value`'s first look, given what a poll of the channel gave
    /// (`None`: nothing yet). Once the value was handed out, every later
    /// call fails at once; otherwise a result that is there is handed out,
    /// and with none the caller waits.
    pub fn first_look(&mut self, ready: Option<Result<SendableValue, RubyError>>) -> (r: ValueStep)
        ensures
            old(self).is_taken() ==> final(self).is_taken() && (r matches ValueStep::Done(Err(e))
                && is_consumed_error(e)),
            !old(self).is_taken() ==> match ready {
                Some(x) => final(self).is_taken() && r == ValueStep::Done(x),
                None => !final(self).is_taken() && r is Wait,
            },
    {
        if self.taken {
            return ValueStep::Done(
                Err(RubyError::new(RubyErrorClass::RuntimeError, "Future value already consumed")),
            );
        }
        match ready {
            Some(x) => {
                self.taken = true;
                ValueStep::Done(x)
            },
            None => ValueStep::Wait,
        }
    }

    /// `Future#value` after waiting for the worker: what the wait got, as
    /// `future_value` gives it; the value counts as handed out.
    pub fn after_wait(&mut self, outcome: RecvOutcome<Result<SendableValue, String>>) -> (r: Result<
        SendableValue,
        RubyError,
    >)
        ensures
            final(self).is_taken(),
            future_value_spec(outcome, r),
    {
        self.taken = true;
        future_value(outcome)
    }
}

} // verus!
