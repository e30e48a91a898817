//! One round of receiving from a crossbeam channel: the channel is polled
//! or waited on here, and the library decides what the round gave. What a
//! poll or a wait returns depends on the other threads, so nothing is
//! claimed of it beyond its kind; the decisions hold whatever came back.
use vstd::prelude::*;
use crate::exception::{RubyError, RubyErrorClass};
use crate::future::{is_consumed_error, ready_value, FutureSlot, ValueStep};
use crate::gvl::{recv_after_poll, recv_after_wait, Poll, RecvOutcome, RecvStep, Waited};
use crate::nonblocking_stream::{fiber_step, FiberStep};
use crate::value::{SendableValue, StreamItem};
use crossbeam_channel::{Receiver, RecvTimeoutError, TryRecvError};

verus! {

/// crossbeam's receiving end of a channel.
#[verifier::external_type_specification]
#[verifier::external_body]
#[verifier::reject_recursive_types(T)]
pub struct ExReceiver<T>(Receiver<T>);

/// `Receiver::try_recv`: the next message if one is there, `Empty` if the
/// channel is empty, `Disconnected` if it is empty and every sender is
/// gone. Which one depends on the other threads: nothing is stated.
#[verifier::external_body]
fn try_recv<T>(rx: &Receiver<T>) -> (p: Poll<T>) {
    match rx.try_recv() {
        Ok(x) => Poll::Item(x),
        Err(TryRecvError::Empty) => Poll::Empty,
        Err(TryRecvError::Disconnected) => Poll::Disconnected,
    }
}

/// `Receiver::recv_timeout` with a timeout of `timeout_ms` milliseconds:
/// the next message, or `Timeout` when none came in time, or
/// `Disconnected` when the channel is empty and every sender is gone.
/// Which one depends on the other threads and the clock: nothing is stated.
#[verifier::external_body]
fn recv_timeout<T>(rx: &Receiver<T>, timeout_ms: u64) -> (w: Waited<T>) {
    match rx.recv_timeout(std::time::Duration::from_millis(timeout_ms)) {
        Ok(x) => Waited::Item(x),
        Err(RecvTimeoutError::Timeout) => Waited::Timeout,
        Err(RecvTimeoutError::Disconnected) => Waited::Disconnected,
    }
}

/// `Receiver::is_empty`: whether the channel held no message at the time
/// of the call, which depends on the other threads: nothing is stated.
#[verifier::external_body]
fn channel_is_empty<T>(rx: &Receiver<T>) -> (b: bool) {
    rx.is_empty()
}

/// One poll of the receive loop: once cancellation was requested the
/// receive never goes on to wait, and it ends as cancelled only when
/// cancellation was requested.
pub fn poll_round<T>(rx: &Receiver<T>, cancelled: bool) -> (r: RecvStep<T>)
    ensures
        cancelled ==> r matches RecvStep::Done(_),
        r matches RecvStep::Done(RecvOutcome::Cancelled) ==> cancelled,
{
    recv_after_poll(try_recv(rx), cancelled)
}

/// One timed wait of the receive loop: `None` sends the caller back to
/// polling; a wait is never reported as cancelled.
pub fn wait_round<T>(rx: &Receiver<T>, timeout_ms: u64) -> (r: Option<RecvOutcome<T>>)
    ensures
        !(r matches Some(RecvOutcome::Cancelled)),
{
    recv_after_wait(recv_timeout(rx, timeout_ms))
}

/// One poll of the fiber-aware consumer, after the pipe said data may be
/// there: a producer's error is raised as a `RuntimeError`.
pub fn fiber_poll(rx: &Receiver<StreamItem>) -> (r: FiberStep)
    ensures
        r matches FiberStep::Fail(e) ==> e.class == RubyErrorClass::RuntimeError,
{
    fiber_step(try_recv(rx))
}

/// `Future#value`'s poll: the result when the worker already sent it (its
/// error raised as a `RuntimeError`), or `None` to go and wait.
pub fn future_ready_value(rx: &Receiver<Result<SendableValue, String>>) -> (r: Option<
    Result<SendableValue, RubyError>,
>)
    ensures
        r matches Some(Err(e)) ==> e.class == RubyErrorClass::RuntimeError,
{
    ready_value(try_recv(rx))
}

/// `Future#value`'s first look: once the value was handed out every later
/// call fails at once, without polling; otherwise the channel is polled
/// and a result that is there is handed out.
pub fn value_first_look(slot: &mut FutureSlot, rx: &Receiver<Result<SendableValue, String>>) -> (r:
    ValueStep)
    ensures
        old(slot).is_taken() ==> final(slot).is_taken() && (r matches ValueStep::Done(Err(e))
            && is_consumed_error(e)),
        !old(slot).is_taken() ==> (r is Wait && !final(slot).is_taken()) || (r is Done
            && final(slot).is_taken()),
        r matches ValueStep::Done(Err(e)) ==> e.class == RubyErrorClass::RuntimeError,
{
    if slot.taken() {
        slot.first_look(None)
    } else {
        slot.first_look(future_ready_value(rx))
    }
}

/// Whether a channel that is (`empty`) or is not empty holds a result.
pub fn ready_of(empty: bool) -> (b: bool)
    ensures
        b == !empty,
{
    !empty
}

/// `Future#ready?`: whether the worker's result is waiting in the channel.
pub fn is_ready(rx: &Receiver<Result<SendableValue, String>>) -> (b: bool) {
    ready_of(channel_is_empty(rx))
}

} // verus!
