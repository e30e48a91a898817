//! Receiving from a channel while Ruby's lock is released: what each poll
//! or timed wait decides. The waiting itself is done by the caller.
use vstd::prelude::*;

verus! {

/// What polling a channel without waiting gave.
#[derive(Debug)]
pub enum Poll<T> {
    Item(T),
    Empty,
    Disconnected,
}

/// What waiting on a channel, up to a timeout, gave.
#[derive(Debug)]
pub enum Waited<T> {
    Item(T),
    Timeout,
    Disconnected,
}

/// How a receive ended.
#[derive(Debug)]
pub enum RecvOutcome<T> {
    /// An item arrived.
    Received(T),
    /// Every sender is gone.
    Disconnected,
    /// The receive was interrupted (Ruby asked the thread to stop).
    Cancelled,
}

/// What the receive does after a poll.
#[derive(Debug)]
pub enum RecvStep<T> {
    /// It is over.
    Done(RecvOutcome<T>),
    /// Wait on the channel, up to the timeout.
    Wait,
}

/// After a poll: an item that is there is delivered (even when
/// cancellation was requested), a disconnected channel ends the receive,
/// and an empty one ends it only when cancellation was requested;
/// otherwise the caller waits.
pub fn recv_after_poll<T>(poll: Poll<T>, cancelled: bool) -> (r: RecvStep<T>)
    ensures
        match poll {
            Poll::Item(x) => r == RecvStep::Done(RecvOutcome::Received(x)),
            Poll::Disconnected => r == RecvStep::<T>::Done(RecvOutcome::Disconnected),
            Poll::Empty => if cancelled {
                r == RecvStep::<T>::Done(RecvOutcome::Cancelled)
            } else {
                r == RecvStep::<T>::Wait
            },
        },
{
    match poll {
        Poll::Item(x) => RecvStep::Done(RecvOutcome::Received(x)),
        Poll::Disconnected => RecvStep::Done(RecvOutcome::Disconnected),
        Poll::Empty => if cancelled {
            RecvStep::Done(RecvOutcome::Cancelled)
        } else {
            RecvStep::Wait
        },
    }
}

/// After a timed wait: an item or a disconnection ends the receive; a
/// timeout (`None`) sends the caller back to polling.
pub fn recv_after_wait<T>(w: Waited<T>) -> (r: Option<RecvOutcome<T>>)
    ensures
        match w {
            Waited::Item(x) => r == Some(RecvOutcome::Received(x)),
            Waited::Disconnected => r == Some(RecvOutcome::<T>::Disconnected),
            Waited::Timeout => r == None::<RecvOutcome<T>>,
        },
{
    match w {
        Waited::Item(x) => Some(RecvOutcome::Received(x)),
        Waited::Disconnected => Some(RecvOutcome::Disconnected),
        Waited::Timeout => None,
    }
}

} // verus!
