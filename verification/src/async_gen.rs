//! Streaming the items of a Python iterator or async generator to Ruby: the
//! choice of how to consume the object, and what each step of the worker
//! that drives it sends down the stream.
use vstd::prelude::*;
use crate::exception::{display_spec, is_stop_async_iteration, is_stop_async_iteration_spec, PythonException};
use crate::text::push_str;
use crate::value::{model, python_to_sendable, to_sendable_spec, PyValue, SendModel, StreamItem};

verus! {

/// Strategy for consuming async generators.
#[derive(Clone, Copy, Debug, PartialEq, Eq, Structural)]
pub enum AsyncStrategy {
    /// Wrap the generator in Python's async-to-sync adapter, then iterate it
    /// like any iterator.
    PythonAdapter,
    /// Drive the generator's `__anext__()` coroutines from Rust with an
    /// asyncio event loop.
    RustDriving,
}

/// How a stream gets its items.
#[derive(Clone, Copy, Debug, PartialEq, Eq, Structural)]
pub enum StreamSource {
    /// Iterate `iter(obj)`.
    SyncIterator,
    /// Iterate the async generator wrapped by the adapter.
    AsyncViaAdapter,
    /// Drive the async generator from Rust.
    AsyncViaRust,
}

/// An object that is async-iterable is consumed by the chosen strategy;
/// anything else is iterated synchronously.
pub open spec fn stream_source_spec(is_async_iterable: bool, strategy: AsyncStrategy) -> StreamSource {
    if is_async_iterable {
        match strategy {
            AsyncStrategy::PythonAdapter => StreamSource::AsyncViaAdapter,
            AsyncStrategy::RustDriving => StreamSource::AsyncViaRust,
        }
    } else {
        StreamSource::SyncIterator
    }
}

/// How to consume an object, given whether it is async-iterable.
pub fn stream_source(is_async_iterable: bool, strategy: AsyncStrategy) -> (s: StreamSource)
    ensures
        s == stream_source_spec(is_async_iterable, strategy),
{
    if is_async_iterable {
        match strategy {
            AsyncStrategy::PythonAdapter => StreamSource::AsyncViaAdapter,
            AsyncStrategy::RustDriving => StreamSource::AsyncViaRust,
        }
    } else {
        StreamSource::SyncIterator
    }
}

/// The error when the iterator that `source` needs could not be obtained
/// (Python returned null): the object is not iterable, or the adapter
/// could not wrap the generator. Driving from Rust needs no iterator.
pub fn iterator_failure(source: StreamSource) -> (m: Option<String>)
    ensures
        match source {
            StreamSource::SyncIterator => m is Some && m->0@ == "Object is not iterable"@,
            StreamSource::AsyncViaAdapter => m is Some && m->0@
                == "Failed to wrap async generator"@,
            StreamSource::AsyncViaRust => m is None,
        },
{
    match source {
        StreamSource::SyncIterator => Some(String::from_str("Object is not iterable")),
        StreamSource::AsyncViaAdapter => Some(String::from_str("Failed to wrap async generator")),
        StreamSource::AsyncViaRust => None,
    }
}

// ---------------------------------------------------------------------------
// Stream items, as content
// ---------------------------------------------------------------------------

/// The content of a stream item.
pub enum ItemModel {
    Value(SendModel),
    Error(Seq<char>),
    End,
}

/// The content of a stream item.
pub open spec fn item_model(i: StreamItem) -> ItemModel {
    match i {
        StreamItem::Value(v) => ItemModel::Value(model(v)),
        StreamItem::Error(e) => ItemModel::Error(e@),
        StreamItem::End => ItemModel::End,
    }
}

/// What one step of a worker does: the item it sends, if any, and whether
/// it goes on to the next step (provided the item could be sent).
pub struct StepResult {
    pub item: Option<StreamItem>,
    pub go_on: bool,
}

/// The content of a step's result.
pub open spec fn step_model(r: StepResult) -> (Option<ItemModel>, bool) {
    match r.item {
        Some(i) => (Some(item_model(i)), r.go_on),
        None => (None, r.go_on),
    }
}

/// The step that ends the stream for a Python exception:
/// `StopAsyncIteration` is the normal end, anything else an error carrying
/// the exception's short form.
pub open spec fn exception_item(e: PythonException) -> ItemModel {
    if is_stop_async_iteration_spec(e) {
        ItemModel::End
    } else {
        ItemModel::Error(display_spec(e))
    }
}

/// The item for the value produced by a step: the converted value, or an
/// error whose message starts with `prefix` and ends with why the value
/// could not be converted; only a value lets the worker go on.
pub open spec fn produced_spec(v: PyValue, prefix: Seq<char>) -> (Option<ItemModel>, bool) {
    match to_sendable_spec(v) {
        Ok(m) => (Some(ItemModel::Value(m)), true),
        Err(e) => (Some(ItemModel::Error(prefix + e)), false),
    }
}

fn exception_stream_item(e: &PythonException) -> (i: StreamItem)
    ensures
        item_model(i) == exception_item(*e),
{
    if is_stop_async_iteration(e) {
        StreamItem::End
    } else {
        StreamItem::Error(e.to_string())
    }
}

fn produced_item(v: &PyValue, prefix: &str) -> (r: StepResult)
    ensures
        step_model(r) == produced_spec(*v, prefix@),
{
    match python_to_sendable(v) {
        Ok(s) => StepResult { item: Some(StreamItem::Value(s)), go_on: true },
        Err(e) => {
            let mut m = String::from_str(prefix);
            push_str(&mut m, e.as_str());
            StepResult { item: Some(StreamItem::Error(m)), go_on: false }
        },
    }
}

// ---------------------------------------------------------------------------
// Iterating synchronously
// ---------------------------------------------------------------------------

/// What happened in one round of the iterating worker.
#[derive(Debug)]
pub enum SyncStep {
    /// The consumer asked the worker to stop.
    Cancelled,
    /// `next()` returned nothing: with an exception pending when
    /// `has_error`, the one fetched, if any.
    Exhausted { has_error: bool, exception: Option<PythonException> },
    /// `next()` returned this value.
    Item(PyValue),
}

/// One round of the iterating worker: stop silently when cancelled; end
/// the stream when the iterator is exhausted, or send the error it raised;
/// send each converted value and go on, or send why it could not be
/// converted and stop.
pub open spec fn sync_step_spec(s: SyncStep) -> (Option<ItemModel>, bool) {
    match s {
        SyncStep::Cancelled => (None, false),
        SyncStep::Exhausted { has_error, exception } => match exception {
            Some(e) if has_error => (Some(ItemModel::Error(display_spec(e))), false),
            _ => (Some(ItemModel::End), false),
        },
        SyncStep::Item(v) => produced_spec(v, "Error converting Python value to Ruby: "@),
    }
}

/// One round of the worker that iterates a Python iterator.
pub fn sync_iterator_step(s: &SyncStep) -> (r: StepResult)
    ensures
        step_model(r) == sync_step_spec(*s),
        r.go_on ==> r.item matches Some(StreamItem::Value(_)),
{
    match s {
        SyncStep::Cancelled => StepResult { item: None, go_on: false },
        SyncStep::Exhausted { has_error, exception } => {
            if *has_error {
                if let Some(e) = exception {
                    return StepResult { item: Some(StreamItem::Error(e.to_string())), go_on: false };
                }
            }
            StepResult { item: Some(StreamItem::End), go_on: false }
        },
        SyncStep::Item(v) => produced_item(v, "Error converting Python value to Ruby: "),
    }
}

// ---------------------------------------------------------------------------
// Driving an async generator
// ---------------------------------------------------------------------------

/// Why the driver could not start.
#[derive(Debug)]
pub enum DriverSetupFailure {
    /// The generator pointer was null.
    NullGenerator,
    /// Importing `asyncio` failed with this message.
    ImportFailed(String),
    /// Importing `asyncio` returned null.
    ImportReturnedNull,
    /// `asyncio.new_event_loop` could not be read.
    NoNewEventLoop,
    /// Creating the event loop failed.
    EventLoopNotCreated,
    /// The loop's `run_until_complete` could not be read.
    NoRunUntilComplete,
    /// The generator's `__anext__` could not be read.
    NoAnext,
}

/// The message sent down the stream when the driver cannot start.
pub open spec fn setup_failure_spec(f: DriverSetupFailure) -> Seq<char> {
    match f {
        DriverSetupFailure::NullGenerator => "Async generator is null"@,
        DriverSetupFailure::ImportFailed(m) => m@,
        DriverSetupFailure::ImportReturnedNull => "Failed to import asyncio"@,
        DriverSetupFailure::NoNewEventLoop => "Failed to get asyncio.new_event_loop"@,
        DriverSetupFailure::EventLoopNotCreated => "Failed to create event loop"@,
        DriverSetupFailure::NoRunUntilComplete => "Failed to get event_loop.run_until_complete"@,
        DriverSetupFailure::NoAnext => "Failed to get __anext__ method"@,
    }
}

/// The only item sent when the driver cannot start: an error.
pub fn setup_failure_item(f: &DriverSetupFailure) -> (i: StreamItem)
    ensures
        item_model(i) == ItemModel::Error(setup_failure_spec(*f)),
{
    let m = match f {
        DriverSetupFailure::NullGenerator => String::from_str("Async generator is null"),
        DriverSetupFailure::ImportFailed(m) => m.clone(),
        DriverSetupFailure::ImportReturnedNull => String::from_str("Failed to import asyncio"),
        DriverSetupFailure::NoNewEventLoop => String::from_str(
            "Failed to get asyncio.new_event_loop",
        ),
        DriverSetupFailure::EventLoopNotCreated => String::from_str("Failed to create event loop"),
        DriverSetupFailure::NoRunUntilComplete => String::from_str(
            "Failed to get event_loop.run_until_complete",
        ),
        DriverSetupFailure::NoAnext => String::from_str("Failed to get __anext__ method"),
    };
    StreamItem::Error(m)
}

/// The steps that set the driver up, in order: check the generator, import
/// `asyncio`, read `asyncio.new_event_loop`, create the loop, read its
/// `run_until_complete`, read the generator's `__anext__`.
#[derive(Clone, Copy, Debug, PartialEq, Eq, Structural)]
pub enum SetupStep {
    CheckGenerator,
    ImportAsyncio,
    GetNewEventLoop,
    CreateEventLoop,
    GetRunUntilComplete,
    GetAnext,
}

/// What a setup step gave: the object it was after, nothing (null), or,
/// from the import, the error it raised, by its message.
#[derive(Debug)]
pub enum SetupResult {
    Found,
    Missing,
    Raised(String),
}

/// What the driver does after a setup step.
#[derive(Debug)]
pub enum SetupDecision {
    /// Take this step next.
    Next(SetupStep),
    /// Everything is there: start awaiting items.
    Ready,
    /// Send this item and stop.
    Fail(StreamItem),
}

/// The position of a setup step in the order.
pub open spec fn setup_index(s: SetupStep) -> nat {
    match s {
        SetupStep::CheckGenerator => 0,
        SetupStep::ImportAsyncio => 1,
        SetupStep::GetNewEventLoop => 2,
        SetupStep::CreateEventLoop => 3,
        SetupStep::GetRunUntilComplete => 4,
        SetupStep::GetAnext => 5,
    }
}

/// The step after `s`, none after the last.
pub open spec fn next_setup_step(s: SetupStep) -> Option<SetupStep> {
    match s {
        SetupStep::CheckGenerator => Some(SetupStep::ImportAsyncio),
        SetupStep::ImportAsyncio => Some(SetupStep::GetNewEventLoop),
        SetupStep::GetNewEventLoop => Some(SetupStep::CreateEventLoop),
        SetupStep::CreateEventLoop => Some(SetupStep::GetRunUntilComplete),
        SetupStep::GetRunUntilComplete => Some(SetupStep::GetAnext),
        SetupStep::GetAnext => None,
    }
}

/// Why the driver cannot start when step `s` did not find its object.
pub open spec fn setup_failure_of(s: SetupStep, r: SetupResult) -> DriverSetupFailure {
    match s {
        SetupStep::CheckGenerator => DriverSetupFailure::NullGenerator,
        SetupStep::ImportAsyncio => match r {
            SetupResult::Raised(m) => DriverSetupFailure::ImportFailed(m),
            _ => DriverSetupFailure::ImportReturnedNull,
        },
        SetupStep::GetNewEventLoop => DriverSetupFailure::NoNewEventLoop,
        SetupStep::CreateEventLoop => DriverSetupFailure::EventLoopNotCreated,
        SetupStep::GetRunUntilComplete => DriverSetupFailure::NoRunUntilComplete,
        SetupStep::GetAnext => DriverSetupFailure::NoAnext,
    }
}

/// The driver's setup after step `step`: when the step found its object,
/// the next step, or, after the last one, start; otherwise send the error
/// for that step and stop.
pub fn setup_after(step: SetupStep, result: SetupResult) -> (d: SetupDecision)
    ensures
        result is Found ==> match next_setup_step(step) {
            Some(n) => d == SetupDecision::Next(n) && setup_index(n) == setup_index(step) + 1,
            None => d is Ready,
        },
        !(result is Found) ==> (d matches SetupDecision::Fail(i) && item_model(i)
            == ItemModel::Error(setup_failure_spec(setup_failure_of(step, result)))),
{
    let ghost r0 = result;
    let failure = match result {
        SetupResult::Found => {
            return match step {
                SetupStep::CheckGenerator => SetupDecision::Next(SetupStep::ImportAsyncio),
                SetupStep::ImportAsyncio => SetupDecision::Next(SetupStep::GetNewEventLoop),
                SetupStep::GetNewEventLoop => SetupDecision::Next(SetupStep::CreateEventLoop),
                SetupStep::CreateEventLoop => SetupDecision::Next(SetupStep::GetRunUntilComplete),
                SetupStep::GetRunUntilComplete => SetupDecision::Next(SetupStep::GetAnext),
                SetupStep::GetAnext => SetupDecision::Ready,
            };
        },
        SetupResult::Raised(m) => match step {
            SetupStep::ImportAsyncio => DriverSetupFailure::ImportFailed(m),
            _ => missing_failure(step),
        },
        SetupResult::Missing => missing_failure(step),
    };
    assert(failure == setup_failure_of(step, r0));
    SetupDecision::Fail(setup_failure_item(&failure))
}

/// Why the driver cannot start when step `s` found nothing.
fn missing_failure(s: SetupStep) -> (f: DriverSetupFailure)
    ensures
        f == setup_failure_of(s, SetupResult::Missing),
{
    match s {
        SetupStep::CheckGenerator => DriverSetupFailure::NullGenerator,
        SetupStep::ImportAsyncio => DriverSetupFailure::ImportReturnedNull,
        SetupStep::GetNewEventLoop => DriverSetupFailure::NoNewEventLoop,
        SetupStep::CreateEventLoop => DriverSetupFailure::EventLoopNotCreated,
        SetupStep::GetRunUntilComplete => DriverSetupFailure::NoRunUntilComplete,
        SetupStep::GetAnext => DriverSetupFailure::NoAnext,
    }
}

/// What happened in one round of the driver.
#[derive(Debug)]
pub enum AsyncStep {
    /// The consumer asked the driver to stop.
    Cancelled,
    /// Calling `__anext__()` returned null, with the exception fetched, if any.
    AnextFailed { exception: Option<PythonException> },
    /// The argument tuple could not be allocated.
    TupleAllocFailed,
    /// The coroutine could not be put in the argument tuple.
    TupleSetFailed,
    /// `run_until_complete` returned null, with the exception fetched, if
    /// any, and whether an error was still flagged when none could be.
    RunFailed { exception: Option<PythonException>, has_error: bool },
    /// `run_until_complete` produced this value.
    Produced(PyValue),
}

/// One round of the driver: stop silently when cancelled; when awaiting
/// the next item fails, `StopAsyncIteration` ends the stream and any other
/// exception is sent as an error; failures without an exception are sent
/// with a fixed message, except a run that failed with an error flagged
/// but not fetchable, which stops silently; each produced value is sent
/// converted, and the driver goes on, or the conversion error is sent and
/// it stops.
pub open spec fn async_step_spec(s: AsyncStep) -> (Option<ItemModel>, bool) {
    match s {
        AsyncStep::Cancelled => (None, false),
        AsyncStep::AnextFailed { exception } => match exception {
            Some(e) => (Some(exception_item(e)), false),
            None => (Some(ItemModel::Error("__anext__() failed"@)), false),
        },
        AsyncStep::TupleAllocFailed => (
            Some(ItemModel::Error("Failed to allocate argument tuple"@)),
            false,
        ),
        AsyncStep::TupleSetFailed => (Some(ItemModel::Error("Failed to set tuple item"@)), false),
        AsyncStep::RunFailed { exception, has_error } => match exception {
            Some(e) => (Some(exception_item(e)), false),
            None => if has_error {
                (None, false)
            } else {
                (
                    Some(ItemModel::Error("run_until_complete failed without Python exception"@)),
                    false,
                )
            },
        },
        AsyncStep::Produced(v) => produced_spec(v, "Cannot convert Python value to Ruby: "@),
    }
}

/// One round of the worker that drives an async generator.
pub fn async_generator_step(s: &AsyncStep) -> (r: StepResult)
    ensures
        step_model(r) == async_step_spec(*s),
        r.go_on ==> r.item matches Some(StreamItem::Value(_)),
{
    match s {
        AsyncStep::Cancelled => StepResult { item: None, go_on: false },
        AsyncStep::AnextFailed { exception } => {
            let item = match exception {
                Some(e) => exception_stream_item(e),
                None => StreamItem::Error(String::from_str("__anext__() failed")),
            };
            StepResult { item: Some(item), go_on: false }
        },
        AsyncStep::TupleAllocFailed => StepResult {
            item: Some(StreamItem::Error(String::from_str("Failed to allocate argument tuple"))),
            go_on: false,
        },
        AsyncStep::TupleSetFailed => StepResult {
            item: Some(StreamItem::Error(String::from_str("Failed to set tuple item"))),
            go_on: false,
        },
        AsyncStep::RunFailed { exception, has_error } => match exception {
            Some(e) => StepResult { item: Some(exception_stream_item(e)), go_on: false },
            None => if *has_error {
                StepResult { item: None, go_on: false }
            } else {
                StepResult {
                    item: Some(
                        StreamItem::Error(
                            String::from_str("run_until_complete failed without Python exception"),
                        ),
                    ),
                    go_on: false,
                }
            },
        },
        AsyncStep::Produced(v) => produced_item(v, "Cannot convert Python value to Ruby: "),
    }
}

// ---------------------------------------------------------------------------
// The shape of a whole stream
// ---------------------------------------------------------------------------

/// The items a worker sends when its rounds go as `steps` (each round's
/// result given by `step`), up to the first round that does not go on.
pub open spec fn run_items(
    steps: Seq<(Option<ItemModel>, bool)>,
) -> Seq<ItemModel>
    decreases steps.len(),
{
    if steps.len() == 0 {
        seq![]
    } else {
        let (item, go_on) = steps[0];
        let head = match item {
            Some(i) => seq![i],
            None => seq![],
        };
        if go_on {
            head + run_items(steps.drop_first())
        } else {
            head
        }
    }
}

/// Whether a round's result only goes on after sending a value.
pub open spec fn goes_on_only_after_value(r: (Option<ItemModel>, bool)) -> bool {
    r.1 ==> r.0 matches Some(ItemModel::Value(_))
}

/// A stream is a run of values closed by at most one `End` or `Error`: in
/// the items a worker sends, every item but the last is a value, for any
/// rounds in which the worker goes on only after sending a value (as every
/// round of `sync_iterator_step` and `async_generator_step` does).
pub proof fn lemma_stream_shape(steps: Seq<(Option<ItemModel>, bool)>)
    requires
        forall|i: int| 0 <= i < steps.len() ==> goes_on_only_after_value(#[trigger] steps[i]),
    ensures
        forall|j: int|
            0 <= j < run_items(steps).len() - 1 ==> #[trigger] run_items(steps)[j] matches ItemModel::Value(_),
    decreases steps.len(),
{
    if steps.len() > 0 {
        let rest = steps.drop_first();
        assert forall|i: int| 0 <= i < rest.len() implies goes_on_only_after_value(#[trigger] rest[i]) by {
            assert(rest[i] == steps[i + 1]);
        }
        lemma_stream_shape(rest);
        assert(goes_on_only_after_value(steps[0]));
    }
}

/// Every round of both workers goes on only after sending a value.
pub proof fn lemma_steps_go_on_only_after_value(s: SyncStep, a: AsyncStep)
    ensures
        goes_on_only_after_value(sync_step_spec(s)),
        goes_on_only_after_value(async_step_spec(a)),
{
}

} // verus!
