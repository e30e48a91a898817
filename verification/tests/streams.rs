use rubyx::async_gen::{
    async_generator_step, iterator_failure, setup_failure_item, stream_source, sync_iterator_step,
    setup_after, AsyncStep, AsyncStrategy, DriverSetupFailure, SetupDecision, SetupResult,
    SetupStep, StreamSource, SyncStep,
};
use rubyx::exception::{PythonException, RubyErrorClass};
use rubyx::future::future_value;
use rubyx::gvl::{recv_after_poll, recv_after_wait, Poll, RecvOutcome, RecvStep, Waited};
use rubyx::nonblocking_stream::{fiber_step, stream_next, FiberStep};
use rubyx::value::{python_to_sendable, PyValue, SendableValue, StreamItem};

fn exc(kind: &str, message: &str) -> PythonException {
    PythonException::Exception { kind: kind.into(), message: message.into(), traceback: None }
}

/// Runs the driver's rounds until one does not go on, collecting what is sent.
fn drive(steps: Vec<AsyncStep>) -> Vec<StreamItem> {
    let mut items = Vec::new();
    for s in steps {
        let r = async_generator_step(&s);
        if let Some(item) = r.item {
            items.push(item);
        }
        if !r.go_on {
            break;
        }
    }
    items
}

/// Runs the iterating worker's rounds until one does not go on.
fn iterate(steps: Vec<SyncStep>) -> Vec<StreamItem> {
    let mut items = Vec::new();
    for s in steps {
        let r = sync_iterator_step(&s);
        if let Some(item) = r.item {
            items.push(item);
        }
        if !r.go_on {
            break;
        }
    }
    items
}

fn assert_single_error_contains(items: &[StreamItem], needle: &str) {
    assert_eq!(items.len(), 1, "expected one stream item");
    match &items[0] {
        StreamItem::Error(msg) => assert!(
            msg.contains(needle),
            "expected error message to contain '{needle}', got '{msg}'"
        ),
        _ => panic!("expected StreamItem::Error"),
    }
}

fn assert_values_then_end(items: &[StreamItem], expected: &[i64]) {
    assert_eq!(items.len(), expected.len() + 1, "unexpected stream length");
    for (idx, expected_num) in expected.iter().enumerate() {
        match &items[idx] {
            StreamItem::Value(SendableValue::Integer(actual)) => {
                assert_eq!(*actual, *expected_num, "unexpected value at index {idx}")
            }
            _ => panic!("expected integer value item"),
        }
    }
    match items.last() {
        Some(StreamItem::End) => {}
        _ => panic!("expected StreamItem::End as last item"),
    }
}

// ===== driving an async generator =====

#[test]
fn test_drive_async_generator_null_input() {
    let items = vec![setup_failure_item(&DriverSetupFailure::NullGenerator)];
    assert_single_error_contains(&items, "Async generator is null");
}

#[test]
fn test_drive_async_generator_yields_values_then_end() {
    let items = drive(vec![
        AsyncStep::Produced(PyValue::Int(Some(0))),
        AsyncStep::Produced(PyValue::Int(Some(1))),
        AsyncStep::Produced(PyValue::Int(Some(2))),
        AsyncStep::RunFailed { exception: Some(exc("StopAsyncIteration", "")), has_error: false },
    ]);
    assert_values_then_end(&items, &[0, 1, 2]);
}

#[test]
fn test_drive_async_generator_propagates_async_error() {
    let items = drive(vec![
        AsyncStep::Produced(PyValue::Int(Some(1))),
        AsyncStep::RunFailed { exception: Some(exc("ValueError", "boom")), has_error: false },
        AsyncStep::Produced(PyValue::Int(Some(2))),
    ]);
    assert_eq!(items.len(), 2, "expected one value then one error");
    match &items[0] {
        StreamItem::Value(SendableValue::Integer(v)) => assert_eq!(*v, 1),
        _ => panic!("expected first item to be integer value"),
    }
    match &items[1] {
        StreamItem::Error(msg) => assert!(msg.contains("ValueError") && msg.contains("boom")),
        _ => panic!("expected second item to be error"),
    }
}

#[test]
fn test_drive_async_generator_rejects_non_async_object() {
    let items = vec![setup_failure_item(&DriverSetupFailure::NoAnext)];
    assert_single_error_contains(&items, "__anext__");
}

#[test]
fn test_drive_async_generator_handles_immediate_anext_failure() {
    let items = drive(vec![AsyncStep::AnextFailed { exception: Some(exc("RuntimeError", "nope")) }]);
    assert_single_error_contains(&items, "RuntimeError");
}

#[test]
fn test_drive_async_generator_respects_cancel_signal() {
    let items = drive(vec![AsyncStep::Cancelled, AsyncStep::Produced(PyValue::Int(Some(1)))]);
    assert!(items.is_empty(), "expected no output after cancellation");
}

#[test]
fn test_drive_async_generator_missing_new_event_loop_attr() {
    let items = vec![setup_failure_item(&DriverSetupFailure::NoNewEventLoop)];
    assert_single_error_contains(&items, "asyncio.new_event_loop");
}

#[test]
fn test_drive_async_generator_event_loop_creation_failure() {
    let items = vec![setup_failure_item(&DriverSetupFailure::EventLoopNotCreated)];
    assert_single_error_contains(&items, "Failed to create event loop");
}

#[test]
fn test_drive_async_generator_missing_run_until_complete() {
    let items = vec![setup_failure_item(&DriverSetupFailure::NoRunUntilComplete)];
    assert_single_error_contains(&items, "run_until_complete");
}

#[test]
fn test_drive_async_generator_conversion_error() {
    let items = drive(vec![AsyncStep::Produced(PyValue::Other)]);
    assert_eq!(items.len(), 1, "expected a single conversion error");
    match &items[0] {
        StreamItem::Error(msg) => assert_eq!(
            msg,
            "Cannot convert Python value to Ruby: Cannot convert Python value to Ruby"
        ),
        _ => panic!("expected error item for conversion failure"),
    }
}

#[test]
fn test_drive_async_generator_other_failures() {
    assert_single_error_contains(
        &drive(vec![AsyncStep::AnextFailed { exception: None }]),
        "__anext__() failed",
    );
    assert_single_error_contains(
        &drive(vec![AsyncStep::TupleAllocFailed]),
        "Failed to allocate argument tuple",
    );
    assert_single_error_contains(&drive(vec![AsyncStep::TupleSetFailed]), "Failed to set tuple item");
    assert_single_error_contains(
        &drive(vec![AsyncStep::RunFailed { exception: None, has_error: false }]),
        "run_until_complete failed without Python exception",
    );
    assert!(drive(vec![AsyncStep::RunFailed { exception: None, has_error: true }]).is_empty());
    assert_single_error_contains(
        &vec![setup_failure_item(&DriverSetupFailure::ImportFailed("no asyncio".into()))],
        "no asyncio",
    );
    assert_single_error_contains(
        &vec![setup_failure_item(&DriverSetupFailure::ImportReturnedNull)],
        "Failed to import asyncio",
    );
}

// ===== iterating synchronously =====

#[test]
fn test_stream_from_sync_iterator_yields_values() {
    let items = iterate(vec![
        SyncStep::Item(PyValue::Int(Some(0))),
        SyncStep::Item(PyValue::Int(Some(1))),
        SyncStep::Item(PyValue::Int(Some(2))),
        SyncStep::Exhausted { has_error: false, exception: None },
    ]);
    assert_values_then_end(&items, &[0, 1, 2]);
}

#[test]
fn test_stream_from_sync_iterator_empty() {
    let items = iterate(vec![SyncStep::Exhausted { has_error: false, exception: None }]);
    assert_eq!(items.len(), 1);
    assert!(matches!(items[0], StreamItem::End));
}

#[test]
fn test_stream_from_sync_iterator_propagates_error() {
    let items = iterate(vec![
        SyncStep::Item(PyValue::Int(Some(1))),
        SyncStep::Exhausted { has_error: true, exception: Some(exc("ValueError", "bad item")) },
    ]);
    assert_eq!(items.len(), 2, "expected one value then one error");
    match &items[1] {
        StreamItem::Error(msg) => assert_eq!(msg, "ValueError: bad item"),
        _ => panic!("expected second item to be error"),
    }
}

#[test]
fn test_sync_iterator_conversion_error_stops() {
    let items = iterate(vec![
        SyncStep::Item(PyValue::Str(None)),
        SyncStep::Item(PyValue::Int(Some(1))),
    ]);
    assert_eq!(items.len(), 1);
    match &items[0] {
        StreamItem::Error(msg) => assert_eq!(
            msg,
            "Error converting Python value to Ruby: Cannot decode Python string as UTF-8"
        ),
        _ => panic!("expected an error"),
    }
}

#[test]
fn test_stream_from_python_object_non_iterable_returns_error() {
    let source = stream_source(false, AsyncStrategy::RustDriving);
    assert_eq!(source, StreamSource::SyncIterator);
    let msg = iterator_failure(source).expect("a null iterator is an error");
    assert!(msg.contains("not iterable"));
}

#[test]
fn test_stream_source_choice() {
    assert_eq!(stream_source(true, AsyncStrategy::PythonAdapter), StreamSource::AsyncViaAdapter);
    assert_eq!(stream_source(true, AsyncStrategy::RustDriving), StreamSource::AsyncViaRust);
    assert_eq!(stream_source(false, AsyncStrategy::PythonAdapter), StreamSource::SyncIterator);
    assert_eq!(
        iterator_failure(StreamSource::AsyncViaAdapter).unwrap(),
        "Failed to wrap async generator"
    );
    assert!(iterator_failure(StreamSource::AsyncViaRust).is_none());
}

// ===== receiving =====

#[test]
fn test_future_recv_cb_delivers_ok_value() {
    let step = recv_after_poll(Poll::Item(Ok::<SendableValue, String>(SendableValue::Integer(42))), false);
    match step {
        RecvStep::Done(RecvOutcome::Received(Ok(SendableValue::Integer(n)))) => assert_eq!(n, 42),
        other => panic!("expected Ok(Integer(42)), got {other:?}"),
    }
}

#[test]
fn test_future_recv_cb_delivers_err_value() {
    let step = recv_after_poll(Poll::Item(Err::<SendableValue, String>("python exploded".into())), false);
    match step {
        RecvStep::Done(RecvOutcome::Received(Err(msg))) => assert_eq!(msg, "python exploded"),
        other => panic!("expected Err, got {other:?}"),
    }
}

#[test]
fn test_future_recv_cb_handles_disconnect() {
    let step = recv_after_poll(Poll::<StreamItem>::Disconnected, false);
    assert!(matches!(step, RecvStep::Done(RecvOutcome::Disconnected)));
}

#[test]
fn test_future_recv_cb_respects_cancel_flag() {
    // Empty channel: wait while not cancelled, stop once cancelled.
    assert!(matches!(recv_after_poll(Poll::<StreamItem>::Empty, false), RecvStep::Wait));
    assert!(recv_after_wait(Waited::<StreamItem>::Timeout).is_none());
    assert!(matches!(
        recv_after_poll(Poll::<StreamItem>::Empty, true),
        RecvStep::Done(RecvOutcome::Cancelled)
    ));
}

#[test]
fn test_future_recv_cb_cancel_flag_already_set() {
    assert!(matches!(
        recv_after_poll(Poll::<StreamItem>::Empty, true),
        RecvStep::Done(RecvOutcome::Cancelled)
    ));
}

#[test]
fn test_future_recv_cb_with_delayed_producer() {
    assert!(matches!(recv_after_poll(Poll::<i64>::Empty, false), RecvStep::Wait));
    assert!(recv_after_wait(Waited::<i64>::Timeout).is_none());
    match recv_after_wait(Waited::Item(7i64)) {
        Some(RecvOutcome::Received(7)) => {}
        other => panic!("expected the item, got {other:?}"),
    }
    assert!(matches!(
        recv_after_wait(Waited::<i64>::Disconnected),
        Some(RecvOutcome::Disconnected)
    ));
}

#[test]
fn test_recv_item_wins_over_cancel() {
    match recv_after_poll(Poll::Item(5i64), true) {
        RecvStep::Done(RecvOutcome::Received(5)) => {}
        other => panic!("an item that is there is delivered, got {other:?}"),
    }
}

#[test]
fn test_recv_cb_delivers_value() {
    let step = recv_after_poll(Poll::Item(StreamItem::Value(SendableValue::Integer(42))), false);
    match step {
        RecvStep::Done(RecvOutcome::Received(StreamItem::Value(SendableValue::Integer(n)))) => {
            assert_eq!(n, 42)
        }
        _ => panic!("expected Integer(42)"),
    }
}

#[test]
fn test_recv_cb_delivers_end() {
    let step = recv_after_poll(Poll::Item(StreamItem::End), false);
    assert!(matches!(step, RecvStep::Done(RecvOutcome::Received(StreamItem::End))));
}

#[test]
fn test_recv_cb_delivers_error() {
    match recv_after_poll(Poll::Item(StreamItem::Error("boom".into())), false) {
        RecvStep::Done(RecvOutcome::Received(StreamItem::Error(msg))) => assert_eq!(msg, "boom"),
        _ => panic!("expected Error"),
    }
}

#[test]
fn test_recv_cb_handles_disconnect() {
    assert!(matches!(
        recv_after_poll(Poll::<StreamItem>::Disconnected, false),
        RecvStep::Done(RecvOutcome::Disconnected)
    ));
}

// ===== consuming =====

#[test]
fn test_next_gvl_release_delivers_value() {
    match stream_next(RecvOutcome::Received(StreamItem::Value(SendableValue::Integer(42)))) {
        Some(Ok(SendableValue::Integer(42))) => {}
        other => panic!("expected Some(Ok(42)), got {other:?}"),
    }
}

#[test]
fn test_next_gvl_release_returns_none_on_end() {
    assert!(stream_next(RecvOutcome::Received(StreamItem::End)).is_none());
}

#[test]
fn test_next_gvl_release_returns_none_on_disconnect() {
    assert!(stream_next(RecvOutcome::Disconnected).is_none());
    assert!(stream_next(RecvOutcome::Cancelled).is_none());
}

#[test]
fn test_next_gvl_release_propagates_error() {
    match stream_next(RecvOutcome::Received(StreamItem::Error("stream failed".into()))) {
        Some(Err(e)) => {
            assert_eq!(e.class, RubyErrorClass::RuntimeError);
            assert_eq!(e.message, "stream failed");
        }
        other => panic!("expected an error, got {other:?}"),
    }
}

#[test]
fn test_fiber_step_decisions() {
    assert!(matches!(
        fiber_step(Poll::Item(StreamItem::Value(SendableValue::Nil))),
        FiberStep::Yield(SendableValue::Nil)
    ));
    match fiber_step(Poll::Item(StreamItem::Error("bad".into()))) {
        FiberStep::Fail(e) => {
            assert_eq!(e.class, RubyErrorClass::RuntimeError);
            assert_eq!(e.message, "bad");
        }
        other => panic!("expected Fail, got {other:?}"),
    }
    assert!(matches!(fiber_step(Poll::Item(StreamItem::End)), FiberStep::Finish));
    assert!(matches!(fiber_step(Poll::Empty), FiberStep::Wait));
    assert!(matches!(fiber_step(Poll::Disconnected), FiberStep::Finish));
}

#[test]
fn test_value_fast_path_already_ready() {
    match future_value(RecvOutcome::Received(Ok(SendableValue::Integer(42)))) {
        Ok(SendableValue::Integer(42)) => {}
        other => panic!("expected 42, got {other:?}"),
    }
}

#[test]
fn test_value_fast_path_error() {
    match future_value(RecvOutcome::Received(Err("coroutine failed".into()))) {
        Err(e) => {
            assert_eq!(e.class, RubyErrorClass::RuntimeError);
            assert_eq!(e.message, "coroutine failed");
        }
        other => panic!("expected an error, got {other:?}"),
    }
}

#[test]
fn test_future_value_after_the_channel_closed() {
    let first = future_value(RecvOutcome::Received(Ok(SendableValue::Bool(true))));
    assert!(matches!(first, Ok(SendableValue::Bool(true))));
    // The one result was taken: the channel is disconnected now.
    match future_value(RecvOutcome::Disconnected) {
        Err(e) => assert_eq!(e.message, "Future cancelled or worker failed"),
        other => panic!("expected an error, got {other:?}"),
    }
}

// ===== conversion =====

#[test]
fn test_python_to_sendable_all_kinds() {
    let v = PyValue::List(vec![
        PyValue::PyNone,
        PyValue::Bool(true),
        PyValue::Int(Some(7)),
        PyValue::Int(None),
        PyValue::Float(2.5f64.to_bits()),
        PyValue::Str(Some("hi".into())),
        PyValue::Tuple(vec![PyValue::Int(Some(1))]),
        PyValue::Dict(vec![(PyValue::Str(Some("k".into())), PyValue::Bool(false))]),
    ]);
    match python_to_sendable(&v).unwrap() {
        SendableValue::List(items) => {
            assert_eq!(items.len(), 8);
            assert!(matches!(items[0], SendableValue::Nil));
            assert!(matches!(items[1], SendableValue::Bool(true)));
            assert!(matches!(items[2], SendableValue::Integer(7)));
            assert!(matches!(items[3], SendableValue::Integer(-1)));
            match items[4] {
                SendableValue::Float(bits) => assert_eq!(f64::from_bits(bits), 2.5),
                _ => panic!("expected a float"),
            }
            match &items[5] {
                SendableValue::Str(s) => assert_eq!(s, "hi"),
                _ => panic!("expected a string"),
            }
            match &items[6] {
                SendableValue::List(inner) => assert!(matches!(inner[0], SendableValue::Integer(1))),
                _ => panic!("a tuple becomes a list"),
            }
            match &items[7] {
                SendableValue::Dict(pairs) => {
                    assert_eq!(pairs.len(), 1);
                    assert!(matches!(&pairs[0].0, SendableValue::Str(k) if k == "k"));
                    assert!(matches!(pairs[0].1, SendableValue::Bool(false)));
                }
                _ => panic!("expected a dict"),
            }
        }
        other => panic!("expected a list, got {other:?}"),
    }
}

#[test]
fn test_python_to_sendable_errors() {
    assert_eq!(
        python_to_sendable(&PyValue::Other).unwrap_err(),
        "Cannot convert Python value to Ruby"
    );
    let nested = PyValue::Dict(vec![(PyValue::Int(Some(1)), PyValue::Str(None))]);
    assert_eq!(python_to_sendable(&nested).unwrap_err(), "Cannot decode Python string as UTF-8");
}

#[test]
fn test_driver_setup_goes_through_every_step() {
    let mut step = SetupStep::CheckGenerator;
    let mut seen = vec![step];
    loop {
        match setup_after(step, SetupResult::Found) {
            SetupDecision::Next(n) => {
                step = n;
                seen.push(n);
            }
            SetupDecision::Ready => break,
            SetupDecision::Fail(item) => panic!("unexpected failure {item:?}"),
        }
    }
    assert_eq!(
        seen,
        vec![
            SetupStep::CheckGenerator,
            SetupStep::ImportAsyncio,
            SetupStep::GetNewEventLoop,
            SetupStep::CreateEventLoop,
            SetupStep::GetRunUntilComplete,
            SetupStep::GetAnext,
        ]
    );
}

#[test]
fn test_driver_setup_failures() {
    let msg = |step, result| match setup_after(step, result) {
        SetupDecision::Fail(StreamItem::Error(m)) => m,
        other => panic!("expected an error item, got {other:?}"),
    };
    assert_eq!(msg(SetupStep::CheckGenerator, SetupResult::Missing), "Async generator is null");
    assert_eq!(msg(SetupStep::ImportAsyncio, SetupResult::Missing), "Failed to import asyncio");
    assert_eq!(
        msg(SetupStep::ImportAsyncio, SetupResult::Raised("ModuleNotFoundError: asyncio".into())),
        "ModuleNotFoundError: asyncio"
    );
    assert_eq!(msg(SetupStep::GetNewEventLoop, SetupResult::Missing), "Failed to get asyncio.new_event_loop");
    assert_eq!(msg(SetupStep::CreateEventLoop, SetupResult::Missing), "Failed to create event loop");
    assert_eq!(
        msg(SetupStep::GetRunUntilComplete, SetupResult::Missing),
        "Failed to get event_loop.run_until_complete"
    );
    assert_eq!(msg(SetupStep::GetAnext, SetupResult::Raised("x".into())), "Failed to get __anext__ method");
}
