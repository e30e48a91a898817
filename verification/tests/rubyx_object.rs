use rubyx::exception::{error_or, PythonException, RubyErrorClass};
use rubyx::python_ffi::PyGILState;
use rubyx::rubyx_object::{
    convert_args, is_implicit_conversion, kwargs_key_error, plan_attribute, plan_inject_globals,
    plan_kwargs, plan_method_missing, plan_respond_to, ruby_to_python, to_ruby, to_s_text,
    AttrPlan, MethodPlan, PyArgument, RubyValue,
};
use rubyx::test_helpers::{skip_if_no_python, GilGuard};
use rubyx::value::{PyValue, SendableValue};

fn expect_fail(p: MethodPlan, class: RubyErrorClass, message: &str) {
    match p {
        MethodPlan::Fail(e) => {
            assert_eq!(e.class, class);
            assert_eq!(e.message, message);
        }
        other => panic!("expected a failure, got {other:?}"),
    }
}

#[test]
fn test_method_missing_with_no_args_returns_error() {
    expect_fail(plan_method_missing(0, None), RubyErrorClass::ArgumentError, "No method name given");
}

#[test]
fn test_method_missing_rejects_other_name_types() {
    expect_fail(
        plan_method_missing(1, None),
        RubyErrorClass::TypeError,
        "method_missing expects Symbol/String method name",
    );
}

#[test]
fn test_method_missing_guards_to_ary() {
    expect_fail(
        plan_method_missing(1, Some("to_ary".into())),
        RubyErrorClass::NoMethodError,
        "undefined method 'to_ary' for RubyxObject",
    );
}

#[test]
fn test_method_missing_guards_to_str() {
    expect_fail(
        plan_method_missing(1, Some("to_str".into())),
        RubyErrorClass::NoMethodError,
        "undefined method 'to_str' for RubyxObject",
    );
}

#[test]
fn test_method_missing_guards_to_hash() {
    expect_fail(
        plan_method_missing(1, Some("to_hash".into())),
        RubyErrorClass::NoMethodError,
        "undefined method 'to_hash' for RubyxObject",
    );
}

#[test]
fn test_method_missing_guards_to_int() {
    expect_fail(
        plan_method_missing(1, Some("to_int".into())),
        RubyErrorClass::NoMethodError,
        "undefined method 'to_int' for RubyxObject",
    );
}

#[test]
fn test_method_missing_allows_regular_methods() {
    match plan_method_missing(1, Some("upper".into())) {
        MethodPlan::Lookup { name } => assert_eq!(name, "upper"),
        other => panic!("expected a lookup, got {other:?}"),
    }
    assert!(!is_implicit_conversion("to_s"));
    assert!(is_implicit_conversion("to_regexp"));
}

#[test]
fn test_method_missing_setter() {
    match plan_method_missing(2, Some("foo=".into())) {
        MethodPlan::SetAttr { attr } => assert_eq!(attr, "foo"),
        other => panic!("expected a setter, got {other:?}"),
    }
    expect_fail(
        plan_method_missing(3, Some("foo=".into())),
        RubyErrorClass::ArgumentError,
        "Setter required exactly one value",
    );
}

#[test]
fn test_method_missing_returns_error_for_unknown_member() {
    match plan_attribute("definitely_missing", false, false, 1, false) {
        AttrPlan::Fail(e) => {
            assert_eq!(e.class, RubyErrorClass::Exception);
            assert_eq!(e.message, "undefined method `definitely_missing` for a Python object");
        }
        other => panic!("expected a failure, got {other:?}"),
    }
}

#[test]
fn test_method_missing_reads_non_callable_attribute() {
    assert!(matches!(plan_attribute("version", true, false, 1, false), AttrPlan::Read));
}

#[test]
fn test_method_missing_calls_python_callable() {
    // json.loads("[1, 2, 3]"): one positional argument
    assert!(matches!(
        plan_attribute("loads", true, true, 2, false),
        AttrPlan::Call { positional: 1, kwargs: false }
    ));
    // callable asked for without arguments is called
    assert!(matches!(
        plan_attribute("upper", true, true, 1, false),
        AttrPlan::Call { positional: 0, kwargs: false }
    ));
    // obj.dumps(data, indent: 2): trailing hash is keyword arguments
    assert!(matches!(
        plan_attribute("dumps", true, true, 3, true),
        AttrPlan::Call { positional: 1, kwargs: true }
    ));
}

#[test]
fn test_respond_to_missing_empty_args_errors() {
    match plan_respond_to(0, None) {
        Err(e) => {
            assert_eq!(e.class, RubyErrorClass::ArgumentError);
            assert_eq!(e.message, "No method name given");
        }
        Ok(_) => panic!("expected an error"),
    }
}

#[test]
fn test_respond_to_missing_with_string_arg() {
    assert_eq!(plan_respond_to(1, Some("path".into())).unwrap(), "path");
    match plan_respond_to(1, Some("a\0b".into())) {
        Err(e) => assert_eq!(e.message, "Invalid method name"),
        Ok(_) => panic!("a NUL byte cannot be in a C string"),
    }
    assert!(plan_respond_to(1, None).is_err());
}

#[test]
fn test_kwargs_key_error_message() {
    let e = kwargs_key_error();
    assert_eq!(e.class, RubyErrorClass::TypeError);
    assert_eq!(e.message, "kwargs keys must be String or Symbol");
}

#[test]
fn test_error_or_fallback() {
    let e = error_or(&None, "Failed to set item");
    assert_eq!(e.class, RubyErrorClass::RuntimeError);
    assert_eq!(e.message, "Failed to set item");
    let exc = PythonException::Exception {
        kind: "KeyError".into(),
        message: "'missing'".into(),
        traceback: None,
    };
    assert_eq!(error_or(&Some(exc), "unused").message, "KeyError: 'missing'");
}

#[test]
fn test_to_ruby_converts_int() {
    assert!(matches!(to_ruby(&PyValue::Int(Some(42))), Ok(SendableValue::Integer(42))));
}

#[test]
fn test_to_ruby_converts_string() {
    match to_ruby(&PyValue::Str(Some("hello".into()))) {
        Ok(SendableValue::Str(s)) => assert_eq!(s, "hello"),
        other => panic!("expected a string, got {other:?}"),
    }
}

#[test]
fn test_to_ruby_converts_float() {
    match to_ruby(&PyValue::Float(3.5f64.to_bits())) {
        Ok(SendableValue::Float(bits)) => assert_eq!(f64::from_bits(bits), 3.5),
        other => panic!("expected a float, got {other:?}"),
    }
}

#[test]
fn test_to_ruby_converts_bool() {
    assert!(matches!(to_ruby(&PyValue::Bool(true)), Ok(SendableValue::Bool(true))));
}

#[test]
fn test_to_ruby_converts_none_to_nil() {
    assert!(matches!(to_ruby(&PyValue::PyNone), Ok(SendableValue::Nil)));
}

#[test]
fn test_to_ruby_errors_for_module() {
    match to_ruby(&PyValue::Other) {
        Err(e) => {
            assert_eq!(e.class, RubyErrorClass::RuntimeError);
            assert_eq!(e.message, "Cannot convert Python value to Ruby");
        }
        other => panic!("expected an error, got {other:?}"),
    }
}

#[test]
fn test_ruby_to_python_primitives() {
    assert!(matches!(ruby_to_python(&RubyValue::Nil), Ok(PyArgument::New(PyValue::PyNone))));
    assert!(matches!(ruby_to_python(&RubyValue::True), Ok(PyArgument::New(PyValue::Bool(true)))));
    assert!(matches!(ruby_to_python(&RubyValue::False), Ok(PyArgument::New(PyValue::Bool(false)))));
    assert!(matches!(
        ruby_to_python(&RubyValue::Integer(42)),
        Ok(PyArgument::New(PyValue::Int(Some(42))))
    ));
    match ruby_to_python(&RubyValue::Float(3.5f64.to_bits())) {
        Ok(PyArgument::New(PyValue::Float(bits))) => assert_eq!(f64::from_bits(bits), 3.5),
        other => panic!("expected a float, got {other:?}"),
    }
    match ruby_to_python(&RubyValue::Str("hello".into())) {
        Ok(PyArgument::New(PyValue::Str(Some(s)))) => assert_eq!(s, "hello"),
        other => panic!("expected a string, got {other:?}"),
    }
    assert!(matches!(ruby_to_python(&RubyValue::Wrapped(5)), Ok(PyArgument::Wrapped(5))));
    match ruby_to_python(&RubyValue::Other) {
        Err(e) => {
            assert_eq!(e.class, RubyErrorClass::TypeError);
            assert_eq!(e.message, "Cannot convert Ruby value to Python");
        }
        other => panic!("expected an error, got {other:?}"),
    }
}

#[test]
fn test_gil_guard_holds_api_and_state() {
    let api = 7u32;
    let guard = GilGuard::new(&api, PyGILState::Unlocked);
    assert_eq!(*guard.api(), 7);
    assert_eq!(guard.gil_state(), PyGILState::Unlocked);
}

#[test]
fn test_skip_if_no_python() {
    let none: Option<&u32> = None;
    let mut called = false;
    assert!(skip_if_no_python(none, |_| {
        called = true;
        PyGILState::Locked
    })
    .is_none());
    assert!(!called);
    let api = 3u32;
    let guard = skip_if_no_python(Some(&api), |_| PyGILState::Locked).expect("python is there");
    assert_eq!(*guard.api(), 3);
    assert_eq!(guard.gil_state(), PyGILState::Locked);
}

#[test]
fn test_gil_state_raw_values() {
    assert_eq!(PyGILState::Locked.to_raw(), 0);
    assert_eq!(PyGILState::Unlocked.to_raw(), 1);
    assert_eq!(PyGILState::from_raw(0), Some(PyGILState::Locked));
    assert_eq!(PyGILState::from_raw(1), Some(PyGILState::Unlocked));
    assert_eq!(PyGILState::from_raw(2), None);
}

#[test]
fn test_convert_args_in_order() {
    let out = convert_args(vec![RubyValue::Integer(1), RubyValue::Str("a".into()), RubyValue::Wrapped(0)])
        .expect("all convertible");
    assert_eq!(out.len(), 3);
    assert!(matches!(out[0], PyArgument::New(PyValue::Int(Some(1)))));
    assert!(matches!(&out[1], PyArgument::New(PyValue::Str(Some(s))) if s == "a"));
    assert!(matches!(out[2], PyArgument::Wrapped(0)));
    let err = convert_args(vec![RubyValue::Nil, RubyValue::Other]).unwrap_err();
    assert_eq!(err.class, RubyErrorClass::TypeError);
    assert!(convert_args(vec![]).unwrap().is_empty());
}

#[test]
fn test_plan_kwargs_stops_at_first_bad_entry() {
    let plan = plan_kwargs(vec![
        (Some("indent".into()), RubyValue::Integer(2)),
        (None, RubyValue::Integer(3)),
        (Some("late".into()), RubyValue::Integer(4)),
    ]);
    assert_eq!(plan.entries.len(), 1);
    assert_eq!(plan.entries[0].0, "indent");
    let e = plan.error.expect("bad key");
    assert_eq!(e.message, "kwargs keys must be String or Symbol");

    let plan = plan_kwargs(vec![(Some("x".into()), RubyValue::Other)]);
    assert!(plan.entries.is_empty());
    assert_eq!(plan.error.unwrap().message, "Cannot convert Ruby value to Python");

    let plan = plan_kwargs(vec![(Some("a".into()), RubyValue::True)]);
    assert_eq!(plan.entries.len(), 1);
    assert!(plan.error.is_none());
}

#[test]
fn test_plan_inject_globals() {
    let plan = plan_inject_globals(vec![
        (RubyValue::Str("x".into()), RubyValue::Integer(10)),
        (RubyValue::Str("y".into()), RubyValue::Integer(20)),
    ]);
    assert!(plan.error.is_none());
    assert_eq!(plan.entries.len(), 2);
    assert!(matches!(plan.entries[1].1, PyArgument::New(PyValue::Int(Some(20)))));

    let plan = plan_inject_globals(vec![
        (RubyValue::Str("x".into()), RubyValue::Integer(10)),
        (RubyValue::Other, RubyValue::Integer(20)),
        (RubyValue::Str("z".into()), RubyValue::Integer(30)),
    ]);
    assert_eq!(plan.entries.len(), 1);
    assert_eq!(plan.error.unwrap().class, RubyErrorClass::TypeError);
}

#[test]
fn test_to_s_text() {
    assert_eq!(to_s_text(Some(Some("42".into())), 0x10), "42");
    assert_eq!(to_s_text(Some(None), 0x10), "");
    assert_eq!(to_s_text(None, 0x7f3a00c0), "#<RubyxObject:0x7f3a00c0>");
    assert_eq!(to_s_text(None, 0), "#<RubyxObject:0x0>");
    assert_eq!(to_s_text(None, 0xdeadbeef), "#<RubyxObject:0xdeadbeef>");
}

#[test]
fn test_ruby_to_python_symbols_and_arrays() {
    match ruby_to_python(&RubyValue::Symbol("name".into())) {
        Ok(PyArgument::New(PyValue::Str(Some(s)))) => assert_eq!(s, "name"),
        other => panic!("expected a str, got {other:?}"),
    }
    let arr = RubyValue::Array(vec![
        RubyValue::Integer(1),
        RubyValue::Array(vec![RubyValue::Str("x".into())]),
        RubyValue::Wrapped(2),
    ]);
    match ruby_to_python(&arr) {
        Ok(PyArgument::List(items)) => {
            assert_eq!(items.len(), 3);
            assert!(matches!(items[0], PyArgument::New(PyValue::Int(Some(1)))));
            match &items[1] {
                PyArgument::List(inner) => {
                    assert!(matches!(&inner[0], PyArgument::New(PyValue::Str(Some(s))) if s == "x"))
                }
                other => panic!("expected a nested list, got {other:?}"),
            }
            assert!(matches!(items[2], PyArgument::Wrapped(2)));
        }
        other => panic!("expected a list, got {other:?}"),
    }
    assert!(matches!(ruby_to_python(&RubyValue::Array(vec![])), Ok(PyArgument::List(v)) if v.is_empty()));
    let bad = RubyValue::Array(vec![RubyValue::Nil, RubyValue::Array(vec![RubyValue::Other])]);
    match ruby_to_python(&bad) {
        Err(e) => {
            assert_eq!(e.class, RubyErrorClass::TypeError);
            assert_eq!(e.message, "Cannot convert Ruby value to Python");
        }
        other => panic!("expected an error, got {other:?}"),
    }
}

#[test]
fn test_plan_inject_globals_symbol_keys() {
    // {:a => 5, :b => 7}: symbol keys become Python str names.
    let plan = plan_inject_globals(vec![
        (RubyValue::Symbol("a".into()), RubyValue::Integer(5)),
        (RubyValue::Symbol("b".into()), RubyValue::Integer(7)),
    ]);
    assert!(plan.error.is_none());
    assert_eq!(plan.entries.len(), 2);
    assert!(matches!(&plan.entries[0].0, PyArgument::New(PyValue::Str(Some(s))) if s == "a"));
    assert!(matches!(plan.entries[0].1, PyArgument::New(PyValue::Int(Some(5)))));
    assert!(matches!(&plan.entries[1].0, PyArgument::New(PyValue::Str(Some(s))) if s == "b"));
    assert!(matches!(plan.entries[1].1, PyArgument::New(PyValue::Int(Some(7)))));
    // {:items => [1, 2, 3]}
    let plan = plan_inject_globals(vec![(
        RubyValue::Symbol("items".into()),
        RubyValue::Array(vec![RubyValue::Integer(1), RubyValue::Integer(2), RubyValue::Integer(3)]),
    )]);
    assert!(plan.error.is_none());
    assert!(matches!(&plan.entries[0].1, PyArgument::List(v) if v.len() == 3));
}
