use rubyx::eval::{
    asyncio_failure_message, eval_after_run, eval_after_split, eval_null_error, eval_start,
    execution_error, split_last_expr, EvalAction, ExprSpan, EvalPhase, InputMode, RunOutcome,
};
use rubyx::exception::{PythonException, RubyErrorClass};

fn syntax_error() -> PythonException {
    PythonException::SyntaxError {
        message: "invalid syntax".into(),
        filename: "<string>".into(),
        line: 1,
        offset: 1,
    }
}

fn name_error() -> PythonException {
    PythonException::Exception {
        kind: "NameError".into(),
        message: "name 'x' is not defined".into(),
        traceback: None,
    }
}

fn expect_run(a: &EvalAction, code: &str, mode: InputMode) {
    match a {
        EvalAction::Run { code: c, mode: m } => {
            assert_eq!(c, code);
            assert_eq!(*m, mode);
        }
        other => panic!("expected Run, got {other:?}"),
    }
}

fn span(lineno: i64, col_offset: i64, end_lineno: i64, end_col_offset: i64) -> Option<ExprSpan> {
    Some(ExprSpan { lineno, col_offset, end_lineno, end_col_offset })
}

#[test]
fn test_split_last_expr_basic() {
    let (body, last) = split_last_expr("x = 1\ny = 2\nx + y", span(3, 0, 3, 5)).unwrap();
    assert_eq!(body, "x = 1\ny = 2");
    assert_eq!(last, "x + y");
}

#[test]
fn test_split_last_expr_multiline_expression() {
    let code = "import math\nvalues = [1, 2]\nsum(\n  values\n)";
    let (body, last) = split_last_expr(code, span(3, 0, 5, 1)).unwrap();
    assert_eq!(body, "import math\nvalues = [1, 2]");
    assert_eq!(last, "sum(\n  values\n)");
}

#[test]
fn test_split_last_expr_preceding_lines_joined() {
    let (body, last) = split_last_expr("x = 1\ny = x + 1\ny * 2", span(3, 0, 3, 5)).unwrap();
    assert_eq!(body, "x = 1\ny = x + 1");
    assert_eq!(last, "y * 2");
    // An empty line before the expression stays a line of the body.
    let (body, last) = split_last_expr("a = 1\n\na", span(3, 0, 3, 1)).unwrap();
    assert_eq!(body, "a = 1\n");
    assert_eq!(last, "a");
}

#[test]
fn test_split_last_expr_same_line_as_a_statement() {
    let (body, last) = split_last_expr("a = 1\nb = 2; b", span(2, 7, 2, 8)).unwrap();
    assert_eq!(body, "a = 1\nb = 2; ");
    assert_eq!(last, "b");
}

#[test]
fn test_split_last_expr_on_the_first_line() {
    let (body, last) = split_last_expr("x = 1; x", span(1, 7, 1, 8)).unwrap();
    assert_eq!(body, "x = 1; ");
    assert_eq!(last, "x");
}

#[test]
fn test_split_last_expr_columns_count_utf8_bytes() {
    // 'é' takes two bytes, so the final `s` starts at byte 10, character 9.
    let (body, last) = split_last_expr("s = 'é'; s", span(1, 10, 1, 11)).unwrap();
    assert_eq!(body, "s = 'é'; ");
    assert_eq!(last, "s");
}

#[test]
fn test_split_last_expr_crlf_lines() {
    let (body, last) = split_last_expr("a = 1\r\nb = 2\r\na + b", span(3, 0, 3, 5)).unwrap();
    assert_eq!(body, "a = 1\nb = 2");
    assert_eq!(last, "a + b");
}

#[test]
fn test_split_last_expr_not_an_expression() {
    assert_eq!(
        split_last_expr("x = 1", None).unwrap_err(),
        "last statement is not an expression"
    );
}

#[test]
fn test_split_last_expr_position_outside_the_code() {
    assert_eq!(
        split_last_expr("a\nb", span(3, 0, 3, 1)).unwrap_err(),
        "expression position out of range"
    );
    assert_eq!(
        split_last_expr("ab", span(1, 0, 1, 5)).unwrap_err(),
        "expression position out of range"
    );
    assert_eq!(
        split_last_expr("ab", span(1, 2, 1, 1)).unwrap_err(),
        "expression position out of range"
    );
    // A column inside the two bytes of 'é' is no character boundary.
    assert_eq!(
        split_last_expr("é", span(1, 1, 1, 2)).unwrap_err(),
        "expression position out of range"
    );
}

#[test]
fn test_eval_expression_succeeds_at_once() {
    let (phase, action) = eval_start("1 + 1");
    expect_run(&action, "1 + 1", InputMode::Eval);
    let (phase, action) = eval_after_run(phase, RunOutcome::Object);
    assert!(matches!(phase, EvalPhase::Done));
    assert!(matches!(action, EvalAction::Finish(Ok(()))));
}

#[test]
fn test_eval_statements_then_expression() {
    let code = "x = 20\ny = 22\nx + y  \n";
    let (phase, _) = eval_start(code);
    let (phase, action) =
        eval_after_run(phase, RunOutcome::Null { exception: Some(syntax_error()) });
    match &action {
        EvalAction::SplitLastExpr { code } => assert_eq!(code, "x = 20\ny = 22\nx + y"),
        other => panic!("expected a split, got {other:?}"),
    }
    let split = split_last_expr("x = 20\ny = 22\nx + y", span(3, 0, 3, 5));
    let (phase, action) = eval_after_split(phase, split);
    expect_run(&action, "x = 20\ny = 22", InputMode::File);
    let (phase, action) = eval_after_run(phase, RunOutcome::Object);
    expect_run(&action, "x + y", InputMode::Eval);
    let (phase, action) = eval_after_run(phase, RunOutcome::Object);
    assert!(matches!(phase, EvalPhase::Done));
    assert!(matches!(action, EvalAction::Finish(Ok(()))));
}

#[test]
fn test_eval_statements_only() {
    let (phase, _) = eval_start("x = 1\n");
    let (phase, _) = eval_after_run(phase, RunOutcome::Null { exception: Some(syntax_error()) });
    let (phase, action) = eval_after_split(phase, Err("last statement is not an expression".into()));
    expect_run(&action, "x = 1", InputMode::File);
    let (phase, action) = eval_after_run(phase, RunOutcome::Object);
    assert!(matches!(phase, EvalPhase::Done));
    assert!(matches!(action, EvalAction::Finish(Ok(()))));
}

#[test]
fn test_eval_real_error_is_raised() {
    let (phase, _) = eval_start("x");
    let (_, action) = eval_after_run(phase, RunOutcome::Null { exception: Some(name_error()) });
    match action {
        EvalAction::Finish(Err(e)) => {
            assert_eq!(e.class, RubyErrorClass::RuntimeError);
            assert_eq!(e.message, "NameError: name 'x' is not defined");
        }
        other => panic!("expected an error, got {other:?}"),
    }
}

#[test]
fn test_eval_failure_without_exception() {
    let (phase, _) = eval_start("x");
    let (_, action) = eval_after_run(phase, RunOutcome::Null { exception: None });
    match action {
        EvalAction::Finish(Err(e)) => assert_eq!(e.message, "Python execution failed"),
        other => panic!("expected an error, got {other:?}"),
    }
}

#[test]
fn test_eval_refused_call() {
    let (phase, _) = eval_start("x");
    let (_, action) = eval_after_run(phase, RunOutcome::Refused("nul byte found".into()));
    match action {
        EvalAction::Finish(Err(e)) => {
            assert_eq!(e.class, RubyErrorClass::RuntimeError);
            assert_eq!(e.message, "nul byte found");
        }
        other => panic!("expected an error, got {other:?}"),
    }
}

#[test]
fn test_eval_body_failure_is_raised() {
    let (phase, _) = eval_start("a = b\na");
    let (phase, _) = eval_after_run(phase, RunOutcome::Null { exception: Some(syntax_error()) });
    let (phase, _) = eval_after_split(phase, Ok(("a = b".into(), "a".into())));
    let (phase, action) = eval_after_run(phase, RunOutcome::Null { exception: Some(name_error()) });
    assert!(matches!(phase, EvalPhase::Done));
    assert!(matches!(action, EvalAction::Finish(Err(_))));
}

#[test]
fn test_input_mode_symbols() {
    assert_eq!(InputMode::Eval.start_symbol(), 258);
    assert_eq!(InputMode::File.start_symbol(), 257);
}

#[test]
fn test_eval_null_error_variants() {
    let e = eval_null_error(true, &Some(name_error()));
    assert_eq!(e.message, "NameError: name 'x' is not defined");
    let e = eval_null_error(true, &None);
    assert_eq!(e.message, "Python eval failed");
    let e = eval_null_error(false, &None);
    assert_eq!(e.message, "Python eval returned null");
    assert_eq!(e.class, RubyErrorClass::RuntimeError);
}

#[test]
fn test_execution_error_and_asyncio_messages() {
    assert_eq!(execution_error(&None).message, "Python execution failed");
    assert_eq!(execution_error(&Some(syntax_error())).class, RubyErrorClass::SyntaxError);
    assert_eq!(asyncio_failure_message(&None), "Python async call failed");
    assert_eq!(
        asyncio_failure_message(&Some(name_error())),
        "NameError: name 'x' is not defined"
    );
}
