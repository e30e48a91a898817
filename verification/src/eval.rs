//! Evaluating a snippet of Python: the decisions taken between the calls
//! into the interpreter, and the splitting of a snippet whose last
//! statement is an expression.
use vstd::prelude::*;
use crate::exception::{
    display_spec, error_or, error_or_spec, is_error, is_error_for, PythonException, RubyError,
    RubyErrorClass,
};
use crate::text::{
    chars_of, join_lines, join_range, lines, lines_from, push_char, push_str, split_lines, strip_cr,
    string_from_range, trim_end, trim_end_spec, views,
};

verus! {

/// How the interpreter is asked to compile a snippet.
#[derive(Clone, Copy, Debug, PartialEq, Eq, Structural)]
pub enum InputMode {
    /// A single expression, whose value is returned (`Py_eval_input`).
    Eval,
    /// A sequence of statements (`Py_file_input`).
    File,
}

impl InputMode {
    /// The start-symbol constant that the C API expects.
    pub fn start_symbol(&self) -> (n: i64)
        ensures
            n == (if *self == InputMode::Eval {
                258i64
            } else {
                257i64
            }),
    {
        match self {
            InputMode::Eval => 258,
            InputMode::File => 257,
        }
    }
}

// ---------------------------------------------------------------------------
// Splitting off the last expression
// ---------------------------------------------------------------------------

/// Where the last statement of a snippet lies when it is an expression,
/// as Python's `ast` module reports it: lines are counted from 1, columns
/// are UTF-8 byte offsets within the line, and the end is exclusive.
#[derive(Clone, Copy, Debug)]
pub struct ExprSpan {
    pub lineno: i64,
    pub col_offset: i64,
    pub end_lineno: i64,
    pub end_col_offset: i64,
}

/// The number of bytes `c` takes in UTF-8.
pub open spec fn utf8_len(c: char) -> int {
    if (c as u32) < 0x80 {
        1
    } else if (c as u32) < 0x800 {
        2
    } else if (c as u32) < 0x10000 {
        3
    } else {
        4
    }
}

/// The index in `s` where line `line` begins, counting lines from the one
/// that begins at index `i`; lines end at `'\n'`.
pub open spec fn line_start_from(s: Seq<char>, i: int, line: int) -> Option<int>
    decreases s.len() - i,
{
    if line == 1 {
        Some(i)
    } else if line < 1 || i < 0 || i >= s.len() {
        None
    } else if s[i] == '\n' {
        line_start_from(s, i + 1, line - 1)
    } else {
        line_start_from(s, i + 1, line)
    }
}

/// The index in `s` that lies `col` UTF-8 bytes after index `i` without
/// leaving the line: `None` when the line ends first, or when `col` falls
/// inside a character.
pub open spec fn col_index_from(s: Seq<char>, i: int, col: int) -> Option<int>
    decreases s.len() - i,
{
    if col == 0 {
        Some(i)
    } else if col < 0 || i < 0 || i >= s.len() || s[i] == '\n' {
        None
    } else {
        col_index_from(s, i + 1, col - utf8_len(s[i]))
    }
}

/// The index in `s` of position (`line`, `col`) in Python's terms.
pub open spec fn pos_index(s: Seq<char>, line: int, col: int) -> Option<int> {
    match line_start_from(s, 0, line) {
        Some(i) => col_index_from(s, i, col),
        None => None,
    }
}

/// The statements to run before the expression, which begins at index `a`
/// on the line that begins at index `k`: the lines before that line (each
/// without a trailing `'\r'`), joined with `'\n'`; when the expression
/// does not begin its line, the part of the line before it follows, on a
/// line of its own.
pub open spec fn body_before(code: Seq<char>, k: int, a: int) -> Seq<char> {
    let pre = join_lines(lines(code.take(k)));
    let head = code.subrange(k, a);
    if head.len() == 0 {
        pre
    } else if k == 0 {
        head
    } else {
        pre + seq!['\n'] + head
    }
}

/// The two parts of `code` when its last statement is an expression at
/// `span`: the statements before the expression (see `body_before`), and
/// the expression's source. No span: the last statement is not an
/// expression. A span that does not lie in the code gives no split either.
pub open spec fn split_last_expr_spec(code: Seq<char>, span: Option<ExprSpan>) -> Result<
    (Seq<char>, Seq<char>),
    Seq<char>,
> {
    match span {
        None => Err("last statement is not an expression"@),
        Some(sp) => match line_start_from(code, 0, sp.lineno as int) {
            None => Err("expression position out of range"@),
            Some(k) => match (
                col_index_from(code, k, sp.col_offset as int),
                pos_index(code, sp.end_lineno as int, sp.end_col_offset as int),
            ) {
                (Some(a), Some(b)) => if a <= b {
                    Ok((body_before(code, k, a), code.subrange(a, b)))
                } else {
                    Err("expression position out of range"@)
                },
                _ => Err("expression position out of range"@),
            },
        },
    }
}

/// The result of splitting, taken by its views.
pub open spec fn split_view(r: Result<(String, String), String>) -> Result<
    (Seq<char>, Seq<char>),
    Seq<char>,
> {
    match r {
        Ok((a, b)) => Ok((a@, b@)),
        Err(e) => Err(e@),
    }
}

proof fn lemma_line_start_bounds(s: Seq<char>, i: int, line: int)
    requires
        0 <= i <= s.len(),
    ensures
        line_start_from(s, i, line) matches Some(j) ==> i <= j <= s.len(),
    decreases s.len() - i,
{
    if line != 1 && line >= 1 && i < s.len() {
        if s[i] == '\n' {
            lemma_line_start_bounds(s, i + 1, line - 1);
        } else {
            lemma_line_start_bounds(s, i + 1, line);
        }
    }
}

/// A line other than the first begins just after a `'\n'`.
proof fn lemma_line_start_after_newline(s: Seq<char>, i: int, line: int)
    requires
        0 <= i <= s.len(),
    ensures
        line_start_from(s, i, line) matches Some(j) ==> (line == 1 && j == i) || (line > 1 && i
            < j <= s.len() && s[j - 1] == '\n'),
    decreases s.len() - i,
{
    if line != 1 && line >= 1 && i < s.len() {
        if s[i] == '\n' {
            lemma_line_start_after_newline(s, i + 1, line - 1);
        } else {
            lemma_line_start_after_newline(s, i + 1, line);
        }
    }
}

proof fn lemma_col_index_bounds(s: Seq<char>, i: int, col: int)
    requires
        0 <= i <= s.len(),
    ensures
        col_index_from(s, i, col) matches Some(j) ==> i <= j <= s.len(),
    decreases s.len() - i,
{
    if col != 0 && col >= 0 && i < s.len() && s[i] != '\n' {
        lemma_col_index_bounds(s, i + 1, col - utf8_len(s[i]));
    }
}

/// A position in Python's terms lies within the code.
pub proof fn lemma_pos_index_bounds(s: Seq<char>, line: int, col: int)
    ensures
        pos_index(s, line, col) matches Some(j) ==> 0 <= j <= s.len(),
{
    lemma_line_start_bounds(s, 0, line);
    if let Some(i) = line_start_from(s, 0, line) {
        lemma_col_index_bounds(s, i, col);
    }
}

/// The number of bytes `c` takes in UTF-8.
fn utf8_width(c: char) -> (n: i64)
    ensures
        n == utf8_len(c),
{
    let u = c as u32;
    if u < 0x80 {
        1
    } else if u < 0x800 {
        2
    } else if u < 0x10000 {
        3
    } else {
        4
    }
}

/// The index in `v` where line `line` (counted from 1) begins.
fn line_start(v: &Vec<char>, line: i64) -> (r: Option<usize>)
    ensures
        match r {
            Some(k) => line_start_from(v@, 0, line as int) == Some(k as int),
            None => line_start_from(v@, 0, line as int) is None,
        },
{
    let mut i: usize = 0;
    let mut l: i64 = line;
    while l != 1
        invariant
            i <= v.len(),
            line_start_from(v@, i as int, l as int) == line_start_from(v@, 0, line as int),
        decreases v.len() - i,
    {
        if l < 1 || i >= v.len() {
            return None;
        }
        if v[i] == '\n' {
            l = l - 1;
        }
        i += 1;
    }
    Some(i)
}

/// The index in `v` that lies `col` UTF-8 bytes after index `k`, within the line.
fn col_index(v: &Vec<char>, k: usize, col: i64) -> (r: Option<usize>)
    requires
        k <= v.len(),
    ensures
        match r {
            Some(j) => col_index_from(v@, k as int, col as int) == Some(j as int),
            None => col_index_from(v@, k as int, col as int) is None,
        },
{
    let mut i: usize = k;
    let mut c: i64 = col;
    while c != 0
        invariant
            i <= v.len(),
            col_index_from(v@, i as int, c as int) == col_index_from(v@, k as int, col as int),
        decreases v.len() - i,
    {
        if c < 0 || i >= v.len() || v[i] == '\n' {
            return None;
        }
        c = c - utf8_width(v[i]);
        i += 1;
    }
    Some(i)
}

/// The index in `v` of position (`line`, `col`) in Python's terms.
fn position_index(v: &Vec<char>, line: i64, col: i64) -> (r: Option<usize>)
    ensures
        match r {
            Some(j) => pos_index(v@, line as int, col as int) == Some(j as int),
            None => pos_index(v@, line as int, col as int) is None,
        },
{
    proof {
        lemma_line_start_bounds(v@, 0, line as int);
    }
    match line_start(v, line) {
        None => None,
        Some(k) => col_index(v, k, col),
    }
}

/// Splits `code` where its last statement, an expression at `span` (as
/// Python's parser found it; `None` when the last statement is not an
/// expression), begins: the statements before it, to run, and the
/// expression's source, to evaluate.
pub fn split_last_expr(code: &str, span: Option<ExprSpan>) -> (r: Result<(String, String), String>)
    ensures
        split_view(r) == split_last_expr_spec(code@, span),
{
    let sp = match span {
        None => {
            return Err(String::from_str("last statement is not an expression"));
        },
        Some(sp) => sp,
    };
    let v = chars_of(code);
    proof {
        lemma_line_start_bounds(v@, 0, sp.lineno as int);
        lemma_pos_index_bounds(v@, sp.end_lineno as int, sp.end_col_offset as int);
    }
    let k = match line_start(&v, sp.lineno) {
        None => {
            return Err(String::from_str("expression position out of range"));
        },
        Some(k) => k,
    };
    proof {
        lemma_col_index_bounds(v@, k as int, sp.col_offset as int);
    }
    let a = col_index(&v, k, sp.col_offset);
    let b = position_index(&v, sp.end_lineno, sp.end_col_offset);
    match (a, b) {
        (Some(a), Some(b)) => {
            if a <= b {
                let before = string_from_range(&v, 0, k);
                let ls = split_lines(before.as_str());
                let pre = join_range(&ls, 0, ls.len());
                assert(before@ =~= v@.take(k as int));
                assert(views(ls@).subrange(0, ls.len() as int) =~= views(ls@));
                assert(pre@ == join_lines(lines(v@.take(k as int))));
                let head = string_from_range(&v, k, a);
                assert(head@.len() == a - k);
                let body = if a == k {
                    pre
                } else if k == 0 {
                    head
                } else {
                    let mut b = pre;
                    push_char(&mut b, '\n');
                    push_str(&mut b, head.as_str());
                    b
                };
                assert(body@ == body_before(v@, k as int, a as int));
                let last_expr = string_from_range(&v, a, b);
                Ok((body, last_expr))
            } else {
                Err(String::from_str("expression position out of range"))
            }
        },
        _ => Err(String::from_str("expression position out of range")),
    }
}

/// Whether `s` holds no carriage return.
pub open spec fn no_cr(s: Seq<char>) -> bool {
    forall|i: int| 0 <= i < s.len() ==> s[i] != '\r'
}

/// Joining two non-empty runs of lines is joining each and putting a
/// newline between them.
proof fn lemma_join_append(a: Seq<Seq<char>>, b: Seq<Seq<char>>)
    requires
        a.len() > 0,
        b.len() > 0,
    ensures
        join_lines(a + b) == join_lines(a) + seq!['\n'] + join_lines(b),
    decreases b.len(),
{
    if b.len() == 1 {
        assert((a + b).drop_last() =~= a);
    } else {
        assert((a + b).drop_last() =~= a + b.drop_last());
        lemma_join_append(a, b.drop_last());
        assert(join_lines(a + b) =~= join_lines(a) + seq!['\n'] + join_lines(b));
    }
}

/// Text that ends with a newline has at least one line.
proof fn lemma_lines_nonempty(rest: Seq<char>, cur: Seq<char>)
    requires
        rest.len() > 0,
        rest.last() == '\n',
    ensures
        lines_from(rest, cur).len() > 0,
    decreases rest.len(),
{
    if rest[0] != '\n' {
        lemma_lines_nonempty(rest.drop_first(), cur.push(rest[0]));
    }
}

/// Without carriage returns, the lines of newline-terminated text, joined
/// with newlines and followed by one, give the text back.
proof fn lemma_lines_rejoin(rest: Seq<char>, cur: Seq<char>)
    requires
        rest.len() > 0,
        rest.last() == '\n',
        no_cr(rest),
        no_cr(cur),
    ensures
        join_lines(lines_from(rest, cur)) + seq!['\n'] == cur + rest,
    decreases rest.len(),
{
    let tail = rest.drop_first();
    if rest[0] == '\n' {
        if cur.len() > 0 {
            assert(cur.last() == cur[cur.len() - 1]);
        }
        assert(strip_cr(cur) == cur);
        if tail.len() == 0 {
            assert(lines_from(tail, seq![]) =~= Seq::<Seq<char>>::empty());
            assert(lines_from(rest, cur) =~= seq![cur]);
            assert(cur + rest =~= cur + seq!['\n']);
        } else {
            assert(tail.last() == rest.last());
            assert(no_cr(tail)) by {
                assert forall|i: int| 0 <= i < tail.len() implies tail[i] != '\r' by {
                    assert(tail[i] == rest[i + 1]);
                }
            }
            assert(no_cr(Seq::<char>::empty()));
            lemma_lines_rejoin(tail, seq![]);
            lemma_lines_nonempty(tail, seq![]);
            let x = lines_from(tail, seq![]);
            lemma_join_append(seq![cur], x);
            assert(join_lines(seq![cur]) == cur);
            assert(Seq::<char>::empty() + tail =~= tail);
            assert(cur + rest =~= cur + seq!['\n'] + tail);
        }
    } else {
        assert(tail.last() == rest.last());
        assert(no_cr(tail)) by {
            assert forall|i: int| 0 <= i < tail.len() implies tail[i] != '\r' by {
                assert(tail[i] == rest[i + 1]);
            }
        }
        let c2 = cur.push(rest[0]);
        assert(no_cr(c2)) by {
            assert forall|i: int| 0 <= i < c2.len() implies c2[i] != '\r' by {
                if i < cur.len() {
                    assert(c2[i] == cur[i]);
                } else {
                    assert(c2[i] == rest[0]);
                }
            }
        }
        lemma_lines_rejoin(tail, c2);
        assert(c2 + tail =~= cur + rest);
    }
}

/// When the expression begins a line after the first and the code holds no
/// carriage return, nothing is lost or added: the statements, a newline and
/// the expression's source are the code up to the expression's end.
pub proof fn lemma_split_last_expr_partitions(code: Seq<char>, span: ExprSpan)
    requires
        split_last_expr_spec(code, Some(span)) is Ok,
        span.lineno > 1,
        span.col_offset == 0,
        no_cr(code),
    ensures
        split_last_expr_spec(code, Some(span)) matches Ok((body, last_expr)) && body + seq!['\n']
            + last_expr == code.take((body.len() + 1 + last_expr.len()) as int),
{
    lemma_line_start_after_newline(code, 0, span.lineno as int);
    lemma_pos_index_bounds(code, span.end_lineno as int, span.end_col_offset as int);
    let k = line_start_from(code, 0, span.lineno as int)->0;
    let b = pos_index(code, span.end_lineno as int, span.end_col_offset as int)->0;
    let pre = code.take(k);
    assert(pre.last() == '\n');
    assert(no_cr(pre)) by {
        assert forall|i: int| 0 <= i < pre.len() implies pre[i] != '\r' by {
            assert(pre[i] == code[i]);
        }
    }
    assert(no_cr(Seq::<char>::empty()));
    lemma_lines_rejoin(pre, seq![]);
    assert(Seq::<char>::empty() + pre =~= pre);
    assert(code.subrange(k, k).len() == 0);
    assert(pre + code.subrange(k, b) =~= code.take(b));
}

// ---------------------------------------------------------------------------
// Errors after a failed call
// ---------------------------------------------------------------------------

/// The Ruby error for a failed execution: the one the pending Python
/// exception becomes, or a `RuntimeError` saying the execution failed.
pub open spec fn execution_error_spec(r: RubyError, exc: Option<PythonException>) -> bool {
    error_or_spec(r, exc, "Python execution failed"@)
}

/// The Ruby error for a failed execution.
pub fn execution_error(exc: &Option<PythonException>) -> (r: RubyError)
    ensures
        execution_error_spec(r, *exc),
{
    error_or(exc, "Python execution failed")
}

/// The Ruby error when evaluating the code that should produce a coroutine
/// returned null: the pending Python exception's error, or a `RuntimeError`
/// saying the evaluation failed when an error was flagged but none could
/// be fetched, or that it returned null when no error was flagged.
pub open spec fn eval_null_error_spec(r: RubyError, has_error: bool, exc: Option<PythonException>) -> bool {
    if has_error {
        match exc {
            Some(e) => is_error_for(r, e),
            None => is_error(r, RubyErrorClass::RuntimeError, "Python eval failed"@),
        }
    } else {
        is_error(r, RubyErrorClass::RuntimeError, "Python eval returned null"@)
    }
}

/// The Ruby error when evaluating the coroutine expression returned null.
pub fn eval_null_error(has_error: bool, exc: &Option<PythonException>) -> (r: RubyError)
    ensures
        eval_null_error_spec(r, has_error, *exc),
{
    if has_error {
        match exc {
            Some(e) => RubyError::from_python_exception(e),
            None => RubyError::new(RubyErrorClass::RuntimeError, "Python eval failed"),
        }
    } else {
        RubyError::new(RubyErrorClass::RuntimeError, "Python eval returned null")
    }
}

/// The message when `asyncio.run` failed: the exception's short form, or
/// a fixed text when no exception could be fetched.
pub open spec fn asyncio_failure_spec(exc: Option<PythonException>) -> Seq<char> {
    match exc {
        Some(e) => display_spec(e),
        None => "Python async call failed"@,
    }
}

/// The message when `asyncio.run` failed.
pub fn asyncio_failure_message(exc: &Option<PythonException>) -> (m: String)
    ensures
        m@ == asyncio_failure_spec(*exc),
{
    match exc {
        Some(e) => e.to_string(),
        None => String::from_str("Python async call failed"),
    }
}

// ---------------------------------------------------------------------------
// The evaluation machine
// ---------------------------------------------------------------------------

/// What a call of `run_string` gave back.
#[derive(Clone, Debug)]
pub enum RunOutcome {
    /// A (non-null) object.
    Object,
    /// Null, with the pending Python exception when one was set.
    Null { exception: Option<PythonException> },
    /// The call was refused before reaching Python, with this message.
    Refused(String),
}

/// Where an evaluation stands.
#[derive(Clone, Debug)]
pub enum EvalPhase {
    /// The whole snippet is being evaluated as an expression.
    Expr { code: String },
    /// Python's parser is being asked where the last expression lies in
    /// the (right-trimmed) snippet.
    Split { code: String },
    /// The statements before the last expression are running.
    Body { last_expr: String },
    /// The last expression is being evaluated.
    LastExpr,
    /// The whole (right-trimmed) snippet is running as statements.
    Whole,
    /// Finished.
    Done,
}

/// What the caller does next.
#[derive(Debug)]
pub enum EvalAction {
    /// Call `run_string` on `code` in `mode`, with the evaluation's globals.
    Run { code: String, mode: InputMode },
    /// Ask Python's parser where the last statement of `code` lies if it
    /// is an expression, then call `split_last_expr`.
    SplitLastExpr { code: String },
    /// Stop: on `Ok`, the object returned by the last call is the result;
    /// on `Err`, raise the error.
    Finish(Result<(), RubyError>),
}

/// How many more calls into Python an evaluation in `phase` can still make.
pub open spec fn rank(phase: EvalPhase) -> nat {
    match phase {
        EvalPhase::Expr { .. } => 4,
        EvalPhase::Split { .. } => 3,
        EvalPhase::Body { .. } => 2,
        EvalPhase::Whole => 1,
        EvalPhase::LastExpr => 1,
        EvalPhase::Done => 0,
    }
}

/// Whether `a` asks to run `code` in `mode`.
pub open spec fn is_run(a: EvalAction, code: Seq<char>, mode: InputMode) -> bool {
    a matches EvalAction::Run { code: c, mode: m } && c@ == code && m == mode
}

/// Whether `a` finishes with success.
pub open spec fn is_finish_ok(a: EvalAction) -> bool {
    a matches EvalAction::Finish(Ok(()))
}

/// Whether `a` finishes with an error satisfying `p`.
pub open spec fn is_finish_err(a: EvalAction, p: spec_fn(RubyError) -> bool) -> bool {
    a matches EvalAction::Finish(Err(r)) && p(r)
}

/// Whether the phase waits for the result of a `run_string` call.
pub open spec fn awaits_run(phase: EvalPhase) -> bool {
    phase matches EvalPhase::Expr { .. } || phase matches EvalPhase::Body { .. } || phase
        matches EvalPhase::LastExpr || phase matches EvalPhase::Whole
}

/// The evaluation's first step: evaluate the whole snippet as an expression.
pub fn eval_start(code: &str) -> (r: (EvalPhase, EvalAction))
    ensures
        r.0 matches EvalPhase::Expr { code: c } && c@ == code@,
        is_run(r.1, code@, InputMode::Eval),
{
    (
        EvalPhase::Expr { code: String::from_str(code) },
        EvalAction::Run { code: String::from_str(code), mode: InputMode::Eval },
    )
}

/// The step after a `run_string` call. An object from the expression or
/// from the last expression is the result; an expression that fails with
/// a `SyntaxError` sends the right-trimmed snippet to the parser; other
/// failures end the evaluation with their error; after the statements
/// before the last expression ran, that expression is evaluated.
pub fn eval_after_run(phase: EvalPhase, outcome: RunOutcome) -> (r: (EvalPhase, EvalAction))
    requires
        awaits_run(phase),
    ensures
        rank(r.0) < rank(phase),
        (r.0 matches EvalPhase::Done) <==> (r.1 matches EvalAction::Finish(_)),
        match (phase, outcome) {
            (_, RunOutcome::Refused(e)) => is_finish_err(
                r.1,
                |x: RubyError| is_error(x, RubyErrorClass::RuntimeError, e@),
            ),
            (EvalPhase::Expr { code }, RunOutcome::Object) => is_finish_ok(r.1),
            (EvalPhase::Expr { code }, RunOutcome::Null { exception }) => match exception {
                Some(PythonException::SyntaxError { .. }) => {
                    &&& r.0 matches EvalPhase::Split { code: c } && c@ == trim_end_spec(code@)
                    &&& r.1 matches EvalAction::SplitLastExpr { code: c } && c@ == trim_end_spec(
                        code@,
                    )
                },
                _ => is_finish_err(r.1, |x: RubyError| execution_error_spec(x, exception)),
            },
            (EvalPhase::Body { last_expr }, RunOutcome::Object) => {
                &&& r.0 matches EvalPhase::LastExpr
                &&& is_run(r.1, last_expr@, InputMode::Eval)
            },
            (_, RunOutcome::Object) => is_finish_ok(r.1),
            (_, RunOutcome::Null { exception }) => is_finish_err(
                r.1,
                |x: RubyError| execution_error_spec(x, exception),
            ),
        },
{
    match outcome {
        RunOutcome::Refused(e) => {
            (
                EvalPhase::Done,
                EvalAction::Finish(Err(RubyError::new(RubyErrorClass::RuntimeError, e.as_str()))),
            )
        },
        RunOutcome::Object => match phase {
            EvalPhase::Body { last_expr } => (
                EvalPhase::LastExpr,
                EvalAction::Run { code: last_expr, mode: InputMode::Eval },
            ),
            _ => (EvalPhase::Done, EvalAction::Finish(Ok(()))),
        },
        RunOutcome::Null { exception } => {
            let is_syntax = match &exception {
                Some(PythonException::SyntaxError { .. }) => true,
                _ => false,
            };
            match phase {
                EvalPhase::Expr { code } => {
                    if is_syntax {
                        let trimmed = trim_end(code.as_str());
                        let again = trim_end(code.as_str());
                        (EvalPhase::Split { code: trimmed }, EvalAction::SplitLastExpr { code: again })
                    } else {
                        (EvalPhase::Done, EvalAction::Finish(Err(execution_error(&exception))))
                    }
                },
                _ => (EvalPhase::Done, EvalAction::Finish(Err(execution_error(&exception)))),
            }
        },
    }
}

/// The step after the parser was asked where the last expression starts:
/// with a split, run the statements before it; without one, run the whole
/// (right-trimmed) snippet as statements.
pub fn eval_after_split(phase: EvalPhase, split: Result<(String, String), String>) -> (r: (
    EvalPhase,
    EvalAction,
))
    requires
        phase matches EvalPhase::Split { .. },
    ensures
        rank(r.0) < rank(phase),
        !(r.0 matches EvalPhase::Done),
        match (phase, split) {
            (EvalPhase::Split { code }, Ok((body, last_expr))) => {
                &&& r.0 matches EvalPhase::Body { last_expr: l } && l@ == last_expr@
                &&& is_run(r.1, body@, InputMode::File)
            },
            (EvalPhase::Split { code }, Err(_)) => {
                &&& r.0 matches EvalPhase::Whole
                &&& is_run(r.1, code@, InputMode::File)
            },
            _ => false,
        },
{
    match phase {
        EvalPhase::Split { code } => match split {
            Ok((body, last_expr)) => (
                EvalPhase::Body { last_expr },
                EvalAction::Run { code: body, mode: InputMode::File },
            ),
            Err(_) => (EvalPhase::Whole, EvalAction::Run { code, mode: InputMode::File }),
        },
        _ => (EvalPhase::Done, EvalAction::Finish(Ok(()))),
    }
}

} // verus!
