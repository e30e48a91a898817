//! Python exceptions as the bridge reports them, and the Ruby errors that
//! they become.
use vstd::prelude::*;
use crate::text::{decimal, push_char, push_decimal, push_str, str_eq};

verus! {

/// A Python exception, captured as plain values.
#[derive(Debug)]
pub enum PythonException {
    /// Any exception other than a syntax error.
    Exception {
        /// The exception's class name, e.g. `TypeError`.
        kind: String,
        /// The exception's message.
        message: String,
        /// The formatted traceback, when one was available.
        traceback: Option<String>,
    },
    /// A `SyntaxError`, with its position.
    SyntaxError { message: String, filename: String, line: usize, offset: usize },
}

/// The short, user-facing form: `kind: message` for an exception (the
/// traceback left out), `SyntaxError at line N: message` for a syntax error.
pub open spec fn display_spec(e: PythonException) -> Seq<char> {
    match e {
        PythonException::Exception { kind, message, traceback } => kind@ + ": "@ + message@,
        PythonException::SyntaxError { message, filename, line, offset } => "SyntaxError at line "@
            + decimal(line as nat) + ": "@ + message@,
    }
}

/// The form carried by a Ruby error: `kind: message`, followed by a newline
/// and the traceback when there is one; `SyntaxError: message (file:line:offset)`
/// for a syntax error.
pub open spec fn magnus_message_spec(e: PythonException) -> Seq<char> {
    match e {
        PythonException::Exception { kind, message, traceback } => match traceback {
            Some(tb) => kind@ + ": "@ + message@ + "\n"@ + tb@,
            None => kind@ + ": "@ + message@,
        },
        PythonException::SyntaxError { message, filename, line, offset } => "SyntaxError: "@
            + message@ + " ("@ + filename@ + ":"@ + decimal(line as nat) + ":"@ + decimal(
            offset as nat,
        ) + ")"@,
    }
}

/// Whether the exception is Python's `StopAsyncIteration`.
pub open spec fn is_stop_async_iteration_spec(e: PythonException) -> bool {
    match e {
        PythonException::Exception { kind, .. } => kind@ == "StopAsyncIteration"@,
        PythonException::SyntaxError { .. } => false,
    }
}

impl Clone for PythonException {
    /// A copy of the exception, equal to it field by field, so that both
    /// messages of the copy are those of the exception copied.
    fn clone(&self) -> (c: Self)
        ensures
            c == *self,
    {
        match self {
            PythonException::Exception { kind, message, traceback } => PythonException::Exception {
                kind: kind.clone(),
                message: message.clone(),
                traceback: match traceback {
                    Some(t) => Some(t.clone()),
                    None => None,
                },
            },
            PythonException::SyntaxError { message, filename, line, offset } => {
                PythonException::SyntaxError {
                    message: message.clone(),
                    filename: filename.clone(),
                    line: *line,
                    offset: *offset,
                }
            },
        }
    }
}

impl PythonException {
    /// The short message (`kind: message`, or `SyntaxError at line N: message`).
    pub fn to_string(&self) -> (s: String)
        ensures
            s@ == display_spec(*self),
    {
        let mut out = String::new();
        match self {
            PythonException::Exception { kind, message, .. } => {
                push_str(&mut out, kind.as_str());
                push_str(&mut out, ": ");
                push_str(&mut out, message.as_str());
            },
            PythonException::SyntaxError { message, line, .. } => {
                push_str(&mut out, "SyntaxError at line ");
                push_decimal(&mut out, *line as u64);
                push_str(&mut out, ": ");
                push_str(&mut out, message.as_str());
            },
        }
        assert(out@ =~= display_spec(*self));
        out
    }

    /// The message of the Ruby error raised for this exception: the
    /// traceback is appended after a newline, and a syntax error names its
    /// file, line and offset.
    pub fn to_magnus_message(&self) -> (s: String)
        ensures
            s@ == magnus_message_spec(*self),
    {
        let mut out = String::new();
        match self {
            PythonException::Exception { kind, message, traceback } => {
                push_str(&mut out, kind.as_str());
                push_str(&mut out, ": ");
                push_str(&mut out, message.as_str());
                match traceback {
                    Some(tb) => {
                        push_char(&mut out, '\n');
                        push_str(&mut out, tb.as_str());
                        assert("\n"@ =~= seq!['\n']) by {
                            reveal_strlit("\n");
                        }
                    },
                    None => {},
                }
            },
            PythonException::SyntaxError { message, filename, line, offset } => {
                push_str(&mut out, "SyntaxError: ");
                push_str(&mut out, message.as_str());
                push_str(&mut out, " (");
                push_str(&mut out, filename.as_str());
                push_str(&mut out, ":");
                push_decimal(&mut out, *line as u64);
                push_str(&mut out, ":");
                push_decimal(&mut out, *offset as u64);
                push_str(&mut out, ")");
            },
        }
        assert(out@ =~= magnus_message_spec(*self));
        out
    }
}

/// The two forms of an exception agree but for the traceback: without one
/// the Ruby error carries exactly the short form, with one it carries the
/// short form, a newline and the traceback.
pub proof fn lemma_messages_agree(e: PythonException)
    ensures
        e matches PythonException::Exception { traceback: None, .. } ==> magnus_message_spec(e)
            == display_spec(e),
        e matches PythonException::Exception { traceback: Some(tb), .. } ==> magnus_message_spec(
            e,
        ) == display_spec(e) + "\n"@ + tb@,
{
}

/// Whether `exc` is Python's `StopAsyncIteration`, which ends an async
/// generator normally.
pub fn is_stop_async_iteration(exc: &PythonException) -> (b: bool)
    ensures
        b == is_stop_async_iteration_spec(*exc),
{
    match exc {
        PythonException::Exception { kind, .. } => str_eq(kind.as_str(), "StopAsyncIteration"),
        PythonException::SyntaxError { .. } => false,
    }
}

/// The name of the `Rubyx` error class that stands for a Python exception
/// kind: the kinds with a class of their own keep their name,
/// `ModuleNotFoundError` becomes `ImportError`, any other kind `PythonError`.
pub open spec fn rubyx_class_name_spec(kind: Seq<char>) -> Seq<char> {
    if kind == "KeyError"@ {
        "KeyError"@
    } else if kind == "IndexError"@ {
        "IndexError"@
    } else if kind == "ValueError"@ {
        "ValueError"@
    } else if kind == "AttributeError"@ {
        "AttributeError"@
    } else if kind == "TypeError"@ {
        "TypeError"@
    } else if kind == "ImportError"@ || kind == "ModuleNotFoundError"@ {
        "ImportError"@
    } else {
        "PythonError"@
    }
}

/// The name of the `Rubyx` error class for a Python exception kind.
pub fn rubyx_exception_class_name(kind: &str) -> (name: String)
    ensures
        name@ == rubyx_class_name_spec(kind@),
{
    let name: &str = if str_eq(kind, "KeyError") {
        "KeyError"
    } else if str_eq(kind, "IndexError") {
        "IndexError"
    } else if str_eq(kind, "ValueError") {
        "ValueError"
    } else if str_eq(kind, "AttributeError") {
        "AttributeError"
    } else if str_eq(kind, "TypeError") {
        "TypeError"
    } else if str_eq(kind, "ImportError") || str_eq(kind, "ModuleNotFoundError") {
        "ImportError"
    } else {
        "PythonError"
    };
    String::from_str(name)
}

/// Ruby's built-in exception classes that the bridge raises.
#[derive(Clone, Copy, Debug, PartialEq, Eq, Structural)]
pub enum RubyErrorClass {
    RuntimeError,
    TypeError,
    ArgumentError,
    SyntaxError,
    Exception,
    NoMethodError,
}

/// A Ruby error to be raised: its class and its message.
#[derive(Clone, Debug)]
pub struct RubyError {
    pub class: RubyErrorClass,
    pub message: String,
}

/// The class of the Ruby error raised for a Python exception.
pub open spec fn exception_class_spec(e: PythonException) -> RubyErrorClass {
    match e {
        PythonException::Exception { .. } => RubyErrorClass::RuntimeError,
        PythonException::SyntaxError { .. } => RubyErrorClass::SyntaxError,
    }
}

/// Whether `r` is the Ruby error that a Python exception becomes.
pub open spec fn is_error_for(r: RubyError, e: PythonException) -> bool {
    &&& r.class == exception_class_spec(e)
    &&& r.message@ == magnus_message_spec(e)
}

/// Whether `r` has the given class and message.
pub open spec fn is_error(r: RubyError, class: RubyErrorClass, message: Seq<char>) -> bool {
    r.class == class && r.message@ == message
}

impl RubyError {
    /// A Ruby error of class `class` with message `message`.
    pub fn new(class: RubyErrorClass, message: &str) -> (r: RubyError)
        ensures
            is_error(r, class, message@),
    {
        RubyError { class, message: String::from_str(message) }
    }

    /// The Ruby error raised for a Python exception: a `RuntimeError` for an
    /// exception, a `SyntaxError` for a syntax error, carrying the message
    /// of `to_magnus_message`.
    pub fn from_python_exception(e: &PythonException) -> (r: RubyError)
        ensures
            is_error_for(r, *e),
    {
        let class = match e {
            PythonException::Exception { .. } => RubyErrorClass::RuntimeError,
            PythonException::SyntaxError { .. } => RubyErrorClass::SyntaxError,
        };
        RubyError { class, message: e.to_magnus_message() }
    }
}

/// The Ruby error after a failed Python operation: the one the pending
/// exception becomes, or a `RuntimeError` with `fallback` when none could
/// be fetched.
pub open spec fn error_or_spec(e: RubyError, exc: Option<PythonException>, fallback: Seq<char>) -> bool {
    match exc {
        Some(x) => is_error_for(e, x),
        None => is_error(e, RubyErrorClass::RuntimeError, fallback),
    }
}

/// The Ruby error after a failed Python operation.
pub fn error_or(exc: &Option<PythonException>, fallback: &str) -> (e: RubyError)
    ensures
        error_or_spec(e, *exc, fallback@),
{
    match exc {
        Some(x) => RubyError::from_python_exception(x),
        None => RubyError::new(RubyErrorClass::RuntimeError, fallback),
    }
}

} // verus!
