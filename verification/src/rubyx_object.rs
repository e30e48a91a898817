//! How a Ruby call on a wrapped Python object is dispatched: getters,
//! setters, calls with positional and keyword arguments, and the errors
//! raised on the way.
use vstd::prelude::*;
use crate::exception::{is_error, RubyError, RubyErrorClass};
use crate::text::{chars_of, contains_char, hex, push_hex, push_str, str_eq, string_from_range};
use crate::value::{
    model, py_model, python_to_sendable, to_sendable_spec, PyModel, PyValue, SendModel,
    SendableValue,
};

verus! {

/// Ruby's implicit conversion methods. A wrapped Python object never
/// answers them, so that Ruby does not take it for an array, a string, a
/// hash, a number, an IO, a proc, a path or a regexp.
pub open spec fn is_implicit_conversion_spec(name: Seq<char>) -> bool {
    ||| name == "to_ary"@
    ||| name == "to_str"@
    ||| name == "to_hash"@
    ||| name == "to_int"@
    ||| name == "to_float"@
    ||| name == "to_io"@
    ||| name == "to_proc"@
    ||| name == "to_path"@
    ||| name == "to_regexp"@
}

/// Whether `name` is one of Ruby's implicit conversion methods.
pub fn is_implicit_conversion(name: &str) -> (b: bool)
    ensures
        b == is_implicit_conversion_spec(name@),
{
    str_eq(name, "to_ary") || str_eq(name, "to_str") || str_eq(name, "to_hash") || str_eq(
        name,
        "to_int",
    ) || str_eq(name, "to_float") || str_eq(name, "to_io") || str_eq(name, "to_proc") || str_eq(
        name,
        "to_path",
    ) || str_eq(name, "to_regexp")
}

/// The first decision on a missing method, before Python is consulted.
#[derive(Debug)]
pub enum MethodPlan {
    /// Raise this error.
    Fail(RubyError),
    /// Set the Python attribute `attr` to the (converted) argument, and
    /// answer that argument.
    SetAttr { attr: String },
    /// Read the Python attribute `name`, then see `plan_attribute`.
    Lookup { name: String },
}

/// `method_missing(name, *args)`: with no arguments at all there is no
/// method name; a name that is neither a String nor a Symbol (`None`) is a
/// type error; implicit conversions are refused; a name ending in `=` is a
/// setter, which takes exactly one value; any other name is looked up.
/// `n_args` counts the name.
pub open spec fn method_plan_spec(n_args: nat, name: Option<Seq<char>>, p: MethodPlan) -> bool {
    if n_args == 0 {
        p matches MethodPlan::Fail(e) && is_error(
            e,
            RubyErrorClass::ArgumentError,
            "No method name given"@,
        )
    } else {
        match name {
            None => p matches MethodPlan::Fail(e) && is_error(
                e,
                RubyErrorClass::TypeError,
                "method_missing expects Symbol/String method name"@,
            ),
            Some(n) => if is_implicit_conversion_spec(n) {
                p matches MethodPlan::Fail(e) && is_error(
                    e,
                    RubyErrorClass::NoMethodError,
                    "undefined method '"@ + n + "' for RubyxObject"@,
                )
            } else if n.len() > 0 && n.last() == '=' {
                if n_args != 2 {
                    p matches MethodPlan::Fail(e) && is_error(
                        e,
                        RubyErrorClass::ArgumentError,
                        "Setter required exactly one value"@,
                    )
                } else {
                    p matches MethodPlan::SetAttr { attr } && attr@ == n.drop_last()
                }
            } else {
                p matches MethodPlan::Lookup { name: l } && l@ == n
            },
        }
    }
}

/// The optional name, by its characters.
pub open spec fn name_view(name: Option<String>) -> Option<Seq<char>> {
    match name {
        Some(n) => Some(n@),
        None => None,
    }
}

/// Plans a missing-method call with `n_args` arguments, the first being
/// the method name (`None` when it is neither a String nor a Symbol).
pub fn plan_method_missing(n_args: usize, name: Option<String>) -> (p: MethodPlan)
    ensures
        method_plan_spec(n_args as nat, name_view(name), p),
{
    if n_args == 0 {
        return MethodPlan::Fail(RubyError::new(RubyErrorClass::ArgumentError, "No method name given"));
    }
    let name = match name {
        Some(n) => n,
        None => {
            return MethodPlan::Fail(
                RubyError::new(
                    RubyErrorClass::TypeError,
                    "method_missing expects Symbol/String method name",
                ),
            );
        },
    };
    if is_implicit_conversion(name.as_str()) {
        let mut m = String::from_str("undefined method '");
        push_str(&mut m, name.as_str());
        push_str(&mut m, "' for RubyxObject");
        return MethodPlan::Fail(RubyError { class: RubyErrorClass::NoMethodError, message: m });
    }
    let v = chars_of(name.as_str());
    if v.len() > 0 && v[v.len() - 1] == '=' {
        if n_args != 2 {
            return MethodPlan::Fail(
                RubyError::new(RubyErrorClass::ArgumentError, "Setter required exactly one value"),
            );
        }
        let attr = string_from_range(&v, 0, v.len() - 1);
        assert(v@.subrange(0, v.len() - 1) =~= v@.drop_last());
        return MethodPlan::SetAttr { attr };
    }
    MethodPlan::Lookup { name }
}

/// The decision once Python was asked for the attribute.
#[derive(Debug)]
pub enum AttrPlan {
    /// Raise this error.
    Fail(RubyError),
    /// Answer the attribute itself (wrapped).
    Read,
    /// Call the attribute with the first `positional` arguments after the
    /// name as a tuple, and, when `kwargs`, the last argument (a Hash) as
    /// keyword arguments.
    Call { positional: usize, kwargs: bool },
}

/// After looking up attribute `name` for a call with `n_args` arguments
/// (the name included): a missing attribute is an error naming the method;
/// a value that is not callable, asked for without arguments, is read; in
/// every other case the attribute is called, and a trailing Hash argument
/// supplies keyword arguments.
pub open spec fn attr_plan_spec(
    name: Seq<char>,
    found: bool,
    callable: bool,
    n_args: nat,
    last_is_hash: bool,
    p: AttrPlan,
) -> bool {
    if !found {
        p matches AttrPlan::Fail(e) && is_error(
            e,
            RubyErrorClass::Exception,
            "undefined method `"@ + name + "` for a Python object"@,
        )
    } else if !callable && n_args == 1 {
        p matches AttrPlan::Read
    } else if n_args > 1 && last_is_hash {
        p == AttrPlan::Call { positional: (n_args - 2) as usize, kwargs: true }
    } else {
        p == AttrPlan::Call { positional: (n_args - 1) as usize, kwargs: false }
    }
}

/// Plans what to do with the attribute found (or not) for a missing method.
pub fn plan_attribute(name: &str, found: bool, callable: bool, n_args: usize, last_is_hash: bool) -> (p:
    AttrPlan)
    requires
        n_args >= 1,
    ensures
        attr_plan_spec(name@, found, callable, n_args as nat, last_is_hash, p),
        found && n_args > 1 && last_is_hash ==> p == (AttrPlan::Call {
            positional: (n_args - 2) as usize,
            kwargs: true,
        }),
        call_accounts_for_arguments(p, found, n_args as nat, last_is_hash),
{
    if !found {
        let mut m = String::from_str("undefined method `");
        push_str(&mut m, name);
        push_str(&mut m, "` for a Python object");
        return AttrPlan::Fail(RubyError { class: RubyErrorClass::Exception, message: m });
    }
    if !callable && n_args == 1 {
        return AttrPlan::Read;
    }
    if n_args > 1 && last_is_hash {
        AttrPlan::Call { positional: n_args - 2, kwargs: true }
    } else {
        AttrPlan::Call { positional: n_args - 1, kwargs: false }
    }
}

/// Whether a planned call passes every argument after the method name: a
/// trailing Hash (when there is at least one argument after the name) as
/// the keyword arguments, all the others as positional arguments.
pub open spec fn call_accounts_for_arguments(p: AttrPlan, found: bool, n_args: nat, last_is_hash: bool) -> bool {
    p matches AttrPlan::Call { positional, kwargs } ==> {
        &&& found
        &&& kwargs <==> (n_args > 1 && last_is_hash)
        &&& positional + 1 + (if kwargs { 1int } else { 0int }) == n_args
    }
}

/// A call passes every argument after the method name: a trailing Hash
/// (when there is at least one argument after the name) becomes the
/// keyword arguments, and all the others are positional, in order.
pub proof fn lemma_call_arguments_accounted(
    name: Seq<char>,
    found: bool,
    callable: bool,
    n_args: usize,
    last_is_hash: bool,
    p: AttrPlan,
)
    requires
        n_args >= 1,
        attr_plan_spec(name, found, callable, n_args as nat, last_is_hash, p),
    ensures
        call_accounts_for_arguments(p, found, n_args as nat, last_is_hash),
        found && n_args > 1 && last_is_hash ==> p == (AttrPlan::Call {
            positional: (n_args - 2) as usize,
            kwargs: true,
        }),
        found && (callable || n_args > 1) ==> (p is Call),
{
}

/// `respond_to_missing?(name)`: the name to ask Python about, or the error:
/// no arguments, a name that is neither a String nor a Symbol, or a name
/// holding a NUL character (which no C string can).
pub open spec fn respond_to_spec(n_args: nat, name: Option<Seq<char>>, r: Result<String, RubyError>) -> bool {
    if n_args == 0 {
        r matches Err(e) && is_error(e, RubyErrorClass::ArgumentError, "No method name given"@)
    } else {
        match name {
            None => r matches Err(e) && is_error(
                e,
                RubyErrorClass::TypeError,
                "method_missing expects Symbol/String method name"@,
            ),
            Some(n) => if n.contains('\0') {
                r matches Err(e) && is_error(e, RubyErrorClass::ArgumentError, "Invalid method name"@)
            } else {
                r matches Ok(s) && s@ == n
            },
        }
    }
}

/// Plans `respond_to_missing?`.
pub fn plan_respond_to(n_args: usize, name: Option<String>) -> (r: Result<String, RubyError>)
    ensures
        respond_to_spec(n_args as nat, name_view(name), r),
{
    if n_args == 0 {
        return Err(RubyError::new(RubyErrorClass::ArgumentError, "No method name given"));
    }
    match name {
        None => Err(
            RubyError::new(RubyErrorClass::TypeError, "method_missing expects Symbol/String method name"),
        ),
        Some(n) => if contains_char(n.as_str(), '\0') {
            Err(RubyError::new(RubyErrorClass::ArgumentError, "Invalid method name"))
        } else {
            Ok(n)
        },
    }
}

/// The error for a keyword argument whose key is neither a String nor a Symbol.
pub fn kwargs_key_error() -> (e: RubyError)
    ensures
        is_error(e, RubyErrorClass::TypeError, "kwargs keys must be String or Symbol"@),
{
    RubyError::new(RubyErrorClass::TypeError, "kwargs keys must be String or Symbol")
}

/// `to_ruby`: the wrapped value converted for Ruby, or a `RuntimeError`
/// with the reason it cannot be.
pub fn to_ruby(v: &PyValue) -> (r: Result<SendableValue, RubyError>)
    ensures
        match to_sendable_spec(*v) {
            Ok(m) => r matches Ok(s) && model(s) == m,
            Err(msg) => r matches Err(e) && is_error(e, RubyErrorClass::RuntimeError, msg),
        },
{
    match python_to_sendable(v) {
        Ok(s) => Ok(s),
        Err(m) => Err(RubyError { class: RubyErrorClass::RuntimeError, message: m }),
    }
}

/// A Ruby value handed to Python, by what the conversion looks at.
#[derive(Debug)]
pub enum RubyValue {
    Nil,
    True,
    False,
    /// An Integer that fits in 64 signed bits.
    Integer(i64),
    /// A Float, by its IEEE-754 bit pattern.
    Float(u64),
    Str(String),
    /// A Symbol, by its name.
    Symbol(String),
    /// An Array, element by element.
    Array(Vec<RubyValue>),
    /// An object that already wraps a Python object; the number is the
    /// caller's handle for finding that Python object again.
    Wrapped(usize),
    /// Anything else.
    Other,
}

/// What a Ruby value becomes in Python.
#[derive(Debug)]
pub enum PyArgument {
    /// A new Python object with this value.
    New(PyValue),
    /// The Python object that the Ruby object with this handle wraps, shared.
    Wrapped(usize),
    /// A new Python list of these elements.
    List(Vec<PyArgument>),
}

/// The content of what a Ruby value becomes in Python.
pub enum PyArgModel {
    New(PyModel),
    Wrapped(usize),
    List(Seq<PyArgModel>),
}

/// The content of a Python argument.
pub open spec fn arg_model(a: PyArgument) -> PyArgModel
    decreases a,
{
    match a {
        PyArgument::New(v) => PyArgModel::New(py_model(v)),
        PyArgument::Wrapped(h) => PyArgModel::Wrapped(h),
        PyArgument::List(items) => PyArgModel::List(arg_models(items@)),
    }
}

/// The contents of a sequence of Python arguments.
pub open spec fn arg_models(items: Seq<PyArgument>) -> Seq<PyArgModel>
    decreases items,
{
    if items.len() == 0 {
        seq![]
    } else {
        arg_models(items.drop_last()).push(arg_model(items.last()))
    }
}

/// Whether a Ruby value can be handed to Python: anything but `Other`,
/// and an Array only when each of its elements can.
pub open spec fn convertible(v: RubyValue) -> bool
    decreases v,
{
    match v {
        RubyValue::Other => false,
        RubyValue::Array(items) => all_convertible(items@),
        _ => true,
    }
}

/// Whether every value of a sequence can be handed to Python.
pub open spec fn all_convertible(items: Seq<RubyValue>) -> bool
    decreases items,
{
    if items.len() == 0 {
        true
    } else {
        all_convertible(items.drop_last()) && convertible(items.last())
    }
}

/// What a convertible Ruby value becomes in Python: `nil`, `true` and
/// `false` become `None`, `True` and `False`; integers, floats and strings
/// become Python objects of the same value; a Symbol becomes the str of
/// its name; an Array a list of what its elements become; a wrapped
/// Python object is passed as itself.
pub open spec fn arg_spec(v: RubyValue) -> PyArgModel
    decreases v,
{
    match v {
        RubyValue::Nil => PyArgModel::New(PyModel::PyNone),
        RubyValue::True => PyArgModel::New(PyModel::Bool(true)),
        RubyValue::False => PyArgModel::New(PyModel::Bool(false)),
        RubyValue::Integer(i) => PyArgModel::New(PyModel::Int(Some(i))),
        RubyValue::Float(f) => PyArgModel::New(PyModel::Float(f)),
        RubyValue::Str(s) => PyArgModel::New(PyModel::Str(Some(s@))),
        RubyValue::Symbol(s) => PyArgModel::New(PyModel::Str(Some(s@))),
        RubyValue::Array(items) => PyArgModel::List(arg_specs(items@)),
        RubyValue::Wrapped(h) => PyArgModel::Wrapped(h),
        RubyValue::Other => PyArgModel::Wrapped(0),
    }
}

/// What a sequence of convertible Ruby values becomes, element by element.
pub open spec fn arg_specs(items: Seq<RubyValue>) -> Seq<PyArgModel>
    decreases items,
{
    if items.len() == 0 {
        seq![]
    } else {
        arg_specs(items.drop_last()).push(arg_spec(items.last()))
    }
}

/// `arg_models` maps each element to its content.
pub proof fn lemma_arg_models(items: Seq<PyArgument>)
    ensures
        arg_models(items).len() == items.len(),
        forall|i: int| 0 <= i < items.len() ==> #[trigger] arg_models(items)[i] == arg_model(items[i]),
    decreases items.len(),
{
    if items.len() > 0 {
        lemma_arg_models(items.drop_last());
    }
}

/// `arg_specs` maps each element to what it becomes, and a sequence is
/// convertible exactly when each element is.
pub proof fn lemma_arg_specs(items: Seq<RubyValue>)
    ensures
        arg_specs(items).len() == items.len(),
        forall|i: int| 0 <= i < items.len() ==> #[trigger] arg_specs(items)[i] == arg_spec(items[i]),
        all_convertible(items) <==> forall|i: int| 0 <= i < items.len() ==> convertible(#[trigger] items[i]),
    decreases items.len(),
{
    if items.len() > 0 {
        let init = items.drop_last();
        lemma_arg_specs(init);
        if all_convertible(items) {
            assert forall|i: int| 0 <= i < items.len() implies convertible(#[trigger] items[i]) by {
                if i < init.len() {
                    assert(init[i] == items[i]);
                }
            }
        }
        if forall|i: int| 0 <= i < items.len() ==> convertible(#[trigger] items[i]) {
            assert forall|i: int| 0 <= i < init.len() implies convertible(#[trigger] init[i]) by {
                assert(init[i] == items[i]);
                assert(convertible(items[i]));
            }
            assert(convertible(items[items.len() - 1]));
        }
    }
}

/// What a Ruby scalar should be when it comes back from Python: nil, the
/// same boolean, the same integer, the same float (bit for bit) or a
/// string of the same text; a Symbol comes back as the string of its name.
/// Arrays, wrapped objects and other values are no scalars.
pub open spec fn ruby_scalar(v: RubyValue) -> Option<SendModel> {
    match v {
        RubyValue::Nil => Some(SendModel::Nil),
        RubyValue::True => Some(SendModel::Bool(true)),
        RubyValue::False => Some(SendModel::Bool(false)),
        RubyValue::Integer(i) => Some(SendModel::Integer(i)),
        RubyValue::Float(f) => Some(SendModel::Float(f)),
        RubyValue::Str(s) => Some(SendModel::Str(s@)),
        RubyValue::Symbol(s) => Some(SendModel::Str(s@)),
        _ => None,
    }
}

/// A Ruby scalar handed to Python and read back from Python comes back
/// unchanged (a Symbol as the string of its name): no sign, bit or
/// character is lost on the way there or on the way back.
pub proof fn lemma_scalar_round_trip(v: RubyValue, p: PyValue)
    requires
        ruby_scalar(v) is Some,
        arg_spec(v) == PyArgModel::New(py_model(p)),
    ensures
        to_sendable_spec(p) == Ok::<SendModel, Seq<char>>(ruby_scalar(v)->0),
{
}

/// Whether `e` is the error for a Ruby value that cannot be handed to Python.
pub open spec fn is_unconvertible_error(e: RubyError) -> bool {
    is_error(e, RubyErrorClass::TypeError, "Cannot convert Ruby value to Python"@)
}

/// Converts a Ruby value for Python (see `arg_spec`); a value that cannot
/// be handed over, or an Array holding one, is a `TypeError`.
pub fn ruby_to_python(v: &RubyValue) -> (r: Result<PyArgument, RubyError>)
    ensures
        convertible(*v) ==> (r matches Ok(a) && arg_model(a) == arg_spec(*v)),
        !convertible(*v) ==> (r matches Err(e) && is_unconvertible_error(e)),
        *v matches RubyValue::Nil ==> (r matches Ok(PyArgument::New(PyValue::PyNone))),
        *v matches RubyValue::True ==> (r matches Ok(PyArgument::New(PyValue::Bool(b))) && b),
        *v matches RubyValue::False ==> (r matches Ok(PyArgument::New(PyValue::Bool(b))) && !b),
        *v matches RubyValue::Integer(i) ==> (r matches Ok(PyArgument::New(PyValue::Int(Some(j))))
            && j == i),
        *v matches RubyValue::Float(f) ==> (r matches Ok(PyArgument::New(PyValue::Float(g))) && g
            == f),
        *v matches RubyValue::Str(s) ==> (r matches Ok(PyArgument::New(PyValue::Str(Some(t))))
            && t@ == s@),
        *v matches RubyValue::Symbol(s) ==> (r matches Ok(PyArgument::New(PyValue::Str(Some(t))))
            && t@ == s@),
        *v matches RubyValue::Wrapped(h) ==> (r matches Ok(PyArgument::Wrapped(k)) && k == h),
    decreases v,
{
    match v {
        RubyValue::Nil => Ok(PyArgument::New(PyValue::PyNone)),
        RubyValue::True => Ok(PyArgument::New(PyValue::Bool(true))),
        RubyValue::False => Ok(PyArgument::New(PyValue::Bool(false))),
        RubyValue::Integer(i) => Ok(PyArgument::New(PyValue::Int(Some(*i)))),
        RubyValue::Float(f) => Ok(PyArgument::New(PyValue::Float(*f))),
        RubyValue::Str(s) => Ok(PyArgument::New(PyValue::Str(Some(s.clone())))),
        RubyValue::Symbol(s) => Ok(PyArgument::New(PyValue::Str(Some(s.clone())))),
        RubyValue::Wrapped(h) => Ok(PyArgument::Wrapped(*h)),
        RubyValue::Other => Err(
            RubyError::new(RubyErrorClass::TypeError, "Cannot convert Ruby value to Python"),
        ),
        RubyValue::Array(items) => {
            proof {
                lemma_arg_specs(items@);
            }
            let mut out: Vec<PyArgument> = Vec::new();
            let mut i: usize = 0;
            while i < items.len()
                invariant
                    *v == RubyValue::Array(*items),
                    all_convertible(items@) <==> forall|j: int|
                        0 <= j < items.len() ==> convertible(#[trigger] items@[j]),
                    i <= items.len(),
                    out.len() == i,
                    forall|j: int| 0 <= j < i ==> convertible(#[trigger] items@[j]),
                    forall|j: int| 0 <= j < i ==> #[trigger] arg_model(out@[j]) == arg_spec(items@[j]),
                decreases items.len() - i,
            {
                match ruby_to_python(&items[i]) {
                    Ok(a) => {
                        out.push(a);
                    },
                    Err(e) => {
                        assert(!convertible(items@[i as int]));
                        return Err(e);
                    },
                }
                i += 1;
            }
            proof {
                lemma_arg_models(out@);
                assert(arg_models(out@) =~= arg_specs(items@));
            }
            Ok(PyArgument::List(out))
        },
    }
}

/// Converts the positional arguments of a call, in order; the first that
/// cannot be handed to Python makes the call fail.
pub fn convert_args(args: Vec<RubyValue>) -> (r: Result<Vec<PyArgument>, RubyError>)
    ensures
        match r {
            Ok(out) => {
                &&& forall|i: int| 0 <= i < args.len() ==> convertible(#[trigger] args@[i])
                &&& out.len() == args.len()
                &&& forall|i: int| 0 <= i < args.len() ==> #[trigger] arg_model(out@[i]) == arg_spec(args@[i])
            },
            Err(e) => {
                &&& exists|i: int| 0 <= i < args.len() && !convertible(#[trigger] args@[i])
                &&& is_unconvertible_error(e)
            },
        },
{
    let ghost orig = args@;
    let mut out: Vec<PyArgument> = Vec::new();
    for v in it: args
        invariant
            it.seq() == orig,
            out.len() == it.index(),
            forall|i: int| 0 <= i < out.len() ==> convertible(#[trigger] orig[i]),
            forall|i: int| 0 <= i < out.len() ==> #[trigger] arg_model(out@[i]) == arg_spec(orig[i]),
    {
        let ghost k = out.len() as int;
        let ghost gv = v;
        assert(gv == orig[k]);
        let r = ruby_to_python(&v);
        match r {
            Ok(a) => {
                out.push(a);
            },
            Err(e) => {
                return Err(e);
            },
        }
    }
    Ok(out)
}

/// The keyword arguments of a call, and the error that stopped their
/// conversion, if one did.
#[derive(Debug)]
pub struct KwargsPlan {
    /// The keyword arguments converted before any failure, in order.
    pub entries: Vec<(String, PyArgument)>,
    /// The error raised instead of making the call.
    pub error: Option<RubyError>,
}

/// Whether `e` is the error for a keyword whose key is neither a String nor a Symbol.
pub open spec fn is_key_error(e: RubyError) -> bool {
    is_error(e, RubyErrorClass::TypeError, "kwargs keys must be String or Symbol"@)
}

/// Whether a keyword argument (its key as a string, `None` when the key is
/// neither a String nor a Symbol) can be handed to Python.
pub open spec fn kwarg_ok(kv: (Option<String>, RubyValue)) -> bool {
    kv.0 is Some && convertible(kv.1)
}

/// Converts the keyword arguments of a call (the trailing Hash), in
/// order: each key must be a String or a Symbol, each value must be
/// convertible; the first entry that is not stops the conversion with its
/// error, the key being checked before the value.
pub fn plan_kwargs(entries: Vec<(Option<String>, RubyValue)>) -> (p: KwargsPlan)
    ensures
        p.entries.len() <= entries.len(),
        forall|i: int|
            0 <= i < p.entries.len() ==> kwarg_ok(#[trigger] entries@[i]) && p.entries@[i].0@
                == entries@[i].0->0@ && arg_model(p.entries@[i].1) == arg_spec(entries@[i].1),
        p.error is None ==> p.entries.len() == entries.len(),
        p.error matches Some(e) ==> {
            let bad = entries@[p.entries.len() as int];
            &&& p.entries.len() < entries.len()
            &&& !kwarg_ok(bad)
            &&& bad.0 is None ==> is_key_error(e)
            &&& bad.0 is Some ==> is_unconvertible_error(e)
        },
{
    let ghost orig = entries@;
    let mut out: Vec<(String, PyArgument)> = Vec::new();
    for kv in it: entries
        invariant
            it.seq() == orig,
            out.len() == it.index(),
            forall|i: int|
                0 <= i < out.len() ==> kwarg_ok(#[trigger] orig[i]) && out@[i].0@ == orig[i].0->0@
                    && arg_model(out@[i].1) == arg_spec(orig[i].1),
    {
        let ghost k = out.len() as int;
        let ghost gkv = kv;
        assert(gkv == orig[k]);
        let (key, value) = kv;
        let key = match key {
            Some(key) => key,
            None => {
                return KwargsPlan { entries: out, error: Some(kwargs_key_error()) };
            },
        };
        let ghost gv = value;
        let r = ruby_to_python(&value);
        match r {
            Ok(a) => {
                out.push((key, a));
            },
            Err(e) => {
                return KwargsPlan { entries: out, error: Some(e) };
            },
        }
    }
    KwargsPlan { entries: out, error: None }
}

/// The Python globals set from a Ruby Hash, and the error that stopped the
/// injection, if one did.
#[derive(Debug)]
pub struct InjectPlan {
    /// The entries converted (and so set) before any failure, in order.
    pub entries: Vec<(PyArgument, PyArgument)>,
    /// The error raised.
    pub error: Option<RubyError>,
}

/// Whether both the key and the value of an entry can be handed to Python.
pub open spec fn entry_ok(kv: (RubyValue, RubyValue)) -> bool {
    convertible(kv.0) && convertible(kv.1)
}

/// Injecting a Ruby Hash into Python globals, entry by entry: an entry
/// whose key or value cannot be handed to Python stops the injection with
/// its error; the entries before it have been set.
pub fn plan_inject_globals(entries: Vec<(RubyValue, RubyValue)>) -> (p: InjectPlan)
    ensures
        p.entries.len() <= entries.len(),
        forall|i: int|
            0 <= i < p.entries.len() ==> entry_ok(#[trigger] entries@[i]) && arg_model(
                p.entries@[i].0,
            ) == arg_spec(entries@[i].0) && arg_model(p.entries@[i].1) == arg_spec(entries@[i].1),
        p.error is None ==> p.entries.len() == entries.len(),
        p.error matches Some(e) ==> p.entries.len() < entries.len() && !entry_ok(
            entries@[p.entries.len() as int],
        ) && is_unconvertible_error(e),
{
    let ghost orig = entries@;
    let mut out: Vec<(PyArgument, PyArgument)> = Vec::new();
    for kv in it: entries
        invariant
            it.seq() == orig,
            out.len() == it.index(),
            forall|i: int|
                0 <= i < out.len() ==> entry_ok(#[trigger] orig[i]) && arg_model(out@[i].0)
                    == arg_spec(orig[i].0) && arg_model(out@[i].1) == arg_spec(orig[i].1),
    {
        let ghost k = out.len() as int;
        let ghost gkv = kv;
        assert(gkv == orig[k]);
        let (key, value) = kv;
        let ghost gk = key;
        let rk = ruby_to_python(&key);
        let py_key = match rk {
            Ok(a) => a,
            Err(e) => {
                return InjectPlan { entries: out, error: Some(e) };
            },
        };
        let ghost gv = value;
        let rv = ruby_to_python(&value);
        match rv {
            Ok(a) => {
                out.push((py_key, a));
            },
            Err(e) => {
                return InjectPlan { entries: out, error: Some(e) };
            },
        }
    }
    InjectPlan { entries: out, error: None }
}

/// `to_s`: Python's `str()` of the object; when `str()` failed (`None`),
/// `#<RubyxObject:0x…>` with the object's address in lower-case hex; when
/// the resulting str could not be decoded (`Some(None)`), the empty string.
pub fn to_s_text(py_str: Option<Option<String>>, address: usize) -> (s: String)
    ensures
        s@ == match py_str {
            None => "#<RubyxObject:0x"@ + hex(address as nat) + ">"@,
            Some(None) => Seq::<char>::empty(),
            Some(Some(t)) => t@,
        },
{
    match py_str {
        None => {
            let mut s = String::from_str("#<RubyxObject:0x");
            push_hex(&mut s, address as u64);
            push_str(&mut s, ">");
            s
        },
        Some(None) => String::new(),
        Some(Some(t)) => t,
    }
}

} // verus!
