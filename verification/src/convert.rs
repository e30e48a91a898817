//! Converting Rust values to Python values and back, with the errors of a
//! failed conversion.
use vstd::prelude::*;
use crate::text::push_str;
use crate::value::{lemma_py_models, py_model, py_models, PyModel, PyValue};

verus! {

/// Why a Python value could not be converted.
#[derive(Debug)]
pub enum ConvertError {
    /// The value is of another type than `expected`.
    TypeError { expected: &'static str, got: String },
    /// The int does not fit.
    Overflow,
    /// Python failed, with this message.
    PythonError(String),
    /// The str could not be decoded.
    EncodingError,
}

/// The content of a conversion error.
pub enum ConvertErrorModel {
    TypeError { expected: Seq<char>, got: Seq<char> },
    Overflow,
    PythonError(Seq<char>),
    EncodingError,
}

/// The content of a conversion error.
pub open spec fn error_model(e: ConvertError) -> ConvertErrorModel {
    match e {
        ConvertError::TypeError { expected, got } => ConvertErrorModel::TypeError {
            expected: expected@,
            got: got@,
        },
        ConvertError::Overflow => ConvertErrorModel::Overflow,
        ConvertError::PythonError(m) => ConvertErrorModel::PythonError(m@),
        ConvertError::EncodingError => ConvertErrorModel::EncodingError,
    }
}

/// The message of a conversion error.
pub open spec fn convert_error_display(e: ConvertError) -> Seq<char> {
    match e {
        ConvertError::TypeError { expected, got } => "Type error: expected "@ + expected@
            + ", got "@ + got@,
        ConvertError::Overflow => "Integer overflow"@,
        ConvertError::PythonError(m) => "Python error: "@ + m@,
        ConvertError::EncodingError => "Encoding error"@,
    }
}

impl ConvertError {
    /// The message of the error.
    pub fn to_string(&self) -> (s: String)
        ensures
            s@ == convert_error_display(*self),
    {
        match self {
            ConvertError::TypeError { expected, got } => {
                let mut s = String::from_str("Type error: expected ");
                push_str(&mut s, expected);
                push_str(&mut s, ", got ");
                push_str(&mut s, got.as_str());
                s
            },
            ConvertError::Overflow => String::from_str("Integer overflow"),
            ConvertError::PythonError(m) => {
                let mut s = String::from_str("Python error: ");
                push_str(&mut s, m.as_str());
                s
            },
            ConvertError::EncodingError => String::from_str("Encoding error"),
        }
    }
}

/// The error for a missing (null) object.
pub open spec fn null_object() -> ConvertErrorModel {
    ConvertErrorModel::PythonError("Null object"@)
}

/// The error for a value of another type than `expected`.
pub open spec fn type_error(expected: Seq<char>) -> ConvertErrorModel {
    ConvertErrorModel::TypeError { expected, got: "other"@ }
}

fn null_object_error() -> (e: ConvertError)
    ensures
        error_model(e) == null_object(),
{
    ConvertError::PythonError(String::from_str("Null object"))
}

fn type_error_for(expected: &'static str) -> (e: ConvertError)
    ensures
        error_model(e) == type_error(expected@),
{
    ConvertError::TypeError { expected, got: String::from_str("other") }
}

/// The content of an optional (possibly null) Python object.
pub open spec fn obj_model(obj: Option<&PyValue>) -> Option<PyModel> {
    match obj {
        Some(v) => Some(py_model(*v)),
        None => None,
    }
}

/// Values that can be read out of a Python value.
pub trait FromPython: Sized {
    /// What a value of the type stands for.
    type Model;

    /// What a value of the type stands for.
    spec fn value_model(v: Self) -> Self::Model;

    /// What reading a (possibly null) Python value gives.
    spec fn from_python_spec(obj: Option<PyModel>) -> Result<Self::Model, ConvertErrorModel>;

    /// Reads a value out of a (possibly null) Python value.
    fn from_python(obj: Option<&PyValue>) -> (r: Result<Self, ConvertError>)
        ensures
            match r {
                Ok(v) => Self::from_python_spec(obj_model(obj)) == Ok::<
                    Self::Model,
                    ConvertErrorModel,
                >(Self::value_model(v)),
                Err(e) => Self::from_python_spec(obj_model(obj)) == Err::<
                    Self::Model,
                    ConvertErrorModel,
                >(error_model(e)),
            },
    ;
}

/// A conversion result, by contents.
pub open spec fn from_result_model<T: FromPython>(r: Result<T, ConvertError>) -> Result<
    T::Model,
    ConvertErrorModel,
> {
    match r {
        Ok(v) => Ok(T::value_model(v)),
        Err(e) => Err(error_model(e)),
    }
}

impl FromPython for i64 {
    type Model = i64;

    open spec fn value_model(v: i64) -> i64 {
        v
    }

    /// An int that fits, or a bool (a subclass of int: 1 or 0); an int
    /// that does not fit overflows; anything else is a type error.
    open spec fn from_python_spec(obj: Option<PyModel>) -> Result<i64, ConvertErrorModel> {
        match obj {
            None => Err(null_object()),
            Some(PyModel::Int(Some(x))) => Ok(x),
            Some(PyModel::Int(None)) => Err(ConvertErrorModel::Overflow),
            Some(PyModel::Bool(b)) => Ok(
                if b {
                    1i64
                } else {
                    0i64
                },
            ),
            Some(_) => Err(type_error("int"@)),
        }
    }

    fn from_python(obj: Option<&PyValue>) -> (r: Result<i64, ConvertError>) {
        match obj {
            None => Err(null_object_error()),
            Some(PyValue::Int(Some(x))) => Ok(*x),
            Some(PyValue::Int(None)) => Err(ConvertError::Overflow),
            Some(PyValue::Bool(b)) => Ok(
                if *b {
                    1
                } else {
                    0
                },
            ),
            Some(_) => Err(type_error_for("int")),
        }
    }
}

impl FromPython for bool {
    type Model = bool;

    open spec fn value_model(v: bool) -> bool {
        v
    }

    /// Only a bool is a bool.
    open spec fn from_python_spec(obj: Option<PyModel>) -> Result<bool, ConvertErrorModel> {
        match obj {
            None => Err(null_object()),
            Some(PyModel::Bool(b)) => Ok(b),
            Some(_) => Err(type_error("bool"@)),
        }
    }

    fn from_python(obj: Option<&PyValue>) -> (r: Result<bool, ConvertError>) {
        match obj {
            None => Err(null_object_error()),
            Some(PyValue::Bool(b)) => Ok(*b),
            Some(_) => Err(type_error_for("bool")),
        }
    }
}

impl FromPython for String {
    type Model = Seq<char>;

    open spec fn value_model(v: String) -> Seq<char> {
        v@
    }

    /// A str, unless it cannot be decoded; anything else is a type error.
    open spec fn from_python_spec(obj: Option<PyModel>) -> Result<Seq<char>, ConvertErrorModel> {
        match obj {
            None => Err(null_object()),
            Some(PyModel::Str(Some(s))) => Ok(s),
            Some(PyModel::Str(None)) => Err(ConvertErrorModel::EncodingError),
            Some(_) => Err(type_error("str"@)),
        }
    }

    fn from_python(obj: Option<&PyValue>) -> (r: Result<String, ConvertError>) {
        match obj {
            None => Err(null_object_error()),
            Some(PyValue::Str(Some(s))) => Ok(s.clone()),
            Some(PyValue::Str(None)) => Err(ConvertError::EncodingError),
            Some(_) => Err(type_error_for("str")),
        }
    }
}

/// The contents of a sequence of values.
pub open spec fn value_models<T: FromPython>(s: Seq<T>) -> Seq<T::Model> {
    s.map_values(|x: T| T::value_model(x))
}

/// What a sequence of values becomes in Python, element by element.
pub open spec fn python_models<T: ToPython>(s: Seq<T>) -> Seq<PyModel> {
    s.map_values(|x: T| x.to_python_spec())
}

/// Reading the elements of a list, left to right; the first failure decides.
pub open spec fn list_from_python_spec<T: FromPython>(items: Seq<PyModel>) -> Result<
    Seq<T::Model>,
    ConvertErrorModel,
>
    decreases items.len(),
{
    if items.len() == 0 {
        Ok(seq![])
    } else {
        match list_from_python_spec::<T>(items.drop_last()) {
            Err(e) => Err(e),
            Ok(ms) => match T::from_python_spec(Some(items.last())) {
                Ok(m) => Ok(ms.push(m)),
                Err(e) => Err(e),
            },
        }
    }
}

proof fn lemma_list_error_extends<T: FromPython>(items: Seq<PyModel>, k: int, e: ConvertErrorModel)
    requires
        0 <= k <= items.len(),
        list_from_python_spec::<T>(items.take(k)) == Err::<Seq<T::Model>, ConvertErrorModel>(e),
    ensures
        list_from_python_spec::<T>(items) == Err::<Seq<T::Model>, ConvertErrorModel>(e),
    decreases items.len() - k,
{
    if k < items.len() {
        assert(items.take(k + 1).drop_last() =~= items.take(k));
        lemma_list_error_extends::<T>(items, k + 1, e);
    } else {
        assert(items.take(k) =~= items);
    }
}

impl<T: FromPython> FromPython for Vec<T> {
    type Model = Seq<T::Model>;

    open spec fn value_model(v: Vec<T>) -> Seq<T::Model> {
        value_models(v@)
    }

    /// A list whose every element can be read; anything else is a type error.
    open spec fn from_python_spec(obj: Option<PyModel>) -> Result<Seq<T::Model>, ConvertErrorModel> {
        match obj {
            None => Err(null_object()),
            Some(PyModel::List(items)) => list_from_python_spec::<T>(items),
            Some(_) => Err(type_error("list"@)),
        }
    }

    fn from_python(obj: Option<&PyValue>) -> (r: Result<Vec<T>, ConvertError>) {
        match obj {
            None => Err(null_object_error()),
            Some(PyValue::List(items)) => list_from_python(items),
            Some(_) => Err(type_error_for("list")),
        }
    }
}

/// Reads the elements of a list.
fn list_from_python<T: FromPython>(items: &Vec<PyValue>) -> (r: Result<Vec<T>, ConvertError>)
    ensures
        match r {
            Ok(v) => list_from_python_spec::<T>(py_models(items@)) == Ok::<
                Seq<T::Model>,
                ConvertErrorModel,
            >(value_models(v@)),
            Err(e) => list_from_python_spec::<T>(py_models(items@)) == Err::<
                Seq<T::Model>,
                ConvertErrorModel,
            >(error_model(e)),
        },
{
        let ghost ms = py_models(items@);
        proof {
            lemma_py_models(items@);
        }
        let mut out: Vec<T> = Vec::new();
        let mut i: usize = 0;
        assert(ms.take(0) =~= Seq::<PyModel>::empty());
        assert(value_models(out@) =~= Seq::<T::Model>::empty());
        while i < items.len()
            invariant
                i <= items.len(),
                ms == py_models(items@),
                ms.len() == items.len(),
                forall|j: int| 0 <= j < items.len() ==> #[trigger] ms[j] == py_model(items@[j]),
                list_from_python_spec::<T>(ms.take(i as int)) == Ok::<
                    Seq<T::Model>,
                    ConvertErrorModel,
                >(value_models(out@)),
            decreases items.len() - i,
        {
            assert(ms.take(i + 1).drop_last() =~= ms.take(i as int));
            assert(ms.take(i + 1).last() == py_model(items@[i as int]));
            match T::from_python(Some(&items[i])) {
                Ok(x) => {
                    let ghost prev = out@;
                    out.push(x);
                    assert(value_models(out@) =~= value_models(prev).push(T::value_model(x)));
                },
                Err(e) => {
                    assert(T::from_python_spec(Some(ms[i as int])) == Err::<
                        T::Model,
                        ConvertErrorModel,
                    >(error_model(e)));
                    assert(list_from_python_spec::<T>(ms.take(i + 1)) == Err::<
                        Seq<T::Model>,
                        ConvertErrorModel,
                    >(error_model(e)));
                    proof {
                        lemma_list_error_extends::<T>(ms, i as int + 1, error_model(e));
                    }
                    return Err(e);
                },
            }
            i += 1;
        }
        assert(ms.take(items.len() as int) =~= ms);
        Ok(out)
}

/// Values that can be turned into a Python value.
pub trait ToPython {
    /// The Python value this one becomes.
    spec fn to_python_spec(&self) -> PyModel;

    /// The Python value this one becomes.
    fn to_python(&self) -> (r: PyValue)
        ensures
            py_model(r) == self.to_python_spec(),
    ;
}

impl ToPython for i64 {
    open spec fn to_python_spec(&self) -> PyModel {
        PyModel::Int(Some(*self))
    }

    fn to_python(&self) -> (r: PyValue) {
        PyValue::Int(Some(*self))
    }
}

impl ToPython for bool {
    open spec fn to_python_spec(&self) -> PyModel {
        PyModel::Bool(*self)
    }

    fn to_python(&self) -> (r: PyValue) {
        PyValue::Bool(*self)
    }
}

impl ToPython for str {
    open spec fn to_python_spec(&self) -> PyModel {
        PyModel::Str(Some(self@))
    }

    fn to_python(&self) -> (r: PyValue) {
        PyValue::Str(Some(String::from_str(self)))
    }
}

impl ToPython for String {
    open spec fn to_python_spec(&self) -> PyModel {
        PyModel::Str(Some(self@))
    }

    fn to_python(&self) -> (r: PyValue) {
        PyValue::Str(Some(self.clone()))
    }
}

impl<T: ToPython> ToPython for Option<T> {
    /// `None` becomes Python's `None`, `Some(v)` what `v` becomes.
    open spec fn to_python_spec(&self) -> PyModel {
        match self {
            Some(v) => v.to_python_spec(),
            None => PyModel::PyNone,
        }
    }

    fn to_python(&self) -> (r: PyValue) {
        match self {
            Some(v) => v.to_python(),
            None => PyValue::PyNone,
        }
    }
}

impl<T: ToPython> ToPython for Vec<T> {
    /// A list of what the elements become, in order.
    open spec fn to_python_spec(&self) -> PyModel {
        PyModel::List(python_models(self@))
    }

    fn to_python(&self) -> (r: PyValue) {
        let mut out: Vec<PyValue> = Vec::new();
        let mut i: usize = 0;
        assert(py_models(out@) =~= python_models(self@.take(0)));
        while i < self.len()
            invariant
                i <= self.len(),
                py_models(out@) == python_models(self@.take(i as int)),
            decreases self.len() - i,
        {
            let p = self[i].to_python();
            let ghost prev = out@;
            out.push(p);
            assert(out@.drop_last() =~= prev);
            assert(python_models(self@.take(i + 1)) =~= python_models(self@.take(i as int)).push(
                self@[i as int].to_python_spec(),
            ));
            i += 1;
        }
        assert(self@.take(self.len() as int) =~= self@);
        PyValue::List(out)
    }
}

// ---------------------------------------------------------------------------
// Round trips
// ---------------------------------------------------------------------------

/// Whether reading back what `v` becomes in Python gives `v` again.
pub open spec fn round_trips<T: FromPython + ToPython>(v: T) -> bool {
    T::from_python_spec(Some(v.to_python_spec())) == Ok::<T::Model, ConvertErrorModel>(
        T::value_model(v),
    )
}

/// An i64 comes back unchanged from Python.
pub proof fn lemma_i64_round_trip(x: i64)
    ensures
        round_trips(x),
{
}

/// A bool comes back unchanged from Python.
pub proof fn lemma_bool_round_trip(b: bool)
    ensures
        round_trips(b),
{
}

/// A string comes back unchanged from Python.
pub proof fn lemma_string_round_trip(s: String)
    ensures
        round_trips(s),
{
}

/// A vector whose elements each come back unchanged from Python comes back
/// unchanged too.
pub proof fn lemma_vec_round_trip<T: FromPython + ToPython>(v: Vec<T>)
    requires
        forall|i: int| 0 <= i < v@.len() ==> round_trips(#[trigger] v@[i]),
    ensures
        round_trips(v),
{
    lemma_list_round_trip::<T>(v@);
}

proof fn lemma_list_round_trip<T: FromPython + ToPython>(s: Seq<T>)
    requires
        forall|i: int| 0 <= i < s.len() ==> round_trips(#[trigger] s[i]),
    ensures
        list_from_python_spec::<T>(python_models(s)) == Ok::<Seq<T::Model>, ConvertErrorModel>(
            value_models(s),
        ),
    decreases s.len(),
{
    if s.len() > 0 {
        let init = s.drop_last();
        assert forall|i: int| 0 <= i < init.len() implies round_trips(#[trigger] init[i]) by {
            assert(init[i] == s[i]);
        }
        lemma_list_round_trip::<T>(init);
        let mapped = python_models(s);
        assert(mapped.drop_last() =~= python_models(init));
        assert(mapped.last() == s.last().to_python_spec());
        assert(round_trips(s[s.len() - 1]));
        assert(value_models(s) =~= value_models(init).push(T::value_model(s.last())));
    } else {
        assert(python_models(s) =~= Seq::<PyModel>::empty());
        assert(value_models(s) =~= Seq::<T::Model>::empty());
    }
}

} // verus!
