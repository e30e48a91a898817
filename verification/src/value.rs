//! Python values as plain data, the thread-safe values that cross from the
//! Python side to the Ruby side, and the conversion between the two.
use vstd::prelude::*;

verus! {

/// A Python object, read out as plain data.
#[derive(Debug)]
pub enum PyValue {
    /// `None`.
    PyNone,
    /// A `bool`.
    Bool(bool),
    /// An `int`; `None` when it does not fit in 64 signed bits.
    Int(Option<i64>),
    /// A `float`, by its IEEE-754 bit pattern.
    Float(u64),
    /// A `str`; `None` when it cannot be decoded as UTF-8.
    Str(Option<String>),
    /// A `tuple`.
    Tuple(Vec<PyValue>),
    /// A `list`.
    List(Vec<PyValue>),
    /// A `dict`, in iteration order.
    Dict(Vec<(PyValue, PyValue)>),
    /// Any other object (a module, a function, an instance, ...).
    Other,
}

/// The mathematical content of a `PyValue`.
pub enum PyModel {
    PyNone,
    Bool(bool),
    Int(Option<i64>),
    Float(u64),
    Str(Option<Seq<char>>),
    Tuple(Seq<PyModel>),
    List(Seq<PyModel>),
    Dict(Seq<(PyModel, PyModel)>),
    Other,
}

/// The content of a Python value.
pub open spec fn py_model(v: PyValue) -> PyModel
    decreases v,
{
    match v {
        PyValue::PyNone => PyModel::PyNone,
        PyValue::Bool(b) => PyModel::Bool(b),
        PyValue::Int(i) => PyModel::Int(i),
        PyValue::Float(f) => PyModel::Float(f),
        PyValue::Str(Some(t)) => PyModel::Str(Some(t@)),
        PyValue::Str(None) => PyModel::Str(None),
        PyValue::Tuple(items) => PyModel::Tuple(py_models(items@)),
        PyValue::List(items) => PyModel::List(py_models(items@)),
        PyValue::Dict(pairs) => PyModel::Dict(py_pair_models(pairs@)),
        PyValue::Other => PyModel::Other,
    }
}

/// The contents of a sequence of Python values.
pub open spec fn py_models(items: Seq<PyValue>) -> Seq<PyModel>
    decreases items,
{
    if items.len() == 0 {
        seq![]
    } else {
        py_models(items.drop_last()).push(py_model(items.last()))
    }
}

/// The contents of a sequence of key/value pairs of Python values.
pub open spec fn py_pair_models(pairs: Seq<(PyValue, PyValue)>) -> Seq<(PyModel, PyModel)>
    decreases pairs,
{
    if pairs.len() == 0 {
        seq![]
    } else {
        let p = pairs.last();
        py_pair_models(pairs.drop_last()).push((py_model(p.0), py_model(p.1)))
    }
}

/// `py_models` maps each element to its content.
pub proof fn lemma_py_models(items: Seq<PyValue>)
    ensures
        py_models(items).len() == items.len(),
        forall|i: int| 0 <= i < items.len() ==> #[trigger] py_models(items)[i] == py_model(items[i]),
    decreases items.len(),
{
    if items.len() > 0 {
        lemma_py_models(items.drop_last());
    }
}

/// `models` maps each element to its content.
pub proof fn lemma_models(items: Seq<SendableValue>)
    ensures
        models(items).len() == items.len(),
        forall|i: int| 0 <= i < items.len() ==> #[trigger] models(items)[i] == model(items[i]),
    decreases items.len(),
{
    if items.len() > 0 {
        lemma_models(items.drop_last());
    }
}

/// A value that can be handed from a Python worker thread to Ruby.
#[derive(Debug)]
pub enum SendableValue {
    Nil,
    Bool(bool),
    Integer(i64),
    /// A float, by its IEEE-754 bit pattern.
    Float(u64),
    Str(String),
    List(Vec<SendableValue>),
    Dict(Vec<(SendableValue, SendableValue)>),
}

/// One item of a stream of values produced by Python.
#[derive(Debug)]
pub enum StreamItem {
    /// A value.
    Value(SendableValue),
    /// The producer failed with this message; nothing follows.
    Error(String),
    /// The producer is exhausted; nothing follows.
    End,
}

/// The mathematical content of a `SendableValue`.
pub enum SendModel {
    Nil,
    Bool(bool),
    Integer(i64),
    Float(u64),
    Str(Seq<char>),
    List(Seq<SendModel>),
    Dict(Seq<(SendModel, SendModel)>),
}

/// The content of a sendable value.
pub open spec fn model(s: SendableValue) -> SendModel
    decreases s,
{
    match s {
        SendableValue::Nil => SendModel::Nil,
        SendableValue::Bool(b) => SendModel::Bool(b),
        SendableValue::Integer(i) => SendModel::Integer(i),
        SendableValue::Float(f) => SendModel::Float(f),
        SendableValue::Str(t) => SendModel::Str(t@),
        SendableValue::List(items) => SendModel::List(models(items@)),
        SendableValue::Dict(pairs) => SendModel::Dict(pair_models(pairs@)),
    }
}

/// The contents of a sequence of sendable values.
pub open spec fn models(items: Seq<SendableValue>) -> Seq<SendModel>
    decreases items,
{
    if items.len() == 0 {
        seq![]
    } else {
        models(items.drop_last()).push(model(items.last()))
    }
}

/// The contents of a sequence of key/value pairs.
pub open spec fn pair_models(pairs: Seq<(SendableValue, SendableValue)>) -> Seq<
    (SendModel, SendModel),
>
    decreases pairs,
{
    if pairs.len() == 0 {
        seq![]
    } else {
        let p = pairs.last();
        pair_models(pairs.drop_last()).push((model(p.0), model(p.1)))
    }
}

/// What converting a Python value gives: `None` becomes nil, a bool a
/// boolean (bools are tested before ints, of which they are a subclass),
/// an int an integer (-1 when it does not fit), a float the same float, a
/// str the same text, a tuple or a list a list and a dict a dict of the
/// converted elements, in order; the first element that cannot be
/// converted decides the error. An undecodable str and any other object
/// are errors.
pub open spec fn to_sendable_spec(v: PyValue) -> Result<SendModel, Seq<char>>
    decreases v,
{
    match v {
        PyValue::PyNone => Ok(SendModel::Nil),
        PyValue::Bool(b) => Ok(SendModel::Bool(b)),
        PyValue::Int(Some(i)) => Ok(SendModel::Integer(i)),
        PyValue::Int(None) => Ok(SendModel::Integer(-1i64)),
        PyValue::Float(f) => Ok(SendModel::Float(f)),
        PyValue::Str(Some(t)) => Ok(SendModel::Str(t@)),
        PyValue::Str(None) => Err("Cannot decode Python string as UTF-8"@),
        PyValue::Tuple(items) => match seq_to_sendable_spec(items@) {
            Ok(ms) => Ok(SendModel::List(ms)),
            Err(e) => Err(e),
        },
        PyValue::List(items) => match seq_to_sendable_spec(items@) {
            Ok(ms) => Ok(SendModel::List(ms)),
            Err(e) => Err(e),
        },
        PyValue::Dict(pairs) => match pairs_to_sendable_spec(pairs@) {
            Ok(ms) => Ok(SendModel::Dict(ms)),
            Err(e) => Err(e),
        },
        PyValue::Other => Err("Cannot convert Python value to Ruby"@),
    }
}

/// Converting the elements of a sequence, left to right.
pub open spec fn seq_to_sendable_spec(items: Seq<PyValue>) -> Result<Seq<SendModel>, Seq<char>>
    decreases items,
{
    if items.len() == 0 {
        Ok(seq![])
    } else {
        match seq_to_sendable_spec(items.drop_last()) {
            Err(e) => Err(e),
            Ok(ms) => match to_sendable_spec(items.last()) {
                Ok(m) => Ok(ms.push(m)),
                Err(e) => Err(e),
            },
        }
    }
}

/// Converting key/value pairs, left to right, each key before its value.
pub open spec fn pairs_to_sendable_spec(pairs: Seq<(PyValue, PyValue)>) -> Result<
    Seq<(SendModel, SendModel)>,
    Seq<char>,
>
    decreases pairs,
{
    if pairs.len() == 0 {
        Ok(seq![])
    } else {
        match pairs_to_sendable_spec(pairs.drop_last()) {
            Err(e) => Err(e),
            Ok(ms) => match to_sendable_spec(pairs.last().0) {
                Err(e) => Err(e),
                Ok(k) => match to_sendable_spec(pairs.last().1) {
                    Err(e) => Err(e),
                    Ok(v) => Ok(ms.push((k, v))),
                },
            },
        }
    }
}

/// Scalars reach Ruby unchanged: `None` as nil, a bool as the same
/// boolean, an int that fits as the same integer, a float with the same
/// IEEE-754 bits (sign, exponent and mantissa), a decodable str as the
/// same text.
pub proof fn lemma_scalars_kept(v: PyValue)
    ensures
        v matches PyValue::PyNone ==> to_sendable_spec(v) == Ok::<SendModel, Seq<char>>(SendModel::Nil),
        v matches PyValue::Bool(b) ==> to_sendable_spec(v) == Ok::<SendModel, Seq<char>>(SendModel::Bool(b)),
        v matches PyValue::Int(Some(i)) ==> to_sendable_spec(v) == Ok::<SendModel, Seq<char>>(SendModel::Integer(i)),
        v matches PyValue::Float(f) ==> to_sendable_spec(v) == Ok::<SendModel, Seq<char>>(SendModel::Float(f)),
        v matches PyValue::Str(Some(t)) ==> to_sendable_spec(v) == Ok::<SendModel, Seq<char>>(SendModel::Str(t@)),
{
}

/// A conversion result, by the content of its value or its message.
pub open spec fn result_model(r: Result<SendableValue, String>) -> Result<SendModel, Seq<char>> {
    match r {
        Ok(s) => Ok(model(s)),
        Err(e) => Err(e@),
    }
}

proof fn lemma_models_push(items: Seq<SendableValue>, x: SendableValue)
    ensures
        models(items.push(x)) == models(items).push(model(x)),
{
    assert(items.push(x).drop_last() =~= items);
}

proof fn lemma_pair_models_push(pairs: Seq<(SendableValue, SendableValue)>, x: (SendableValue, SendableValue))
    ensures
        pair_models(pairs.push(x)) == pair_models(pairs).push((model(x.0), model(x.1))),
{
    assert(pairs.push(x).drop_last() =~= pairs);
}

/// Converts the elements `items` of a tuple or list.
fn items_to_sendable(items: &Vec<PyValue>, Ghost(whole): Ghost<PyValue>) -> (r: Result<
    Vec<SendableValue>,
    String,
>)
    requires
        decreases_to!(whole => items),
    ensures
        match r {
            Ok(out) => seq_to_sendable_spec(items@) == Ok::<Seq<SendModel>, Seq<char>>(models(out@)),
            Err(e) => seq_to_sendable_spec(items@) == Err::<Seq<SendModel>, Seq<char>>(e@),
        },
    decreases whole, 0nat,
{
    let mut out: Vec<SendableValue> = Vec::new();
    let mut i: usize = 0;
    assert(items@.take(0) =~= Seq::<PyValue>::empty());
    while i < items.len()
        invariant
            i <= items.len(),
            decreases_to!(whole => items),
            seq_to_sendable_spec(items@.take(i as int)) == Ok::<Seq<SendModel>, Seq<char>>(
                models(out@),
            ),
        decreases items.len() - i,
    {
        assert(items@.take(i + 1).drop_last() =~= items@.take(i as int));
        assert(items@.take(i + 1).last() == items@[i as int]);
        assert(decreases_to!(whole => items@[i as int])) by {
            assert(decreases_to!(items => items@));
            assert(decreases_to!(items@ => items@[i as int]));
        }
        match python_to_sendable(&items[i]) {
            Ok(s) => {
                proof {
                    lemma_models_push(out@, s);
                }
                out.push(s);
            },
            Err(e) => {
                let ghost pre = items@.take(i as int);
                assert(items@.take(i as int + 1).drop_last() =~= pre);
                proof {
                    lemma_seq_error_extends(items@, i as int + 1, e@);
                }
                assert(items@.take(items.len() as int) =~= items@);
                return Err(e);
            },
        }
        i += 1;
    }
    assert(items@.take(items.len() as int) =~= items@);
    Ok(out)
}

/// Once a prefix fails to convert, every longer prefix fails the same way.
proof fn lemma_seq_error_extends(items: Seq<PyValue>, k: int, e: Seq<char>)
    requires
        0 <= k <= items.len(),
        seq_to_sendable_spec(items.take(k)) == Err::<Seq<SendModel>, Seq<char>>(e),
    ensures
        seq_to_sendable_spec(items) == Err::<Seq<SendModel>, Seq<char>>(e),
    decreases items.len() - k,
{
    if k < items.len() {
        assert(items.take(k + 1).drop_last() =~= items.take(k));
        lemma_seq_error_extends(items, k + 1, e);
    } else {
        assert(items.take(k) =~= items);
    }
}

/// Once a prefix of pairs fails to convert, every longer prefix fails the same way.
proof fn lemma_pairs_error_extends(pairs: Seq<(PyValue, PyValue)>, k: int, e: Seq<char>)
    requires
        0 <= k <= pairs.len(),
        pairs_to_sendable_spec(pairs.take(k)) == Err::<Seq<(SendModel, SendModel)>, Seq<char>>(e),
    ensures
        pairs_to_sendable_spec(pairs) == Err::<Seq<(SendModel, SendModel)>, Seq<char>>(e),
    decreases pairs.len() - k,
{
    if k < pairs.len() {
        assert(pairs.take(k + 1).drop_last() =~= pairs.take(k));
        lemma_pairs_error_extends(pairs, k + 1, e);
    } else {
        assert(pairs.take(k) =~= pairs);
    }
}

/// Converts the entries `pairs` of a dict.
fn pairs_to_sendable(pairs: &Vec<(PyValue, PyValue)>, Ghost(whole): Ghost<PyValue>) -> (r: Result<
    Vec<(SendableValue, SendableValue)>,
    String,
>)
    requires
        decreases_to!(whole => pairs),
    ensures
        match r {
            Ok(out) => pairs_to_sendable_spec(pairs@) == Ok::<
                Seq<(SendModel, SendModel)>,
                Seq<char>,
            >(pair_models(out@)),
            Err(e) => pairs_to_sendable_spec(pairs@) == Err::<
                Seq<(SendModel, SendModel)>,
                Seq<char>,
            >(e@),
        },
    decreases whole, 0nat,
{
    let mut out: Vec<(SendableValue, SendableValue)> = Vec::new();
    let mut i: usize = 0;
    assert(pairs@.take(0) =~= Seq::<(PyValue, PyValue)>::empty());
    while i < pairs.len()
        invariant
            i <= pairs.len(),
            decreases_to!(whole => pairs),
            pairs_to_sendable_spec(pairs@.take(i as int)) == Ok::<
                Seq<(SendModel, SendModel)>,
                Seq<char>,
            >(pair_models(out@)),
        decreases pairs.len() - i,
    {
        assert(pairs@.take(i + 1).drop_last() =~= pairs@.take(i as int));
        assert(pairs@.take(i + 1).last() == pairs@[i as int]);
        let pair = &pairs[i];
        assert(decreases_to!(whole => pairs@[i as int].0) && decreases_to!(whole => pairs@[i as int].1)) by {
            assert(decreases_to!(pairs => pairs@));
            assert(decreases_to!(pairs@ => pairs@[i as int]));
            assert(decreases_to!(pairs@[i as int] => pairs@[i as int].0));
            assert(decreases_to!(pairs@[i as int] => pairs@[i as int].1));
        }
        let k = match python_to_sendable(&pair.0) {
            Ok(k) => k,
            Err(e) => {
                proof {
                    lemma_pairs_error_extends(pairs@, i as int + 1, e@);
                }
                return Err(e);
            },
        };
        let v = match python_to_sendable(&pair.1) {
            Ok(v) => v,
            Err(e) => {
                proof {
                    lemma_pairs_error_extends(pairs@, i as int + 1, e@);
                }
                return Err(e);
            },
        };
        proof {
            lemma_pair_models_push(out@, (k, v));
        }
        out.push((k, v));
        i += 1;
    }
    assert(pairs@.take(pairs.len() as int) =~= pairs@);
    Ok(out)
}

/// Converts a Python value into a value that can cross threads to Ruby.
pub fn python_to_sendable(v: &PyValue) -> (r: Result<SendableValue, String>)
    ensures
        result_model(r) == to_sendable_spec(*v),
        *v matches PyValue::PyNone ==> (r matches Ok(SendableValue::Nil)),
        *v matches PyValue::Bool(b) ==> (r matches Ok(SendableValue::Bool(c)) && c == b),
        *v matches PyValue::Int(Some(i)) ==> (r matches Ok(SendableValue::Integer(j)) && j == i),
        *v matches PyValue::Float(f) ==> (r matches Ok(SendableValue::Float(g)) && g == f),
        *v matches PyValue::Str(Some(t)) ==> (r matches Ok(SendableValue::Str(u)) && u@ == t@),
    decreases *v, 1nat,
{
    match v {
        PyValue::PyNone => Ok(SendableValue::Nil),
        PyValue::Bool(b) => Ok(SendableValue::Bool(*b)),
        PyValue::Int(Some(i)) => Ok(SendableValue::Integer(*i)),
        PyValue::Int(None) => Ok(SendableValue::Integer(-1)),
        PyValue::Float(f) => Ok(SendableValue::Float(*f)),
        PyValue::Str(Some(t)) => Ok(SendableValue::Str(t.clone())),
        PyValue::Str(None) => Err(String::from_str("Cannot decode Python string as UTF-8")),
        PyValue::Tuple(items) => match items_to_sendable(items, Ghost(*v)) {
            Ok(out) => Ok(SendableValue::List(out)),
            Err(e) => Err(e),
        },
        PyValue::List(items) => match items_to_sendable(items, Ghost(*v)) {
            Ok(out) => Ok(SendableValue::List(out)),
            Err(e) => Err(e),
        },
        PyValue::Dict(pairs) => match pairs_to_sendable(pairs, Ghost(*v)) {
            Ok(out) => Ok(SendableValue::Dict(out)),
            Err(e) => Err(e),
        },
        PyValue::Other => Err(String::from_str("Cannot convert Python value to Ruby")),
    }
}

} // verus!
