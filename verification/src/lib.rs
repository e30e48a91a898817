//! The decision logic of a bridge that lets Ruby call into Python: how a
//! snippet is evaluated, how a call on a wrapped Python object is
//! dispatched, how values cross between the two runtimes, what a stream of
//! Python values sends down its channel, which errors Ruby sees, and where
//! the Python library is looked for. Calls into the interpreters, threads,
//! pipes and channels stay with the caller, which hands in what they gave.

pub mod async_gen;
pub mod channel;
pub mod convert;
pub mod eval;
pub mod exception;
pub mod future;
pub mod gvl;
pub mod nonblocking_stream;
pub mod python_ffi;
pub mod python_finder;
pub mod rubyx_object;
pub mod test_helpers;
pub mod text;
pub mod value;
