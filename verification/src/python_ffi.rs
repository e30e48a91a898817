//! Plain types of the Python C API.
use vstd::prelude::*;

verus! {

/// Opaque Python thread state; only ever handled behind a pointer.
pub struct PyThreadState {
    _private: [u8; 0],
}

/// Whether the GIL was already held when `PyGILState_Ensure` was called.
#[derive(Clone, Copy, Debug, PartialEq, Eq, Structural)]
pub enum PyGILState {
    Locked,
    Unlocked,
}

/// The C value of a state: `PyGILState_LOCKED` is 0, `PyGILState_UNLOCKED` 1.
pub open spec fn gil_state_raw(s: PyGILState) -> i32 {
    if s == PyGILState::Locked {
        0
    } else {
        1
    }
}

/// The state for a C value, if it is one.
pub open spec fn gil_state_from_raw(n: i32) -> Option<PyGILState> {
    if n == 0 {
        Some(PyGILState::Locked)
    } else if n == 1 {
        Some(PyGILState::Unlocked)
    } else {
        None
    }
}

/// The C value of a state reads back as the same state.
pub proof fn lemma_gil_state_raw_round_trip(s: PyGILState)
    ensures
        gil_state_from_raw(gil_state_raw(s)) == Some(s),
{
}

impl PyGILState {
    /// The C value of the state.
    pub fn to_raw(&self) -> (n: i32)
        ensures
            n == gil_state_raw(*self),
    {
        match self {
            PyGILState::Locked => 0,
            PyGILState::Unlocked => 1,
        }
    }

    /// The state for a C value, if it is one.
    pub fn from_raw(n: i32) -> (s: Option<PyGILState>)
        ensures
            s == gil_state_from_raw(n),
    {
        if n == 0 {
            Some(PyGILState::Locked)
        } else if n == 1 {
            Some(PyGILState::Unlocked)
        } else {
            None
        }
    }
}

} // verus!
