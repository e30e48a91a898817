//! Holding the GIL for the duration of a test: a guard that records the
//! interpreter handle and the state to restore.
use vstd::prelude::*;
use crate::python_ffi::PyGILState;

verus! {

/// The GIL held for a test: the interpreter handle `A` it was acquired
/// through and the state to hand back when releasing it.
pub struct GilGuard<'a, A> {
    api: &'a A,
    gil_state: PyGILState,
}

impl<'a, A> GilGuard<'a, A> {
    /// The handle the GIL was acquired through.
    pub closed spec fn held_api(&self) -> &'a A {
        self.api
    }

    /// The state to restore when releasing the GIL.
    pub closed spec fn held_state(&self) -> PyGILState {
        self.gil_state
    }

    /// A guard for a GIL acquired through `api`, in state `gil_state`.
    pub fn new(api: &'a A, gil_state: PyGILState) -> (g: Self)
        ensures
            g.held_api() == api,
            g.held_state() == gil_state,
    {
        GilGuard { api, gil_state }
    }

    /// Access the interpreter while holding the GIL.
    pub fn api(&self) -> (a: &'a A)
        ensures
            a == self.held_api(),
    {
        self.api
    }

    /// The state to restore when releasing the GIL.
    pub fn gil_state(&self) -> (s: PyGILState)
        ensures
            s == self.held_state(),
    {
        self.gil_state
    }
}

/// Skip the test when there is no Python (`api` is `None`); otherwise
/// acquire the GIL through `ensure_gil` and return a guard for it.
/// `ensure_gil` is called exactly when there is an interpreter.
pub fn skip_if_no_python<'a, A, F: FnOnce(&'a A) -> PyGILState>(api: Option<&'a A>, ensure_gil: F) -> (r:
    Option<GilGuard<'a, A>>)
    requires
        api matches Some(a) ==> ensure_gil.requires((a,)),
    ensures
        match api {
            None => r is None,
            Some(a) => r matches Some(g) && g.held_api() == a && ensure_gil.ensures(
                (a,),
                g.held_state(),
            ),
        },
{
    match api {
        None => None,
        Some(a) => {
            let gil_state = ensure_gil(a);
            Some(GilGuard::new(a, gil_state))
        },
    }
}

} // verus!
