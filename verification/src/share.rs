//! Shared handles.

use vstd::prelude::*;
use std::rc::Rc;

verus! {

/// Calls `Rc::clone`, which makes another handle to the same allocation: the
/// new handle points to the value the old one points to.
#[verifier::external_body]
pub(crate) fn share<T>(handle: &Rc<T>) -> (r: Rc<T>)
    ensures
        r == *handle,
{
    Rc::clone(handle)
}

} // verus!
