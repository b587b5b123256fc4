//! Shared handles to values held behind an `Arc`.
use std::sync::Arc;
use vstd::prelude::*;

verus! {

/// Another handle to the value behind `a`.
///
/// Calls `Arc::clone`, which std documents as making a new pointer to the
/// same allocation: the result holds the very value `a` holds.
#[verifier::external_body]
pub(crate) fn share<T: ?Sized>(a: &Arc<T>) -> (r: Arc<T>)
    ensures
        r == *a,
{
    Arc::clone(a)
}

/// Another handle to the value behind `a`, when there is one.
pub(crate) fn share_opt<T: ?Sized>(a: &Option<Arc<T>>) -> (r: Option<Arc<T>>)
    ensures
        r == *a,
{
    match a {
        Some(x) => Some(share(x)),
        None => None,
    }
}

} // verus!
