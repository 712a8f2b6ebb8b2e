//! Shared handles on ports.
use std::sync::Arc;
use vstd::prelude::*;

verus! {

/// `Arc::clone`: another handle on the same allocation, hence on the same
/// value.
#[verifier::external_body]
pub(crate) fn share<T>(a: &Arc<T>) -> (r: Arc<T>)
    ensures
        r == *a,
{
    Arc::clone(a)
}

} // verus!
