//! Shared values.

use std::sync::Arc;
use vstd::prelude::*;

verus! {

/// Shares a value: another pointer to the same allocation.
pub(crate) fn share<T>(shared: &Arc<T>) -> (other: Arc<T>)
    ensures
        other == *shared,
{
    Arc::clone(shared)
}

/// Shares a value that may be missing.
pub(crate) fn share_option<T>(shared: &Option<Arc<T>>) -> (other: Option<Arc<T>>)
    ensures
        other == *shared,
{
    match shared {
        Some(shared) => Some(share(shared)),
        None => None,
    }
}

} // verus!
