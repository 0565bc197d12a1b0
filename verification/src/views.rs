//! Views of optional values and of outcomes, for the contracts.

use vstd::prelude::*;

verus! {

/// The view of an optional value: the view of what it holds, if anything.
pub open spec fn view_of<T: View>(value: Option<T>) -> Option<T::V> {
    match value {
        Some(inner) => Some(inner@),
        None => None,
    }
}

/// The view of an outcome: the view of the value or of the failure.
pub open spec fn result_view<T: View, E: View>(result: Result<T, E>) -> Result<T::V, E::V> {
    match result {
        Ok(value) => Ok(value@),
        Err(error) => Err(error@),
    }
}

} // verus!
