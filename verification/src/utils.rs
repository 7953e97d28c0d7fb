//! Small helpers shared across the runtime.

use vstd::prelude::*;

verus! {

/// A shorthand for a type's default value.
#[inline]
pub fn default<T: Default>() -> (r: T)
    ensures
        T::default.ensures((), r),
{
    Default::default()
}

} // verus!
