//! Small helpers.

use vstd::prelude::*;

verus! {

/// Moves the failure of the second half of an optional pair to the front:
/// no pair stays no pair, a pair whose second half is a failure becomes
/// that failure, and any other pair stays as it is.
pub fn transpose_tuple_option_result<T, K, E>(x: Option<(T, Result<K, E>)>) -> (transposed: Result<
    Option<(T, K)>,
    E,
>)
    ensures
        match x {
            Some((t, Ok(k))) => transposed == Ok::<Option<(T, K)>, E>(Some((t, k))),
            Some((_, Err(e))) => transposed == Err::<Option<(T, K)>, E>(e),
            None => transposed == Ok::<Option<(T, K)>, E>(None),
        },
{
    match x {
        Some((t, Ok(k))) => Ok(Some((t, k))),
        Some((_, Err(e))) => Err(e),
        None => Ok(None),
    }
}

} // verus!
