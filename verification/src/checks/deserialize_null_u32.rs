//! Reading a count where the server may have written `null`.
use vstd::prelude::*;

verus! {

/// Settles what a field holds that should hold a count. `read` is what was
/// read there: a count, `null`, or a failure. A count stands for itself and
/// `null` for zero; a failure stays a failure, so that a value of another
/// shape is never taken for `null`.
pub fn deserialize<E>(read: Result<Option<u32>, E>) -> (r: Result<u32, E>)
    ensures
        r == (match read {
            Ok(Some(n)) => Ok::<u32, E>(n),
            Ok(None) => Ok(0),
            Err(e) => Err(e),
        }),
{
    match read {
        Ok(Some(count)) => Ok(count),
        Ok(None) => Ok(0),
        Err(e) => Err(e),
    }
}

} // verus!
