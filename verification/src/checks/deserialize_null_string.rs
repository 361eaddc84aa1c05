//! Reading a text where the server may have written `null`.
use vstd::prelude::*;

verus! {

/// Settles what a field holds that should hold a text. `read` is what was
/// read there: a text, `null`, or a failure. A text stands for itself and
/// `null` for the empty text; a failure stays a failure, so that a value of
/// another shape is never taken for `null`.
pub fn deserialize<E>(read: Result<Option<String>, E>) -> (r: Result<String, E>)
    ensures
        match read {
            Ok(Some(t)) => r == Ok::<String, E>(t),
            Ok(None) => r matches Ok(text) && text@.len() == 0,
            Err(e) => r == Err::<String, E>(e),
        },
{
    match read {
        Ok(Some(text)) => Ok(text),
        Ok(None) => Ok(String::new()),
        Err(e) => Err(e),
    }
}

} // verus!
