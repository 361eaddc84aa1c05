//! Reading a user where the server may have written `null`.
use crate::users::User;
use vstd::prelude::*;

verus! {

/// Settles what a field holds that should hold a user. `read` is what was
/// read there: a user, `null`, or a failure. A user stands for itself and
/// `null` for the user that is nobody; a failure stays a failure, so that a
/// value of another shape is never taken for `null`.
pub fn deserialize<E>(read: Result<Option<User>, E>) -> (r: Result<User, E>)
    ensures
        match read {
            Ok(Some(u)) => r == Ok::<User, E>(u),
            Ok(None) => r matches Ok(user) && user.is_nobody(),
            Err(e) => r == Err::<User, E>(e),
        },
{
    match read {
        Ok(Some(user)) => Ok(user),
        Ok(None) => Ok(User::default()),
        Err(e) => Err(e),
    }
}

} // verus!
