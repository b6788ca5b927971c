//! The authorization guard of the mutating requests.

use crate::error::OracleError;
use crate::identity::Identity;
use vstd::prelude::*;

verus! {

/// Lets `caller` pass exactly when it is the administrator, bit for bit.
pub fn authorize(caller: &Identity, admin: &Identity) -> (verdict: Result<(), OracleError>)
    ensures
        caller@ == admin@ ==> verdict == Ok::<(), OracleError>(()),
        caller@ != admin@ ==> verdict == Err::<(), OracleError>(OracleError::Unauthorized),
{
    if caller.same_as(admin) {
        Ok(())
    } else {
        Err(OracleError::Unauthorized)
    }
}

} // verus!
