//! What each request is given to work on.

use crate::identity::Identity;
use crate::state::OracleState;
use vstd::prelude::*;

verus! {

/// The creation of the registry: the record to fill, and who pays for it.
#[derive(Debug, PartialEq, Eq)]
pub struct Initialize {
    pub oracle_state: OracleState,
    pub admin_signer: Identity,
}

/// A mutating request: the identity that signed it, and the registry.
#[derive(Debug, PartialEq, Eq)]
pub struct AdminAccount {
    pub admin: Identity,
    pub oracle_state: OracleState,
}

/// A reading request: the registry alone, since anyone may read.
#[derive(Debug, PartialEq, Eq)]
pub struct ViewRate {
    pub oracle_state: OracleState,
}

impl Clone for Initialize {
    fn clone(&self) -> (copy: Initialize)
        ensures
            copy.admin_signer == self.admin_signer,
            copy.oracle_state.admin == self.oracle_state.admin,
            copy.oracle_state.circle_rates@ == self.oracle_state.circle_rates@,
    {
        Initialize { oracle_state: self.oracle_state.clone(), admin_signer: self.admin_signer }
    }
}

impl Clone for AdminAccount {
    fn clone(&self) -> (copy: AdminAccount)
        ensures
            copy.admin == self.admin,
            copy.oracle_state.admin == self.oracle_state.admin,
            copy.oracle_state.circle_rates@ == self.oracle_state.circle_rates@,
    {
        AdminAccount { admin: self.admin, oracle_state: self.oracle_state.clone() }
    }
}

impl Clone for ViewRate {
    fn clone(&self) -> (copy: ViewRate)
        ensures
            copy.oracle_state.admin == self.oracle_state.admin,
            copy.oracle_state.circle_rates@ == self.oracle_state.circle_rates@,
    {
        ViewRate { oracle_state: self.oracle_state.clone() }
    }
}

} // verus!
