//! Why a request to the registry is refused.

use vstd::prelude::*;

verus! {

/// The registry's own error kinds.
#[derive(Debug, Clone, Copy, PartialEq, Eq, Structural)]
pub enum OracleError {
    /// The caller of a mutating request is not the administrator.
    Unauthorized,
    /// No entry has the city name that was asked for.
    CityNotSupported,
    /// Reserved: no request is refused for its rate.
    RateNotValid,
    /// An entry with the city name is already present.
    CityAlreadyExists,
}

/// Why a mutating request left the registry unchanged.
#[derive(Debug, Clone, Copy, PartialEq, Eq, Structural)]
pub enum TransitionError {
    /// The request broke one of the registry's own rules.
    Oracle(OracleError),
    /// The clock gave no reading to stamp the write with.
    ClockUnavailable,
    /// The new entry does not fit the stored layout.
    CapacityExceeded,
}

impl OracleError {
    /// The text that goes with each error kind.
    pub open spec fn message_text(self) -> Seq<char> {
        match self {
            OracleError::Unauthorized => "Unauthorized"@,
            OracleError::CityNotSupported => "City not supported"@,
            OracleError::RateNotValid => "Rate not valid"@,
            OracleError::CityAlreadyExists => "City already exists"@,
        }
    }

    /// A short description of the error, fit to show to a caller.
    pub fn message(&self) -> (text: &'static str)
        ensures
            text@ == self.message_text(),
    {
        match self {
            OracleError::Unauthorized => "Unauthorized",
            OracleError::CityNotSupported => "City not supported",
            OracleError::RateNotValid => "Rate not valid",
            OracleError::CityAlreadyExists => "City already exists",
        }
    }
}

} // verus!
