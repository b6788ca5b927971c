//! The registry as a mathematical value, and its transitions as functions
//! from one such value to the next.
//!
//! Everything the executable code promises is stated over the types of
//! this module.

use crate::error::{OracleError, TransitionError};
use vstd::prelude::*;
use vstd::utf8::encode_utf8;

verus! {

/// The most entries the stored layout has room for.
pub const MAX_CITIES: usize = 32;

/// The most bytes the stored layout keeps for a city name or a country.
pub const MAX_TEXT_BYTES: usize = 32;

/// One city's entry, as a value.
pub struct CityRate {
    /// The key of the entry.
    pub city_name: Seq<char>,
    /// The circle rate of the city.
    pub rate: u64,
    /// The clock reading at the last write to this entry.
    pub timestamp: u64,
    /// Descriptive only.
    pub country: Seq<char>,
    /// The area the rate refers to.
    pub area: u64,
}

/// The whole registry, as a value.
pub struct RegistryState {
    /// The one identity that may change the registry.
    pub admin: Seq<u8>,
    /// The entries, oldest first.
    pub cities: Seq<CityRate>,
}

impl CityRate {
    /// Whether both texts of the entry fit the bytes the layout keeps for
    /// them, counted in their UTF-8 encoding.
    pub open spec fn fits_layout(self) -> bool {
        &&& encode_utf8(self.city_name).len() <= MAX_TEXT_BYTES
        &&& encode_utf8(self.country).len() <= MAX_TEXT_BYTES
    }

    /// The entry after a write of `rate` at time `now`.
    pub open spec fn restamped(self, rate: u64, now: u64) -> CityRate {
        CityRate { rate, timestamp: now, ..self }
    }
}

impl RegistryState {
    /// The registry right after its creation for `admin`.
    pub open spec fn initial(admin: Seq<u8>) -> RegistryState {
        RegistryState { admin, cities: Seq::empty() }
    }

    /// The city names, in the order of the entries.
    pub open spec fn names(self) -> Seq<Seq<char>> {
        self.cities.map_values(|c: CityRate| c.city_name)
    }

    /// Whether some entry is named `name`.
    pub open spec fn has_city(self, name: Seq<char>) -> bool {
        self.names().contains(name)
    }

    /// The index of the first entry named `name`, if there is one.
    pub open spec fn position(self, name: Seq<char>) -> Option<int> {
        self.names().index_of_first(name)
    }

    /// The rate recorded for `name`, if there is an entry of that name.
    pub open spec fn rate_of(self, name: Seq<char>) -> Option<u64> {
        match self.position(name) {
            Some(i) => Some(self.cities[i].rate),
            None => None,
        }
    }

    /// The time of the last write to the entry named `name`, if there is one.
    pub open spec fn timestamp_of(self, name: Seq<char>) -> Option<u64> {
        match self.position(name) {
            Some(i) => Some(self.cities[i].timestamp),
            None => None,
        }
    }

    /// Whether the stored layout has room for `entry` as one more entry.
    pub open spec fn has_room_for(self, entry: CityRate) -> bool {
        self.cities.len() < MAX_CITIES && entry.fits_layout()
    }

    /// The structural invariant of the registry: no two entries share a
    /// name, and the entries fit the stored layout in number and in size.
    pub open spec fn well_formed(self) -> bool {
        &&& self.names().no_duplicates()
        &&& self.cities.len() <= MAX_CITIES
        &&& forall|i: int| 0 <= i < self.cities.len() ==> (#[trigger] self.cities[i]).fits_layout()
    }

    /// Whether no entry carries a timestamp later than `t`.
    pub open spec fn written_by(self, t: u64) -> bool {
        forall|i: int| 0 <= i < self.cities.len() ==> (#[trigger] self.cities[i]).timestamp <= t
    }

    /// The authorization guard: only the administrator may change the
    /// registry.
    pub open spec fn authorizes(self, caller: Seq<u8>) -> bool {
        caller == self.admin
    }

    /// What is decided about an insertion before the clock is read.
    pub open spec fn admits_new_city(self, caller: Seq<u8>, name: Seq<char>) -> Result<
        (),
        TransitionError,
    > {
        if !self.authorizes(caller) {
            Err(TransitionError::Oracle(OracleError::Unauthorized))
        } else if self.has_city(name) {
            Err(TransitionError::Oracle(OracleError::CityAlreadyExists))
        } else {
            Ok(())
        }
    }

    /// What is decided about an update before the clock is read.
    pub open spec fn admits_rate_update(self, caller: Seq<u8>, name: Seq<char>) -> Result<
        (),
        TransitionError,
    > {
        if !self.authorizes(caller) {
            Err(TransitionError::Oracle(OracleError::Unauthorized))
        } else if !self.has_city(name) {
            Err(TransitionError::Oracle(OracleError::CityNotSupported))
        } else {
            Ok(())
        }
    }

    /// The registry with `entry` appended.
    pub open spec fn with_city(self, entry: CityRate) -> RegistryState {
        RegistryState { cities: self.cities.push(entry), ..self }
    }

    /// The registry after a write of `rate` at time `now` to the first
    /// entry named `name`; the registry itself where there is none.
    pub open spec fn with_rate(self, name: Seq<char>, rate: u64, now: u64) -> RegistryState {
        match self.position(name) {
            Some(i) => RegistryState {
                cities: self.cities.update(i, self.cities[i].restamped(rate, now)),
                ..self
            },
            None => self,
        }
    }

    /// The insertion of `entry` on behalf of `caller`: the next registry,
    /// or the reason why there is none.
    pub open spec fn add_city(self, caller: Seq<u8>, entry: CityRate) -> Result<
        RegistryState,
        TransitionError,
    > {
        match self.admits_new_city(caller, entry.city_name) {
            Err(e) => Err(e),
            Ok(_) => if self.has_room_for(entry) {
                Ok(self.with_city(entry))
            } else {
                Err(TransitionError::CapacityExceeded)
            },
        }
    }

    /// The update of the rate of `name` on behalf of `caller` at time
    /// `now`: the next registry, or the reason why there is none.
    pub open spec fn update_city_rate(
        self,
        caller: Seq<u8>,
        name: Seq<char>,
        rate: u64,
        now: u64,
    ) -> Result<RegistryState, TransitionError> {
        match self.admits_rate_update(caller, name) {
            Err(e) => Err(e),
            Ok(_) => Ok(self.with_rate(name, rate, now)),
        }
    }

    /// The lookup of the rate of `name`.
    pub open spec fn get_circle_rate(self, name: Seq<char>) -> Result<u64, OracleError> {
        match self.rate_of(name) {
            Some(rate) => Ok(rate),
            None => Err(OracleError::CityNotSupported),
        }
    }
}

/// The entry that an insertion at time `now` appends.
pub open spec fn new_entry(
    city_name: Seq<char>,
    area: u64,
    circle_rate: u64,
    country: Seq<char>,
    now: u64,
) -> CityRate {
    CityRate { city_name, rate: circle_rate, timestamp: now, country, area }
}

/// A mutating request, together with the clock reading it is stamped with.
pub enum Transition {
    /// The insertion of an entry.
    AddCity {
        caller: Seq<u8>,
        city_name: Seq<char>,
        area: u64,
        circle_rate: u64,
        country: Seq<char>,
        now: u64,
    },
    /// The update of the rate of an entry.
    UpdateCityRate { caller: Seq<u8>, city_name: Seq<char>, rate: u64, now: u64 },
}

impl Transition {
    /// The clock reading of the request.
    pub open spec fn now(self) -> u64 {
        match self {
            Transition::AddCity { now, .. } => now,
            Transition::UpdateCityRate { now, .. } => now,
        }
    }

    /// The identity that makes the request.
    pub open spec fn caller(self) -> Seq<u8> {
        match self {
            Transition::AddCity { caller, .. } => caller,
            Transition::UpdateCityRate { caller, .. } => caller,
        }
    }

    /// The name of the city the request is about.
    pub open spec fn city_name(self) -> Seq<char> {
        match self {
            Transition::AddCity { city_name, .. } => city_name,
            Transition::UpdateCityRate { city_name, .. } => city_name,
        }
    }

    /// The rate the request carries.
    pub open spec fn rate(self) -> u64 {
        match self {
            Transition::AddCity { circle_rate, .. } => circle_rate,
            Transition::UpdateCityRate { rate, .. } => rate,
        }
    }
}

/// Whether the clock readings of the requests never go back.
pub open spec fn clock_never_runs_back(requests: Seq<Transition>) -> bool {
    forall|i: int, j: int|
        0 <= i <= j < requests.len() ==> (#[trigger] requests[i]).now() <= (
        #[trigger] requests[j]).now()
}

impl RegistryState {
    /// What the request answers on this registry.
    pub open spec fn outcome(self, request: Transition) -> Result<RegistryState, TransitionError> {
        match request {
            Transition::AddCity { caller, city_name, area, circle_rate, country, now } => {
                self.add_city(caller, new_entry(city_name, area, circle_rate, country, now))
            },
            Transition::UpdateCityRate { caller, city_name, rate, now } => {
                self.update_city_rate(caller, city_name, rate, now)
            },
        }
    }

    /// The registry after the request: a refused request changes nothing.
    pub open spec fn apply(self, request: Transition) -> RegistryState {
        match self.outcome(request) {
            Ok(next) => next,
            Err(_) => self,
        }
    }

    /// The registry after the requests, one after the other.
    pub open spec fn run(self, requests: Seq<Transition>) -> RegistryState
        decreases requests.len(),
    {
        if requests.len() == 0 {
            self
        } else {
            self.run(requests.drop_last()).apply(requests.last())
        }
    }
}

} // verus!
