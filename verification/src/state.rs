//! The stored registry: the administrator and the entries of the cities.

use crate::error::TransitionError;
use crate::identity::Identity;
use crate::model::{CityRate, RegistryState, MAX_CITIES, MAX_TEXT_BYTES};
use vstd::prelude::*;

verus! {

/// The entry of one city.
#[derive(Debug, PartialEq, Eq)]
pub struct CircleInfo {
    pub city_name: String,
    pub rate: u64,
    pub timestamp: u64,
    pub country: String,
    pub area: u64,
}

/// The registry: its administrator and its entries in the order in which
/// they were added.
#[derive(Debug, PartialEq, Eq)]
pub struct OracleState {
    pub admin: Identity,
    pub circle_rates: Vec<CircleInfo>,
}

impl View for CircleInfo {
    type V = CityRate;

    open spec fn view(&self) -> CityRate {
        CityRate {
            city_name: self.city_name@,
            rate: self.rate,
            timestamp: self.timestamp,
            country: self.country@,
            area: self.area,
        }
    }
}

impl Clone for CircleInfo {
    fn clone(&self) -> (copy: CircleInfo)
        ensures
            copy == *self,
    {
        CircleInfo {
            city_name: self.city_name.clone(),
            rate: self.rate,
            timestamp: self.timestamp,
            country: self.country.clone(),
            area: self.area,
        }
    }
}

impl Clone for OracleState {
    fn clone(&self) -> (copy: OracleState)
        ensures
            copy.admin == self.admin,
            copy.circle_rates@ == self.circle_rates@,
            copy@ == self@,
    {
        OracleState { admin: self.admin, circle_rates: self.circle_rates.clone() }
    }
}

/// The values of a run of entries.
pub open spec fn entries_view(entries: Seq<CircleInfo>) -> Seq<CityRate> {
    entries.map_values(|c: CircleInfo| c@)
}

impl View for OracleState {
    type V = RegistryState;

    open spec fn view(&self) -> RegistryState {
        RegistryState { admin: self.admin@, cities: entries_view(self.circle_rates@) }
    }
}

/// The number of bytes of a text in its UTF-8 encoding.
fn byte_length(text: &String) -> (n: usize)
    ensures
        n == vstd::utf8::encode_utf8(text@).len(),
{
    text.as_str().as_bytes().len()
}

impl CircleInfo {
    /// Whether both texts of the entry fit the stored layout.
    pub fn fits_layout(&self) -> (fits: bool)
        ensures
            fits == self@.fits_layout(),
    {
        byte_length(&self.city_name) <= MAX_TEXT_BYTES && byte_length(&self.country)
            <= MAX_TEXT_BYTES
    }
}

impl OracleState {
    /// A registry without entries, administered by `admin`.
    pub fn new(admin: Identity) -> (state: OracleState)
        ensures
            state@ == RegistryState::initial(admin@),
            state.admin == admin,
            state@.well_formed(),
    {
        let state = OracleState { admin, circle_rates: Vec::new() };
        assert(state@.cities =~= Seq::<CityRate>::empty());
        state
    }

    /// The index of the first entry named `city_name`, if there is one.
    pub fn position_of(&self, city_name: &String) -> (found: Option<usize>)
        ensures
            match found {
                Some(i) => self@.position(city_name@) == Some(i as int) && i
                    < self.circle_rates.len(),
                None => self@.position(city_name@) is None,
            },
    {
        let ghost names = self@.names();
        let mut i: usize = 0;
        while i < self.circle_rates.len()
            invariant
                0 <= i <= self.circle_rates.len(),
                names == self@.names(),
                names.len() == self.circle_rates.len(),
                forall|k: int| 0 <= k < i ==> names[k] != city_name@,
            decreases self.circle_rates.len() - i,
        {
            assert(names[i as int] == self.circle_rates[i as int].city_name@);
            if self.circle_rates[i].city_name == *city_name {
                proof {
                    names.index_of_first_ensures(city_name@);
                }
                return Some(i);
            }
            i += 1;
        }
        proof {
            names.index_of_first_ensures(city_name@);
        }
        None
    }

    /// Whether some entry is named `city_name`.
    pub fn has_city(&self, city_name: &String) -> (present: bool)
        ensures
            present == self@.has_city(city_name@),
    {
        proof {
            self@.names().index_of_first_ensures(city_name@);
        }
        self.position_of(city_name).is_some()
    }

    /// Whether the registry meets its structural invariant: no two entries
    /// share a name, and the entries fit the stored layout in number and in
    /// size.
    pub fn is_well_formed(&self) -> (ok: bool)
        ensures
            ok == self@.well_formed(),
    {
        if self.circle_rates.len() > MAX_CITIES {
            return false;
        }
        let ghost names = self@.names();
        let ghost cities = self@.cities;
        let mut i: usize = 0;
        while i < self.circle_rates.len()
            invariant
                0 <= i <= self.circle_rates.len(),
                names == self@.names(),
                cities == self@.cities,
                cities.len() == self.circle_rates.len(),
                names.len() == self.circle_rates.len(),
                forall|k: int| 0 <= k < i ==> (#[trigger] cities[k]).fits_layout(),
                forall|a: int, b: int| 0 <= a < b < i ==> names[a] != names[b],
            decreases self.circle_rates.len() - i,
        {
            assert(cities[i as int] == self.circle_rates[i as int]@);
            if !self.circle_rates[i].fits_layout() {
                return false;
            }
            let mut j: usize = 0;
            while j < i
                invariant
                    0 <= j <= i < self.circle_rates.len(),
                    names == self@.names(),
                    names.len() == self.circle_rates.len(),
                    forall|k: int| 0 <= k < j ==> names[k] != names[i as int],
                decreases i - j,
            {
                assert(names[j as int] == self.circle_rates[j as int].city_name@);
                assert(names[i as int] == self.circle_rates[i as int].city_name@);
                if self.circle_rates[j].city_name == self.circle_rates[i].city_name {
                    return false;
                }
                j += 1;
            }
            i += 1;
        }
        true
    }

    /// Appends `entry` where the stored layout has room for it, and refuses
    /// it otherwise. Neither a caller nor the name of the entry is looked
    /// at: that is for the requests to do.
    pub fn append(&mut self, entry: CircleInfo) -> (result: Result<(), TransitionError>)
        ensures
            final(self).admin == old(self).admin,
            old(self)@.has_room_for(entry@) ==> {
                &&& result is Ok
                &&& final(self).circle_rates@ == old(self).circle_rates@.push(entry)
                &&& final(self)@ == old(self)@.with_city(entry@)
            },
            !old(self)@.has_room_for(entry@) ==> result == Err::<(), TransitionError>(
                TransitionError::CapacityExceeded,
            ) && *final(self) == *old(self),
    {
        if self.circle_rates.len() >= MAX_CITIES || !entry.fits_layout() {
            return Err(TransitionError::CapacityExceeded);
        }
        let ghost value = entry@;
        self.circle_rates.push(entry);
        assert(self@.cities =~= old(self)@.cities.push(value));
        Ok(())
    }

    /// Writes `rate` and the time `now` to the entry at `index`, and
    /// touches nothing else.
    pub(crate) fn restamp(&mut self, index: usize, rate: u64, now: u64)
        requires
            index < old(self).circle_rates.len(),
        ensures
            final(self).admin == old(self).admin,
            final(self).circle_rates@ == old(self).circle_rates@.update(
                index as int,
                (CircleInfo { rate, timestamp: now, ..old(self).circle_rates@[index as int] }),
            ),
            final(self)@.cities == old(self)@.cities.update(
                index as int,
                old(self)@.cities[index as int].restamped(rate, now),
            ),
    {
        self.circle_rates[index].rate = rate;
        self.circle_rates[index].timestamp = now;
    }
}

} // verus!
