//! What holds of the registry whatever requests it is sent.

use crate::error::{OracleError, TransitionError};
use crate::model::{
    clock_never_runs_back, new_entry, CityRate, RegistryState, Transition, MAX_CITIES,
};
use vstd::prelude::*;

verus! {

/// The place of a name is the place of the first entry of that name, and
/// there is such a place exactly when some entry has the name.
pub proof fn law_position_is_first_of_name(s: RegistryState, name: Seq<char>)
    ensures
        s.has_city(name) <==> s.position(name) is Some,
        match s.position(name) {
            Some(i) => {
                &&& 0 <= i < s.cities.len()
                &&& s.cities[i].city_name == name
                &&& forall|j: int| 0 <= j < i ==> (#[trigger] s.cities[j]).city_name != name
            },
            None => forall|j: int|
                0 <= j < s.cities.len() ==> (#[trigger] s.cities[j]).city_name != name,
        },
{
    s.names().index_of_first_ensures(name);
    match s.position(name) {
        Some(i) => {
            assert forall|j: int| 0 <= j < i implies (#[trigger] s.cities[j]).city_name != name by {
                assert(s.names()[j] != name);
            }
        },
        None => {
            assert forall|j: int| 0 <= j < s.cities.len() implies (#[trigger] s.cities[j]).city_name
                != name by {
                assert(s.names()[j] == s.cities[j].city_name);
            }
        },
    }
}

/// A write to an entry keeps the names of all entries, hence their places.
pub proof fn lemma_with_rate_keeps_names(s: RegistryState, name: Seq<char>, rate: u64, now: u64)
    ensures
        s.with_rate(name, rate, now).names() == s.names(),
        s.with_rate(name, rate, now).admin == s.admin,
        s.with_rate(name, rate, now).cities.len() == s.cities.len(),
{
    s.names().index_of_first_ensures(name);
}

/// A write to an entry keeps the registry well formed.
pub proof fn lemma_with_rate_keeps_well_formed(
    s: RegistryState,
    name: Seq<char>,
    rate: u64,
    now: u64,
)
    requires
        s.well_formed(),
    ensures
        s.with_rate(name, rate, now).well_formed(),
{
    lemma_with_rate_keeps_names(s, name, rate, now);
    s.names().index_of_first_ensures(name);
}

/// An insertion that is accepted keeps the registry well formed.
pub proof fn lemma_with_city_keeps_well_formed(s: RegistryState, entry: CityRate)
    requires
        s.well_formed(),
        !s.has_city(entry.city_name),
        s.has_room_for(entry),
    ensures
        s.with_city(entry).well_formed(),
{
    let t = s.with_city(entry);
    assert forall|i: int, j: int|
        0 <= i < t.names().len() && 0 <= j < t.names().len() && i != j implies t.names()[i]
        != t.names()[j] by {
        if i < s.names().len() && j < s.names().len() {
            assert(s.names()[i] != s.names()[j]);
        } else if i < s.names().len() {
            assert(s.names().contains(s.names()[i]));
        } else {
            assert(s.names().contains(s.names()[j]));
        }
    }
}

/// An insertion leaves every entry that was present at its place.
pub proof fn lemma_with_city_keeps_places(s: RegistryState, entry: CityRate, name: Seq<char>)
    requires
        s.has_city(name),
    ensures
        s.with_city(entry).has_city(name),
        s.with_city(entry).position(name) == s.position(name),
        s.with_city(entry).rate_of(name) == s.rate_of(name),
        s.with_city(entry).timestamp_of(name) == s.timestamp_of(name),
{
    let t = s.with_city(entry);
    s.names().index_of_first_ensures(name);
    let a = s.names().index_of_first(name)->0;
    assert(t.names()[a] == name);
    t.names().index_of_first_ensures(name);
    let b = t.names().index_of_first(name)->0;
    assert(s.names()[b] == t.names()[b]);
}

/// A new registry is well formed.
pub proof fn law_initial_is_well_formed(admin: Seq<u8>)
    ensures
        RegistryState::initial(admin).well_formed(),
        RegistryState::initial(admin).admin == admin,
        RegistryState::initial(admin).cities.len() == 0,
{
}

/// No request, accepted or refused, breaks the structural invariant: after
/// it no two entries share a name, and there are at most `MAX_CITIES`
/// entries.
pub proof fn law_request_keeps_well_formed(s: RegistryState, request: Transition)
    requires
        s.well_formed(),
    ensures
        s.apply(request).well_formed(),
        s.apply(request).names().no_duplicates(),
        s.apply(request).cities.len() <= MAX_CITIES,
{
    match request {
        Transition::AddCity { caller, city_name, area, circle_rate, country, now } => {
            let entry = new_entry(city_name, area, circle_rate, country, now);
            if s.add_city(caller, entry) is Ok {
                lemma_with_city_keeps_well_formed(s, entry);
            }
        },
        Transition::UpdateCityRate { caller, city_name, rate, now } => {
            lemma_with_rate_keeps_well_formed(s, city_name, rate, now);
        },
    }
}

/// Whatever requests a well-formed registry is sent, in whatever order, it
/// stays well formed: its names stay distinct and its entries stay within
/// the capacity.
pub proof fn law_requests_keep_well_formed(s: RegistryState, requests: Seq<Transition>)
    requires
        s.well_formed(),
    ensures
        s.run(requests).well_formed(),
        s.run(requests).names().no_duplicates(),
        s.run(requests).cities.len() <= MAX_CITIES,
    decreases requests.len(),
{
    if requests.len() > 0 {
        law_requests_keep_well_formed(s, requests.drop_last());
        law_request_keeps_well_formed(s.run(requests.drop_last()), requests.last());
    }
}

/// Whatever requests a registry is sent from its creation on, no two of its
/// entries share a name and it has at most `MAX_CITIES` entries.
pub proof fn law_registry_is_always_well_formed(admin: Seq<u8>, requests: Seq<Transition>)
    ensures
        RegistryState::initial(admin).run(requests).well_formed(),
        RegistryState::initial(admin).run(requests).names().no_duplicates(),
        RegistryState::initial(admin).run(requests).cities.len() <= MAX_CITIES,
{
    law_initial_is_well_formed(admin);
    law_requests_keep_well_formed(RegistryState::initial(admin), requests);
}

/// No request changes the administrator.
pub proof fn law_admin_never_changes(s: RegistryState, requests: Seq<Transition>)
    ensures
        s.run(requests).admin == s.admin,
    decreases requests.len(),
{
    if requests.len() > 0 {
        law_admin_never_changes(s, requests.drop_last());
        let before = s.run(requests.drop_last());
        match requests.last() {
            Transition::AddCity { .. } => {},
            Transition::UpdateCityRate { caller, city_name, rate, now } => {
                lemma_with_rate_keeps_names(before, city_name, rate, now);
            },
        }
    }
}

/// An accepted update changes the rate and the timestamp of the one entry
/// it is about, and nothing else: the administrator, the number and the
/// order of the entries, every other entry, and the name, the country and
/// the area of the entry itself are as before.
pub proof fn law_update_changes_rate_and_timestamp_only(
    s: RegistryState,
    caller: Seq<u8>,
    name: Seq<char>,
    rate: u64,
    now: u64,
)
    requires
        s.outcome((Transition::UpdateCityRate { caller, city_name: name, rate, now })) is Ok,
    ensures
        ({
            let t = s.apply((Transition::UpdateCityRate { caller, city_name: name, rate, now }));
            let at = s.position(name)->0;
            &&& s.position(name) is Some
            &&& 0 <= at < s.cities.len()
            &&& t.admin == s.admin
            &&& t.cities.len() == s.cities.len()
            &&& forall|j: int| 0 <= j < s.cities.len() && j != at ==> t.cities[j] == s.cities[j]
            &&& t.cities[at].city_name == s.cities[at].city_name
            &&& t.cities[at].city_name == name
            &&& t.cities[at].country == s.cities[at].country
            &&& t.cities[at].area == s.cities[at].area
            &&& t.cities[at].rate == rate
            &&& t.cities[at].timestamp == now
        }),
{
    s.names().index_of_first_ensures(name);
}

/// A request of another identity than the administrator is refused as
/// `Unauthorized`, whatever it asks for, and changes nothing.
pub proof fn law_stranger_is_refused(s: RegistryState, request: Transition)
    requires
        request.caller() != s.admin,
    ensures
        s.outcome(request) == Err::<RegistryState, TransitionError>(
            TransitionError::Oracle(OracleError::Unauthorized),
        ),
        s.apply(request) == s,
{
}

/// The rate and the timestamp of an entry change through an accepted update
/// of that very city and through nothing else. Whatever the request, the
/// entry stays where it is.
pub proof fn law_entry_changes_by_its_update_only(
    s: RegistryState,
    request: Transition,
    name: Seq<char>,
)
    requires
        s.has_city(name),
    ensures
        s.apply(request).has_city(name),
        s.apply(request).position(name) == s.position(name),
        request is UpdateCityRate && request.city_name() == name && s.outcome(request) is Ok ==> {
            &&& s.apply(request).rate_of(name) == Some(request.rate())
            &&& s.apply(request).timestamp_of(name) == Some(request.now())
        },
        !(request is UpdateCityRate && request.city_name() == name && s.outcome(request) is Ok)
            ==> {
            &&& s.apply(request).rate_of(name) == s.rate_of(name)
            &&& s.apply(request).timestamp_of(name) == s.timestamp_of(name)
        },
{
    s.names().index_of_first_ensures(name);
    match request {
        Transition::AddCity { caller, city_name, area, circle_rate, country, now } => {
            let entry = new_entry(city_name, area, circle_rate, country, now);
            lemma_with_city_keeps_places(s, entry, name);
        },
        Transition::UpdateCityRate { caller, city_name, rate, now } => {
            lemma_with_rate_keeps_names(s, city_name, rate, now);
            s.names().index_of_first_ensures(city_name);
        },
    }
}

/// A request whose clock reading is no earlier than the timestamp of an
/// entry does not lower that timestamp.
pub proof fn law_request_never_lowers_a_timestamp(
    s: RegistryState,
    request: Transition,
    name: Seq<char>,
)
    requires
        s.has_city(name),
        s.timestamp_of(name)->0 <= request.now(),
    ensures
        s.apply(request).has_city(name),
        s.apply(request).position(name) == s.position(name),
        s.timestamp_of(name)->0 <= s.apply(request).timestamp_of(name)->0 <= request.now(),
{
    law_entry_changes_by_its_update_only(s, request, name);
    s.names().index_of_first_ensures(name);
}

/// A request stamped no earlier than every entry leaves every entry
/// stamped no later than itself.
pub proof fn lemma_request_keeps_written_by(s: RegistryState, request: Transition)
    requires
        s.written_by(request.now()),
    ensures
        s.apply(request).written_by(request.now()),
{
    s.names().index_of_first_ensures(request.city_name());
}

/// Under a clock that never runs back, the timestamp of an entry never
/// decreases: of two moments in a run of requests, the later one finds the
/// entry still there, at its place, and stamped no earlier than the first
/// one found it. The clock must not have run back since the last write to
/// the registry the run starts from.
pub proof fn law_timestamps_never_decrease(
    s: RegistryState,
    requests: Seq<Transition>,
    earlier: int,
    later: int,
    name: Seq<char>,
)
    requires
        clock_never_runs_back(requests),
        requests.len() > 0 ==> s.written_by(requests[0].now()),
        0 <= earlier <= later <= requests.len(),
        s.run(requests.take(earlier)).has_city(name),
    ensures
        s.run(requests.take(later)).has_city(name),
        s.run(requests.take(later)).position(name) == s.run(requests.take(earlier)).position(name),
        s.run(requests.take(earlier)).timestamp_of(name)->0 <= s.run(
            requests.take(later),
        ).timestamp_of(name)->0,
    decreases later - earlier,
{
    if earlier < later {
        law_timestamps_never_decrease(s, requests, earlier, later - 1, name);
        lemma_run_is_written_by_next(s, requests, later - 1);
        assert(requests.take(later).drop_last() =~= requests.take(later - 1));
        s.run(requests.take(later - 1)).names().index_of_first_ensures(name);
        law_request_never_lowers_a_timestamp(
            s.run(requests.take(later - 1)),
            requests[later - 1],
            name,
        );
    }
}

/// Under a clock that never runs back, the registry before a request holds
/// no timestamp later than the clock reading of that request.
pub proof fn lemma_run_is_written_by_next(s: RegistryState, requests: Seq<Transition>, n: int)
    requires
        clock_never_runs_back(requests),
        requests.len() > 0 ==> s.written_by(requests[0].now()),
        0 <= n < requests.len(),
    ensures
        s.run(requests.take(n)).written_by(requests[n].now()),
    decreases n,
{
    if n > 0 {
        lemma_run_is_written_by_next(s, requests, n - 1);
        assert(requests.take(n).drop_last() =~= requests.take(n - 1));
        let before = s.run(requests.take(n - 1));
        lemma_request_keeps_written_by(before, requests[n - 1]);
    }
}

/// Under a clock that never runs back, repeated updates to one entry of a
/// registry that was created empty never lower its timestamp.
pub proof fn law_timestamps_never_decrease_from_creation(
    admin: Seq<u8>,
    requests: Seq<Transition>,
    earlier: int,
    later: int,
    name: Seq<char>,
)
    requires
        clock_never_runs_back(requests),
        0 <= earlier <= later <= requests.len(),
        RegistryState::initial(admin).run(requests.take(earlier)).has_city(name),
    ensures
        RegistryState::initial(admin).run(requests.take(later)).has_city(name),
        RegistryState::initial(admin).run(requests.take(earlier)).timestamp_of(name)->0
            <= RegistryState::initial(admin).run(requests.take(later)).timestamp_of(name)->0,
{
    law_timestamps_never_decrease(RegistryState::initial(admin), requests, earlier, later, name);
}

/// No request is refused for the rate it carries: `RateNotValid` is never
/// the answer, neither to a mutating request nor to a lookup.
pub proof fn law_no_request_is_refused_for_its_rate(
    s: RegistryState,
    request: Transition,
    name: Seq<char>,
)
    ensures
        s.outcome(request) != Err::<RegistryState, TransitionError>(
            TransitionError::Oracle(OracleError::RateNotValid),
        ),
        s.get_circle_rate(name) != Err::<u64, OracleError>(OracleError::RateNotValid),
{
}

/// After an accepted request the city it names is found with the rate the
/// request carries, stamped with the clock reading of the request.
pub proof fn law_accepted_rate_is_found(s: RegistryState, request: Transition)
    requires
        s.outcome(request) is Ok,
    ensures
        s.apply(request).has_city(request.city_name()),
        s.apply(request).get_circle_rate(request.city_name()) == Ok::<u64, OracleError>(
            request.rate(),
        ),
        s.apply(request).timestamp_of(request.city_name()) == Some(request.now()),
{
    let t = s.apply(request);
    let name = request.city_name();
    s.names().index_of_first_ensures(name);
    t.names().index_of_first_ensures(name);
    match request {
        Transition::AddCity { caller, city_name, area, circle_rate, country, now } => {
            let last = s.cities.len() as int;
            assert(t.names()[last] == name);
            let first = t.names().index_of_first(name)->0;
            if first < last {
                assert(s.names()[first] == name);
            }
        },
        Transition::UpdateCityRate { caller, city_name, rate, now } => {
            lemma_with_rate_keeps_names(s, city_name, rate, now);
        },
    }
}

/// An accepted insertion appends its entry and leaves the others as they
/// were, each at its place.
pub proof fn law_insertion_appends(
    s: RegistryState,
    caller: Seq<u8>,
    city_name: Seq<char>,
    area: u64,
    circle_rate: u64,
    country: Seq<char>,
    now: u64,
)
    requires
        s.outcome(
            (Transition::AddCity { caller, city_name, area, circle_rate, country, now }),
        ) is Ok,
    ensures
        ({
            let t = s.apply(
                (Transition::AddCity { caller, city_name, area, circle_rate, country, now }),
            );
            &&& t.admin == s.admin
            &&& t.cities.len() == s.cities.len() + 1
            &&& t.cities.drop_last() == s.cities
            &&& t.cities.last() == new_entry(city_name, area, circle_rate, country, now)
        }),
{
}

/// In a well-formed registry an entry is the only one of its name.
pub proof fn law_well_formed_names_are_unique(s: RegistryState, i: int)
    requires
        s.well_formed(),
        0 <= i < s.cities.len(),
    ensures
        s.position(s.cities[i].city_name) == Some(i),
        forall|j: int|
            0 <= j < s.cities.len() && j != i ==> (#[trigger] s.cities[j]).city_name
                != s.cities[i].city_name,
{
    let name = s.cities[i].city_name;
    assert(s.names()[i] == name);
    s.names().index_of_first_ensures(name);
    assert forall|j: int| 0 <= j < s.cities.len() && j != i implies (#[trigger] s.cities[j]).city_name
        != name by {
        assert(s.names()[j] != s.names()[i]);
    }
}

} // verus!
