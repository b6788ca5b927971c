//! The requests the registry answers.
//!
//! The two mutating requests come in two forms. `add_city` and
//! `update_city_rate` read the clock themselves, after the request has
//! passed the checks that need no clock. `add_city_at` and
//! `update_city_rate_at` are given the time of the write, and answer
//! exactly as the model of the registry says.

use crate::accounts::{AdminAccount, Initialize, ViewRate};
use crate::clock::{read_unix_timestamp, timestamp_from_unix};
use crate::error::{OracleError, TransitionError};
use crate::guard::authorize;
use crate::identity::Identity;
use crate::laws::{lemma_with_city_keeps_well_formed, lemma_with_rate_keeps_well_formed};
use crate::model::{CityRate, RegistryState, Transition};
use crate::state::{entries_view, CircleInfo};
use vstd::prelude::*;

verus! {

/// Whether a request that took the registry from `before` to `after` and
/// answered `result` did what `outcome` asks for: on `Ok` the registry is
/// the next one, on `Err` the error is reported and nothing has changed.
pub open spec fn answers(
    outcome: Result<RegistryState, TransitionError>,
    before: RegistryState,
    result: Result<(), TransitionError>,
    after: RegistryState,
) -> bool {
    match outcome {
        Ok(next) => result is Ok && after == next,
        Err(e) => result == Err::<(), TransitionError>(e) && after == before,
    }
}

/// Whether each of `after` is the entry of `before` at its place, but for
/// its rate and its timestamp.
pub open spec fn only_rates_restamped(before: Seq<CircleInfo>, after: Seq<CircleInfo>) -> bool {
    &&& after.len() == before.len()
    &&& forall|j: int|
        0 <= j < before.len() ==> #[trigger] after[j] == (CircleInfo {
            rate: after[j].rate,
            timestamp: after[j].timestamp,
            ..before[j]
        })
}

/// The checks of an update that need no clock. Hands back the place of the
/// entry to write to.
fn admit_rate_update(ctx: &AdminAccount, city_name: &String) -> (admitted: Result<
    usize,
    TransitionError,
>)
    ensures
        match admitted {
            Ok(i) => {
                &&& ctx.oracle_state@.admits_rate_update(ctx.admin@, city_name@) is Ok
                &&& ctx.oracle_state@.position(city_name@) == Some(i as int)
                &&& i < ctx.oracle_state.circle_rates.len()
            },
            Err(e) => ctx.oracle_state@.admits_rate_update(ctx.admin@, city_name@) == Err::<
                (),
                TransitionError,
            >(e),
        },
{
    proof {
        ctx.oracle_state@.names().index_of_first_ensures(city_name@);
    }
    match authorize(&ctx.admin, &ctx.oracle_state.admin) {
        Err(e) => Err(TransitionError::Oracle(e)),
        Ok(_) => match ctx.oracle_state.position_of(city_name) {
            None => Err(TransitionError::Oracle(OracleError::CityNotSupported)),
            Some(i) => Ok(i),
        },
    }
}

/// The checks of an insertion that need no clock.
fn admit_new_city(ctx: &AdminAccount, city_name: &String) -> (admitted: Result<
    (),
    TransitionError,
>)
    ensures
        admitted == ctx.oracle_state@.admits_new_city(ctx.admin@, city_name@),
{
    match authorize(&ctx.admin, &ctx.oracle_state.admin) {
        Err(e) => Err(TransitionError::Oracle(e)),
        Ok(_) => if ctx.oracle_state.has_city(city_name) {
            Err(TransitionError::Oracle(OracleError::CityAlreadyExists))
        } else {
            Ok(())
        },
    }
}

/// Writes `rate` and `now` to the entry that an admitted update is about.
fn write_rate(ctx: &mut AdminAccount, at: usize, city_name: &String, rate: u64, now: u64)
    requires
        old(ctx).oracle_state@.position(city_name@) == Some(at as int),
        at < old(ctx).oracle_state.circle_rates.len(),
    ensures
        final(ctx).oracle_state@ == old(ctx).oracle_state@.with_rate(city_name@, rate, now),
        final(ctx).admin == old(ctx).admin,
        final(ctx).oracle_state.admin == old(ctx).oracle_state.admin,
        only_rates_restamped(
            old(ctx).oracle_state.circle_rates@,
            final(ctx).oracle_state.circle_rates@,
        ),
        old(ctx).oracle_state@.well_formed() ==> final(ctx).oracle_state@.well_formed(),
{
    ctx.oracle_state.restamp(at, rate, now);
    proof {
        if old(ctx).oracle_state@.well_formed() {
            lemma_with_rate_keeps_well_formed(old(ctx).oracle_state@, city_name@, rate, now);
        }
    }
}

/// Appends the entry of an admitted insertion, if the stored layout has
/// room for it.
fn append_city(
    ctx: &mut AdminAccount,
    city_name: String,
    area: u64,
    circle_rate: u64,
    country: String,
    now: u64,
) -> (result: Result<(), TransitionError>)
    requires
        old(ctx).oracle_state@.admits_new_city(old(ctx).admin@, city_name@) is Ok,
    ensures
        answers(
            old(ctx).oracle_state@.outcome(
                (Transition::AddCity {
                    caller: old(ctx).admin@,
                    city_name: city_name@,
                    area,
                    circle_rate,
                    country: country@,
                    now,
                }),
            ),
            old(ctx).oracle_state@,
            result,
            final(ctx).oracle_state@,
        ),
        final(ctx).admin == old(ctx).admin,
        final(ctx).oracle_state.admin == old(ctx).oracle_state.admin,
        result is Ok ==> final(ctx).oracle_state.circle_rates@ == old(
            ctx,
        ).oracle_state.circle_rates@.push(
            (CircleInfo { city_name, rate: circle_rate, timestamp: now, country, area }),
        ),
        result is Err ==> *final(ctx) == *old(ctx),
        old(ctx).oracle_state@.well_formed() ==> final(ctx).oracle_state@.well_formed(),
{
    let entry = CircleInfo { city_name, rate: circle_rate, timestamp: now, country, area };
    proof {
        if old(ctx).oracle_state@.well_formed() && old(ctx).oracle_state@.has_room_for(entry@) {
            lemma_with_city_keeps_well_formed(old(ctx).oracle_state@, entry@);
        }
    }
    ctx.oracle_state.append(entry)
}

/// Sets the rate of the city named `city_name` and stamps the entry with
/// `now`, on behalf of the signer of `ctx`.
///
/// The signer must be the administrator, else the answer is
/// `Unauthorized`; the city must be present, else it is
/// `CityNotSupported`. A refused request changes nothing. An accepted one
/// changes the rate and the timestamp of that one entry and nothing else.
pub fn update_city_rate_at(ctx: &mut AdminAccount, city_name: String, rate: u64, now: u64) -> (result:
    Result<(), TransitionError>)
    ensures
        answers(
            old(ctx).oracle_state@.outcome(
                (Transition::UpdateCityRate {
                    caller: old(ctx).admin@,
                    city_name: city_name@,
                    rate,
                    now,
                }),
            ),
            old(ctx).oracle_state@,
            result,
            final(ctx).oracle_state@,
        ),
        final(ctx).admin == old(ctx).admin,
        final(ctx).oracle_state.admin == old(ctx).oracle_state.admin,
        only_rates_restamped(
            old(ctx).oracle_state.circle_rates@,
            final(ctx).oracle_state.circle_rates@,
        ),
        result is Err ==> *final(ctx) == *old(ctx),
        old(ctx).admin@ != old(ctx).oracle_state.admin@ ==> result == Err::<(), TransitionError>(
            TransitionError::Oracle(OracleError::Unauthorized),
        ),
        old(ctx).oracle_state@.well_formed() ==> final(ctx).oracle_state@.well_formed(),
{
    match admit_rate_update(ctx, &city_name) {
        Err(e) => Err(e),
        Ok(at) => {
            write_rate(ctx, at, &city_name, rate, now);
            Ok(())
        },
    }
}

/// Sets the rate of the city named `city_name` and stamps the entry with
/// the reading of the clock, on behalf of the signer of `ctx`.
///
/// A request that fails the checks of `update_city_rate_at` is refused as
/// there, and the clock is not read. Otherwise the clock is read once:
/// without a reading the answer is `ClockUnavailable` and nothing has
/// changed, and with one the request is answered as
/// `update_city_rate_at` answers it for the time that was read.
pub fn update_city_rate(ctx: &mut AdminAccount, city_name: String, rate: u64) -> (result: Result<
    (),
    TransitionError,
>)
    ensures
        match old(ctx).oracle_state@.admits_rate_update(old(ctx).admin@, city_name@) {
            Err(e) => result == Err::<(), TransitionError>(e),
            Ok(_) => {
                ||| result == Err::<(), TransitionError>(TransitionError::ClockUnavailable)
                ||| exists|now: u64|
                    answers(
                        #[trigger] old(ctx).oracle_state@.outcome(
                            (Transition::UpdateCityRate {
                                caller: old(ctx).admin@,
                                city_name: city_name@,
                                rate,
                                now,
                            }),
                        ),
                        old(ctx).oracle_state@,
                        result,
                        final(ctx).oracle_state@,
                    )
            },
        },
        final(ctx).admin == old(ctx).admin,
        final(ctx).oracle_state.admin == old(ctx).oracle_state.admin,
        only_rates_restamped(
            old(ctx).oracle_state.circle_rates@,
            final(ctx).oracle_state.circle_rates@,
        ),
        result is Err ==> *final(ctx) == *old(ctx),
        old(ctx).admin@ != old(ctx).oracle_state.admin@ ==> result == Err::<(), TransitionError>(
            TransitionError::Oracle(OracleError::Unauthorized),
        ),
        old(ctx).oracle_state@.well_formed() ==> final(ctx).oracle_state@.well_formed(),
{
    match admit_rate_update(ctx, &city_name) {
        Err(e) => Err(e),
        Ok(at) => match read_unix_timestamp() {
            Err(_) => Err(TransitionError::ClockUnavailable),
            Ok(reading) => {
                let now = timestamp_from_unix(reading);
                write_rate(ctx, at, &city_name, rate, now);
                let result = Ok(());
                assert(answers(
                    old(ctx).oracle_state@.outcome(
                        (Transition::UpdateCityRate {
                            caller: old(ctx).admin@,
                            city_name: city_name@,
                            rate,
                            now,
                        }),
                    ),
                    old(ctx).oracle_state@,
                    result,
                    ctx.oracle_state@,
                ));
                result
            },
        },
    }
}

/// Adds an entry for the city named `city_name`, stamped with `now`, on
/// behalf of the signer of `ctx`.
///
/// The signer must be the administrator, else the answer is
/// `Unauthorized`; no entry may have the name yet, else it is
/// `CityAlreadyExists`; and the stored layout must have room for the
/// entry, else it is `CapacityExceeded`. A refused request changes
/// nothing. An accepted one appends the entry and touches no other.
pub fn add_city_at(
    ctx: &mut AdminAccount,
    city_name: String,
    area: u64,
    circle_rate: u64,
    country: String,
    now: u64,
) -> (result: Result<(), TransitionError>)
    ensures
        answers(
            old(ctx).oracle_state@.outcome(
                (Transition::AddCity {
                    caller: old(ctx).admin@,
                    city_name: city_name@,
                    area,
                    circle_rate,
                    country: country@,
                    now,
                }),
            ),
            old(ctx).oracle_state@,
            result,
            final(ctx).oracle_state@,
        ),
        final(ctx).admin == old(ctx).admin,
        final(ctx).oracle_state.admin == old(ctx).oracle_state.admin,
        result is Ok ==> final(ctx).oracle_state.circle_rates@ == old(
            ctx,
        ).oracle_state.circle_rates@.push(
            (CircleInfo { city_name, rate: circle_rate, timestamp: now, country, area }),
        ),
        result is Err ==> *final(ctx) == *old(ctx),
        old(ctx).admin@ != old(ctx).oracle_state.admin@ ==> result == Err::<(), TransitionError>(
            TransitionError::Oracle(OracleError::Unauthorized),
        ),
        old(ctx).oracle_state@.well_formed() ==> final(ctx).oracle_state@.well_formed(),
{
    match admit_new_city(ctx, &city_name) {
        Err(e) => Err(e),
        Ok(_) => append_city(ctx, city_name, area, circle_rate, country, now),
    }
}

/// Adds an entry for the city named `city_name`, stamped with the reading
/// of the clock, on behalf of the signer of `ctx`.
///
/// A request from another signer than the administrator, or for a name
/// that is present, is refused as in `add_city_at`, and the clock is not
/// read. Otherwise the clock is read once: without a reading the answer is
/// `ClockUnavailable` and nothing has changed, and with one the request
/// is answered as `add_city_at` answers it for the time that was read.
pub fn add_city(
    ctx: &mut AdminAccount,
    city_name: String,
    area: u64,
    circle_rate: u64,
    country: String,
) -> (result: Result<(), TransitionError>)
    ensures
        match old(ctx).oracle_state@.admits_new_city(old(ctx).admin@, city_name@) {
            Err(e) => result == Err::<(), TransitionError>(e),
            Ok(_) => {
                ||| result == Err::<(), TransitionError>(TransitionError::ClockUnavailable)
                ||| exists|now: u64|
                    answers(
                        #[trigger] old(ctx).oracle_state@.outcome(
                            (Transition::AddCity {
                                caller: old(ctx).admin@,
                                city_name: city_name@,
                                area,
                                circle_rate,
                                country: country@,
                                now,
                            }),
                        ),
                        old(ctx).oracle_state@,
                        result,
                        final(ctx).oracle_state@,
                    )
            },
        },
        final(ctx).admin == old(ctx).admin,
        final(ctx).oracle_state.admin == old(ctx).oracle_state.admin,
        result is Ok ==> final(ctx).oracle_state.circle_rates@.drop_last() == old(
            ctx,
        ).oracle_state.circle_rates@,
        result is Err ==> *final(ctx) == *old(ctx),
        old(ctx).admin@ != old(ctx).oracle_state.admin@ ==> result == Err::<(), TransitionError>(
            TransitionError::Oracle(OracleError::Unauthorized),
        ),
        old(ctx).oracle_state@.well_formed() ==> final(ctx).oracle_state@.well_formed(),
{
    match admit_new_city(ctx, &city_name) {
        Err(e) => Err(e),
        Ok(_) => match read_unix_timestamp() {
            Err(_) => Err(TransitionError::ClockUnavailable),
            Ok(reading) => append_city(
                ctx,
                city_name,
                area,
                circle_rate,
                country,
                timestamp_from_unix(reading),
            ),
        },
    }
}

/// The rate of the city named `city_name`, or `CityNotSupported` where no
/// entry has that name. Anyone may ask.
pub fn get_circle_rate(ctx: &ViewRate, city_name: String) -> (result: Result<u64, OracleError>)
    ensures
        result == ctx.oracle_state@.get_circle_rate(city_name@),
{
    match ctx.oracle_state.position_of(&city_name) {
        Some(i) => Ok(ctx.oracle_state.circle_rates[i].rate),
        None => Err(OracleError::CityNotSupported),
    }
}

/// A copy of all entries, in the order in which they were added. Anyone may
/// ask, and the request never fails.
pub fn get_city_list(ctx: &ViewRate) -> (result: Result<Vec<CircleInfo>, OracleError>)
    ensures
        result is Ok,
        result->Ok_0@ == ctx.oracle_state.circle_rates@,
        entries_view(result->Ok_0@) == ctx.oracle_state@.cities,
{
    Ok(ctx.oracle_state.circle_rates.clone())
}

/// Creates the registry: `admin` becomes its administrator, and it has no
/// entries. No caller is checked, and the request never fails.
pub fn initialize(ctx: &mut Initialize, admin: Identity) -> (result: Result<(), TransitionError>)
    ensures
        result is Ok,
        final(ctx).oracle_state@ == RegistryState::initial(admin@),
        final(ctx).oracle_state.admin == admin,
        final(ctx).oracle_state@.well_formed(),
        final(ctx).admin_signer == old(ctx).admin_signer,
{
    ctx.oracle_state.admin = admin;
    ctx.oracle_state.circle_rates = Vec::new();
    assert(ctx.oracle_state@.cities =~= Seq::<CityRate>::empty());
    Ok(())
}

} // verus!
