use circle_rate_oracle::accounts::{AdminAccount, Initialize, ViewRate};
use circle_rate_oracle::contract::{
    add_city, add_city_at, get_circle_rate, get_city_list, initialize, update_city_rate,
    update_city_rate_at,
};
use circle_rate_oracle::error::{OracleError, TransitionError};
use circle_rate_oracle::identity::Identity;
use circle_rate_oracle::state::{CircleInfo, OracleState};

const UNAUTHORIZED: Result<(), TransitionError> =
    Err(TransitionError::Oracle(OracleError::Unauthorized));
const ALREADY_EXISTS: Result<(), TransitionError> =
    Err(TransitionError::Oracle(OracleError::CityAlreadyExists));
const NOT_SUPPORTED: Result<(), TransitionError> =
    Err(TransitionError::Oracle(OracleError::CityNotSupported));

fn admin_a() -> Identity {
    Identity::new([0xA1; 32])
}

fn stranger_b() -> Identity {
    let mut bytes = [0xA1; 32];
    bytes[31] = 0xA0;
    Identity::new(bytes)
}

fn fresh_registry(admin: Identity) -> OracleState {
    let mut ctx = Initialize {
        oracle_state: OracleState::new(Identity::new([0; 32])),
        admin_signer: admin,
    };
    assert_eq!(initialize(&mut ctx, admin), Ok(()));
    ctx.oracle_state
}

fn as_admin(state: OracleState) -> AdminAccount {
    AdminAccount { admin: admin_a(), oracle_state: state }
}

fn rate_in(ctx: AdminAccount, city: &str) -> (AdminAccount, Result<u64, OracleError>) {
    let view = ViewRate { oracle_state: ctx.oracle_state };
    let rate = get_circle_rate(&view, city.to_string());
    (AdminAccount { admin: ctx.admin, oracle_state: view.oracle_state }, rate)
}

fn list_in(ctx: AdminAccount) -> (AdminAccount, Vec<CircleInfo>) {
    let view = ViewRate { oracle_state: ctx.oracle_state };
    let list = get_city_list(&view).unwrap();
    (AdminAccount { admin: ctx.admin, oracle_state: view.oracle_state }, list)
}

#[test]
fn initialize_sets_admin_and_no_cities() {
    let state = fresh_registry(admin_a());
    assert_eq!(state.admin.to_bytes(), [0xA1; 32]);
    assert!(state.circle_rates.is_empty());
    assert!(state.is_well_formed());
}

#[test]
fn initialize_overwrites_what_the_record_held() {
    let mut ctx = as_admin(fresh_registry(admin_a()));
    assert_eq!(add_city_at(&mut ctx, "Delhi".to_string(), 1, 2, "India".to_string(), 3), Ok(()));
    let mut again = Initialize { oracle_state: ctx.oracle_state, admin_signer: admin_a() };
    assert_eq!(initialize(&mut again, stranger_b()), Ok(()));
    assert_eq!(again.oracle_state.admin, stranger_b());
    assert!(again.oracle_state.circle_rates.is_empty());
    assert_eq!(again.admin_signer, admin_a());
}

#[test]
fn scenario_add_then_read() {
    let mut ctx = as_admin(fresh_registry(admin_a()));
    let added =
        add_city_at(&mut ctx, "Delhi".to_string(), 100, 5000, "India".to_string(), 1_700_000_000);
    assert_eq!(added, Ok(()));
    let (ctx, rate) = rate_in(ctx, "Delhi");
    assert_eq!(rate, Ok(5000));
    let state = ctx.oracle_state;
    assert_eq!(
        state.circle_rates,
        vec![CircleInfo {
            city_name: "Delhi".to_string(),
            rate: 5000,
            timestamp: 1_700_000_000,
            country: "India".to_string(),
            area: 100,
        }]
    );
    assert_eq!(state.admin, admin_a());
}

#[test]
fn scenario_same_name_twice() {
    let mut ctx = as_admin(fresh_registry(admin_a()));
    assert_eq!(
        add_city_at(&mut ctx, "Delhi".to_string(), 100, 5000, "India".to_string(), 10),
        Ok(())
    );
    let second = add_city_at(&mut ctx, "Delhi".to_string(), 7, 8, "Elsewhere".to_string(), 11);
    assert_eq!(second, ALREADY_EXISTS);
    assert_eq!(ctx.oracle_state.circle_rates.len(), 1);
    assert_eq!(ctx.oracle_state.circle_rates[0].rate, 5000);
    assert_eq!(ctx.oracle_state.circle_rates[0].area, 100);
    assert_eq!(ctx.oracle_state.circle_rates[0].country, "India");
    assert_eq!(ctx.oracle_state.circle_rates[0].timestamp, 10);
}

#[test]
fn scenario_same_name_twice_with_the_clock() {
    let mut ctx = as_admin(fresh_registry(admin_a()));
    assert_eq!(
        add_city_at(&mut ctx, "Delhi".to_string(), 100, 5000, "India".to_string(), 10),
        Ok(())
    );
    let second = add_city(&mut ctx, "Delhi".to_string(), 100, 5000, "India".to_string());
    assert_eq!(second, ALREADY_EXISTS);
    assert_eq!(ctx.oracle_state.circle_rates.len(), 1);
}

#[test]
fn scenario_update_on_empty_registry() {
    let mut ctx = as_admin(fresh_registry(admin_a()));
    assert_eq!(update_city_rate_at(&mut ctx, "Mumbai".to_string(), 7000, 5), NOT_SUPPORTED);
    assert_eq!(update_city_rate(&mut ctx, "Mumbai".to_string(), 7000), NOT_SUPPORTED);
    assert!(ctx.oracle_state.circle_rates.is_empty());
}

#[test]
fn scenario_stranger_cannot_add() {
    let mut ctx = AdminAccount { admin: stranger_b(), oracle_state: fresh_registry(admin_a()) };
    let at = add_city_at(&mut ctx, "Delhi".to_string(), 100, 5000, "India".to_string(), 10);
    assert_eq!(at, UNAUTHORIZED);
    let clocked = add_city(&mut ctx, "Delhi".to_string(), 100, 5000, "India".to_string());
    assert_eq!(clocked, UNAUTHORIZED);
    let list = get_city_list(&ViewRate { oracle_state: ctx.oracle_state });
    assert_eq!(list, Ok(vec![]));
}

#[test]
fn scenario_thirty_third_city_is_refused() {
    let mut ctx = as_admin(fresh_registry(admin_a()));
    for i in 0..32u64 {
        let added =
            add_city_at(&mut ctx, format!("City{}", i), i, 1000 + i, "India".to_string(), 50 + i);
        assert_eq!(added, Ok(()));
        assert_eq!(ctx.oracle_state.circle_rates.len() as u64, i + 1);
    }
    let (mut ctx, before) = list_in(ctx);
    let extra = add_city_at(&mut ctx, "City32".to_string(), 32, 1032, "India".to_string(), 99);
    assert_eq!(extra, Err(TransitionError::CapacityExceeded));
    assert_eq!(ctx.oracle_state.circle_rates.len(), 32);
    assert_eq!(ctx.oracle_state.circle_rates, before);
    let (mut ctx, missing) = rate_in(ctx, "City32");
    assert_eq!(missing, Err(OracleError::CityNotSupported));
    let (ctx_back, last) = rate_in(ctx, "City31");
    ctx = ctx_back;
    assert_eq!(last, Ok(1031));
    assert_eq!(update_city_rate_at(&mut ctx, "City31".to_string(), 1, 100), Ok(()));
    assert!(ctx.oracle_state.is_well_formed());
}

#[test]
fn update_writes_rate_and_timestamp() {
    let mut ctx = as_admin(fresh_registry(admin_a()));
    assert_eq!(add_city_at(&mut ctx, "Delhi".to_string(), 100, 5000, "India".to_string(), 10), Ok(()));
    assert_eq!(add_city_at(&mut ctx, "Mumbai".to_string(), 200, 7000, "India".to_string(), 11), Ok(()));
    assert_eq!(update_city_rate_at(&mut ctx, "Mumbai".to_string(), 7500, 12), Ok(()));
    let (ctx, mumbai) = rate_in(ctx, "Mumbai");
    assert_eq!(mumbai, Ok(7500));
    let (ctx, delhi) = rate_in(ctx, "Delhi");
    assert_eq!(delhi, Ok(5000));
    assert_eq!(ctx.oracle_state.circle_rates[1].timestamp, 12);
    assert_eq!(ctx.oracle_state.circle_rates[0].timestamp, 10);
}

#[test]
fn get_circle_rate_of_absent_city() {
    let mut ctx = as_admin(fresh_registry(admin_a()));
    assert_eq!(add_city_at(&mut ctx, "Delhi".to_string(), 100, 5000, "India".to_string(), 10), Ok(()));
    let (ctx, rate) = rate_in(ctx, "Mumbai");
    assert_eq!(rate, Err(OracleError::CityNotSupported));
    let (_, empty) = rate_in(ctx, "");
    assert_eq!(empty, Err(OracleError::CityNotSupported));
}

#[test]
fn city_names_are_case_sensitive() {
    let mut ctx = as_admin(fresh_registry(admin_a()));
    assert_eq!(add_city_at(&mut ctx, "Delhi".to_string(), 100, 5000, "India".to_string(), 10), Ok(()));
    assert_eq!(add_city_at(&mut ctx, "delhi".to_string(), 1, 6000, "India".to_string(), 11), Ok(()));
    assert_eq!(add_city_at(&mut ctx, "Delhi ".to_string(), 1, 7000, "India".to_string(), 12), Ok(()));
    let (ctx, upper) = rate_in(ctx, "Delhi");
    let (ctx, lower) = rate_in(ctx, "delhi");
    let (ctx, spaced) = rate_in(ctx, "Delhi ");
    let (_, shouted) = rate_in(ctx, "DELHI");
    assert_eq!(upper, Ok(5000));
    assert_eq!(lower, Ok(6000));
    assert_eq!(spaced, Ok(7000));
    assert_eq!(shouted, Err(OracleError::CityNotSupported));
}

#[test]
fn country_is_no_key() {
    let mut ctx = as_admin(fresh_registry(admin_a()));
    assert_eq!(add_city_at(&mut ctx, "Delhi".to_string(), 100, 5000, "India".to_string(), 10), Ok(()));
    assert_eq!(add_city_at(&mut ctx, "Agra".to_string(), 100, 5000, "India".to_string(), 10), Ok(()));
    assert_eq!(ctx.oracle_state.circle_rates.len(), 2);
    let (_, india) = rate_in(ctx, "India");
    assert_eq!(india, Err(OracleError::CityNotSupported));
}

#[test]
fn empty_city_name_is_a_name() {
    let mut ctx = as_admin(fresh_registry(admin_a()));
    assert_eq!(add_city_at(&mut ctx, String::new(), 1, 2, String::new(), 3), Ok(()));
    assert_eq!(add_city_at(&mut ctx, String::new(), 1, 2, String::new(), 3), ALREADY_EXISTS);
    let (_, rate) = rate_in(ctx, "");
    assert_eq!(rate, Ok(2));
}

#[test]
fn extreme_numbers_are_kept_as_given() {
    let mut ctx = as_admin(fresh_registry(admin_a()));
    assert_eq!(
        add_city_at(&mut ctx, "Delhi".to_string(), u64::MAX, u64::MAX, "India".to_string(), u64::MAX),
        Ok(())
    );
    assert_eq!(update_city_rate_at(&mut ctx, "Delhi".to_string(), 0, 0), Ok(()));
    assert_eq!(ctx.oracle_state.circle_rates[0].rate, 0);
    assert_eq!(ctx.oracle_state.circle_rates[0].timestamp, 0);
    assert_eq!(ctx.oracle_state.circle_rates[0].area, u64::MAX);
}

#[test]
fn list_is_a_copy_in_insertion_order() {
    let mut ctx = as_admin(fresh_registry(admin_a()));
    for (i, name) in ["Pune", "Agra", "Delhi", "Kochi"].iter().enumerate() {
        assert_eq!(
            add_city_at(&mut ctx, name.to_string(), 1, i as u64, "India".to_string(), 10),
            Ok(())
        );
    }
    assert_eq!(update_city_rate_at(&mut ctx, "Agra".to_string(), 77, 20), Ok(()));
    let (ctx, mut list) = list_in(ctx);
    let names: Vec<&str> = list.iter().map(|c| c.city_name.as_str()).collect();
    assert_eq!(names, vec!["Pune", "Agra", "Delhi", "Kochi"]);
    assert_eq!(list, ctx.oracle_state.circle_rates);
    list[0].rate = 999;
    list.pop();
    assert_eq!(ctx.oracle_state.circle_rates.len(), 4);
    assert_eq!(ctx.oracle_state.circle_rates[0].rate, 0);
}

#[test]
fn without_a_running_program_the_clock_gives_no_reading() {
    let mut ctx = as_admin(fresh_registry(admin_a()));
    let added = add_city(&mut ctx, "Delhi".to_string(), 100, 5000, "India".to_string());
    assert_eq!(added, Err(TransitionError::ClockUnavailable));
    assert!(ctx.oracle_state.circle_rates.is_empty());
    assert_eq!(
        add_city_at(&mut ctx, "Delhi".to_string(), 100, 5000, "India".to_string(), 7),
        Ok(())
    );
    let updated = update_city_rate(&mut ctx, "Delhi".to_string(), 6000);
    assert_eq!(updated, Err(TransitionError::ClockUnavailable));
    assert_eq!(ctx.oracle_state.circle_rates[0].rate, 5000);
    assert_eq!(ctx.oracle_state.circle_rates[0].timestamp, 7);
    assert_eq!(update_city_rate_at(&mut ctx, "Delhi".to_string(), 6000, 9), Ok(()));
    assert_eq!(ctx.oracle_state.circle_rates[0].rate, 6000);
    assert_eq!(ctx.oracle_state.circle_rates[0].timestamp, 9);
}

#[test]
fn the_clock_is_read_before_the_layout_is_asked() {
    let mut ctx = as_admin(fresh_registry(admin_a()));
    let long_name = "x".repeat(33);
    let added = add_city(&mut ctx, long_name, 100, 5000, "India".to_string());
    assert_eq!(added, Err(TransitionError::ClockUnavailable));
    assert!(ctx.oracle_state.circle_rates.is_empty());
}
