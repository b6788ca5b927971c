use circle_rate_oracle::clock::timestamp_from_unix;
use circle_rate_oracle::error::{OracleError, TransitionError};
use circle_rate_oracle::guard::authorize;
use circle_rate_oracle::identity::Identity;

#[test]
fn reading_that_is_not_negative_is_kept() {
    assert_eq!(timestamp_from_unix(0), 0);
    assert_eq!(timestamp_from_unix(1), 1);
    assert_eq!(timestamp_from_unix(1_700_000_000), 1_700_000_000);
    assert_eq!(timestamp_from_unix(i64::MAX), 9_223_372_036_854_775_807);
}

#[test]
fn negative_reading_wraps_around() {
    assert_eq!(timestamp_from_unix(-1), u64::MAX);
    assert_eq!(timestamp_from_unix(-2), 18_446_744_073_709_551_614);
    assert_eq!(timestamp_from_unix(-1_700_000_000), 18_446_744_072_009_551_616);
    assert_eq!(timestamp_from_unix(i64::MIN), 9_223_372_036_854_775_808);
    assert_eq!(timestamp_from_unix(i64::MIN + 1), 9_223_372_036_854_775_809);
}

#[test]
fn reading_becomes_what_a_cast_gives() {
    for reading in [i64::MIN, i64::MIN + 1, -4_294_967_297, -256, -1, 0, 1, 255, i64::MAX - 1, i64::MAX] {
        assert_eq!(timestamp_from_unix(reading), reading as u64);
    }
}

#[test]
fn identity_keeps_its_bytes() {
    let mut bytes = [0u8; 32];
    for (i, b) in bytes.iter_mut().enumerate() {
        *b = (i * 8) as u8;
    }
    let id = Identity::new(bytes);
    assert_eq!(id.to_bytes(), bytes);
    assert_eq!(id.bytes, bytes);
    assert_eq!(id.to_bytes()[31], 248);
}

#[test]
fn identities_are_compared_bit_for_bit() {
    let a = Identity::new([7; 32]);
    assert!(a.same_as(&a));
    assert!(a.same_as(&Identity::new([7; 32])));
    assert!(Identity::new([0; 32]).same_as(&Identity::new([0; 32])));
    for i in 0..32 {
        let mut bytes = [7u8; 32];
        bytes[i] = 6;
        let b = Identity::new(bytes);
        assert!(!a.same_as(&b));
        assert!(!b.same_as(&a));
        bytes[i] = 0x87;
        assert!(!a.same_as(&Identity::new(bytes)));
    }
}

#[test]
fn guard_lets_the_admin_pass_and_nobody_else() {
    let admin = Identity::new([3; 32]);
    let mut other = [3u8; 32];
    other[16] = 4;
    assert_eq!(authorize(&admin, &admin), Ok(()));
    assert_eq!(authorize(&Identity::new([3; 32]), &admin), Ok(()));
    assert_eq!(authorize(&Identity::new(other), &admin), Err(OracleError::Unauthorized));
    assert_eq!(authorize(&admin, &Identity::new(other)), Err(OracleError::Unauthorized));
    assert_eq!(authorize(&Identity::new([0; 32]), &admin), Err(OracleError::Unauthorized));
}

#[test]
fn guard_knows_no_special_identity() {
    let zero = Identity::new([0; 32]);
    assert_eq!(authorize(&zero, &zero), Ok(()));
    assert_eq!(authorize(&Identity::new([0xFF; 32]), &zero), Err(OracleError::Unauthorized));
}

#[test]
fn each_error_kind_has_its_message() {
    assert_eq!(OracleError::Unauthorized.message(), "Unauthorized");
    assert_eq!(OracleError::CityNotSupported.message(), "City not supported");
    assert_eq!(OracleError::RateNotValid.message(), "Rate not valid");
    assert_eq!(OracleError::CityAlreadyExists.message(), "City already exists");
}

#[test]
fn error_kinds_are_told_apart() {
    let kinds = [
        OracleError::Unauthorized,
        OracleError::CityNotSupported,
        OracleError::RateNotValid,
        OracleError::CityAlreadyExists,
    ];
    for (i, a) in kinds.iter().enumerate() {
        for (j, b) in kinds.iter().enumerate() {
            assert_eq!(a == b, i == j);
            assert_eq!(TransitionError::Oracle(*a) == TransitionError::Oracle(*b), i == j);
        }
        assert_ne!(TransitionError::Oracle(*a), TransitionError::ClockUnavailable);
        assert_ne!(TransitionError::Oracle(*a), TransitionError::CapacityExceeded);
    }
    assert_ne!(TransitionError::ClockUnavailable, TransitionError::CapacityExceeded);
}
