use factorioops::error::FactorioopsError;
use factorioops::ids::UserId;
use factorioops::models::{DbUser, PaginationOptions, PasswordHashString};
use factorioops::time::UtcTimestamp;

fn sample_hash() -> PasswordHashString {
    PasswordHashString("$argon2id$v=19$m=19456,t=2,p=1$c2FsdHNhbHQ$aGFzaGhhc2hoYXNo".to_string())
}

#[test]
fn test_created_at() {
    let expected_date = chrono::DateTime::parse_from_rfc3339("2026-06-26T08:36:00Z")
        .expect("Failed to parse expected date")
        .with_timezone(&chrono::Utc);

    let mut user = DbUser::create(
        "testuser".to_string(),
        "p4ssw0rd!!".to_string(),
        "testuser@example.com".to_string(),
    )
    .unwrap();
    user.id = UserId { bits: ulid::Ulid::from_datetime(expected_date.into()).0 };

    let date = user.created_at();
    let date = chrono::DateTime::from_timestamp_millis(date.millis).unwrap();
    assert_eq!(date, expected_date);
}

#[test]
fn created_at_reads_the_time_bits_of_the_id() {
    let ms: u64 = 1_782_463_000_123;
    let random: u128 = 0xABCD_EF01_2345_6789_ABCD;
    let mut user = DbUser::new("a".to_string(), sample_hash(), "a@example.com".to_string());
    user.id = UserId { bits: ((ms as u128) << 80) | random };
    assert_eq!(user.created_at(), UtcTimestamp { millis: ms as i64 });
}

#[test]
fn created_at_of_nil_id_is_epoch() {
    let mut user = DbUser::new("a".to_string(), sample_hash(), "a@example.com".to_string());
    user.id = UserId::nil();
    assert_eq!(user.created_at().millis, 0);
}

#[test]
fn out_of_range_millis_fall_back_to_epoch() {
    assert_eq!(UtcTimestamp::from_millis_or_epoch(i64::MAX).millis, 0);
    assert_eq!(UtcTimestamp::from_millis_or_epoch(i64::MIN).millis, 0);
    assert_eq!(UtcTimestamp::from_millis_or_epoch(947_638_923_004).millis, 947_638_923_004);
    assert_eq!(UtcTimestamp::epoch().millis, 0);
}

#[test]
fn new_user_keeps_its_fields_and_gets_a_fresh_id() {
    let user = DbUser::new("bob".to_string(), sample_hash(), "bob@example.com".to_string());
    assert_eq!(user.username, "bob");
    assert_eq!(user.email, "bob@example.com");
    assert_eq!(user.password_hash.0, sample_hash().0);
    assert!(!user.id.is_nil());
    let now_ms = std::time::SystemTime::now()
        .duration_since(std::time::UNIX_EPOCH)
        .unwrap()
        .as_millis() as u64;
    let ts = user.id.timestamp_ms();
    assert!(ts <= now_ms && now_ms - ts < 60_000);
}

#[test]
fn create_with_failed_hash_is_a_security_error() {
    let res = DbUser::from_hash_outcome("bob".to_string(), Err("salt too short".to_string()), "b@e.com".to_string());
    match res {
        Err(FactorioopsError::SecurityError(m)) => {
            assert_eq!(m, "Failed to hash password: salt too short")
        }
        _ => panic!("expected a security error"),
    }
}

#[test]
fn cloned_user_is_equal_field_by_field() {
    let user = DbUser::new("bob".to_string(), sample_hash(), "bob@example.com".to_string());
    let copy = user.clone();
    assert_eq!(copy.id, user.id);
    assert_eq!(copy.username, user.username);
    assert_eq!(copy.email, user.email);
    assert_eq!(copy.password_hash.0, user.password_hash.0);
}

#[test]
fn default_pagination_is_fifty() {
    let p = PaginationOptions::default();
    assert_eq!(p.limit, Some(50));
}

#[test]
fn error_messages() {
    assert_eq!(
        FactorioopsError::SecurityError("bad".to_string()).message(),
        "Security error: bad"
    );
    assert_eq!(FactorioopsError::Other("boom".to_string()).message(), "Unexpected error: boom");
}

#[test]
fn ulid_text_of_known_values() {
    let id = UserId { bits: 0x41414141414141414141414141414141 };
    assert_eq!(id.to_text(), "21850M2GA1850M2GA1850M2GA1");
    assert_eq!(UserId::nil().to_text(), "00000000000000000000000000");
    let max = UserId { bits: u128::MAX };
    assert_eq!(max.to_text(), "7ZZZZZZZZZZZZZZZZZZZZZZZZZ");
    let parsed = ulid::Ulid::from_string("01D39ZY06FGSCTVN4T2V9PKHFZ").unwrap();
    assert_eq!(UserId { bits: parsed.0 }.to_text(), "01D39ZY06FGSCTVN4T2V9PKHFZ");
}

#[test]
fn ulid_timestamp_and_nil() {
    let id = UserId { bits: (1234u128 << 80) | 99 };
    assert_eq!(id.timestamp_ms(), 1234);
    assert!(!id.is_nil());
    assert!(UserId::nil().is_nil());
    assert!(!UserId { bits: 1 }.is_nil());
    assert_eq!(UserId { bits: u128::MAX }.timestamp_ms(), (1u64 << 48) - 1);
}

#[test]
fn every_ulid_time_has_a_date() {
    let last = (1i64 << 48) - 1;
    assert_eq!(UtcTimestamp::from_millis_or_epoch(last).millis, last);
    let mut user = DbUser::new("a".to_string(), sample_hash(), "a@example.com".to_string());
    user.id = UserId { bits: u128::MAX };
    assert_eq!(user.created_at().millis, last);
}

#[test]
fn creation_times_follow_id_times() {
    let mut a = DbUser::new("a".to_string(), sample_hash(), "a@example.com".to_string());
    let mut b = DbUser::new("b".to_string(), sample_hash(), "b@example.com".to_string());
    a.id = UserId { bits: (1000u128 << 80) | u128::from(u64::MAX) };
    b.id = UserId { bits: 1001u128 << 80 };
    assert!(a.created_at().millis < b.created_at().millis);
}

#[test]
fn created_user_gets_a_verifiable_hash() {
    let user = DbUser::create("carol".to_string(), "s3cret".to_string(), "c@e.com".to_string()).unwrap();
    assert_eq!(user.username, "carol");
    assert_eq!(user.email, "c@e.com");
    assert!(user.password_hash.0.starts_with("$argon2"));
    let parsed = PasswordHashString::parse(&user.password_hash.0).unwrap();
    assert_eq!(parsed.0, user.password_hash.0);
}

#[test]
fn hash_text_must_be_a_phc_string() {
    assert!(PasswordHashString::parse("not a hash").is_err());
    assert!(PasswordHashString::parse("").is_err());
    let ok = PasswordHashString::parse(&sample_hash().0).unwrap();
    assert_eq!(ok.0, sample_hash().0);
}
