use std::collections::hash_map::DefaultHasher;
use std::hash::{Hash, Hasher};
use trading_utils::error::report_text;
use trading_utils::{
    hash_raw_id, Algorithms, BrokerErrorKind, Deposit, Error, ErrorKind, OrderData, OrderMoment,
    OrderValidity, Position, TimeSpan, Timestamp,
};

#[test]
fn error_holds_message_and_kind() {
    let error = Error::new("no connection".to_string(), ErrorKind::Broker);
    assert_eq!(error.msg(), "no connection");
    assert_eq!(error.kind(), ErrorKind::Broker);
}

#[test]
fn error_text_trims_and_indents() {
    let error = Error::new("  first line\nsecond line\n\n".to_string(), ErrorKind::LibLoading);
    assert_eq!(error.to_text(), "Error (LibLoading):\n\tfirst line\n\tsecond line");
    let error = Error::new("x".to_string(), BrokerErrorKind::TimeOut);
    assert_eq!(error.to_text(), "Error (TimeOut):\n\tx");
    assert_eq!(report_text("Kind", "\ta\n\nb "), "Error (Kind):\n\ta\n\t\n\tb");
    assert_eq!(report_text("", ""), "Error ():\n\t");
}

#[test]
fn broker_error_kinds_have_names() {
    assert_eq!(BrokerErrorKind::ConnectionFailed.to_text(), "ConnectionFailed");
    assert_eq!(BrokerErrorKind::CouldNotLogin.to_text(), "CouldNotLogin");
    assert_eq!(BrokerErrorKind::CouldNotLogout.to_text(), "CouldNotLogout");
    assert_eq!(BrokerErrorKind::NoSuchOrder.to_text(), "NoSuchOrder");
    assert_eq!(BrokerErrorKind::NoSuchPosition.to_text(), "NoSuchPosition");
    assert_eq!(BrokerErrorKind::Other.to_text(), "Other");
    assert_eq!(BrokerErrorKind::TimeOut.to_text(), "TimeOut");
}

#[test]
fn raw_ids_hash_as_the_default_hasher_does() {
    let mut hasher = DefaultHasher::new();
    "DE000BASF111".hash(&mut hasher);
    let expected = hasher.finish();
    assert_eq!(hash_raw_id("DE000BASF111"), expected);
    assert_eq!(hash_raw_id("DE000BASF111"), hash_raw_id(&String::from("DE000BASF111")));
    assert_ne!(hash_raw_id("DE000BASF111"), hash_raw_id("DE000BASF112"));
    assert_ne!(hash_raw_id(""), DefaultHasher::new().finish());
    assert_eq!(Deposit::hash_raw_id("acc"), hash_raw_id("acc"));
    assert_eq!(OrderData::hash_raw_id("acc"), hash_raw_id("acc"));
    assert_eq!(Position::hash_raw_id("acc"), hash_raw_id("acc"));
}

#[test]
fn validity_lengths() {
    assert_eq!(OrderValidity::Now.as_duration(), TimeSpan(0));
    assert_eq!(OrderValidity::OneDay.as_duration(), TimeSpan(86_400_000));
    assert_eq!(OrderValidity::OneWeek.as_duration(), TimeSpan(604_800_000));
    assert_eq!(OrderValidity::OneMonth.as_duration(), TimeSpan(2_592_000_000));
    assert_eq!(OrderValidity::OneYear.as_duration(), TimeSpan(31_536_000_000));
    assert_eq!(OrderValidity::Forever.as_duration(), TimeSpan(i64::MAX as i128));
    assert_eq!(TimeSpan::zero(), TimeSpan(0));
    assert_eq!(TimeSpan::days(-2), TimeSpan(-172_800_000));
    assert_eq!(TimeSpan::weeks(3), TimeSpan(1_814_400_000));
    assert_eq!(TimeSpan::days(i32::MAX), TimeSpan(i32::MAX as i128 * 86_400_000));
    assert_eq!(TimeSpan::weeks(i32::MIN), TimeSpan(i32::MIN as i128 * 604_800_000));
    assert_eq!(TimeSpan::longest(), TimeSpan(9_223_372_036_854_775_807));
}

#[test]
fn validity_ends_before_a_given_time() {
    let start = Timestamp(1_000);
    assert!(OrderValidity::OneDay.is_valid_at(&start, Timestamp(86_401_001)));
    assert!(!OrderValidity::OneDay.is_valid_at(&start, Timestamp(86_401_000)));
    assert!(OrderValidity::Now.is_valid_at(&start, Timestamp(1_001)));
    assert!(!OrderValidity::Now.is_valid_at(&start, Timestamp(1_000)));
    assert!(!OrderValidity::Forever.is_valid_at(&start, Timestamp(i64::MAX)));
    assert!(!OrderValidity::Forever.is_valid_at(&Timestamp(i64::MAX), Timestamp(i64::MAX)));
    // against the clock: a day that began at the epoch is long over, one that
    // begins in the far future is not
    assert!(OrderValidity::OneDay.is_valid(&Timestamp(0)));
    assert!(!OrderValidity::OneDay.is_valid(&Timestamp(i64::MAX)));
}

#[test]
fn moments_wait_until_they_are_due() {
    let now = Timestamp(5_000);
    assert_eq!(OrderMoment::Instant.as_duration_at(now), TimeSpan(0));
    assert_eq!(OrderMoment::Planed(Timestamp(7_500)).as_duration_at(now), TimeSpan(2_500));
    assert_eq!(OrderMoment::Planed(Timestamp(4_000)).as_duration_at(now), TimeSpan(-1_000));
    assert_eq!(
        OrderMoment::Planed(Timestamp(i64::MIN)).as_duration_at(Timestamp(i64::MAX)),
        TimeSpan(i64::MIN as i128 - i64::MAX as i128)
    );
    assert!(OrderMoment::Instant.is_now_or_passed_at(now));
    assert!(OrderMoment::Planed(Timestamp(5_000)).is_now_or_passed_at(now));
    assert!(!OrderMoment::Planed(Timestamp(5_001)).is_now_or_passed_at(now));
    assert_eq!(Timestamp(9).since(Timestamp(4)), TimeSpan(5));
    // against the clock
    assert!(OrderMoment::Instant.is_now_or_passed());
    assert_eq!(OrderMoment::Instant.as_duration(), TimeSpan(0));
    assert!(OrderMoment::Planed(Timestamp(0)).is_now_or_passed());
    assert!(!OrderMoment::Planed(Timestamp(i64::MAX)).is_now_or_passed());
    assert!(OrderMoment::Planed(Timestamp(i64::MAX)).as_duration() > TimeSpan(0));
    assert!(Timestamp::now() > Timestamp(1_600_000_000_000));
}

#[test]
fn registry_lists_its_names() {
    let registry: Algorithms<u8> = Algorithms::empty();
    assert_eq!(registry.to_text(), "ALGORITHMS:None");
}
