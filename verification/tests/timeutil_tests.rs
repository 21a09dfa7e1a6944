use plexmcp_billing::timeutil::Timestamp;

#[test]
fn representable_moments_span_years_minus_9999_to_9999() {
    assert!(Timestamp::from_unix(253_402_300_799).is_some());
    assert!(Timestamp::from_unix(253_402_300_800).is_none());
    assert!(Timestamp::from_unix(-377_705_116_800).is_some());
    assert!(Timestamp::from_unix(-377_705_116_801).is_none());
    assert_eq!(Timestamp::from_unix(0).unwrap().unix(), 0);
}
