use plexmcp_billing::error::BillingError;
use plexmcp_billing::metadata::Metadata;
use plexmcp_billing::pause::{check_not_paused, pause_metadata, pause_status, resume_metadata, resume_outcome};
use plexmcp_billing::timeutil::Timestamp;

#[test]
fn resuming_clears_pause_marks() {
    let mut m = Metadata::new();
    m.insert("org_id".to_string(), "abc".to_string());
    let paused_at = Timestamp::from_unix(1_700_000_000).unwrap();
    pause_metadata(&mut m, paused_at, 5, &Some("holiday".to_string()), Some(Timestamp::from_unix(1_700_086_400).unwrap()));
    assert_eq!(m.get("pause_reason"), Some("holiday".to_string()));
    assert_eq!(m.get("resume_at"), Some("1700086400".to_string()));
    assert_eq!(m.get("paused_by"), Some("00000000-0000-0000-0000-000000000005".to_string()));
    assert_eq!(m.get("paused_at"), Some("2023-11-14 22:13:20.0 +00:00:00".to_string()));
    resume_metadata(&mut m, Timestamp::from_unix(1_700_100_000).unwrap(), 6);
    assert_eq!(m.get("paused_at"), None);
    assert_eq!(m.get("paused_by"), None);
    assert_eq!(m.get("pause_reason"), None);
    assert_eq!(m.get("resume_at"), None);
    assert_eq!(m.get("org_id"), Some("abc".to_string()));
    assert_eq!(m.get("resumed_by"), Some("00000000-0000-0000-0000-000000000006".to_string()));
}

#[test]
fn pausing_twice_is_refused() {
    assert!(check_not_paused(false).is_ok());
    assert_eq!(
        check_not_paused(true),
        Err(BillingError::InvalidInput("Subscription is already paused".to_string()))
    );
    assert_eq!(
        resume_outcome(None).err(),
        Some(BillingError::InvalidInput("Subscription is not paused".to_string()))
    );
}

#[test]
fn pause_status_hides_stale_fields() {
    let t = Timestamp::from_unix(1_700_000_000).unwrap();
    let s = pause_status(Some((false, Some(t), Some(3), Some("x".to_string()), None))).unwrap();
    assert!(!s.is_paused);
    assert!(s.paused_at.is_none() && s.paused_by.is_none() && s.pause_reason.is_none());
    let p = pause_status(Some((true, Some(t), Some(3), Some("x".to_string()), None))).unwrap();
    assert!(p.is_paused);
    assert_eq!(p.paused_by, Some(3));
    assert!(pause_status(None).is_none());
}
