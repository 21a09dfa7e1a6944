use plexmcp_billing::invariants::ViolationSeverity;

#[test]
fn test_violation_severity_display() {
    assert_eq!(ViolationSeverity::Critical.to_string(), "CRITICAL");
    assert_eq!(ViolationSeverity::High.to_string(), "HIGH");
    assert_eq!(ViolationSeverity::Medium.to_string(), "MEDIUM");
    assert_eq!(ViolationSeverity::Low.to_string(), "LOW");
}

use plexmcp_billing::invariants::{
    available_checks, check_index, single_active_violation, spend_cap_inconsistent, spend_cap_violation, summarize_checks,
    tier_mismatch_violation, ContextValue,
};
use plexmcp_billing::timeutil::Timestamp;

#[test]
fn test_available_checks() {
    let checks = available_checks();
    assert_eq!(checks.len(), 6);
    assert!(checks.contains(&"single_active_subscription"));
    assert!(checks.contains(&"tier_matches_subscription"));
}

#[test]
fn run_check_selects_by_name() {
    assert_eq!(check_index("spend_cap_consistency"), Some(4));
    assert_eq!(check_index("nonexistent"), None);
}

#[test]
fn summary_counts_distinct_failed_checks() {
    let now = Timestamp::from_unix(1_700_000_000).unwrap();
    let vs = vec![
        single_active_violation(1, 2),
        single_active_violation(2, 3),
        spend_cap_violation(3, true, 950, 1000),
    ];
    let s = summarize_checks(now, vs);
    assert_eq!(s.checks_run, 6);
    assert_eq!(s.checks_failed, 2);
    assert_eq!(s.checks_passed, 4);
    assert!(!s.healthy);
    let empty = summarize_checks(now, Vec::new());
    assert_eq!(empty.checks_failed, 0);
    assert_eq!(empty.checks_passed, 6);
    assert!(empty.healthy);
}

#[test]
fn violation_descriptions() {
    let v = spend_cap_violation(9, true, 950, 1000);
    assert_eq!(v.description, "Organization is paused but spend ($9.50) is under cap ($10.00)");
    assert_eq!(v.invariant, "spend_cap_consistency");
    let t = tier_mismatch_violation(9, "Acme".to_string(), "pro".to_string(), None);
    assert_eq!(t.description, "Organization 'Acme' has tier 'pro' but subscription price '(none)' doesn't match");
    assert_eq!(t.context[2].1, ContextValue::OptText(None));
    let s = single_active_violation(9, 2);
    assert_eq!(s.description, "Organization has 2 active subscriptions (expected 1)");
    assert_eq!(s.org_ids, vec![9u128]);
}

#[test]
fn spend_caps_flag_both_mismatches() {
    assert!(spend_cap_inconsistent(true, 950, 1000));
    assert!(!spend_cap_inconsistent(true, 1000, 1000));
    assert!(spend_cap_inconsistent(false, 1000, 1000));
    assert!(!spend_cap_inconsistent(false, 999, 1000));
    assert!(!spend_cap_inconsistent(false, 5000, 0));
    let v = spend_cap_violation(9, false, 1200, 1000);
    assert_eq!(v.description, "Organization is not paused but spend ($12.00) is at or over cap ($10.00)");
}
