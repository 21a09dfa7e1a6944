//! Billing invariants: severities, the violations that each check reports and
//! the summary of a run of all checks.

use vstd::prelude::*;
use crate::text::{cents_text, int_text, push_cents_text, push_int_text, str_eq};
use crate::timeutil::{Timestamp, datetime_display};

verus! {

/// Severity of an invariant violation
#[derive(Debug, Clone, Copy, PartialEq, Eq, Structural)]
pub enum ViolationSeverity {
    /// Critical - system may be charging incorrectly
    Critical,
    /// High - data inconsistency that needs attention
    High,
    /// Medium - potential issue, should investigate
    Medium,
    /// Low - minor inconsistency, informational
    Low,
}

/// The label under which a severity is shown.
pub open spec fn severity_label(s: ViolationSeverity) -> Seq<char> {
    match s {
        ViolationSeverity::Critical => "CRITICAL"@,
        ViolationSeverity::High => "HIGH"@,
        ViolationSeverity::Medium => "MEDIUM"@,
        ViolationSeverity::Low => "LOW"@,
    }
}

impl ViolationSeverity {
    /// The severity's label: `CRITICAL`, `HIGH`, `MEDIUM` or `LOW`.
    pub fn to_string(&self) -> (r: String)
        ensures
            r@ == severity_label(*self),
    {
        match self {
            ViolationSeverity::Critical => "CRITICAL".to_owned(),
            ViolationSeverity::High => "HIGH".to_owned(),
            ViolationSeverity::Medium => "MEDIUM".to_owned(),
            ViolationSeverity::Low => "LOW".to_owned(),
        }
    }
}

/// No two severities share a label.
pub proof fn lemma_severity_labels_distinct(a: ViolationSeverity, b: ViolationSeverity)
    ensures
        severity_label(a) == severity_label(b) ==> a == b,
{
    reveal_strlit("CRITICAL");
    reveal_strlit("HIGH");
    reveal_strlit("MEDIUM");
    reveal_strlit("LOW");
    assert("CRITICAL"@[0] == 'C');
    assert("HIGH"@[0] == 'H');
    assert("MEDIUM"@[0] == 'M');
    assert("LOW"@[0] == 'L');
}

// =========================================================================
// Checks and violations
// =========================================================================

/// The names of the invariant checks, in the order they run.
pub open spec fn check_names() -> Seq<Seq<char>> {
    seq![
        "single_active_subscription"@,
        "tier_matches_subscription"@,
        "canceled_has_period_end"@,
        "tier_changes_audited"@,
        "spend_cap_consistency"@,
        "stripe_customer_exists"@,
    ]
}

/// How many checks a full run makes.
pub const CHECKS_RUN: usize = 6;

/// Get list of all available invariant checks
pub fn available_checks() -> (r: Vec<&'static str>)
    ensures
        r@.len() == 6,
        forall|i: int| 0 <= i < 6 ==> (#[trigger] r@[i])@ == check_names()[i],
{
    let r = vec![
        "single_active_subscription",
        "tier_matches_subscription",
        "canceled_has_period_end",
        "tier_changes_audited",
        "spend_cap_consistency",
        "stripe_customer_exists",
    ];
    r
}

/// The check a name selects, if any: its position among the checks.
pub fn check_index(name: &str) -> (r: Option<usize>)
    ensures
        r matches Some(i) ==> i < 6 && check_names()[i as int] == name@,
        r is None ==> forall|i: int| 0 <= i < 6 ==> check_names()[i] != name@,
{
    let names = available_checks();
    let mut i: usize = 0;
    while i < names.len()
        invariant
            names@.len() == 6,
            forall|k: int| 0 <= k < 6 ==> (#[trigger] names@[k])@ == check_names()[k],
            i <= 6,
            forall|k: int| 0 <= k < i ==> check_names()[k] != name@,
        decreases 6 - i,
    {
        if str_eq(names[i], name) {
            return Some(i);
        }
        i = i + 1;
    }
    None
}

/// A value of a violation's context.
#[derive(Debug, Clone, PartialEq, Eq)]
pub enum ContextValue {
    Int(i64),
    Bool(bool),
    Text(String),
    OptText(Option<String>),
    Id(u128),
    Time(Option<Timestamp>),
}

/// Result of running a single invariant check
#[derive(Debug, Clone)]
pub struct InvariantViolation {
    /// Which invariant was violated
    pub invariant: String,
    /// Organization(s) affected
    pub org_ids: Vec<u128>,
    /// Human-readable description of the violation
    pub description: String,
    /// Additional context for debugging, as named values
    pub context: Vec<(String, ContextValue)>,
    /// Severity level
    pub severity: ViolationSeverity,
}

/// A violation of check `name` for one organization.
pub open spec fn violation_of(v: InvariantViolation, name: Seq<char>, org_id: u128, severity: ViolationSeverity) -> bool {
    &&& v.invariant@ == name
    &&& v.org_ids@ == seq![org_id]
    &&& v.severity == severity
}

/// The organizations of a violation that concerns one.
fn single_org(org_id: u128) -> (v: Vec<u128>)
    ensures
        v@ == seq![org_id],
{
    let v = vec![org_id];
    assert(v@ =~= seq![org_id]);
    v
}

/// An organization with several live subscriptions.
pub fn single_active_violation(org_id: u128, sub_count: i64) -> (v: InvariantViolation)
    ensures
        violation_of(v, check_names()[0], org_id, ViolationSeverity::Critical),
        v.description@ == "Organization has "@ + int_text(sub_count as int) + " active subscriptions (expected 1)"@,
        v.context@.len() == 1,
        v.context@[0].0@ == "subscription_count"@ && v.context@[0].1 == ContextValue::Int(sub_count),
{
    let mut d = "Organization has ".to_owned();
    push_int_text(&mut d, sub_count);
    d.append(" active subscriptions (expected 1)");
    InvariantViolation {
        invariant: "single_active_subscription".to_owned(),
        org_ids: single_org(org_id),
        description: d,
        context: vec![("subscription_count".to_owned(), ContextValue::Int(sub_count))],
        severity: ViolationSeverity::Critical,
    }
}

/// An organization whose tier does not match its subscription's price.
pub fn tier_mismatch_violation(org_id: u128, org_name: String, db_tier: String, stripe_price_id: Option<String>) -> (v: InvariantViolation)
    ensures
        violation_of(v, check_names()[1], org_id, ViolationSeverity::Critical),
        v.description@ == "Organization '"@ + org_name@ + "' has tier '"@ + db_tier@ + "' but subscription price '"@
            + (match stripe_price_id { Some(p) => p@, None => "(none)"@ }) + "' doesn't match"@,
        v.context@.len() == 3,
        v.context@[0].0@ == "org_name"@ && v.context@[0].1 == ContextValue::Text(org_name),
        v.context@[1].0@ == "db_tier"@ && v.context@[1].1 == ContextValue::Text(db_tier),
        v.context@[2].0@ == "stripe_price_id"@ && v.context@[2].1 == ContextValue::OptText(stripe_price_id),
{
    let mut d = "Organization '".to_owned();
    d.append(org_name.as_str());
    d.append("' has tier '");
    d.append(db_tier.as_str());
    d.append("' but subscription price '");
    match &stripe_price_id {
        Some(p) => d.append(p.as_str()),
        None => d.append("(none)"),
    }
    d.append("' doesn't match");
    InvariantViolation {
        invariant: "tier_matches_subscription".to_owned(),
        org_ids: single_org(org_id),
        description: d,
        context: vec![
            ("org_name".to_owned(), ContextValue::Text(org_name)),
            ("db_tier".to_owned(), ContextValue::Text(db_tier)),
            ("stripe_price_id".to_owned(), ContextValue::OptText(stripe_price_id)),
        ],
        severity: ViolationSeverity::Critical,
    }
}

/// A cancelled subscription without a period end.
pub fn canceled_without_period_end_violation(subscription_id: u128, org_id: u128, status: String) -> (v: InvariantViolation)
    ensures
        violation_of(v, check_names()[2], org_id, ViolationSeverity::High),
        v.description@ == "Canceled subscription has no period_end date"@,
        v.context@.len() == 2,
        v.context@[0].0@ == "subscription_id"@ && v.context@[0].1 == ContextValue::Id(subscription_id),
        v.context@[1].0@ == "status"@ && v.context@[1].1 == ContextValue::Text(status),
{
    InvariantViolation {
        invariant: "canceled_has_period_end".to_owned(),
        org_ids: single_org(org_id),
        description: "Canceled subscription has no period_end date".to_owned(),
        context: vec![
            ("subscription_id".to_owned(), ContextValue::Id(subscription_id)),
            ("status".to_owned(), ContextValue::Text(status)),
        ],
        severity: ViolationSeverity::High,
    }
}

/// How `{:?}` writes an optional date-time (`time` writes its `Debug` form
/// as its display).
pub open spec fn debug_time(t: Option<Timestamp>) -> Seq<char> {
    match t {
        Some(d) => "Some("@ + datetime_display(d@) + ")"@,
        None => "None"@,
    }
}

/// A tier change without an audit record.
pub fn unaudited_tier_change_violation(org_id: u128, org_name: String, tier_changed_at: Option<Timestamp>) -> (v: InvariantViolation)
    ensures
        violation_of(v, check_names()[3], org_id, ViolationSeverity::High),
        v.description@ == "Organization '"@ + org_name@ + "' has tier change at "@ + debug_time(tier_changed_at)
            + " with no audit record"@,
        v.context@.len() == 2,
        v.context@[0].0@ == "org_name"@ && v.context@[0].1 == ContextValue::Text(org_name),
        v.context@[1].0@ == "tier_changed_at"@ && v.context@[1].1 == ContextValue::Time(tier_changed_at),
{
    let mut d = "Organization '".to_owned();
    d.append(org_name.as_str());
    d.append("' has tier change at ");
    match tier_changed_at {
        Some(t) => {
            d.append("Some(");
            let s = t.display();
            d.append(s.as_str());
            d.append(")");
        },
        None => d.append("None"),
    }
    d.append(" with no audit record");
    InvariantViolation {
        invariant: "tier_changes_audited".to_owned(),
        org_ids: single_org(org_id),
        description: d,
        context: vec![
            ("org_name".to_owned(), ContextValue::Text(org_name)),
            ("tier_changed_at".to_owned(), ContextValue::Time(tier_changed_at)),
        ],
        severity: ViolationSeverity::High,
    }
}

/// Whether an organization's spend cap is inconsistent: with a cap set, a
/// paused organization should have reached it and an unpaused one should be
/// under it.
pub open spec fn spend_cap_inconsistent_spec(is_paused: bool, spend: int, cap: int) -> bool {
    cap > 0 && (if is_paused { spend < cap } else { spend >= cap })
}

/// Whether a spend cap row breaks the spend cap invariant.
pub fn spend_cap_inconsistent(is_paused: bool, current_spend_cents: i64, cap_amount_cents: i64) -> (r: bool)
    ensures
        r == spend_cap_inconsistent_spec(is_paused, current_spend_cents as int, cap_amount_cents as int),
{
    cap_amount_cents > 0 && (if is_paused {
        current_spend_cents < cap_amount_cents
    } else {
        current_spend_cents >= cap_amount_cents
    })
}

/// The description of a spend cap violation.
pub open spec fn spend_cap_description(is_paused: bool, spend: i64, cap: i64) -> Seq<char> {
    if is_paused {
        "Organization is paused but spend ($"@ + cents_text(spend as int) + ") is under cap ($"@
            + cents_text(cap as int) + ")"@
    } else {
        "Organization is not paused but spend ($"@ + cents_text(spend as int) + ") is at or over cap ($"@
            + cents_text(cap as int) + ")"@
    }
}

/// An organization whose pause does not match its spend against its cap.
pub fn spend_cap_violation(org_id: u128, is_paused: bool, current_spend_cents: i64, cap_amount_cents: i64) -> (v: InvariantViolation)
    ensures
        violation_of(v, check_names()[4], org_id, ViolationSeverity::Medium),
        v.description@ == spend_cap_description(is_paused, current_spend_cents, cap_amount_cents),
        v.context@.len() == 3,
        v.context@[0].0@ == "is_paused"@ && v.context@[0].1 == ContextValue::Bool(is_paused),
        v.context@[1].0@ == "current_spend_cents"@ && v.context@[1].1 == ContextValue::Int(current_spend_cents),
        v.context@[2].0@ == "cap_amount_cents"@ && v.context@[2].1 == ContextValue::Int(cap_amount_cents),
{
    let mut d = if is_paused {
        "Organization is paused but spend ($".to_owned()
    } else {
        "Organization is not paused but spend ($".to_owned()
    };
    push_cents_text(&mut d, current_spend_cents);
    if is_paused {
        d.append(") is under cap ($");
    } else {
        d.append(") is at or over cap ($");
    }
    push_cents_text(&mut d, cap_amount_cents);
    d.append(")");
    InvariantViolation {
        invariant: "spend_cap_consistency".to_owned(),
        org_ids: single_org(org_id),
        description: d,
        context: vec![
            ("is_paused".to_owned(), ContextValue::Bool(is_paused)),
            ("current_spend_cents".to_owned(), ContextValue::Int(current_spend_cents)),
            ("cap_amount_cents".to_owned(), ContextValue::Int(cap_amount_cents)),
        ],
        severity: ViolationSeverity::Medium,
    }
}

/// A paid organization without a Stripe customer.
pub fn missing_customer_violation(org_id: u128, org_name: String, subscription_tier: String) -> (v: InvariantViolation)
    ensures
        violation_of(v, check_names()[5], org_id, ViolationSeverity::High),
        v.description@ == "Organization '"@ + org_name@ + "' on tier '"@ + subscription_tier@
            + "' has no Stripe customer"@,
        v.context@.len() == 2,
        v.context@[0].0@ == "org_name"@ && v.context@[0].1 == ContextValue::Text(org_name),
        v.context@[1].0@ == "subscription_tier"@ && v.context@[1].1 == ContextValue::Text(subscription_tier),
{
    let mut d = "Organization '".to_owned();
    d.append(org_name.as_str());
    d.append("' on tier '");
    d.append(subscription_tier.as_str());
    d.append("' has no Stripe customer");
    InvariantViolation {
        invariant: "stripe_customer_exists".to_owned(),
        org_ids: single_org(org_id),
        description: d,
        context: vec![
            ("org_name".to_owned(), ContextValue::Text(org_name)),
            ("subscription_tier".to_owned(), ContextValue::Text(subscription_tier)),
        ],
        severity: ViolationSeverity::High,
    }
}

// =========================================================================
// The summary of a run
// =========================================================================

/// Summary of all invariant checks
#[derive(Debug, Clone)]
pub struct InvariantCheckSummary {
    /// When the check was run
    pub checked_at: Timestamp,
    /// Total number of checks run
    pub checks_run: usize,
    /// Number of checks that passed
    pub checks_passed: usize,
    /// Number of checks that failed
    pub checks_failed: usize,
    /// List of all violations found
    pub violations: Vec<InvariantViolation>,
    /// Overall health status
    pub healthy: bool,
}

/// The names of the invariants that the violations break.
pub open spec fn violated_names(vs: Seq<InvariantViolation>) -> Set<Seq<char>> {
    Set::new(|n: Seq<char>| exists|i: int| 0 <= i < vs.len() && (#[trigger] vs[i]).invariant@ == n)
}

/// Whether every violation names one of the checks.
pub open spec fn names_known(vs: Seq<InvariantViolation>) -> bool {
    forall|i: int| 0 <= i < vs.len() ==> check_names().contains((#[trigger] vs[i]).invariant@)
}

proof fn lemma_check_names_card()
    ensures
        check_names().to_set().len() == 6,
{
    reveal_strlit("single_active_subscription");
    reveal_strlit("tier_matches_subscription");
    reveal_strlit("canceled_has_period_end");
    reveal_strlit("tier_changes_audited");
    reveal_strlit("spend_cap_consistency");
    reveal_strlit("stripe_customer_exists");
    let n = check_names();
    assert(n[0][0] == 's' && n[0][1] == 'i');
    assert(n[1][0] == 't' && n[1][5] == 'm');
    assert(n[2][0] == 'c');
    assert(n[3][0] == 't' && n[3][5] == 'c');
    assert(n[4][0] == 's' && n[4][1] == 'p');
    assert(n[5][0] == 's' && n[5][1] == 't');
    assert(n.no_duplicates());
    n.unique_seq_to_set();
}

/// Violations that each name one of the checks fail at most all six checks.
pub proof fn lemma_known_names_within_checks(vs: Seq<InvariantViolation>)
    requires
        names_known(vs),
    ensures
        violated_names(vs).finite(),
        violated_names(vs).len() <= CHECKS_RUN,
{
    lemma_check_names_card();
    assert(violated_names(vs).subset_of(check_names().to_set())) by {
        assert forall|n: Seq<char>| violated_names(vs).contains(n) implies check_names().to_set().contains(n) by {
            let j = choose|j: int| 0 <= j < vs.len() && (#[trigger] vs[j]).invariant@ == n;
        }
    }
    vstd::set_lib::lemma_len_subset(violated_names(vs), check_names().to_set());
}

/// Summarizes a run of the checks: a check failed when some violation names
/// it, the others passed, and the system is healthy when nothing was found.
pub fn summarize_checks(checked_at: Timestamp, violations: Vec<InvariantViolation>) -> (r: InvariantCheckSummary)
    requires
        violated_names(violations@).len() <= CHECKS_RUN,
    ensures
        r.checked_at == checked_at,
        r.checks_run == CHECKS_RUN,
        r.checks_failed == violated_names(violations@).len(),
        r.checks_passed + r.checks_failed == r.checks_run,
        r.violations == violations,
        r.healthy == (violations@.len() == 0),
{
    let mut seen: Vec<String> = Vec::new();
    let mut i: usize = 0;
    while i < violations.len()
        invariant
            i <= violations.len(),
            seen@.map_values(|s: String| s@).no_duplicates(),
            seen@.map_values(|s: String| s@).to_set() == violated_names(violations@.subrange(0, i as int)),
        decreases violations.len() - i,
    {
        let name = &violations[i].invariant;
        let ghost before = seen@.map_values(|s: String| s@);
        let mut found = false;
        let mut k: usize = 0;
        while k < seen.len()
            invariant
                k <= seen.len(),
                found ==> before.contains(name@),
                !found ==> forall|x: int| 0 <= x < k ==> (#[trigger] seen@[x])@ != name@,
                before == seen@.map_values(|s: String| s@),
            decreases seen.len() - k,
        {
            if str_eq(seen[k].as_str(), name.as_str()) {
                assert(before[k as int] == name@);
                found = true;
            }
            k = k + 1;
        }
        proof {
            assert(violations@.subrange(0, i + 1).drop_last() =~= violations@.subrange(0, i as int));
        }
        if !found {
            seen.push(name.clone());
            proof {
                let after = seen@.map_values(|s: String| s@);
                assert(after =~= before.push(name@));
                assert forall|x: int, y: int| 0 <= x < after.len() && 0 <= y < after.len() && x != y
                    implies after[x] != after[y] by {
                    if x < before.len() && y < before.len() {
                    } else if x == before.len() {
                        assert(before[y] == seen@[y]@);
                    } else {
                        assert(before[x] == seen@[x]@);
                    }
                }
                assert(after.to_set() =~= violated_names(violations@.subrange(0, i + 1))) by {
                    let pre = violations@.subrange(0, i as int);
                    let cur = violations@.subrange(0, i + 1);
                    assert forall|n: Seq<char>| after.to_set().contains(n) <==> violated_names(cur).contains(n) by {
                        if after.to_set().contains(n) {
                            let x = choose|x: int| 0 <= x < after.len() && after[x] == n;
                            if x < before.len() {
                                assert(before.to_set().contains(n));
                                let j = choose|j: int| 0 <= j < pre.len() && (#[trigger] pre[j]).invariant@ == n;
                                assert(cur[j] == pre[j]);
                            } else {
                                assert(cur[i as int].invariant@ == n);
                            }
                        }
                        if violated_names(cur).contains(n) {
                            let j = choose|j: int| 0 <= j < cur.len() && (#[trigger] cur[j]).invariant@ == n;
                            if j < i {
                                assert(pre[j] == cur[j]);
                                assert(violated_names(pre).contains(n));
                                let x = choose|x: int| 0 <= x < before.len() && before[x] == n;
                                assert(after[x] == n);
                            } else {
                                assert(after[before.len() as int] == n);
                            }
                        }
                    }
                }
            }
        } else {
            proof {
                let pre = violations@.subrange(0, i as int);
                let cur = violations@.subrange(0, i + 1);
                assert(before.to_set() =~= violated_names(cur)) by {
                    assert forall|n: Seq<char>| before.to_set().contains(n) <==> violated_names(cur).contains(n) by {
                        if before.to_set().contains(n) {
                            let j = choose|j: int| 0 <= j < pre.len() && (#[trigger] pre[j]).invariant@ == n;
                            assert(cur[j] == pre[j]);
                        }
                        if violated_names(cur).contains(n) {
                            let j = choose|j: int| 0 <= j < cur.len() && (#[trigger] cur[j]).invariant@ == n;
                            if j < i {
                                assert(pre[j] == cur[j]);
                                assert(violated_names(pre).contains(n));
                            }
                        }
                    }
                }
            }
        }
        i = i + 1;
    }
    proof {
        assert(violations@.subrange(0, violations@.len() as int) =~= violations@);
        let names = seen@.map_values(|s: String| s@);
        names.unique_seq_to_set();
    }
    let failed = seen.len();
    let healthy = violations.len() == 0;
    InvariantCheckSummary {
        checked_at,
        checks_run: CHECKS_RUN,
        checks_passed: CHECKS_RUN - failed,
        checks_failed: failed,
        violations,
        healthy,
    }
}

} // verus!
