//! Tax identifiers and the tax summary built from billing events.

use vstd::prelude::*;
use vstd::string::*;
use crate::error::BillingError;
use crate::ids::{uuid_hyphenated, uuid_text};
use crate::text::str_eq;
use crate::timeutil::Timestamp;

verus! {

/// Supported tax ID types
#[derive(Debug, Clone, Copy, PartialEq, Eq, Structural)]
pub enum TaxIdType {
    /// EU VAT number
    EuVat,
    /// UK VAT number
    GbVat,
    /// US EIN
    UsEin,
    /// Australian Business Number
    AuAbn,
    /// Canadian GST/HST number
    CaGstHst,
    /// Brazilian CNPJ
    BrCnpj,
    /// Indian GST
    InGst,
    /// Generic tax ID
    Other,
}

/// The Stripe code of a tax ID type; `Other` falls back to the EU VAT code.
pub open spec fn stripe_code(t: TaxIdType) -> Seq<char> {
    match t {
        TaxIdType::EuVat => "eu_vat"@,
        TaxIdType::GbVat => "gb_vat"@,
        TaxIdType::UsEin => "us_ein"@,
        TaxIdType::AuAbn => "au_abn"@,
        TaxIdType::CaGstHst => "ca_gst_hst"@,
        TaxIdType::BrCnpj => "br_cnpj"@,
        TaxIdType::InGst => "in_gst"@,
        TaxIdType::Other => "eu_vat"@,
    }
}

/// The tax ID type named by a Stripe code; unknown codes are `Other`.
pub open spec fn type_of_code(s: Seq<char>) -> TaxIdType {
    if s == "eu_vat"@ {
        TaxIdType::EuVat
    } else if s == "gb_vat"@ {
        TaxIdType::GbVat
    } else if s == "us_ein"@ {
        TaxIdType::UsEin
    } else if s == "au_abn"@ {
        TaxIdType::AuAbn
    } else if s == "ca_gst_hst"@ {
        TaxIdType::CaGstHst
    } else if s == "br_cnpj"@ {
        TaxIdType::BrCnpj
    } else if s == "in_gst"@ {
        TaxIdType::InGst
    } else {
        TaxIdType::Other
    }
}

impl TaxIdType {
    pub fn as_stripe_type(&self) -> (r: &'static str)
        ensures
            r@ == stripe_code(*self),
    {
        match self {
            TaxIdType::EuVat => "eu_vat",
            TaxIdType::GbVat => "gb_vat",
            TaxIdType::UsEin => "us_ein",
            TaxIdType::AuAbn => "au_abn",
            TaxIdType::CaGstHst => "ca_gst_hst",
            TaxIdType::BrCnpj => "br_cnpj",
            TaxIdType::InGst => "in_gst",
            TaxIdType::Other => "eu_vat",  // Default fallback
        }
    }

    pub fn from_stripe_type(s: &str) -> (r: Self)
        ensures
            r == type_of_code(s@),
    {
        if str_eq(s, "eu_vat") {
            TaxIdType::EuVat
        } else if str_eq(s, "gb_vat") {
            TaxIdType::GbVat
        } else if str_eq(s, "us_ein") {
            TaxIdType::UsEin
        } else if str_eq(s, "au_abn") {
            TaxIdType::AuAbn
        } else if str_eq(s, "ca_gst_hst") {
            TaxIdType::CaGstHst
        } else if str_eq(s, "br_cnpj") {
            TaxIdType::BrCnpj
        } else if str_eq(s, "in_gst") {
            TaxIdType::InGst
        } else {
            TaxIdType::Other
        }
    }
}

/// Reading back the Stripe code of any type but `Other` gives that type;
/// `Other` is written as the EU VAT code and so reads back as `EuVat`.
pub proof fn lemma_stripe_code_round_trip(t: TaxIdType)
    ensures
        t != TaxIdType::Other ==> type_of_code(stripe_code(t)) == t,
        t == TaxIdType::Other ==> type_of_code(stripe_code(t)) == TaxIdType::EuVat,
{
    reveal_strlit("eu_vat");
    reveal_strlit("gb_vat");
    reveal_strlit("us_ein");
    reveal_strlit("au_abn");
    reveal_strlit("ca_gst_hst");
    reveal_strlit("br_cnpj");
    reveal_strlit("in_gst");
    // The seven codes already differ in their first character.
    assert("eu_vat"@[0] == 'e');
    assert("gb_vat"@[0] == 'g');
    assert("us_ein"@[0] == 'u');
    assert("au_abn"@[0] == 'a');
    assert("ca_gst_hst"@[0] == 'c');
    assert("br_cnpj"@[0] == 'b');
    assert("in_gst"@[0] == 'i');
}

/// A code that names a type is the Stripe code of the type it names.
pub proof fn lemma_known_code_round_trip(s: Seq<char>)
    requires
        type_of_code(s) != TaxIdType::Other,
    ensures
        stripe_code(type_of_code(s)) == s,
{
}

// =========================================================================
// Tax IDs and configuration
// =========================================================================

/// Stored tax ID for an organization
#[derive(Debug, Clone)]
pub struct TaxId {
    pub id: u128,
    pub org_id: u128,
    pub tax_id_type: String,
    pub tax_id_value: String,
    pub stripe_tax_id: Option<String>,
    pub verification_status: String,
    pub country: Option<String>,
    pub created_at: Timestamp,
    pub updated_at: Timestamp,
}

/// Tax configuration for an organization
#[derive(Debug, Clone)]
pub struct TaxConfig {
    pub org_id: u128,
    pub tax_exempt: bool,
    pub tax_ids: Vec<TaxId>,
    pub billing_country: Option<String>,
    pub billing_postal_code: Option<String>,
}

/// The prefix of tax IDs recorded here but not at Stripe.
pub open spec fn local_prefix() -> Seq<char> {
    "txi_local_"@
}

/// Whether a Stripe tax ID was only recorded here.
pub open spec fn is_local_tax_id(id: Seq<char>) -> bool {
    id.len() >= 10 && id.subrange(0, 10) == local_prefix()
}

/// Whether `id` starts with `txi_local_`.
pub fn is_local(id: &str) -> (r: bool)
    ensures
        r == is_local_tax_id(id@),
{
    proof {
        reveal_strlit("txi_local_");
    }
    let prefix = "txi_local_";
    let n = id.unicode_len();
    if n < 10 {
        return false;
    }
    let mut i: usize = 0;
    while i < 10
        invariant
            n == id@.len(),
            n >= 10,
            i <= 10,
            prefix@ == local_prefix(),
            prefix@.len() == 10,
            forall|k: int| 0 <= k < i ==> id@[k] == prefix@[k],
        decreases 10 - i,
    {
        if id.get_char(i) != prefix.get_char(i) {
            assert(id@.subrange(0, 10)[i as int] != local_prefix()[i as int]);
            return false;
        }
        i = i + 1;
    }
    assert(id@.subrange(0, 10) =~= local_prefix());
    true
}

/// The Stripe tax ID recorded for a tax ID kept only here.
pub fn local_tax_id(id: u128) -> (r: String)
    ensures
        r@ == local_prefix() + uuid_hyphenated(id),
{
    proof {
        reveal_strlit("txi_local_");
    }
    let mut s = "txi_local_".to_owned();
    let t = uuid_text(id);
    s.append(t.as_str());
    s
}

/// A recorded local tax ID is local.
pub proof fn lemma_local_tax_id_is_local(id: u128)
    ensures
        is_local_tax_id(local_prefix() + uuid_hyphenated(id)),
{
    reveal_strlit("txi_local_");
    assert((local_prefix() + uuid_hyphenated(id)).subrange(0, 10) =~= local_prefix());
}

/// The Stripe customer of an organization for tax IDs: it must exist and be
/// non-empty.
pub fn tax_customer(customer_id: Option<String>) -> (r: Result<String, BillingError>)
    ensures
        customer_id matches Some(c) && c@.len() > 0 ==> r == Ok::<String, BillingError>(customer_id->0),
        !(customer_id matches Some(c) && c@.len() > 0) ==> r == Err::<String, BillingError>(BillingError::NoCustomer),
{
    match customer_id {
        Some(c) => if c.as_str().unicode_len() > 0 { Ok(c) } else { Err(BillingError::NoCustomer) },
        None => Err(BillingError::NoCustomer),
    }
}

/// The Stripe customer to update with tax settings, if the organization has
/// a non-empty one.
pub fn customer_to_update(customer_id: Option<String>) -> (r: Option<String>)
    ensures
        customer_id matches Some(c) && c@.len() > 0 ==> r == customer_id,
        !(customer_id matches Some(c) && c@.len() > 0) ==> r is None,
{
    match customer_id {
        Some(c) => if c.as_str().unicode_len() > 0 { Some(c) } else { None },
        None => None,
    }
}

/// The error when a tax ID is not the organization's.
pub fn tax_id_not_found() -> (r: BillingError)
    ensures
        r matches BillingError::NotFound(m) && m@ == "Tax ID not found"@,
{
    BillingError::NotFound("Tax ID not found".to_owned())
}

/// Whether removing a tax ID also deletes it at Stripe: it has a Stripe ID
/// that was not only recorded here.
pub fn deletes_at_stripe(stripe_tax_id: &Option<String>) -> (r: bool)
    ensures
        r == (stripe_tax_id matches Some(s) && !is_local_tax_id(s@)),
{
    match stripe_tax_id {
        Some(s) => !is_local(s.as_str()),
        None => false,
    }
}

/// What verifying a tax ID asks of Stripe.
#[derive(Debug, Clone, PartialEq, Eq)]
pub enum TaxIdCheck {
    /// The tax ID is only recorded here: its status is `local_only`
    LocalOnly,
    /// Look this Stripe tax ID up
    Lookup(String),
}

/// The first step of verifying a tax ID from its record (its Stripe ID):
/// no record is `NotFound`, no Stripe ID is `InvalidInput`; a local ID
/// needs no lookup.
pub fn tax_id_check(record: Option<Option<String>>) -> (r: Result<TaxIdCheck, BillingError>)
    ensures
        record is None ==> (r matches Err(BillingError::NotFound(m)) && m@ == "Tax ID not found"@),
        record matches Some(None) ==> (r matches Err(BillingError::InvalidInput(m)) && m@ == "Tax ID not linked to Stripe"@),
        record matches Some(Some(id)) ==> (is_local_tax_id(id@) ==> r == Ok::<TaxIdCheck, BillingError>(TaxIdCheck::LocalOnly))
            && (!is_local_tax_id(id@) ==> r == Ok::<TaxIdCheck, BillingError>(TaxIdCheck::Lookup(id))),
{
    match record {
        None => Err(tax_id_not_found()),
        Some(None) => Err(BillingError::InvalidInput("Tax ID not linked to Stripe".to_owned())),
        Some(Some(id)) => {
            if is_local(id.as_str()) {
                Ok(TaxIdCheck::LocalOnly)
            } else {
                Ok(TaxIdCheck::Lookup(id))
            }
        },
    }
}

/// The verification statuses Stripe gives a tax ID.
#[derive(Debug, Clone, Copy, PartialEq, Eq, Structural)]
pub enum TaxIdVerificationStatus {
    Pending,
    Unavailable,
    Unverified,
    Verified,
}

/// The status text recorded for a Stripe tax ID: the status's name as its
/// `Debug` form writes it, `unknown` without verification.
pub open spec fn verification_text(v: Option<TaxIdVerificationStatus>) -> Seq<char> {
    match v {
        Some(TaxIdVerificationStatus::Pending) => "Pending"@,
        Some(TaxIdVerificationStatus::Unavailable) => "Unavailable"@,
        Some(TaxIdVerificationStatus::Unverified) => "Unverified"@,
        Some(TaxIdVerificationStatus::Verified) => "Verified"@,
        None => "unknown"@,
    }
}

/// Each verification status is recorded under a text of its own, never the
/// text of a missing verification, and a tax ID reads as verified exactly
/// when Stripe verified it.
pub proof fn lemma_verification_texts_distinct(a: TaxIdVerificationStatus, b: TaxIdVerificationStatus)
    ensures
        verification_text(Some(a)) == verification_text(Some(b)) ==> a == b,
        verification_text(Some(a)) != verification_text(None),
        (verification_text(Some(a)) == "Verified"@) <==> (a == TaxIdVerificationStatus::Verified),
{
    reveal_strlit("Pending");
    reveal_strlit("Unavailable");
    reveal_strlit("Unverified");
    reveal_strlit("Verified");
    reveal_strlit("unknown");
    assert("Pending"@[0] != "Unavailable"@[0]);
    assert("Unavailable"@[2] != "Unverified"@[2]);
    assert("Verified"@[0] != "Unverified"@[0]);
    assert("unknown"@[0] != "Unverified"@[0]);
}

/// The status recorded for a tax ID after a lookup (or for a local one).
pub fn verification_status_text(check: &TaxIdCheck, v: Option<TaxIdVerificationStatus>) -> (r: String)
    ensures
        *check == TaxIdCheck::LocalOnly ==> r@ == "local_only"@,
        *check != TaxIdCheck::LocalOnly ==> r@ == verification_text(v),
{
    match check {
        TaxIdCheck::LocalOnly => "local_only".to_owned(),
        TaxIdCheck::Lookup(_) => match v {
            Some(TaxIdVerificationStatus::Pending) => "Pending".to_owned(),
            Some(TaxIdVerificationStatus::Unavailable) => "Unavailable".to_owned(),
            Some(TaxIdVerificationStatus::Unverified) => "Unverified".to_owned(),
            Some(TaxIdVerificationStatus::Verified) => "Verified".to_owned(),
            None => "unknown".to_owned(),
        },
    }
}

/// The tax configuration of an organization: its tax IDs and, from its
/// record, its exemption and billing country and postal code (not exempt
/// and unknown when it has no record).
pub fn tax_config(
    org_id: u128,
    tax_ids: Vec<TaxId>,
    org_info: Option<(bool, Option<String>, Option<String>)>,
) -> (r: TaxConfig)
    ensures
        r.org_id == org_id,
        r.tax_ids == tax_ids,
        org_info matches Some(i) ==> r.tax_exempt == i.0 && r.billing_country == i.1 && r.billing_postal_code == i.2,
        org_info is None ==> !r.tax_exempt && r.billing_country is None && r.billing_postal_code is None,
{
    let (tax_exempt, billing_country, billing_postal_code) = match org_info {
        Some(i) => i,
        None => (false, None, None),
    };
    TaxConfig { org_id, tax_exempt, tax_ids, billing_country, billing_postal_code }
}

// =========================================================================
// Tax summary
// =========================================================================

/// One taxed billing event: its jurisdiction and amounts.
#[derive(Debug, Clone)]
pub struct TaxRow {
    pub jurisdiction: String,
    pub taxable_amount_cents: i64,
    pub tax_amount_cents: i64,
}

/// The totals of one jurisdiction. Its rate is the rate of the event at
/// `first_row`, the first of that jurisdiction.
#[derive(Debug, Clone)]
pub struct JurisdictionTotal {
    pub jurisdiction: String,
    pub first_row: usize,
    pub taxable_amount_cents: i64,
    pub tax_amount_cents: i64,
}

/// The totals of a tax summary.
#[derive(Debug, Clone)]
pub struct TaxTotals {
    pub total_taxable_amount_cents: i64,
    pub total_tax_collected_cents: i64,
    pub breakdown: Vec<JurisdictionTotal>,
}

/// Sum of the taxable amounts of the first `k` rows; with `j`, of those of
/// jurisdiction `j` only.
pub open spec fn taxable_sum(rows: Seq<TaxRow>, j: Option<Seq<char>>, k: int) -> int
    decreases k,
{
    if k <= 0 {
        0
    } else {
        taxable_sum(rows, j, k - 1) + (if j is None || rows[k - 1].jurisdiction@ == j->0 {
            rows[k - 1].taxable_amount_cents as int
        } else {
            0
        })
    }
}

/// Sum of the tax amounts of the first `k` rows; with `j`, of those of
/// jurisdiction `j` only.
pub open spec fn tax_sum(rows: Seq<TaxRow>, j: Option<Seq<char>>, k: int) -> int
    decreases k,
{
    if k <= 0 {
        0
    } else {
        tax_sum(rows, j, k - 1) + (if j is None || rows[k - 1].jurisdiction@ == j->0 {
            rows[k - 1].tax_amount_cents as int
        } else {
            0
        })
    }
}

/// Whether a sum stays in the `i64` range.
pub open spec fn fits_i64(x: int) -> bool {
    i64::MIN <= x <= i64::MAX
}

/// Every running sum the summary adds up stays in the `i64` range.
pub open spec fn sums_fit(rows: Seq<TaxRow>) -> bool {
    forall|j: Option<Seq<char>>, k: int| 0 <= k <= rows.len() ==> fits_i64(#[trigger] taxable_sum(rows, j, k))
        && fits_i64(tax_sum(rows, j, k))
}

/// Whether `e` holds the right totals for the first `k` rows.
pub open spec fn entry_correct(rows: Seq<TaxRow>, e: JurisdictionTotal, k: int) -> bool {
    &&& e.first_row < k
    &&& rows[e.first_row as int].jurisdiction@ == e.jurisdiction@
    &&& forall|i: int| 0 <= i < e.first_row ==> rows[i].jurisdiction@ != e.jurisdiction@
    &&& e.taxable_amount_cents == taxable_sum(rows, Some(e.jurisdiction@), k)
    &&& e.tax_amount_cents == tax_sum(rows, Some(e.jurisdiction@), k)
}

/// Whether `b` is the breakdown of the first `k` rows: one entry per
/// jurisdiction met, in the order they were first met, each with its totals.
pub open spec fn breakdown_of(rows: Seq<TaxRow>, b: Seq<JurisdictionTotal>, k: int) -> bool {
    &&& forall|e: int| 0 <= e < b.len() ==> entry_correct(rows, #[trigger] b[e], k)
    &&& forall|e: int, f: int| 0 <= e < f < b.len() ==> (#[trigger] b[e]).first_row < (#[trigger] b[f]).first_row
    &&& forall|i: int| 0 <= i < k ==> exists|e: int| 0 <= e < b.len() && (#[trigger] b[e]).jurisdiction@ == (#[trigger] rows[i]).jurisdiction@
}

proof fn lemma_sum_step_other(rows: Seq<TaxRow>, j: Seq<char>, k: int)
    requires
        0 <= k < rows.len(),
        rows[k].jurisdiction@ != j,
    ensures
        taxable_sum(rows, Some(j), k + 1) == taxable_sum(rows, Some(j), k),
        tax_sum(rows, Some(j), k + 1) == tax_sum(rows, Some(j), k),
{
}

proof fn lemma_sum_absent(rows: Seq<TaxRow>, j: Seq<char>, k: int)
    requires
        0 <= k <= rows.len(),
        forall|i: int| 0 <= i < k ==> rows[i].jurisdiction@ != j,
    ensures
        taxable_sum(rows, Some(j), k) == 0,
        tax_sum(rows, Some(j), k) == 0,
    decreases k,
{
    if k > 0 {
        lemma_sum_absent(rows, j, k - 1);
    }
}

/// Adding row `i` to the entry of its jurisdiction keeps the breakdown right.
proof fn lemma_breakdown_update(rows: Seq<TaxRow>, old_b: Seq<JurisdictionTotal>, b: Seq<JurisdictionTotal>, i: int, p: int)
    requires
        0 <= i < rows.len(),
        0 <= p < old_b.len(),
        breakdown_of(rows, old_b, i),
        old_b[p].jurisdiction@ == rows[i].jurisdiction@,
        b.len() == old_b.len(),
        forall|x: int| 0 <= x < b.len() && x != p ==> b[x] == old_b[x],
        b[p].jurisdiction@ == old_b[p].jurisdiction@,
        b[p].first_row == old_b[p].first_row,
        b[p].taxable_amount_cents == old_b[p].taxable_amount_cents + rows[i].taxable_amount_cents,
        b[p].tax_amount_cents == old_b[p].tax_amount_cents + rows[i].tax_amount_cents,
    ensures
        breakdown_of(rows, b, i + 1),
{
    assert forall|x: int| 0 <= x < b.len() implies entry_correct(rows, #[trigger] b[x], i + 1) by {
        if x != p {
            assert(old_b[x].jurisdiction@ != old_b[p].jurisdiction@) by {
                if old_b[x].jurisdiction@ == old_b[p].jurisdiction@ {
                    assert(entry_correct(rows, old_b[x], i));
                    assert(entry_correct(rows, old_b[p], i));
                    if x < p {
                        assert(old_b[x].first_row < old_b[p].first_row);
                    } else {
                        assert(old_b[p].first_row < old_b[x].first_row);
                    }
                }
            }
            assert(entry_correct(rows, old_b[x], i));
            lemma_sum_step_other(rows, old_b[x].jurisdiction@, i);
        } else {
            assert(entry_correct(rows, old_b[p], i));
        }
    }
    assert forall|k: int| 0 <= k < i + 1 implies exists|e: int| 0 <= e < b.len()
        && (#[trigger] b[e]).jurisdiction@ == (#[trigger] rows[k]).jurisdiction@ by {
        if k < i {
            let e = choose|e: int| 0 <= e < old_b.len() && (#[trigger] old_b[e]).jurisdiction@ == rows[k].jurisdiction@;
            assert(b[e].jurisdiction@ == old_b[e].jurisdiction@);
        } else {
            assert(b[p].jurisdiction@ == rows[k].jurisdiction@);
        }
    }
    assert forall|e: int, f: int| 0 <= e < f < b.len() implies (#[trigger] b[e]).first_row < (#[trigger] b[f]).first_row by {
        assert(old_b[e].first_row < old_b[f].first_row);
    }
}

/// What appending an entry for a jurisdiction first met at row `i` needs.
pub open spec fn push_step(rows: Seq<TaxRow>, old_b: Seq<JurisdictionTotal>, b: Seq<JurisdictionTotal>, i: int) -> bool {
    &&& 0 <= i < rows.len()
    &&& forall|e: int| 0 <= e < old_b.len() ==> (#[trigger] old_b[e]).jurisdiction@ != rows[i].jurisdiction@
    &&& b.len() == old_b.len() + 1
    &&& forall|x: int| 0 <= x < old_b.len() ==> b[x] == old_b[x]
    &&& b[old_b.len() as int].jurisdiction@ == rows[i].jurisdiction@
    &&& b[old_b.len() as int].first_row == i
    &&& b[old_b.len() as int].taxable_amount_cents == rows[i].taxable_amount_cents
    &&& b[old_b.len() as int].tax_amount_cents == rows[i].tax_amount_cents
}

proof fn lemma_push_entries(rows: Seq<TaxRow>, old_b: Seq<JurisdictionTotal>, b: Seq<JurisdictionTotal>, i: int)
    requires
        push_step(rows, old_b, b, i),
        breakdown_of(rows, old_b, i),
    ensures
        forall|x: int| 0 <= x < b.len() ==> entry_correct(rows, #[trigger] b[x], i + 1),
{
    let j = rows[i].jurisdiction@;
    assert forall|k: int| 0 <= k < i implies rows[k].jurisdiction@ != j by {
        if rows[k].jurisdiction@ == j {
            let e = choose|e: int| 0 <= e < old_b.len() && (#[trigger] old_b[e]).jurisdiction@ == (#[trigger] rows[k]).jurisdiction@;
            assert(old_b[e].jurisdiction@ == j);
        }
    }
    lemma_sum_absent(rows, j, i);
    assert forall|x: int| 0 <= x < b.len() implies entry_correct(rows, #[trigger] b[x], i + 1) by {
        if x < old_b.len() {
            assert(entry_correct(rows, old_b[x], i));
            lemma_sum_step_other(rows, old_b[x].jurisdiction@, i);
        }
    }
}

proof fn lemma_push_coverage(rows: Seq<TaxRow>, old_b: Seq<JurisdictionTotal>, b: Seq<JurisdictionTotal>, i: int)
    requires
        push_step(rows, old_b, b, i),
        breakdown_of(rows, old_b, i),
    ensures
        forall|k: int| 0 <= k < i + 1 ==> exists|e: int| 0 <= e < b.len() && (#[trigger] b[e]).jurisdiction@ == (#[trigger] rows[k]).jurisdiction@,
{
    assert forall|k: int| 0 <= k < i + 1 implies exists|e: int| 0 <= e < b.len()
        && (#[trigger] b[e]).jurisdiction@ == (#[trigger] rows[k]).jurisdiction@ by {
        if k < i {
            let e = choose|e: int| 0 <= e < old_b.len() && (#[trigger] old_b[e]).jurisdiction@ == rows[k].jurisdiction@;
            assert(b[e].jurisdiction@ == old_b[e].jurisdiction@);
        } else {
            assert(b[old_b.len() as int].jurisdiction@ == rows[k].jurisdiction@);
        }
    }
}

proof fn lemma_push_order(rows: Seq<TaxRow>, old_b: Seq<JurisdictionTotal>, b: Seq<JurisdictionTotal>, i: int)
    requires
        push_step(rows, old_b, b, i),
        breakdown_of(rows, old_b, i),
    ensures
        forall|e: int, f: int| 0 <= e < f < b.len() ==> (#[trigger] b[e]).first_row < (#[trigger] b[f]).first_row,
{
    assert forall|e: int, f: int| 0 <= e < f < b.len() implies (#[trigger] b[e]).first_row < (#[trigger] b[f]).first_row by {
        if f < old_b.len() {
            assert(old_b[e].first_row < old_b[f].first_row);
        } else {
            assert(entry_correct(rows, old_b[e], i));
        }
    }
}

/// Appending an entry for a jurisdiction first met at row `i` keeps the
/// breakdown right.
proof fn lemma_breakdown_push(rows: Seq<TaxRow>, old_b: Seq<JurisdictionTotal>, b: Seq<JurisdictionTotal>, i: int)
    requires
        breakdown_of(rows, old_b, i),
        push_step(rows, old_b, b, i),
    ensures
        breakdown_of(rows, b, i + 1),
{
    lemma_push_entries(rows, old_b, b, i);
    lemma_push_coverage(rows, old_b, b, i);
    lemma_push_order(rows, old_b, b, i);
}

/// The taxable amounts of a breakdown's entries, added up.
pub open spec fn breakdown_taxable(b: Seq<JurisdictionTotal>) -> int
    decreases b.len(),
{
    if b.len() == 0 {
        0
    } else {
        breakdown_taxable(b.drop_last()) + b.last().taxable_amount_cents as int
    }
}

/// The tax amounts of a breakdown's entries, added up.
pub open spec fn breakdown_tax(b: Seq<JurisdictionTotal>) -> int
    decreases b.len(),
{
    if b.len() == 0 {
        0
    } else {
        breakdown_tax(b.drop_last()) + b.last().tax_amount_cents as int
    }
}

/// Replacing one entry changes the breakdown's sums by the change in that entry.
proof fn lemma_breakdown_sums_update(b: Seq<JurisdictionTotal>, p: int, e: JurisdictionTotal)
    requires
        0 <= p < b.len(),
    ensures
        breakdown_taxable(b.update(p, e)) == breakdown_taxable(b) - b[p].taxable_amount_cents + e.taxable_amount_cents,
        breakdown_tax(b.update(p, e)) == breakdown_tax(b) - b[p].tax_amount_cents + e.tax_amount_cents,
    decreases b.len(),
{
    if p == b.len() - 1 {
        assert(b.update(p, e).drop_last() =~= b.drop_last());
    } else {
        lemma_breakdown_sums_update(b.drop_last(), p, e);
        assert(b.update(p, e).drop_last() =~= b.drop_last().update(p, e));
    }
}

/// Position of the entry of jurisdiction `j`, if any.
fn find_jurisdiction(b: &Vec<JurisdictionTotal>, j: &str) -> (r: Option<usize>)
    ensures
        r matches Some(p) ==> p < b.len() && b@[p as int].jurisdiction@ == j@,
        r is None ==> forall|e: int| 0 <= e < b.len() ==> (#[trigger] b@[e]).jurisdiction@ != j@,
{
    let mut p: usize = 0;
    while p < b.len()
        invariant
            p <= b.len(),
            forall|e: int| 0 <= e < p ==> (#[trigger] b@[e]).jurisdiction@ != j@,
        decreases b.len() - p,
    {
        if str_eq(b[p].jurisdiction.as_str(), j) {
            return Some(p);
        }
        p = p + 1;
    }
    None
}

/// Adds up taxed billing events: the totals over all events and, per
/// jurisdiction in the order first met, its totals and its first event
/// (whose rate the summary shows).
#[verifier::rlimit(80)]
#[verifier::spinoff_prover]
pub fn tax_totals(rows: &Vec<TaxRow>) -> (r: TaxTotals)
    requires
        sums_fit(rows@),
    ensures
        r.total_taxable_amount_cents == taxable_sum(rows@, None, rows@.len() as int),
        r.total_tax_collected_cents == tax_sum(rows@, None, rows@.len() as int),
        breakdown_of(rows@, r.breakdown@, rows@.len() as int),
        breakdown_taxable(r.breakdown@) == r.total_taxable_amount_cents,
        breakdown_tax(r.breakdown@) == r.total_tax_collected_cents,
{
    let mut total_taxable: i64 = 0;
    let mut total_tax: i64 = 0;
    let mut b: Vec<JurisdictionTotal> = Vec::new();
    let mut i: usize = 0;
    while i < rows.len()
        invariant
            i <= rows.len(),
            sums_fit(rows@),
            total_taxable == taxable_sum(rows@, None, i as int),
            total_tax == tax_sum(rows@, None, i as int),
            breakdown_of(rows@, b@, i as int),
            breakdown_taxable(b@) == total_taxable,
            breakdown_tax(b@) == total_tax,
        decreases rows.len() - i,
    {
        let row = &rows[i];
        proof {
            assert(fits_i64(taxable_sum(rows@, None, i + 1)));
            assert(fits_i64(tax_sum(rows@, None, i + 1)));
            assert(fits_i64(taxable_sum(rows@, Some(row.jurisdiction@), i + 1)));
            assert(fits_i64(tax_sum(rows@, Some(row.jurisdiction@), i + 1)));
        }
        total_taxable = total_taxable + row.taxable_amount_cents;
        total_tax = total_tax + row.tax_amount_cents;
        let ghost old_b = b@;
        match find_jurisdiction(&b, row.jurisdiction.as_str()) {
            Some(p) => {
                let e = JurisdictionTotal {
                    jurisdiction: b[p].jurisdiction.clone(),
                    first_row: b[p].first_row,
                    taxable_amount_cents: b[p].taxable_amount_cents + row.taxable_amount_cents,
                    tax_amount_cents: b[p].tax_amount_cents + row.tax_amount_cents,
                };
                let ghost ev = e;
                b.set(p, e);
                proof {
                    lemma_breakdown_update(rows@, old_b, b@, i as int, p as int);
                    lemma_breakdown_sums_update(old_b, p as int, ev);
                }
            },
            None => {
                let e = JurisdictionTotal {
                    jurisdiction: row.jurisdiction.clone(),
                    first_row: i,
                    taxable_amount_cents: row.taxable_amount_cents,
                    tax_amount_cents: row.tax_amount_cents,
                };
                b.push(e);
                proof {
                    lemma_breakdown_push(rows@, old_b, b@, i as int);
                    assert(b@.drop_last() =~= old_b);
                }
            },
        }
        i = i + 1;
    }
    TaxTotals { total_taxable_amount_cents: total_taxable, total_tax_collected_cents: total_tax, breakdown: b }
}

} // verus!
