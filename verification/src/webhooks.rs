//! Stripe webhooks: signature verification of the `Stripe-Signature` header,
//! the kinds of events that are handled, and the decisions each handler
//! takes on the values an event carries.

use vstd::prelude::*;
use vstd::utf8::encode_utf8;
use vstd::string::*;
use crate::error::BillingError;
use crate::ids::{parse_uuid, uuid_parse};
use crate::metadata::Metadata;
use crate::timeutil::{Timestamp, timestamp_or, timestamp_or_now, valid_unix_timestamp};
use crate::timeutil::system_clock_seconds;
use crate::text::{
    hex_digit, hex_encode, hex_lower,
    all_digits, chars_of, int_text, is_digit, lemma_int_text_parses, lemma_nat_text_nonempty_digits, nat_text,
    parse_i64, parse_i64_chars, parse_i64_spec, parse_u32, parse_u32_spec, push_all, push_int_text, str_eq,
};

verus! {

// =========================================================================
// Outside call: HMAC-SHA256
// =========================================================================

/// The HMAC-SHA256 tag of `message` under `key`.
pub uninterp spec fn hmac_sha256(key: Seq<u8>, message: Seq<u8>) -> Seq<u8>;

/// Computes HMAC-SHA256 with the `hmac` and `sha2` crates. `new_from_slice`
/// accepts keys of every length (longer keys are hashed first), so the result
/// is always present; it is the 32-byte tag named `hmac_sha256`.
#[verifier::external_body]
fn compute_hmac_sha256(key: &[u8], message: &[u8]) -> (r: Option<Vec<u8>>)
    ensures
        r == Some(r->0),
        r->0@ == hmac_sha256(key@, message@),
{
    match <hmac::Hmac<sha2::Sha256> as hmac::Mac>::new_from_slice(key) {
        Ok(mut mac) => {
            hmac::Mac::update(&mut mac, message);
            Some(hmac::Mac::finalize(mac).into_bytes().to_vec())
        },
        Err(_) => None,
    }
}

// =========================================================================
// The signature header
// =========================================================================

/// The pieces of `s` between commas, as `str::split(',')` gives them: the
/// empty string gives one empty piece.
pub open spec fn split_commas(s: Seq<char>) -> Seq<Seq<char>>
    decreases s.len(),
{
    if s.len() == 0 {
        seq![Seq::empty()]
    } else {
        let prev = split_commas(s.drop_last());
        if s.last() == ',' {
            prev.push(Seq::empty())
        } else {
            prev.update(prev.len() - 1, prev.last().push(s.last()))
        }
    }
}

/// Index of the first `c` in `p`, or `p.len()` when there is none.
pub open spec fn find_char(p: Seq<char>, c: char) -> int
    decreases p.len(),
{
    if p.len() == 0 {
        0
    } else if p[0] == c {
        0
    } else {
        1 + find_char(p.drop_first(), c)
    }
}

/// What one `key=value` piece of the header changes: `t` sets the timestamp
/// (to `None` when the value is not an integer), `v1` the signature; other
/// keys, and pieces without `=`, change nothing.
pub open spec fn apply_part(
    st: (Option<i64>, Option<Seq<char>>),
    p: Seq<char>,
) -> (Option<i64>, Option<Seq<char>>) {
    let i = find_char(p, '=');
    if i >= p.len() {
        st
    } else {
        let key = p.take(i);
        let value = p.skip(i + 1);
        if key == "t"@ {
            (parse_i64_spec(value), st.1)
        } else if key == "v1"@ {
            (st.0, Some(value))
        } else {
            st
        }
    }
}

/// The timestamp and `v1` signature read from header pieces, later pieces
/// overriding earlier ones.
pub open spec fn fold_parts(parts: Seq<Seq<char>>) -> (Option<i64>, Option<Seq<char>>)
    decreases parts.len(),
{
    if parts.len() == 0 {
        (None, None)
    } else {
        apply_part(fold_parts(parts.drop_last()), parts.last())
    }
}

/// The timestamp and `v1` signature of a `Stripe-Signature` header
/// (`t=timestamp,v1=signature,v0=...`).
pub open spec fn header_fields(header: Seq<char>) -> (Option<i64>, Option<Seq<char>>) {
    fold_parts(split_commas(header))
}

/// The HMAC key: the secret without its `whsec_` prefix.
pub open spec fn secret_key(secret: Seq<char>) -> Seq<char> {
    if secret.len() >= 6 && secret.take(6) == "whsec_"@ {
        secret.skip(6)
    } else {
        secret
    }
}

/// The signature Stripe computes for `payload` at `timestamp`: hex of the
/// HMAC-SHA256 of `"{timestamp}.{payload}"` under the secret key.
pub open spec fn expected_signature(payload: Seq<char>, secret: Seq<char>, timestamp: i64) -> Seq<char> {
    hex_lower(
        hmac_sha256(
            encode_utf8(secret_key(secret)),
            encode_utf8(int_text(timestamp as int) + "."@ + payload),
        ),
    )
}

/// Largest accepted distance between the header timestamp and now, seconds.
pub const WEBHOOK_TOLERANCE_SECONDS: i64 = 300;

/// Whether `timestamp` is within the tolerance of `now`.
pub open spec fn within_tolerance(now: int, timestamp: int) -> bool {
    -300 <= now - timestamp <= 300
}

/// Whether a header signs `payload` at time `now`: it has a timestamp and a
/// `v1` signature, the timestamp is within five minutes of `now`, and the
/// signature is the expected one.
pub open spec fn signature_valid(payload: Seq<char>, header: Seq<char>, secret: Seq<char>, now: int) -> bool {
    let (ts, v1) = header_fields(header);
    &&& ts is Some
    &&& v1 is Some
    &&& within_tolerance(now, ts->0 as int)
    &&& v1->0 == expected_signature(payload, secret, ts->0)
}

/// Whether a header timestamp is within the tolerance of `now`; the
/// difference is taken exactly, so no timestamp wraps around.
pub fn timestamp_within_tolerance(now: i64, timestamp: i64) -> (r: bool)
    ensures
        r == within_tolerance(now as int, timestamp as int),
{
    let diff: i128 = (now as i128) - (timestamp as i128);
    -300 <= diff && diff <= 300
}

/// Splits at commas.
fn split_at_commas(s: &Vec<char>) -> (parts: Vec<Vec<char>>)
    ensures
        parts@.len() == split_commas(s@).len(),
        forall|k: int| 0 <= k < parts@.len() ==> #[trigger] parts@[k]@ == split_commas(s@)[k],
{
    let mut parts: Vec<Vec<char>> = Vec::new();
    let mut cur: Vec<char> = Vec::new();
    let mut i: usize = 0;
    proof {
        assert(s@.subrange(0, 0) =~= Seq::<char>::empty());
    }
    while i < s.len()
        invariant
            i <= s.len(),
            split_commas(s@.subrange(0, i as int)).len() == parts@.len() + 1,
            forall|k: int| 0 <= k < parts@.len() ==> #[trigger] parts@[k]@ == split_commas(s@.subrange(0, i as int))[k],
            cur@ == split_commas(s@.subrange(0, i as int)).last(),
        decreases s.len() - i,
    {
        let c = s[i];
        let ghost pre = s@.subrange(0, i as int);
        let ghost post = s@.subrange(0, i + 1);
        assert(post.drop_last() =~= pre);
        assert(post.last() == c);
        if c == ',' {
            let done = cur;
            parts.push(done);
            cur = Vec::new();
            assert(cur@ =~= Seq::<char>::empty());
        } else {
            cur.push(c);
        }
        i = i + 1;
        assert forall|k: int| 0 <= k < parts@.len() implies #[trigger] parts@[k]@ == split_commas(
            s@.subrange(0, i as int),
        )[k] by {
            assert(s@.subrange(0, i as int) == post);
        }
    }
    assert(s@.subrange(0, s.len() as int) =~= s@);
    parts.push(cur);
    parts
}

/// Index of the first `=` in a piece, or its length.
fn find_eq(p: &Vec<char>) -> (r: usize)
    ensures
        r == find_char(p@, '='),
        r <= p.len(),
{
    let mut i: usize = 0;
    assert(p@.skip(0) =~= p@);
    while i < p.len()
        invariant
            i <= p.len(),
            forall|k: int| 0 <= k < i ==> p@[k] != '=',
            find_char(p@, '=') == i + find_char(p@.skip(i as int), '='),
        decreases p.len() - i,
    {
        if p[i] == '=' {
            assert(find_char(p@.skip(i as int), '=') == 0);
            return i;
        }
        assert(p@.skip(i as int).drop_first() =~= p@.skip(i + 1));
        i = i + 1;
    }
    assert(p@.skip(i as int) =~= Seq::<char>::empty());
    i
}

/// Copies `p[from..to]`.
fn copy_range(p: &Vec<char>, from: usize, to: usize) -> (r: Vec<char>)
    requires
        from <= to <= p.len(),
    ensures
        r@ == p@.subrange(from as int, to as int),
{
    let mut r: Vec<char> = Vec::new();
    let mut i = from;
    while i < to
        invariant
            from <= i <= to <= p.len(),
            r@ == p@.subrange(from as int, i as int),
        decreases to - i,
    {
        r.push(p[i]);
        i = i + 1;
        assert(r@ =~= p@.subrange(from as int, i as int));
    }
    r
}

/// Reads the timestamp and `v1` signature of a `Stripe-Signature` header.
pub fn parse_signature_header(header: &str) -> (r: (Option<i64>, Option<Vec<char>>))
    ensures
        r.0 == header_fields(header@).0,
        r.1 is Some == header_fields(header@).1 is Some,
        r.1 is Some ==> r.1->0@ == header_fields(header@).1->0,
{
    let chars = chars_of(header);
    let parts = split_at_commas(&chars);
    let ghost all = split_commas(header@);
    let mut ts: Option<i64> = None;
    let mut v1: Option<Vec<char>> = None;
    let mut k: usize = 0;
    proof {
        reveal_strlit("t");
        reveal_strlit("v1");
        assert(all.take(0) =~= Seq::<Seq<char>>::empty());
    }
    while k < parts.len()
        invariant
            k <= parts.len(),
            parts@.len() == all.len(),
            all == split_commas(header@),
            forall|j: int| 0 <= j < parts@.len() ==> #[trigger] parts@[j]@ == all[j],
            ts == fold_parts(all.take(k as int)).0,
            v1 is Some == fold_parts(all.take(k as int)).1 is Some,
            v1 is Some ==> v1->0@ == fold_parts(all.take(k as int)).1->0,
            "t"@ == seq!['t'],
            "v1"@ == seq!['v', '1'],
        decreases parts.len() - k,
    {
        let p = &parts[k];
        let ghost pv = all[k as int];
        assert(p@ == pv);
        assert(all.take(k + 1).drop_last() =~= all.take(k as int));
        assert(all.take(k + 1).last() == pv);
        let i = find_eq(p);
        if i < p.len() {
            let key = copy_range(p, 0, i);
            let value = copy_range(p, i + 1, p.len());
            assert(key@ =~= pv.take(i as int));
            assert(value@ =~= pv.skip(i + 1));
            if key.len() == 1 && key[0] == 't' {
                assert(key@ =~= "t"@);
                ts = parse_i64_chars(&value);
            } else if key.len() == 2 && key[0] == 'v' && key[1] == '1' {
                assert(key@ =~= "v1"@);
                v1 = Some(value);
            } else {
                assert(key@ != "t"@ && key@ != "v1"@) by {
                    if key@ == "t"@ {
                        assert(key@.len() == 1);
                    }
                    if key@ == "v1"@ {
                        assert(key@.len() == 2);
                    }
                }
            }
        }
        k = k + 1;
    }
    assert(all.take(parts.len() as int) =~= all);
    (ts, v1)
}

/// The HMAC key bytes: the secret, without a leading `whsec_`, in UTF-8.
fn secret_key_text(secret: &str) -> (r: String)
    ensures
        r@ == secret_key(secret@),
{
    let n = secret.unicode_len();
    if n >= 6 {
        let head = secret.substring_char(0, 6);
        if str_eq(head, "whsec_") {
            return secret.substring_char(6, n).to_owned();
        }
    }
    secret.to_owned()
}

/// Checks a `Stripe-Signature` header against the payload at time `now`: the
/// header must carry `t=` and `v1=`, the timestamp must be within 300 seconds
/// of `now`, and `v1` must equal the hex HMAC-SHA256 of `"{t}.{payload}"`
/// under the webhook secret (its `whsec_` prefix removed).
pub fn verify_signature_at(payload: &str, signature: &str, webhook_secret: &str, now: i64) -> (r: Result<(), BillingError>)
    ensures
        r is Ok <==> signature_valid(payload@, signature@, webhook_secret@, now as int),
        r is Err ==> r == Err::<(), BillingError>(BillingError::WebhookSignatureInvalid),
{
    let (ts, v1) = parse_signature_header(signature);
    let timestamp = match ts {
        Some(t) => t,
        None => return Err(BillingError::WebhookSignatureInvalid),
    };
    let v1_signature = match v1 {
        Some(s) => s,
        None => return Err(BillingError::WebhookSignatureInvalid),
    };
    if !timestamp_within_tolerance(now, timestamp) {
        return Err(BillingError::WebhookSignatureInvalid);
    }
    let key = secret_key_text(webhook_secret);
    let mut signed_payload = String::new();
    push_int_text(&mut signed_payload, timestamp);
    signed_payload.append(".");
    signed_payload.append(payload);
    assert(signed_payload@ =~= int_text(timestamp as int) + "."@ + payload@);
    let mac = match compute_hmac_sha256(key.as_str().as_bytes(), signed_payload.as_str().as_bytes()) {
        Some(m) => m,
        None => return Err(BillingError::WebhookSignatureInvalid),
    };
    let computed = hex_encode(mac.as_slice());
    let mut received = String::new();
    push_all(&mut received, &v1_signature);
    assert(received@ =~= v1_signature@);
    if computed == received {
        Ok(())
    } else {
        Err(BillingError::WebhookSignatureInvalid)
    }
}

/// Checks a `Stripe-Signature` header against the payload now, by the system
/// clock. It succeeds only if the header signs the payload at some moment
/// (the clock's reading), and fails when the clock reads before 1970.
pub fn verify_webhook_signature(payload: &str, signature: &str, webhook_secret: &str) -> (r: Result<(), BillingError>)
    ensures
        r is Ok ==> exists|now: i64| signature_valid(payload@, signature@, webhook_secret@, now as int),
        r is Err ==> r == Err::<(), BillingError>(BillingError::WebhookSignatureInvalid),
{
    match system_clock_seconds() {
        None => Err(BillingError::WebhookSignatureInvalid),
        Some(secs) => {
            let now = secs as i64;
            let r = verify_signature_at(payload, signature, webhook_secret, now);
            r
        },
    }
}

/// Verifies a webhook delivery: accepted when Stripe's own check
/// (`Webhook::construct_event`, whose result is `standard_accepted`) accepted
/// it; otherwise the header is checked here against the system clock, with
/// the secret's `whsec_` prefix removed.
pub fn verify_event(standard_accepted: bool, payload: &str, signature: &str, webhook_secret: &str) -> (r: Result<(), BillingError>)
    ensures
        standard_accepted ==> r is Ok,
        !standard_accepted && r is Ok ==> exists|now: i64| signature_valid(payload@, signature@, webhook_secret@, now as int),
        r is Err ==> r == Err::<(), BillingError>(BillingError::WebhookSignatureInvalid),
{
    if standard_accepted {
        Ok(())
    } else {
        verify_webhook_signature(payload, signature, webhook_secret)
    }
}

// =========================================================================
// Signing and verifying agree
// =========================================================================

/// The header Stripe sends for `payload` signed at `timestamp`:
/// `t={timestamp},v1={signature}`.
pub open spec fn signature_header_for(payload: Seq<char>, secret: Seq<char>, timestamp: i64) -> Seq<char> {
    "t="@ + int_text(timestamp as int) + ",v1="@ + expected_signature(payload, secret, timestamp)
}

/// Whether `s` holds no comma.
pub open spec fn no_comma(s: Seq<char>) -> bool {
    forall|i: int| 0 <= i < s.len() ==> s[i] != ','
}

proof fn lemma_split_no_comma(s: Seq<char>)
    requires
        no_comma(s),
    ensures
        split_commas(s) == seq![s],
    decreases s.len(),
{
    if s.len() > 0 {
        lemma_split_no_comma(s.drop_last());
        assert(split_commas(s.drop_last()) == seq![s.drop_last()]);
        assert(s.drop_last().push(s.last()) =~= s);
        assert(split_commas(s) =~= seq![s]);
    } else {
        assert(s =~= Seq::<char>::empty());
    }
}

proof fn lemma_split_two(a: Seq<char>, b: Seq<char>)
    requires
        no_comma(a),
        no_comma(b),
    ensures
        split_commas(a + seq![','] + b) == seq![a, b],
    decreases b.len(),
{
    let s = a + seq![','] + b;
    if b.len() == 0 {
        assert(s.drop_last() =~= a);
        lemma_split_no_comma(a);
        assert(s.len() > 0);
        assert(s.last() == ',');
        assert(b =~= Seq::<char>::empty());
        assert(split_commas(s) == split_commas(s.drop_last()).push(Seq::<char>::empty()));
        assert(split_commas(s) =~= seq![a, b]);
    } else {
        let b0 = b.drop_last();
        assert(no_comma(b0));
        lemma_split_two(a, b0);
        assert(s.drop_last() =~= a + seq![','] + b0);
        assert(s.last() == b.last());
        assert(b.last() != ',') by {
            assert(b.last() == b[b.len() - 1]);
        }
        assert(b0.push(b.last()) =~= b);
        let prev = split_commas(s.drop_last());
        assert(prev == seq![a, b0]);
        assert(prev.len() - 1 == 1);
        assert(prev.last() == b0);
        assert(split_commas(s) == prev.update(1, b0.push(b.last())));
        assert(split_commas(s) =~= seq![a, b]);
    }
}

proof fn lemma_int_text_no_comma(x: i64)
    ensures
        no_comma(int_text(x as int)),
{
    if x < 0 {
        let n: nat = (-(x as int)) as nat;
        lemma_nat_text_nonempty_digits(n);
        let t = int_text(x as int);
        assert forall|i: int| 0 <= i < t.len() implies t[i] != ',' by {
            if i > 0 {
                assert(t[i] == nat_text(n)[i - 1]);
                assert(is_digit(nat_text(n)[i - 1]));
            }
        }
    } else {
        lemma_nat_text_nonempty_digits(x as nat);
        let t = int_text(x as int);
        assert forall|i: int| 0 <= i < t.len() implies t[i] != ',' by {
            assert(is_digit(t[i]));
        }
    }
}

proof fn lemma_hex_no_comma(b: Seq<u8>)
    ensures
        no_comma(hex_lower(b)),
    decreases b.len(),
{
    if b.len() > 0 {
        lemma_hex_no_comma(b.drop_last());
        let h = hex_lower(b);
        let prev = hex_lower(b.drop_last());
        assert forall|i: int| 0 <= i < h.len() implies h[i] != ',' by {
            if i >= prev.len() {
                let hi = b.last() as int / 16;
                let lo = b.last() as int % 16;
                assert(h[i] == hex_digit(hi) || h[i] == hex_digit(lo));
            } else {
                assert(h[i] == prev[i]);
            }
        }
    }
}

/// A header that signs the payload with the webhook secret at a timestamp
/// within five minutes of now is accepted: what Stripe signs, the handler
/// verifies.
pub proof fn lemma_signed_header_verifies(payload: Seq<char>, secret: Seq<char>, timestamp: i64, now: int)
    requires
        within_tolerance(now, timestamp as int),
    ensures
        signature_valid(payload, signature_header_for(payload, secret, timestamp), secret, now),
{
    reveal_strlit("t=");
    reveal_strlit(",v1=");
    reveal_strlit("t");
    reveal_strlit("v1");
    let digits = int_text(timestamp as int);
    let sig = expected_signature(payload, secret, timestamp);
    let a = seq!['t', '='] + digits;
    let b = seq!['v', '1', '='] + sig;
    let h = signature_header_for(payload, secret, timestamp);
    assert(h =~= a + seq![','] + b);
    lemma_int_text_no_comma(timestamp);
    lemma_hex_no_comma(hmac_sha256(
        encode_utf8(secret_key(secret)),
        encode_utf8(int_text(timestamp as int) + "."@ + payload),
    ));
    assert(no_comma(a)) by {
        assert forall|i: int| 0 <= i < a.len() implies a[i] != ',' by {
            if i >= 2 {
                assert(a[i] == digits[i - 2]);
            }
        }
    }
    assert(no_comma(b)) by {
        assert forall|i: int| 0 <= i < b.len() implies b[i] != ',' by {
            if i >= 3 {
                assert(b[i] == sig[i - 3]);
            }
        }
    }
    lemma_split_two(a, b);
    let parts = seq![a, b];
    assert(parts.drop_last() =~= seq![a]);
    assert(seq![a].drop_last() =~= Seq::<Seq<char>>::empty());
    // the first piece sets the timestamp
    assert(a.drop_first()[0] == '=');
    assert(find_char(a.drop_first(), '=') == 0);
    assert(find_char(a, '=') == 1);
    assert(a.take(1) =~= "t"@);
    assert(a.skip(2) =~= digits);
    lemma_int_text_parses(timestamp);
    assert(seq![a].last() == a);
    assert(fold_parts(Seq::<Seq<char>>::empty()) == (None::<i64>, None::<Seq<char>>));
    assert(parse_i64_spec(a.skip(2)) == Some(timestamp));
    assert(apply_part((None::<i64>, None::<Seq<char>>), a) == (Some(timestamp), None::<Seq<char>>));
    assert(fold_parts(seq![a]) == (Some(timestamp), None::<Seq<char>>));
    // the second piece sets the signature
    assert(b.drop_first().drop_first()[0] == '=');
    assert(find_char(b.drop_first().drop_first(), '=') == 0);
    assert(find_char(b.drop_first(), '=') == 1);
    assert(find_char(b, '=') == 2);
    assert(b.take(2) =~= "v1"@);
    assert(b.take(2) != "t"@);
    assert(b.skip(3) =~= sig);
    assert(fold_parts(parts) == (Some(timestamp), Some(sig)));
}

// =========================================================================
// Event kinds
// =========================================================================

/// The Stripe events that have a handler, and all others.
#[derive(Debug, Clone, Copy, PartialEq, Eq, Structural)]
pub enum StripeEventKind {
    SubscriptionCreated,
    SubscriptionUpdated,
    SubscriptionDeleted,
    TrialWillEnd,
    InvoicePaid,
    InvoicePaymentFailed,
    InvoiceFinalized,
    InvoiceUpcoming,
    CheckoutSessionCompleted,
    ChargeFailed,
    ChargeRefunded,
    ChargeDisputeCreated,
    PaymentIntentFailed,
    CustomerCreated,
    CustomerUpdated,
    CustomerDeleted,
    /// Logged and otherwise ignored
    Unhandled,
}

/// The kind of a Stripe event type string.
pub open spec fn event_kind(t: Seq<char>) -> StripeEventKind {
    if t == "customer.subscription.created"@ {
        StripeEventKind::SubscriptionCreated
    } else if t == "customer.subscription.updated"@ {
        StripeEventKind::SubscriptionUpdated
    } else if t == "customer.subscription.deleted"@ {
        StripeEventKind::SubscriptionDeleted
    } else if t == "customer.subscription.trial_will_end"@ {
        StripeEventKind::TrialWillEnd
    } else if t == "invoice.paid"@ {
        StripeEventKind::InvoicePaid
    } else if t == "invoice.payment_failed"@ {
        StripeEventKind::InvoicePaymentFailed
    } else if t == "invoice.finalized"@ {
        StripeEventKind::InvoiceFinalized
    } else if t == "invoice.upcoming"@ {
        StripeEventKind::InvoiceUpcoming
    } else if t == "checkout.session.completed"@ {
        StripeEventKind::CheckoutSessionCompleted
    } else if t == "charge.failed"@ {
        StripeEventKind::ChargeFailed
    } else if t == "charge.refunded"@ {
        StripeEventKind::ChargeRefunded
    } else if t == "charge.dispute.created"@ {
        StripeEventKind::ChargeDisputeCreated
    } else if t == "payment_intent.payment_failed"@ {
        StripeEventKind::PaymentIntentFailed
    } else if t == "customer.created"@ {
        StripeEventKind::CustomerCreated
    } else if t == "customer.updated"@ {
        StripeEventKind::CustomerUpdated
    } else if t == "customer.deleted"@ {
        StripeEventKind::CustomerDeleted
    } else {
        StripeEventKind::Unhandled
    }
}

/// The Stripe event type a handled kind of event is for; nothing for the
/// events that are only logged.
pub open spec fn event_type_name(k: StripeEventKind) -> Seq<char> {
    match k {
        StripeEventKind::SubscriptionCreated => "customer.subscription.created"@,
        StripeEventKind::SubscriptionUpdated => "customer.subscription.updated"@,
        StripeEventKind::SubscriptionDeleted => "customer.subscription.deleted"@,
        StripeEventKind::TrialWillEnd => "customer.subscription.trial_will_end"@,
        StripeEventKind::InvoicePaid => "invoice.paid"@,
        StripeEventKind::InvoicePaymentFailed => "invoice.payment_failed"@,
        StripeEventKind::InvoiceFinalized => "invoice.finalized"@,
        StripeEventKind::InvoiceUpcoming => "invoice.upcoming"@,
        StripeEventKind::CheckoutSessionCompleted => "checkout.session.completed"@,
        StripeEventKind::ChargeFailed => "charge.failed"@,
        StripeEventKind::ChargeRefunded => "charge.refunded"@,
        StripeEventKind::ChargeDisputeCreated => "charge.dispute.created"@,
        StripeEventKind::PaymentIntentFailed => "payment_intent.payment_failed"@,
        StripeEventKind::CustomerCreated => "customer.created"@,
        StripeEventKind::CustomerUpdated => "customer.updated"@,
        StripeEventKind::CustomerDeleted => "customer.deleted"@,
        StripeEventKind::Unhandled => Seq::empty(),
    }
}

/// Each handled event type goes to the handler of its own kind: the kind an
/// event type is classified as is the kind for exactly that type, every
/// handled kind is reached from its own type, and no two types share a
/// handler.
pub proof fn lemma_event_kinds_match_types(t: Seq<char>, t2: Seq<char>, k: StripeEventKind)
    ensures
        event_kind(t) != StripeEventKind::Unhandled ==> event_type_name(event_kind(t)) == t,
        k != StripeEventKind::Unhandled ==> event_kind(event_type_name(k)) == k,
        event_kind(t) != StripeEventKind::Unhandled && event_kind(t) == event_kind(t2) ==> t == t2,
{
    reveal_strlit("customer.subscription.created");
    reveal_strlit("customer.subscription.updated");
    reveal_strlit("customer.subscription.deleted");
    reveal_strlit("customer.subscription.trial_will_end");
    reveal_strlit("invoice.paid");
    reveal_strlit("invoice.payment_failed");
    reveal_strlit("invoice.finalized");
    reveal_strlit("invoice.upcoming");
    reveal_strlit("checkout.session.completed");
    reveal_strlit("charge.failed");
    reveal_strlit("charge.refunded");
    reveal_strlit("charge.dispute.created");
    reveal_strlit("payment_intent.payment_failed");
    reveal_strlit("customer.created");
    reveal_strlit("customer.updated");
    reveal_strlit("customer.deleted");
    // Names of different lengths differ; those of equal length differ at
    // the places below.
    assert("customer.subscription.created"@.len() == 29);
    assert("customer.subscription.updated"@.len() == 29);
    assert("customer.subscription.deleted"@.len() == 29);
    assert("customer.subscription.trial_will_end"@.len() == 36);
    assert("invoice.paid"@.len() == 12);
    assert("invoice.payment_failed"@.len() == 22);
    assert("invoice.finalized"@.len() == 17);
    assert("invoice.upcoming"@.len() == 16);
    assert("checkout.session.completed"@.len() == 26);
    assert("charge.failed"@.len() == 13);
    assert("charge.refunded"@.len() == 15);
    assert("charge.dispute.created"@.len() == 22);
    assert("payment_intent.payment_failed"@.len() == 29);
    assert("customer.created"@.len() == 16);
    assert("customer.updated"@.len() == 16);
    assert("customer.deleted"@.len() == 16);

    assert("invoice.upcoming"@[9] != "customer.created"@[9]);
    assert("customer.created"@[9] != "customer.updated"@[9]);
    assert("customer.created"@[9] != "customer.deleted"@[9]);
    assert("customer.updated"@[9] != "customer.deleted"@[9]);
    assert("invoice.upcoming"@[9] != "customer.updated"@[9]);
    assert("invoice.upcoming"@[9] != "customer.deleted"@[9]);
    assert("invoice.payment_failed"@[0] != "charge.dispute.created"@[0]);
    assert("customer.subscription.created"@[22] != "customer.subscription.updated"@[22]);
    assert("customer.subscription.created"@[22] != "customer.subscription.deleted"@[22]);
    assert("customer.subscription.updated"@[22] != "customer.subscription.deleted"@[22]);
    assert("customer.subscription.created"@[22] != "payment_intent.payment_failed"@[22]);
    assert("customer.subscription.updated"@[22] != "payment_intent.payment_failed"@[22]);
    assert("customer.subscription.deleted"@[22] != "payment_intent.payment_failed"@[22]);
    match k {
        StripeEventKind::SubscriptionCreated => {
            assert(event_kind("customer.subscription.created"@) == StripeEventKind::SubscriptionCreated);
        },
        StripeEventKind::SubscriptionUpdated => {
            assert(event_kind("customer.subscription.updated"@) == StripeEventKind::SubscriptionUpdated);
        },
        StripeEventKind::SubscriptionDeleted => {
            assert(event_kind("customer.subscription.deleted"@) == StripeEventKind::SubscriptionDeleted);
        },
        StripeEventKind::TrialWillEnd => {
            assert(event_kind("customer.subscription.trial_will_end"@) == StripeEventKind::TrialWillEnd);
        },
        StripeEventKind::InvoicePaid => {
            assert(event_kind("invoice.paid"@) == StripeEventKind::InvoicePaid);
        },
        StripeEventKind::InvoicePaymentFailed => {
            assert(event_kind("invoice.payment_failed"@) == StripeEventKind::InvoicePaymentFailed);
        },
        StripeEventKind::InvoiceFinalized => {
            assert(event_kind("invoice.finalized"@) == StripeEventKind::InvoiceFinalized);
        },
        StripeEventKind::InvoiceUpcoming => {
            assert(event_kind("invoice.upcoming"@) == StripeEventKind::InvoiceUpcoming);
        },
        StripeEventKind::CheckoutSessionCompleted => {
            assert(event_kind("checkout.session.completed"@) == StripeEventKind::CheckoutSessionCompleted);
        },
        StripeEventKind::ChargeFailed => {
            assert(event_kind("charge.failed"@) == StripeEventKind::ChargeFailed);
        },
        StripeEventKind::ChargeRefunded => {
            assert(event_kind("charge.refunded"@) == StripeEventKind::ChargeRefunded);
        },
        StripeEventKind::ChargeDisputeCreated => {
            assert(event_kind("charge.dispute.created"@) == StripeEventKind::ChargeDisputeCreated);
        },
        StripeEventKind::PaymentIntentFailed => {
            assert(event_kind("payment_intent.payment_failed"@) == StripeEventKind::PaymentIntentFailed);
        },
        StripeEventKind::CustomerCreated => {
            assert(event_kind("customer.created"@) == StripeEventKind::CustomerCreated);
        },
        StripeEventKind::CustomerUpdated => {
            assert(event_kind("customer.updated"@) == StripeEventKind::CustomerUpdated);
        },
        StripeEventKind::CustomerDeleted => {
            assert(event_kind("customer.deleted"@) == StripeEventKind::CustomerDeleted);
        },
        StripeEventKind::Unhandled => {},
    }
}

/// Which handler an event of type `t` goes to.
pub fn classify_event_type(t: &str) -> (k: StripeEventKind)
    ensures
        k == event_kind(t@),
{
    if str_eq(t, "customer.subscription.created") {
        StripeEventKind::SubscriptionCreated
    } else if str_eq(t, "customer.subscription.updated") {
        StripeEventKind::SubscriptionUpdated
    } else if str_eq(t, "customer.subscription.deleted") {
        StripeEventKind::SubscriptionDeleted
    } else if str_eq(t, "customer.subscription.trial_will_end") {
        StripeEventKind::TrialWillEnd
    } else if str_eq(t, "invoice.paid") {
        StripeEventKind::InvoicePaid
    } else if str_eq(t, "invoice.payment_failed") {
        StripeEventKind::InvoicePaymentFailed
    } else if str_eq(t, "invoice.finalized") {
        StripeEventKind::InvoiceFinalized
    } else if str_eq(t, "invoice.upcoming") {
        StripeEventKind::InvoiceUpcoming
    } else if str_eq(t, "checkout.session.completed") {
        StripeEventKind::CheckoutSessionCompleted
    } else if str_eq(t, "charge.failed") {
        StripeEventKind::ChargeFailed
    } else if str_eq(t, "charge.refunded") {
        StripeEventKind::ChargeRefunded
    } else if str_eq(t, "charge.dispute.created") {
        StripeEventKind::ChargeDisputeCreated
    } else if str_eq(t, "payment_intent.payment_failed") {
        StripeEventKind::PaymentIntentFailed
    } else if str_eq(t, "customer.created") {
        StripeEventKind::CustomerCreated
    } else if str_eq(t, "customer.updated") {
        StripeEventKind::CustomerUpdated
    } else if str_eq(t, "customer.deleted") {
        StripeEventKind::CustomerDeleted
    } else {
        StripeEventKind::Unhandled
    }
}

// =========================================================================
// Idempotent processing
// =========================================================================

/// Why an event that could not be claimed is skipped, by the status already
/// recorded for it.
pub open spec fn duplicate_reason_text(existing: Option<Seq<char>>) -> Seq<char> {
    match existing {
        Some(s) => if s == "success"@ {
            "already processed successfully"@
        } else if s == "processing"@ {
            "currently being processed by another worker"@
        } else {
            "exists with another status"@
        },
        None => "unknown (race condition?)"@,
    }
}

/// Why a duplicate event is skipped.
pub fn duplicate_reason(existing_status: Option<&str>) -> (r: &'static str)
    ensures
        r@ == duplicate_reason_text(match existing_status { Some(s) => Some(s@), None => None }),
{
    match existing_status {
        Some(s) => if str_eq(s, "success") {
            "already processed successfully"
        } else if str_eq(s, "processing") {
            "currently being processed by another worker"
        } else {
            "exists with another status"
        },
        None => "unknown (race condition?)",
    }
}

/// The processing result and error recorded for an event once its handler
/// has run: `success` without error, or `error` with the handler's error.
pub fn processing_record(error: Option<String>) -> (r: (String, Option<String>))
    ensures
        error is None ==> r.0@ == "success"@ && r.1 is None,
        error is Some ==> r.0@ == "error"@ && r.1 == error,
{
    match error {
        None => ("success".to_owned(), None),
        Some(e) => ("error".to_owned(), Some(e)),
    }
}

// =========================================================================
// Paid invoices
// =========================================================================

/// The amount a pay-now confirmation states: the amount paid (zero when
/// missing) as an `i32`, wrapping as a cast does.
pub fn pay_now_amount(amount_paid: Option<i64>) -> (r: i32)
    ensures
        r == (match amount_paid { Some(a) => a, None => 0i64 }) as i32,
{
    let a: i64 = match amount_paid {
        Some(a) => a,
        None => 0,
    };
    a as i32
}

/// The billing period whose pending overage charges a paid invoice settles:
/// only when the invoice gives both ends, each read as a date (now when it
/// is none).
pub fn settled_period(period_start: Option<i64>, period_end: Option<i64>, now: Timestamp) -> (r: Option<(Timestamp, Timestamp)>)
    ensures
        match (period_start, period_end) {
            (Some(s), Some(e)) => r matches Some(p)
                && p.0@ == (if valid_unix_timestamp(s) { s } else { now@ })
                && p.1@ == (if valid_unix_timestamp(e) { e } else { now@ }),
            _ => r is None,
        },
{
    match (period_start, period_end) {
        (Some(s), Some(e)) => Some((Timestamp::from_unix_or(s, now), Timestamp::from_unix_or(e, now))),
        _ => None,
    }
}

/// The tier named in the notices of a downgrade processed at renewal: the
/// subscription's `tier`, else `lower tier`.
pub fn downgraded_tier_name(metadata_tier: Option<String>) -> (r: String)
    ensures
        metadata_tier matches Some(t) ==> r == t,
        metadata_tier is None ==> r@ == "lower tier"@,
{
    match metadata_tier {
        Some(t) => t,
        None => "lower tier".to_owned(),
    }
}

// =========================================================================
// Subscription events
// =========================================================================

/// The organization an object's metadata names under `org_id`.
pub open spec fn org_id_in(meta: Map<Seq<char>, Seq<char>>) -> Option<u128> {
    if meta.contains_key("org_id"@) {
        match uuid_parse(meta["org_id"@]) {
            Ok(id) => Some(id),
            Err(_) => None,
        }
    } else {
        None
    }
}

/// The organization named by `org_id` in a subscription's metadata; an error
/// when it is missing or not a UUID.
pub fn org_id_from_metadata(metadata: &Metadata) -> (r: Result<u128, BillingError>)
    ensures
        r matches Ok(id) ==> org_id_in(metadata@) == Some(id),
        r is Err ==> org_id_in(metadata@) is None,
        r matches Err(e) ==> e == BillingError::Internal(e->Internal_0) && e->Internal_0@
            == "org_id not found in metadata"@,
{
    match metadata.get("org_id") {
        Some(text) => match parse_uuid(text.as_str()) {
            Ok(id) => Ok(id),
            Err(_) => Err(BillingError::Internal("org_id not found in metadata".to_owned())),
        },
        None => Err(BillingError::Internal("org_id not found in metadata".to_owned())),
    }
}

/// Days left in a trial, for the trial-ending notice: whole days until the
/// end, at least one; three when the trial end is unknown.
pub open spec fn trial_days_left(trial_end: Option<i64>, now: int) -> int {
    match trial_end {
        Some(end) => if end - now >= 86400 { (end - now) / 86400 } else { 1 },
        None => 3,
    }
}

/// Days left in a trial as the trial-ending notice states them.
pub fn trial_days_remaining(trial_end: Option<i64>, now: i64) -> (r: i64)
    ensures
        r == trial_days_left(trial_end, now as int),
{
    match trial_end {
        Some(end) => {
            let diff: i128 = (end as i128) - (now as i128);
            if diff >= 86400 {
                (diff / 86400) as i64
            } else {
                1
            }
        },
        None => 3,
    }
}

/// The plan named in the trial-ending notice: the nickname of the first
/// item's price, `Pro` when there is none.
pub fn trial_plan_name(first_price_nickname: Option<&str>) -> (r: String)
    ensures
        r@ == (match first_price_nickname { Some(n) => n@, None => "Pro"@ }),
{
    match first_price_nickname {
        Some(n) => n.to_owned(),
        None => "Pro".to_owned(),
    }
}

// =========================================================================
// Invoice events
// =========================================================================

/// The invoice fields stored for an invoice event.
#[derive(Debug, Clone)]
pub struct InvoiceRecord {
    pub amount_cents: i32,
    pub amount_due_cents: i32,
    pub amount_paid_cents: i32,
    pub currency: String,
    pub status: String,
    pub period_start: Option<i64>,
    pub period_end: Option<i64>,
    pub due_date: Option<i64>,
    pub grace_period_ends_at: Option<i64>,
    pub paid_at: Option<i64>,
}

/// Days of grace after an invoice's due date.
pub const GRACE_PERIOD_DAYS: i64 = 30;

/// An optional timestamp read as a date-time, `now` where it cannot be one.
pub open spec fn opt_timestamp_or(ts: Option<i64>, now: i64) -> Option<i64> {
    match ts {
        Some(t) => Some(timestamp_or(t, now)),
        None => None,
    }
}

fn opt_timestamp_or_now(ts: Option<i64>, now: i64) -> (r: Option<i64>)
    ensures
        r == opt_timestamp_or(ts, now),
{
    match ts {
        Some(t) => Some(timestamp_or_now(t, now)),
        None => None,
    }
}

/// The record stored for an invoice: amounts default to zero and are kept
/// as `i32` as the columns are, currency defaults to `usd`, dates that are
/// not valid date-times become `now`, the grace period ends thirty days
/// after the due date, and only a `paid` invoice has a payment time (`now`).
pub fn invoice_record(
    total: Option<i64>,
    amount_due: Option<i64>,
    amount_paid: Option<i64>,
    currency: Option<&str>,
    status: &str,
    period_start: Option<i64>,
    period_end: Option<i64>,
    due_date: Option<i64>,
    now: i64,
) -> (r: InvoiceRecord)
    requires
        due_date matches Some(d) ==> timestamp_or(d, now) + 30 * 86400 <= i64::MAX,
    ensures
        r.amount_cents == (match total { Some(t) => t, None => 0 }) as i32,
        r.amount_due_cents == (match amount_due { Some(t) => t, None => 0 }) as i32,
        r.amount_paid_cents == (match amount_paid { Some(t) => t, None => 0 }) as i32,
        r.currency@ == (match currency { Some(c) => c@, None => "usd"@ }),
        r.status@ == status@,
        r.period_start == opt_timestamp_or(period_start, now),
        r.period_end == opt_timestamp_or(period_end, now),
        r.due_date == opt_timestamp_or(due_date, now),
        r.grace_period_ends_at == (match r.due_date { Some(d) => Some((d + 30 * 86400) as i64), None => None }),
        r.paid_at == (if status@ == "paid"@ { Some(now) } else { None }),
{
    let due = opt_timestamp_or_now(due_date, now);
    let grace = match due {
        Some(d) => Some(d + GRACE_PERIOD_DAYS * crate::timeutil::SECONDS_PER_DAY),
        None => None,
    };
    InvoiceRecord {
        amount_cents: (match total { Some(t) => t, None => 0 }) as i32,
        amount_due_cents: (match amount_due { Some(t) => t, None => 0 }) as i32,
        amount_paid_cents: (match amount_paid { Some(t) => t, None => 0 }) as i32,
        currency: match currency {
            Some(c) => c.to_owned(),
            None => "usd".to_owned(),
        },
        status: status.to_owned(),
        period_start: opt_timestamp_or_now(period_start, now),
        period_end: opt_timestamp_or_now(period_end, now),
        due_date: due,
        grace_period_ends_at: grace,
        paid_at: if str_eq(status, "paid") { Some(now) } else { None },
    }
}

/// The unit amount stored for an invoice line: the price's unit amount (zero
/// when the price has none); without a price, the line amount divided by its
/// quantity (one when absent), or the whole amount when the quantity is 0.
pub open spec fn line_unit_amount(price_unit_amount: Option<Option<i64>>, amount: i64, quantity: Option<u64>) -> int {
    match price_unit_amount {
        Some(u) => match u { Some(a) => a as int, None => 0 },
        None => {
            let qty = (match quantity { Some(q) => q, None => 1 }) as i64;
            if qty > 0 {
                // Rust division rounds toward zero
                if amount >= 0 { amount / qty } else { -((-(amount as int)) / qty as int) }
            } else {
                amount as int
            }
        },
    }
}

/// Unit amount of an invoice line (`price_unit_amount` is `None` when the
/// line has no price).
pub fn line_item_unit_amount(price_unit_amount: Option<Option<i64>>, amount: i64, quantity: Option<u64>) -> (r: i64)
    ensures
        r == line_unit_amount(price_unit_amount, amount, quantity),
{
    match price_unit_amount {
        Some(u) => match u {
            Some(a) => a,
            None => 0,
        },
        None => {
            let q: u64 = match quantity {
                Some(q) => q,
                None => 1,
            };
            let qty = q as i64;
            if qty > 0 {
                if amount >= 0 {
                    amount / qty
                } else {
                    let m: i128 = 0i128 - (amount as i128);
                    (0i128 - m / (qty as i128)) as i64
                }
            } else {
                amount
            }
        },
    }
}

/// How urgent the notice for a failed invoice payment is.
#[derive(Debug, Clone, Copy, PartialEq, Eq, Structural)]
pub enum PaymentFailureEscalation {
    /// First attempt: the standard notice
    Standard,
    /// Second or third attempt: an urgent notice
    Urgent,
    /// Fourth attempt or later: a final warning, and billing is blocked
    FinalWarning,
}

/// The escalation for Stripe's attempt count (read as an `i32`): 0 or 1
/// standard, 2 or 3 urgent, anything else final.
pub open spec fn escalation_for(attempts: i32) -> PaymentFailureEscalation {
    if 0 <= attempts <= 1 {
        PaymentFailureEscalation::Standard
    } else if 2 <= attempts <= 3 {
        PaymentFailureEscalation::Urgent
    } else {
        PaymentFailureEscalation::FinalWarning
    }
}

/// The escalation for a failed invoice payment, from Stripe's attempt count
/// (zero when absent).
pub fn payment_failure_escalation(attempt_count: Option<u64>) -> (r: (i32, PaymentFailureEscalation))
    ensures
        r.0 == (match attempt_count { Some(a) => a, None => 0 }) as i32,
        r.1 == escalation_for(r.0),
{
    let attempts = (match attempt_count {
        Some(a) => a,
        None => 0,
    }) as i32;
    let e = if 0 <= attempts && attempts <= 1 {
        PaymentFailureEscalation::Standard
    } else if 2 <= attempts && attempts <= 3 {
        PaymentFailureEscalation::Urgent
    } else {
        PaymentFailureEscalation::FinalWarning
    };
    (attempts, e)
}

/// How urgent a failed payment is, by how many attempts Stripe has made: a
/// first or no attempt is standard, the second and third are urgent, and
/// from the fourth on (or for a count that reads negative) it is the final
/// warning. More attempts never make it less urgent.
pub proof fn lemma_escalation_by_attempts(a: i32, b: i32)
    ensures
        (escalation_for(a) == PaymentFailureEscalation::Standard) <==> (0 <= a && a <= 1),
        (escalation_for(a) == PaymentFailureEscalation::Urgent) <==> (2 <= a && a <= 3),
        (escalation_for(a) == PaymentFailureEscalation::FinalWarning) <==> (a < 0 || a >= 4),
        0 <= a <= b && escalation_for(a) == PaymentFailureEscalation::Urgent
            ==> escalation_for(b) != PaymentFailureEscalation::Standard,
        0 <= a <= b && escalation_for(a) == PaymentFailureEscalation::FinalWarning
            ==> escalation_for(b) == PaymentFailureEscalation::FinalWarning,
{
}

/// Only the final warning blocks billing for the organization.
pub proof fn lemma_only_final_warning_blocks(a: i32)
    ensures
        (escalation_for(a) == PaymentFailureEscalation::FinalWarning) <==> (a < 0 || a >= 4),
{
}

/// The upcoming-invoice notice: the amount due and pending overages (both
/// zero when unknown), their total, and whether to send the notice (only
/// when something is due).
pub struct UpcomingInvoiceNotice {
    pub amount_due_cents: i64,
    pub pending_overage_cents: i64,
    pub total_expected_cents: i64,
    pub send_notice: bool,
}

/// What to announce for an upcoming invoice.
pub fn upcoming_invoice_notice(amount_due: Option<i64>, pending_overages: Option<i64>) -> (r: UpcomingInvoiceNotice)
    requires
        i64::MIN <= (match amount_due { Some(a) => a as int, None => 0 }) + (match pending_overages {
            Some(p) => p as int,
            None => 0,
        }) <= i64::MAX,
    ensures
        r.amount_due_cents == (match amount_due { Some(a) => a, None => 0 }),
        r.pending_overage_cents == (match pending_overages { Some(p) => p, None => 0 }),
        r.total_expected_cents == r.amount_due_cents + r.pending_overage_cents,
        r.send_notice == (r.total_expected_cents > 0),
{
    let due = match amount_due {
        Some(a) => a,
        None => 0,
    };
    let pending = match pending_overages {
        Some(p) => p,
        None => 0,
    };
    let total = due + pending;
    UpcomingInvoiceNotice {
        amount_due_cents: due,
        pending_overage_cents: pending,
        total_expected_cents: total,
        send_notice: total > 0,
    }
}

// =========================================================================
// Checkout
// =========================================================================

/// What a completed checkout session asks for.
#[derive(Debug, Clone, PartialEq, Eq)]
pub enum CheckoutAction {
    /// No organization in the metadata, or nothing to do
    Nothing,
    /// An early payment of overages
    OveragePayment { org_id: u128 },
    /// A paid upgrade to `new_tier`
    UpgradePayment { org_id: u128, new_tier: String, billing_interval: String, overage_cents: i64 },
    /// The purchase of an add-on
    Addon { org_id: u128, addon_type: String, quantity: u32 },
    /// A new subscription
    Subscription { org_id: u128 },
}

/// The metadata value under `k`, if any.
pub open spec fn meta_get(meta: Map<Seq<char>, Seq<char>>, k: Seq<char>) -> Option<Seq<char>> {
    if meta.contains_key(k) { Some(meta[k]) } else { None }
}

/// The checkout type of the metadata, if any.
pub open spec fn checkout_type(m: Map<Seq<char>, Seq<char>>) -> Option<Seq<char>> {
    meta_get(m, "checkout_type"@)
}

/// Decides what a completed checkout session does. Its metadata must name
/// the organization (`org_id`, a UUID; a malformed one is an error), and its
/// `checkout_type` chooses: `overage_payment`; `upgrade_payment` with
/// `new_tier` (nothing to do when empty), `billing_interval` (default
/// `monthly`) and `overage_cents` (default 0); `addon` with `addon_type`
/// (nothing to do when empty) and `quantity` (default 1); anything else is a
/// subscription checkout.
pub fn classify_checkout(metadata: Option<&Metadata>) -> (r: Result<CheckoutAction, BillingError>)
    ensures
        metadata is None ==> r == Ok::<CheckoutAction, BillingError>(CheckoutAction::Nothing),
        metadata matches Some(m) ==> {
            let meta = m@;
            if !meta.contains_key("org_id"@) {
                r == Ok::<CheckoutAction, BillingError>(CheckoutAction::Nothing)
            } else {
                match uuid_parse(meta["org_id"@]) {
                    Err(e) => r matches Err(BillingError::Internal(msg)) && msg@ == "Invalid org_id: "@ + e,
                    Ok(org_id) => {
                        let ct = checkout_type(meta);
                        if ct == Some("overage_payment"@) {
                            r == Ok::<CheckoutAction, BillingError>(CheckoutAction::OveragePayment { org_id })
                        } else if ct == Some("upgrade_payment"@) {
                            let new_tier = match meta_get(meta, "new_tier"@) { Some(t) => t, None => Seq::empty() };
                            if new_tier.len() == 0 {
                                r == Ok::<CheckoutAction, BillingError>(CheckoutAction::Nothing)
                            } else {
                                r matches Ok(CheckoutAction::UpgradePayment { org_id: o, new_tier: t, billing_interval: b, overage_cents: c })
                                && o == org_id && t@ == new_tier
                                && b@ == (match meta_get(meta, "billing_interval"@) { Some(i) => i, None => "monthly"@ })
                                && c == (match meta_get(meta, "overage_cents"@) {
                                    Some(v) => match parse_i64_spec(v) { Some(n) => n, None => 0 },
                                    None => 0,
                                })
                            }
                        } else if ct == Some("addon"@) {
                            let addon = match meta_get(meta, "addon_type"@) { Some(t) => t, None => Seq::empty() };
                            if addon.len() == 0 {
                                r == Ok::<CheckoutAction, BillingError>(CheckoutAction::Nothing)
                            } else {
                                r matches Ok(CheckoutAction::Addon { org_id: o, addon_type: a, quantity: q })
                                && o == org_id && a@ == addon
                                && q == (match meta_get(meta, "quantity"@) {
                                    Some(v) => match parse_u32_spec(v) { Some(n) => n, None => 1 },
                                    None => 1,
                                })
                            }
                        } else {
                            r == Ok::<CheckoutAction, BillingError>(CheckoutAction::Subscription { org_id })
                        }
                    },
                }
            }
        },
{
    let m = match metadata {
        None => return Ok(CheckoutAction::Nothing),
        Some(m) => m,
    };
    let org_text = match m.get("org_id") {
        None => return Ok(CheckoutAction::Nothing),
        Some(t) => t,
    };
    let org_id = match parse_uuid(org_text.as_str()) {
        Ok(id) => id,
        Err(e) => {
            let mut msg = "Invalid org_id: ".to_owned();
            msg.append(e.as_str());
            return Err(BillingError::Internal(msg));
        },
    };
    let ct = m.get("checkout_type");
    let is = |x: &Option<String>, lit: &str| -> (b: bool)
        ensures
            b == (x is Some && x->0@ == lit@),
        {
            match x {
                Some(v) => str_eq(v.as_str(), lit),
                None => false,
            }
        };
    if is(&ct, "overage_payment") {
        return Ok(CheckoutAction::OveragePayment { org_id });
    }
    if is(&ct, "upgrade_payment") {
        let new_tier = match m.get("new_tier") {
            Some(t) => t,
            None => String::new(),
        };
        if new_tier.as_str().unicode_len() == 0 {
            return Ok(CheckoutAction::Nothing);
        }
        let billing_interval = match m.get("billing_interval") {
            Some(b) => b,
            None => "monthly".to_owned(),
        };
        let overage_cents: i64 = match m.get("overage_cents") {
            Some(v) => match parse_i64(v.as_str()) {
                Some(n) => n,
                None => 0,
            },
            None => 0,
        };
        return Ok(CheckoutAction::UpgradePayment { org_id, new_tier, billing_interval, overage_cents });
    }
    if is(&ct, "addon") {
        let addon_type = match m.get("addon_type") {
            Some(t) => t,
            None => String::new(),
        };
        if addon_type.as_str().unicode_len() == 0 {
            return Ok(CheckoutAction::Nothing);
        }
        let quantity: u32 = match m.get("quantity") {
            Some(v) => match parse_u32(v.as_str()) {
                Some(n) => n,
                None => 1,
            },
            None => 1,
        };
        return Ok(CheckoutAction::Addon { org_id, addon_type, quantity });
    }
    Ok(CheckoutAction::Subscription { org_id })
}

/// Whether an item's price is the given price.
pub open spec fn price_is(item: Option<String>, price: Seq<char>) -> bool {
    item matches Some(q) && q@ == price
}

/// Picks the subscription item of a purchased add-on from the items' price
/// IDs (`None` for an item without price): the first with the configured
/// add-on price, else the last item.
pub fn select_addon_item(item_prices: &Vec<Option<String>>, config_price_id: Option<&str>) -> (r: Option<usize>)
    ensures
        r is None <==> item_prices.len() == 0,
        r matches Some(i) ==> i < item_prices.len(),
        r matches Some(i) ==> match config_price_id {
            Some(c) => (price_is(item_prices@[i as int], c@)
                && forall|j: int| 0 <= j < i ==> !price_is(#[trigger] item_prices@[j], c@))
                || (i == item_prices.len() - 1
                && forall|j: int| 0 <= j < item_prices.len() ==> !price_is(#[trigger] item_prices@[j], c@)),
            None => i == item_prices.len() - 1,
        },
{
    if let Some(c) = config_price_id {
        let mut i: usize = 0;
        while i < item_prices.len()
            invariant
                i <= item_prices.len(),
                config_price_id == Some(c),
                forall|j: int| 0 <= j < i ==> !price_is(#[trigger] item_prices@[j], c@),
            decreases item_prices.len() - i,
        {
            match &item_prices[i] {
                Some(p) => {
                    if str_eq(p.as_str(), c) {
                        return Some(i);
                    }
                },
                None => {},
            }
            i = i + 1;
        }
    }
    if item_prices.len() > 0 {
        Some(item_prices.len() - 1)
    } else {
        None
    }
}

/// The price recorded for a purchased add-on: the item's price, else the
/// configured add-on price, else `unknown_{addon_type}`.
pub fn addon_price_id(item_price: Option<&str>, config_price_id: Option<&str>, addon_type: &str) -> (r: String)
    ensures
        r@ == (match item_price {
            Some(p) => p@,
            None => match config_price_id {
                Some(c) => c@,
                None => "unknown_"@ + addon_type@,
            },
        }),
{
    match item_price {
        Some(p) => p.to_owned(),
        None => match config_price_id {
            Some(c) => c.to_owned(),
            None => {
                let mut s = "unknown_".to_owned();
                s.append(addon_type);
                s
            },
        },
    }
}

/// The invoice description of a paid upgrade: `Upgrade to {tier} plan`.
pub fn upgrade_invoice_description(new_tier: &str) -> (r: String)
    ensures
        r@ == "Upgrade to "@ + new_tier@ + " plan"@,
{
    let mut s = "Upgrade to ".to_owned();
    s.append(new_tier);
    s.append(" plan");
    s
}

/// The amount recorded for a paid checkout, as the invoices column holds it
/// (`i32`), and whether it is recorded (only a positive amount is).
pub fn checkout_invoice_amount(amount_total: Option<i64>) -> (r: (i32, bool))
    ensures
        r.0 == (match amount_total { Some(a) => a, None => 0 }) as i32,
        r.1 == (r.0 > 0),
{
    let a = (match amount_total {
        Some(a) => a,
        None => 0,
    }) as i32;
    (a, a > 0)
}

// =========================================================================
// Charges, disputes, payment intents, customers
// =========================================================================

/// What a refunded charge records: refunded and total amounts (as `i32`),
/// whether the refund is full, and its kind, `full` or `partial`.
pub struct RefundRecord {
    pub amount_refunded_cents: i32,
    pub total_amount_cents: i32,
    pub is_full_refund: bool,
    pub refund_kind: String,
}

/// How a refunded charge is recorded: full when the refunded amount reaches
/// the charge amount.
pub fn charge_refund_record(amount_refunded: i64, amount: i64) -> (r: RefundRecord)
    ensures
        r.amount_refunded_cents == amount_refunded as i32,
        r.total_amount_cents == amount as i32,
        r.is_full_refund == (r.amount_refunded_cents >= r.total_amount_cents),
        r.refund_kind@ == (if r.is_full_refund { "full"@ } else { "partial"@ }),
{
    let refunded = amount_refunded as i32;
    let total = amount as i32;
    let full = refunded >= total;
    RefundRecord {
        amount_refunded_cents: refunded,
        total_amount_cents: total,
        is_full_refund: full,
        refund_kind: if full { "full".to_owned() } else { "partial".to_owned() },
    }
}

/// A text, or `fallback` when there is none.
pub fn text_or(text: Option<String>, fallback: &str) -> (r: String)
    ensures
        r@ == (match text { Some(t) => t@, None => fallback@ }),
{
    match text {
        Some(t) => t,
        None => fallback.to_owned(),
    }
}

/// The failure message of a failed charge: Stripe's, or `Unknown failure`.
pub fn charge_failure_message(failure_message: Option<String>) -> (r: String)
    ensures
        r@ == (match failure_message { Some(t) => t@, None => "Unknown failure"@ }),
{
    text_or(failure_message, "Unknown failure")
}

/// The error message of a failed payment intent: Stripe's, or
/// `Payment failed`.
pub fn payment_intent_failure_message(message: Option<String>) -> (r: String)
    ensures
        r@ == (match message { Some(t) => t@, None => "Payment failed"@ }),
{
    text_or(message, "Payment failed")
}

/// The reason recorded for a dispute: Stripe's, or `unknown` when empty.
pub fn dispute_reason(reason: &str) -> (r: String)
    ensures
        r@ == (if reason@.len() == 0 { "unknown"@ } else { reason@ }),
{
    if reason.unicode_len() == 0 {
        "unknown".to_owned()
    } else {
        reason.to_owned()
    }
}

/// The organization a new Stripe customer is linked to: the UUID under
/// `org_id` in its metadata, if any parses.
pub fn customer_org_link(metadata: Option<&Metadata>) -> (r: Option<u128>)
    ensures
        r == (match metadata { Some(m) => org_id_in(m@), None => None }),
{
    match metadata {
        Some(m) => match org_id_from_metadata(m) {
            Ok(id) => Some(id),
            Err(_) => None,
        },
        None => None,
    }
}

// =========================================================================
// Replays
// =========================================================================

/// Result of a webhook replay operation
#[derive(Debug, Clone)]
pub struct WebhookReplayResult {
    pub record_id: u128,
    pub stripe_event_id: String,
    pub event_type: String,
    pub previous_status: String,
    pub previous_error: Option<String>,
    pub new_status: String,
    pub new_error: Option<String>,
    pub success: bool,
}

/// The replay result of an event whose replay itself failed: nil record,
/// type `unknown`, from `error` to `error` with the failure's text.
pub fn failed_replay_result(stripe_event_id: String, error: String) -> (r: WebhookReplayResult)
    ensures
        r.record_id == 0,
        r.stripe_event_id == stripe_event_id,
        r.event_type@ == "unknown"@,
        r.previous_status@ == "error"@,
        r.previous_error is None,
        r.new_status@ == "error"@,
        r.new_error == Some(error),
        !r.success,
{
    WebhookReplayResult {
        record_id: 0,
        stripe_event_id,
        event_type: "unknown".to_owned(),
        previous_status: "error".to_owned(),
        previous_error: None,
        new_status: "error".to_owned(),
        new_error: Some(error),
        success: false,
    }
}

/// The replay result once an event was processed again: its new status and
/// error are those recorded for the outcome, and it succeeded when no error
/// came back.
pub fn replay_result(
    record_id: u128,
    stripe_event_id: String,
    event_type: String,
    previous_status: String,
    previous_error: Option<String>,
    processing_error: Option<String>,
) -> (r: WebhookReplayResult)
    ensures
        r.record_id == record_id,
        r.stripe_event_id == stripe_event_id,
        r.event_type == event_type,
        r.previous_status == previous_status,
        r.previous_error == previous_error,
        r.success == (processing_error is None),
        r.success ==> r.new_status@ == "success"@ && r.new_error is None,
        !r.success ==> r.new_status@ == "error"@ && r.new_error == processing_error,
{
    let success = processing_error.is_none();
    let (new_status, new_error) = processing_record(processing_error);
    WebhookReplayResult {
        record_id,
        stripe_event_id,
        event_type,
        previous_status,
        previous_error,
        new_status,
        new_error,
        success,
    }
}

/// How many failed events a bulk replay takes: the requested number, 100 by
/// default.
pub fn replay_limit(max_events: Option<i64>) -> (r: i64)
    ensures
        r == (match max_events { Some(m) => m, None => 100 }),
{
    match max_events {
        Some(m) => m,
        None => 100,
    }
}

/// The outcome of resetting a stuck webhook: fine when a row was reset, not
/// found otherwise.
pub fn reset_outcome(rows_affected: u64, stripe_event_id: &str) -> (r: Result<(), BillingError>)
    ensures
        rows_affected > 0 ==> r is Ok,
        rows_affected == 0 ==> (r matches Err(BillingError::NotFound(msg)) && msg@ == "Webhook "@
            + stripe_event_id@ + " not found or not in resettable state"@),
{
    if rows_affected == 0 {
        let mut msg = "Webhook ".to_owned();
        msg.append(stripe_event_id);
        msg.append(" not found or not in resettable state");
        Err(BillingError::NotFound(msg))
    } else {
        Ok(())
    }
}

/// The error when a replayed event has no record.
pub fn replay_not_found(stripe_event_id: &str) -> (r: BillingError)
    ensures
        r matches BillingError::NotFound(msg) && msg@ == "Webhook event "@ + stripe_event_id@
            + " not found in database"@,
{
    let mut msg = "Webhook event ".to_owned();
    msg.append(stripe_event_id);
    msg.append(" not found in database");
    BillingError::NotFound(msg)
}

} // verus!
