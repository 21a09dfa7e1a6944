//! Pausing a subscription's billing: the marks written to the
//! subscription's metadata when it is paused and cleared when it is
//! resumed, and the pause status an organization sees.

use vstd::prelude::*;
use vstd::map::*;
use crate::error::BillingError;
use crate::ids::{uuid_hyphenated, uuid_text};
use crate::metadata::Metadata;
use crate::text::{int_text, push_int_text};
use crate::timeutil::{Timestamp, datetime_display};

verus! {

/// Result of pausing a subscription
#[derive(Debug, Clone)]
pub struct SubscriptionPauseResult {
    pub subscription_id: String,
    pub paused_at: Timestamp,
    pub resume_at: Option<Timestamp>,
    pub reason: Option<String>,
}

/// Result of resuming a subscription
#[derive(Debug, Clone)]
pub struct SubscriptionResumeResult {
    pub subscription_id: String,
    pub resumed_at: Timestamp,
    pub was_paused_since: Option<Timestamp>,
}

/// Status of subscription pause
#[derive(Debug, Clone)]
pub struct SubscriptionPauseStatus {
    pub is_paused: bool,
    pub paused_at: Option<Timestamp>,
    pub paused_by: Option<u128>,
    pub pause_reason: Option<String>,
    pub scheduled_resume_at: Option<Timestamp>,
}

/// A subscription whose collection is already paused cannot be paused again.
pub fn check_not_paused(collection_paused: bool) -> (r: Result<(), BillingError>)
    ensures
        r is Ok <==> !collection_paused,
        r is Err ==> (r matches Err(BillingError::InvalidInput(m)) && m@ == "Subscription is already paused"@),
{
    if collection_paused {
        Err(BillingError::InvalidInput("Subscription is already paused".to_owned()))
    } else {
        Ok(())
    }
}

/// The metadata of a paused subscription: the earlier metadata with the time
/// and author of the pause, and the reason and planned resumption (in Unix
/// seconds) when given.
pub open spec fn paused_metadata(
    m: Map<Seq<char>, Seq<char>>,
    now: Timestamp,
    user_id: u128,
    reason: Option<String>,
    resume_at: Option<Timestamp>,
) -> Map<Seq<char>, Seq<char>> {
    let base = m.insert("paused_at"@, datetime_display(now@)).insert("paused_by"@, uuid_hyphenated(user_id));
    let with_reason = match reason {
        Some(r) => base.insert("pause_reason"@, r@),
        None => base,
    };
    match resume_at {
        Some(t) => with_reason.insert("resume_at"@, int_text(t@ as int)),
        None => with_reason,
    }
}

/// The metadata of a resumed subscription: the pause marks removed, the time
/// and author of the resumption added.
pub open spec fn resumed_metadata(m: Map<Seq<char>, Seq<char>>, now: Timestamp, user_id: u128) -> Map<Seq<char>, Seq<char>> {
    m.remove("paused_at"@).remove("paused_by"@).remove("pause_reason"@).remove("resume_at"@)
        .insert("resumed_at"@, datetime_display(now@)).insert("resumed_by"@, uuid_hyphenated(user_id))
}

/// Marks a subscription's metadata as paused.
pub fn pause_metadata(
    metadata: &mut Metadata,
    now: Timestamp,
    user_id: u128,
    reason: &Option<String>,
    resume_at: Option<Timestamp>,
)
    ensures
        final(metadata)@ == paused_metadata(old(metadata)@, now, user_id, *reason, resume_at),
{
    metadata.insert("paused_at".to_owned(), now.display());
    metadata.insert("paused_by".to_owned(), uuid_text(user_id));
    match reason {
        Some(r) => metadata.insert("pause_reason".to_owned(), r.clone()),
        None => {},
    }
    match resume_at {
        Some(t) => {
            let mut s = String::new();
            push_int_text(&mut s, t.unix());
            metadata.insert("resume_at".to_owned(), s);
        },
        None => {},
    }
}

/// Clears the pause marks of a subscription's metadata and records the
/// resumption.
pub fn resume_metadata(metadata: &mut Metadata, now: Timestamp, user_id: u128)
    ensures
        final(metadata)@ == resumed_metadata(old(metadata)@, now, user_id),
{
    metadata.remove("paused_at");
    metadata.remove("paused_by");
    metadata.remove("pause_reason");
    metadata.remove("resume_at");
    metadata.insert("resumed_at".to_owned(), now.display());
    metadata.insert("resumed_by".to_owned(), uuid_text(user_id));
}

/// Resuming a paused subscription gives back its metadata from before the
/// pause, but for the pause marks that it held before (cleared) and the
/// resumption marks (added): no pause mark survives a resumption.
pub proof fn lemma_resume_undoes_pause(
    m: Map<Seq<char>, Seq<char>>,
    paused: Timestamp,
    pauser: u128,
    reason: Option<String>,
    resume_at: Option<Timestamp>,
    resumed: Timestamp,
    resumer: u128,
)
    ensures
        resumed_metadata(paused_metadata(m, paused, pauser, reason, resume_at), resumed, resumer)
            == resumed_metadata(m, resumed, resumer),
        !resumed_metadata(m, resumed, resumer).contains_key("paused_at"@),
        !resumed_metadata(m, resumed, resumer).contains_key("paused_by"@),
        !resumed_metadata(m, resumed, resumer).contains_key("pause_reason"@),
        !resumed_metadata(m, resumed, resumer).contains_key("resume_at"@),
{
    reveal_strlit("paused_at");
    reveal_strlit("paused_by");
    reveal_strlit("pause_reason");
    reveal_strlit("resume_at");
    reveal_strlit("resumed_at");
    reveal_strlit("resumed_by");
    assert("resumed_at"@ != "paused_at"@ && "resumed_at"@ != "paused_by"@ && "resumed_at"@ != "pause_reason"@
        && "resumed_at"@ != "resume_at"@) by {
        assert("resumed_at"@.len() != "paused_at"@.len());
        assert("resumed_at"@[0] != "paused_at"@[0]);
        assert("resumed_at"@.len() != "pause_reason"@.len());
        assert("resumed_at"@.len() != "resume_at"@.len());
    }
    assert("resumed_by"@ != "paused_at"@ && "resumed_by"@ != "paused_by"@ && "resumed_by"@ != "pause_reason"@
        && "resumed_by"@ != "resume_at"@) by {
        assert("resumed_by"@[0] != "paused_at"@[0]);
        assert("resumed_by"@.len() != "pause_reason"@.len());
        assert("resumed_by"@.len() != "resume_at"@.len());
    }
    let a = resumed_metadata(paused_metadata(m, paused, pauser, reason, resume_at), resumed, resumer);
    let b = resumed_metadata(m, resumed, resumer);
    assert(a =~= b);
}

/// Resuming undoes the collection stop that a pause may have set.
pub fn resume_cancel_flag(cancel_at_period_end: bool) -> (r: Option<bool>)
    ensures
        cancel_at_period_end ==> r == Some(false),
        !cancel_at_period_end ==> r is None,
{
    if cancel_at_period_end { Some(false) } else { None }
}

/// The outcome of clearing the pause record: what it held, or an error when
/// the subscription was not paused.
pub fn resume_outcome(cleared: Option<(Option<Timestamp>, Option<String>)>) -> (r: Result<(Option<Timestamp>, Option<String>), BillingError>)
    ensures
        cleared matches Some(c) ==> r == Ok::<(Option<Timestamp>, Option<String>), BillingError>(c),
        cleared is None ==> (r matches Err(BillingError::InvalidInput(m)) && m@ == "Subscription is not paused"@),
{
    match cleared {
        Some(c) => Ok(c),
        None => Err(BillingError::InvalidInput("Subscription is not paused".to_owned())),
    }
}

/// The pause status of an organization's subscription record: none without
/// a record; the recorded pause when paused; a bare "not paused" otherwise.
pub fn pause_status(
    record: Option<(bool, Option<Timestamp>, Option<u128>, Option<String>, Option<Timestamp>)>,
) -> (r: Option<SubscriptionPauseStatus>)
    ensures
        record is None ==> r is None,
        record matches Some(t) ==> (r matches Some(s) && s.is_paused == t.0 && (t.0 ==> (s.paused_at == t.1
            && s.paused_by == t.2 && s.pause_reason == t.3 && s.scheduled_resume_at == t.4)) && (!t.0 ==> (
            s.paused_at is None && s.paused_by is None && s.pause_reason is None && s.scheduled_resume_at is None))),
{
    match record {
        None => None,
        Some((true, paused_at, paused_by, pause_reason, scheduled_resume_at)) => Some(SubscriptionPauseStatus {
            is_paused: true,
            paused_at,
            paused_by,
            pause_reason,
            scheduled_resume_at,
        }),
        Some((false, _, _, _, _)) => Some(SubscriptionPauseStatus {
            is_paused: false,
            paused_at: None,
            paused_by: None,
            pause_reason: None,
            scheduled_resume_at: None,
        }),
    }
}

} // verus!
