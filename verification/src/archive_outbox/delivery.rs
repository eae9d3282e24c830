//! What the outbox promises of the delivery of evidence: when it is tried, who may try it,
//! what an answer of the archive does to it, and how passes and statuses count.

use vstd::prelude::*;

use crate::archive_outbox::envelope;
use crate::archive_outbox::envelope::{ArchiveEvidenceInput, EnvelopeView};
use crate::archive_outbox::state;
use crate::archive_outbox::state::{
    ArchiveIngestReceipt, ArchiveTransportFailure, IngestVerdict, StatusView,
};
use crate::archive_outbox::store;
use crate::archive_outbox::store::LoadedEvidence;
use crate::archive_outbox::sync;
use crate::archive_outbox::sync::{ItemOutcome};
use crate::json;
use crate::json::JsonTree;

verus! {

proof fn states_differ()
    ensures
        "pending"@ != "leased"@,
        "pending"@ != "published"@,
        "pending"@ != "unavailable"@,
        "pending"@ != "reconciliation_required"@,
        "leased"@ != "published"@,
        "leased"@ != "unavailable"@,
        "leased"@ != "reconciliation_required"@,
        "published"@ != "unavailable"@,
        "published"@ != "reconciliation_required"@,
        "unavailable"@ != "reconciliation_required"@,
{
    reveal_strlit("pending");
    reveal_strlit("leased");
    reveal_strlit("published");
    reveal_strlit("unavailable");
    reveal_strlit("reconciliation_required");
    assert("pending"@.len() == 7 && "leased"@.len() == 6 && "published"@.len() == 9
        && "unavailable"@.len() == 11 && "reconciliation_required"@.len() == 23);
}

/// Evidence is tried at a time if and only if the archive does not have it, no operator has
/// to look at it, no worker holds it then, and the time of its next attempt has come.
pub proof fn evidence_is_due_when_its_time_has_come(s: StatusView, now_ms: i64)
    ensures
        s.due(now_ms) <==> {
            &&& s.state != "published"@
            &&& s.state != "reconciliation_required"@
            &&& !(s.state == "leased"@ && s.lease_until_ms is Some && s.lease_until_ms->Some_0
                > now_ms)
            &&& s.next_attempt_at_ms is None || s.next_attempt_at_ms->Some_0 <= now_ms
        },
{
}

/// A claim gives the evidence to one worker for half a minute: it counts as one attempt,
/// under a new token, and what is known of an earlier delivery stays.
pub proof fn claim_is_for_half_a_minute(s: StatusView, owner: Seq<char>, now_ms: i64)
    requires
        s.attempts < u32::MAX,
        s.fencing_token < i64::MAX,
        now_ms <= i64::MAX - 30_000,
    ensures
        ({
            let c = state::claimed_view(s, owner, now_ms);
            &&& c.state == "leased"@
            &&& c.lease_owner == Some(owner)
            &&& c.lease_until_ms == Some((now_ms + 30_000) as i64)
            &&& c.attempts == s.attempts + 1
            &&& c.fencing_token == s.fencing_token + 1
            &&& c.last_attempt_at_ms == Some(now_ms)
            &&& c.published_at_ms == s.published_at_ms
            &&& c.archive_ref == s.archive_ref
            &&& c.last_error_code == s.last_error_code
            &&& forall|at: i64| now_ms <= at < now_ms + 30_000 ==> !#[trigger] c.due(at)
            &&& forall|at: i64| at >= now_ms + 30_000 ==> #[trigger] c.due(at)
        }),
{
    states_differ();
}

/// Evidence that the archive has acknowledged is never tried again: it keeps what the
/// receipt says of where it is, and nobody holds it.
pub proof fn acknowledged_evidence_is_done(
    s: StatusView,
    now_ms: i64,
    receipt: ArchiveIngestReceipt,
)
    ensures
        ({
            let p = state::published_view(s, now_ms, receipt);
            &&& p.state == "published"@
            &&& p.published_at_ms == Some(now_ms)
            &&& p.archive_ref == Some(receipt.archive_ref@)
            &&& p.record_digest_sha256 == Some(receipt.record_digest_sha256@)
            &&& p.entitlement_snapshot_ref == Some(receipt.entitlement_snapshot_ref@)
            &&& p.acknowledged_cursor == receipt.archive_cursor
            &&& p.last_error_code is None
            &&& p.lease_owner is None && p.lease_until_ms is None
            &&& p.attempts == s.attempts && p.fencing_token == s.fencing_token
            &&& forall|at: i64| !#[trigger] p.due(at)
        }),
{
}

/// After a failure that may pass, evidence is tried again, not before the wait is over and
/// from then on; after one that does not pass it is never tried again by itself. Either way
/// the code of the failure is kept, and nobody holds the evidence.
pub proof fn failed_evidence_waits_or_stops(
    s: StatusView,
    now_ms: i64,
    failure: ArchiveTransportFailure,
)
    requires
        now_ms <= i64::MAX - 60_000,
    ensures
        ({
            let f = state::failed_view(s, now_ms, failure);
            let wait = state::retry_delay(s.attempts);
            &&& f.last_error_code == Some(failure.code@)
            &&& f.lease_owner is None && f.lease_until_ms is None
            &&& f.attempts == s.attempts && f.fencing_token == s.fencing_token
            &&& failure.retryable ==> {
                &&& f.state == "unavailable"@
                &&& 1_000 <= wait <= 60_000
                &&& forall|at: i64| at < now_ms + wait ==> !#[trigger] f.due(at)
                &&& forall|at: i64| at >= now_ms + wait ==> #[trigger] f.due(at)
            }
            &&& !failure.retryable ==> {
                &&& f.state == "reconciliation_required"@
                &&& forall|at: i64| !#[trigger] f.due(at)
            }
        }),
{
    states_differ();
}

/// The wait after a failed attempt is a second after the first and doubles with each
/// further one up to the sixth; from then on it is a minute.
pub proof fn wait_doubles_up_to_a_minute(attempts: int)
    ensures
        attempts <= 1 ==> state::retry_delay(attempts) == 1_000,
        1 <= attempts < 6 ==> state::retry_delay(attempts + 1) == 2 * state::retry_delay(attempts),
        attempts > 6 ==> state::retry_delay(attempts) == 60_000,
{
}

/// Evidence that is asked for again is due at once, whatever became of it before.
pub proof fn requeued_evidence_is_due_at_once(s: StatusView, now_ms: i64)
    ensures
        ({
            let q = state::requeued_view(s, now_ms);
            &&& q.state == "pending"@
            &&& q.due(now_ms)
            &&& q.attempts == s.attempts && q.fencing_token == s.fencing_token
            &&& q.last_error_code is None && q.lease_owner is None
        }),
{
    states_differ();
}

/// An answer of the archive counts as a receipt only where it is about this very request,
/// with the digest of what was sent and of what the archive has to keep.
pub proof fn receipt_is_about_the_request(receipt: ArchiveIngestReceipt, e: EnvelopeView)
    requires
        state::receipt_is_valid(receipt, e),
    ensures
        receipt.request_id@ == e.request_id,
        receipt.idempotency_key@ == e.idempotency_key,
        receipt.request_digest_sha256@ == e.request_digest_sha256,
        Some(receipt.record_digest_sha256@) == envelope::canonical_sum(
            state::archive_record_tree(e, receipt.entitlement_snapshot_ref@),
        ),
        receipt.archive_cursor matches Some(cursor) ==> cursor >= 0,
{
}

/// The record that the archive has to keep is the evidence that was sent, under its own
/// names.
pub proof fn kept_record_is_what_was_sent(e: EnvelopeView, entitlement: Seq<char>)
    ensures
        ({
            let record = state::archive_record_tree(e, entitlement);
            &&& json::member(record, "tenantId"@) == Some(JsonTree::Text(e.tenant_id))
            &&& json::member(record, "workspaceId"@) == Some(JsonTree::Text(e.workspace_id))
            &&& json::member(record, "toolName"@) == Some(JsonTree::Text(e.tool_name))
            &&& json::member(record, "requestId"@) == Some(JsonTree::Text(e.request_id))
            &&& json::member(record, "requestDigestSha256"@) == Some(
                JsonTree::Text(e.request_digest_sha256),
            )
            &&& json::member(record, "entitlementSnapshotRef"@) == Some(JsonTree::Text(entitlement))
            &&& json::member(record, "occurredAtMs"@) == Some(JsonTree::Int(e.occurred_at_ms))
            &&& json::member(record, "redactedPayload"@) == Some(e.payload)
        }),
{
    reveal_strlit("schema");
    reveal_strlit("tenantId");
    reveal_strlit("workspaceId");
    reveal_strlit("toolName");
    reveal_strlit("requestId");
    reveal_strlit("requestDigestSha256");
    reveal_strlit("entitlementSnapshotRef");
    reveal_strlit("occurredAtMs");
    reveal_strlit("redactedPayload");
    assert("schema"@.len() == 6 && "tenantId"@.len() == 8 && "workspaceId"@.len() == 11
        && "toolName"@.len() == 8 && "requestId"@.len() == 9 && "requestDigestSha256"@.len() == 19
        && "entitlementSnapshotRef"@.len() == 22 && "occurredAtMs"@.len() == 12
        && "redactedPayload"@.len() == 15);
    assert("tenantId"@[1] != "toolName"@[1]);
}

/// What the archive says settles the evidence, on the condition that the claim still
/// stands: acknowledged evidence is written as published, any other as failed, and only
/// over the claimed state.
pub proof fn verdict_settles_the_claim(
    e: EnvelopeView,
    claimed: StatusView,
    now_ms: i64,
    verdict: IngestVerdict,
)
    ensures
        ({
            let batch = sync::settling_batch(e, claimed, now_ms, verdict);
            &&& batch.writes.len() == 1 && batch.expectations.len() == 1
            &&& batch.writes[0].key == e.request_id
            &&& batch.expectations[0].key == e.request_id
            &&& batch.expectations[0].namespace == batch.writes[0].namespace
            &&& batch.expectations[0].value == Some(state::status_tree(claimed))
            &&& verdict matches IngestVerdict::Acknowledged(receipt) ==> batch.writes[0].value
                == state::status_tree(state::published_view(claimed, now_ms, receipt))
            &&& verdict matches IngestVerdict::Failed(failure) ==> batch.writes[0].value
                == state::status_tree(state::failed_view(claimed, now_ms, failure))
        }),
        sync::outcome_of(verdict, true) is Published <==> verdict is Acknowledged,
        sync::outcome_of(verdict, false) is LeaseLost <==> verdict is Acknowledged,
        forall|updated: bool|
            verdict is Failed ==> #[trigger] sync::outcome_of(verdict, updated) is Failed,
{
}

/// What the stored state of evidence holds under its keys.
pub proof fn stored_state_names_each_part(s: StatusView)
    ensures
        ({
            let t = state::status_tree(s);
            &&& json::member(t, "state"@) == Some(JsonTree::Text(s.state))
            &&& json::member(t, "attempts"@) == Some(JsonTree::Int(s.attempts))
            &&& json::member(t, "fencingToken"@) == Some(JsonTree::Int(s.fencing_token))
            &&& s.next_attempt_at_ms matches Some(at) ==> json::member(t, "nextAttemptAtMs"@)
                == Some(JsonTree::Int(at as int))
            &&& s.next_attempt_at_ms is None ==> json::member(t, "nextAttemptAtMs"@) == Some(
                JsonTree::Null,
            )
            &&& s.last_attempt_at_ms matches Some(at) ==> json::member(t, "lastAttemptAtMs"@)
                == Some(JsonTree::Int(at as int))
            &&& s.lease_until_ms matches Some(at) ==> json::member(t, "leaseUntilMs"@) == Some(
                JsonTree::Int(at as int),
            )
            &&& s.lease_owner matches Some(owner) ==> json::member(t, "leaseOwner"@) == Some(
                JsonTree::Text(owner),
            )
            &&& s.published_at_ms matches Some(at) ==> json::member(t, "publishedAtMs"@) == Some(
                JsonTree::Int(at as int),
            )
            &&& s.archive_ref matches Some(name) ==> json::member(t, "archiveRef"@) == Some(
                JsonTree::Text(name),
            )
            &&& s.last_error_code matches Some(code) ==> json::member(t, "lastErrorCode"@) == Some(
                JsonTree::Text(code),
            )
            &&& s.acknowledged_cursor matches Some(at) ==> json::member(t, "acknowledgedCursor"@)
                == Some(JsonTree::Int(at as int))
        }),
{
    reveal_strlit("state");
    reveal_strlit("attempts");
    reveal_strlit("nextAttemptAtMs");
    reveal_strlit("lastAttemptAtMs");
    reveal_strlit("lastErrorCode");
    reveal_strlit("publishedAtMs");
    reveal_strlit("entitlementSnapshotRef");
    reveal_strlit("archiveRef");
    reveal_strlit("recordDigestSha256");
    reveal_strlit("acknowledgedCursor");
    reveal_strlit("leaseOwner");
    reveal_strlit("leaseUntilMs");
    reveal_strlit("fencingToken");
    assert("state"@.len() == 5 && "attempts"@.len() == 8 && "nextAttemptAtMs"@.len() == 15
        && "lastAttemptAtMs"@.len() == 15 && "lastErrorCode"@.len() == 13 && "publishedAtMs"@.len()
        == 13 && "entitlementSnapshotRef"@.len() == 22 && "archiveRef"@.len() == 10
        && "recordDigestSha256"@.len() == 18 && "acknowledgedCursor"@.len() == 18
        && "leaseOwner"@.len() == 10 && "leaseUntilMs"@.len() == 12 && "fencingToken"@.len() == 12);
    assert("nextAttemptAtMs"@[0] != "lastAttemptAtMs"@[0] && "lastErrorCode"@[0]
        != "publishedAtMs"@[0] && "archiveRef"@[0] != "leaseOwner"@[0] && "recordDigestSha256"@[0]
        != "acknowledgedCursor"@[0] && "leaseUntilMs"@[0] != "fencingToken"@[0]);
}

/// How many of the records that a pass looked at were delivered.
pub open spec fn delivered(seen: Seq<(Seq<char>, ItemOutcome)>) -> int
    decreases seen.len(),
{
    if seen.len() == 0 {
        0
    } else {
        delivered(seen.drop_last()) + if seen.last().1 is Published {
            1int
        } else {
            0
        }
    }
}

/// How many of the records that a pass looked at failed, for good or for now.
pub open spec fn undelivered(seen: Seq<(Seq<char>, ItemOutcome)>, for_now: bool) -> int
    decreases seen.len(),
{
    if seen.len() == 0 {
        0
    } else {
        undelivered(seen.drop_last(), for_now) + if seen.last().1 is Failed
            && seen.last().1->Failed_0.retryable == for_now {
            1int
        } else {
            0
        }
    }
}

/// The report of a pass counts what became of the records that it looked at: those that
/// were delivered, those that failed for now, those that failed for good, and the others.
pub proof fn pass_counts_its_outcomes(
    limit: nat,
    page_len: nat,
    cursor: Option<i64>,
    seen: Seq<(Seq<char>, ItemOutcome)>,
)
    ensures
        ({
            let r = sync::run_over(sync::begun(limit, page_len, cursor), seen).report;
            &&& r.scanned == seen.len()
            &&& r.published == delivered(seen)
            &&& r.unavailable == undelivered(seen, true)
            &&& r.reconciliation_required == undelivered(seen, false)
            &&& r.skipped == seen.len() - delivered(seen) - undelivered(seen, true) - undelivered(
                seen,
                false,
            )
        }),
    decreases seen.len(),
{
    if seen.len() > 0 {
        pass_counts_its_outcomes(limit, page_len, cursor, seen.drop_last());
    }
}

/// How many records are in a state.
pub open spec fn in_state(records: Seq<LoadedEvidence>, name: Seq<char>) -> int
    decreases records.len(),
{
    if records.len() == 0 {
        0
    } else {
        in_state(records.drop_last(), name) + match store::record_status(records.last()) {
            Ok(status) => if status.state == name {
                1int
            } else {
                0
            },
            Err(_) => 0,
        }
    }
}

/// The status of the outbox counts each record under the state that it is in.
pub proof fn status_counts_each_state(records: Seq<LoadedEvidence>)
    ensures
        store::counts(records) matches Some(c) ==> {
            &&& c.total == records.len()
            &&& c.published == in_state(records, "published"@)
            &&& c.leased == in_state(records, "leased"@)
            &&& c.unavailable == in_state(records, "unavailable"@)
            &&& c.reconciliation_required == in_state(records, "reconciliation_required"@)
        },
    decreases records.len(),
{
    states_differ();
    if records.len() > 0 {
        status_counts_each_state(records.drop_last());
    }
}

/// The oldest evidence that waits is none of those that came later: every record that is
/// neither published, held nor before an operator occurred no earlier.
pub proof fn oldest_waiting_is_the_oldest(records: Seq<LoadedEvidence>, i: int)
    requires
        0 <= i < records.len(),
        store::counts(records) is Some,
        store::record_status(records[i]) matches Ok(s) && s.state != "published"@ && s.state
            != "reconciliation_required"@ && s.state != "leased"@,
    ensures
        store::counts(records)->Some_0.oldest_pending_at_ms matches Some(at) && at
            <= records[i].envelope->Present_0.occurred_at_ms,
    decreases records.len(),
{
    states_differ();
    let earlier = records.drop_last();
    let last = records.len() - 1;
    assert(records[last] == records.last());
    if i < last {
        assert(earlier[i] == records[i]);
        oldest_waiting_is_the_oldest(earlier, i);
    }
}

/// An envelope says what its input says: for whom and by which tool, under which request
/// and key, when, and in its payload the evidence itself.
pub proof fn envelope_says_what_was_given(input: ArchiveEvidenceInput)
    ensures
        envelope::envelope_of(input) matches Ok(e) ==> {
            &&& e.tenant_id == input.tenant_id@
            &&& e.workspace_id == input.workspace_id@
            &&& e.tool_name == input.tool_name@
            &&& e.request_id == input.request_id@
            &&& e.idempotency_key == input.context.idempotency_key@
            &&& e.occurred_at_ms == input.occurred_at_ms
            &&& json::member(e.payload, "source"@) == Some(JsonTree::Text(input.source@))
            &&& json::member(e.payload, "aggregateId"@) == Some(
                JsonTree::Text(input.aggregate_id@),
            )
            &&& json::member(e.payload, "evidence"@) == Some(input.payload@)
            &&& json::member(e.payload, "authorityContext"@) == Some(input.authority@)
            &&& json::member(e.payload, "redacted"@) == Some(JsonTree::Bool(true))
            &&& Some(e.payload_sha256) == envelope::canonical_sum(e.payload)
        },
{
    reveal_strlit("schema");
    reveal_strlit("kind");
    reveal_strlit("source");
    reveal_strlit("aggregateId");
    reveal_strlit("authorityContext");
    reveal_strlit("redacted");
    reveal_strlit("evidence");
    assert("schema"@.len() == 6 && "kind"@.len() == 4 && "source"@.len() == 6
        && "aggregateId"@.len() == 11 && "authorityContext"@.len() == 16 && "redacted"@.len() == 8
        && "evidence"@.len() == 8);
    assert("redacted"@[0] != "evidence"@[0] && "schema"@[1] != "source"@[1]);
}

} // verus!
