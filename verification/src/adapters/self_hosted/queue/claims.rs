//! What becomes of a delivered message, by its state, its times and its attempts, and what
//! its holder is told.

use vstd::prelude::*;

use crate::adapters::self_hosted::queue;
use crate::adapters::self_hosted::queue::{
    AckAnswer, QueueDelivery, QueueReplyKind, QueueRequest, QueueRow, StepView,
    StoredRequest,
};
use crate::json;
use crate::json::JsonTree;
use crate::text;

verus! {

proof fn states_differ()
    ensures
        "pending"@ != "acked"@,
        "pending"@ != "dead"@,
        "pending"@ != "leased"@,
        "leased"@ != "acked"@,
        "leased"@ != "dead"@,
{
    reveal_strlit("pending");
    reveal_strlit("acked");
    reveal_strlit("dead");
    reveal_strlit("leased");
    assert("pending"@.len() == 7);
    assert("acked"@.len() == 5);
    assert("dead"@.len() == 4);
    assert("leased"@.len() == 6);
}

/// A message is leased if and only if it is pending, is still kept, is available and has
/// an attempt left. The lease lasts as long as was asked for, is the next attempt, and has
/// the next fencing token.
pub proof fn message_is_leased_when_it_may_be(row: QueueRow, now_ms: i64, visibility_timeout_ms: i64)
    ensures
        (queue::claim_step(row, now_ms, visibility_timeout_ms) is Lease) <==> row.state@
            == "pending"@ && now_ms < row.retention_until_ms && row.available_at_ms <= now_ms
            && row.attempt < row.max_attempts,
        queue::claim_step(row, now_ms, visibility_timeout_ms) matches StepView::Lease {
            attempt,
            lease_until_ms,
            fencing_token,
        } ==> attempt - row.attempt == 1 && lease_until_ms - now_ms == visibility_timeout_ms
            && fencing_token - row.fencing_token == 1,
{
    states_differ();
}

/// A message that is not available yet comes again just when it is.
pub proof fn message_comes_again_when_it_is_available(
    row: QueueRow,
    now_ms: i64,
    visibility_timeout_ms: i64,
)
    requires
        row.state@ == "pending"@,
        now_ms < row.available_at_ms < row.retention_until_ms,
        row.available_at_ms - now_ms <= i64::MAX,
    ensures
        queue::claim_step(row, now_ms, visibility_timeout_ms) matches StepView::Defer { delay_ms }
            && now_ms + delay_ms == row.available_at_ms,
{
    states_differ();
}

/// A message that is leased comes again just when the lease is over, or at once where it
/// is over already.
pub proof fn message_comes_again_when_its_lease_is_over(
    row: QueueRow,
    now_ms: i64,
    visibility_timeout_ms: i64,
    until: i64,
)
    requires
        row.state@ == "leased"@,
        row.lease_until_ms == Some(until),
        until - now_ms <= i64::MAX,
    ensures
        queue::claim_step(row, now_ms, visibility_timeout_ms) matches StepView::Defer { delay_ms }
            && (now_ms < until ==> now_ms + delay_ms == until) && (until <= now_ms ==> delay_ms
            == 1),
{
    states_differ();
}

/// A message is given up if and only if it is pending and is kept no longer, or is due
/// with no attempt left; the reason says which.
pub proof fn message_is_given_up_for_a_reason(row: QueueRow, now_ms: i64, visibility_timeout_ms: i64)
    ensures
        queue::claim_step(row, now_ms, visibility_timeout_ms) == (StepView::Bury {
            reason: "retention_expired"@,
        }) <==> row.state@ == "pending"@ && row.retention_until_ms <= now_ms,
        queue::claim_step(row, now_ms, visibility_timeout_ms) == (StepView::Bury {
            reason: "max_attempts_exhausted"@,
        }) <==> row.state@ == "pending"@ && now_ms < row.retention_until_ms && row.available_at_ms
            <= now_ms && row.max_attempts <= row.attempt,
        queue::claim_step(row, now_ms, visibility_timeout_ms) is Bury ==> row.state@
            == "pending"@,
        queue::claim_step(row, now_ms, visibility_timeout_ms) is Terminate <==> row.state@
            != "pending"@ && row.state@ != "leased"@,
{
    states_differ();
    reveal_strlit("retention_expired");
    reveal_strlit("max_attempts_exhausted");
    assert("retention_expired"@.len() == 17);
    assert("max_attempts_exhausted"@.len() == 22);
}

/// A published message says, member by member, what was given.
pub proof fn published_message_says_what_was_given(request: QueueRequest, message_id: Seq<char>)
    ensures
        json::member(queue::message_tree(request, message_id), "messageId"@) == Some(
            JsonTree::Text(message_id),
        ),
        json::member(queue::message_tree(request, message_id), "queue"@) == Some(
            JsonTree::Text(request.queue@),
        ),
        json::member(queue::message_tree(request, message_id), "payload"@) == Some(
            request.payload@,
        ),
        json::member(queue::message_tree(request, message_id), "idempotencyKey"@) == Some(
            JsonTree::Text(request.idempotency_key@),
        ),
        request.partition_key matches Some(key) ==> json::member(
            queue::message_tree(request, message_id),
            "partitionKey"@,
        ) == Some(JsonTree::Text(key@)),
        request.partition_key is None ==> json::member(
            queue::message_tree(request, message_id),
            "partitionKey"@,
        ) == Some(JsonTree::Null),
        json::member(queue::message_tree(request, message_id), "priority"@) == Some(
            JsonTree::Int(request.priority as int),
        ),
        json::member(queue::message_tree(request, message_id), "availableAtMs"@) == Some(
            JsonTree::Int(request.available_at_ms as int),
        ),
        json::member(queue::message_tree(request, message_id), "retentionUntilMs"@) == Some(
            JsonTree::Int(request.retention_until_ms as int),
        ),
        json::member(queue::message_tree(request, message_id), "maxAttempts"@) == Some(
            JsonTree::Int(request.max_attempts as int),
        ),
        queue::delivered_message(queue::message_tree(request, message_id)) == message_id,
{
    reveal_strlit("messageId");
    reveal_strlit("queue");
    reveal_strlit("payload");
    reveal_strlit("idempotencyKey");
    reveal_strlit("partitionKey");
    reveal_strlit("priority");
    reveal_strlit("availableAtMs");
    reveal_strlit("retentionUntilMs");
    reveal_strlit("maxAttempts");
    assert("messageId"@.len() == 9);
    assert("queue"@.len() == 5);
    assert("payload"@.len() == 7);
    assert("idempotencyKey"@.len() == 14);
    assert("partitionKey"@.len() == 12);
    assert("priority"@.len() == 8);
    assert("availableAtMs"@.len() == 13);
    assert("retentionUntilMs"@.len() == 16);
    assert("maxAttempts"@.len() == 11);
}

/// A delivery carries the message of the row and the lease that was taken, and counts the
/// attempt.
pub proof fn delivery_carries_the_message(
    d: QueueDelivery,
    row: QueueRow,
    message_id: Seq<char>,
    attempt: i32,
    lease_until_ms: i64,
    fencing_token: i64,
)
    requires
        queue::delivery_is_of(d, row, message_id, attempt, lease_until_ms, fencing_token),
    ensures
        d.message_id@ == message_id,
        d.queue@ == row.queue@,
        d.payload@ == row.payload@,
        d.idempotency_key@ == row.idempotency_key@,
        d.partition_key is Some <==> row.partition_key is Some,
        d.partition_key matches Some(told) ==> (row.partition_key matches Some(kept) && told@
            == kept@),
        d.priority == row.priority,
        attempt >= 0 ==> d.attempt == attempt,
        d.lease_until_ms == lease_until_ms,
        d.fencing_token == fencing_token,
{
}

/// A message that was queued under the same key before is the same one only where its
/// payload, partition, priority, times and number of attempts are the same.
pub proof fn message_queued_twice_is_the_same(request: QueueRequest, stored: StoredRequest)
    requires
        request.max_attempts <= i32::MAX,
    ensures
        queue::is_stored(request, stored) <==> {
            &&& json::alike(stored.payload@, request.payload@)
            &&& (stored.partition_key is Some <==> request.partition_key is Some)
            &&& (stored.partition_key matches Some(kept) ==> (request.partition_key matches Some(
                asked,
            ) && kept@ == asked@))
            &&& stored.priority == request.priority
            &&& stored.available_at_ms == request.available_at_ms
            &&& stored.retention_until_ms == request.retention_until_ms
            &&& stored.max_attempts == request.max_attempts
        },
{
}

/// A message can be queued if and only if its queue is named, it is kept for longer than
/// it waits, and it may be tried.
pub proof fn message_can_be_queued(request: QueueRequest)
    ensures
        queue::can_be_queued(request) <==> !text::is_blank(request.queue@)
            && request.available_at_ms < request.retention_until_ms && 0 < request.max_attempts,
{
}

/// A message is held by a fencing token only while it is leased under that token.
pub proof fn lease_is_held_by_its_token(row: QueueRow, a: i64, b: i64)
    ensures
        queue::holds(row, row.fencing_token) <==> row.state@ == "leased"@,
        queue::holds(row, a) && queue::holds(row, b) ==> a == b,
        queue::holds(row, a) ==> row.fencing_token == a,
{
}

/// What is acknowledged, retried and ended waits, is answered and is settled as such; a
/// retry is put off by the time that is left until the message is available.
pub proof fn answer_settles_what_it_answers(available_at_ms: i64, now_ms: i64, delay_ms: i64)
    ensures
        queue::answer_of(QueueReplyKind::Ack, delay_ms) == AckAnswer::Ack,
        queue::answer_of(QueueReplyKind::Terminate, delay_ms) == AckAnswer::Term,
        queue::answer_of(QueueReplyKind::Retry, delay_ms) matches AckAnswer::Nak {
            delay_ms: told,
        } && (delay_ms > 0 ==> (told matches Some(t) && t == delay_ms)) && (delay_ms <= 0
            ==> told is None),
        queue::reply_kind("acknowledging"@) == Some(QueueReplyKind::Ack),
        queue::reply_kind("retrying"@) == Some(QueueReplyKind::Retry),
        queue::reply_kind("terminating"@) == Some(QueueReplyKind::Terminate),
        queue::settled_state(QueueReplyKind::Ack) == "acked"@,
        queue::settled_state(QueueReplyKind::Retry) == "pending"@,
        queue::settled_state(QueueReplyKind::Terminate) == "dead"@,
        available_at_ms <= now_ms ==> queue::reply_delay(available_at_ms, now_ms) == 0,
        now_ms < available_at_ms && available_at_ms - now_ms <= i64::MAX ==> now_ms
            + queue::reply_delay(available_at_ms, now_ms) == available_at_ms,
{
    reveal_strlit("acknowledging");
    reveal_strlit("retrying");
    reveal_strlit("terminating");
    assert("acknowledging"@.len() == 13);
    assert("retrying"@.len() == 8);
    assert("terminating"@.len() == 11);
}

/// A lease is over from the moment that was set for it, where the delivery can be
/// answered; a reason that was stored stays, and one is stored only where the message is
/// given up.
pub proof fn lease_is_over_at_its_end(
    row: QueueRow,
    reply_subject: Option<String>,
    now_ms: i64,
    until: i64,
    kept: Option<Seq<char>>,
)
    requires
        row.state@ == "leased"@,
        row.lease_until_ms == Some(until),
        reply_subject is Some,
    ensures
        queue::lease_is_over(row, reply_subject, now_ms) <==> until <= now_ms,
        kept is Some ==> queue::over_reason(row, kept, now_ms) == kept,
        kept is None ==> (queue::over_reason(row, kept, now_ms) is Some <==> row.retention_until_ms
            <= now_ms || row.max_attempts <= row.attempt),
        kept is None && row.retention_until_ms <= now_ms ==> queue::over_reason(row, kept, now_ms)
            == Some("retention_expired"@),
        kept is None && now_ms < row.retention_until_ms && row.max_attempts <= row.attempt
            ==> queue::over_reason(row, kept, now_ms) == Some("max_attempts_exhausted"@),
{
}

} // verus!
