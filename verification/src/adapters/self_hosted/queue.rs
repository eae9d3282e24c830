//! The durable queue: when a message is published, leased, put off or buried.

pub mod claims;

use vstd::prelude::*;

use crate::json;
use crate::json::{Json, JsonMap, JsonTree};
use crate::text;
use crate::text::{blank, copy_option, join3, same, same_option};

use super::naming;
use super::naming::stable_id;

verus! {

/// A message that is to be queued.
#[derive(Debug)]
pub struct QueueRequest {
    pub queue: String,
    pub payload: Json,
    pub idempotency_key: String,
    pub partition_key: Option<String>,
    pub priority: i64,
    pub available_at_ms: i64,
    pub retention_until_ms: i64,
    pub max_attempts: u32,
}

/// Whether a message can be queued.
pub open spec fn can_be_queued(request: QueueRequest) -> bool {
    !text::is_blank(request.queue@) && request.retention_until_ms > request.available_at_ms
        && request.max_attempts != 0
}

/// The identifier of a message.
pub open spec fn message_of(request: QueueRequest) -> Seq<char> {
    naming::identifier("message"@, request.queue@ + ":"@ + request.idempotency_key@)
}

/// Checks a message that is to be queued, and names it.
pub fn check_request(request: &QueueRequest) -> (r: Result<String, String>)
    ensures
        match r {
            Ok(id) => can_be_queued(*request) && id@ == message_of(*request),
            Err(e) => !can_be_queued(*request) && e@ == "invalid durable queue request"@,
        },
{
    if blank(request.queue.as_str()) || request.retention_until_ms <= request.available_at_ms
        || request.max_attempts == 0 {
        return Err("invalid durable queue request".to_owned());
    }
    let seed = join3(request.queue.as_str(), ":", request.idempotency_key.as_str());
    Ok(stable_id("message", seed.as_str()))
}

/// A number of attempts as the database keeps it.
pub open spec fn kept_attempts(n: u32) -> int {
    if n <= 0x7fff_ffff {
        n as int
    } else {
        n - 0x1_0000_0000
    }
}

/// Writes a number of attempts as the database keeps it.
pub fn stored_attempts(n: u32) -> (r: i32)
    ensures
        r == kept_attempts(n),
{
    if n <= 0x7fff_ffff {
        n as i32
    } else {
        let wide: i64 = (n as i64) - 0x1_0000_0000i64;
        wide as i32
    }
}

/// What the database holds under the key of a message.
#[derive(Debug)]
pub struct StoredRequest {
    pub message_id: String,
    pub payload: Json,
    pub partition_key: Option<String>,
    pub priority: i64,
    pub available_at_ms: i64,
    pub retention_until_ms: i64,
    pub max_attempts: i32,
    pub published_at_ms: Option<i64>,
}

/// Whether a message is the one that the database holds.
pub open spec fn is_stored(request: QueueRequest, stored: StoredRequest) -> bool {
    &&& json::alike(stored.payload@, request.payload@)
    &&& text::option_text(stored.partition_key) == text::option_text(request.partition_key)
    &&& stored.priority == request.priority
    &&& stored.available_at_ms == request.available_at_ms
    &&& stored.retention_until_ms == request.retention_until_ms
    &&& stored.max_attempts == kept_attempts(request.max_attempts)
}

/// Tells under which identifier a message is queued, and whether it is still to be
/// published: another message under the same key is refused.
pub fn settle_request(request: &QueueRequest, stored: &StoredRequest) -> (r: Result<
    (String, bool),
    String,
>)
    ensures
        match r {
            Ok((id, publish)) => is_stored(*request, *stored) && id@ == stored.message_id@
                && publish == stored.published_at_ms is None,
            Err(e) => !is_stored(*request, *stored) && e@
                == "queue idempotency key was reused with a different request"@,
        },
{
    let expected: i32 = stored_attempts(request.max_attempts);
    if stored.payload.equals(&request.payload) && same_option(
        &stored.partition_key,
        &request.partition_key,
    ) && stored.priority == request.priority && stored.available_at_ms == request.available_at_ms
        && stored.retention_until_ms == request.retention_until_ms && stored.max_attempts
        == expected {
        Ok((stored.message_id.clone(), stored.published_at_ms.is_none()))
    } else {
        Err("queue idempotency key was reused with a different request".to_owned())
    }
}

/// A message as it is published.
pub open spec fn message_tree(request: QueueRequest, message_id: Seq<char>) -> JsonTree {
    JsonTree::Object(
        map![
            "messageId"@ => JsonTree::Text(message_id),
            "queue"@ => JsonTree::Text(request.queue@),
            "payload"@ => request.payload@,
            "idempotencyKey"@ => JsonTree::Text(request.idempotency_key@),
            "partitionKey"@ => json::text_or_null(text::option_text(request.partition_key)),
            "priority"@ => JsonTree::Int(request.priority as int),
            "availableAtMs"@ => JsonTree::Int(request.available_at_ms as int),
            "retentionUntilMs"@ => JsonTree::Int(request.retention_until_ms as int),
            "maxAttempts"@ => JsonTree::Int(request.max_attempts as int),
        ],
    )
}

/// Writes a message as it is published.
pub fn message_value(request: &QueueRequest, message_id: &str) -> (r: Json)
    ensures
        r@ == message_tree(*request, message_id@),
{
    Json::object(
        JsonMap::new().with("messageId", Json::text(message_id)).with(
            "queue",
            Json::text(request.queue.as_str()),
        ).with("payload", request.payload.copy()).with(
            "idempotencyKey",
            Json::text(request.idempotency_key.as_str()),
        ).with("partitionKey", Json::optional_text(&request.partition_key)).with(
            "priority",
            Json::Int(request.priority),
        ).with("availableAtMs", Json::Int(request.available_at_ms)).with(
            "retentionUntilMs",
            Json::Int(request.retention_until_ms),
        ).with("maxAttempts", Json::Large(request.max_attempts as u64)),
    )
}

/// Which message a delivery carries.
pub open spec fn delivered_message(payload: JsonTree) -> Seq<char> {
    match json::text_member(payload, "messageId"@) {
        Some(id) => id,
        None => "missing"@,
    }
}

/// Tells which message a delivery carries.
pub fn delivered_message_id(payload: &Json) -> (r: String)
    ensures
        r@ == delivered_message(payload@),
{
    match payload.text_field("messageId") {
        Some(id) => id,
        None => "missing".to_owned(),
    }
}

/// Checks what messages are claimed with.
pub fn check_claim(queue: &str, owner: &str, visibility_timeout_ms: i64, limit: usize) -> (r: Result<
    (),
    String,
>)
    ensures
        match r {
            Ok(_) => !text::is_blank(queue@) && !text::is_blank(owner@) && limit > 0
                && visibility_timeout_ms > 0,
            Err(e) => (text::is_blank(queue@) || text::is_blank(owner@) || limit == 0
                || visibility_timeout_ms <= 0) && e@ == "invalid durable queue claim"@,
        },
{
    if blank(queue) || blank(owner) || limit == 0 || visibility_timeout_ms <= 0 {
        Err("invalid durable queue claim".to_owned())
    } else {
        Ok(())
    }
}

/// A message as the database holds it.
#[derive(Debug)]
pub struct QueueRow {
    pub queue: String,
    pub payload: Json,
    pub idempotency_key: String,
    pub partition_key: Option<String>,
    pub priority: i64,
    pub available_at_ms: i64,
    pub retention_until_ms: i64,
    pub max_attempts: i32,
    pub state: String,
    pub attempt: i32,
    pub fencing_token: i64,
    pub lease_until_ms: Option<i64>,
}

/// What is to be done with a delivered message.
#[derive(Debug)]
pub enum ClaimStep {
    /// The message is done with: the delivery is to be ended.
    Terminate,
    /// The delivery is to come again, after so many milliseconds.
    Defer { delay_ms: u64 },
    /// The message is given up for the reason, and the delivery is to be ended.
    Bury { reason: &'static str },
    /// The message is to be leased.
    Lease { attempt: i32, lease_until_ms: i64, fencing_token: i64 },
}

/// What a [`ClaimStep`] says.
#[verifier::ext_equal]
pub enum StepView {
    Terminate,
    Defer { delay_ms: int },
    Bury { reason: Seq<char> },
    Lease { attempt: int, lease_until_ms: int, fencing_token: int },
}

impl View for ClaimStep {
    type V = StepView;

    open spec fn view(&self) -> StepView {
        match self {
            ClaimStep::Terminate => StepView::Terminate,
            ClaimStep::Defer { delay_ms } => StepView::Defer { delay_ms: *delay_ms as int },
            ClaimStep::Bury { reason } => StepView::Bury { reason: reason@ },
            ClaimStep::Lease { attempt, lease_until_ms, fencing_token } => StepView::Lease {
                attempt: *attempt as int,
                lease_until_ms: *lease_until_ms as int,
                fencing_token: *fencing_token as int,
            },
        }
    }
}

/// How long it is from one time to another, as far as that can be told.
pub open spec fn span(from: int, to: int) -> int {
    if to - from > i64::MAX {
        i64::MAX as int
    } else if to - from < i64::MIN {
        i64::MIN as int
    } else {
        to - from
    }
}

/// Whether a message can be leased now, but for the number of its attempts.
pub open spec fn is_ready(row: QueueRow, now_ms: i64) -> bool {
    row.state@ == "pending"@ && row.retention_until_ms > now_ms && row.available_at_ms <= now_ms
}

/// What is to be done with a delivered message.
pub open spec fn claim_step(row: QueueRow, now_ms: i64, visibility_timeout_ms: i64) -> StepView {
    if row.state@ == "acked"@ || row.state@ == "dead"@ {
        StepView::Terminate
    } else if row.state@ == "leased"@ {
        let until = match row.lease_until_ms {
            Some(t) => t as int,
            None => now_ms + 1,
        };
        let left = span(now_ms as int, until);
        StepView::Defer {
            delay_ms: if left < 1 {
                1
            } else {
                left
            },
        }
    } else if row.state@ != "pending"@ {
        StepView::Terminate
    } else if row.retention_until_ms <= now_ms {
        StepView::Bury { reason: "retention_expired"@ }
    } else if row.available_at_ms > now_ms {
        StepView::Defer { delay_ms: span(now_ms as int, row.available_at_ms as int) }
    } else if row.attempt + 1 > row.max_attempts {
        StepView::Bury { reason: "max_attempts_exhausted"@ }
    } else {
        StepView::Lease {
            attempt: row.attempt + 1,
            lease_until_ms: now_ms + visibility_timeout_ms,
            fencing_token: row.fencing_token + 1,
        }
    }
}

/// Whether the numbers of a claim stay within their types.
pub open spec fn claim_fits(row: QueueRow, now_ms: i64, visibility_timeout_ms: i64) -> bool {
    &&& row.state@ == "leased"@ ==> now_ms < i64::MAX
    &&& is_ready(row, now_ms) ==> row.attempt < i32::MAX
    &&& is_ready(row, now_ms) && row.attempt < row.max_attempts ==> row.fencing_token < i64::MAX
        && i64::MIN <= now_ms + visibility_timeout_ms <= i64::MAX
}

fn time_between(from: i64, to: i64) -> (r: i64)
    ensures
        r == span(from as int, to as int),
{
    let wide: i128 = (to as i128) - (from as i128);
    if wide > 0x7fff_ffff_ffff_ffff {
        0x7fff_ffff_ffff_ffff
    } else if wide < -0x8000_0000_0000_0000 {
        -0x8000_0000_0000_0000
    } else {
        wide as i64
    }
}

/// Decides what is to be done with a delivered message.
pub fn decide_claim(row: &QueueRow, now_ms: i64, visibility_timeout_ms: i64) -> (r: ClaimStep)
    requires
        claim_fits(*row, now_ms, visibility_timeout_ms),
    ensures
        r@ == claim_step(*row, now_ms, visibility_timeout_ms),
{
    if same(row.state.as_str(), "acked") || same(row.state.as_str(), "dead") {
        return ClaimStep::Terminate;
    }
    if same(row.state.as_str(), "leased") {
        let until: i64 = match row.lease_until_ms {
            Some(t) => t,
            None => now_ms + 1,
        };
        let left: i64 = time_between(now_ms, until);
        let delay: i64 = if left < 1 {
            1
        } else {
            left
        };
        return ClaimStep::Defer { delay_ms: delay as u64 };
    }
    if !same(row.state.as_str(), "pending") {
        return ClaimStep::Terminate;
    }
    if row.retention_until_ms <= now_ms {
        return ClaimStep::Bury { reason: "retention_expired" };
    }
    if row.available_at_ms > now_ms {
        return ClaimStep::Defer { delay_ms: time_between(now_ms, row.available_at_ms) as u64 };
    }
    let attempt: i32 = row.attempt + 1;
    if attempt > row.max_attempts {
        return ClaimStep::Bury { reason: "max_attempts_exhausted" };
    }
    ClaimStep::Lease {
        attempt,
        lease_until_ms: now_ms + visibility_timeout_ms,
        fencing_token: row.fencing_token + 1,
    }
}

/// A message that was leased.
#[derive(Debug)]
pub struct QueueDelivery {
    pub message_id: String,
    pub queue: String,
    pub payload: Json,
    pub idempotency_key: String,
    pub partition_key: Option<String>,
    pub priority: i64,
    pub attempt: u32,
    pub lease_until_ms: i64,
    pub fencing_token: i64,
}

/// A number of attempts as a delivery tells it.
pub open spec fn told_attempts(n: i32) -> int {
    if n >= 0 {
        n as int
    } else {
        n + 0x1_0000_0000
    }
}

/// Whether a delivery is that of a leased message.
pub open spec fn delivery_is_of(
    d: QueueDelivery,
    row: QueueRow,
    message_id: Seq<char>,
    attempt: i32,
    lease_until_ms: i64,
    fencing_token: i64,
) -> bool {
    &&& d.message_id@ == message_id
    &&& d.queue@ == row.queue@
    &&& d.payload@ == row.payload@
    &&& d.idempotency_key@ == row.idempotency_key@
    &&& text::option_text(d.partition_key) == text::option_text(row.partition_key)
    &&& d.priority == row.priority
    &&& d.attempt == told_attempts(attempt)
    &&& d.lease_until_ms == lease_until_ms
    &&& d.fencing_token == fencing_token
}

/// Hands out a leased message.
pub fn deliver(
    row: &QueueRow,
    message_id: &str,
    attempt: i32,
    lease_until_ms: i64,
    fencing_token: i64,
) -> (r: QueueDelivery)
    ensures
        delivery_is_of(r, *row, message_id@, attempt, lease_until_ms, fencing_token),
{
    let wide: i64 = attempt as i64;
    let told: u32 = if wide >= 0 {
        wide as u32
    } else {
        (wide + 0x1_0000_0000i64) as u32
    };
    QueueDelivery {
        message_id: message_id.to_owned(),
        queue: row.queue.clone(),
        payload: row.payload.copy(),
        idempotency_key: row.idempotency_key.clone(),
        partition_key: copy_option(&row.partition_key),
        priority: row.priority,
        attempt: told,
        lease_until_ms,
        fencing_token,
    }
}

/// What comes of claiming a delivered message.
#[derive(Debug)]
pub enum ClaimOutcome {
    Claimed(QueueDelivery),
    /// It was not claimed, and the delivery is answered.
    Answered(AckAnswer),
}

/// Tells what comes of claiming a delivered message; `updated` tells how many messages went
/// over to the lease.
pub fn settle_claim(row: &QueueRow, message_id: &str, step: ClaimStep, updated: u64) -> (r:
    ClaimOutcome)
    ensures
        match step {
            ClaimStep::Terminate | ClaimStep::Bury { .. } => r == ClaimOutcome::Answered(
                AckAnswer::Term,
            ),
            ClaimStep::Defer { delay_ms } => r == ClaimOutcome::Answered(
                AckAnswer::Nak { delay_ms: Some(delay_ms) },
            ),
            ClaimStep::Lease { attempt, lease_until_ms, fencing_token } => if updated == 1 {
                r matches ClaimOutcome::Claimed(d) && delivery_is_of(
                    d,
                    *row,
                    message_id@,
                    attempt,
                    lease_until_ms,
                    fencing_token,
                )
            } else {
                r == ClaimOutcome::Answered(AckAnswer::Nak { delay_ms: Some(1) })
            },
        },
{
    match step {
        ClaimStep::Terminate => ClaimOutcome::Answered(AckAnswer::Term),
        ClaimStep::Bury { .. } => ClaimOutcome::Answered(AckAnswer::Term),
        ClaimStep::Defer { delay_ms } => ClaimOutcome::Answered(
            AckAnswer::Nak { delay_ms: Some(delay_ms) },
        ),
        ClaimStep::Lease { attempt, lease_until_ms, fencing_token } => if updated == 1 {
            ClaimOutcome::Claimed(deliver(row, message_id, attempt, lease_until_ms, fencing_token))
        } else {
            ClaimOutcome::Answered(AckAnswer::Nak { delay_ms: Some(1) })
        },
    }
}

/// What a leased message goes over to.
#[derive(Debug)]
pub struct LeaseEnd {
    pub state: &'static str,
    pub available_at_ms: i64,
    pub reason: Option<String>,
}

/// Whether a holder of a lease holds the message still.
pub open spec fn holds(row: QueueRow, fencing_token: i64) -> bool {
    row.state@ == "leased"@ && row.fencing_token == fencing_token
}

/// The state of a message whose lease ended without success.
pub open spec fn given_back(exhausted: bool) -> Seq<char> {
    if exhausted {
        "terminating"@
    } else {
        "retrying"@
    }
}

/// Decides what becomes of a message that its holder acknowledges.
pub fn begin_queue_acknowledgement(row: &QueueRow, fencing_token: i64) -> (r: Result<
    &'static str,
    String,
>)
    ensures
        match r {
            Ok(state) => holds(*row, fencing_token) && state@ == "acknowledging"@,
            Err(e) => !holds(*row, fencing_token) && e@ == "queue fencing token is stale"@,
        },
{
    if same(row.state.as_str(), "leased") && row.fencing_token == fencing_token {
        Ok("acknowledging")
    } else {
        Err("queue fencing token is stale".to_owned())
    }
}

/// Decides what becomes of a message that its holder gives back: one that was tried often
/// enough is given up, for the reason that is given. `kept` is the reason that is stored.
pub fn begin_queue_retry(
    row: &QueueRow,
    kept: &Option<String>,
    fencing_token: i64,
    available_at_ms: i64,
    reason: &str,
) -> (r: Result<LeaseEnd, String>)
    ensures
        match r {
            Ok(end) => holds(*row, fencing_token) && end.state@ == given_back(
                row.attempt >= row.max_attempts,
            ) && end.available_at_ms == available_at_ms && text::option_text(end.reason) == (if row.attempt
                >= row.max_attempts {
                Some(reason@)
            } else {
                text::option_text(*kept)
            }),
            Err(e) => !holds(*row, fencing_token) && e@ == "queue fencing token is stale"@,
        },
{
    if !same(row.state.as_str(), "leased") || row.fencing_token != fencing_token {
        return Err("queue fencing token is stale".to_owned());
    }
    if row.attempt >= row.max_attempts {
        Ok(LeaseEnd { state: "terminating", available_at_ms, reason: Some(reason.to_owned()) })
    } else {
        Ok(LeaseEnd { state: "retrying", available_at_ms, reason: copy_option(kept) })
    }
}

/// Whether the lease of a message is over and its delivery can be answered.
pub open spec fn lease_is_over(row: QueueRow, reply_subject: Option<String>, now_ms: i64) -> bool {
    row.state@ == "leased"@ && reply_subject is Some && (row.lease_until_ms matches Some(until)
        && until <= now_ms)
}

/// The reason that is stored for a message whose lease is over.
pub open spec fn over_reason(row: QueueRow, kept: Option<Seq<char>>, now_ms: i64) -> Option<Seq<char>> {
    if row.retention_until_ms <= now_ms {
        Some(match kept {
            Some(reason) => reason,
            None => "retention_expired"@,
        })
    } else if row.attempt >= row.max_attempts {
        Some(match kept {
            Some(reason) => reason,
            None => "max_attempts_exhausted"@,
        })
    } else {
        kept
    }
}

fn reason_or(kept: &Option<String>, reason: &str) -> (r: Option<String>)
    ensures
        text::option_text(r) == Some(match *kept {
            Some(own) => own@,
            None => reason@,
        }),
{
    match kept {
        Some(own) => Some(own.clone()),
        None => Some(reason.to_owned()),
    }
}

/// Decides what becomes of a message whose lease is over: it comes again unless it was
/// tried often enough or is kept no longer. `kept` is the reason that is stored.
pub fn stage_expired_queue_reply(
    row: &QueueRow,
    reply_subject: &Option<String>,
    kept: &Option<String>,
    now_ms: i64,
) -> (r: Option<LeaseEnd>)
    ensures
        match r {
            Some(end) => lease_is_over(*row, *reply_subject, now_ms) && end.state@ == given_back(
                row.attempt >= row.max_attempts || row.retention_until_ms <= now_ms,
            ) && end.available_at_ms == (if row.available_at_ms >= now_ms {
                row.available_at_ms
            } else {
                now_ms
            }) && text::option_text(end.reason) == over_reason(
                *row,
                text::option_text(*kept),
                now_ms,
            ),
            None => !lease_is_over(*row, *reply_subject, now_ms),
        },
{
    let over: bool = match row.lease_until_ms {
        Some(until) => until <= now_ms,
        None => false,
    };
    if !over || reply_subject.is_none() || !same(row.state.as_str(), "leased") {
        return None;
    }
    let available_at_ms: i64 = if row.available_at_ms >= now_ms {
        row.available_at_ms
    } else {
        now_ms
    };
    if row.retention_until_ms <= now_ms {
        Some(
            LeaseEnd {
                state: "terminating",
                available_at_ms,
                reason: reason_or(kept, "retention_expired"),
            },
        )
    } else if row.attempt >= row.max_attempts {
        Some(
            LeaseEnd {
                state: "terminating",
                available_at_ms,
                reason: reason_or(kept, "max_attempts_exhausted"),
            },
        )
    } else {
        Some(LeaseEnd { state: "retrying", available_at_ms, reason: copy_option(kept) })
    }
}

/// How a delivery is answered.
#[derive(Clone, Copy, Debug, PartialEq, Eq, Structural)]
pub enum QueueReplyKind {
    Ack,
    Retry,
    Terminate,
}

/// The kind of answer that a state waits for.
pub open spec fn reply_kind(state: Seq<char>) -> Option<QueueReplyKind> {
    if state == "acknowledging"@ {
        Some(QueueReplyKind::Ack)
    } else if state == "retrying"@ {
        Some(QueueReplyKind::Retry)
    } else if state == "terminating"@ {
        Some(QueueReplyKind::Terminate)
    } else {
        None
    }
}

/// The state in which a message waits for its answer.
pub open spec fn waiting_state(kind: QueueReplyKind) -> Seq<char> {
    match kind {
        QueueReplyKind::Ack => "acknowledging"@,
        QueueReplyKind::Retry => "retrying"@,
        QueueReplyKind::Terminate => "terminating"@,
    }
}

/// The state of a message once its answer was sent.
pub open spec fn settled_state(kind: QueueReplyKind) -> Seq<char> {
    match kind {
        QueueReplyKind::Ack => "acked"@,
        QueueReplyKind::Retry => "pending"@,
        QueueReplyKind::Terminate => "dead"@,
    }
}

/// An answer that is to be sent.
#[derive(Debug)]
pub struct PendingQueueReply {
    pub message_id: String,
    pub fencing_token: i64,
    pub reply_subject: String,
    pub kind: QueueReplyKind,
    pub delay_ms: i64,
}

/// How long an answer puts a message off.
pub open spec fn reply_delay(available_at_ms: i64, now_ms: i64) -> int {
    let left = span(now_ms as int, available_at_ms as int);
    if left < 0 {
        0
    } else {
        left
    }
}

/// Reads the answer that a message waits for.
pub fn pending_reply(
    message_id: &str,
    fencing_token: i64,
    reply_subject: &Option<String>,
    state: &str,
    available_at_ms: i64,
    now_ms: i64,
) -> (r: Result<PendingQueueReply, String>)
    ensures
        match reply_kind(state@) {
            None => r matches Err(e) && e@ == "queue reply state is invalid"@,
            Some(kind) => match text::option_text(*reply_subject) {
                None => r matches Err(e) && e@ == "queue reply metadata is unavailable"@,
                Some(subject) => r matches Ok(p) && p.message_id@ == message_id@ && p.fencing_token
                    == fencing_token && p.reply_subject@ == subject && p.kind == kind && p.delay_ms
                    == reply_delay(available_at_ms, now_ms),
            },
        },
{
    let kind: QueueReplyKind = if same(state, "acknowledging") {
        QueueReplyKind::Ack
    } else if same(state, "retrying") {
        QueueReplyKind::Retry
    } else if same(state, "terminating") {
        QueueReplyKind::Terminate
    } else {
        return Err("queue reply state is invalid".to_owned());
    };
    let left: i64 = time_between(now_ms, available_at_ms);
    let delay_ms: i64 = if left < 0 {
        0
    } else {
        left
    };
    match reply_subject {
        Some(subject) => Ok(
            PendingQueueReply {
                message_id: message_id.to_owned(),
                fencing_token,
                reply_subject: subject.clone(),
                kind,
                delay_ms,
            },
        ),
        None => Err("queue reply metadata is unavailable".to_owned()),
    }
}

/// What is sent in answer to a delivery.
#[derive(Clone, Copy, Debug, PartialEq, Eq, Structural)]
pub enum AckAnswer {
    Ack,
    /// The delivery is to come again, at once or after so many milliseconds.
    Nak { delay_ms: Option<u64> },
    Term,
}

/// What is sent in answer to a delivery.
pub open spec fn answer_of(kind: QueueReplyKind, delay_ms: i64) -> AckAnswer {
    match kind {
        QueueReplyKind::Ack => AckAnswer::Ack,
        QueueReplyKind::Retry => if delay_ms > 0 {
            AckAnswer::Nak { delay_ms: Some(delay_ms as u64) }
        } else {
            AckAnswer::Nak { delay_ms: None }
        },
        QueueReplyKind::Terminate => AckAnswer::Term,
    }
}

/// Decides what is sent in answer to a delivery.
pub fn decide_answer(reply: &PendingQueueReply) -> (r: AckAnswer)
    ensures
        r == answer_of(reply.kind, reply.delay_ms),
{
    match reply.kind {
        QueueReplyKind::Ack => AckAnswer::Ack,
        QueueReplyKind::Retry => if reply.delay_ms > 0 {
            AckAnswer::Nak { delay_ms: Some(reply.delay_ms as u64) }
        } else {
            AckAnswer::Nak { delay_ms: None }
        },
        QueueReplyKind::Terminate => AckAnswer::Term,
    }
}

/// Names the state in which a message waits, and the one after its answer was sent.
pub fn reply_states(kind: QueueReplyKind) -> (r: (&'static str, &'static str))
    ensures
        r.0@ == waiting_state(kind),
        r.1@ == settled_state(kind),
{
    match kind {
        QueueReplyKind::Ack => ("acknowledging", "acked"),
        QueueReplyKind::Retry => ("retrying", "pending"),
        QueueReplyKind::Terminate => ("terminating", "dead"),
    }
}

/// Judges whether an answer is settled: `changed` tells how many messages went over to
/// their last state, and `current` the state of the message where none did.
pub fn finalize_reply(kind: QueueReplyKind, changed: u64, current: &Option<String>) -> (r: Result<
    (),
    String,
>)
    ensures
        match r {
            Ok(_) => changed == 1 || text::option_text(*current) == Some(settled_state(kind)),
            Err(e) => changed != 1 && text::option_text(*current) != Some(settled_state(kind)) && e@
                == "queue reply fencing token is stale"@,
        },
{
    if changed == 1 {
        return Ok(());
    }
    let (_waiting, last) = reply_states(kind);
    let settled: bool = match current {
        Some(state) => same(state.as_str(), last),
        None => false,
    };
    if settled {
        Ok(())
    } else {
        Err("queue reply fencing token is stale".to_owned())
    }
}

/// The state that waits for an answer is read back as that answer.
pub proof fn waiting_state_is_read_back(kind: QueueReplyKind)
    ensures
        reply_kind(waiting_state(kind)) == Some(kind),
{
    reveal_strlit("acknowledging");
    reveal_strlit("retrying");
    reveal_strlit("terminating");
    assert("acknowledging"@.len() != "retrying"@.len());
    assert("acknowledging"@.len() != "terminating"@.len());
    assert("retrying"@.len() != "terminating"@.len());
}

/// A message that was acknowledged or given up is never leased again.
pub proof fn settled_message_is_never_leased(row: QueueRow, now_ms: i64, visibility_timeout_ms: i64)
    requires
        row.state@ == settled_state(QueueReplyKind::Ack) || row.state@ == settled_state(
            QueueReplyKind::Terminate,
        ),
    ensures
        claim_step(row, now_ms, visibility_timeout_ms) == StepView::Terminate,
{
}

/// A lease counts one more attempt, at most as many as are allowed, and is fenced against
/// every earlier one.
pub proof fn lease_is_counted_and_fenced(row: QueueRow, now_ms: i64, visibility_timeout_ms: i64)
    ensures
        claim_step(row, now_ms, visibility_timeout_ms) matches StepView::Lease {
            attempt,
            lease_until_ms,
            fencing_token,
        } ==> attempt == row.attempt + 1 && attempt <= row.max_attempts && fencing_token
            > row.fencing_token && (visibility_timeout_ms > 0 ==> lease_until_ms > now_ms)
            && now_ms < row.retention_until_ms,
{
}

/// A message that is leased is put off until its lease is over, and not leased twice.
pub proof fn leased_message_is_put_off(row: QueueRow, now_ms: i64, visibility_timeout_ms: i64)
    requires
        row.state@ == "leased"@,
    ensures
        claim_step(row, now_ms, visibility_timeout_ms) matches StepView::Defer { delay_ms }
            && delay_ms >= 1,
{
    reveal_strlit("leased");
    reveal_strlit("acked");
    reveal_strlit("dead");
    assert("leased"@.len() != "acked"@.len());
    assert("leased"@.len() != "dead"@.len());
}

/// A message that was tried often enough is given up when its lease ends without success,
/// and one that was not comes again.
pub proof fn exhausted_message_is_given_up(exhausted: bool)
    ensures
        exhausted ==> reply_kind(given_back(exhausted)) == Some(QueueReplyKind::Terminate),
        !exhausted ==> reply_kind(given_back(exhausted)) == Some(QueueReplyKind::Retry),
{
    waiting_state_is_read_back(QueueReplyKind::Terminate);
    waiting_state_is_read_back(QueueReplyKind::Retry);
}

/// Once a message was leased anew, the holder of an earlier lease can neither acknowledge
/// it nor give it back.
pub proof fn earlier_holder_is_fenced(
    before: QueueRow,
    now_ms: i64,
    visibility_timeout_ms: i64,
    after: QueueRow,
)
    requires
        claim_step(before, now_ms, visibility_timeout_ms) matches StepView::Lease {
            fencing_token,
            ..
        } && after.fencing_token == fencing_token,
    ensures
        forall|token: i64| token <= before.fencing_token ==> !#[trigger] holds(after, token),
{
}

} // verus!
