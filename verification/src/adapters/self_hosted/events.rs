//! The durable events: what is appended, published and replayed.

pub mod identity;

use vstd::prelude::*;

use crate::json;
use crate::json::{Json, JsonMap, JsonTree};
use crate::ports::EventAppend;
use crate::text;
use crate::text::{blank, join3, same};

use super::naming;
use super::naming::stable_id;

verus! {

/// An event of a stream.
#[derive(Debug)]
pub struct EventRecord {
    pub event_id: String,
    pub stream: String,
    pub sequence: i64,
    pub event_type: String,
    pub aggregate_id: String,
    pub payload: Json,
    pub idempotency_key: String,
    pub occurred_at_ms: i64,
}

/// An event as the database holds it.
#[derive(Debug)]
pub struct StoredEvent {
    pub record: EventRecord,
    pub retention_until_ms: Option<i64>,
    pub published_at_ms: Option<i64>,
}

/// The identifier of an event.
pub open spec fn event_of(event: EventAppend) -> Seq<char> {
    naming::identifier("event"@, event.stream@ + ":"@ + event.idempotency_key@)
}

/// Checks an event that is to be appended, and names it.
pub fn check_event(event: &EventAppend) -> (r: Result<String, String>)
    ensures
        match r {
            Ok(id) => !text::is_blank(event.stream@) && !text::is_blank(event.event_type@) && id@
                == event_of(*event),
            Err(e) => (text::is_blank(event.stream@) || text::is_blank(event.event_type@)) && e@
                == "event stream and event type are required"@,
        },
{
    if blank(event.stream.as_str()) || blank(event.event_type.as_str()) {
        return Err("event stream and event type are required".to_owned());
    }
    let seed = join3(event.stream.as_str(), ":", event.idempotency_key.as_str());
    Ok(stable_id("event", seed.as_str()))
}

/// Whether an event is the one that the database holds.
pub open spec fn is_stored(event: EventAppend, stored: StoredEvent) -> bool {
    &&& stored.record.event_type@ == event.event_type@
    &&& stored.record.aggregate_id@ == event.aggregate_id@
    &&& json::alike(stored.record.payload@, event.payload@)
    &&& stored.record.occurred_at_ms == event.occurred_at_ms
    &&& stored.retention_until_ms == event.retention_until_ms
}

/// Tells whether an event is still to be published: another event under the same key is
/// refused.
pub fn settle_event(event: &EventAppend, stored: &StoredEvent) -> (r: Result<bool, String>)
    ensures
        match r {
            Ok(publish) => is_stored(*event, *stored) && publish == stored.published_at_ms is None,
            Err(e) => !is_stored(*event, *stored) && e@
                == "event idempotency key was reused with a different request"@,
        },
{
    let same_retention: bool = match (stored.retention_until_ms, event.retention_until_ms) {
        (Some(a), Some(b)) => a == b,
        (None, None) => true,
        _ => false,
    };
    if same(stored.record.event_type.as_str(), event.event_type.as_str()) && same(
        stored.record.aggregate_id.as_str(),
        event.aggregate_id.as_str(),
    ) && stored.record.payload.equals(&event.payload) && stored.record.occurred_at_ms
        == event.occurred_at_ms && same_retention {
        Ok(stored.published_at_ms.is_none())
    } else {
        Err("event idempotency key was reused with a different request".to_owned())
    }
}

/// An event as it is published.
pub open spec fn event_tree(record: EventRecord, retention_until_ms: Option<i64>) -> JsonTree {
    JsonTree::Object(
        map![
            "eventType"@ => JsonTree::Text(record.event_type@),
            "aggregateId"@ => JsonTree::Text(record.aggregate_id@),
            "payload"@ => record.payload@,
            "idempotencyKey"@ => JsonTree::Text(record.idempotency_key@),
            "occurredAtMs"@ => JsonTree::Int(record.occurred_at_ms as int),
            "retentionUntilMs"@ => match retention_until_ms {
                Some(n) => JsonTree::Int(n as int),
                None => JsonTree::Null,
            },
        ],
    )
}

/// Writes an event as it is published.
pub fn event_value(record: &EventRecord, retention_until_ms: Option<i64>) -> (r: Json)
    ensures
        r@ == event_tree(*record, retention_until_ms),
{
    let retention: Json = match retention_until_ms {
        Some(n) => Json::Int(n),
        None => Json::Null,
    };
    Json::object(
        JsonMap::new().with("eventType", Json::text(record.event_type.as_str())).with(
            "aggregateId",
            Json::text(record.aggregate_id.as_str()),
        ).with("payload", record.payload.copy()).with(
            "idempotencyKey",
            Json::text(record.idempotency_key.as_str()),
        ).with("occurredAtMs", Json::Int(record.occurred_at_ms)).with(
            "retentionUntilMs",
            retention,
        ),
    )
}

/// Checks what events are replayed with.
pub fn check_replay(stream: &str, after_sequence: i64, limit: usize) -> (r: Result<(), String>)
    ensures
        match r {
            Ok(_) => !text::is_blank(stream@) && after_sequence >= 0 && limit > 0,
            Err(e) => (text::is_blank(stream@) || after_sequence < 0 || limit == 0) && e@
                == "invalid event replay request"@,
        },
{
    if blank(stream) || after_sequence < 0 || limit == 0 {
        Err("invalid event replay request".to_owned())
    } else {
        Ok(())
    }
}

} // verus!
