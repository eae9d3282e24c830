//! When an event that is appended again is the same one, and what is published of it.

use vstd::prelude::*;

use crate::adapters::self_hosted::events;
use crate::adapters::self_hosted::events::{EventRecord, StoredEvent};
use crate::json;
use crate::json::JsonTree;
use crate::ports::EventAppend;

verus! {

/// An event that was appended under the same key before is the same one only where its type,
/// its aggregate, its payload, its time and its retention are the same.
pub proof fn event_appended_twice_is_the_same(event: EventAppend, stored: StoredEvent)
    ensures
        events::is_stored(event, stored) <==> {
            &&& stored.record.event_type@ == event.event_type@
            &&& stored.record.aggregate_id@ == event.aggregate_id@
            &&& json::alike(stored.record.payload@, event.payload@)
            &&& stored.record.occurred_at_ms == event.occurred_at_ms
            &&& stored.retention_until_ms == event.retention_until_ms
        },
{
}

/// A published event says, member by member, what was recorded.
pub proof fn published_event_says_what_was_recorded(record: EventRecord, until: Option<i64>)
    ensures
        ({
            let tree = events::event_tree(record, until);
            &&& json::member(tree, "eventType"@) == Some(JsonTree::Text(record.event_type@))
            &&& json::member(tree, "aggregateId"@) == Some(JsonTree::Text(record.aggregate_id@))
            &&& json::member(tree, "payload"@) == Some(record.payload@)
            &&& json::member(tree, "idempotencyKey"@) == Some(
                JsonTree::Text(record.idempotency_key@),
            )
            &&& json::member(tree, "occurredAtMs"@) == Some(
                JsonTree::Int(record.occurred_at_ms as int),
            )
            &&& until matches Some(n) ==> json::member(tree, "retentionUntilMs"@) == Some(
                JsonTree::Int(n as int),
            )
            &&& until is None ==> json::member(tree, "retentionUntilMs"@) == Some(JsonTree::Null)
        }),
{
    reveal_strlit("eventType");
    reveal_strlit("aggregateId");
    reveal_strlit("payload");
    reveal_strlit("idempotencyKey");
    reveal_strlit("occurredAtMs");
    reveal_strlit("retentionUntilMs");
    assert("eventType"@.len() == 9);
    assert("aggregateId"@.len() == 11);
    assert("payload"@.len() == 7);
    assert("idempotencyKey"@.len() == 14);
    assert("occurredAtMs"@.len() == 12);
    assert("retentionUntilMs"@.len() == 16);
}

} // verus!
