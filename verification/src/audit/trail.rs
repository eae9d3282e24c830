//! What the trail of a run says: its events member by member, and the order that an intent
//! stands for.

use vstd::prelude::*;

use crate::audit;
use crate::audit::AuditView;
use crate::json;
use crate::json::JsonTree;

verus! {

/// An event is told member by member.
pub proof fn event_is_told_member_by_member(
    e: AuditView,
)
    ensures
        ({
            let tree = audit::payload_tree(e);
            &&& json::member(tree, "stage"@) == Some(JsonTree::Text(e.stage))
            &&& json::member(tree, "strategy_id"@) == Some(JsonTree::Text(e.strategy_id))
            &&& json::member(tree, "inputs"@) == Some(JsonTree::Object(e.inputs))
            &&& json::member(tree, "outputs"@) == Some(JsonTree::Object(e.outputs))
            &&& e.run_id matches Some(id) ==> json::member(tree, "run_id"@) == Some(JsonTree::Text(id))
            &&& e.run_id is None ==> json::member(tree, "run_id"@) == Some(JsonTree::Null)
        }),
{
    reveal_strlit("stage");
    reveal_strlit("strategy_id");
    reveal_strlit("inputs");
    reveal_strlit("outputs");
    reveal_strlit("run_id");
    assert("stage"@.len() == 5);
    assert("strategy_id"@.len() == 11);
    assert("inputs"@.len() == 6);
    assert("outputs"@.len() == 7);
    assert("run_id"@.len() == 6);
    assert("inputs"@[0] == 'i');
    assert("run_id"@[0] == 'r');
}

/// A run is journaled when it starts and when it ends, each time under its own name.
pub proof fn run_is_journaled_at_both_ends(
    run_id: Seq<char>,
    strategy_id: Seq<char>,
    status: Seq<char>,
)
    ensures
        audit::started_entry(run_id, strategy_id).event_type == "audit.run.started"@,
        json::member(audit::started_entry(run_id, strategy_id).payload, "run_id"@) == Some(
            JsonTree::Text(run_id),
        ),
        json::member(audit::started_entry(run_id, strategy_id).payload, "strategy_id"@) == Some(
            JsonTree::Text(strategy_id),
        ),
        audit::ended_entry(Some(run_id), status).event_type == "audit.run.ended"@,
        json::member(audit::ended_entry(Some(run_id), status).payload, "run_id"@) == Some(
            JsonTree::Text(run_id),
        ),
        json::member(audit::ended_entry(Some(run_id), status).payload, "status"@) == Some(
            JsonTree::Text(status),
        ),
        json::member(audit::ended_entry(None, status).payload, "run_id"@) == Some(JsonTree::Null),
{
    reveal_strlit("run_id");
    reveal_strlit("strategy_id");
    reveal_strlit("status");
    assert("run_id"@.len() == 6);
    assert("strategy_id"@.len() == 11);
    assert("status"@.len() == 6);
    assert("run_id"@[0] == 'r');
    assert("status"@[0] == 's');
}

/// The order of an intent is for the symbol of its first leg, and is called by the intent.
pub proof fn order_is_that_of_the_intent(
    strategy_id: Seq<char>,
    payload: JsonTree,
    legs: Seq<JsonTree>,
    symbol: Seq<char>,
    intent: Seq<char>,
    action: Seq<char>,
)
    requires
        json::member(payload, "legs"@) == Some(JsonTree::Array(legs)),
        legs.len() > 0,
        json::member(legs[0], "symbol"@) == Some(JsonTree::Text(symbol)),
        json::member(payload, "intent_id"@) == Some(JsonTree::Text(intent)),
        json::member(payload, "action"@) == Some(JsonTree::Text(action)),
    ensures
        audit::plan_of(strategy_id, payload).strategy_id == strategy_id,
        audit::plan_of(strategy_id, payload).symbol == symbol,
        audit::plan_of(strategy_id, payload).client_order_id == intent,
        audit::plan_of(strategy_id, payload).action == action,
        json::member(payload, "providerRef"@) matches Some(JsonTree::Text(provider))
            ==> audit::plan_of(strategy_id, payload).provider_ref == Some(provider),
        json::member(payload, "providerRef"@) is None ==> audit::plan_of(
            strategy_id,
            payload,
        ).provider_ref is None,
{
}

} // verus!
