//! What an agent learns of a position: which snapshot answers, what it shows, and when the
//! position counts as open, partly closed or closed.

use vstd::prelude::*;

use crate::agent_surfaces::position;
use crate::agent_surfaces::position::PositionFlow;
use crate::json;
use crate::json::JsonTree;
use crate::text;

verus! {

/// Whether a snapshot is of a strategy and a position, where they are asked for.
pub open spec fn is_of(
    snapshot: JsonTree,
    strategy: Option<Seq<char>>,
    position: Option<Seq<char>>,
) -> bool {
    &&& strategy matches Some(asked) ==> (json::member(snapshot, "summary"@) matches Some(summary)
        && json::member(summary, "strategyId"@) == Some(JsonTree::Text(asked)))
    &&& position matches Some(asked) ==> (json::member(snapshot, "summary"@) matches Some(summary)
        && json::member(summary, "positionId"@) == Some(JsonTree::Text(asked)))
}

/// A journal answers with the last snapshot of what is asked for, and with none only where
/// it holds none.
pub proof fn last_snapshot_answers(
    snapshots: Seq<JsonTree>,
    strategy: Option<Seq<char>>,
    position: Option<Seq<char>>,
)
    ensures
        position::latest(snapshots, strategy, position) is None <==> forall|i: int|
            0 <= i < snapshots.len() ==> !is_of(#[trigger] snapshots[i], strategy, position),
        position::latest(snapshots, strategy, position) matches Some(found) ==> exists|i: int|
            0 <= i < snapshots.len() && #[trigger] snapshots[i] == found && is_of(
                found,
                strategy,
                position,
            ) && forall|j: int|
                i < j < snapshots.len() ==> !is_of(#[trigger] snapshots[j], strategy, position),
    decreases snapshots.len(),
{
    if snapshots.len() > 0 {
        let n = snapshots.len() - 1;
        let shorter = snapshots.drop_last();
        assert(snapshots[n] == snapshots.last());
        assert(is_of(snapshots[n], strategy, position) <==> position::snapshot_fits(
            snapshots[n],
            strategy,
            position,
        ));
        if !is_of(snapshots[n], strategy, position) {
            last_snapshot_answers(shorter, strategy, position);
            assert forall|i: int| 0 <= i < n implies shorter[i] == #[trigger] snapshots[i] by {}
            match position::latest(shorter, strategy, position) {
                Some(found) => {
                    let i = choose|i: int|
                        0 <= i < shorter.len() && #[trigger] shorter[i] == found && is_of(
                            found,
                            strategy,
                            position,
                        ) && forall|j: int|
                            i < j < shorter.len() ==> !is_of(
                                #[trigger] shorter[j],
                                strategy,
                                position,
                            );
                    assert(snapshots[i] == found);
                    assert forall|j: int| i < j < snapshots.len() implies !is_of(
                        #[trigger] snapshots[j],
                        strategy,
                        position,
                    ) by {
                        if j < n {
                            assert(shorter[j] == snapshots[j]);
                        }
                    }
                },
                None => {
                    assert forall|i: int| 0 <= i < snapshots.len() implies !is_of(
                        #[trigger] snapshots[i],
                        strategy,
                        position,
                    ) by {
                        if i < n {
                            assert(shorter[i] == snapshots[i]);
                        }
                    }
                },
            }
        }
    }
}

/// A snapshot answers under the operation that was asked, counts the snapshots of the
/// journal, and is otherwise what was imported.
pub proof fn answer_is_the_snapshot(
    map: Map<Seq<char>, JsonTree>,
    summary: Map<Seq<char>, JsonTree>,
    operation: Seq<char>,
    count: int,
    key: Seq<char>,
)
    requires
        json::member(JsonTree::Object(map), "summary"@) == Some(JsonTree::Object(summary)),
    ensures
        ({
            let answer = position::relabelled(JsonTree::Object(map), operation, count);
            &&& json::member(answer, "operation"@) == Some(JsonTree::Text(operation))
            &&& json::member(answer, "summary"@) matches Some(told) && json::member(
                told,
                "snapshotCount"@,
            ) == Some(JsonTree::Int(count)) && (key != "snapshotCount"@ ==> json::member(told, key)
                == json::member(JsonTree::Object(summary), key))
            &&& key != "operation"@ && key != "summary"@ ==> json::member(answer, key)
                == json::member(JsonTree::Object(map), key)
        }),
{
    reveal_strlit("operation");
    reveal_strlit("summary");
    assert("operation"@.len() == 9);
    assert("summary"@.len() == 7);
}

/// A position is partly closed where something was closed and less than was opened, closed
/// where something was opened and as much was closed, and open otherwise.
pub proof fn status_follows_the_quantities(opened: int, closed: int)
    requires
        0 <= opened,
        0 <= closed,
    ensures
        ({
            let status = position::flow_status(
                PositionFlow {
                    any_opened: opened > 0,
                    any_closed: closed > 0,
                    closed_less: closed < opened,
                    closed_all: closed >= opened,
                },
            );
            &&& 0 < closed < opened ==> status == "partially_closed"@
            &&& 0 < opened <= closed ==> status == "closed"@
            &&& closed == 0 ==> status == "open"@
            &&& opened == 0 ==> status == "open"@
        }),
{
}

/// The quantities of some transactions and then of others are those of the first and then
/// those of the others.
pub proof fn quantities_follow_the_transactions(
    a: Seq<JsonTree>,
    b: Seq<JsonTree>,
    opening: bool,
)
    ensures
        position::spelled_quantities(a + b, opening) == position::spelled_quantities(a, opening)
            + position::spelled_quantities(b, opening),
    decreases b.len(),
{
    if b.len() == 0 {
        assert(a + b =~= a);
    } else {
        quantities_follow_the_transactions(a, b.drop_last(), opening);
        assert((a + b).drop_last() =~= a + b.drop_last());
        assert((a + b).last() == b.last());
    }
}

/// A transaction counts with the quantity that it spells, toward what was opened where its
/// event is named for opening, and toward what was closed where it is named for closing.
pub proof fn transaction_counts_as_its_event_says(
    transaction: JsonTree,
    event_id: Seq<char>,
    quantity: Seq<char>,
)
    requires
        json::member(transaction, "event_id"@) == Some(JsonTree::Text(event_id)),
        json::member(transaction, "quantity"@) == Some(JsonTree::Text(quantity)),
    ensures
        text::occurs(event_id, "open"@) ==> position::spelled_quantities(seq![transaction], true)
            == seq![quantity],
        !text::occurs(event_id, "open"@) ==> position::spelled_quantities(
            seq![transaction],
            true,
        ).len() == 0,
        text::occurs(event_id, "close"@) ==> position::spelled_quantities(
            seq![transaction],
            false,
        ) == seq![quantity],
        !text::occurs(event_id, "close"@) ==> position::spelled_quantities(
            seq![transaction],
            false,
        ).len() == 0,
{
    let one = seq![transaction];
    assert(one.last() == transaction);
    assert(one.drop_last() =~= Seq::<JsonTree>::empty());
    assert(position::spelled_quantities(one.drop_last(), true) =~= Seq::<Seq<char>>::empty());
    assert(position::spelled_quantities(one.drop_last(), false) =~= Seq::<Seq<char>>::empty());
}

/// A flattened text keeps its length and every character but colons, slashes and spaces,
/// which become underscores.
pub proof fn flattening_keeps_the_rest(s: Seq<char>, i: int)
    requires
        0 <= i < s.len(),
    ensures
        position::flat(s).len() == s.len(),
        s[i] == ':' || s[i] == '/' || s[i] == ' ' ==> position::flat(s)[i] == '_',
        s[i] != ':' && s[i] != '/' && s[i] != ' ' ==> position::flat(s)[i] == s[i],
{
}

proof fn keys_differ()
    ensures
        "schemaVersion"@.len() == 13,
        "operation"@.len() == 9,
        "summary"@.len() == 7,
        "lifecycle"@.len() == 9,
        "deepLinks"@.len() == 9,
        "exportRefs"@.len() == 10,
        "replayRefs"@.len() == 10,
        "timeline"@.len() == 8,
        "legs"@.len() == 4,
        "noAdvice"@.len() == 8,
        "operation"@[0] == 'o',
        "lifecycle"@[0] == 'l',
        "deepLinks"@[0] == 'd',
        "exportRefs"@[0] == 'e',
        "replayRefs"@[0] == 'r',
        "timeline"@[0] == 't',
        "noAdvice"@[0] == 'n',
{
    reveal_strlit("schemaVersion");
    reveal_strlit("operation");
    reveal_strlit("summary");
    reveal_strlit("lifecycle");
    reveal_strlit("deepLinks");
    reveal_strlit("exportRefs");
    reveal_strlit("replayRefs");
    reveal_strlit("timeline");
    reveal_strlit("legs");
    reveal_strlit("noAdvice");
}

/// What is shown of a position names the strategy and the position that were given, its
/// status, and the events and the legs of its ledger.
pub proof fn surface_shows_the_ledger(
    operation: Seq<char>,
    ledger: JsonTree,
    studio_base_url: Option<Seq<char>>,
    strategy: Seq<char>,
    position: Seq<char>,
    flow: PositionFlow,
)
    ensures
        ({
            let shown = position::surface_tree(
                operation,
                ledger,
                studio_base_url,
                Some(strategy),
                Some(position),
                flow,
            );
            &&& json::member(shown, "operation"@) == Some(JsonTree::Text(operation))
            &&& json::member(shown, "summary"@) matches Some(summary) && json::member(
                summary,
                "strategyId"@,
            ) == Some(JsonTree::Text(strategy)) && json::member(summary, "positionId"@) == Some(
                JsonTree::Text(position),
            ) && json::member(summary, "snapshotCount"@) == Some(JsonTree::Int(1))
            &&& json::member(shown, "lifecycle"@) matches Some(state) && json::member(
                state,
                "position_status"@,
            ) == Some(JsonTree::Text(position::flow_status(flow)))
            &&& json::member(ledger, "events"@) matches Some(JsonTree::Array(events))
                ==> json::member(shown, "timeline"@) == Some(JsonTree::Array(events))
            &&& json::member(ledger, "legs"@) matches Some(legs) ==> json::member(shown, "legs"@)
                == Some(legs)
            &&& is_of(shown, Some(strategy), Some(position))
        }),
{
    keys_differ();
    reveal_strlit("strategyId");
    reveal_strlit("positionId");
    reveal_strlit("snapshotCount");
    assert("strategyId"@[0] == 's');
    assert("positionId"@[0] == 'p');
    assert("snapshotCount"@.len() == 13);
    assert("strategyId"@.len() == 10);
    assert("positionId"@.len() == 10);
    reveal_strlit("snapshot_id");
    reveal_strlit("position_status");
    reveal_strlit("ledger_checkpoint_hash");
    reveal_strlit("side_effects");
    assert("snapshot_id"@.len() == 11);
    assert("position_status"@.len() == 15);
    assert("ledger_checkpoint_hash"@.len() == 22);
    assert("side_effects"@.len() == 12);
}

/// What is shown of a position that nothing is known of says that it is missing, and has
/// no snapshot, no events and no legs.
pub proof fn unknown_position_is_missing(
    operation: Seq<char>,
    strategy: Option<Seq<char>>,
    position: Option<Seq<char>>,
    studio_base_url: Option<Seq<char>>,
)
    ensures
        ({
            let shown = position::missing_tree(operation, strategy, position, studio_base_url);
            &&& json::member(shown, "operation"@) == Some(JsonTree::Text(operation))
            &&& json::member(shown, "summary"@) matches Some(summary) && json::member(
                summary,
                "snapshotCount"@,
            ) == Some(JsonTree::Int(0))
            &&& json::member(shown, "lifecycle"@) matches Some(state) && json::member(
                state,
                "position_status"@,
            ) == Some(JsonTree::Text("missing"@))
            &&& json::member(shown, "timeline"@) matches Some(JsonTree::Array(list)) && list.len()
                == 0
            &&& json::member(shown, "legs"@) matches Some(JsonTree::Array(list)) && list.len() == 0
        }),
{
    keys_differ();
    reveal_strlit("strategyId");
    reveal_strlit("positionId");
    reveal_strlit("snapshotCount");
    assert("snapshotCount"@.len() == 13);
    assert("strategyId"@.len() == 10);
    assert("positionId"@.len() == 10);
    reveal_strlit("snapshot_id");
    reveal_strlit("position_status");
    reveal_strlit("ledger_checkpoint_hash");
    assert("snapshot_id"@.len() == 11);
    assert("position_status"@.len() == 15);
    assert("ledger_checkpoint_hash"@.len() == 22);
}

} // verus!
